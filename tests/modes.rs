use rhostname::dispatch::{
    after_aliases, after_describe, after_domain_name, after_file, after_host_name,
    after_interfaces, after_resolve, after_set, start, HostQuery, Mode, Request, ResolveQuery,
    Step,
};
use rhostname::error::HostError;
use rhostname::interfaces::{is_usable, usable_addresses, InterfaceBinding, IpAddress};
use rhostname::options::{select_mode, Options};
use rhostname::resolve::{collect_resolution, ResolveFailure, ResolvedAddress};

/// A stand-in for the operating system and the network.
struct FakeOs {
    host: String,
    domain: String,
    privileged: bool,
    records: Result<Vec<(String, Option<String>)>, ResolveFailure>,
    interfaces: Option<Vec<InterfaceBinding>>,
    reverse: Vec<(IpAddress, String)>,
    file: Option<String>,
    aliases_shown: Vec<String>,
}

impl FakeOs {
    fn new(host: &str) -> FakeOs {
        FakeOs {
            host: host.to_string(),
            domain: "(none)".to_string(),
            privileged: true,
            records: Err(ResolveFailure::NotFound),
            interfaces: Some(Vec::new()),
            reverse: Vec::new(),
            file: None,
            aliases_shown: Vec::new(),
        }
    }
}

fn buffer_of(name: &str) -> Vec<u8> {
    let mut buf = vec![0u8; 255];
    buf[..name.len()].copy_from_slice(name.as_bytes());
    buf
}

fn numeric(a: &IpAddress) -> String {
    match a {
        IpAddress::V4(o) => format!("{}.{}.{}.{}", o[0], o[1], o[2], o[3]),
        IpAddress::V6(s) => s.iter().map(|x| format!("{x:x}")).collect::<Vec<_>>().join(":"),
    }
}

fn run(mode: Mode, os: &mut FakeOs) -> Result<String, HostError> {
    let mut step = start(mode);
    loop {
        step = match step {
            Step::Done(r) => return r,
            Step::Ask(Request::ReadHostName(q)) => after_host_name(q, 0, buffer_of(&os.host)),
            Step::Ask(Request::ReadDomainName) => after_domain_name(0, buffer_of(&os.domain)),
            Step::Ask(Request::Resolve(name, q)) => {
                assert_eq!(name, os.host);
                let records = os.records.clone().map(|v| {
                    v.into_iter()
                        .map(|(address, canonical_name)| ResolvedAddress { address, canonical_name })
                        .collect()
                });
                after_resolve(q, records)
            },
            Step::Ask(Request::ListInterfaces(names)) => after_interfaces(names, os.interfaces.clone()),
            Step::Ask(Request::Describe(addresses, names)) => {
                let described = addresses
                    .iter()
                    .map(|a| {
                        if names {
                            os.reverse.iter().find(|(r, _)| r == a).map(|(_, n)| n.clone())
                        } else {
                            Some(numeric(a))
                        }
                    })
                    .collect();
                after_describe(described)
            },
            Step::Ask(Request::ReadFile(_)) => after_file(os.file.clone()),
            Step::Ask(Request::SetHostName(name)) => {
                if os.privileged {
                    os.host = name;
                    after_set(0, None)
                } else {
                    after_set(-1, Some(1))
                }
            },
            Step::Ask(Request::ShowAliases(name)) => {
                os.aliases_shown.push(name);
                after_aliases()
            },
        };
    }
}

fn binding(address: Option<IpAddress>, is_loopback: bool, is_up: bool) -> InterfaceBinding {
    InterfaceBinding { address, is_loopback, is_up }
}

fn v6(first: u16, last: u16) -> IpAddress {
    IpAddress::V6([first, 0, 0, 0, 0, 0, 0, last])
}

fn sample_interfaces() -> Vec<InterfaceBinding> {
    vec![
        binding(Some(IpAddress::V4([127, 0, 0, 1])), true, true),
        binding(Some(IpAddress::V4([10, 0, 0, 7])), false, true),
        binding(None, false, true),
        binding(Some(v6(0xfe80, 1)), false, true),
        binding(Some(IpAddress::V4([192, 168, 1, 9])), false, false),
        binding(Some(v6(0xfd00, 2)), false, true),
        binding(Some(v6(0xff02, 1)), false, true),
        binding(Some(v6(0, 1)), true, true),
        binding(Some(IpAddress::V4([172, 16, 0, 3])), false, true),
    ]
}

#[test]
fn test_get() {
    let mut os = FakeOs::new("box.example.org");
    assert_eq!(run(Mode::Default, &mut os), Ok("box.example.org\n".to_string()));
}

#[test]
fn test_set() {
    let mut os = FakeOs::new("old");
    assert_eq!(run(Mode::SetDirect("test".to_string()), &mut os), Ok(String::new()));
    assert_eq!(run(Mode::Default, &mut os), Ok("test\n".to_string()));
    assert_eq!(run(Mode::SetDirect("localhost".to_string()), &mut os), Ok(String::new()));
    assert_eq!(run(Mode::Default, &mut os), Ok("localhost\n".to_string()));
}

#[test]
fn set_then_query_returns_new_name() {
    let mut os = FakeOs::new("before");
    assert_eq!(run(Mode::SetDirect("testhost".to_string()), &mut os), Ok(String::new()));
    assert_eq!(run(Mode::Default, &mut os), Ok("testhost\n".to_string()));
}

#[test]
fn test_bool() {
    let mut os = FakeOs::new("old");
    let opts = Options { boot: Some("test".to_string()), ..Options::default() };
    assert_eq!(run(select_mode(opts), &mut os), Ok(String::new()));
    assert_eq!(run(Mode::Default, &mut os), Ok("test\n".to_string()));
    let opts = Options { boot: Some("localhost".to_string()), ..Options::default() };
    assert_eq!(run(select_mode(opts), &mut os), Ok(String::new()));
    assert_eq!(run(Mode::Default, &mut os), Ok("localhost\n".to_string()));
}

#[test]
fn set_invalid_name_is_refused() {
    let mut os = FakeOs::new("keep");
    assert_eq!(run(Mode::SetDirect("bad..name".to_string()), &mut os), Err(HostError::InvalidName));
    assert_eq!(os.host, "keep");
}

#[test]
fn set_without_privilege_is_denied() {
    let mut os = FakeOs::new("keep");
    os.privileged = false;
    assert_eq!(run(Mode::SetDirect("newname".to_string()), &mut os), Err(HostError::PermissionDenied));
    assert_eq!(after_set(-1, Some(22)), Step::Done(Err(HostError::NameTooLong)));
}

#[test]
fn test_file() {
    let mut os = FakeOs::new("old");
    os.file = Some("insorker\n".to_string());
    assert_eq!(run(Mode::SetFromFile("./tests/hostname".to_string()), &mut os), Ok(String::new()));
    assert_eq!(run(Mode::Default, &mut os), Ok("insorker\n".to_string()));
}

#[test]
fn set_from_file_uses_first_name_line() {
    let mut os = FakeOs::new("old");
    os.file = Some("# comment\n\nreal-name\n".to_string());
    assert_eq!(run(Mode::SetFromFile("f".to_string()), &mut os), Ok(String::new()));
    assert_eq!(os.host, "real-name");
}

#[test]
fn set_from_missing_or_empty_file_fails() {
    let mut os = FakeOs::new("old");
    assert_eq!(run(Mode::SetFromFile("f".to_string()), &mut os), Err(HostError::NoSuchFile));
    os.file = Some("# nothing here\n".to_string());
    assert_eq!(run(Mode::SetFromFile("f".to_string()), &mut os), Err(HostError::InvalidName));
    assert_eq!(os.host, "old");
}

#[test]
fn test_short() {
    let mut os = FakeOs::new("box.example.org");
    assert_eq!(run(Mode::Short, &mut os), Ok("box\n".to_string()));
    let mut os = FakeOs::new("plain");
    assert_eq!(run(Mode::Short, &mut os), run(Mode::Default, &mut os));
}

#[test]
fn short_is_default_up_to_first_dot() {
    for name in ["a.b.c", "nodots", "x.", "one.two"] {
        let mut os = FakeOs::new(name);
        let default = run(Mode::Default, &mut os).unwrap();
        let short = run(Mode::Short, &mut os).unwrap();
        match default.find('.') {
            Some(k) => assert_eq!(short, format!("{}\n", &default[..k])),
            None => assert_eq!(short, default),
        }
    }
}

#[test]
fn host_name_read_failures() {
    assert_eq!(after_host_name(HostQuery::Print, -1, buffer_of("x")), Step::Done(Err(HostError::OsError)));
    assert_eq!(
        after_host_name(HostQuery::Short, 0, vec![b'a'; 255]),
        Step::Done(Err(HostError::BufferTooSmall(rhostname::error::NameKind::Host)))
    );
}

#[test]
fn test_yp() {
    let mut os = FakeOs::new("h");
    assert_eq!(run(Mode::Nis, &mut os), Err(HostError::DomainNotSet));
    os.domain = "corp.nis".to_string();
    assert_eq!(run(Mode::Nis, &mut os), Ok("corp.nis\n".to_string()));
}

#[test]
fn test_domain() {
    let mut os = FakeOs::new("box");
    os.records = Ok(vec![
        ("10.0.0.7".to_string(), Some("box.example.org".to_string())),
        ("10.0.0.8".to_string(), None),
    ]);
    assert_eq!(run(Mode::Domain, &mut os), Ok("example.org\n".to_string()));
    os.records = Ok(vec![("10.0.0.7".to_string(), Some("box".to_string()))]);
    assert_eq!(run(Mode::Domain, &mut os), Ok(String::new()));
}

#[test]
fn test_fqdn() {
    let mut os = FakeOs::new("box");
    os.records = Ok(vec![
        ("10.0.0.7".to_string(), Some(String::new())),
        ("10.0.0.8".to_string(), Some("box.example.org".to_string())),
        ("10.0.0.9".to_string(), Some("other.example.org".to_string())),
    ]);
    assert_eq!(run(Mode::Fqdn, &mut os), Ok("box.example.org\n".to_string()));
}

#[test]
fn test_ip_address() {
    let mut os = FakeOs::new("box");
    os.records = Ok(vec![
        ("10.0.0.8".to_string(), Some("box.example.org".to_string())),
        ("10.0.0.7".to_string(), None),
        ("fd00::7".to_string(), None),
    ]);
    assert_eq!(run(Mode::IpAddress, &mut os), Ok("10.0.0.8 10.0.0.7 fd00::7\n".to_string()));
}

#[test]
fn lookup_failures() {
    let mut os = FakeOs::new("box");
    assert_eq!(run(Mode::Fqdn, &mut os), Err(HostError::NameNotFound));
    os.records = Err(ResolveFailure::Failed);
    assert_eq!(run(Mode::IpAddress, &mut os), Err(HostError::LookupFailed));
}

#[test]
fn resolution_of_localhost_records() {
    let records = vec![ResolvedAddress {
        address: "127.0.0.1".to_string(),
        canonical_name: Some("localhost".to_string()),
    }];
    let r = collect_resolution(&records);
    assert_eq!(r.canonical_name, "localhost");
    assert!(!r.canonical_name.starts_with('.') && !r.canonical_name.ends_with('.'));
    assert_eq!(r.addresses, vec!["127.0.0.1".to_string()]);
}

#[test]
fn resolution_keeps_order_and_first_canonical() {
    let records = vec![
        ResolvedAddress { address: "b".to_string(), canonical_name: None },
        ResolvedAddress { address: "a".to_string(), canonical_name: Some("first.x".to_string()) },
        ResolvedAddress { address: "c".to_string(), canonical_name: Some("second.x".to_string()) },
    ];
    let r = collect_resolution(&records);
    assert_eq!(r.canonical_name, "first.x");
    assert_eq!(r.addresses, vec!["b".to_string(), "a".to_string(), "c".to_string()]);
    let r = collect_resolution(&Vec::new());
    assert_eq!(r.canonical_name, "");
    assert!(r.addresses.is_empty());
}

#[test]
fn interface_filter() {
    let kept = usable_addresses(&sample_interfaces());
    assert_eq!(
        kept,
        vec![IpAddress::V4([10, 0, 0, 7]), v6(0xfd00, 2), IpAddress::V4([172, 16, 0, 3])]
    );
    assert!(!is_usable(&binding(Some(v6(0xfebf, 1)), false, true)));
    assert!(is_usable(&binding(Some(v6(0xfec0, 1)), false, true)));
    assert!(is_usable(&binding(Some(v6(0xfe7f, 1)), false, true)));
    assert!(!is_usable(&binding(Some(v6(0xffff, 1)), false, true)));
}

#[test]
fn interface_filter_never_keeps_loopback_or_link_local() {
    let all = sample_interfaces();
    for a in usable_addresses(&all) {
        if let IpAddress::V6(s) = a {
            assert!(s[0] & 0xffc0 != 0xfe80);
        }
        assert!(all.iter().any(|b| b.address == Some(a) && !b.is_loopback));
        assert_ne!(a, IpAddress::V4([127, 0, 0, 1]));
    }
}

#[test]
fn test_all_ip_address() {
    let mut os = FakeOs::new("box");
    os.interfaces = Some(sample_interfaces());
    assert_eq!(run(Mode::AllIpAddress, &mut os), Ok("10.0.0.7 fd00:0:0:0:0:0:0:2 172.16.0.3\n".to_string()));
}

#[test]
fn test_all_fqdns() {
    let mut os = FakeOs::new("box");
    os.interfaces = Some(sample_interfaces());
    os.reverse = vec![
        (IpAddress::V4([172, 16, 0, 3]), "lab.example.org".to_string()),
        (IpAddress::V4([10, 0, 0, 7]), "box.example.org".to_string()),
    ];
    assert_eq!(run(Mode::AllFqdns, &mut os), Ok("box.example.org lab.example.org\n".to_string()));
}

#[test]
fn interface_listing_failure() {
    let mut os = FakeOs::new("box");
    os.interfaces = None;
    assert_eq!(run(Mode::AllFqdns, &mut os), Err(HostError::EnumError));
    os.interfaces = Some(Vec::new());
    assert_eq!(run(Mode::AllIpAddress, &mut os), Ok("\n".to_string()));
    assert_eq!(after_describe(vec![None, None]), Step::Done(Ok("\n".to_string())));
}

#[test]
fn test_alias() {
    let mut os = FakeOs::new("box.example.org");
    assert_eq!(run(Mode::Alias, &mut os), Ok(String::new()));
    assert_eq!(os.aliases_shown, vec!["box.example.org".to_string()]);
}

#[test]
fn mode_selection_order() {
    let m = select_mode(Options {
        boot: Some("a".to_string()),
        file: Some("f".to_string()),
        hostname: Some("b".to_string()),
        short: true,
        ..Options::default()
    });
    assert!(matches!(m, Mode::SetDirect(ref n) if n == "a"));
    let m = select_mode(Options { file: Some("f".to_string()), hostname: Some("b".to_string()), ..Options::default() });
    assert!(matches!(m, Mode::SetFromFile(ref p) if p == "f"));
    let m = select_mode(Options { hostname: Some("b".to_string()), alias: true, ..Options::default() });
    assert!(matches!(m, Mode::SetDirect(ref n) if n == "b"));
    let m = select_mode(Options { all_fqdns: true, all_ip_address: true, domain: true, ..Options::default() });
    assert!(matches!(m, Mode::AllIpAddress));
    let m = select_mode(Options { all_fqdns: true, fqdn: true, ..Options::default() });
    assert!(matches!(m, Mode::AllFqdns));
    let m = select_mode(Options { domain: true, fqdn: true, ip_address: true, ..Options::default() });
    assert!(matches!(m, Mode::Domain));
    let m = select_mode(Options { fqdn: true, ip_address: true, short: true, ..Options::default() });
    assert!(matches!(m, Mode::Fqdn));
    let m = select_mode(Options { ip_address: true, nis: true, ..Options::default() });
    assert!(matches!(m, Mode::IpAddress));
    let m = select_mode(Options { short: true, nis: true, ..Options::default() });
    assert!(matches!(m, Mode::Short));
    let m = select_mode(Options { nis: true, ..Options::default() });
    assert!(matches!(m, Mode::Nis));
    assert!(matches!(select_mode(Options::default()), Mode::Default));
}

#[test]
fn first_steps() {
    assert!(matches!(start(Mode::Default), Step::Ask(Request::ReadHostName(HostQuery::Print))));
    assert!(matches!(
        start(Mode::Domain),
        Step::Ask(Request::ReadHostName(HostQuery::Resolve(ResolveQuery::Domain)))
    ));
    assert!(matches!(start(Mode::AllFqdns), Step::Ask(Request::ListInterfaces(true))));
    assert!(matches!(start(Mode::AllIpAddress), Step::Ask(Request::ListInterfaces(false))));
    assert!(matches!(start(Mode::Nis), Step::Ask(Request::ReadDomainName)));
    assert!(matches!(start(Mode::SetFromFile("p".to_string())), Step::Ask(Request::ReadFile(ref p)) if p == "p"));
}
