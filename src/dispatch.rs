//! The mode dispatcher: a state machine that, for the requested mode, says
//! which OS or network primitive to consult next, and turns what came back
//! into the output text or a failure.
//!
//! A caller starts with [`start`], performs each [`Request`] it is handed,
//! and passes the answer to the function that the request names, until a
//! [`Step::Done`] comes back.

use vstd::prelude::*;

use crate::buffer::{name_from_buffer, read_name};
use crate::error::{HostError, NameKind};
use crate::interfaces::{usable_addresses, usable_of, InterfaceBinding, IpAddress};
use crate::mutate::{set_outcome, set_result};
use crate::resolve::{
    addresses_of, collect_resolution, first_canonical, ResolveFailure, ResolvedAddress,
};
use crate::text::{
    after_dot, after_first_dot, before_dot, before_first_dot, first_name_line, join_words, joined,
    line, name_line, views, with_newline,
};
use crate::validate::{check_hostname, valid_hostname};

verus! {

/// What to report, or which name to set; exactly one per invocation.
#[derive(Debug, PartialEq, Eq)]
pub enum Mode {
    /// The host name.
    Default,
    /// The host name up to its first dot.
    Short,
    /// The DNS domain: the canonical name after its first dot.
    Domain,
    /// The canonical (fully qualified) name.
    Fqdn,
    /// The names of all usable interface addresses.
    AllFqdns,
    /// The addresses that the host name resolves to.
    IpAddress,
    /// All usable interface addresses.
    AllIpAddress,
    /// The NIS/YP domain name.
    Nis,
    /// The host's alias names.
    Alias,
    /// Set the host name to the given name.
    SetDirect(String),
    /// Set the host name from the first name line of the given file.
    SetFromFile(String),
}

/// What to do with the host name once it has been read.
#[derive(Clone, Copy, Debug, PartialEq, Eq, Structural)]
pub enum HostQuery {
    /// Report it.
    Print,
    /// Report the part before its first dot.
    Short,
    /// Look it up forward, then report what the query asks for.
    Resolve(ResolveQuery),
    /// Show its aliases.
    Aliases,
}

/// What to report of a forward lookup of the host name.
#[derive(Clone, Copy, Debug, PartialEq, Eq, Structural)]
pub enum ResolveQuery {
    /// The canonical name after its first dot.
    Domain,
    /// The canonical name.
    Fqdn,
    /// The addresses.
    Addresses,
}

/// Work that only the caller can do, and where its answer goes.
#[derive(Debug, PartialEq, Eq)]
pub enum Request {
    /// Read the host name into a buffer; answer with [`after_host_name`].
    ReadHostName(HostQuery),
    /// Read the NIS/YP domain name into a buffer; answer with
    /// [`after_domain_name`].
    ReadDomainName,
    /// Look the name up forward, asking for its canonical name; answer with
    /// [`after_resolve`].
    Resolve(String, ResolveQuery),
    /// List the interface address bindings; answer with
    /// [`after_interfaces`], passing the flag on.
    ListInterfaces(bool),
    /// Give a display name to each address: its reverse-resolved name when
    /// the flag is set, else its numeric form; answer with
    /// [`after_describe`].
    Describe(Vec<IpAddress>, bool),
    /// Read the file at this path; answer with [`after_file`].
    ReadFile(String),
    /// Make this the host name; answer with [`after_set`].
    SetHostName(String),
    /// Show the aliases of this host name; answer with [`after_aliases`].
    ShowAliases(String),
}

/// The dispatcher's next move.
#[derive(Debug, PartialEq, Eq)]
pub enum Step {
    /// The caller must perform this request.
    Ask(Request),
    /// The work is over: the text to write to standard output, or why it failed.
    Done(Result<String, HostError>),
}

/// A [`Mode`] with its strings as text.
pub enum ModeView {
    Default,
    Short,
    Domain,
    Fqdn,
    AllFqdns,
    IpAddress,
    AllIpAddress,
    Nis,
    Alias,
    SetDirect(Seq<char>),
    SetFromFile(Seq<char>),
}

/// A [`Request`] with its strings and addresses as sequences.
pub enum RequestView {
    ReadHostName(HostQuery),
    ReadDomainName,
    Resolve(Seq<char>, ResolveQuery),
    ListInterfaces(bool),
    Describe(Seq<IpAddress>, bool),
    ReadFile(Seq<char>),
    SetHostName(Seq<char>),
    ShowAliases(Seq<char>),
}

/// A [`Step`] with its text as a sequence.
pub enum StepView {
    Ask(RequestView),
    Done(Result<Seq<char>, HostError>),
}

impl View for Mode {
    type V = ModeView;

    open spec fn view(&self) -> ModeView {
        match self {
            Mode::Default => ModeView::Default,
            Mode::Short => ModeView::Short,
            Mode::Domain => ModeView::Domain,
            Mode::Fqdn => ModeView::Fqdn,
            Mode::AllFqdns => ModeView::AllFqdns,
            Mode::IpAddress => ModeView::IpAddress,
            Mode::AllIpAddress => ModeView::AllIpAddress,
            Mode::Nis => ModeView::Nis,
            Mode::Alias => ModeView::Alias,
            Mode::SetDirect(n) => ModeView::SetDirect(n@),
            Mode::SetFromFile(p) => ModeView::SetFromFile(p@),
        }
    }
}

impl View for Request {
    type V = RequestView;

    open spec fn view(&self) -> RequestView {
        match self {
            Request::ReadHostName(q) => RequestView::ReadHostName(*q),
            Request::ReadDomainName => RequestView::ReadDomainName,
            Request::Resolve(n, q) => RequestView::Resolve(n@, *q),
            Request::ListInterfaces(b) => RequestView::ListInterfaces(*b),
            Request::Describe(a, b) => RequestView::Describe(a@, *b),
            Request::ReadFile(p) => RequestView::ReadFile(p@),
            Request::SetHostName(n) => RequestView::SetHostName(n@),
            Request::ShowAliases(n) => RequestView::ShowAliases(n@),
        }
    }
}

impl View for Step {
    type V = StepView;

    open spec fn view(&self) -> StepView {
        match self {
            Step::Ask(r) => StepView::Ask(r@),
            Step::Done(Ok(s)) => StepView::Done(Ok(s@)),
            Step::Done(Err(e)) => StepView::Done(Err(*e)),
        }
    }
}

/// The text of an optional string.
pub open spec fn opt_view(o: Option<String>) -> Option<Seq<char>> {
    match o {
        Some(s) => Some(s@),
        None => None,
    }
}

/// The texts of optional strings.
pub open spec fn opt_views(v: Seq<Option<String>>) -> Seq<Option<Seq<char>>> {
    v.map_values(|o: Option<String>| opt_view(o))
}

/// The texts that are present, in order.
pub open spec fn present(v: Seq<Option<Seq<char>>>) -> Seq<Seq<char>>
    decreases v.len(),
{
    if v.len() == 0 {
        Seq::empty()
    } else {
        match v.last() {
            Some(s) => present(v.drop_last()).push(s),
            None => present(v.drop_last()),
        }
    }
}

/// Successful work with no output.
pub open spec fn silent() -> StepView {
    StepView::Done(Ok(Seq::empty()))
}

/// A request to set the host name to `n`, which goes ahead only for a valid
/// name.
pub open spec fn change_step(n: Seq<char>) -> StepView {
    if valid_hostname(n) {
        StepView::Ask(RequestView::SetHostName(n))
    } else {
        StepView::Done(Err(HostError::InvalidName))
    }
}

/// The first move for each mode.
pub open spec fn start_step(m: ModeView) -> StepView {
    match m {
        ModeView::Default => StepView::Ask(RequestView::ReadHostName(HostQuery::Print)),
        ModeView::Short => StepView::Ask(RequestView::ReadHostName(HostQuery::Short)),
        ModeView::Domain => StepView::Ask(
            RequestView::ReadHostName(HostQuery::Resolve(ResolveQuery::Domain)),
        ),
        ModeView::Fqdn => StepView::Ask(
            RequestView::ReadHostName(HostQuery::Resolve(ResolveQuery::Fqdn)),
        ),
        ModeView::IpAddress => StepView::Ask(
            RequestView::ReadHostName(HostQuery::Resolve(ResolveQuery::Addresses)),
        ),
        ModeView::AllFqdns => StepView::Ask(RequestView::ListInterfaces(true)),
        ModeView::AllIpAddress => StepView::Ask(RequestView::ListInterfaces(false)),
        ModeView::Nis => StepView::Ask(RequestView::ReadDomainName),
        ModeView::Alias => StepView::Ask(RequestView::ReadHostName(HostQuery::Aliases)),
        ModeView::SetDirect(n) => change_step(n),
        ModeView::SetFromFile(p) => StepView::Ask(RequestView::ReadFile(p)),
    }
}

/// The move after the host name was read (or failed to be).
pub open spec fn host_name_step(q: HostQuery, read: Result<Seq<char>, HostError>) -> StepView {
    match read {
        Err(e) => StepView::Done(Err(e)),
        Ok(n) => match q {
            HostQuery::Print => StepView::Done(Ok(line(n))),
            HostQuery::Short => StepView::Done(Ok(line(before_first_dot(n)))),
            HostQuery::Resolve(r) => StepView::Ask(RequestView::Resolve(n, r)),
            HostQuery::Aliases => StepView::Ask(RequestView::ShowAliases(n)),
        },
    }
}

/// The NIS/YP domain name that stands for "not set".
pub open spec fn unset_domain() -> Seq<char> {
    seq!['(', 'n', 'o', 'n', 'e', ')']
}

/// The move after the NIS/YP domain name was read.
pub open spec fn domain_name_step(read: Result<Seq<char>, HostError>) -> StepView {
    match read {
        Err(e) => StepView::Done(Err(e)),
        Ok(d) => if d == unset_domain() {
            StepView::Done(Err(HostError::DomainNotSet))
        } else {
            StepView::Done(Ok(line(d)))
        },
    }
}

/// The error for a failed forward lookup.
pub open spec fn resolve_error(f: ResolveFailure) -> HostError {
    match f {
        ResolveFailure::NotFound => HostError::NameNotFound,
        ResolveFailure::Failed => HostError::LookupFailed,
    }
}

/// The output for a forward lookup with canonical name `c` and addresses `a`.
pub open spec fn resolved_output(q: ResolveQuery, c: Seq<char>, a: Seq<Seq<char>>) -> Seq<char> {
    match q {
        ResolveQuery::Domain => match after_first_dot(c) {
            Some(d) => line(d),
            None => Seq::empty(),
        },
        ResolveQuery::Fqdn => line(c),
        ResolveQuery::Addresses => line(joined(a)),
    }
}

/// The move after a forward lookup of the host name.
pub open spec fn resolved_step(
    q: ResolveQuery,
    r: Result<Seq<ResolvedAddress>, ResolveFailure>,
) -> StepView {
    match r {
        Err(f) => StepView::Done(Err(resolve_error(f))),
        Ok(es) => StepView::Done(Ok(resolved_output(q, first_canonical(es), addresses_of(es)))),
    }
}

/// The move after the interfaces were listed (`None`: listing failed).
pub open spec fn interfaces_step(names: bool, listed: Option<Seq<InterfaceBinding>>) -> StepView {
    match listed {
        None => StepView::Done(Err(HostError::EnumError)),
        Some(bs) => StepView::Ask(RequestView::Describe(usable_of(bs), names)),
    }
}

/// The move after the usable addresses were described: the names that
/// could be had, space-joined on one line; an address without one is left out.
pub open spec fn described_step(names: Seq<Option<Seq<char>>>) -> StepView {
    StepView::Done(Ok(line(joined(present(names)))))
}

/// The move after the name file was read (`None`: it could not be).
pub open spec fn file_step(contents: Option<Seq<char>>) -> StepView {
    match contents {
        None => StepView::Done(Err(HostError::NoSuchFile)),
        Some(c) => change_step(name_line(c)),
    }
}

/// The move after the OS was asked to set the host name.
pub open spec fn set_step(status: i32, errno: Option<i32>) -> StepView {
    match set_result(status, errno) {
        Ok(()) => silent(),
        Err(e) => StepView::Done(Err(e)),
    }
}

/// Asks to set the host name to `name` if it is valid.
pub fn request_name_change(name: String) -> (r: Step)
    ensures
        r@ == change_step(name@),
{
    if check_hostname(name.clone()) {
        Step::Ask(Request::SetHostName(name))
    } else {
        Step::Done(Err(HostError::InvalidName))
    }
}

/// The first move for `mode`.
pub fn start(mode: Mode) -> (r: Step)
    ensures
        r@ == start_step(mode@),
{
    match mode {
        Mode::Default => Step::Ask(Request::ReadHostName(HostQuery::Print)),
        Mode::Short => Step::Ask(Request::ReadHostName(HostQuery::Short)),
        Mode::Domain => Step::Ask(Request::ReadHostName(HostQuery::Resolve(ResolveQuery::Domain))),
        Mode::Fqdn => Step::Ask(Request::ReadHostName(HostQuery::Resolve(ResolveQuery::Fqdn))),
        Mode::IpAddress => Step::Ask(
            Request::ReadHostName(HostQuery::Resolve(ResolveQuery::Addresses)),
        ),
        Mode::AllFqdns => Step::Ask(Request::ListInterfaces(true)),
        Mode::AllIpAddress => Step::Ask(Request::ListInterfaces(false)),
        Mode::Nis => Step::Ask(Request::ReadDomainName),
        Mode::Alias => Step::Ask(Request::ReadHostName(HostQuery::Aliases)),
        Mode::SetDirect(name) => request_name_change(name),
        Mode::SetFromFile(path) => Step::Ask(Request::ReadFile(path)),
    }
}

/// The move after the host name was read: `status` is what the OS call
/// returned and `buf` the buffer it filled.
pub fn after_host_name(q: HostQuery, status: i32, buf: Vec<u8>) -> (r: Step)
    ensures
        r@ == host_name_step(q, read_name(status, buf@, NameKind::Host)),
{
    match name_from_buffer(status, buf, NameKind::Host) {
        Err(e) => Step::Done(Err(e)),
        Ok(n) => match q {
            HostQuery::Print => Step::Done(Ok(with_newline(n.as_str()))),
            HostQuery::Short => {
                let s = before_dot(n.as_str());
                Step::Done(Ok(with_newline(s.as_str())))
            },
            HostQuery::Resolve(rq) => Step::Ask(Request::Resolve(n, rq)),
            HostQuery::Aliases => Step::Ask(Request::ShowAliases(n)),
        },
    }
}

/// The move after the NIS/YP domain name was read: `status` is what the OS
/// call returned and `buf` the buffer it filled.
pub fn after_domain_name(status: i32, buf: Vec<u8>) -> (r: Step)
    ensures
        r@ == domain_name_step(read_name(status, buf@, NameKind::Domain)),
{
    match name_from_buffer(status, buf, NameKind::Domain) {
        Err(e) => Step::Done(Err(e)),
        Ok(d) => {
            let unset = "(none)".to_owned();
            proof {
                reveal_strlit("(none)");
                assert(unset@ =~= unset_domain());
            }
            if d == unset {
                Step::Done(Err(HostError::DomainNotSet))
            } else {
                Step::Done(Ok(with_newline(d.as_str())))
            }
        },
    }
}

/// The move after a forward lookup of the host name.
pub fn after_resolve(q: ResolveQuery, result: Result<Vec<ResolvedAddress>, ResolveFailure>) -> (r:
    Step)
    ensures
        r@ == resolved_step(
            q,
            match result {
                Ok(es) => Ok(es@),
                Err(f) => Err(f),
            },
        ),
{
    match result {
        Err(ResolveFailure::NotFound) => Step::Done(Err(HostError::NameNotFound)),
        Err(ResolveFailure::Failed) => Step::Done(Err(HostError::LookupFailed)),
        Ok(entries) => {
            let res = collect_resolution(&entries);
            match q {
                ResolveQuery::Domain => match after_dot(res.canonical_name.as_str()) {
                    Some(d) => Step::Done(Ok(with_newline(d.as_str()))),
                    None => Step::Done(Ok(String::new())),
                },
                ResolveQuery::Fqdn => Step::Done(Ok(with_newline(res.canonical_name.as_str()))),
                ResolveQuery::Addresses => {
                    let joined_addresses = join_words(&res.addresses);
                    Step::Done(Ok(with_newline(joined_addresses.as_str())))
                },
            }
        },
    }
}

/// The move after the interface bindings were listed (`None`: listing failed).
pub fn after_interfaces(names: bool, listed: Option<Vec<InterfaceBinding>>) -> (r: Step)
    ensures
        r@ == interfaces_step(
            names,
            match listed {
                Some(bs) => Some(bs@),
                None => None,
            },
        ),
{
    match listed {
        None => Step::Done(Err(HostError::EnumError)),
        Some(bindings) => Step::Ask(Request::Describe(usable_addresses(&bindings), names)),
    }
}

/// The move after each usable address was given a display name, where one
/// could be had.
pub fn after_describe(names: Vec<Option<String>>) -> (r: Step)
    ensures
        r@ == described_step(opt_views(names@)),
{
    let mut found: Vec<String> = Vec::new();
    let mut names = names;
    let ghost all = opt_views(names@);
    let mut i: usize = 0;
    let n = names.len();
    while i < n
        invariant
            n == names.len(),
            all == opt_views(names@),
            i <= n,
            views(found@) == present(all.take(i as int)),
        decreases n - i,
    {
        let ghost before = found@;
        assert(all.take(i + 1).drop_last() =~= all.take(i as int));
        match &names[i] {
            Some(s) => {
                found.push(s.clone());
                assert(views(found@) =~= views(before).push(s@));
            },
            None => {},
        }
        i = i + 1;
    }
    assert(all.take(n as int) =~= all);
    let text = join_words(&found);
    Step::Done(Ok(with_newline(text.as_str())))
}

/// The move after the name file was read (`None`: it could not be).
pub fn after_file(contents: Option<String>) -> (r: Step)
    ensures
        r@ == file_step(opt_view(contents)),
{
    match contents {
        None => Step::Done(Err(HostError::NoSuchFile)),
        Some(c) => request_name_change(first_name_line(c.as_str())),
    }
}

/// The move after the OS was asked to set the host name: `status` is what
/// the call returned and `errno` the error code it left.
pub fn after_set(status: i32, errno: Option<i32>) -> (r: Step)
    ensures
        r@ == set_step(status, errno),
{
    match set_outcome(status, errno) {
        Ok(()) => Step::Done(Ok(String::new())),
        Err(e) => Step::Done(Err(e)),
    }
}

/// The move after the aliases were shown: the work is over, with no output.
pub fn after_aliases() -> (r: Step)
    ensures
        r@ == silent(),
{
    Step::Done(Ok(String::new()))
}

} // verus!
