//! Choosing the one mode of an invocation from its command-line switches.

use vstd::prelude::*;

use crate::dispatch::{Mode, ModeView};

verus! {

/// The switches and the operand of an invocation, as parsed.
#[derive(Debug, Default)]
pub struct Options {
    /// Show the alias names.
    pub alias: bool,
    /// Show the names of all interface addresses.
    pub all_fqdns: bool,
    /// A name to set the host name to.
    pub boot: Option<String>,
    /// Show the DNS domain.
    pub domain: bool,
    /// Show the canonical name.
    pub fqdn: bool,
    /// A file whose first name line is to become the host name.
    pub file: Option<String>,
    /// Show the addresses of the host name.
    pub ip_address: bool,
    /// Show all interface addresses.
    pub all_ip_address: bool,
    /// Show the host name up to its first dot.
    pub short: bool,
    /// Show the NIS/YP domain name.
    pub nis: bool,
    /// A name to set the host name to, given as the operand.
    pub hostname: Option<String>,
}

/// The mode that the switches select: a name to set comes first (`boot`,
/// then `file`, then the operand), then aliases, the interface modes, the
/// lookup modes, the short name and the NIS/YP domain; with none of them,
/// the host name.
pub open spec fn mode_of(o: Options) -> ModeView {
    if o.boot is Some {
        ModeView::SetDirect(o.boot.unwrap()@)
    } else if o.file is Some {
        ModeView::SetFromFile(o.file.unwrap()@)
    } else if o.hostname is Some {
        ModeView::SetDirect(o.hostname.unwrap()@)
    } else if o.alias {
        ModeView::Alias
    } else if o.all_ip_address {
        ModeView::AllIpAddress
    } else if o.all_fqdns {
        ModeView::AllFqdns
    } else if o.domain {
        ModeView::Domain
    } else if o.fqdn {
        ModeView::Fqdn
    } else if o.ip_address {
        ModeView::IpAddress
    } else if o.short {
        ModeView::Short
    } else if o.nis {
        ModeView::Nis
    } else {
        ModeView::Default
    }
}

/// The mode that the switches select.
pub fn select_mode(o: Options) -> (r: Mode)
    ensures
        r@ == mode_of(o),
{
    if let Some(name) = o.boot {
        Mode::SetDirect(name)
    } else if let Some(path) = o.file {
        Mode::SetFromFile(path)
    } else if let Some(name) = o.hostname {
        Mode::SetDirect(name)
    } else if o.alias {
        Mode::Alias
    } else if o.all_ip_address {
        Mode::AllIpAddress
    } else if o.all_fqdns {
        Mode::AllFqdns
    } else if o.domain {
        Mode::Domain
    } else if o.fqdn {
        Mode::Fqdn
    } else if o.ip_address {
        Mode::IpAddress
    } else if o.short {
        Mode::Short
    } else if o.nis {
        Mode::Nis
    } else {
        Mode::Default
    }
}

} // verus!
