//! Response kinds, the per-protocol request counters and the status page.
use vstd::prelude::*;
use vstd::string::StringExecFns;
use crate::text::{decimal, push_decimal};

verus! {

/// The content type of a response body.
#[derive(Clone, Copy, Debug, PartialEq, Eq, Structural)]
pub enum ContentKind {
    Html,
    Text,
    Xml,
}

/// The three discovery protocols served.
#[derive(Clone, Copy, Debug, PartialEq, Eq, Structural)]
pub enum Protocol {
    MtaSts,
    Autodiscover,
    Autoconfig,
}

/// Process-lifetime counts of the requests served, one per protocol.
#[derive(Clone, Copy, Debug)]
pub struct ServiceStat {
    pub mtasts: u64,
    pub autodiscover: u64,
    pub autoconfig: u64,
}

/// `x + 1`, wrapping to zero past the largest value.
pub open spec fn bump(x: u64) -> u64 {
    if x == u64::MAX {
        0
    } else {
        (x + 1) as u64
    }
}

impl ServiceStat {
    /// These counts after one more request of protocol `p`.
    pub open spec fn counted(self, p: Protocol) -> ServiceStat {
        match p {
            Protocol::MtaSts => ServiceStat { mtasts: bump(self.mtasts), ..self },
            Protocol::Autodiscover => ServiceStat { autodiscover: bump(self.autodiscover), ..self },
            Protocol::Autoconfig => ServiceStat { autoconfig: bump(self.autoconfig), ..self },
        }
    }

    /// The count of protocol `p`.
    pub open spec fn count_of(self, p: Protocol) -> u64 {
        match p {
            Protocol::MtaSts => self.mtasts,
            Protocol::Autodiscover => self.autodiscover,
            Protocol::Autoconfig => self.autoconfig,
        }
    }

    /// All counts at zero.
    pub fn new() -> (r: ServiceStat)
        ensures
            r.mtasts == 0,
            r.autodiscover == 0,
            r.autoconfig == 0,
    {
        ServiceStat { mtasts: 0, autodiscover: 0, autoconfig: 0 }
    }

    /// Counts one request of protocol `p`; the other counts stay.
    pub fn count(&mut self, p: Protocol)
        ensures
            *final(self) == old(self).counted(p),
    {
        match p {
            Protocol::MtaSts => {
                self.mtasts = if self.mtasts == u64::MAX { 0 } else { self.mtasts + 1 };
            },
            Protocol::Autodiscover => {
                self.autodiscover = if self.autodiscover == u64::MAX {
                    0
                } else {
                    self.autodiscover + 1
                };
            },
            Protocol::Autoconfig => {
                self.autoconfig = if self.autoconfig == u64::MAX { 0 } else { self.autoconfig + 1 };
            },
        }
    }

    /// The count of protocol `p`.
    pub fn get(&self, p: Protocol) -> (r: u64)
        ensures
            r == self.count_of(p),
    {
        match p {
            Protocol::MtaSts => self.mtasts,
            Protocol::Autodiscover => self.autodiscover,
            Protocol::Autoconfig => self.autoconfig,
        }
    }
}

/// The HTML status page for the given counts and uptime in seconds.
pub open spec fn status_page(stat: ServiceStat, uptime: u64) -> Seq<char> {
    r#"<!DOCTYPE html><html><head><meta charset="utf-8"><title>freediscover.toast.ws</title><style>* { background: #292929; color: white; font-family: sans-serif; font-weight: normal; } html, body { margin: 0; padding: 0; width: 100vw; height: 100vh; } body { display: flex; flex-direction: column; justify-content: center; align-items: center; }</style></head><body><h1>discoveryd @ <a href="https://freediscover.toast.ws">freediscover.toast.ws</a></h1><p><b>MTA-STS:</b> "#@
        + decimal(stat.mtasts as nat) + "<br><b>AutoDiscover:</b> "@ + decimal(stat.autodiscover as nat)
        + "<br><b>AutoConfig:</b> "@ + decimal(stat.autoconfig as nat) + "<br><b>Uptime:</b> "@
        + decimal(uptime as nat) + " seconds</p></body></html>"@
}

/// The status page: status 200, HTML with the three counts and the uptime.
pub fn index(stat: &ServiceStat, uptime: u64) -> (r: (u16, (ContentKind, String)))
    ensures
        r.0 == 200,
        r.1.0 == ContentKind::Html,
        r.1.1@ == status_page(*stat, uptime),
{
    let mut s = String::from_str(
        r#"<!DOCTYPE html><html><head><meta charset="utf-8"><title>freediscover.toast.ws</title><style>* { background: #292929; color: white; font-family: sans-serif; font-weight: normal; } html, body { margin: 0; padding: 0; width: 100vw; height: 100vh; } body { display: flex; flex-direction: column; justify-content: center; align-items: center; }</style></head><body><h1>discoveryd @ <a href="https://freediscover.toast.ws">freediscover.toast.ws</a></h1><p><b>MTA-STS:</b> "#,
    );
    push_decimal(&mut s, stat.mtasts as u128);
    s.append("<br><b>AutoDiscover:</b> ");
    push_decimal(&mut s, stat.autodiscover as u128);
    s.append("<br><b>AutoConfig:</b> ");
    push_decimal(&mut s, stat.autoconfig as u128);
    s.append("<br><b>Uptime:</b> ");
    push_decimal(&mut s, uptime as u128);
    s.append(" seconds</p></body></html>");
    (200, (ContentKind::Html, s))
}

} // verus!
