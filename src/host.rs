//! The domain configuration record and the resolver that produces it.
//!
//! Resolution runs as a short sequence of store reads driven by the caller:
//! [`begin`] decides whether a lookup is needed at all, [`on_domain_row`] reacts
//! to the configuration row, and [`on_whitelist`] merges the mail-exchanger
//! whitelist into the final record.
use vstd::prelude::*;

verus! {

/// Mail configuration of one domain, with its ordered mail-exchanger whitelist.
pub struct HostInfo {
    pub domain: String,
    pub sts_mode: String,
    pub sts_mx: Vec<String>,
    pub imap_server: String,
    pub imap_port: i32,
    pub imap_ssl: bool,
    pub smtp_server: String,
    pub smtp_port: i32,
    pub smtp_ssl: bool,
    pub activesync_url: Option<String>,
    pub activesync_preferred: bool,
}

/// One row of the store's domain table, before the whitelist is merged in.
pub struct DomainRow {
    pub id: i32,
    pub domain: String,
    pub sts_mode: String,
    pub imap_server: String,
    pub imap_port: i32,
    pub imap_ssl: bool,
    pub smtp_server: String,
    pub smtp_port: i32,
    pub smtp_ssl: bool,
    pub activesync_url: Option<String>,
    pub activesync_preferred: bool,
}

/// A store read that failed: no connection, a timeout or a malformed reply.
pub struct StoreError;

/// What resolving a request's host came to.
pub enum Resolution {
    /// The domain is configured here.
    Resolved(HostInfo),
    /// The store answered, and has no row for the domain.
    Unconfigured,
    /// The request carries no host.
    HostMissing,
    /// A store read failed.
    StoreUnavailable,
}

/// The next thing the resolver needs.
pub enum Step {
    /// Read the configuration row of this domain.
    Lookup(String),
    /// Read the whitelist of the domain of this row.
    Whitelist(DomainRow),
    /// Resolution is over.
    Done(Resolution),
}

/// The views of a sequence of strings.
pub open spec fn views(v: Seq<String>) -> Seq<Seq<char>> {
    v.map_values(|s: String| s@)
}

/// `info` is `row` with the whitelist `mxs` merged in.
pub open spec fn merged(info: HostInfo, row: DomainRow, mxs: Seq<String>) -> bool {
    &&& info.domain@ == row.domain@
    &&& info.sts_mode@ == row.sts_mode@
    &&& views(info.sts_mx@) == views(mxs)
    &&& info.imap_server@ == row.imap_server@
    &&& info.imap_port == row.imap_port
    &&& info.imap_ssl == row.imap_ssl
    &&& info.smtp_server@ == row.smtp_server@
    &&& info.smtp_port == row.smtp_port
    &&& info.smtp_ssl == row.smtp_ssl
    &&& info.activesync_url == row.activesync_url
    &&& info.activesync_preferred == row.activesync_preferred
}

impl HostInfo {
    /// The record of `row` with the whitelist `mxs`, in the order given.
    pub fn from_row(row: DomainRow, mxs: Vec<String>) -> (r: HostInfo)
        ensures
            merged(r, row, mxs@),
    {
        HostInfo {
            domain: row.domain,
            sts_mode: row.sts_mode,
            sts_mx: mxs,
            imap_server: row.imap_server,
            imap_port: row.imap_port,
            imap_ssl: row.imap_ssl,
            smtp_server: row.smtp_server,
            smtp_port: row.smtp_port,
            smtp_ssl: row.smtp_ssl,
            activesync_url: row.activesync_url,
            activesync_preferred: row.activesync_preferred,
        }
    }
}

/// Starts resolving the bare domain of a request, `None` when the request has no host.
pub fn begin(host: Option<String>) -> (r: Step)
    ensures
        host is None ==> r matches Step::Done(Resolution::HostMissing),
        host matches Some(d) ==> r matches Step::Lookup(q) && q@ == d@,
{
    match host {
        None => Step::Done(Resolution::HostMissing),
        Some(domain) => Step::Lookup(domain),
    }
}

/// Reacts to the answer of the configuration-row read.
pub fn on_domain_row(row: Result<Option<DomainRow>, StoreError>) -> (r: Step)
    ensures
        row is Err ==> r matches Step::Done(Resolution::StoreUnavailable),
        row matches Ok(None) ==> r matches Step::Done(Resolution::Unconfigured),
        row matches Ok(Some(d)) ==> r == Step::Whitelist(d),
{
    match row {
        Err(_) => Step::Done(Resolution::StoreUnavailable),
        Ok(None) => Step::Done(Resolution::Unconfigured),
        Ok(Some(d)) => Step::Whitelist(d),
    }
}

/// Finishes resolution with the answer of the whitelist read.
pub fn on_whitelist(row: DomainRow, mxs: Result<Vec<String>, StoreError>) -> (r: Resolution)
    ensures
        mxs is Err ==> r is StoreUnavailable,
        mxs matches Ok(m) ==> r matches Resolution::Resolved(info) && merged(info, row, m@),
{
    match mxs {
        Err(_) => Resolution::StoreUnavailable,
        Ok(m) => Resolution::Resolved(HostInfo::from_row(row, m)),
    }
}

} // verus!
