//! The Autodiscover response: MobileSync, IMAP/SMTP or the in-band error.
use vstd::prelude::*;
use vstd::string::StringExecFns;
use crate::host::HostInfo;
use crate::scan::{contains, email_address, first_address_is, has_address, occurs_at};
use crate::service::{ContentKind, Protocol, ServiceStat};
use crate::text::{decimal, push_decimal, push_signed, signed_decimal};

verus! {

/// `on` for a true flag, `off` for a false one.
pub open spec fn on_off(b: bool) -> Seq<char> {
    if b {
        "on"@
    } else {
        "off"@
    }
}

/// The ActiveSync endpoint, or the empty string when there is none.
pub open spec fn url_or_empty(url: Option<String>) -> Seq<char> {
    match url {
        Some(u) => u@,
        None => Seq::empty(),
    }
}

/// The in-band error document, stamped with `time` (Unix microseconds).
pub open spec fn error_body(time: u128) -> Seq<char> {
    "<?xml version=\"1.0\" encoding=\"utf-8\" ?>\n<Autodiscover xmlns=\"http://schemas.microsoft.com/exchange/autodiscover/responseschema/2006\">\n    <Response>\n        <Error Time=\""@
        + decimal(time as nat) + "\" Id=\"2477272013\">\n            "@
        + "<ErrorCode>600</ErrorCode>"@
        + "\n            <Message>Invalid Request</Message>\n            <DebugData />\n        <Error />\n    </Response>\n</Autodiscover>"@
}

pub open spec fn display_name_el(a: Seq<char>) -> Seq<char> {
    "<DisplayName>"@ + a + "</DisplayName>"@
}

pub open spec fn address_el(a: Seq<char>) -> Seq<char> {
    "<EMailAddress>"@ + a + "</EMailAddress>"@
}

pub open spec fn url_el(u: Seq<char>) -> Seq<char> {
    "<Url>"@ + u + "</Url>"@
}

pub open spec fn name_el(u: Seq<char>) -> Seq<char> {
    "<Name>"@ + u + "</Name>"@
}

/// The MobileSync document for address `a` and endpoint `u`.
pub open spec fn mobile_sync_body(a: Seq<char>, u: Seq<char>) -> Seq<char> {
    "\n<Autodiscover xmlns=\"http://schemas.microsoft.com/exchange/autodiscover/responseschema/2006\">\"\n    <Response xmlns=\"http://schemas.microsoft.com/exchange/autodiscover/outlook/responseschema/2006a\">\n        <Culture>en:en</Culture>\n        <User>\n            "@
        + display_name_el(a) + "\n            "@ + address_el(a)
        + "\n        </User>\n        <Action>\n            <Settings>\n                <Server>\n                    <Type>MobileSync</Type>\n                    "@
        + url_el(u) + "\n                    "@ + name_el(u)
        + "\n                </Server>\n            </Settings>\n        </Action>\n    </Response>\n</Autodiscover>\n"@
}

/// One `Protocol` block of the IMAP/SMTP document.
pub open spec fn protocol_block(
    kind: Seq<char>,
    server: Seq<char>,
    port: Seq<char>,
    login: Seq<char>,
    ssl: Seq<char>,
    extra: Seq<char>,
) -> Seq<char> {
    "            <Protocol>\n                <Type>"@ + kind + "</Type>\n                <Server>"@ + server
        + "</Server>\n                <Port>"@ + port
        + "</Port>\n                <DomainRequired>off</DomainRequired>\n                <LoginName>"@
        + login + "</LoginName>\n                <SPA>off</SPA>\n                <SSL>"@ + ssl
        + "</SSL>\n                <AuthRequired>on</AuthRequired>\n"@ + extra
        + "            </Protocol>\n"@
}

pub open spec fn imap_smtp_head() -> Seq<char> {
    "<?xml version=\"1.0\" encoding=\"utf-8\" ?>\n<Autodiscover xmlns=\"http://schemas.microsoft.com/exchange/autodiscover/responseschema/2006\">\"\n    <Response xmlns=\"http://schemas.microsoft.com/exchange/autodiscover/outlook/responseschema/2006a\">\n        <Account>\n            <AccountType>email</AccountType>\n            <Action>settings</Action>\n"@
}

pub open spec fn smtp_extra() -> Seq<char> {
    "                <UsePOPAuth>on</UsePOPAuth>\n                <SMTPLast>off</SMTPLast>\n"@
}

pub open spec fn imap_smtp_tail() -> Seq<char> {
    "        </Account>\n    </Response>\n</Autodiscover>\n"@
}

/// The IMAP/SMTP document: an IMAP block, then an SMTP block, for address `a`.
pub open spec fn imap_smtp_body(info: HostInfo, a: Seq<char>) -> Seq<char> {
    imap_smtp_head() + protocol_block(
        "IMAP"@,
        info.imap_server@,
        signed_decimal(info.imap_port as int),
        a,
        on_off(info.imap_ssl),
        Seq::empty(),
    ) + protocol_block(
        "SMTP"@,
        info.smtp_server@,
        signed_decimal(info.smtp_port as int),
        a,
        on_off(info.smtp_ssl),
        smtp_extra(),
    ) + imap_smtp_tail()
}

/// The document answering a request with address `address`, at `time`.
pub open spec fn reply_body(info: HostInfo, address: Option<Seq<char>>, time: u128) -> Seq<char> {
    match address {
        None => error_body(time),
        Some(a) => if info.activesync_preferred {
            mobile_sync_body(a, url_or_empty(info.activesync_url))
        } else {
            imap_smtp_body(info, a)
        },
    }
}

/// `x + t + y` holds `t`.
pub proof fn lemma_contains_middle(x: Seq<char>, t: Seq<char>, y: Seq<char>)
    ensures
        contains(x + t + y, t),
{
    assert((x + t + y).subrange(x.len() as int, (x.len() + t.len()) as int) =~= t);
    assert(occurs_at(x + t + y, t, x.len() as int));
}

fn on_off_str(b: bool) -> (r: &'static str)
    ensures
        r@ == on_off(b),
{
    if b {
        "on"
    } else {
        "off"
    }
}

fn push_protocol(
    s: &mut String,
    kind: &str,
    server: &str,
    port: i32,
    login: &str,
    ssl: bool,
    extra: &str,
)
    ensures
        final(s)@ == old(s)@ + protocol_block(
            kind@,
            server@,
            signed_decimal(port as int),
            login@,
            on_off(ssl),
            extra@,
        ),
{
    s.append("            <Protocol>\n                <Type>");
    s.append(kind);
    s.append("</Type>\n                <Server>");
    s.append(server);
    s.append("</Server>\n                <Port>");
    push_signed(s, port);
    s.append("</Port>\n                <DomainRequired>off</DomainRequired>\n                <LoginName>");
    s.append(login);
    s.append("</LoginName>\n                <SPA>off</SPA>\n                <SSL>");
    s.append(on_off_str(ssl));
    s.append("</SSL>\n                <AuthRequired>on</AuthRequired>\n");
    s.append(extra);
    s.append("            </Protocol>\n");
    assert(final(s)@ =~= old(s)@ + protocol_block(
        kind@,
        server@,
        signed_decimal(port as int),
        login@,
        on_off(ssl),
        extra@,
    ));
}

fn error_document(time: u128) -> (r: String)
    ensures
        r@ == error_body(time),
{
    let mut s = String::from_str(
        "<?xml version=\"1.0\" encoding=\"utf-8\" ?>\n<Autodiscover xmlns=\"http://schemas.microsoft.com/exchange/autodiscover/responseschema/2006\">\n    <Response>\n        <Error Time=\"",
    );
    push_decimal(&mut s, time);
    s.append("\" Id=\"2477272013\">\n            ");
    s.append("<ErrorCode>600</ErrorCode>");
    s.append(
        "\n            <Message>Invalid Request</Message>\n            <DebugData />\n        <Error />\n    </Response>\n</Autodiscover>",
    );
    s
}

fn mobile_sync_document(a: &str, u: &str) -> (r: String)
    ensures
        r@ == mobile_sync_body(a@, u@),
{
    let mut s = String::from_str(
        "\n<Autodiscover xmlns=\"http://schemas.microsoft.com/exchange/autodiscover/responseschema/2006\">\"\n    <Response xmlns=\"http://schemas.microsoft.com/exchange/autodiscover/outlook/responseschema/2006a\">\n        <Culture>en:en</Culture>\n        <User>\n            ",
    );
    s.append("<DisplayName>");
    s.append(a);
    s.append("</DisplayName>");
    s.append("\n            ");
    s.append("<EMailAddress>");
    s.append(a);
    s.append("</EMailAddress>");
    s.append(
        "\n        </User>\n        <Action>\n            <Settings>\n                <Server>\n                    <Type>MobileSync</Type>\n                    ",
    );
    s.append("<Url>");
    s.append(u);
    s.append("</Url>");
    s.append("\n                    ");
    s.append("<Name>");
    s.append(u);
    s.append("</Name>");
    s.append(
        "\n                </Server>\n            </Settings>\n        </Action>\n    </Response>\n</Autodiscover>\n",
    );
    assert(s@ =~= mobile_sync_body(a@, u@));
    s
}

fn imap_smtp_document(info: &HostInfo, a: &str) -> (r: String)
    ensures
        r@ == imap_smtp_body(*info, a@),
{
    let mut s = String::from_str(
        "<?xml version=\"1.0\" encoding=\"utf-8\" ?>\n<Autodiscover xmlns=\"http://schemas.microsoft.com/exchange/autodiscover/responseschema/2006\">\"\n    <Response xmlns=\"http://schemas.microsoft.com/exchange/autodiscover/outlook/responseschema/2006a\">\n        <Account>\n            <AccountType>email</AccountType>\n            <Action>settings</Action>\n",
    );
    push_protocol(
        &mut s,
        "IMAP",
        info.imap_server.as_str(),
        info.imap_port,
        a,
        info.imap_ssl,
        "",
    );
    push_protocol(
        &mut s,
        "SMTP",
        info.smtp_server.as_str(),
        info.smtp_port,
        a,
        info.smtp_ssl,
        "                <UsePOPAuth>on</UsePOPAuth>\n                <SMTPLast>off</SMTPLast>\n",
    );
    s.append("        </Account>\n    </Response>\n</Autodiscover>\n");
    proof {
        reveal_strlit("");
    }
    assert(s@ =~= imap_smtp_body(*info, a@));
    s
}

/// The Autodiscover document for an already extracted address (`None` when the
/// request held none), at `now_micros` Unix microseconds.
pub fn autodiscover_reply(info: &HostInfo, address: Option<String>, now_micros: u128) -> (r:
    String)
    ensures
        r@ == reply_body(
            *info,
            match address {
                Some(a) => Some(a@),
                None => None,
            },
            now_micros,
        ),
{
    match address {
        None => error_document(now_micros),
        Some(a) => {
            if info.activesync_preferred {
                match &info.activesync_url {
                    Some(u) => mobile_sync_document(a.as_str(), u.as_str()),
                    None => {
                        proof {
                            reveal_strlit("");
                        }
                        mobile_sync_document(a.as_str(), "")
                    },
                }
            } else {
                imap_smtp_document(info, a.as_str())
            }
        },
    }
}

/// Answers an Autodiscover request with body `data` at `now_micros` Unix
/// microseconds: status 200, XML, and the request is counted whatever the variant.
pub fn autodiscover(info: HostInfo, data: String, now_micros: u128, stat: &mut ServiceStat) -> (r:
    (u16, (ContentKind, String)))
    ensures
        r.0 == 200,
        r.1.0 == ContentKind::Xml,
        *final(stat) == old(stat).counted(Protocol::Autodiscover),
        !has_address(data@) ==> r.1.1@ == error_body(now_micros),
        !has_address(data@) ==> contains(r.1.1@, "<ErrorCode>600</ErrorCode>"@),
        has_address(data@) ==> exists|a: Seq<char>|
            {
                &&& first_address_is(data@, a)
                &&& r.1.1@ == reply_body(info, Some(a), now_micros)
            },
        has_address(data@) && info.activesync_preferred ==> exists|a: Seq<char>|
            {
                &&& first_address_is(data@, a)
                &&& contains(r.1.1@, display_name_el(a))
                &&& contains(r.1.1@, address_el(a))
                &&& contains(r.1.1@, url_el(url_or_empty(info.activesync_url)))
                &&& contains(r.1.1@, name_el(url_or_empty(info.activesync_url)))
            },
        has_address(data@) && !info.activesync_preferred ==> exists|a: Seq<char>|
            {
                &&& first_address_is(data@, a)
                &&& r.1.1@ == imap_smtp_body(info, a)
            },
{
    let address = email_address(data.as_str());
    let ghost found = address;
    let body = autodiscover_reply(&info, address, now_micros);
    proof {
        match found {
            None => {
                let x = "<?xml version=\"1.0\" encoding=\"utf-8\" ?>\n<Autodiscover xmlns=\"http://schemas.microsoft.com/exchange/autodiscover/responseschema/2006\">\n    <Response>\n        <Error Time=\""@
                    + decimal(now_micros as nat) + "\" Id=\"2477272013\">\n            "@;
                lemma_contains_middle(
                    x,
                    "<ErrorCode>600</ErrorCode>"@,
                    "\n            <Message>Invalid Request</Message>\n            <DebugData />\n        <Error />\n    </Response>\n</Autodiscover>"@,
                );
            },
            Some(a) => {
                if info.activesync_preferred {
                    let u = url_or_empty(info.activesync_url);
                    let h = "\n<Autodiscover xmlns=\"http://schemas.microsoft.com/exchange/autodiscover/responseschema/2006\">\"\n    <Response xmlns=\"http://schemas.microsoft.com/exchange/autodiscover/outlook/responseschema/2006a\">\n        <Culture>en:en</Culture>\n        <User>\n            "@;
                    let m1 = "\n            "@;
                    let m2 = "\n        </User>\n        <Action>\n            <Settings>\n                <Server>\n                    <Type>MobileSync</Type>\n                    "@;
                    let m3 = "\n                    "@;
                    let t = "\n                </Server>\n            </Settings>\n        </Action>\n    </Response>\n</Autodiscover>\n"@;
                    let d = display_name_el(a@);
                    let e = address_el(a@);
                    let ue = url_el(u);
                    let ne = name_el(u);
                    assert(body@ =~= h + d + (m1 + e + m2 + ue + m3 + ne + t));
                    lemma_contains_middle(h, d, m1 + e + m2 + ue + m3 + ne + t);
                    assert(body@ =~= (h + d + m1) + e + (m2 + ue + m3 + ne + t));
                    lemma_contains_middle(h + d + m1, e, m2 + ue + m3 + ne + t);
                    assert(body@ =~= (h + d + m1 + e + m2) + ue + (m3 + ne + t));
                    lemma_contains_middle(h + d + m1 + e + m2, ue, m3 + ne + t);
                    assert(body@ =~= (h + d + m1 + e + m2 + ue + m3) + ne + t);
                    lemma_contains_middle(h + d + m1 + e + m2 + ue + m3, ne, t);
                }
            },
        }
    }
    stat.count(Protocol::Autodiscover);
    (200, (ContentKind::Xml, body))
}

} // verus!
