//! The Autoconfig (`config-v1.1.xml`) response.
use vstd::prelude::*;
use vstd::string::StringExecFns;
use crate::host::HostInfo;
use crate::service::{ContentKind, Protocol, ServiceStat};
use crate::text::{push_signed, signed_decimal};

verus! {

/// `SSL` for a TLS endpoint, `STARTTLS` otherwise.
pub open spec fn socket_type(tls: bool) -> Seq<char> {
    if tls {
        "SSL"@
    } else {
        "STARTTLS"@
    }
}

/// The document answering a request without an address.
pub open spec fn malformed_body() -> Seq<char> {
    "<?xml version=\"1.0\" encoding=\"utf-8\" ?><error>malformed request</error>"@
}

/// One server block, between its opening and closing lines.
pub open spec fn server_block(
    open: Seq<char>,
    host: Seq<char>,
    port: Seq<char>,
    socket: Seq<char>,
    user: Seq<char>,
    close: Seq<char>,
) -> Seq<char> {
    open + "            <hostname>"@ + host + "</hostname>\n            <port>"@ + port
        + "</port>\n            <socketType>"@ + socket
        + "</socketType>\n            <authentication>password-cleartext</authentication>\n            <username>"@
        + user + "</username>\n"@ + close
}

pub open spec fn incoming_open() -> Seq<char> {
    "        <incomingServer type=\"imap\">\n"@
}

pub open spec fn incoming_close() -> Seq<char> {
    "        </incomingServer>\n"@
}

pub open spec fn outgoing_open() -> Seq<char> {
    "        <outgoingServer type=\"smtp\">\n"@
}

pub open spec fn outgoing_close() -> Seq<char> {
    "        </outgoingServer>\n"@
}

/// The `clientConfig` document of `info` for address `a`.
pub open spec fn client_config_body(info: HostInfo, a: Seq<char>) -> Seq<char> {
    "<?xml version=\"1.0\" encoding=\"utf-8\" ?>\n<clientConfig version=\"1.1\">\n    <emailProvider id=\""@
        + info.domain@ + "\">\n        <domain>"@ + info.domain@
        + "</domain>\n        <displayName>"@ + a + "</displayName>\n        <displayShortName>"@
        + info.domain@ + "</displayShortName>\n"@ + server_block(
        incoming_open(),
        info.imap_server@,
        signed_decimal(info.imap_port as int),
        socket_type(info.imap_ssl),
        a,
        incoming_close(),
    ) + server_block(
        outgoing_open(),
        info.smtp_server@,
        signed_decimal(info.smtp_port as int),
        socket_type(info.smtp_ssl),
        a,
        outgoing_close(),
    ) + "    </emailProvider>\n</clientConfig>"@
}

fn socket_type_str(tls: bool) -> (r: &'static str)
    ensures
        r@ == socket_type(tls),
{
    if tls {
        "SSL"
    } else {
        "STARTTLS"
    }
}

fn push_server(
    s: &mut String,
    open: &str,
    host: &str,
    port: i32,
    tls: bool,
    user: &str,
    close: &str,
)
    ensures
        final(s)@ == old(s)@ + server_block(
            open@,
            host@,
            signed_decimal(port as int),
            socket_type(tls),
            user@,
            close@,
        ),
{
    s.append(open);
    s.append("            <hostname>");
    s.append(host);
    s.append("</hostname>\n            <port>");
    push_signed(s, port);
    s.append("</port>\n            <socketType>");
    s.append(socket_type_str(tls));
    s.append(
        "</socketType>\n            <authentication>password-cleartext</authentication>\n            <username>",
    );
    s.append(user);
    s.append("</username>\n");
    s.append(close);
    assert(final(s)@ =~= old(s)@ + server_block(
        open@,
        host@,
        signed_decimal(port as int),
        socket_type(tls),
        user@,
        close@,
    ));
}

/// Answers an Autoconfig request: with an address, status 200 and the
/// `clientConfig` document; without one, status 400 and the error document.
/// XML either way, and the request is counted either way.
pub fn autoconfig(emailaddress: Option<String>, info: HostInfo, stat: &mut ServiceStat) -> (r: (
    u16,
    (ContentKind, String),
))
    ensures
        r.1.0 == ContentKind::Xml,
        *final(stat) == old(stat).counted(Protocol::Autoconfig),
        emailaddress is None ==> r.0 == 400 && r.1.1@ == malformed_body(),
        emailaddress matches Some(a) ==> r.0 == 200 && r.1.1@ == client_config_body(info, a@),
{
    stat.count(Protocol::Autoconfig);
    match emailaddress {
        Some(a) => {
            let mut s = String::from_str(
                "<?xml version=\"1.0\" encoding=\"utf-8\" ?>\n<clientConfig version=\"1.1\">\n    <emailProvider id=\"",
            );
            s.append(info.domain.as_str());
            s.append("\">\n        <domain>");
            s.append(info.domain.as_str());
            s.append("</domain>\n        <displayName>");
            s.append(a.as_str());
            s.append("</displayName>\n        <displayShortName>");
            s.append(info.domain.as_str());
            s.append("</displayShortName>\n");
            push_server(
                &mut s,
                "        <incomingServer type=\"imap\">\n",
                info.imap_server.as_str(),
                info.imap_port,
                info.imap_ssl,
                a.as_str(),
                "        </incomingServer>\n",
            );
            push_server(
                &mut s,
                "        <outgoingServer type=\"smtp\">\n",
                info.smtp_server.as_str(),
                info.smtp_port,
                info.smtp_ssl,
                a.as_str(),
                "        </outgoingServer>\n",
            );
            s.append("    </emailProvider>\n</clientConfig>");
            assert(s@ =~= client_config_body(info, a@));
            (200, (ContentKind::Xml, s))
        },
        None => {
            let s = String::from_str(
                "<?xml version=\"1.0\" encoding=\"utf-8\" ?><error>malformed request</error>",
            );
            (400, (ContentKind::Xml, s))
        },
    }
}

} // verus!
