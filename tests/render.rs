use discoveryd::{autoconfig, autodiscover, autodiscover_reply, email_address, index, mta_sts};
use discoveryd::{ContentKind, HostInfo, ServiceStat};

fn host(preferred: bool, url: Option<&str>, imap_ssl: bool, smtp_ssl: bool) -> HostInfo {
    HostInfo {
        domain: "example.org".to_string(),
        sts_mode: "enforce".to_string(),
        sts_mx: vec!["mx1.example.org".to_string(), "mx2.example.org".to_string()],
        imap_server: "imap.example.org".to_string(),
        imap_port: 993,
        imap_ssl,
        smtp_server: "smtp.example.org".to_string(),
        smtp_port: 587,
        smtp_ssl,
        activesync_url: url.map(|u| u.to_string()),
        activesync_preferred: preferred,
    }
}

fn expected_mobile_sync(address: &str, url: &str) -> String {
    format!(
r#"
<Autodiscover xmlns="http://schemas.microsoft.com/exchange/autodiscover/responseschema/2006">"
    <Response xmlns="http://schemas.microsoft.com/exchange/autodiscover/outlook/responseschema/2006a">
        <Culture>en:en</Culture>
        <User>
            <DisplayName>{}</DisplayName>
            <EMailAddress>{}</EMailAddress>
        </User>
        <Action>
            <Settings>
                <Server>
                    <Type>MobileSync</Type>
                    <Url>{}</Url>
                    <Name>{}</Name>
                </Server>
            </Settings>
        </Action>
    </Response>
</Autodiscover>
"#,
        address, address, url, url
    )
}

fn expected_imap_smtp(info: &HostInfo, address: &str) -> String {
    format!(
r#"<?xml version="1.0" encoding="utf-8" ?>
<Autodiscover xmlns="http://schemas.microsoft.com/exchange/autodiscover/responseschema/2006">"
    <Response xmlns="http://schemas.microsoft.com/exchange/autodiscover/outlook/responseschema/2006a">
        <Account>
            <AccountType>email</AccountType>
            <Action>settings</Action>
            <Protocol>
                <Type>IMAP</Type>
                <Server>{}</Server>
                <Port>{}</Port>
                <DomainRequired>off</DomainRequired>
                <LoginName>{}</LoginName>
                <SPA>off</SPA>
                <SSL>{}</SSL>
                <AuthRequired>on</AuthRequired>
            </Protocol>
            <Protocol>
                <Type>SMTP</Type>
                <Server>{}</Server>
                <Port>{}</Port>
                <DomainRequired>off</DomainRequired>
                <LoginName>{}</LoginName>
                <SPA>off</SPA>
                <SSL>{}</SSL>
                <AuthRequired>on</AuthRequired>
                <UsePOPAuth>on</UsePOPAuth>
                <SMTPLast>off</SMTPLast>
            </Protocol>
        </Account>
    </Response>
</Autodiscover>
"#,
        info.imap_server,
        info.imap_port,
        address,
        if info.imap_ssl { "on" } else { "off" },
        info.smtp_server,
        info.smtp_port,
        address,
        if info.smtp_ssl { "on" } else { "off" }
    )
}

fn expected_error(time: u128) -> String {
    format!(
r#"<?xml version="1.0" encoding="utf-8" ?>
<Autodiscover xmlns="http://schemas.microsoft.com/exchange/autodiscover/responseschema/2006">
    <Response>
        <Error Time="{}" Id="2477272013">
            <ErrorCode>600</ErrorCode>
            <Message>Invalid Request</Message>
            <DebugData />
        <Error />
    </Response>
</Autodiscover>"#,
        time
    )
}

fn expected_client_config(info: &HostInfo, address: &str) -> String {
    format!(
r#"<?xml version="1.0" encoding="utf-8" ?>
<clientConfig version="1.1">
    <emailProvider id="{}">
        <domain>{}</domain>
        <displayName>{}</displayName>
        <displayShortName>{}</displayShortName>
        <incomingServer type="imap">
            <hostname>{}</hostname>
            <port>{}</port>
            <socketType>{}</socketType>
            <authentication>password-cleartext</authentication>
            <username>{}</username>
        </incomingServer>
        <outgoingServer type="smtp">
            <hostname>{}</hostname>
            <port>{}</port>
            <socketType>{}</socketType>
            <authentication>password-cleartext</authentication>
            <username>{}</username>
        </outgoingServer>
    </emailProvider>
</clientConfig>"#,
        info.domain,
        info.domain,
        address,
        info.domain,
        info.imap_server,
        info.imap_port,
        if info.imap_ssl { "SSL" } else { "STARTTLS" },
        address,
        info.smtp_server,
        info.smtp_port,
        if info.smtp_ssl { "SSL" } else { "STARTTLS" },
        address
    )
}

#[test]
fn mta_sts_lists_whitelist_in_order() {
    let mut stat = ServiceStat::new();
    let (status, (kind, body)) = mta_sts(host(false, None, true, true), &mut stat);
    assert_eq!(status, 200);
    assert_eq!(kind, ContentKind::Text);
    assert_eq!(
        body,
        "version: STSv1\nmode: enforce\nmx: mx1.example.org\nmx: mx2.example.org\nmax-age: 86400\n"
    );
    assert_eq!((stat.mtasts, stat.autodiscover, stat.autoconfig), (1, 0, 0));
}

#[test]
fn mta_sts_empty_whitelist() {
    let mut stat = ServiceStat::new();
    let mut info = host(false, None, true, true);
    info.sts_mx = Vec::new();
    info.sts_mode = "testing".to_string();
    let (_, (_, body)) = mta_sts(info, &mut stat);
    assert_eq!(body, "version: STSv1\nmode: testing\nmax-age: 86400\n");
}

#[test]
fn autodiscover_without_address_is_error_600() {
    let mut stat = ServiceStat::new();
    let data = "<Autodiscover><Request><Foo>x</Foo></Request></Autodiscover>".to_string();
    let (status, (kind, body)) = autodiscover(host(true, Some("https://as"), true, true), data, 1234567, &mut stat);
    assert_eq!(status, 200);
    assert_eq!(kind, ContentKind::Xml);
    assert_eq!(body, expected_error(1234567));
    assert!(body.contains("<ErrorCode>600</ErrorCode>"));
    assert_eq!((stat.mtasts, stat.autodiscover, stat.autoconfig), (0, 1, 0));
}

#[test]
fn autodiscover_error_time_zero_and_large() {
    let info = host(false, None, true, true);
    assert_eq!(autodiscover_reply(&info, None, 0), expected_error(0));
    let big: u128 = 1_700_000_000_123_456;
    assert_eq!(autodiscover_reply(&info, None, big), expected_error(big));
}

#[test]
fn autodiscover_mobile_sync_variant() {
    let mut stat = ServiceStat::new();
    let data = "<Request><EMailAddress>user@example.org</EMailAddress></Request>".to_string();
    let (status, (_, body)) = autodiscover(
        host(true, Some("https://sync.example.org/Microsoft-Server-ActiveSync"), true, true),
        data,
        1,
        &mut stat,
    );
    assert_eq!(status, 200);
    assert_eq!(
        body,
        expected_mobile_sync("user@example.org", "https://sync.example.org/Microsoft-Server-ActiveSync")
    );
}

#[test]
fn autodiscover_mobile_sync_without_url_is_empty() {
    let mut stat = ServiceStat::new();
    let data = "<EMailAddress>a@b.c</EMailAddress>".to_string();
    let (_, (_, body)) = autodiscover(host(true, None, true, true), data, 1, &mut stat);
    assert_eq!(body, expected_mobile_sync("a@b.c", ""));
    assert!(body.contains("<Url></Url>"));
    assert!(body.contains("<Name></Name>"));
}

#[test]
fn autodiscover_imap_smtp_variant() {
    let mut stat = ServiceStat::new();
    let info = host(false, Some("https://unused"), true, false);
    let expected = expected_imap_smtp(&info, "user@example.org");
    let data = "<EMailAddress>user@example.org</EMailAddress>".to_string();
    let (status, (_, body)) = autodiscover(info, data, 1, &mut stat);
    assert_eq!(status, 200);
    assert_eq!(body, expected);
    let imap = body.find("<Type>IMAP</Type>").unwrap();
    let smtp = body.find("<Type>SMTP</Type>").unwrap();
    assert!(imap < smtp);
    assert_eq!(body.matches("<Protocol>").count(), 2);
    assert!(body.contains("<SSL>on</SSL>") && body.contains("<SSL>off</SSL>"));
}

#[test]
fn autodiscover_negative_port_rendered_with_sign() {
    let mut info = host(false, None, false, false);
    info.imap_port = -1;
    info.smtp_port = 0;
    let expected = expected_imap_smtp(&info, "x");
    assert_eq!(autodiscover_reply(&info, Some("x".to_string()), 5), expected);
}

#[test]
fn address_is_first_and_shortest() {
    let data = "a<EMailAddress>one</EMailAddress><EMailAddress>two</EMailAddress>";
    assert_eq!(email_address(data), Some("one".to_string()));
    let data = "<EMailAddress>x<EMailAddress>y</EMailAddress>";
    assert_eq!(email_address(data), Some("x<EMailAddress>y".to_string()));
    assert_eq!(email_address("<EMailAddress></EMailAddress>"), Some(String::new()));
}

#[test]
fn address_does_not_span_lines() {
    assert_eq!(email_address("<EMailAddress>a\nb</EMailAddress>"), None);
    let data = "<EMailAddress>a\nb</EMailAddress><EMailAddress>c</EMailAddress>";
    assert_eq!(email_address(data), Some("c".to_string()));
    assert_eq!(email_address("<EMailAddress>unterminated"), None);
    assert_eq!(email_address(""), None);
}

#[test]
fn autoconfig_without_address_is_400() {
    let mut stat = ServiceStat::new();
    let (status, (kind, body)) = autoconfig(None, host(false, None, true, true), &mut stat);
    assert_eq!(status, 400);
    assert_eq!(kind, ContentKind::Xml);
    assert_eq!(body, r#"<?xml version="1.0" encoding="utf-8" ?><error>malformed request</error>"#);
    assert_eq!((stat.mtasts, stat.autodiscover, stat.autoconfig), (0, 0, 1));
}

#[test]
fn autoconfig_with_address() {
    let mut stat = ServiceStat::new();
    let info = host(false, None, true, false);
    let expected = expected_client_config(&info, "user@example.org");
    let (status, (_, body)) = autoconfig(Some("user@example.org".to_string()), info, &mut stat);
    assert_eq!(status, 200);
    assert_eq!(body, expected);
    assert!(body.contains("<socketType>SSL</socketType>"));
    assert!(body.contains("<socketType>STARTTLS</socketType>"));
    assert_eq!(body.matches("<username>user@example.org</username>").count(), 2);
    assert_eq!(stat.autoconfig, 1);
}

#[test]
fn status_page_shows_counts_and_uptime() {
    let stat = ServiceStat { mtasts: 3, autodiscover: 0, autoconfig: 12 };
    let (status, (kind, body)) = index(&stat, 3600);
    assert_eq!(status, 200);
    assert_eq!(kind, ContentKind::Html);
    let expected = format!(
        "<!DOCTYPE html><html><head><meta charset=\"utf-8\"><title>freediscover.toast.ws</title><style>* {{ background: #292929; color: white; font-family: sans-serif; font-weight: normal; }} html, body {{ margin: 0; padding: 0; width: 100vw; height: 100vh; }} body {{ display: flex; flex-direction: column; justify-content: center; align-items: center; }}</style></head><body><h1>discoveryd @ <a href=\"https://freediscover.toast.ws\">freediscover.toast.ws</a></h1><p><b>MTA-STS:</b> {}<br><b>AutoDiscover:</b> {}<br><b>AutoConfig:</b> {}<br><b>Uptime:</b> {} seconds</p></body></html>",
        3, 0, 12, 3600
    );
    assert_eq!(body, expected);
}

#[test]
fn counter_wraps_at_maximum() {
    let mut stat = ServiceStat { mtasts: u64::MAX, autodiscover: 7, autoconfig: 9 };
    stat.count(discoveryd::Protocol::MtaSts);
    assert_eq!((stat.mtasts, stat.autodiscover, stat.autoconfig), (0, 7, 9));
}
