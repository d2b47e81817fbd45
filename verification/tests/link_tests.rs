use ssr_gtk::link::{link_payload, query_value, ssr_record_parse};
use ssr_gtk::ssr_url_parse;

fn b64(text: &str) -> String {
    base64::encode_config(text, base64::URL_SAFE)
}

fn b64_bare(text: &str) -> String {
    base64::encode_config(text, base64::URL_SAFE_NO_PAD)
}

fn link_of(record: &str) -> String {
    format!("ssr://{}", b64(record))
}

#[test]
fn link_with_remarks_and_group_decodes() {
    let record = "127.0.0.1:1080:origin:aes-256-cfb:plain:cGFzc3dvcmQwMA==/?remarks=VGVzdA==&group=R3JvdXAx";
    let config = ssr_url_parse(link_of(record)).expect("a well-formed link");
    assert_eq!(config.remote_addr, "127.0.0.1");
    assert_eq!(config.remote_port, "1080");
    assert_eq!(config.protocol, "origin");
    assert_eq!(config.method, "aes-256-cfb");
    assert_eq!(config.obfs, "plain");
    assert_eq!(config.password, "password00");
    assert_eq!(config.remarks, "Test");
    assert_eq!(config.group, "Group1");
    assert_eq!(config.obfsparam, "");
    assert_eq!(config.protoparam, "");
    assert_eq!(config.local_addr, "127.0.0.1");
    assert_eq!(config.local_port, "1080");
    assert_eq!(config.timeout, "300");
    assert_eq!(config.delay, "0 ms");
}

#[test]
fn query_outside_the_payload_is_no_base64() {
    let link = "ssr://MTI3LjAuMC4xOjEwODA6b3JpZ2luOmFlcy0yNTYtY2ZiOnBsYWluOmNHRnpjM2R2Y21Rd01BPT0/?remarks=VGVzdA==&group=R3JvdXAx";
    assert!(ssr_url_parse(link.to_string()).is_none());
}

#[test]
fn payload_alone_decodes_with_default_labels() {
    let link = "ssr://MTI3LjAuMC4xOjEwODA6b3JpZ2luOmFlcy0yNTYtY2ZiOnBsYWluOmNHRnpjM2R2Y21Rd01BPT0";
    let config = ssr_url_parse(link.to_string()).expect("a record without a query");
    assert_eq!(config.remote_addr, "127.0.0.1");
    assert_eq!(config.remote_port, "1080");
    assert_eq!(config.protocol, "origin");
    assert_eq!(config.method, "aes-256-cfb");
    assert_eq!(config.obfs, "plain");
    assert_eq!(config.password, "password00");
    assert_eq!(config.remarks, "未命名");
    assert_eq!(config.group, "默认");
    assert_eq!(config.obfsparam, "");
    assert_eq!(config.protoparam, "");
}

#[test]
fn link_payload_strips_the_scheme() {
    assert_eq!(link_payload("ssr://abc"), Some("abc"));
    assert_eq!(link_payload("ssr://"), Some(""));
    assert_eq!(link_payload("ssr:/"), None);
    assert_eq!(link_payload("SSR://abc"), None);
    assert_eq!(link_payload(" ssr://abc"), None);
    assert_eq!(link_payload(""), None);
}

#[test]
fn query_value_takes_the_last_pair() {
    let query = vec![
        ("group".to_string(), "a".to_string()),
        ("remarks".to_string(), "b".to_string()),
        ("group".to_string(), "c".to_string()),
    ];
    assert_eq!(query_value(&query, "group"), Some("c".to_string()));
    assert_eq!(query_value(&query, "remarks"), Some("b".to_string()));
    assert_eq!(query_value(&query, "obfsparam"), None);
    assert_eq!(query_value(&Vec::new(), "group"), None);
}

#[test]
fn record_with_all_settings() {
    let record = format!(
        "example.org:8388:auth_aes128_md5:chacha20:tls1.2_ticket_auth:{}/?obfsparam={}&protoparam={}&remarks={}&group={}",
        b64_bare("s3cret"),
        b64_bare("cdn.example.org"),
        b64_bare("1234:abcd"),
        b64_bare("东京 01"),
        b64_bare("机场"),
    );
    // The colon inside a base64 spelling cannot occur, so the record has six fields.
    let config = ssr_record_parse(&record).expect("six fields and a URL");
    assert_eq!(config.remote_addr, "example.org");
    assert_eq!(config.remote_port, "8388");
    assert_eq!(config.protocol, "auth_aes128_md5");
    assert_eq!(config.method, "chacha20");
    assert_eq!(config.obfs, "tls1.2_ticket_auth");
    assert_eq!(config.password, "s3cret");
    assert_eq!(config.obfsparam, "cdn.example.org");
    assert_eq!(config.protoparam, "1234:abcd");
    assert_eq!(config.remarks, "东京 01");
    assert_eq!(config.group, "机场");
}

#[test]
fn link_without_scheme_is_rejected() {
    let payload = b64("127.0.0.1:1080:origin:aes-256-cfb:plain:cGFzcw");
    assert!(ssr_url_parse(payload.clone()).is_none());
    assert!(ssr_url_parse(format!("ss://{}", payload)).is_none());
    assert!(ssr_url_parse(format!("SSR://{}", payload)).is_none());
    assert!(ssr_url_parse(format!(" ssr://{}", payload)).is_none());
    assert!(ssr_url_parse(String::new()).is_none());
    assert!(ssr_url_parse(format!("ssr://{}", payload)).is_some());
}

#[test]
fn link_with_fewer_than_six_fields_is_rejected() {
    assert!(ssr_url_parse(link_of("127.0.0.1:1080:origin:aes-256-cfb:plain")).is_none());
    assert!(ssr_url_parse(link_of("127.0.0.1")).is_none());
    assert!(ssr_url_parse(link_of("")).is_none());
    assert!(ssr_url_parse("ssr://".to_string()).is_none());
    // Not base64 at all.
    assert!(ssr_url_parse("ssr://a:b:c:d:e:f".to_string()).is_none());
    assert!(ssr_url_parse("ssr://!!!!".to_string()).is_none());
}

#[test]
fn link_with_unparseable_tail_is_rejected() {
    assert!(ssr_url_parse(link_of("h:p:pr:m:o:a b")).is_none());
    assert!(ssr_url_parse(link_of("h:p:pr:m:o:a<b")).is_none());
    assert!(ssr_record_parse("h:p:pr:m:o:a b").is_none());
}

#[test]
fn payload_is_read_padded_or_bare() {
    let record = "h:p:pr:m:o:cGFzcw";
    let padded = ssr_url_parse(format!("ssr://{}", b64(record))).expect("padded");
    let bare = ssr_url_parse(format!("ssr://{}", b64_bare(record))).expect("bare");
    assert_eq!(padded.password, "pass");
    assert_eq!(bare.password, "pass");
    assert_eq!(padded.remote_addr, bare.remote_addr);
}

#[test]
fn fields_after_the_sixth_are_not_read() {
    let config = ssr_record_parse("h:p:pr:m:o:cGFzcw:extra:more").expect("eight fields");
    assert_eq!(config.remote_addr, "h");
    assert_eq!(config.remote_port, "p");
    assert_eq!(config.protocol, "pr");
    assert_eq!(config.method, "m");
    assert_eq!(config.obfs, "o");
    assert_eq!(config.password, "pass");
}

#[test]
fn unreadable_password_is_a_nul() {
    let config = ssr_record_parse("h:p:pr:m:o:!!!").expect("a tail that parses");
    assert_eq!(config.password, "\0");
    let config = ssr_record_parse("h:p:pr:m:o:").expect("an empty tail");
    assert_eq!(config.password, "");
}

#[test]
fn lenient_fallbacks() {
    // Absent keys: the defaults.
    let config = ssr_record_parse("h:p:pr:m:o:cGFzcw").expect("no query");
    assert_eq!(config.obfsparam, "");
    assert_eq!(config.protoparam, "");
    assert_eq!(config.remarks, "未命名");
    assert_eq!(config.group, "默认");
    // Values that are no base64: the defaults.
    let config =
        ssr_record_parse("h:p:pr:m:o:cGFzcw/?obfsparam=%%%&protoparam=%%%&remarks=%%%&group=%%%")
            .expect("a query");
    assert_eq!(config.obfsparam, "");
    assert_eq!(config.protoparam, "");
    assert_eq!(config.remarks, "未命名");
    assert_eq!(config.group, "默认");
    // Keys with empty values: empty settings.
    let config = ssr_record_parse("h:p:pr:m:o:cGFzcw/?remarks=&group=").expect("a query");
    assert_eq!(config.remarks, "");
    assert_eq!(config.group, "");
}

#[test]
fn last_occurrence_of_a_key_counts() {
    let config = ssr_record_parse("h:p:pr:m:o:cGFzcw/?remarks=YQ&remarks=Yg").expect("a query");
    assert_eq!(config.remarks, "b");
}

#[test]
fn unknown_keys_are_ignored() {
    let config = ssr_record_parse("h:p:pr:m:o:cGFzcw/?udpport=0&uot=0&remarks=YQ").expect("a query");
    assert_eq!(config.remarks, "a");
    assert_eq!(config.group, "默认");
}

#[test]
fn bytes_that_are_no_utf8_are_repaired() {
    // 0xFF is no UTF-8; "_w" spells it.
    assert_eq!(ssr_gtk::link::decode_text(b"_w"), Some("\u{fffd}".to_string()));
    assert_eq!(ssr_gtk::link::decode_text(b"YQ"), Some("a".to_string()));
    assert_eq!(ssr_gtk::link::decode_text(b"YQ=="), Some("a".to_string()));
    assert_eq!(ssr_gtk::link::decode_text(b""), Some(String::new()));
    assert_eq!(ssr_gtk::link::decode_text(b"YQ\n"), None);
    assert_eq!(ssr_gtk::link::decode_text(b"Y"), None);
    // The standard alphabet's `+` and `/` are not in the URL-safe one.
    assert_eq!(ssr_gtk::link::decode_text(b"+/+/"), None);
    // "-_-_" spells the bytes FB FF BF, none of which starts a character.
    assert_eq!(
        ssr_gtk::link::decode_text(b"-_-_"),
        Some("\u{fffd}\u{fffd}\u{fffd}".to_string())
    );
}

#[test]
fn profile_of_record_fills_the_defaults() {
    let record = ssr_gtk::link::LinkRecord {
        host: "h".to_string(),
        port: "1".to_string(),
        protocol: "origin".to_string(),
        method: "rc4".to_string(),
        obfs: "plain".to_string(),
        password: None,
        obfsparam: None,
        protoparam: Some("pp".to_string()),
        remarks: None,
        group: Some("g".to_string()),
    };
    let config = ssr_gtk::link::profile_of_record(record);
    assert_eq!(config.remote_addr, "h");
    assert_eq!(config.remote_port, "1");
    assert_eq!(config.protocol, "origin");
    assert_eq!(config.method, "rc4");
    assert_eq!(config.obfs, "plain");
    assert_eq!(config.password, "\0");
    assert_eq!(config.obfsparam, "");
    assert_eq!(config.protoparam, "pp");
    assert_eq!(config.remarks, "未命名");
    assert_eq!(config.group, "g");
    assert_eq!(config.local_addr, "127.0.0.1");
    assert_eq!(config.local_port, "1080");
    assert_eq!(config.timeout, "300");
    assert_eq!(config.delay, "0 ms");
}
