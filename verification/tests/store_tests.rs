use ssr_gtk::import::{add_ssr_url, add_sub, is_http_url, subscribe};
use ssr_gtk::{Document, Group, SsrConfig};

fn profile(name: &str) -> SsrConfig {
    SsrConfig::default().set_remote_addr(name).set_remarks(name)
}

fn group(name: &str, url: Option<&str>, names: &[&str]) -> Group {
    Group {
        name: name.to_string(),
        url: url.map(|u| u.to_string()),
        configs: names.iter().map(|n| profile(n)).collect(),
    }
}

fn names(group: &Group) -> Vec<&str> {
    group.configs.iter().map(|c| c.remote_addr.as_str()).collect()
}

fn group_names(document: &Document) -> Vec<&str> {
    document.groups.iter().map(|g| g.name.as_str()).collect()
}

#[test]
fn new_document_is_empty() {
    assert!(Document::new().groups.is_empty());
}

#[test]
fn add_sub_appends_a_group() {
    let document = Document::add_sub(
        None,
        "https://example.org/sub".to_string(),
        "Air".to_string(),
        vec![profile("a"), profile("b")],
    );
    assert_eq!(document.groups.len(), 1);
    assert_eq!(document.groups[0].name, "Air");
    assert_eq!(document.groups[0].url.as_deref(), Some("https://example.org/sub"));
    assert_eq!(names(&document.groups[0]), vec!["a", "b"]);

    let document = Document::add_sub(
        Some(document),
        "https://example.org/other".to_string(),
        "Air".to_string(),
        vec![profile("c")],
    );
    assert_eq!(group_names(&document), vec!["Air", "Air"]);
    assert_eq!(names(&document.groups[0]), vec!["a", "b"]);
    assert_eq!(names(&document.groups[1]), vec!["c"]);
    assert_eq!(document.groups[1].url.as_deref(), Some("https://example.org/other"));
}

#[test]
fn two_profiles_share_one_default_group() {
    let (first_at, document) = Document::add_ssr_url(None, profile("a"));
    assert_eq!(first_at, 0);
    assert_eq!(group_names(&document), vec!["默认"]);
    assert_eq!(document.groups[0].url, None);
    let (second_at, document) = Document::add_ssr_url(Some(document), profile("b"));
    assert_eq!(second_at, 0);
    assert_eq!(group_names(&document), vec!["默认"]);
    assert_eq!(names(&document.groups[0]), vec!["a", "b"]);
}

#[test]
fn default_group_is_created_behind_the_others() {
    let document = Document {
        groups: vec![group("Air", Some("http://x/"), &["a"]), group("Work", None, &["b"])],
    };
    let (at, document) = Document::add_ssr_url(Some(document), profile("c"));
    assert_eq!(at, 2);
    assert_eq!(group_names(&document), vec!["Air", "Work", "默认"]);
    assert_eq!(names(&document.groups[2]), vec!["c"]);
    let (at, document) = Document::add_ssr_url(Some(document), profile("d"));
    assert_eq!(at, 2);
    assert_eq!(group_names(&document), vec!["Air", "Work", "默认"]);
    assert_eq!(names(&document.groups[0]), vec!["a"]);
    assert_eq!(names(&document.groups[1]), vec!["b"]);
    assert_eq!(names(&document.groups[2]), vec!["c", "d"]);
}

#[test]
fn first_default_group_takes_the_profile() {
    let document = Document {
        groups: vec![
            group("Air", None, &[]),
            group("默认", Some("http://x/"), &["a"]),
            group("默认", None, &["b"]),
        ],
    };
    assert_eq!(document.default_position(), 1);
    let (at, document) = Document::add_ssr_url(Some(document), profile("c"));
    assert_eq!(at, 1);
    assert_eq!(document.groups.len(), 3);
    assert_eq!(names(&document.groups[1]), vec!["a", "c"]);
    assert_eq!(document.groups[1].url.as_deref(), Some("http://x/"));
    assert_eq!(names(&document.groups[2]), vec!["b"]);
}

#[test]
fn default_position_without_a_default_group() {
    let document = Document { groups: vec![group("Air", None, &[]), group("默认 ", None, &[])] };
    assert_eq!(document.default_position(), 2);
    assert_eq!(Document::new().default_position(), 0);
}

#[test]
fn removing_a_profile_shifts_the_later_ones() {
    let mut document = Document {
        groups: vec![group("Air", None, &["x"]), group("Work", None, &["a", "b", "c", "d"])],
    };
    document.remove_ssr(1, 1);
    assert_eq!(names(&document.groups[1]), vec!["a", "c", "d"]);
    assert_eq!(names(&document.groups[0]), vec!["x"]);
    assert_eq!(document.groups[1].name, "Work");
    document.remove_ssr(1, 0);
    assert_eq!(names(&document.groups[1]), vec!["c", "d"]);
    document.remove_ssr(1, 1);
    assert_eq!(names(&document.groups[1]), vec!["c"]);
    document.remove_ssr(1, 0);
    assert!(document.groups[1].configs.is_empty());
    assert_eq!(document.groups.len(), 2);
}

#[test]
fn removing_a_group_shifts_the_later_ones() {
    let mut document = Document {
        groups: vec![group("A", None, &["a"]), group("B", None, &["b"]), group("C", None, &["c"])],
    };
    document.remove_group(0);
    assert_eq!(group_names(&document), vec!["B", "C"]);
    assert_eq!(names(&document.groups[0]), vec!["b"]);
    document.remove_group(1);
    assert_eq!(group_names(&document), vec!["B"]);
    document.remove_group(0);
    assert!(document.groups.is_empty());
}

#[test]
fn refresh_replaces_the_profiles_only() {
    let mut document = Document {
        groups: vec![group("A", Some("http://a/"), &["a", "b"]), group("B", None, &["c"])],
    };
    document.refresh_sub(0, vec![profile("n")]);
    assert_eq!(document.groups[0].name, "A");
    assert_eq!(document.groups[0].url.as_deref(), Some("http://a/"));
    assert_eq!(names(&document.groups[0]), vec!["n"]);
    assert_eq!(names(&document.groups[1]), vec!["c"]);
    document.refresh_sub(1, Vec::new());
    assert!(document.groups[1].configs.is_empty());
}

#[test]
fn latency_is_recorded_in_one_profile() {
    let mut document = Document { groups: vec![group("A", None, &["a", "b", "c"])] };
    document.set_latency(0, 1, Some(87));
    document.set_latency(0, 2, None);
    let delays: Vec<&str> = document.groups[0].configs.iter().map(|c| c.delay.as_str()).collect();
    assert_eq!(delays, vec!["0 ms", "87 ms", "超时"]);
    assert_eq!(names(&document.groups[0]), vec!["a", "b", "c"]);
    assert_eq!(document.groups[0].configs[1].remarks, "b");
}

#[test]
fn profile_at_checks_both_positions() {
    let document = Document {
        groups: vec![group("A", None, &["a"]), group("B", None, &["b", "c"])],
    };
    assert_eq!(document.profile_at(1, 1).map(|c| c.remote_addr.as_str()), Some("c"));
    assert_eq!(document.profile_at(0, 0).map(|c| c.remote_addr.as_str()), Some("a"));
    assert!(document.profile_at(0, 1).is_none());
    assert!(document.profile_at(2, 0).is_none());
    assert!(Document::new().profile_at(0, 0).is_none());
}

#[test]
fn http_addresses() {
    assert!(is_http_url("http://example.org/sub"));
    assert!(is_http_url("https://example.org/sub"));
    assert!(is_http_url("http://"));
    assert!(!is_http_url("ftp://example.org"));
    assert!(!is_http_url("HTTP://example.org"));
    assert!(!is_http_url("ssr://abc"));
    assert!(!is_http_url("http:/"));
    assert!(!is_http_url(""));
}

#[test]
fn subscribe_names_the_group_after_the_first_profile() {
    let configs = vec![profile("a").set_group("Air"), profile("b").set_group("Other")];
    let document = subscribe(None, "https://example.org/s".to_string(), configs).expect("a group");
    assert_eq!(document.groups.len(), 1);
    assert_eq!(document.groups[0].name, "Air");
    assert_eq!(document.groups[0].url.as_deref(), Some("https://example.org/s"));
    assert_eq!(names(&document.groups[0]), vec!["a", "b"]);

    let document =
        subscribe(Some(document), "http://example.org/t".to_string(), vec![profile("c")])
            .expect("a second group");
    assert_eq!(group_names(&document), vec!["Air", "默认"]);
    assert_eq!(document.groups[1].url.as_deref(), Some("http://example.org/t"));
}

#[test]
fn subscribe_needs_an_http_address_and_a_profile() {
    assert!(subscribe(None, "https://example.org/s".to_string(), Vec::new()).is_none());
    assert!(subscribe(None, "example.org/s".to_string(), vec![profile("a")]).is_none());
    assert!(subscribe(None, "ssr://abc".to_string(), vec![profile("a")]).is_none());
}

#[test]
fn add_sub_decodes_and_subscribes() {
    let record = format!(
        "a.example:443:origin:rc4:plain:{}/?group={}",
        base64::encode_config("pw", base64::URL_SAFE_NO_PAD),
        base64::encode_config("Air", base64::URL_SAFE_NO_PAD),
    );
    let link = format!("ssr://{}", base64::encode_config(&record, base64::URL_SAFE));
    let body = base64::encode_config(format!("{}\njunk", link), base64::URL_SAFE);
    let document =
        add_sub(None, "https://example.org/s".to_string(), body.as_bytes()).expect("one profile");
    assert_eq!(group_names(&document), vec!["Air"]);
    assert_eq!(names(&document.groups[0]), vec!["a.example"]);
    assert!(add_sub(None, "https://example.org/s".to_string(), b"junk").is_none());
    assert!(add_sub(None, "file:///s".to_string(), body.as_bytes()).is_none());
}

#[test]
fn add_ssr_url_decodes_and_adds() {
    let record = format!(
        "a.example:443:origin:rc4:plain:{}",
        base64::encode_config("pw", base64::URL_SAFE_NO_PAD)
    );
    let link = format!("ssr://{}", base64::encode_config(&record, base64::URL_SAFE));
    let (at, document) = add_ssr_url(None, link.clone()).expect("a link");
    assert_eq!(at, 0);
    let (at, document) = add_ssr_url(Some(document), link).expect("a link");
    assert_eq!(at, 0);
    assert_eq!(group_names(&document), vec!["默认"]);
    assert_eq!(names(&document.groups[0]), vec!["a.example", "a.example"]);
    assert!(add_ssr_url(Some(document), "http://example.org".to_string()).is_none());
}
