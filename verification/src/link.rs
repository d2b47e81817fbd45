//! Share-links. A share-link is the scheme prefix `ssr://` followed by the
//! URL-safe base64 spelling of a record
//! `host:port:protocol:method:obfs:PASSWORD`, where `PASSWORD` is the
//! base64 spelling of the password and may be followed by `/?` and a query
//! that gives `obfsparam`, `protoparam`, `remarks` and `group`, each in
//! base64 again.

use vstd::prelude::*;
use vstd::string::*;
use vstd::utf8::{decode_utf8, encode_utf8, valid_utf8};
use crate::codecs::{
    base64_url_safe, decode_base64, lossy_string, pairs_view, parse_url, url_host, url_parses,
    url_query_pairs, utf8_repaired,
};
use crate::config::{
    default_group, default_local_addr, default_local_port, default_remarks, default_timeout,
    delay_label, delay_text, SsrConfig, SsrConfigView,
};
use crate::text::{has_prefix, lemma_split_head, lemma_split_whole, split, split_text};

verus! {

/// The prefix that every share-link starts with.
pub open spec fn scheme() -> Seq<char> {
    "ssr://"@
}

/// What follows the scheme prefix in `link`; `None` where `link` does not
/// start with the prefix.
pub open spec fn payload_of(link: Seq<char>) -> Option<Seq<char>> {
    if scheme().is_prefix_of(link) {
        Some(link.skip(scheme().len() as int))
    } else {
        None
    }
}

/// The text that bytes are read as: their UTF-8 decoding where they are
/// valid UTF-8, and the repaired text otherwise.
pub open spec fn lossy_text(bytes: Seq<u8>) -> Seq<char> {
    if valid_utf8(bytes) {
        decode_utf8(bytes)
    } else {
        utf8_repaired(bytes)
    }
}

/// The text that a base64 spelling stands for; `None` where the base64
/// decoder rejects it.
pub open spec fn decoded_text(encoded: Seq<u8>) -> Option<Seq<char>> {
    match base64_url_safe(encoded) {
        Some(bytes) => Some(lossy_text(bytes)),
        None => None,
    }
}

/// The value that the last pair with key `key` gives; `None` where no pair
/// has that key.
pub open spec fn last_value(pairs: Seq<(Seq<char>, Seq<char>)>, key: Seq<char>) -> Option<
    Seq<char>,
>
    decreases pairs.len(),
{
    if pairs.len() == 0 {
        None
    } else if pairs.last().0 == key {
        Some(pairs.last().1)
    } else {
        last_value(pairs.drop_last(), key)
    }
}

/// The setting that a query gives under `key`, decoded; `None` where the
/// query has no such key or its value is no base64.
pub open spec fn setting(query: Seq<(Seq<char>, Seq<char>)>, key: Seq<char>) -> Option<Seq<char>> {
    match last_value(query, key) {
        Some(value) => decoded_text(encode_utf8(value)),
        None => None,
    }
}

/// The view of an optional string.
pub open spec fn text_view(text: Option<String>) -> Option<Seq<char>> {
    match text {
        Some(t) => Some(t@),
        None => None,
    }
}

/// A share-link's record with every layer of encoding taken off. A field
/// that is `None` was absent from the link or could not be decoded.
#[derive(Debug, Clone)]
pub struct LinkRecord {
    pub host: String,
    pub port: String,
    pub protocol: String,
    pub method: String,
    pub obfs: String,
    pub password: Option<String>,
    pub obfsparam: Option<String>,
    pub protoparam: Option<String>,
    pub remarks: Option<String>,
    pub group: Option<String>,
}

/// The mathematical content of a [`LinkRecord`].
pub struct LinkRecordView {
    pub host: Seq<char>,
    pub port: Seq<char>,
    pub protocol: Seq<char>,
    pub method: Seq<char>,
    pub obfs: Seq<char>,
    pub password: Option<Seq<char>>,
    pub obfsparam: Option<Seq<char>>,
    pub protoparam: Option<Seq<char>>,
    pub remarks: Option<Seq<char>>,
    pub group: Option<Seq<char>>,
}

impl View for LinkRecord {
    type V = LinkRecordView;

    open spec fn view(&self) -> LinkRecordView {
        LinkRecordView {
            host: self.host@,
            port: self.port@,
            protocol: self.protocol@,
            method: self.method@,
            obfs: self.obfs@,
            password: text_view(self.password),
            obfsparam: text_view(self.obfsparam),
            protoparam: text_view(self.protoparam),
            remarks: text_view(self.remarks),
            group: text_view(self.group),
        }
    }
}

/// The password of a record whose password could not be decoded: a single
/// NUL character.
pub open spec fn unreadable_password() -> Seq<char> {
    seq!['\0']
}

/// `text` where there is one, else `fallback`.
pub open spec fn or_default(text: Option<Seq<char>>, fallback: Seq<char>) -> Seq<char> {
    match text {
        Some(t) => t,
        None => fallback,
    }
}

/// The profile that a record describes. The five leading fields are taken
/// as they stand. A missing protocol or obfuscator parameter is empty, a
/// missing label is the default label, a missing group the default group.
/// The local bind address and port, the idle timeout and the latency are
/// the fixed defaults: no link carries them.
pub open spec fn profile_view(record: LinkRecordView) -> SsrConfigView {
    SsrConfigView {
        remote_addr: record.host,
        remote_port: record.port,
        local_addr: default_local_addr(),
        local_port: default_local_port(),
        timeout: default_timeout(),
        method: record.method,
        password: or_default(record.password, unreadable_password()),
        protocol: record.protocol,
        protoparam: or_default(record.protoparam, Seq::empty()),
        obfs: record.obfs,
        obfsparam: or_default(record.obfsparam, Seq::empty()),
        remarks: or_default(record.remarks, default_remarks()),
        group: or_default(record.group, default_group()),
        delay: delay_text(0),
    }
}

/// The address that the sixth field of a record is parsed as: the field
/// behind the scheme prefix.
pub open spec fn tail_address(tail: Seq<char>) -> Seq<char> {
    scheme() + tail
}

/// The record that a decoded payload holds. The payload is split at its
/// colons and needs six fields or more; the sixth, behind the scheme
/// prefix, has to parse as a URL, whose host spells the password and whose
/// query gives the four optional settings. Fields after the sixth are not
/// read.
pub open spec fn record_of(body: Seq<char>) -> Option<LinkRecordView> {
    let fields = split(body, ':');
    if fields.len() < 6 || !url_parses(tail_address(fields[5])) {
        None
    } else {
        let address = tail_address(fields[5]);
        let query = url_query_pairs(address);
        Some(
            LinkRecordView {
                host: fields[0],
                port: fields[1],
                protocol: fields[2],
                method: fields[3],
                obfs: fields[4],
                password: decoded_text(encode_utf8(or_default(url_host(address), Seq::empty()))),
                obfsparam: setting(query, "obfsparam"@),
                protoparam: setting(query, "protoparam"@),
                remarks: setting(query, "remarks"@),
                group: setting(query, "group"@),
            },
        )
    }
}

/// The profile that a decoded payload describes.
pub open spec fn record_decoded(body: Seq<char>) -> Option<SsrConfigView> {
    match record_of(body) {
        Some(record) => Some(profile_view(record)),
        None => None,
    }
}

/// The decoded payload of a share-link; `None` where the link lacks the
/// scheme prefix or its payload is no base64.
pub open spec fn link_body(link: Seq<char>) -> Option<Seq<char>> {
    match payload_of(link) {
        Some(payload) => decoded_text(encode_utf8(payload)),
        None => None,
    }
}

/// The profile that a share-link describes; `None` where the link lacks the
/// scheme prefix, its payload is no base64, or the payload holds no record.
pub open spec fn link_decoded(link: Seq<char>) -> Option<SsrConfigView> {
    match link_body(link) {
        Some(body) => record_decoded(body),
        None => None,
    }
}

/// The view of an optional profile.
pub open spec fn profile_option_view(profile: Option<SsrConfig>) -> Option<SsrConfigView> {
    match profile {
        Some(p) => Some(p@),
        None => None,
    }
}

/// Takes the scheme prefix off a share-link.
pub fn link_payload<'a>(link: &'a str) -> (payload: Option<&'a str>)
    ensures
        match payload {
            Some(p) => payload_of(link@) == Some(p@),
            None => payload_of(link@) is None,
        },
{
    if has_prefix(link, "ssr://") {
        proof {
            reveal_strlit("ssr://");
        }
        let n = link.unicode_len();
        assert(link@.skip(6) =~= link@.subrange(6, n as int));
        Some(link.substring_char(6, n))
    } else {
        None
    }
}

/// Decodes a base64 spelling to text.
pub fn decode_text(encoded: &[u8]) -> (text: Option<String>)
    ensures
        text_view(text) == decoded_text(encoded@),
{
    match decode_base64(encoded) {
        Some(bytes) => Some(lossy_string(bytes.as_slice())),
        None => None,
    }
}

/// Looks up `key` among the pairs of a query. Where several pairs have the
/// key, the last one counts.
pub fn query_value(query: &Vec<(String, String)>, key: &str) -> (value: Option<String>)
    ensures
        text_view(value) == last_value(pairs_view(query@), key@),
{
    let wanted = key.to_owned();
    let ghost pairs = pairs_view(query@);
    let mut i: usize = query.len();
    assert(pairs.take(i as int) =~= pairs);
    while i > 0
        invariant
            i <= query.len(),
            pairs == pairs_view(query@),
            wanted@ == key@,
            last_value(pairs, key@) == last_value(pairs.take(i as int), key@),
        decreases i,
    {
        i = i - 1;
        proof {
            let upto = pairs.take(i + 1);
            assert(upto.last() == pairs[i as int]);
            assert(upto.drop_last() =~= pairs.take(i as int));
        }
        if query[i].0 == wanted {
            return Some(query[i].1.clone());
        }
    }
    assert(pairs.take(0).len() == 0);
    None
}

/// Fills in what a record leaves open and gives the profile.
pub fn profile_of_record(record: LinkRecord) -> (profile: SsrConfig)
    ensures
        profile@ == profile_view(record@),
{
    let password = match record.password {
        Some(p) => p,
        None => {
            proof {
                reveal_strlit("\0");
            }
            let nul = String::from_str("\0");
            assert(nul@ =~= unreadable_password());
            nul
        },
    };
    let protoparam = match record.protoparam {
        Some(p) => p,
        None => String::new(),
    };
    let obfsparam = match record.obfsparam {
        Some(p) => p,
        None => String::new(),
    };
    let remarks = match record.remarks {
        Some(r) => r,
        None => String::from_str("未命名"),
    };
    let group = match record.group {
        Some(g) => g,
        None => String::from_str("默认"),
    };
    SsrConfig {
        remote_addr: record.host,
        remote_port: record.port,
        local_addr: String::from_str("127.0.0.1"),
        local_port: String::from_str("1080"),
        timeout: String::from_str("300"),
        method: record.method,
        password,
        protocol: record.protocol,
        protoparam,
        obfs: record.obfs,
        obfsparam,
        remarks,
        group,
        delay: delay_label(0),
    }
}

/// Decodes the setting that a query gives under `key`.
fn query_setting(query: &Vec<(String, String)>, key: &str) -> (value: Option<String>)
    ensures
        text_view(value) == setting(pairs_view(query@), key@),
{
    match query_value(query, key) {
        Some(encoded) => decode_text(encoded.as_str().as_bytes()),
        None => None,
    }
}

/// Reads the record that a decoded payload holds and gives its profile.
pub fn ssr_record_parse(body: &str) -> (profile: Option<SsrConfig>)
    ensures
        profile_option_view(profile) == record_decoded(body@),
{
    let fields = split_text(body, ':');
    if fields.len() < 6 {
        return None;
    }
    let ghost parts = split(body@, ':');
    assert(forall|i: int| 0 <= i < 6 ==> #[trigger] fields@[i]@ == parts[i]);
    let address = String::from_str("ssr://").concat(fields[5].as_str());
    match parse_url(address.as_str()) {
        None => None,
        Some(url) => {
            let encoded_password = match &url.host {
                Some(h) => h.as_str(),
                None => "",
            };
            proof {
                reveal_strlit("");
                assert(encoded_password@ =~= or_default(url_host(address@), Seq::empty()));
            }
            let record = LinkRecord {
                host: fields[0].clone(),
                port: fields[1].clone(),
                protocol: fields[2].clone(),
                method: fields[3].clone(),
                obfs: fields[4].clone(),
                password: decode_text(encoded_password.as_bytes()),
                obfsparam: query_setting(&url.query, "obfsparam"),
                protoparam: query_setting(&url.query, "protoparam"),
                remarks: query_setting(&url.query, "remarks"),
                group: query_setting(&url.query, "group"),
            };
            assert(Some(record@) == record_of(body@));
            Some(profile_of_record(record))
        },
    }
}

/// Decodes a share-link.
///
/// The result is `None` where the link does not start with `ssr://`, where
/// what follows is no URL-safe base64, where the decoded payload has fewer
/// than six fields between colons, and where its sixth field does not parse
/// as the rest of a URL.
pub fn ssr_url_parse(url: String) -> (profile: Option<SsrConfig>)
    ensures
        profile_option_view(profile) == link_decoded(url@),
        !scheme().is_prefix_of(url@) ==> profile is None,
        link_body(url@) matches Some(body) && split(body, ':').len() < 6 ==> profile is None,
{
    match link_payload(url.as_str()) {
        None => None,
        Some(payload) => match decode_text(payload.as_bytes()) {
            None => None,
            Some(body) => ssr_record_parse(body.as_str()),
        },
    }
}

/// A text that does not start with the scheme prefix decodes to nothing.
pub proof fn lemma_link_needs_scheme(link: Seq<char>)
    requires
        !scheme().is_prefix_of(link),
    ensures
        link_decoded(link) is None,
{
}

/// A link whose payload holds fewer than six fields between colons decodes
/// to nothing, and so does a link whose payload is no base64 at all.
pub proof fn lemma_link_needs_six_fields(link: Seq<char>)
    requires
        match link_body(link) {
            Some(body) => split(body, ':').len() < 6,
            None => true,
        },
    ensures
        link_decoded(link) is None,
{
}

/// `encoded` is a base64 spelling of the UTF-8 bytes of `plain`, as the
/// decoder reads it.
pub open spec fn spells(encoded: Seq<char>, plain: Seq<char>) -> bool {
    base64_url_safe(encode_utf8(encoded)) == Some(encode_utf8(plain))
}

/// The text of a record: its six fields with a colon between each two.
pub open spec fn record_text(
    host: Seq<char>,
    port: Seq<char>,
    protocol: Seq<char>,
    method: Seq<char>,
    obfs: Seq<char>,
    tail: Seq<char>,
) -> Seq<char> {
    host + seq![':'] + port + seq![':'] + protocol + seq![':'] + method + seq![':'] + obfs + seq![
        ':',
    ] + tail
}

/// The query either spells `expected` under `key`, or, where nothing is
/// expected, has no such key.
pub open spec fn query_gives(
    query: Seq<(Seq<char>, Seq<char>)>,
    key: Seq<char>,
    expected: Option<Seq<char>>,
) -> bool {
    match expected {
        Some(text) => last_value(query, key) matches Some(value) && spells(value, text),
        None => last_value(query, key) is None,
    }
}

/// `link` is a share-link for `record`: the scheme prefix and a base64
/// spelling of the record's text, whose five leading fields hold no colon
/// and whose sixth field `tail` holds none either and is read by the URL
/// parser as a spelling of the password and a query that spells the
/// settings the record has and gives no others.
pub open spec fn is_link_for(link: Seq<char>, tail: Seq<char>, record: LinkRecordView) -> bool {
    &&& exists|payload: Seq<char>|
        link == scheme() + payload && #[trigger] spells(
            payload,
            record_text(
                record.host,
                record.port,
                record.protocol,
                record.method,
                record.obfs,
                tail,
            ),
        )
    &&& !record.host.contains(':')
    &&& !record.port.contains(':')
    &&& !record.protocol.contains(':')
    &&& !record.method.contains(':')
    &&& !record.obfs.contains(':')
    &&& !tail.contains(':')
    &&& url_parses(tail_address(tail))
    &&& record.password matches Some(password) && url_host(tail_address(tail)) matches Some(host)
        && spells(host, password)
    &&& query_gives(url_query_pairs(tail_address(tail)), "obfsparam"@, record.obfsparam)
    &&& query_gives(url_query_pairs(tail_address(tail)), "protoparam"@, record.protoparam)
    &&& query_gives(url_query_pairs(tail_address(tail)), "remarks"@, record.remarks)
    &&& query_gives(url_query_pairs(tail_address(tail)), "group"@, record.group)
}

/// A base64 spelling of a text decodes to that text.
pub proof fn lemma_spelling_decodes(encoded: Seq<char>, plain: Seq<char>)
    requires
        spells(encoded, plain),
    ensures
        decoded_text(encode_utf8(encoded)) == Some(plain),
{
    vstd::utf8::encode_utf8_valid_utf8(plain);
    vstd::utf8::encode_utf8_decode_utf8(plain);
}

/// The six fields of a record's text are found again by splitting it at
/// its colons.
pub proof fn lemma_record_text_splits(
    host: Seq<char>,
    port: Seq<char>,
    protocol: Seq<char>,
    method: Seq<char>,
    obfs: Seq<char>,
    tail: Seq<char>,
)
    requires
        !host.contains(':'),
        !port.contains(':'),
        !protocol.contains(':'),
        !method.contains(':'),
        !obfs.contains(':'),
        !tail.contains(':'),
    ensures
        split(record_text(host, port, protocol, method, obfs, tail), ':') == seq![
            host,
            port,
            protocol,
            method,
            obfs,
            tail,
        ],
{
    let colon = seq![':'];
    let r5 = obfs + colon + tail;
    let r4 = method + colon + r5;
    let r3 = protocol + colon + r4;
    let r2 = port + colon + r3;
    let r1 = host + colon + r2;
    assert(record_text(host, port, protocol, method, obfs, tail) =~= r1);
    lemma_split_whole(tail, ':');
    lemma_split_head(obfs, tail, ':');
    lemma_split_head(method, r5, ':');
    lemma_split_head(protocol, r4, ':');
    lemma_split_head(port, r3, ':');
    lemma_split_head(host, r2, ':');
    assert(split(r1, ':') =~= seq![host, port, protocol, method, obfs, tail]);
}

/// Decoding reverses encoding: a share-link for a record decodes to the
/// profile of that record. Host, port, protocol, method, obfuscator and
/// password come back as they were written; each of the four settings comes
/// back where the link's query has it, and is the stated default where the
/// query has not.
pub proof fn lemma_link_decodes_to_record(link: Seq<char>, tail: Seq<char>, record: LinkRecordView)
    requires
        is_link_for(link, tail, record),
    ensures
        link_decoded(link) == Some(profile_view(record)),
        link_decoded(link)->0.remote_addr == record.host,
        link_decoded(link)->0.remote_port == record.port,
        link_decoded(link)->0.protocol == record.protocol,
        link_decoded(link)->0.method == record.method,
        link_decoded(link)->0.obfs == record.obfs,
        link_decoded(link)->0.password == record.password->0,
        link_decoded(link)->0.obfsparam == or_default(record.obfsparam, Seq::empty()),
        link_decoded(link)->0.protoparam == or_default(record.protoparam, Seq::empty()),
        link_decoded(link)->0.remarks == or_default(record.remarks, default_remarks()),
        link_decoded(link)->0.group == or_default(record.group, default_group()),
{
    let body = record_text(
        record.host,
        record.port,
        record.protocol,
        record.method,
        record.obfs,
        tail,
    );
    let payload = choose|payload: Seq<char>| link == scheme() + payload && #[trigger] spells(payload, body);
    assert((scheme() + payload).skip(scheme().len() as int) =~= payload);
    assert(scheme() =~= (scheme() + payload).subrange(0, scheme().len() as int));
    assert(payload_of(link) == Some(payload));
    lemma_spelling_decodes(payload, body);
    assert(link_body(link) == Some(body));
    lemma_record_text_splits(
        record.host,
        record.port,
        record.protocol,
        record.method,
        record.obfs,
        tail,
    );
    let address = tail_address(tail);
    let query = url_query_pairs(address);
    lemma_spelling_decodes(url_host(address)->0, record.password->0);
    lemma_setting_decodes(query, "obfsparam"@, record.obfsparam);
    lemma_setting_decodes(query, "protoparam"@, record.protoparam);
    lemma_setting_decodes(query, "remarks"@, record.remarks);
    lemma_setting_decodes(query, "group"@, record.group);
    assert(record_of(body) == Some(record));
}

/// A query that gives a setting decodes to it.
pub proof fn lemma_setting_decodes(
    query: Seq<(Seq<char>, Seq<char>)>,
    key: Seq<char>,
    expected: Option<Seq<char>>,
)
    requires
        query_gives(query, key, expected),
    ensures
        setting(query, key) == expected,
{
    if let Some(text) = expected {
        lemma_spelling_decodes(last_value(query, key)->0, text);
    }
}

} // verus!
