//! Subscription documents. A subscription document is the URL-safe base64
//! spelling of a text that holds one share-link per line.

use vstd::prelude::*;
use vstd::string::*;
use crate::config::{profile_views, SsrConfig, SsrConfigView};
use crate::link::{decode_text, decoded_text, link_decoded, ssr_url_parse};
use crate::text::{split, split_text, views};

verus! {

/// The profiles of the lines that decode as share-links, in the order of
/// the lines. A line that does not decode contributes nothing.
pub open spec fn lines_decoded(lines: Seq<Seq<char>>) -> Seq<SsrConfigView>
    decreases lines.len(),
{
    if lines.len() == 0 {
        Seq::empty()
    } else {
        let before = lines_decoded(lines.drop_last());
        match link_decoded(lines.last()) {
            Some(profile) => before.push(profile),
            None => before,
        }
    }
}

/// The profiles that a subscription document holds. A document that is no
/// base64 holds none.
pub open spec fn subscription_decoded(document: Seq<u8>) -> Seq<SsrConfigView> {
    match decoded_text(document) {
        Some(text) => lines_decoded(split(text, '\n')),
        None => Seq::empty(),
    }
}

/// Decodes each line as a share-link and keeps the profiles of those that
/// decode, in the order of the lines.
pub fn ssr_lines_parse(lines: &Vec<String>) -> (profiles: Vec<SsrConfig>)
    ensures
        profile_views(profiles@) == lines_decoded(views(lines@)),
{
    let mut profiles: Vec<SsrConfig> = Vec::new();
    let ghost texts = views(lines@);
    assert(profile_views(profiles@) =~= lines_decoded(texts.take(0)));
    for i in 0..lines.len()
        invariant
            texts == views(lines@),
            profile_views(profiles@) == lines_decoded(texts.take(i as int)),
    {
        proof {
            let upto = texts.take(i + 1);
            assert(upto.drop_last() =~= texts.take(i as int));
            assert(upto.last() == lines@[i as int]@);
        }
        match ssr_url_parse(lines[i].clone()) {
            Some(profile) => {
                assert(profile_views(profiles@.push(profile)) =~= profile_views(profiles@).push(
                    profile@,
                ));
                profiles.push(profile);
            },
            None => {},
        }
    }
    assert(texts.take(lines@.len() as int) =~= texts);
    profiles
}

/// Decodes a subscription document: the whole document from base64, then
/// each line of the text as a share-link. Lines that do not decode are
/// dropped; a document that is no base64 gives no profile.
pub fn ssr_sub_parse(document: &[u8]) -> (profiles: Vec<SsrConfig>)
    ensures
        profile_views(profiles@) == subscription_decoded(document@),
{
    match decode_text(document) {
        Some(text) => {
            let lines = split_text(text.as_str(), '\n');
            ssr_lines_parse(&lines)
        },
        None => {
            let profiles: Vec<SsrConfig> = Vec::new();
            assert(profile_views(profiles@) =~= Seq::empty());
            profiles
        },
    }
}

/// The profiles of two runs of lines, one after the other, are the profiles
/// of the first run followed by those of the second: decoding keeps the
/// order of the lines.
pub proof fn lemma_lines_decoded_concat(first: Seq<Seq<char>>, second: Seq<Seq<char>>)
    ensures
        lines_decoded(first + second) == lines_decoded(first) + lines_decoded(second),
    decreases second.len(),
{
    if second.len() == 0 {
        assert(first + second =~= first);
        assert(lines_decoded(first) + lines_decoded(second) =~= lines_decoded(first));
    } else {
        let all = first + second;
        assert(all.drop_last() =~= first + second.drop_last());
        assert(all.last() == second.last());
        lemma_lines_decoded_concat(first, second.drop_last());
        assert(lines_decoded(all) =~= lines_decoded(first) + lines_decoded(second));
    }
}

/// A document of two lines, one that decodes and one that does not, holds
/// exactly the profile of the line that decodes, whichever of the two comes
/// first.
pub proof fn lemma_one_line_of_two_decodes(
    document: Seq<u8>,
    text: Seq<char>,
    valid: Seq<char>,
    malformed: Seq<char>,
)
    requires
        decoded_text(document) == Some(text),
        split(text, '\n') == seq![valid, malformed] || split(text, '\n') == seq![malformed, valid],
        link_decoded(valid) is Some,
        link_decoded(malformed) is None,
    ensures
        subscription_decoded(document) == seq![link_decoded(valid)->0],
{
    let one = seq![valid];
    let other = seq![malformed];
    let none = Seq::<Seq<char>>::empty();
    assert(lines_decoded(none) =~= Seq::<SsrConfigView>::empty());
    assert(one.drop_last() =~= none && one.last() == valid);
    assert(other.drop_last() =~= none && other.last() == malformed);
    assert(lines_decoded(one) =~= seq![link_decoded(valid)->0]);
    assert(lines_decoded(other) =~= Seq::<SsrConfigView>::empty());
    lemma_lines_decoded_concat(one, other);
    lemma_lines_decoded_concat(other, one);
    assert(one + other =~= seq![valid, malformed]);
    assert(other + one =~= seq![malformed, valid]);
    assert(lines_decoded(one) + lines_decoded(other) =~= seq![link_decoded(valid)->0]);
    assert(lines_decoded(other) + lines_decoded(one) =~= seq![link_decoded(valid)->0]);
}

} // verus!
