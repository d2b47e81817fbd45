//! Bringing profiles into the document: one from a share-link, a whole
//! group from a subscription.

use vstd::prelude::*;
use vstd::string::*;
use crate::config::{default_group, profile_views, SsrConfig, SsrConfigView};
use crate::link::{link_decoded, ssr_url_parse};
use crate::store::{
    first_named, groups_of, subscribed_group, with_profile, Document, GroupView,
};
use crate::subscription::{ssr_sub_parse, subscription_decoded};
use crate::text::has_prefix;

verus! {

/// Whether `url` starts like an address that a subscription can be fetched
/// from: with `http://` or with `https://`.
pub open spec fn is_http(url: Seq<char>) -> bool {
    "http://"@.is_prefix_of(url) || "https://"@.is_prefix_of(url)
}

/// The groups after the profiles fetched from `url` were subscribed to: a
/// new group at the end, named after the group label of the first profile
/// and bound to `url`. `None` where `url` is no HTTP address or there is no
/// profile.
pub open spec fn subscribed(
    groups: Seq<GroupView>,
    url: Seq<char>,
    profiles: Seq<SsrConfigView>,
) -> Option<Seq<GroupView>> {
    if is_http(url) && profiles.len() > 0 {
        Some(groups.push(subscribed_group(url, profiles[0].group, profiles)))
    } else {
        None
    }
}

/// Tells whether a subscription can be fetched from `url`.
pub fn is_http_url(url: &str) -> (b: bool)
    ensures
        b == is_http(url@),
{
    has_prefix(url, "http://") || has_prefix(url, "https://")
}

/// Subscribes to the profiles that were fetched from `url`.
pub fn subscribe(current: Option<Document>, url: String, configs: Vec<SsrConfig>) -> (document:
    Option<Document>)
    ensures
        match document {
            Some(d) => subscribed(groups_of(current), url@, profile_views(configs@)) == Some(d@),
            None => subscribed(groups_of(current), url@, profile_views(configs@)) is None,
        },
{
    if !is_http_url(url.as_str()) || configs.len() == 0 {
        return None;
    }
    let group = configs[0].group.clone();
    Some(Document::add_sub(current, url, group, configs))
}

/// Subscribes to the subscription document that was fetched from `url`.
pub fn add_sub(current: Option<Document>, url: String, document: &[u8]) -> (subscribed: Option<
    Document,
>)
    ensures
        match subscribed {
            Some(d) => self::subscribed(groups_of(current), url@, subscription_decoded(document@))
                == Some(d@),
            None => self::subscribed(groups_of(current), url@, subscription_decoded(document@))
                is None,
        },
{
    subscribe(current, url, ssr_sub_parse(document))
}

/// Decodes a share-link and adds its profile to the default group. Gives
/// the position of that group and the new document, or `None` where the
/// link does not decode.
pub fn add_ssr_url(current: Option<Document>, url: String) -> (added: Option<(usize, Document)>)
    ensures
        match added {
            Some((at, document)) => link_decoded(url@) matches Some(profile) && at == first_named(
                groups_of(current),
                default_group(),
            ) && document@ == with_profile(groups_of(current), profile),
            None => link_decoded(url@) is None,
        },
{
    match ssr_url_parse(url) {
        Some(config) => Some(Document::add_ssr_url(current, config)),
        None => None,
    }
}

} // verus!
