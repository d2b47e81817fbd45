//! The document: every group of profiles, in order. Groups and the
//! profiles in them have no identity but their position, so every removal
//! shifts what follows it one place down, and a position taken before a
//! removal has to be checked again before it is used.

use vstd::prelude::*;
use vstd::string::*;
use crate::config::{
    default_group, latency_label, latency_text, profile_views, SsrConfig, SsrConfigView,
};

verus! {

/// A named, ordered collection of profiles. `url` is the subscription that
/// the group was imported from, if it was imported from one.
#[derive(Debug, Clone)]
pub struct Group {
    pub name: String,
    pub url: Option<String>,
    pub configs: Vec<SsrConfig>,
}

/// The mathematical content of a [`Group`].
pub struct GroupView {
    pub name: Seq<char>,
    pub url: Option<Seq<char>>,
    pub configs: Seq<SsrConfigView>,
}

impl View for Group {
    type V = GroupView;

    open spec fn view(&self) -> GroupView {
        GroupView {
            name: self.name@,
            url: match self.url {
                Some(u) => Some(u@),
                None => None,
            },
            configs: profile_views(self.configs@),
        }
    }
}

/// The whole persisted state: an ordered sequence of groups.
#[derive(Debug, Clone)]
pub struct Document {
    pub groups: Vec<Group>,
}

impl View for Document {
    type V = Seq<GroupView>;

    open spec fn view(&self) -> Seq<GroupView> {
        self.groups@.map_values(|g: Group| g@)
    }
}

/// The groups of a document that may not exist yet: none where it does not.
pub open spec fn groups_of(current: Option<Document>) -> Seq<GroupView> {
    match current {
        Some(document) => document@,
        None => Seq::empty(),
    }
}

/// The position of the first group named `name`, or the number of groups
/// where none has that name.
pub open spec fn first_named(groups: Seq<GroupView>, name: Seq<char>) -> int
    decreases groups.len(),
{
    if groups.len() == 0 || groups[0].name == name {
        0
    } else {
        1 + first_named(groups.skip(1), name)
    }
}

/// The group that a subscription import creates.
pub open spec fn subscribed_group(
    url: Seq<char>,
    name: Seq<char>,
    configs: Seq<SsrConfigView>,
) -> GroupView {
    GroupView { name, url: Some(url), configs }
}

/// The default group as it is created for its first profile.
pub open spec fn fresh_default_group(profile: SsrConfigView) -> GroupView {
    GroupView { name: default_group(), url: None, configs: seq![profile] }
}

/// `group` with `profile` appended to its profiles.
pub open spec fn group_with(group: GroupView, profile: SsrConfigView) -> GroupView {
    GroupView { configs: group.configs.push(profile), ..group }
}

/// The groups after `profile` was added to the default group: appended to
/// the first group with the default name, or, where there is none, in a new
/// default group at the end.
pub open spec fn with_profile(groups: Seq<GroupView>, profile: SsrConfigView) -> Seq<GroupView> {
    let at = first_named(groups, default_group());
    if 0 <= at < groups.len() {
        groups.update(at, group_with(groups[at], profile))
    } else {
        groups.push(fresh_default_group(profile))
    }
}

/// `group` without the profile at position `at`.
pub open spec fn group_without(group: GroupView, at: int) -> GroupView {
    GroupView { configs: group.configs.remove(at), ..group }
}

/// `group` with `configs` in place of its profiles.
pub open spec fn group_refreshed(group: GroupView, configs: Seq<SsrConfigView>) -> GroupView {
    GroupView { configs, ..group }
}

/// `group` with the outcome of a probe recorded in the profile at position
/// `at`.
pub open spec fn group_probed(group: GroupView, at: int, latency: Option<u16>) -> GroupView {
    GroupView {
        configs: group.configs.update(
            at,
            SsrConfigView { delay: latency_text(latency), ..group.configs[at] },
        ),
        ..group
    }
}

/// Whether `groups` has a profile at position `rid` of the group at
/// position `gid`.
pub open spec fn has_profile(groups: Seq<GroupView>, gid: int, rid: int) -> bool {
    0 <= gid < groups.len() && 0 <= rid < groups[gid].configs.len()
}

/// `first_named` is the only position that holds the name with none before
/// it.
pub proof fn lemma_first_named(groups: Seq<GroupView>, name: Seq<char>, k: int)
    requires
        0 <= k <= groups.len(),
        forall|j: int| 0 <= j < k ==> groups[j].name != name,
        k < groups.len() ==> groups[k].name == name,
    ensures
        first_named(groups, name) == k,
    decreases groups.len(),
{
    if k > 0 {
        let rest = groups.skip(1);
        assert forall|j: int| 0 <= j < k - 1 implies rest[j].name != name by {
            assert(rest[j] == groups[j + 1]);
        }
        lemma_first_named(rest, name, k - 1);
    }
}

impl Document {
    /// The document without groups.
    pub fn new() -> (document: Document)
        ensures
            document@ == Seq::<GroupView>::empty(),
    {
        let document = Document { groups: Vec::new() };
        assert(document@ =~= Seq::<GroupView>::empty());
        document
    }

    /// Appends the group of a subscription to the document, or starts a
    /// document with it where there was none.
    pub fn add_sub(
        current: Option<Document>,
        url: String,
        group: String,
        configs: Vec<SsrConfig>,
    ) -> (document: Document)
        ensures
            document@ == groups_of(current).push(
                subscribed_group(url@, group@, profile_views(configs@)),
            ),
    {
        let mut document = match current {
            Some(d) => d,
            None => Document::new(),
        };
        let added = Group { name: group, url: Some(url), configs };
        assert(document.groups@.push(added).map_values(|g: Group| g@) =~= document@.push(added@));
        document.groups.push(added);
        document
    }

    /// The profile at position `rid` of the group at position `gid`, where
    /// the document has one.
    pub fn profile_at(&self, gid: usize, rid: usize) -> (profile: Option<&SsrConfig>)
        ensures
            profile is Some <==> has_profile(self@, gid as int, rid as int),
            profile matches Some(p) ==> *p == self.groups[gid as int].configs[rid as int],
    {
        if gid < self.groups.len() && rid < self.groups[gid].configs.len() {
            Some(&self.groups[gid].configs[rid])
        } else {
            None
        }
    }

    /// Removes the group at position `gid`. Every later group moves one
    /// position down.
    pub fn remove_group(&mut self, gid: usize)
        requires
            gid < old(self).groups@.len(),
        ensures
            final(self)@ == old(self)@.remove(gid as int),
    {
        let ghost before = self@;
        self.groups.remove(gid);
        assert(self@ =~= before.remove(gid as int));
    }

    /// Removes the profile at position `rid` from the group at position
    /// `gid`. Every later profile of that group moves one position down;
    /// nothing else changes.
    pub fn remove_ssr(&mut self, gid: usize, rid: usize)
        requires
            has_profile(old(self)@, gid as int, rid as int),
        ensures
            final(self)@ == old(self)@.update(
                gid as int,
                group_without(old(self)@[gid as int], rid as int),
            ),
    {
        let ghost before = self@;
        assert(before[gid as int] == self.groups[gid as int]@);
        let ghost configs = self.groups[gid as int].configs@;
        self.groups[gid].configs.remove(rid);
        assert(profile_views(configs.remove(rid as int)) =~= profile_views(configs).remove(
            rid as int,
        ));
        assert(self@ =~= before.update(gid as int, group_without(before[gid as int], rid as int)));
    }

    /// Puts `configs` in place of the profiles of the group at position
    /// `gid`, as a refresh of its subscription does. The group keeps its
    /// name and its subscription.
    pub fn refresh_sub(&mut self, gid: usize, configs: Vec<SsrConfig>)
        requires
            gid < old(self).groups@.len(),
        ensures
            final(self)@ == old(self)@.update(
                gid as int,
                group_refreshed(old(self)@[gid as int], profile_views(configs@)),
            ),
    {
        let ghost before = self@;
        assert(before[gid as int] == self.groups[gid as int]@);
        self.groups[gid].configs = configs;
        assert(self@ =~= before.update(
            gid as int,
            group_refreshed(before[gid as int], profile_views(configs@)),
        ));
    }

    /// Records the outcome of a probe in the profile at position `rid` of
    /// the group at position `gid`. Nothing but that profile's latency
    /// changes.
    pub fn set_latency(&mut self, gid: usize, rid: usize, latency: Option<u16>)
        requires
            has_profile(old(self)@, gid as int, rid as int),
        ensures
            final(self)@ == old(self)@.update(
                gid as int,
                group_probed(old(self)@[gid as int], rid as int, latency),
            ),
    {
        let ghost before = self@;
        assert(before[gid as int] == self.groups[gid as int]@);
        let ghost configs = self.groups[gid as int].configs@;
        self.groups[gid].configs[rid].delay = latency_label(latency);
        assert(profile_views(self.groups[gid as int].configs@) =~= profile_views(configs).update(
            rid as int,
            SsrConfigView { delay: latency_text(latency), ..configs[rid as int]@ },
        ));
        assert(self@ =~= before.update(
            gid as int,
            group_probed(before[gid as int], rid as int, latency),
        ));
    }

    /// The position of the first group with the default name.
    pub fn default_position(&self) -> (at: usize)
        ensures
            at == first_named(self@, default_group()),
            at <= self.groups@.len(),
    {
        let wanted = String::from_str("默认");
        let mut i: usize = 0;
        while i < self.groups.len()
            invariant
                i <= self.groups@.len(),
                wanted@ == default_group(),
                forall|j: int| 0 <= j < i ==> self@[j].name != default_group(),
            decreases self.groups@.len() - i,
        {
            if self.groups[i].name == wanted {
                proof {
                    lemma_first_named(self@, default_group(), i as int);
                }
                return i;
            }
            i = i + 1;
        }
        proof {
            lemma_first_named(self@, default_group(), i as int);
        }
        i
    }

    /// Adds a profile to the default group: to the first group with the
    /// default name, or to a new default group at the end where the
    /// document has none. Gives the position of that group and the new
    /// document.
    pub fn add_ssr_url(current: Option<Document>, config: SsrConfig) -> (added: (usize, Document))
        ensures
            added.0 == first_named(groups_of(current), default_group()),
            added.1@ == with_profile(groups_of(current), config@),
    {
        let mut document = match current {
            Some(d) => d,
            None => Document::new(),
        };
        let at = document.default_position();
        let ghost before = document@;
        if at < document.groups.len() {
            assert(profile_views(document.groups[at as int].configs@.push(config)) =~= profile_views(
                document.groups[at as int].configs@,
            ).push(config@));
            document.groups[at].configs.push(config);
            assert(document@ =~= before.update(at as int, group_with(before[at as int], config@)));
        } else {
            let mut configs: Vec<SsrConfig> = Vec::new();
            configs.push(config);
            assert(profile_views(configs@) =~= seq![config@]);
            let group = Group { name: String::from_str("默认"), url: None, configs };
            document.groups.push(group);
            assert(document@ =~= before.push(fresh_default_group(config@)));
        }
        (at, document)
    }
}

/// Two profiles added one after the other to groups without a default
/// group end up in one and the same new group: the first addition creates
/// the default group at the end, the second finds it there and appends to
/// it, and the groups that were there before stay as they were.
pub proof fn lemma_default_group_is_reused(
    groups: Seq<GroupView>,
    first: SsrConfigView,
    second: SsrConfigView,
)
    requires
        forall|j: int| 0 <= j < groups.len() ==> groups[j].name != default_group(),
    ensures
        first_named(groups, default_group()) == groups.len(),
        first_named(with_profile(groups, first), default_group()) == groups.len(),
        with_profile(with_profile(groups, first), second) == groups.push(
            GroupView { name: default_group(), url: None, configs: seq![first, second] },
        ),
{
    let once = with_profile(groups, first);
    lemma_first_named(groups, default_group(), groups.len() as int);
    assert(once == groups.push(fresh_default_group(first)));
    lemma_first_named(once, default_group(), groups.len() as int);
    assert(fresh_default_group(first).configs.push(second) =~= seq![first, second]);
    assert(with_profile(once, second) =~= groups.push(
        GroupView { name: default_group(), url: None, configs: seq![first, second] },
    ));
}

/// Removing the profile at position `at` from a group leaves one profile
/// fewer: the profiles before `at` stay where they were, and each profile
/// after `at` is found one position lower.
pub proof fn lemma_removal_shifts(group: GroupView, at: int)
    requires
        0 <= at < group.configs.len(),
    ensures
        group_without(group, at).name == group.name,
        group_without(group, at).url == group.url,
        group_without(group, at).configs.len() == group.configs.len() - 1,
        forall|j: int| 0 <= j < at ==> group_without(group, at).configs[j] == group.configs[j],
        forall|j: int|
            at <= j < group.configs.len() - 1 ==> group_without(group, at).configs[j]
                == group.configs[j + 1],
{
}

} // verus!
