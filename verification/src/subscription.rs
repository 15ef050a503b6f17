//! Subscriptions: a client-chosen name and the filters that say which events
//! the client wants under that name.
use crate::event::{Event, EventView};
use crate::text::chars_of;
use vstd::prelude::*;

verus! {

/// A condition on the tags of an event: some tag named `name` carries one of
/// `values`.
#[derive(Clone, Debug, PartialEq, Eq)]
pub struct TagFilter {
    pub name: char,
    pub values: Vec<String>,
}

/// The mathematical value of a [`TagFilter`].
pub struct TagFilterView {
    pub name: char,
    pub values: Seq<Seq<char>>,
}

impl View for TagFilter {
    type V = TagFilterView;

    open spec fn view(&self) -> TagFilterView {
        TagFilterView { name: self.name, values: self.values.deep_view() }
    }
}

impl DeepView for TagFilter {
    type V = TagFilterView;

    open spec fn deep_view(&self) -> TagFilterView {
        self@
    }
}

/// One filter of a subscription. A field that is absent puts no condition
/// on the event.
#[derive(Clone, Debug, PartialEq, Eq)]
pub struct ReqFilter {
    pub ids: Option<Vec<String>>,
    pub kinds: Option<Vec<u64>>,
    pub since: Option<u64>,
    pub until: Option<u64>,
    pub authors: Option<Vec<String>>,
    pub limit: Option<u64>,
    pub tags: Vec<TagFilter>,
}

/// The mathematical value of a [`ReqFilter`].
pub struct ReqFilterView {
    pub ids: Option<Seq<Seq<char>>>,
    pub kinds: Option<Seq<u64>>,
    pub since: Option<u64>,
    pub until: Option<u64>,
    pub authors: Option<Seq<Seq<char>>>,
    pub limit: Option<u64>,
    pub tags: Seq<TagFilterView>,
}

impl View for ReqFilter {
    type V = ReqFilterView;

    open spec fn view(&self) -> ReqFilterView {
        ReqFilterView {
            ids: self.ids.deep_view(),
            kinds: self.kinds.deep_view(),
            since: self.since,
            until: self.until,
            authors: self.authors.deep_view(),
            limit: self.limit,
            tags: self.tags.deep_view(),
        }
    }
}

impl DeepView for ReqFilter {
    type V = ReqFilterView;

    open spec fn deep_view(&self) -> ReqFilterView {
        self@
    }
}

/// Whether `tag`, one tag of an event, meets the condition `f`: its first
/// element is the one-letter name and its second is one of the values.
pub open spec fn tag_meets(tag: Seq<Seq<char>>, f: TagFilterView) -> bool {
    tag.len() >= 2 && tag[0] == seq![f.name] && f.values.contains(tag[1])
}

/// Whether some tag among `tags` meets the condition `f`.
pub open spec fn tag_present(tags: Seq<Seq<Seq<char>>>, f: TagFilterView) -> bool {
    exists|j: int| 0 <= j < tags.len() && tag_meets(#[trigger] tags[j], f)
}

/// Whether the event meets every condition of the filter.
pub open spec fn filter_matches(f: ReqFilterView, e: EventView) -> bool {
    &&& f.ids matches Some(ids) ==> ids.contains(e.id)
    &&& f.kinds matches Some(kinds) ==> kinds.contains(e.kind)
    &&& f.since matches Some(t) ==> t <= e.created_at
    &&& f.until matches Some(t) ==> e.created_at <= t
    &&& f.authors matches Some(authors) ==> authors.contains(e.pubkey)
    &&& forall|i: int| 0 <= i < f.tags.len() ==> tag_present(e.tags, #[trigger] f.tags[i])
}

/// Whether `list` holds a string with the characters of `s`.
pub fn contains_string(list: &Vec<String>, s: &String) -> (r: bool)
    ensures
        r == list.deep_view().contains(s@),
{
    let mut i: usize = 0;
    while i < list.len()
        invariant
            i <= list@.len(),
            forall|k: int| 0 <= k < i ==> list.deep_view()[k] != s@,
        decreases list@.len() - i,
    {
        if list[i] == *s {
            assert(list.deep_view()[i as int] == s@);
            return true;
        }
        i += 1;
    }
    false
}

/// Whether `list` holds the number `x`.
pub fn contains_number(list: &Vec<u64>, x: u64) -> (r: bool)
    ensures
        r == list.deep_view().contains(x),
{
    assert(list.deep_view() =~= list@);
    let mut i: usize = 0;
    while i < list.len()
        invariant
            i <= list@.len(),
            list.deep_view() == list@,
            forall|k: int| 0 <= k < i ==> list@[k] != x,
        decreases list@.len() - i,
    {
        if list[i] == x {
            return true;
        }
        i += 1;
    }
    false
}

fn is_letter(s: &String, name: char) -> (r: bool)
    ensures
        r == (s@ == seq![name]),
{
    let cs = chars_of(s.as_str());
    if cs.len() == 1 && cs[0] == name {
        assert(s@ =~= seq![name]);
        true
    } else {
        false
    }
}

impl TagFilter {
    /// Whether some tag of the event meets this condition.
    pub fn present_in(&self, tags: &Vec<Vec<String>>) -> (r: bool)
        ensures
            r == tag_present(tags.deep_view(), self@),
    {
        let mut j: usize = 0;
        while j < tags.len()
            invariant
                j <= tags@.len(),
                forall|k: int| 0 <= k < j ==> !tag_meets(#[trigger] tags.deep_view()[k], self@),
            decreases tags@.len() - j,
        {
            let tag = &tags[j];
            assert(tags.deep_view()[j as int] == tag.deep_view());
            if tag.len() >= 2 {
                assert(tag.deep_view()[0] == tag@[0]@);
                assert(tag.deep_view()[1] == tag@[1]@);
                if is_letter(&tag[0], self.name) && contains_string(&self.values, &tag[1]) {
                    return true;
                }
            }
            j += 1;
        }
        false
    }
}

impl ReqFilter {
    /// A filter that puts no condition on events.
    pub fn new() -> (f: ReqFilter)
        ensures
            f@ == (ReqFilterView {
                ids: None,
                kinds: None,
                since: None,
                until: None,
                authors: None,
                limit: None,
                tags: Seq::empty(),
            }),
    {
        let f = ReqFilter {
            ids: None,
            kinds: None,
            since: None,
            until: None,
            authors: None,
            limit: None,
            tags: Vec::new(),
        };
        assert(f.tags.deep_view() =~= Seq::empty());
        f
    }

    fn tags_match(&self, event: &Event) -> (r: bool)
        ensures
            r == (forall|i: int|
                0 <= i < self@.tags.len() ==> tag_present(event@.tags, #[trigger] self@.tags[i])),
    {
        let mut i: usize = 0;
        while i < self.tags.len()
            invariant
                i <= self.tags@.len(),
                forall|k: int|
                    0 <= k < i ==> tag_present(event@.tags, #[trigger] self.tags.deep_view()[k]),
            decreases self.tags@.len() - i,
        {
            assert(self.tags.deep_view()[i as int] == self.tags@[i as int]@);
            if !self.tags[i].present_in(&event.tags) {
                assert(!tag_present(event@.tags, self@.tags[i as int]));
                return false;
            }
            i += 1;
        }
        true
    }

    /// Whether the event meets this filter.
    pub fn interested_in_event(&self, event: &Event) -> (r: bool)
        ensures
            r == filter_matches(self@, event@),
    {
        let ids_ok = match &self.ids {
            Some(ids) => contains_string(ids, &event.id),
            None => true,
        };
        let kinds_ok = match &self.kinds {
            Some(kinds) => contains_number(kinds, event.kind),
            None => true,
        };
        let since_ok = match self.since {
            Some(t) => t <= event.created_at,
            None => true,
        };
        let until_ok = match self.until {
            Some(t) => event.created_at <= t,
            None => true,
        };
        let authors_ok = match &self.authors {
            Some(authors) => contains_string(authors, &event.pubkey),
            None => true,
        };
        ids_ok && kinds_ok && since_ok && until_ok && authors_ok && self.tags_match(event)
    }

    /// Whether the filter's upper time bound lies before `now`.
    pub fn closed_before(&self, now: u64) -> (r: bool)
        ensures
            r == bounded_before(self@, now),
    {
        match self.until {
            Some(t) => t < now,
            None => false,
        }
    }
}

/// Whether the filter has an upper time bound, and one that lies before `now`.
pub open spec fn bounded_before(f: ReqFilterView, now: u64) -> bool {
    f.until matches Some(t) && t < now
}

/// A named set of filters, scoped to one connection.
#[derive(Clone, Debug, PartialEq, Eq)]
pub struct Subscription {
    pub id: String,
    pub filters: Vec<ReqFilter>,
}

/// The mathematical value of a [`Subscription`].
pub struct SubscriptionView {
    pub id: Seq<char>,
    pub filters: Seq<ReqFilterView>,
}

impl View for Subscription {
    type V = SubscriptionView;

    open spec fn view(&self) -> SubscriptionView {
        SubscriptionView { id: self.id@, filters: self.filters.deep_view() }
    }
}

impl DeepView for Subscription {
    type V = SubscriptionView;

    open spec fn deep_view(&self) -> SubscriptionView {
        self@
    }
}

/// Whether some filter of the subscription matches the event.
pub open spec fn subscription_matches(s: SubscriptionView, e: EventView) -> bool {
    exists|i: int| 0 <= i < s.filters.len() && filter_matches(#[trigger] s.filters[i], e)
}

/// Whether stored events have to be looked up for the subscription at time
/// `now`: some filter has no upper time bound, or one that has not passed.
/// A subscription without filters needs none.
pub open spec fn needs_historical(s: SubscriptionView, now: u64) -> bool {
    exists|i: int| 0 <= i < s.filters.len() && !bounded_before(#[trigger] s.filters[i], now)
}

impl Subscription {
    /// Whether the event is of interest to this subscription.
    pub fn interested_in_event(&self, event: &Event) -> (r: bool)
        ensures
            r == subscription_matches(self@, event@),
    {
        let mut i: usize = 0;
        while i < self.filters.len()
            invariant
                i <= self.filters@.len(),
                forall|k: int|
                    0 <= k < i ==> !filter_matches(#[trigger] self.filters.deep_view()[k], event@),
            decreases self.filters@.len() - i,
        {
            assert(self.filters.deep_view()[i as int] == self.filters@[i as int]@);
            if self.filters[i].interested_in_event(event) {
                assert(filter_matches(self@.filters[i as int], event@));
                return true;
            }
            i += 1;
        }
        false
    }

    /// Whether a historical query has to be run for this subscription.
    pub fn needs_historical_events(&self, now: u64) -> (r: bool)
        ensures
            r == needs_historical(self@, now),
    {
        let mut i: usize = 0;
        while i < self.filters.len()
            invariant
                i <= self.filters@.len(),
                forall|k: int|
                    0 <= k < i ==> bounded_before(#[trigger] self.filters.deep_view()[k], now),
            decreases self.filters@.len() - i,
        {
            assert(self.filters.deep_view()[i as int] == self.filters@[i as int]@);
            if !self.filters[i].closed_before(now) {
                assert(!bounded_before(self@.filters[i as int], now));
                return true;
            }
            i += 1;
        }
        false
    }
}

} // verus!
