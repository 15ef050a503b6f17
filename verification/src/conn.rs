//! Per-connection client state: who the client is and which subscriptions
//! it holds.
use crate::error::Error;
use crate::subscription::{Subscription, SubscriptionView};
use crate::text::{chars_of, push_char};
use vstd::prelude::*;

verus! {

/// How many characters of the client identifier make up its prefix.
pub const CLIENT_PREFIX_LEN: usize = 8;

/// The names of the subscriptions in `subs`, in their order.
pub open spec fn ids_of(subs: Seq<SubscriptionView>) -> Seq<Seq<char>> {
    subs.map_values(|s: SubscriptionView| s.id)
}

/// Whether a subscription named `id` is among `subs`.
pub open spec fn has_id(subs: Seq<SubscriptionView>, id: Seq<char>) -> bool {
    exists|i: int| 0 <= i < subs.len() && (#[trigger] subs[i]).id == id
}

/// The test that a subscription is not named `id`.
pub open spec fn not_named(id: Seq<char>) -> spec_fn(SubscriptionView) -> bool {
    |s: SubscriptionView| s.id != id
}

/// The test that a name is not `id`.
pub open spec fn not_name(id: Seq<char>) -> spec_fn(Seq<char>) -> bool {
    |r: Seq<char>| r != id
}

/// `subs` without the subscriptions named `id`.
pub open spec fn without_id(subs: Seq<SubscriptionView>, id: Seq<char>) -> Seq<SubscriptionView> {
    subs.filter(not_named(id))
}

/// `names` without the name `id`.
pub open spec fn names_without(names: Seq<Seq<char>>, id: Seq<char>) -> Seq<Seq<char>> {
    names.filter(not_name(id))
}

/// Whether no two subscriptions in `subs` share a name.
pub open spec fn distinct_ids(subs: Seq<SubscriptionView>) -> bool {
    forall|i: int, j: int|
        0 <= i < subs.len() && 0 <= j < subs.len() && i != j ==> (#[trigger] subs[i]).id != (
        #[trigger] subs[j]).id
}

/// The mathematical value of a [`ClientConn`].
pub struct ClientConnView {
    pub ip: Seq<char>,
    pub client_id: Seq<char>,
    pub subscriptions: Seq<SubscriptionView>,
    pub max_subs: nat,
}

impl ClientConnView {
    /// The state's invariant: names are unique and the limit is kept.
    pub open spec fn wf(self) -> bool {
        &&& distinct_ids(self.subscriptions)
        &&& self.subscriptions.len() <= self.max_subs
    }

    /// The state after a request to add `s`, and what the request returns:
    /// a name already present leaves the state as it is, and so does a full
    /// table, which is an error.
    pub open spec fn subscribe(self, s: SubscriptionView) -> (ClientConnView, Result<(), Error>) {
        if has_id(self.subscriptions, s.id) {
            (self, Ok(()))
        } else if self.subscriptions.len() >= self.max_subs {
            (self, Err(Error::SubMaxExceededError))
        } else {
            (ClientConnView { subscriptions: self.subscriptions.push(s), ..self }, Ok(()))
        }
    }

    /// The state after the subscription named `id` is dropped.
    pub open spec fn unsubscribe(self, id: Seq<char>) -> ClientConnView {
        ClientConnView { subscriptions: without_id(self.subscriptions, id), ..self }
    }
}

/// Filtering keeps a sequence whose elements all pass.
pub proof fn lemma_filter_all<A>(s: Seq<A>, pred: spec_fn(A) -> bool)
    requires
        forall|i: int| 0 <= i < s.len() ==> pred(#[trigger] s[i]),
    ensures
        s.filter(pred) == s,
    decreases s.len(),
{
    reveal(Seq::filter);
    if s.len() > 0 {
        lemma_filter_all(s.drop_last(), pred);
        assert(s.drop_last().push(s.last()) =~= s);
    }
}

/// Filtering drops exactly position `i` where that is the one element that
/// fails.
pub proof fn lemma_filter_drops_one<A>(s: Seq<A>, pred: spec_fn(A) -> bool, i: int)
    requires
        0 <= i < s.len(),
        !pred(s[i]),
        forall|k: int| 0 <= k < s.len() && k != i ==> pred(#[trigger] s[k]),
    ensures
        s.filter(pred) == s.remove(i),
{
    let head = s.take(i);
    let tail = s.skip(i + 1);
    assert(s =~= head.push(s[i]) + tail);
    Seq::filter_distributes_over_add(head.push(s[i]), tail, pred);
    head.lemma_filter_push(s[i], pred);
    assert forall|k: int| 0 <= k < head.len() implies pred(#[trigger] head[k]) by {
        assert(head[k] == s[k]);
    }
    assert forall|k: int| 0 <= k < tail.len() implies pred(#[trigger] tail[k]) by {
        assert(tail[k] == s[k + i + 1]);
    }
    lemma_filter_all(head, pred);
    lemma_filter_all(tail, pred);
    assert(s.remove(i) =~= head + tail);
}

/// Dropping a name that is absent changes nothing.
pub proof fn lemma_without_absent(subs: Seq<SubscriptionView>, id: Seq<char>)
    requires
        !has_id(subs, id),
    ensures
        without_id(subs, id) == subs,
{
    lemma_filter_all(subs, not_named(id));
}

/// Dropping the name found at position `i` of a table of unique names
/// removes exactly that position.
pub proof fn lemma_without_at(subs: Seq<SubscriptionView>, id: Seq<char>, i: int)
    requires
        distinct_ids(subs),
        0 <= i < subs.len(),
        subs[i].id == id,
    ensures
        without_id(subs, id) == subs.remove(i),
{
    lemma_filter_drops_one(subs, not_named(id), i);
}

/// After a name is dropped it is absent, the other subscriptions stay, and
/// unique names stay unique.
pub proof fn lemma_without_props(subs: Seq<SubscriptionView>, id: Seq<char>)
    requires
        distinct_ids(subs),
    ensures
        !has_id(without_id(subs, id), id),
        distinct_ids(without_id(subs, id)),
        without_id(subs, id).len() <= subs.len(),
        forall|other: Seq<char>|
            other != id ==> (has_id(without_id(subs, id), other) <==> has_id(subs, other)),
{
    if has_id(subs, id) {
        let i = choose|i: int| 0 <= i < subs.len() && (#[trigger] subs[i]).id == id;
        lemma_without_at(subs, id, i);
        let rest = subs.remove(i);
        assert forall|k: int| 0 <= k < rest.len() implies (#[trigger] rest[k]).id != id by {
            if k < i {
                assert(rest[k] == subs[k]);
            } else {
                assert(rest[k] == subs[k + 1]);
            }
        }
        assert forall|a: int, b: int|
            0 <= a < rest.len() && 0 <= b < rest.len() && a != b implies (#[trigger] rest[a]).id != (
        #[trigger] rest[b]).id by {
            let a0 = if a < i { a } else { a + 1 };
            let b0 = if b < i { b } else { b + 1 };
            assert(rest[a] == subs[a0]);
            assert(rest[b] == subs[b0]);
        }
        assert forall|other: Seq<char>| other != id implies (has_id(rest, other) <==> has_id(
            subs,
            other,
        )) by {
            if has_id(rest, other) {
                let k = choose|k: int| 0 <= k < rest.len() && (#[trigger] rest[k]).id == other;
                let k0 = if k < i { k } else { k + 1 };
                assert(rest[k] == subs[k0]);
            }
            if has_id(subs, other) {
                let k = choose|k: int| 0 <= k < subs.len() && (#[trigger] subs[k]).id == other;
                let k0 = if k < i { k } else { k - 1 };
                assert(rest[k0] == subs[k]);
            }
        }
    } else {
        lemma_without_absent(subs, id);
    }
}

/// The names follow the subscriptions when one is dropped: where the
/// name stood, exactly that place goes; where it did not, nothing does.
pub proof fn lemma_names_follow(subs: Seq<SubscriptionView>, id: Seq<char>)
    requires
        distinct_ids(subs),
    ensures
        ids_of(without_id(subs, id)) == names_without(ids_of(subs), id),
        has_id(subs, id) == ids_of(subs).contains(id),
        forall|i: int|
            0 <= i < subs.len() && (#[trigger] subs[i]).id == id ==> names_without(ids_of(subs), id)
                == ids_of(subs).remove(i),
        !has_id(subs, id) ==> names_without(ids_of(subs), id) == ids_of(subs),
{
    let names = ids_of(subs);
    if has_id(subs, id) {
        let i = choose|i: int| 0 <= i < subs.len() && (#[trigger] subs[i]).id == id;
        lemma_without_at(subs, id, i);
        assert forall|k: int| 0 <= k < names.len() && k != i implies (#[trigger] names[k]) != id by {
            assert(names[k] == subs[k].id);
        }
        lemma_filter_drops_one(names, not_name(id), i);
        assert(ids_of(subs.remove(i)) =~= names.remove(i));
        assert(names[i] == id);
        assert forall|j: int| 0 <= j < subs.len() && (#[trigger] subs[j]).id == id implies j == i by {}
    } else {
        lemma_without_absent(subs, id);
        assert forall|k: int| 0 <= k < names.len() implies (#[trigger] names[k]) != id by {
            assert(names[k] == subs[k].id);
        }
        lemma_filter_all(names, not_name(id));
        if names.contains(id) {
            let k = choose|k: int| 0 <= k < names.len() && names[k] == id;
            assert(subs[k].id == id);
        }
    }
}

/// What one connection's client is and holds.
#[derive(Debug)]
pub struct ClientConn {
    client_ip_addr: String,
    client_id: String,
    subscriptions: Vec<Subscription>,
    max_subs: usize,
}

impl View for ClientConn {
    type V = ClientConnView;

    closed spec fn view(&self) -> ClientConnView {
        ClientConnView {
            ip: self.client_ip_addr@,
            client_id: self.client_id@,
            subscriptions: self.subscriptions.deep_view(),
            max_subs: self.max_subs as nat,
        }
    }
}

impl ClientConn {
    /// The invariant of the state.
    pub open spec fn wf(&self) -> bool {
        self@.wf()
    }

    /// The state of a new connection: the client's address, the identifier
    /// the relay gave it, and the number of subscriptions it may hold.
    pub fn new(client_ip_addr: String, client_id: String, max_subs: usize) -> (conn: ClientConn)
        ensures
            conn.wf(),
            conn@ == (ClientConnView {
                ip: client_ip_addr@,
                client_id: client_id@,
                subscriptions: Seq::empty(),
                max_subs: max_subs as nat,
            }),
    {
        let conn = ClientConn { client_ip_addr, client_id, subscriptions: Vec::new(), max_subs };
        assert(conn.subscriptions.deep_view() =~= Seq::empty());
        conn
    }

    /// The client's address.
    pub fn ip(&self) -> (ip: &str)
        ensures
            ip@ == self@.ip,
    {
        self.client_ip_addr.as_str()
    }

    /// The short form of the client identifier: its first characters.
    pub fn get_client_prefix(&self) -> (prefix: String)
        ensures
            prefix@ == self@.client_id.take(
                if self@.client_id.len() < CLIENT_PREFIX_LEN {
                    self@.client_id.len() as int
                } else {
                    CLIENT_PREFIX_LEN as int
                },
            ),
    {
        let cs = chars_of(self.client_id.as_str());
        let mut out = String::new();
        let mut i: usize = 0;
        while i < cs.len() && i < CLIENT_PREFIX_LEN
            invariant
                i <= cs@.len(),
                i <= CLIENT_PREFIX_LEN,
                cs@ == self@.client_id,
                out@ == cs@.take(i as int),
            decreases cs@.len() - i,
        {
            push_char(&mut out, cs[i]);
            assert(cs@.take(i + 1) =~= cs@.take(i as int).push(cs@[i as int]));
            i += 1;
        }
        out
    }

    /// The subscriptions that the client holds, oldest first.
    pub fn subscriptions(&self) -> (subs: &Vec<Subscription>)
        ensures
            subs.deep_view() == self@.subscriptions,
    {
        &self.subscriptions
    }

    /// The number of subscriptions that the client holds.
    pub fn subscription_count(&self) -> (n: usize)
        ensures
            n == self@.subscriptions.len(),
    {
        self.subscriptions.len()
    }

    /// Where the subscription named `id` stands in the table, if it is held.
    pub fn position(&self, id: &str) -> (pos: Option<usize>)
        ensures
            match pos {
                Some(i) => i < self@.subscriptions.len() && self@.subscriptions[i as int].id == id@,
                None => !has_id(self@.subscriptions, id@),
            },
    {
        let wanted = id.to_owned();
        let mut i: usize = 0;
        while i < self.subscriptions.len()
            invariant
                i <= self.subscriptions@.len(),
                wanted@ == id@,
                forall|k: int| 0 <= k < i ==> (#[trigger] self@.subscriptions[k]).id != id@,
            decreases self.subscriptions@.len() - i,
        {
            assert(self@.subscriptions[i as int] == self.subscriptions@[i as int]@);
            if self.subscriptions[i].id == wanted {
                return Some(i);
            }
            i += 1;
        }
        None
    }

    /// Whether the client holds a subscription named `id`.
    pub fn has_subscription(&self, id: &str) -> (r: bool)
        ensures
            r == has_id(self@.subscriptions, id@),
    {
        self.position(id).is_some()
    }

    /// Adds a subscription. A name that is already present is left as it
    /// is; a full table is an error.
    pub fn subscribe(&mut self, s: Subscription) -> (r: Result<(), Error>)
        requires
            old(self).wf(),
        ensures
            final(self).wf(),
            (final(self)@, r) == old(self)@.subscribe(s@),
    {
        if self.has_subscription(s.id.as_str()) {
            return Ok(());
        }
        if self.subscriptions.len() >= self.max_subs {
            return Err(Error::SubMaxExceededError);
        }
        proof {
            assert(self.subscriptions.deep_view().push(s@) =~= self.subscriptions@.push(
                s,
            ).map_values(|x: Subscription| x.deep_view()));
        }
        self.subscriptions.push(s);
        assert(self@.subscriptions =~= old(self)@.subscriptions.push(s@));
        assert(distinct_ids(self@.subscriptions)) by {
            let subs = self@.subscriptions;
            let before = old(self)@.subscriptions;
            assert forall|i: int, j: int|
                0 <= i < subs.len() && 0 <= j < subs.len() && i != j implies (#[trigger] subs[i]).id
                != (#[trigger] subs[j]).id by {
                if i < before.len() {
                    assert(subs[i] == before[i]);
                }
                if j < before.len() {
                    assert(subs[j] == before[j]);
                }
            }
        }
        Ok(())
    }

    /// Drops every subscription.
    pub fn clear(&mut self)
        ensures
            final(self).wf(),
            final(self)@ == (ClientConnView { subscriptions: Seq::empty(), ..old(self)@ }),
    {
        self.subscriptions.clear();
        assert(self.subscriptions.deep_view() =~= Seq::empty());
    }

    /// Drops the subscription named `id`, if the client holds one.
    pub fn unsubscribe(&mut self, id: &str)
        requires
            old(self).wf(),
        ensures
            final(self).wf(),
            final(self)@ == old(self)@.unsubscribe(id@),
    {
        match self.position(id) {
            Some(i) => {
                proof {
                    lemma_without_at(self@.subscriptions, id@, i as int);
                    lemma_without_props(self@.subscriptions, id@);
                }
                self.subscriptions.remove(i);
                assert(self@.subscriptions =~= old(self)@.subscriptions.remove(i as int));
            },
            None => {
                proof {
                    lemma_without_absent(self@.subscriptions, id@);
                }
            },
        }
    }
}

} // verus!
