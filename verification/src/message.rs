//! The message codec: text frames from a client, as typed commands.
//!
//! A frame is a JSON array whose first item is a tag: `["EVENT", <event>]`,
//! `["REQ", <name>, <filter>, ...]` with at least one filter, or
//! `["CLOSE", <name>]`.
use crate::error::Error;
use crate::event::{Event, EventCmd, EventView};
use crate::json::{
    array_items, json_array, json_object, json_text, object_members, string_value,
};
use crate::subscription::{
    ReqFilter, ReqFilterView, Subscription, SubscriptionView, TagFilter, TagFilterView,
};
use crate::text::{chars_of, decimal_value, parse_decimal, same_text};
use vstd::prelude::*;

verus! {

/// A `CLOSE` command: the name of the subscription to end.
#[derive(Clone, Debug, PartialEq, Eq)]
pub struct CloseCmd {
    pub id: String,
}

/// Nostr protocol messages from a client.
#[derive(Clone, Debug, PartialEq, Eq)]
pub enum NostrMessage {
    /// An `EVENT` message
    EventMsg(EventCmd),
    /// A `REQ` message
    SubMsg(Subscription),
    /// A `CLOSE` message
    CloseMsg(CloseCmd),
}

/// The mathematical value of a [`NostrMessage`].
pub enum NostrMessageView {
    EventMsg(EventView),
    SubMsg(SubscriptionView),
    CloseMsg(Seq<char>),
}

impl View for NostrMessage {
    type V = NostrMessageView;

    open spec fn view(&self) -> NostrMessageView {
        match self {
            NostrMessage::EventMsg(ec) => NostrMessageView::EventMsg(ec@),
            NostrMessage::SubMsg(s) => NostrMessageView::SubMsg(s@),
            NostrMessage::CloseMsg(cc) => NostrMessageView::CloseMsg(cc.id@),
        }
    }
}

impl DeepView for NostrMessage {
    type V = NostrMessageView;

    open spec fn deep_view(&self) -> NostrMessageView {
        self@
    }
}

/// The members of a JSON object: keys with the texts of their values.
pub type Members = Seq<(Seq<char>, Seq<char>)>;

/// The text of the value of the first member named `key`.
pub open spec fn member(members: Members, key: Seq<char>) -> Option<Seq<char>>
    decreases members.len(),
{
    if members.len() == 0 {
        None
    } else if members[0].0 == key {
        Some(members[0].1)
    } else {
        member(members.drop_first(), key)
    }
}

/// The string that the member named `key` holds.
pub open spec fn text_member(members: Members, key: Seq<char>) -> Option<Seq<char>> {
    match member(members, key) {
        Some(raw) => json_text(raw),
        None => None,
    }
}

/// The number that the member named `key` holds: a whole number without
/// sign that fits 64 bits.
pub open spec fn number_member(members: Members, key: Seq<char>) -> Option<u64> {
    match member(members, key) {
        Some(raw) => decimal_value(raw),
        None => None,
    }
}

/// The strings of a JSON array of strings.
pub open spec fn text_list(text: Seq<char>) -> Option<Seq<Seq<char>>> {
    match json_array(text) {
        Some(items) => if forall|i: int|
            0 <= i < items.len() ==> json_text(#[trigger] items[i]) is Some {
            Some(Seq::new(items.len(), |i: int| json_text(items[i])->0))
        } else {
            None
        },
        None => None,
    }
}

/// The numbers of a JSON array of numbers.
pub open spec fn number_list(text: Seq<char>) -> Option<Seq<u64>> {
    match json_array(text) {
        Some(items) => if forall|i: int|
            0 <= i < items.len() ==> decimal_value(#[trigger] items[i]) is Some {
            Some(Seq::new(items.len(), |i: int| decimal_value(items[i])->0))
        } else {
            None
        },
        None => None,
    }
}

/// The tags of an event: a JSON array of arrays of strings.
pub open spec fn tag_list(text: Seq<char>) -> Option<Seq<Seq<Seq<char>>>> {
    match json_array(text) {
        Some(items) => if forall|i: int|
            0 <= i < items.len() ==> text_list(#[trigger] items[i]) is Some {
            Some(Seq::new(items.len(), |i: int| text_list(items[i])->0))
        } else {
            None
        },
        None => None,
    }
}

/// The event that a JSON object describes: all seven fields have to be
/// there, each of its type.
pub open spec fn decode_event(text: Seq<char>) -> Option<EventView> {
    match json_object(text) {
        Some(m) => {
            let id = text_member(m, "id"@);
            let pubkey = text_member(m, "pubkey"@);
            let created_at = number_member(m, "created_at"@);
            let kind = number_member(m, "kind"@);
            let tags = match member(m, "tags"@) {
                Some(raw) => tag_list(raw),
                None => None,
            };
            let content = text_member(m, "content"@);
            let sig = text_member(m, "sig"@);
            if id is Some && pubkey is Some && created_at is Some && kind is Some && tags is Some
                && content is Some && sig is Some {
                Some(
                    EventView {
                        id: id->0,
                        pubkey: pubkey->0,
                        created_at: created_at->0,
                        kind: kind->0,
                        tags: tags->0,
                        content: content->0,
                        sig: sig->0,
                    },
                )
            } else {
                None
            }
        },
        None => None,
    }
}

/// A member that may be absent: nothing where it is there and malformed.
pub open spec fn optional_text_list(members: Members, key: Seq<char>) -> Option<
    Option<Seq<Seq<char>>>,
> {
    match member(members, key) {
        Some(raw) => match text_list(raw) {
            Some(list) => Some(Some(list)),
            None => None,
        },
        None => Some(None),
    }
}

/// A member that may be absent: nothing where it is there and malformed.
pub open spec fn optional_number_list(members: Members, key: Seq<char>) -> Option<
    Option<Seq<u64>>,
> {
    match member(members, key) {
        Some(raw) => match number_list(raw) {
            Some(list) => Some(Some(list)),
            None => None,
        },
        None => Some(None),
    }
}

/// A member that may be absent: nothing where it is there and malformed.
pub open spec fn optional_number(members: Members, key: Seq<char>) -> Option<Option<u64>> {
    match member(members, key) {
        Some(raw) => match decimal_value(raw) {
            Some(n) => Some(Some(n)),
            None => None,
        },
        None => Some(None),
    }
}

/// Whether a key of a filter names a tag condition: `#` and one letter.
pub open spec fn is_tag_key(key: Seq<char>) -> bool {
    key.len() == 2 && key[0] == '#'
}

/// The tag conditions among the members of a filter, in their order;
/// nothing where one of them does not hold a list of strings.
pub open spec fn tag_filters(members: Members) -> Option<Seq<TagFilterView>>
    decreases members.len(),
{
    if members.len() == 0 {
        Some(Seq::empty())
    } else {
        match tag_filters(members.drop_last()) {
            Some(init) => if is_tag_key(members.last().0) {
                match text_list(members.last().1) {
                    Some(values) => Some(
                        init.push(TagFilterView { name: members.last().0[1], values }),
                    ),
                    None => None,
                }
            } else {
                Some(init)
            },
            None => None,
        }
    }
}

/// The filter that a JSON object describes. Members that the relay does
/// not know are passed over; a known one of the wrong type spoils the
/// filter.
pub open spec fn decode_filter(text: Seq<char>) -> Option<ReqFilterView> {
    match json_object(text) {
        Some(m) => {
            let ids = optional_text_list(m, "ids"@);
            let kinds = optional_number_list(m, "kinds"@);
            let since = optional_number(m, "since"@);
            let until = optional_number(m, "until"@);
            let authors = optional_text_list(m, "authors"@);
            let limit = optional_number(m, "limit"@);
            let tags = tag_filters(m);
            if ids is Some && kinds is Some && since is Some && until is Some && authors is Some
                && limit is Some && tags is Some {
                Some(
                    ReqFilterView {
                        ids: ids->0,
                        kinds: kinds->0,
                        since: since->0,
                        until: until->0,
                        authors: authors->0,
                        limit: limit->0,
                        tags: tags->0,
                    },
                )
            } else {
                None
            }
        },
        None => None,
    }
}

/// The filters that the texts `raws` describe, if each describes one.
pub open spec fn decode_filters(raws: Seq<Seq<char>>) -> Option<Seq<ReqFilterView>> {
    if forall|i: int| 0 <= i < raws.len() ==> decode_filter(#[trigger] raws[i]) is Some {
        Some(Seq::new(raws.len(), |i: int| decode_filter(raws[i])->0))
    } else {
        None
    }
}

/// The three commands of a client.
#[derive(Clone, Copy, Debug, PartialEq, Eq, Structural)]
pub enum CommandKind {
    Event,
    Req,
    Close,
}

/// Which command a frame with the tag `tag` and `items` items in all is:
/// `EVENT` and `CLOSE` take one argument, `REQ` a name and at least one
/// filter.
pub open spec fn command_kind(tag: Seq<char>, items: nat) -> Option<CommandKind> {
    if tag == "EVENT"@ && items == 2 {
        Some(CommandKind::Event)
    } else if tag == "REQ"@ && items >= 3 {
        Some(CommandKind::Req)
    } else if tag == "CLOSE"@ && items == 2 {
        Some(CommandKind::Close)
    } else {
        None
    }
}

/// The command that the items of a frame describe.
pub open spec fn decode_items(items: Seq<Seq<char>>) -> Option<NostrMessageView> {
    if items.len() == 0 {
        None
    } else {
        match json_text(items[0]) {
            Some(tag) => match command_kind(tag, items.len()) {
                Some(CommandKind::Event) => match decode_event(items[1]) {
                    Some(e) => Some(NostrMessageView::EventMsg(e)),
                    None => None,
                },
                Some(CommandKind::Req) => match (json_text(items[1]), decode_filters(items.skip(2))) {
                    (Some(id), Some(filters)) => Some(
                        NostrMessageView::SubMsg(SubscriptionView { id, filters }),
                    ),
                    _ => None,
                },
                Some(CommandKind::Close) => match json_text(items[1]) {
                    Some(id) => Some(NostrMessageView::CloseMsg(id)),
                    None => None,
                },
                None => None,
            },
            None => None,
        }
    }
}

/// The command that a frame describes.
pub open spec fn decode(text: Seq<char>) -> Option<NostrMessageView> {
    match json_array(text) {
        Some(items) => decode_items(items),
        None => None,
    }
}

/// What becomes of a frame of `len` bytes that was decoded to `decoded`:
/// a frame that is no command is a parse error, an `EVENT` frame over the
/// limit is too long, where a limit above zero is set.
pub open spec fn limited(decoded: Option<NostrMessageView>, len: usize, max_bytes: Option<usize>) -> Result<
    NostrMessageView,
    Error,
> {
    match decoded {
        Some(m) => if m is EventMsg && (max_bytes matches Some(max) && len > max && max > 0) {
            Err(Error::EventMaxLengthError(len))
        } else {
            Ok(m)
        },
        None => Err(Error::ProtoParseError),
    }
}

/// What a text frame is to the relay, under a limit on `EVENT` frames.
pub open spec fn convert(text: Seq<char>, max_bytes: Option<usize>) -> Result<
    NostrMessageView,
    Error,
> {
    limited(decode(text), vstd::utf8::encode_utf8(text).len() as usize, max_bytes)
}

/// The value of a decoded frame.
pub open spec fn decoded_view(r: Result<NostrMessage, Error>) -> Result<NostrMessageView, Error> {
    match r {
        Ok(m) => Ok(m@),
        Err(e) => Err(e),
    }
}

/// Finds the first member named `key`.
pub fn find_member<'a>(members: &'a Vec<(String, String)>, key: &str) -> (r: Option<&'a String>)
    ensures
        r.deep_view() == member(members.deep_view(), key@),
{
    let ghost all = members.deep_view();
    assert(all.skip(0) =~= all);
    let mut i: usize = 0;
    while i < members.len()
        invariant
            i <= members@.len(),
            all == members.deep_view(),
            member(all, key@) == member(all.skip(i as int), key@),
        decreases members@.len() - i,
    {
        assert(all.skip(i as int)[0] == all[i as int]);
        assert(all.skip(i as int).drop_first() =~= all.skip(i + 1));
        assert(all[i as int] == (members@[i as int].0@, members@[i as int].1@));
        if same_text(members[i].0.as_str(), key) {
            return Some(&members[i].1);
        }
        i += 1;
    }
    None
}

/// Reads a JSON array of strings.
pub fn read_text_list(text: &str) -> (r: Option<Vec<String>>)
    ensures
        r.deep_view() == text_list(text@),
{
    let items = match array_items(text) {
        Some(items) => items,
        None => {
            return None;
        },
    };
    let ghost raws = items.deep_view();
    let mut out: Vec<String> = Vec::new();
    let mut i: usize = 0;
    while i < items.len()
        invariant
            i <= items@.len(),
            raws == items.deep_view(),
            out@.len() == i,
            json_array(text@) == Some(raws),
            forall|k: int| 0 <= k < i ==> json_text(#[trigger] raws[k]) == Some(out@[k]@),
        decreases items@.len() - i,
    {
        assert(raws[i as int] == items@[i as int]@);
        match string_value(items[i].as_str()) {
            Some(s) => {
                out.push(s);
            },
            None => {
                return None;
            },
        }
        i += 1;
    }
    assert(out.deep_view() =~= Seq::new(raws.len(), |i: int| json_text(raws[i])->0));
    Some(out)
}

/// Reads a JSON array of numbers.
pub fn read_number_list(text: &str) -> (r: Option<Vec<u64>>)
    ensures
        r.deep_view() == number_list(text@),
{
    let items = match array_items(text) {
        Some(items) => items,
        None => {
            return None;
        },
    };
    let ghost raws = items.deep_view();
    let mut out: Vec<u64> = Vec::new();
    let mut i: usize = 0;
    while i < items.len()
        invariant
            i <= items@.len(),
            raws == items.deep_view(),
            out@.len() == i,
            json_array(text@) == Some(raws),
            forall|k: int| 0 <= k < i ==> decimal_value(#[trigger] raws[k]) == Some(out@[k]),
        decreases items@.len() - i,
    {
        assert(raws[i as int] == items@[i as int]@);
        match parse_decimal(items[i].as_str()) {
            Some(n) => {
                out.push(n);
            },
            None => {
                return None;
            },
        }
        i += 1;
    }
    assert(out.deep_view() =~= Seq::new(raws.len(), |i: int| decimal_value(raws[i])->0));
    Some(out)
}

/// Reads the tags of an event.
pub fn read_tag_list(text: &str) -> (r: Option<Vec<Vec<String>>>)
    ensures
        r.deep_view() == tag_list(text@),
{
    let items = match array_items(text) {
        Some(items) => items,
        None => {
            return None;
        },
    };
    let ghost raws = items.deep_view();
    let mut out: Vec<Vec<String>> = Vec::new();
    let mut i: usize = 0;
    while i < items.len()
        invariant
            i <= items@.len(),
            raws == items.deep_view(),
            out@.len() == i,
            json_array(text@) == Some(raws),
            forall|k: int| 0 <= k < i ==> text_list(#[trigger] raws[k]) == Some(out@[k].deep_view()),
        decreases items@.len() - i,
    {
        assert(raws[i as int] == items@[i as int]@);
        match read_text_list(items[i].as_str()) {
            Some(tag) => {
                out.push(tag);
            },
            None => {
                return None;
            },
        }
        i += 1;
    }
    assert(out.deep_view() =~= Seq::new(raws.len(), |i: int| text_list(raws[i])->0));
    Some(out)
}

fn read_text_member(members: &Vec<(String, String)>, key: &str) -> (r: Option<String>)
    ensures
        r.deep_view() == text_member(members.deep_view(), key@),
{
    match find_member(members, key) {
        Some(raw) => string_value(raw.as_str()),
        None => None,
    }
}

fn read_number_member(members: &Vec<(String, String)>, key: &str) -> (r: Option<u64>)
    ensures
        r == number_member(members.deep_view(), key@),
{
    match find_member(members, key) {
        Some(raw) => parse_decimal(raw.as_str()),
        None => None,
    }
}

/// Reads an event from the text of a JSON object.
pub fn read_event(text: &str) -> (r: Option<Event>)
    ensures
        r.deep_view() == decode_event(text@),
{
    let members = match object_members(text) {
        Some(m) => m,
        None => {
            return None;
        },
    };
    let id = read_text_member(&members, "id");
    let pubkey = read_text_member(&members, "pubkey");
    let created_at = read_number_member(&members, "created_at");
    let kind = read_number_member(&members, "kind");
    let tags = match find_member(&members, "tags") {
        Some(raw) => read_tag_list(raw.as_str()),
        None => None,
    };
    let content = read_text_member(&members, "content");
    let sig = read_text_member(&members, "sig");
    match (id, pubkey, created_at, kind, tags, content, sig) {
        (Some(id), Some(pubkey), Some(created_at), Some(kind), Some(tags), Some(content), Some(sig)) => {
            Some(Event { id, pubkey, created_at, kind, tags, content, sig })
        },
        _ => None,
    }
}

fn read_optional_text_list(members: &Vec<(String, String)>, key: &str) -> (r: Option<
    Option<Vec<String>>,
>)
    ensures
        r.deep_view() == optional_text_list(members.deep_view(), key@),
{
    match find_member(members, key) {
        Some(raw) => match read_text_list(raw.as_str()) {
            Some(list) => Some(Some(list)),
            None => None,
        },
        None => Some(None),
    }
}

fn read_optional_number_list(members: &Vec<(String, String)>, key: &str) -> (r: Option<
    Option<Vec<u64>>,
>)
    ensures
        r.deep_view() == optional_number_list(members.deep_view(), key@),
{
    match find_member(members, key) {
        Some(raw) => match read_number_list(raw.as_str()) {
            Some(list) => Some(Some(list)),
            None => None,
        },
        None => Some(None),
    }
}

fn read_optional_number(members: &Vec<(String, String)>, key: &str) -> (r: Option<Option<u64>>)
    ensures
        r == optional_number(members.deep_view(), key@),
{
    match find_member(members, key) {
        Some(raw) => match parse_decimal(raw.as_str()) {
            Some(n) => Some(Some(n)),
            None => None,
        },
        None => Some(None),
    }
}

/// Once a tag condition is malformed, so is the whole.
pub proof fn lemma_tag_filters_prefix(members: Members, i: int)
    requires
        0 <= i <= members.len(),
        tag_filters(members.take(i)) is None,
    ensures
        tag_filters(members) is None,
    decreases members.len() - i,
{
    if i < members.len() {
        assert(members.take(i + 1).drop_last() =~= members.take(i));
        lemma_tag_filters_prefix(members, i + 1);
    } else {
        assert(members.take(i) =~= members);
    }
}

/// The letter of a tag condition's key, if the key names one.
pub fn tag_letter(key: &str) -> (r: Option<char>)
    ensures
        r == (if is_tag_key(key@) {
            Some(key@[1])
        } else {
            None
        }),
{
    let cs = chars_of(key);
    if cs.len() == 2 && cs[0] == '#' {
        Some(cs[1])
    } else {
        None
    }
}

fn push_tag_filter(out: &mut Vec<TagFilter>, filter: TagFilter)
    ensures
        final(out).deep_view() == old(out).deep_view().push(filter@),
{
    out.push(filter);
    assert(out.deep_view() =~= old(out).deep_view().push(filter@));
}

fn read_tag_filters(members: &Vec<(String, String)>) -> (r: Option<Vec<TagFilter>>)
    ensures
        r.deep_view() == tag_filters(members.deep_view()),
{
    let ghost all = members.deep_view();
    let mut out: Vec<TagFilter> = Vec::new();
    assert(out.deep_view() =~= Seq::empty());
    assert(all.take(0).len() == 0);
    let mut i: usize = 0;
    while i < members.len()
        invariant
            i <= members@.len(),
            all == members.deep_view(),
            tag_filters(all.take(i as int)) == Some(out.deep_view()),
        decreases members@.len() - i,
    {
        let ghost before = out.deep_view();
        assert(all.take(i + 1).drop_last() =~= all.take(i as int));
        assert(all.take(i + 1).last() == (members@[i as int].0@, members@[i as int].1@));
        match tag_letter(members[i].0.as_str()) {
            Some(name) => match read_text_list(members[i].1.as_str()) {
                Some(values) => {
                    push_tag_filter(&mut out, TagFilter { name, values });
                },
                None => {
                    proof {
                        lemma_tag_filters_prefix(all, i + 1);
                    }
                    return None;
                },
            },
            None => {},
        }
        i += 1;
    }
    assert(all.take(all.len() as int) =~= all);
    Some(out)
}

/// Reads a filter from the text of a JSON object.
pub fn read_filter(text: &str) -> (r: Option<ReqFilter>)
    ensures
        r.deep_view() == decode_filter(text@),
{
    let members = match object_members(text) {
        Some(m) => m,
        None => {
            return None;
        },
    };
    let ids = read_optional_text_list(&members, "ids");
    let kinds = read_optional_number_list(&members, "kinds");
    let since = read_optional_number(&members, "since");
    let until = read_optional_number(&members, "until");
    let authors = read_optional_text_list(&members, "authors");
    let limit = read_optional_number(&members, "limit");
    let tags = read_tag_filters(&members);
    match (ids, kinds, since, until, authors, limit, tags) {
        (Some(ids), Some(kinds), Some(since), Some(until), Some(authors), Some(limit), Some(tags)) => {
            Some(ReqFilter { ids, kinds, since, until, authors, limit, tags })
        },
        _ => None,
    }
}

fn read_filters(items: &Vec<String>, from: usize) -> (r: Option<Vec<ReqFilter>>)
    requires
        from <= items@.len(),
    ensures
        r.deep_view() == decode_filters(items.deep_view().skip(from as int)),
{
    let ghost raws = items.deep_view().skip(from as int);
    let mut out: Vec<ReqFilter> = Vec::new();
    let mut i: usize = from;
    while i < items.len()
        invariant
            from <= i <= items@.len(),
            raws == items.deep_view().skip(from as int),
            out@.len() == i - from,
            forall|k: int| 0 <= k < i - from ==> decode_filter(#[trigger] raws[k]) == Some(out@[k]@),
        decreases items@.len() - i,
    {
        assert(raws[i - from] == items@[i as int]@);
        match read_filter(items[i].as_str()) {
            Some(f) => {
                out.push(f);
            },
            None => {
                return None;
            },
        }
        i += 1;
    }
    assert(out.deep_view() =~= Seq::new(raws.len(), |i: int| decode_filter(raws[i])->0));
    Some(out)
}

/// Tells which command a frame is by its tag and the number of its items.
pub fn classify(tag: &str, items: usize) -> (r: Option<CommandKind>)
    ensures
        r == command_kind(tag@, items as nat),
{
    if same_text(tag, "EVENT") && items == 2 {
        Some(CommandKind::Event)
    } else if same_text(tag, "REQ") && items >= 3 {
        Some(CommandKind::Req)
    } else if same_text(tag, "CLOSE") && items == 2 {
        Some(CommandKind::Close)
    } else {
        None
    }
}

/// Decodes a text frame to the command it carries.
pub fn decode_message(text: &str) -> (r: Option<NostrMessage>)
    ensures
        r.deep_view() == decode(text@),
{
    let items = match array_items(text) {
        Some(items) => items,
        None => {
            return None;
        },
    };
    if items.len() == 0 {
        return None;
    }
    let ghost raws = items.deep_view();
    assert(raws[0] == items@[0]@);
    let tag = match string_value(items[0].as_str()) {
        Some(tag) => tag,
        None => {
            return None;
        },
    };
    match classify(tag.as_str(), items.len()) {
        Some(CommandKind::Event) => {
            assert(raws[1] == items@[1]@);
            match read_event(items[1].as_str()) {
                Some(event) => Some(NostrMessage::EventMsg(EventCmd { event })),
                None => None,
            }
        },
        Some(CommandKind::Req) => {
            assert(raws[1] == items@[1]@);
            let id = string_value(items[1].as_str());
            let filters = read_filters(&items, 2);
            match (id, filters) {
                (Some(id), Some(filters)) => Some(NostrMessage::SubMsg(Subscription { id, filters })),
                _ => None,
            }
        },
        Some(CommandKind::Close) => {
            assert(raws[1] == items@[1]@);
            match string_value(items[1].as_str()) {
                Some(id) => Some(NostrMessage::CloseMsg(CloseCmd { id })),
                None => None,
            }
        },
        None => None,
    }
}

/// Applies the size limit of `EVENT` frames to a decoded frame of `len`
/// bytes.
pub fn apply_limit(decoded: Option<NostrMessage>, len: usize, max_bytes: Option<usize>) -> (r: Result<
    NostrMessage,
    Error,
>)
    ensures
        decoded_view(r) == limited(decoded.deep_view(), len, max_bytes),
{
    match decoded {
        Some(m) => {
            let over = match max_bytes {
                Some(max) => len > max && max > 0,
                None => false,
            };
            let is_event = match &m {
                NostrMessage::EventMsg(_) => true,
                _ => false,
            };
            if is_event && over {
                Err(Error::EventMaxLengthError(len))
            } else {
                Ok(m)
            }
        },
        None => Err(Error::ProtoParseError),
    }
}

/// Converts a text frame to the command it carries, or says why it
/// carries none.
pub fn convert_to_msg(msg: &str, max_bytes: Option<usize>) -> (r: Result<NostrMessage, Error>)
    ensures
        decoded_view(r) == convert(msg@, max_bytes),
{
    let decoded = decode_message(msg);
    apply_limit(decoded, msg.len(), max_bytes)
}

} // verus!
