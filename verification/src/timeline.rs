//! One page of the "tweets and replies" timeline: the typed entry variants,
//! the polymorphic entry decoder that resolves a variant from the sibling
//! `entryId` field, the envelope check, and the bottom-cursor lookup.

use vstd::prelude::*;
use crate::envelope::{spec_envelope_verdict, filter_errors, ApiError};
use crate::errors::ScrapeError;
use crate::json::{obj_get, spec_obj_get, JsonValue};
use crate::strutil::{spec_starts_with, str_eq, str_starts_with};

verus! {

/// A tweet reference inside an entry: either a resolved tweet carrying its
/// `rest_id`, or a tombstone placeholder with nothing fetchable.
#[derive(Clone, Debug, PartialEq, Eq)]
pub enum TweetResult {
    Resolved { rest_id: String },
    Tombstone,
}

/// A pagination cursor entry: an opaque continuation token and the label
/// that says which boundary it continues from.
#[derive(Clone, Debug, PartialEq, Eq)]
pub struct Cursor {
    pub cursor_type: String,
    pub value: String,
}

/// One timeline entry, a closed variant set. A conversation entry carries
/// the thread slice's items in order.
#[derive(Clone, Debug, PartialEq, Eq)]
pub enum Entry {
    HomeConversation(Vec<TweetResult>),
    Tweet(TweetResult),
    Cursor(Cursor),
}

/// The mathematical shape of an entry, as contracts speak of it.
pub enum EntryModel {
    HomeConversation(Seq<TweetResult>),
    Tweet(TweetResult),
    Cursor(Seq<char>, Seq<char>),
}

impl View for Entry {
    type V = EntryModel;

    open spec fn view(&self) -> EntryModel {
        match self {
            Entry::HomeConversation(items) => EntryModel::HomeConversation(items@),
            Entry::Tweet(t) => EntryModel::Tweet(*t),
            Entry::Cursor(c) => EntryModel::Cursor(c.cursor_type@, c.value@),
        }
    }
}

/// The result object names a tombstone placeholder.
pub open spec fn spec_is_tombstone(rf: Seq<(String, JsonValue)>) -> bool {
    match spec_obj_get(rf, "__typename"@) {
        Some(JsonValue::Str(t)) => t@ == "TweetTombstone"@,
        _ => false,
    }
}

/// What a `tweet_results` object decodes to: a tombstone when the result
/// names one, else the result's `rest_id`.
pub open spec fn spec_tweet_results(v: JsonValue) -> Result<TweetResult, ScrapeError> {
    match v {
        JsonValue::Obj(fields) => match spec_obj_get(fields@, "result"@) {
            Some(JsonValue::Obj(rf)) => if spec_is_tombstone(rf@) {
                Ok(TweetResult::Tombstone)
            } else {
                match spec_obj_get(rf@, "rest_id"@) {
                    Some(JsonValue::Str(id)) => Ok(TweetResult::Resolved { rest_id: id }),
                    _ => Err(ScrapeError::BadShape),
                }
            },
            _ => Err(ScrapeError::BadShape),
        },
        _ => Err(ScrapeError::BadShape),
    }
}

fn tweet_results(v: &JsonValue) -> (r: Result<TweetResult, ScrapeError>)
    ensures
        r == spec_tweet_results(*v),
{
    match v {
        JsonValue::Obj(fields) => match obj_get(fields, "result") {
            Some(rv) => match rv {
                JsonValue::Obj(rf) => {
                    let tomb = match obj_get(rf, "__typename") {
                        Some(tv) => match tv {
                            JsonValue::Str(t) => str_eq(t.as_str(), "TweetTombstone"),
                            _ => false,
                        },
                        None => false,
                    };
                    if tomb {
                        Ok(TweetResult::Tombstone)
                    } else {
                        match obj_get(rf, "rest_id") {
                            Some(iv) => match iv {
                                JsonValue::Str(id) => Ok(
                                    TweetResult::Resolved { rest_id: id.clone() },
                                ),
                                _ => Err(ScrapeError::BadShape),
                            },
                            None => Err(ScrapeError::BadShape),
                        }
                    }
                }
                _ => Err(ScrapeError::BadShape),
            },
            None => Err(ScrapeError::BadShape),
        },
        _ => Err(ScrapeError::BadShape),
    }
}

/// What an `itemContent`-like object decodes to: its `tweet_results`.
pub open spec fn spec_item_content(v: JsonValue) -> Result<TweetResult, ScrapeError> {
    match v {
        JsonValue::Obj(f) => match spec_obj_get(f@, "tweet_results"@) {
            Some(tv) => spec_tweet_results(tv),
            None => Err(ScrapeError::BadShape),
        },
        _ => Err(ScrapeError::BadShape),
    }
}

fn item_content(v: &JsonValue) -> (r: Result<TweetResult, ScrapeError>)
    ensures
        r == spec_item_content(*v),
{
    match v {
        JsonValue::Obj(f) => match obj_get(f, "tweet_results") {
            Some(tv) => tweet_results(tv),
            None => Err(ScrapeError::BadShape),
        },
        _ => Err(ScrapeError::BadShape),
    }
}

/// What a tweet entry's content decodes to: the `tweet_results` of its
/// `itemContent`.
pub open spec fn spec_tweet_entry_content(v: JsonValue) -> Result<TweetResult, ScrapeError> {
    match v {
        JsonValue::Obj(f) => match spec_obj_get(f@, "itemContent"@) {
            Some(ic) => spec_item_content(ic),
            None => Err(ScrapeError::BadShape),
        },
        _ => Err(ScrapeError::BadShape),
    }
}

fn tweet_entry_content(v: &JsonValue) -> (r: Result<TweetResult, ScrapeError>)
    ensures
        r == spec_tweet_entry_content(*v),
{
    match v {
        JsonValue::Obj(f) => match obj_get(f, "itemContent") {
            Some(ic) => item_content(ic),
            None => Err(ScrapeError::BadShape),
        },
        _ => Err(ScrapeError::BadShape),
    }
}

/// What a conversation item decodes to: the `tweet_results` of its `item`.
pub open spec fn spec_conv_item(v: JsonValue) -> Result<TweetResult, ScrapeError> {
    match v {
        JsonValue::Obj(f) => match spec_obj_get(f@, "item"@) {
            Some(iv) => spec_item_content(iv),
            None => Err(ScrapeError::BadShape),
        },
        _ => Err(ScrapeError::BadShape),
    }
}

fn conv_item(v: &JsonValue) -> (r: Result<TweetResult, ScrapeError>)
    ensures
        r == spec_conv_item(*v),
{
    match v {
        JsonValue::Obj(f) => match obj_get(f, "item") {
            Some(iv) => item_content(iv),
            None => Err(ScrapeError::BadShape),
        },
        _ => Err(ScrapeError::BadShape),
    }
}

/// What a conversation's item list decodes to, in order; the first bad item
/// decides the error.
pub open spec fn spec_conv_items(items: Seq<JsonValue>) -> Result<Seq<TweetResult>, ScrapeError>
    decreases items.len(),
{
    if items.len() == 0 {
        Ok(Seq::empty())
    } else {
        match spec_conv_items(items.drop_last()) {
            Ok(pre) => match spec_conv_item(items.last()) {
                Ok(t) => Ok(pre.push(t)),
                Err(e) => Err(e),
            },
            Err(e) => Err(e),
        }
    }
}

proof fn lemma_conv_items_err(items: Seq<JsonValue>, i: int)
    requires
        0 <= i <= items.len(),
        spec_conv_items(items.take(i)) is Err,
    ensures
        spec_conv_items(items) == spec_conv_items(items.take(i)),
    decreases items.len() - i,
{
    if i < items.len() {
        assert(items.take(i + 1).drop_last() =~= items.take(i));
        lemma_conv_items_err(items, i + 1);
    } else {
        assert(items.take(i) =~= items);
    }
}

/// What a conversation entry's content decodes to: its decoded `items`.
pub open spec fn spec_conversation_content(v: JsonValue) -> Result<Seq<TweetResult>, ScrapeError> {
    match v {
        JsonValue::Obj(f) => match spec_obj_get(f@, "items"@) {
            Some(JsonValue::Arr(items)) => spec_conv_items(items@),
            _ => Err(ScrapeError::BadShape),
        },
        _ => Err(ScrapeError::BadShape),
    }
}

fn conversation_content(v: &JsonValue) -> (r: Result<Vec<TweetResult>, ScrapeError>)
    ensures
        match r {
            Ok(out) => spec_conversation_content(*v) == Ok::<Seq<TweetResult>, ScrapeError>(out@),
            Err(e) => spec_conversation_content(*v) == Err::<Seq<TweetResult>, ScrapeError>(e),
        },
{
    match v {
        JsonValue::Obj(f) => match obj_get(f, "items") {
            Some(itemsv) => match itemsv {
                JsonValue::Arr(items) => {
                    let n = items.len();
                    let mut out: Vec<TweetResult> = Vec::new();
                    let mut i: usize = 0;
                    proof {
                        assert(items@.take(0) =~= Seq::<JsonValue>::empty());
                    }
                    while i < n
                        invariant
                            i <= n,
                            n == items@.len(),
                            spec_conversation_content(*v) == spec_conv_items(items@),
                            spec_conv_items(items@.take(i as int)) == Ok::<
                                Seq<TweetResult>,
                                ScrapeError,
                            >(out@),
                        decreases n - i,
                    {
                        proof {
                            assert(items@.take(i as int + 1).drop_last() =~= items@.take(i as int));
                            assert(items@.take(i as int + 1).last() == items@[i as int]);
                        }
                        match conv_item(&items[i]) {
                            Ok(t) => {
                                out.push(t);
                            }
                            Err(e) => {
                                proof {
                                    assert(spec_conv_items(items@.take(i as int + 1)) == Err::<
                                        Seq<TweetResult>,
                                        ScrapeError,
                                    >(e));
                                    lemma_conv_items_err(items@, i as int + 1);
                                }
                                return Err(e);
                            }
                        }
                        i = i + 1;
                    }
                    proof {
                        assert(items@.take(n as int) =~= items@);
                    }
                    Ok(out)
                }
                _ => Err(ScrapeError::BadShape),
            },
            None => Err(ScrapeError::BadShape),
        },
        _ => Err(ScrapeError::BadShape),
    }
}

/// What an entry's content decodes to once the identifier is known: the
/// identifier's prefix picks the variant; an unrecognized prefix is a hard
/// failure naming the identifier.
pub open spec fn spec_decode_content(id: String, v: JsonValue) -> Result<EntryModel, ScrapeError> {
    if spec_starts_with(id@, "tweet-"@) {
        match spec_tweet_entry_content(v) {
            Ok(t) => Ok(EntryModel::Tweet(t)),
            Err(e) => Err(e),
        }
    } else if spec_starts_with(id@, "homeConversation-"@) {
        match spec_conversation_content(v) {
            Ok(items) => Ok(EntryModel::HomeConversation(items)),
            Err(e) => Err(e),
        }
    } else if spec_starts_with(id@, "cursor-"@) {
        match spec_cursor_content(v) {
            Ok(cv) => Ok(EntryModel::Cursor(cv.0, cv.1)),
            Err(e) => Err(e),
        }
    } else {
        Err(ScrapeError::UnknownEntryKind(id))
    }
}

fn decode_content(id: &String, v: &JsonValue) -> (r: Result<Entry, ScrapeError>)
    ensures
        match r {
            Ok(e) => spec_decode_content(*id, *v) == Ok::<EntryModel, ScrapeError>(e@),
            Err(err) => spec_decode_content(*id, *v) == Err::<EntryModel, ScrapeError>(err),
        },
{
    if str_starts_with(id.as_str(), "tweet-") {
        match tweet_entry_content(v) {
            Ok(t) => Ok(Entry::Tweet(t)),
            Err(e) => Err(e),
        }
    } else if str_starts_with(id.as_str(), "homeConversation-") {
        match conversation_content(v) {
            Ok(items) => Ok(Entry::HomeConversation(items)),
            Err(e) => Err(e),
        }
    } else if str_starts_with(id.as_str(), "cursor-") {
        match cursor_content(v) {
            Ok(c) => Ok(Entry::Cursor(c)),
            Err(e) => Err(e),
        }
    } else {
        Err(ScrapeError::UnknownEntryKind(id.clone()))
    }
}

/// What decoding an entry object's field list yields. The identifier seen so
/// far is carried along; the decision is made the moment the content field
/// arrives, and a content field with no identifier recorded yet is its own
/// precise failure.
pub open spec fn spec_decode_entry_rec(
    fields: Seq<(String, JsonValue)>,
    entry_id: Option<String>,
) -> Result<EntryModel, ScrapeError>
    decreases fields.len(),
{
    if fields.len() == 0 {
        Err(ScrapeError::MissingContent)
    } else {
        let k = fields[0].0;
        let v = fields[0].1;
        if k@ == "entryId"@ {
            match v {
                JsonValue::Str(s) => spec_decode_entry_rec(fields.drop_first(), Some(s)),
                _ => Err(ScrapeError::BadShape),
            }
        } else if k@ == "sortId"@ {
            match v {
                JsonValue::Str(_) => spec_decode_entry_rec(fields.drop_first(), entry_id),
                _ => Err(ScrapeError::BadShape),
            }
        } else if k@ == "content"@ {
            match entry_id {
                Some(id) => spec_decode_content(id, v),
                None => Err(ScrapeError::ContentBeforeId),
            }
        } else {
            Err(ScrapeError::UnknownField(k))
        }
    }
}

/// What decoding a whole entry object yields.
pub open spec fn spec_decode_entry(fields: Seq<(String, JsonValue)>) -> Result<
    EntryModel,
    ScrapeError,
> {
    spec_decode_entry_rec(fields, None)
}

/// Decode one timeline entry from its object's fields in arrival order,
/// exactly as `spec_decode_entry` says: buffer the sibling `entryId`, pick
/// the variant by its prefix the moment the content field arrives, and
/// return at once.
pub fn decode_entry(fields: &Vec<(String, JsonValue)>) -> (r: Result<Entry, ScrapeError>)
    ensures
        match r {
            Ok(e) => spec_decode_entry(fields@) == Ok::<EntryModel, ScrapeError>(e@),
            Err(err) => spec_decode_entry(fields@) == Err::<EntryModel, ScrapeError>(err),
        },
{
    let n = fields.len();
    let mut entry_id: Option<String> = None;
    let mut i: usize = 0;
    proof {
        assert(fields@.skip(0) =~= fields@);
    }
    while i < n
        invariant
            i <= n,
            n == fields@.len(),
            spec_decode_entry(fields@) == spec_decode_entry_rec(
                fields@.skip(i as int),
                entry_id,
            ),
        decreases n - i,
    {
        proof {
            assert(fields@.skip(i as int)[0] == fields@[i as int]);
            assert(fields@.skip(i as int).drop_first() =~= fields@.skip(i as int + 1));
        }
        let k = &fields[i].0;
        let v = &fields[i].1;
        if str_eq(k.as_str(), "entryId") {
            match v {
                JsonValue::Str(s) => {
                    entry_id = Some(s.clone());
                }
                _ => {
                    return Err(ScrapeError::BadShape);
                }
            }
        } else if str_eq(k.as_str(), "sortId") {
            match v {
                JsonValue::Str(_) => {}
                _ => {
                    return Err(ScrapeError::BadShape);
                }
            }
        } else if str_eq(k.as_str(), "content") {
            match &entry_id {
                Some(id) => {
                    return decode_content(id, v);
                }
                None => {
                    return Err(ScrapeError::ContentBeforeId);
                }
            }
        } else {
            return Err(ScrapeError::UnknownField(k.clone()));
        }
        i = i + 1;
    }
    Err(ScrapeError::MissingContent)
}

/// What a cursor entry's content decodes to: its type label and its opaque
/// continuation value.
pub open spec fn spec_cursor_content(v: JsonValue) -> Result<(Seq<char>, Seq<char>), ScrapeError> {
    match v {
        JsonValue::Obj(f) => match spec_obj_get(f@, "itemContent"@) {
            Some(JsonValue::Obj(cf)) => match (
                spec_obj_get(cf@, "cursorType"@),
                spec_obj_get(cf@, "value"@),
            ) {
                (Some(JsonValue::Str(ct)), Some(JsonValue::Str(val))) => Ok((ct@, val@)),
                _ => Err(ScrapeError::BadShape),
            },
            _ => Err(ScrapeError::BadShape),
        },
        _ => Err(ScrapeError::BadShape),
    }
}

fn cursor_content(v: &JsonValue) -> (r: Result<Cursor, ScrapeError>)
    ensures
        match r {
            Ok(c) => spec_cursor_content(*v) == Ok::<(Seq<char>, Seq<char>), ScrapeError>(
                (c.cursor_type@, c.value@),
            ),
            Err(e) => spec_cursor_content(*v) == Err::<(Seq<char>, Seq<char>), ScrapeError>(e),
        },
{
    match v {
        JsonValue::Obj(f) => match obj_get(f, "itemContent") {
            Some(icv) => match icv {
                JsonValue::Obj(cf) => {
                    let ct = obj_get(cf, "cursorType");
                    let val = obj_get(cf, "value");
                    match (ct, val) {
                        (Some(JsonValue::Str(c)), Some(JsonValue::Str(w))) => Ok(
                            Cursor { cursor_type: c.clone(), value: w.clone() },
                        ),
                        _ => Err(ScrapeError::BadShape),
                    }
                }
                _ => Err(ScrapeError::BadShape),
            },
            None => Err(ScrapeError::BadShape),
        },
        _ => Err(ScrapeError::BadShape),
    }
}

/// One instruction of a timeline page; only "add entries" carries content
/// the crawl expands.
#[derive(Clone, Debug, PartialEq, Eq)]
pub enum Instruction {
    TimelineClearCache,
    TimelineAddEntries(TimelineAddEntry),
    TimelinePinEntry,
}

/// The entry list of an "add entries" instruction.
#[derive(Clone, Debug, PartialEq, Eq)]
pub struct TimelineAddEntry {
    pub entries: Vec<Entry>,
}

/// One decoded page of the "tweets and replies" timeline: its envelope
/// error list and its instructions in order.
#[derive(Clone, Debug, PartialEq, Eq)]
pub struct UserTweetAndRepliesRequest {
    pub errors: Vec<ApiError>,
    pub instructions: Vec<Instruction>,
}

/// The mathematical shape of an instruction, as contracts speak of it.
pub enum InstructionModel {
    TimelineClearCache,
    TimelineAddEntries(Seq<EntryModel>),
    TimelinePinEntry,
}

impl View for Instruction {
    type V = InstructionModel;

    open spec fn view(&self) -> InstructionModel {
        match self {
            Instruction::TimelineClearCache => InstructionModel::TimelineClearCache,
            Instruction::TimelineAddEntries(add) => InstructionModel::TimelineAddEntries(
                add.entries@.map_values(|e: Entry| e@),
            ),
            Instruction::TimelinePinEntry => InstructionModel::TimelinePinEntry,
        }
    }
}

/// What one element of an "add entries" list decodes to: it must be an
/// object, whose fields decode as an entry.
pub open spec fn spec_decode_entry_obj(v: JsonValue) -> Result<EntryModel, ScrapeError> {
    match v {
        JsonValue::Obj(f) => spec_decode_entry(f@),
        _ => Err(ScrapeError::BadShape),
    }
}

/// What an "add entries" list decodes to, in order; the first bad entry
/// decides the error.
pub open spec fn spec_decode_entries(es: Seq<JsonValue>) -> Result<Seq<EntryModel>, ScrapeError>
    decreases es.len(),
{
    if es.len() == 0 {
        Ok(Seq::empty())
    } else {
        match spec_decode_entries(es.drop_last()) {
            Ok(pre) => match spec_decode_entry_obj(es.last()) {
                Ok(e) => Ok(pre.push(e)),
                Err(err) => Err(err),
            },
            Err(err) => Err(err),
        }
    }
}

proof fn lemma_decode_entries_err(es: Seq<JsonValue>, i: int)
    requires
        0 <= i <= es.len(),
        spec_decode_entries(es.take(i)) is Err,
    ensures
        spec_decode_entries(es) == spec_decode_entries(es.take(i)),
    decreases es.len() - i,
{
    if i < es.len() {
        assert(es.take(i + 1).drop_last() =~= es.take(i));
        lemma_decode_entries_err(es, i + 1);
    } else {
        assert(es.take(i) =~= es);
    }
}

/// What an instruction object decodes to: its "type" tag picks the
/// variant; only "TimelineAddEntries" carries entries to decode.
pub open spec fn spec_decode_instruction(v: JsonValue) -> Result<InstructionModel, ScrapeError> {
    match v {
        JsonValue::Obj(f) => match spec_obj_get(f@, "type"@) {
            Some(JsonValue::Str(t)) => if t@ == "TimelineClearCache"@ {
                Ok(InstructionModel::TimelineClearCache)
            } else if t@ == "TimelinePinEntry"@ {
                Ok(InstructionModel::TimelinePinEntry)
            } else if t@ == "TimelineAddEntries"@ {
                match spec_obj_get(f@, "entries"@) {
                    Some(JsonValue::Arr(es)) => match spec_decode_entries(es@) {
                        Ok(ms) => Ok(InstructionModel::TimelineAddEntries(ms)),
                        Err(e) => Err(e),
                    },
                    _ => Err(ScrapeError::BadShape),
                }
            } else {
                Err(ScrapeError::BadShape)
            },
            _ => Err(ScrapeError::BadShape),
        },
        _ => Err(ScrapeError::BadShape),
    }
}

/// Decode one timeline instruction from its object, exactly as
/// `spec_decode_instruction` says.
pub fn decode_instruction(v: &JsonValue) -> (r: Result<Instruction, ScrapeError>)
    ensures
        match r {
            Ok(inst) => spec_decode_instruction(*v) == Ok::<InstructionModel, ScrapeError>(inst@),
            Err(err) => spec_decode_instruction(*v) == Err::<InstructionModel, ScrapeError>(err),
        },
{
    match v {
        JsonValue::Obj(f) => match obj_get(f, "type") {
            Some(tv) => match tv {
                JsonValue::Str(t) => {
                    if str_eq(t.as_str(), "TimelineClearCache") {
                        Ok(Instruction::TimelineClearCache)
                    } else if str_eq(t.as_str(), "TimelinePinEntry") {
                        Ok(Instruction::TimelinePinEntry)
                    } else if str_eq(t.as_str(), "TimelineAddEntries") {
                        match obj_get(f, "entries") {
                            Some(ev) => match ev {
                                JsonValue::Arr(es) => {
                                    let n = es.len();
                                    let mut out: Vec<Entry> = Vec::new();
                                    let mut i: usize = 0;
                                    proof {
                                        assert(es@.take(0) =~= Seq::<JsonValue>::empty());
                                        assert(out@.map_values(|e: Entry| e@) =~= Seq::<
                                            EntryModel,
                                        >::empty());
                                    }
                                    while i < n
                                        invariant
                                            i <= n,
                                            n == es@.len(),
                                            spec_decode_instruction(*v) == (match spec_decode_entries(es@) {
                                                Ok(ms) => Ok::<InstructionModel, ScrapeError>(
                                                    InstructionModel::TimelineAddEntries(ms),
                                                ),
                                                Err(e) => Err::<InstructionModel, ScrapeError>(e),
                                            }),
                                            spec_decode_entries(es@.take(i as int)) == Ok::<
                                                Seq<EntryModel>,
                                                ScrapeError,
                                            >(out@.map_values(|e: Entry| e@)),
                                        decreases n - i,
                                    {
                                        proof {
                                            assert(es@.take(i as int + 1).drop_last()
                                                =~= es@.take(i as int));
                                            assert(es@.take(i as int + 1).last()
                                                == es@[i as int]);
                                        }
                                        let decoded = match &es[i] {
                                            JsonValue::Obj(fields) => decode_entry(fields),
                                            _ => Err(ScrapeError::BadShape),
                                        };
                                        match decoded {
                                            Ok(e) => {
                                                let ghost before = out@;
                                                out.push(e);
                                                proof {
                                                    assert(out@.map_values(|e: Entry| e@)
                                                        =~= before.map_values(
                                                        |e: Entry| e@,
                                                    ).push(e@));
                                                }
                                            }
                                            Err(err) => {
                                                proof {
                                                    assert(spec_decode_entries(
                                                        es@.take(i as int + 1),
                                                    ) == Err::<Seq<EntryModel>, ScrapeError>(err));
                                                    lemma_decode_entries_err(es@, i as int + 1);
                                                }
                                                return Err(err);
                                            }
                                        }
                                        i = i + 1;
                                    }
                                    proof {
                                        assert(es@.take(n as int) =~= es@);
                                    }
                                    Ok(Instruction::TimelineAddEntries(TimelineAddEntry {
                                        entries: out,
                                    }))
                                }
                                _ => Err(ScrapeError::BadShape),
                            },
                            None => Err(ScrapeError::BadShape),
                        }
                    } else {
                        Err(ScrapeError::BadShape)
                    }
                }
                _ => Err(ScrapeError::BadShape),
            },
            None => Err(ScrapeError::BadShape),
        },
        _ => Err(ScrapeError::BadShape),
    }
}

/// The continuation token an entry offers: only a cursor entry whose type
/// label starts with "Bottom" counts.
pub open spec fn spec_entry_bottom_cursor(e: Entry) -> Option<Seq<char>> {
    match e {
        Entry::Cursor(c) => if spec_starts_with(c.cursor_type@, "Bottom"@) {
            Some(c.value@)
        } else {
            None
        },
        _ => None,
    }
}

/// The first bottom cursor among `es`, if any.
pub open spec fn spec_entries_bottom_cursor(es: Seq<Entry>) -> Option<Seq<char>>
    decreases es.len(),
{
    if es.len() == 0 {
        None
    } else {
        match spec_entry_bottom_cursor(es[0]) {
            Some(v) => Some(v),
            None => spec_entries_bottom_cursor(es.drop_first()),
        }
    }
}

/// The first bottom cursor among the instructions' added entries, if any.
pub open spec fn spec_insts_bottom_cursor(insts: Seq<Instruction>) -> Option<Seq<char>>
    decreases insts.len(),
{
    if insts.len() == 0 {
        None
    } else {
        let head = match insts[0] {
            Instruction::TimelineAddEntries(add) => spec_entries_bottom_cursor(add.entries@),
            _ => None,
        };
        match head {
            Some(v) => Some(v),
            None => spec_insts_bottom_cursor(insts.drop_first()),
        }
    }
}

/// The page's continuation cursor, if any.
pub open spec fn spec_filter_cursor(req: UserTweetAndRepliesRequest) -> Option<Seq<char>> {
    spec_insts_bottom_cursor(req.instructions@)
}

fn entries_bottom_cursor<'a>(entries: &'a Vec<Entry>) -> (r: Option<&'a str>)
    ensures
        match r {
            Some(s) => spec_entries_bottom_cursor(entries@) == Some(s@),
            None => spec_entries_bottom_cursor(entries@) is None,
        },
{
    let n = entries.len();
    let mut j: usize = 0;
    proof {
        assert(entries@.skip(0) =~= entries@);
    }
    while j < n
        invariant
            j <= n,
            n == entries@.len(),
            spec_entries_bottom_cursor(entries@) == spec_entries_bottom_cursor(
                entries@.skip(j as int),
            ),
        decreases n - j,
    {
        proof {
            assert(entries@.skip(j as int)[0] == entries@[j as int]);
            assert(entries@.skip(j as int).drop_first() =~= entries@.skip(j as int + 1));
        }
        match &entries[j] {
            Entry::Cursor(c) => {
                if str_starts_with(c.cursor_type.as_str(), "Bottom") {
                    return Some(c.value.as_str());
                }
            }
            _ => {}
        }
        j = j + 1;
    }
    None
}

impl UserTweetAndRepliesRequest {
    /// Classify this page's error envelope: usable, or the first error
    /// verbatim, exactly as `spec_envelope_verdict` says.
    pub fn json_request_filter_errors(&self) -> (r: Result<(), ScrapeError>)
        ensures
            r == spec_envelope_verdict(self.errors@),
    {
        filter_errors(&self.errors)
    }

    /// Find this page's continuation cursor: the first cursor entry among
    /// the added entries whose type label denotes the bottom boundary,
    /// exactly as `spec_filter_cursor` says.
    pub fn filter_cursor<'a>(&'a self) -> (r: Option<&'a str>)
        ensures
            match r {
                Some(s) => spec_filter_cursor(*self) == Some(s@),
                None => spec_filter_cursor(*self) is None,
            },
    {
        let n = self.instructions.len();
        let mut i: usize = 0;
        proof {
            assert(self.instructions@.skip(0) =~= self.instructions@);
        }
        while i < n
            invariant
                i <= n,
                n == self.instructions@.len(),
                spec_filter_cursor(*self) == spec_insts_bottom_cursor(
                    self.instructions@.skip(i as int),
                ),
            decreases n - i,
        {
            proof {
                assert(self.instructions@.skip(i as int)[0] == self.instructions@[i as int]);
                assert(self.instructions@.skip(i as int).drop_first() =~= self.instructions@.skip(
                    i as int + 1,
                ));
            }
            match &self.instructions[i] {
                Instruction::TimelineAddEntries(add) => {
                    match entries_bottom_cursor(&add.entries) {
                        Some(s) => {
                            return Some(s);
                        }
                        None => {}
                    }
                }
                _ => {}
            }
            i = i + 1;
        }
        None
    }
}

/// Law: an object with the "tweet-" identifier prefix whose content is a
/// tombstone decodes to a tweet entry with nothing fetchable — never to a
/// decode error.
pub proof fn lemma_tombstone_tweet_entry(
    fields: Seq<(String, JsonValue)>,
    eid: String,
    content: JsonValue,
)
    requires
        fields.len() == 2,
        fields[0].0@ == "entryId"@,
        fields[0].1 == JsonValue::Str(eid),
        fields[1].0@ == "content"@,
        fields[1].1 == content,
        spec_starts_with(eid@, "tweet-"@),
        spec_tweet_entry_content(content) == Ok::<TweetResult, ScrapeError>(
            TweetResult::Tombstone,
        ),
    ensures
        spec_decode_entry(fields) == Ok::<EntryModel, ScrapeError>(
            EntryModel::Tweet(TweetResult::Tombstone),
        ),
{
    reveal_strlit("entryId");
    reveal_strlit("sortId");
    reveal_strlit("content");
    assert(fields.drop_first()[0] == fields[1]);
    assert("content"@ != "entryId"@) by {
        assert("content"@[0] == 'c');
        assert("entryId"@[0] == 'e');
    }
    assert("content"@ != "sortId"@) by {
        assert("content"@.len() == 7);
        assert("sortId"@.len() == 6);
    }
    assert(spec_decode_content(eid, content) == Ok::<EntryModel, ScrapeError>(
        EntryModel::Tweet(TweetResult::Tombstone),
    ));
    assert(spec_decode_entry_rec(fields.drop_first(), Some(eid)) == spec_decode_content(
        eid,
        content,
    ));
    assert(spec_decode_entry(fields) == spec_decode_entry_rec(fields.drop_first(), Some(eid)));
}

/// Law: a cursor entry is picked up by the continuation lookup exactly
/// when its type label starts with "Bottom"; with any other label it still
/// decodes, but is excluded from continuation.
pub proof fn lemma_cursor_lookup(
    req: UserTweetAndRepliesRequest,
    add: TimelineAddEntry,
    c: Cursor,
)
    requires
        req.instructions@ == seq![Instruction::TimelineAddEntries(add)],
        add.entries@ == seq![Entry::Cursor(c)],
    ensures
        spec_filter_cursor(req) == (if spec_starts_with(c.cursor_type@, "Bottom"@) {
            Some(c.value@)
        } else {
            None::<Seq<char>>
        }),
{
    let es = add.entries@;
    assert(req.instructions@[0] == Instruction::TimelineAddEntries(add));
    assert(es[0] == Entry::Cursor(c));
    assert(es.drop_first() =~= Seq::<Entry>::empty());
    assert(req.instructions@.drop_first() =~= Seq::<Instruction>::empty());
    if spec_starts_with(c.cursor_type@, "Bottom"@) {
        assert(spec_entry_bottom_cursor(es[0]) == Some(c.value@));
        assert(spec_entries_bottom_cursor(es) == Some(c.value@));
        assert(spec_insts_bottom_cursor(req.instructions@) == Some(c.value@));
    } else {
        assert(spec_entry_bottom_cursor(es[0]) is None);
        assert(spec_entries_bottom_cursor(Seq::<Entry>::empty()) is None);
        assert(spec_entries_bottom_cursor(es) is None);
        assert(spec_insts_bottom_cursor(Seq::<Instruction>::empty()) is None);
        assert(spec_insts_bottom_cursor(req.instructions@) is None);
    }
}

/// The URL-encoding of a cursor token.
pub uninterp spec fn url_encoded(s: Seq<char>) -> Seq<char>;

/// Relies on urlencoding::encode: percent-encodes every byte outside ASCII
/// alphanumerics and '-', '.', '_', '~'. The result depends on the input
/// characters alone, and an empty input stays empty.
#[verifier::external_body]
fn url_encode(s: &str) -> (r: String)
    ensures
        r@ == url_encoded(s@),
        s@.len() == 0 ==> r@.len() == 0,
{
    urlencoding::encode(s).into_owned()
}

pub open spec fn view_opt_str(c: Option<&str>) -> Option<Seq<char>> {
    match c {
        Some(s) => Some(s@),
        None => None,
    }
}

/// The timeline request URL for one page: the fixed query id, the numeric
/// user id, a page size of 40, the URL-encoded cursor when one is given,
/// and the fixed feature toggles.
pub open spec fn spec_timeline_url(id: u64, cursor: Option<Seq<char>>) -> Seq<char> {
    let head =
        "https://twitter.com/i/api/graphql/s0hG9oAmWEYVBqOLJP-TBQ/UserTweetsAndReplies?variables=%7B%22userId%22%3A%22"@
        + crate::strutil::spec_u64_digits(id as int) + "%22%2C%22count%22%3A40%2C"@;
    let tail =
        "%22includePromotedContent%22%3Afalse%2C%22withCommunity%22%3Atrue%2C%22withSuperFollowsUserFields%22%3Atrue%2C%22withDownvotePerspective%22%3Afalse%2C%22withReactionsMetadata%22%3Afalse%2C%22withReactionsPerspective%22%3Afalse%2C%22withSuperFollowsTweetFields%22%3Atrue%2C%22withVoice%22%3Atrue%2C%22withV2Timeline%22%3Atrue%7D&features=%7B%22responsive_web_twitter_blue_verified_badge_is_enabled%22%3Atrue%2C%22verified_phone_label_enabled%22%3Afalse%2C%22responsive_web_graphql_timeline_navigation_enabled%22%3Atrue%2C%22unified_cards_ad_metadata_container_dynamic_card_content_query_enabled%22%3Atrue%2C%22tweetypie_unmention_optimization_enabled%22%3Atrue%2C%22responsive_web_uc_gql_enabled%22%3Atrue%2C%22vibe_api_enabled%22%3Atrue%2C%22responsive_web_edit_tweet_api_enabled%22%3Atrue%2C%22graphql_is_translatable_rweb_tweet_is_translatable_enabled%22%3Atrue%2C%22standardized_nudges_misinfo%22%3Atrue%2C%22tweet_with_visibility_results_prefer_gql_limited_actions_policy_enabled%22%3Afalse%2C%22interactive_text_enabled%22%3Atrue%2C%22responsive_web_text_conversations_enabled%22%3Afalse%2C%22responsive_web_enhance_cards_enabled%22%3Atrue%7D"@;
    match cursor {
        Some(c) => head + "%22cursor%22%3A%22"@ + url_encoded(c) + "%22%2C"@ + tail,
        None => head + tail,
    }
}

/// Build the timeline request URL, exactly as `spec_timeline_url` says;
/// omitting the cursor requests the first page.
pub fn twitter_request_url_user_tweet_and_replies(id: u64, cursor: Option<&str>) -> (r: String)
    ensures
        r@ == spec_timeline_url(id, view_opt_str(cursor)),
{
    let mut s = String::from_str(
        "https://twitter.com/i/api/graphql/s0hG9oAmWEYVBqOLJP-TBQ/UserTweetsAndReplies?variables=%7B%22userId%22%3A%22",
    );
    let digits = crate::strutil::u64_to_string(id);
    s.append(digits.as_str());
    s.append("%22%2C%22count%22%3A40%2C");
    match cursor {
        Some(c) => {
            s.append("%22cursor%22%3A%22");
            let enc = url_encode(c);
            s.append(enc.as_str());
            s.append("%22%2C");
        }
        None => {}
    }
    s.append(
        "%22includePromotedContent%22%3Afalse%2C%22withCommunity%22%3Atrue%2C%22withSuperFollowsUserFields%22%3Atrue%2C%22withDownvotePerspective%22%3Afalse%2C%22withReactionsMetadata%22%3Afalse%2C%22withReactionsPerspective%22%3Afalse%2C%22withSuperFollowsTweetFields%22%3Atrue%2C%22withVoice%22%3Atrue%2C%22withV2Timeline%22%3Atrue%7D&features=%7B%22responsive_web_twitter_blue_verified_badge_is_enabled%22%3Atrue%2C%22verified_phone_label_enabled%22%3Afalse%2C%22responsive_web_graphql_timeline_navigation_enabled%22%3Atrue%2C%22unified_cards_ad_metadata_container_dynamic_card_content_query_enabled%22%3Atrue%2C%22tweetypie_unmention_optimization_enabled%22%3Atrue%2C%22responsive_web_uc_gql_enabled%22%3Atrue%2C%22vibe_api_enabled%22%3Atrue%2C%22responsive_web_edit_tweet_api_enabled%22%3Atrue%2C%22graphql_is_translatable_rweb_tweet_is_translatable_enabled%22%3Atrue%2C%22standardized_nudges_misinfo%22%3Atrue%2C%22tweet_with_visibility_results_prefer_gql_limited_actions_policy_enabled%22%3Afalse%2C%22interactive_text_enabled%22%3Atrue%2C%22responsive_web_text_conversations_enabled%22%3Afalse%2C%22responsive_web_enhance_cards_enabled%22%3Atrue%7D",
    );
    proof {
        assert(s@ =~= spec_timeline_url(id, view_opt_str(cursor)));
    }
    s
}

} // verus!
