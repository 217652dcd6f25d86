//! Events, count queries, and the query translation over the event store.
//!
//! An event is an external identifier plus a sequence of key/value tags. At
//! ingestion it is assigned one snowflake identifier and persisted as one
//! header record plus one record per tag, atomically. A count query names an
//! external identifier, a tag key and a half-open millisecond range
//! `[from, to)`; the range endpoints are projected into identifier space and
//! the count is the number of distinct stored events whose identifier falls
//! in `[lower, upper)`, whose external identifier matches, and which carry at
//! least one tag with the queried key.

use vstd::prelude::*;
use crate::snowflake::SnowflakeCreator;
use crate::snowflake::clamped_relative;
use crate::snowflake::id_of;
use crate::snowflake::sequence_after;
use crate::snowflake::time_to_snowflake;

verus! {

/// An inbound event: a caller-supplied external identifier (not unique) and
/// its ordered tag pairs.
#[derive(Debug)]
pub struct Event {
    pub id: String,
    pub key_value: Vec<EventKeyValue>,
}

impl Event {
    pub fn new(id: String, key_value: Vec<EventKeyValue>) -> (event: Event)
        ensures
            event.id == id,
            event.key_value == key_value,
    {
        Event { id, key_value }
    }
}

/// One tag of an event: a key and an optional value.
#[derive(Debug)]
pub struct EventKeyValue {
    pub key: String,
    pub value: Option<String>,
}

impl EventKeyValue {
    pub fn new(key: String, value: Option<String>) -> (key_value: EventKeyValue)
        ensures
            key_value.key == key,
            key_value.value == value,
    {
        EventKeyValue { key, value }
    }
}

/// Failure of the ingestion path. Infrastructure failures of a persistence
/// collaborator are reported here by the surrounding service layer.
#[derive(Debug)]
pub enum EventError {
    UnexpectedError(String),
}

/// A count query over the store: a half-open millisecond range `[from, to)`,
/// an external identifier and a tag key to match.
#[derive(Debug)]
pub struct EventsQuery {
    pub from: u64,
    pub to: u64,
    pub id: String,
    pub key: String,
    pub query_type: QueryType,
}

impl EventsQuery {
    pub fn new(from: u64, to: u64, id: String, key: String, query_type: QueryType) -> (query: EventsQuery)
        ensures
            query.from == from,
            query.to == to,
            query.id == id,
            query.key == key,
            query.query_type == query_type,
    {
        EventsQuery { from, to, id, key, query_type }
    }
}

/// The supported query kinds; counting is the only one.
#[derive(Debug, PartialEq, Eq, Structural)]
pub enum QueryType {
    COUNT,
}

/// Failure of the query path: a rejected request, or an infrastructure
/// failure reported by the surrounding service layer.
#[derive(Debug)]
pub enum QueryEventsError {
    ValidationError(String),
    UnexpectedError(String),
}

/// The answer to a count query.
#[derive(Debug)]
pub struct QueryEventsResponse {
    pub count: u64,
}

impl QueryEventsResponse {
    pub fn get_count(&self) -> (count: u64)
        ensures
            count == self.count,
    {
        self.count
    }
}

/// A persisted event header: the assigned identifier and the external
/// identifier.
pub struct EventRecord {
    pub id: u64,
    pub external_id: String,
}

/// A persisted tag: the owning event's identifier, the key, and the optional
/// value.
pub struct EventTagRecord {
    pub events_id: u64,
    pub key: String,
    pub value: Option<String>,
}

/// The persisted store: event headers and their tag records. The surrounding
/// service keeps one store behind its persistence collaborator; this value
/// models exactly the rows the query path reads.
pub struct EventStore {
    pub events: Vec<EventRecord>,
    pub tags: Vec<EventTagRecord>,
}

/// The tag records an event's tags persist to under a given identifier.
pub open spec fn tag_rows(events_id: u64, key_values: Seq<EventKeyValue>) -> Seq<EventTagRecord> {
    key_values.map(|i: int, kv: EventKeyValue| (EventTagRecord {
        events_id: events_id,
        key: kv.key,
        value: kv.value,
    }))
}

/// Whether a tag record belongs to the event with this identifier and carries
/// this key; the tag's value is not filtered.
pub open spec fn tag_matches(tag: EventTagRecord, events_id: u64, key: Seq<char>) -> bool {
    tag.events_id == events_id && tag.key@ == key
}

/// Whether at least one of the tag records ties this key to this event.
pub open spec fn has_matching_tag(tags: Seq<EventTagRecord>, events_id: u64, key: Seq<char>) -> bool {
    exists|i: int| 0 <= i < tags.len() && tag_matches(tags[i], events_id, key)
}

/// Whether a stored event is counted by a query: its external identifier
/// matches, its identifier lies in the half-open identifier-space bound
/// `[lower, upper)`, and it has at least one tag with the queried key.
pub open spec fn event_matches(
    event: EventRecord,
    tags: Seq<EventTagRecord>,
    external_id: Seq<char>,
    key: Seq<char>,
    lower: u64,
    upper: u64,
) -> bool {
    &&& event.external_id@ == external_id
    &&& lower <= event.id < upper
    &&& has_matching_tag(tags, event.id, key)
}

/// How many stored events a query counts. Each header record is one event,
/// and an event with several tags carrying the queried key is counted once.
pub open spec fn matching_count(
    events: Seq<EventRecord>,
    tags: Seq<EventTagRecord>,
    external_id: Seq<char>,
    key: Seq<char>,
    lower: u64,
    upper: u64,
) -> nat
    decreases events.len(),
{
    if events.len() == 0 {
        0
    } else {
        matching_count(events.drop_last(), tags, external_id, key, lower, upper) + (
        if event_matches(events.last(), tags, external_id, key, lower, upper) {
            1nat
        } else {
            0nat
        })
    }
}

impl EventStore {
    pub fn new() -> (store: EventStore)
        ensures
            store.events@ == Seq::<EventRecord>::empty(),
            store.tags@ == Seq::<EventTagRecord>::empty(),
    {
        EventStore { events: Vec::new(), tags: Vec::new() }
    }

    /// Whether some stored tag ties the given key to the given event.
    fn has_tag(&self, events_id: u64, key: &String) -> (found: bool)
        ensures
            found == has_matching_tag(self.tags@, events_id, key@),
    {
        let n = self.tags.len();
        let mut i: usize = 0;
        while i < n
            invariant
                0 <= i <= n == self.tags@.len(),
                forall|j: int| 0 <= j < i ==> !tag_matches(self.tags@[j], events_id, key@),
            decreases n - i,
        {
            let tag = &self.tags[i];
            if tag.events_id == events_id && tag.key == *key {
                assert(tag_matches(self.tags@[i as int], events_id, key@));
                return true;
            }
            i += 1;
        }
        false
    }
}

/// Persists one event header record.
pub fn insert_event(store: &mut EventStore, snowflake: &u64, event: &Event)
    ensures
        final(store).events@ == old(store).events@.push(
            (EventRecord { id: *snowflake, external_id: event.id }),
        ),
        final(store).tags@ == old(store).tags@,
{
    let header = EventRecord { id: *snowflake, external_id: event.id.clone() };
    store.events.push(header);
}

/// Persists one tag record per tag of the event, in the event's tag order.
pub fn insert_key_value(store: &mut EventStore, snowflake: &u64, event: &Event)
    ensures
        final(store).events@ == old(store).events@,
        final(store).tags@ == old(store).tags@ + tag_rows(*snowflake, event.key_value@),
{
    let n = event.key_value.len();
    let mut i: usize = 0;
    while i < n
        invariant
            0 <= i <= n == event.key_value@.len(),
            store.events@ == old(store).events@,
            store.tags@ == old(store).tags@ + tag_rows(*snowflake, event.key_value@.take(i as int)),
        decreases n - i,
    {
        let kv = &event.key_value[i];
        let value: Option<String> = match &kv.value {
            Some(v) => Some(v.clone()),
            None => None,
        };
        store.tags.push(EventTagRecord { events_id: *snowflake, key: kv.key.clone(), value });
        proof {
            assert(tag_rows(*snowflake, event.key_value@.take(i + 1 as int)) =~= tag_rows(
                *snowflake,
                event.key_value@.take(i as int),
            ).push(
                (EventTagRecord {
                    events_id: *snowflake,
                    key: event.key_value@[i as int].key,
                    value: event.key_value@[i as int].value,
                }),
            ));
        }
        i += 1;
    }
    proof {
        assert(event.key_value@.take(n as int) =~= event.key_value@);
    }
}

/// Ingests one event: assigns it a fresh identifier for the given wall-clock
/// time and persists its header together with every tag record as one atomic
/// unit against the in-memory store (an empty tag list commits the header
/// with zero tag records). Returns the assigned identifier; gaps left by a
/// surrounding transaction that aborts after identifier creation are
/// harmless, as identifiers are never reused.
pub fn create_event(
    store: &mut EventStore,
    snowflake_creator: &mut SnowflakeCreator,
    event: &Event,
    now_millis: u64,
) -> (snowflake: u64)
    requires
        old(snowflake_creator).wf(),
        now_millis >= old(snowflake_creator).start_millis,
    ensures
        final(snowflake_creator).wf(),
        final(snowflake_creator).worker_id == old(snowflake_creator).worker_id,
        final(snowflake_creator).process_id == old(snowflake_creator).process_id,
        final(snowflake_creator).start_millis == old(snowflake_creator).start_millis,
        final(snowflake_creator).increment == sequence_after(old(snowflake_creator).increment),
        snowflake == id_of(
            clamped_relative(old(snowflake_creator).start_millis, now_millis),
            old(snowflake_creator).worker_id,
            old(snowflake_creator).process_id,
            final(snowflake_creator).increment as u64,
        ),
        final(store).events@ == old(store).events@.push(
            (EventRecord { id: snowflake, external_id: event.id }),
        ),
        final(store).tags@ == old(store).tags@ + tag_rows(snowflake, event.key_value@),
{
    let snowflake = snowflake_creator.create_id(now_millis);
    insert_event(store, &snowflake, event);
    insert_key_value(store, &snowflake, event);
    snowflake
}

/// Counts the stored events matched by a query, translating the query's
/// millisecond range `[from, to)` into the identifier-space bound
/// `[lower, upper)` through the generator's pure time projection. An empty or
/// inverted range simply counts nothing.
pub fn query_events(
    store: &EventStore,
    events_query: &EventsQuery,
    snowflake_creator: &SnowflakeCreator,
) -> (count: u64)
    ensures
        count == matching_count(
            store.events@,
            store.tags@,
            events_query.id@,
            events_query.key@,
            time_to_snowflake(snowflake_creator.start_millis, events_query.from),
            time_to_snowflake(snowflake_creator.start_millis, events_query.to),
        ),
{
    let lower = snowflake_creator.convert_time_to_snowflake(&events_query.from);
    let upper = snowflake_creator.convert_time_to_snowflake(&events_query.to);
    let n = store.events.len();
    let mut count: u64 = 0;
    let mut i: usize = 0;
    while i < n
        invariant
            0 <= i <= n == store.events@.len(),
            count <= i,
            lower == time_to_snowflake(snowflake_creator.start_millis, events_query.from),
            upper == time_to_snowflake(snowflake_creator.start_millis, events_query.to),
            count == matching_count(
                store.events@.take(i as int),
                store.tags@,
                events_query.id@,
                events_query.key@,
                lower,
                upper,
            ),
        decreases n - i,
    {
        let event = &store.events[i];
        let in_range = lower <= event.id && event.id < upper;
        let matched = in_range && event.external_id == events_query.id && store.has_tag(
            event.id,
            &events_query.key,
        );
        proof {
            let taken = store.events@.take(i + 1 as int);
            assert(taken.drop_last() =~= store.events@.take(i as int));
            assert(taken.last() == store.events@[i as int]);
            assert(matched == event_matches(
                store.events@[i as int],
                store.tags@,
                events_query.id@,
                events_query.key@,
                lower,
                upper,
            ));
        }
        if matched {
            count += 1;
        }
        i += 1;
    }
    proof {
        assert(store.events@.take(n as int) =~= store.events@);
    }
    count
}

/// Answers a count query: rejects an inverted range (`from` greater than
/// `to`) with a validation failure before any work against the store, and
/// otherwise returns the count of matching stored events.
pub fn get_query_events(
    store: &EventStore,
    query: &EventsQuery,
    snowflake_creator: &SnowflakeCreator,
) -> (result: Result<QueryEventsResponse, QueryEventsError>)
    ensures
        query.from > query.to <==> result is Err,
        result matches Err(e) ==> e matches QueryEventsError::ValidationError(message)
            && message@ == "From must be less than to."@,
        result matches Ok(response) ==> response.count == matching_count(
            store.events@,
            store.tags@,
            query.id@,
            query.key@,
            time_to_snowflake(snowflake_creator.start_millis, query.from),
            time_to_snowflake(snowflake_creator.start_millis, query.to),
        ),
{
    if query.from > query.to {
        return Err(QueryEventsError::ValidationError("From must be less than to.".to_owned()));
    }
    let count = query_events(store, query, snowflake_creator);
    Ok(QueryEventsResponse { count })
}

/// Query inclusivity: the identifier-space bound is lower-inclusive and
/// upper-exclusive, so an otherwise matching event whose identifier sits
/// exactly at the lower bound is counted and one sitting exactly at the upper
/// bound is not.
pub proof fn lemma_query_inclusivity(
    at_lower: EventRecord,
    at_upper: EventRecord,
    tags: Seq<EventTagRecord>,
    external_id: Seq<char>,
    key: Seq<char>,
    lower: u64,
    upper: u64,
)
    requires
        lower < upper,
        at_lower.id == lower,
        at_upper.id == upper,
        at_lower.external_id@ == external_id,
        has_matching_tag(tags, at_lower.id, key),
    ensures
        event_matches(at_lower, tags, external_id, key, lower, upper),
        !event_matches(at_upper, tags, external_id, key, lower, upper),
{
}

} // verus!
