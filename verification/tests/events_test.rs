use events::events::create_event;
use events::events::get_query_events;
use events::events::insert_event;
use events::events::insert_key_value;
use events::events::query_events;
use events::events::Event;
use events::events::EventError;
use events::events::EventKeyValue;
use events::events::EventsQuery;
use events::events::EventStore;
use events::events::QueryEventsError;
use events::events::QueryType;
use events::snowflake::SnowflakeCreator;

#[test]
fn check_count_for_non_existent() {
    let store = EventStore::new();
    let creator = SnowflakeCreator::new(1, 0, 1420070400000, 0);
    let query = EventsQuery::new(
        1722006000000,
        1722092399000,
        String::from("XiEez"),
        String::from("click"),
        QueryType::COUNT,
    );
    let response = get_query_events(&store, &query, &creator).unwrap();
    assert_eq!(0, response.get_count());
}

#[test]
fn check_count_after_creation() {
    let mut store = EventStore::new();
    let mut creator = SnowflakeCreator::new(1, 0, 1420070400000, 0);
    let event = Event::new(
        String::from("XiEez"),
        vec![EventKeyValue::new(String::from("click"), None)],
    );
    let snowflake = create_event(&mut store, &mut creator, &event, 1722006000000);
    assert!(snowflake > 0);

    let query = EventsQuery::new(
        0,
        i64::MAX as u64,
        String::from("XiEez"),
        String::from("click"),
        QueryType::COUNT,
    );
    let response = get_query_events(&store, &query, &creator).unwrap();
    assert_eq!(1, response.get_count());
}

#[test]
fn inverted_range_is_a_validation_failure() {
    let store = EventStore::new();
    let creator = SnowflakeCreator::new(1, 0, 1420070400000, 0);
    let query = EventsQuery::new(
        1722092399000,
        1722006000000,
        String::from("XiEez"),
        String::from("click"),
        QueryType::COUNT,
    );
    let result = get_query_events(&store, &query, &creator);
    assert!(matches!(result, Err(QueryEventsError::ValidationError(_))));
}

#[test]
fn range_counts_lower_bound_and_excludes_upper_bound() {
    // With a zero epoch the projection of a time t is exactly t shifted into
    // the high bits, so events can be planted exactly on the bounds.
    let creator = SnowflakeCreator::new(1, 0, 0, 0);
    let mut store = EventStore::new();
    let at_lower = creator.convert_time_to_snowflake(&1000);
    let at_upper = creator.convert_time_to_snowflake(&2000);
    let event = Event::new(
        String::from("edge"),
        vec![EventKeyValue::new(String::from("click"), Some(String::from("left")))],
    );
    insert_event(&mut store, &at_lower, &event);
    insert_key_value(&mut store, &at_lower, &event);
    insert_event(&mut store, &at_upper, &event);
    insert_key_value(&mut store, &at_upper, &event);

    let query = EventsQuery::new(
        1000,
        2000,
        String::from("edge"),
        String::from("click"),
        QueryType::COUNT,
    );
    assert_eq!(1, query_events(&store, &query, &creator));
}

#[test]
fn event_with_two_tags_of_the_queried_key_is_counted_once() {
    let mut store = EventStore::new();
    let mut creator = SnowflakeCreator::new(1, 0, 1420070400000, 0);
    let event = Event::new(
        String::from("XiEez"),
        vec![
            EventKeyValue::new(String::from("click"), Some(String::from("left"))),
            EventKeyValue::new(String::from("click"), Some(String::from("right"))),
        ],
    );
    create_event(&mut store, &mut creator, &event, 1722006000000);
    let query = EventsQuery::new(
        1722006000000,
        1722092399000,
        String::from("XiEez"),
        String::from("click"),
        QueryType::COUNT,
    );
    let response = get_query_events(&store, &query, &creator).unwrap();
    assert_eq!(1, response.get_count());
}

#[test]
fn count_filters_by_external_id_key_and_range() {
    let mut store = EventStore::new();
    let mut creator = SnowflakeCreator::new(1, 0, 1420070400000, 0);
    let event = Event::new(
        String::from("XiEez"),
        vec![EventKeyValue::new(String::from("click"), None)],
    );
    create_event(&mut store, &mut creator, &event, 1722006000000);

    let other_id = EventsQuery::new(
        1722006000000,
        1722092399000,
        String::from("someone-else"),
        String::from("click"),
        QueryType::COUNT,
    );
    assert_eq!(0, query_events(&store, &other_id, &creator));

    let other_key = EventsQuery::new(
        1722006000000,
        1722092399000,
        String::from("XiEez"),
        String::from("hover"),
        QueryType::COUNT,
    );
    assert_eq!(0, query_events(&store, &other_key, &creator));

    let range_before = EventsQuery::new(
        1420070400000,
        1722006000000,
        String::from("XiEez"),
        String::from("click"),
        QueryType::COUNT,
    );
    assert_eq!(0, query_events(&store, &range_before, &creator));
}

#[test]
fn event_without_tags_commits_header_but_matches_no_key() {
    let mut store = EventStore::new();
    let mut creator = SnowflakeCreator::new(1, 0, 1420070400000, 0);
    let event = Event::new(String::from("XiEez"), vec![]);
    create_event(&mut store, &mut creator, &event, 1722006000000);
    let query = EventsQuery::new(
        1722006000000,
        1722092399000,
        String::from("XiEez"),
        String::from("click"),
        QueryType::COUNT,
    );
    assert_eq!(0, query_events(&store, &query, &creator));
}

#[test]
fn ingestion_failures_carry_their_cause() {
    let error = EventError::UnexpectedError(String::from("connection refused"));
    let EventError::UnexpectedError(cause) = error;
    assert_eq!("connection refused", cause);
}
