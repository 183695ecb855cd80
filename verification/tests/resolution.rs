//! The resolver consulted end to end: first-match-wins, exhaustion,
//! failure coercion, and the rendered replies.

use bucket_gateway::gateway::health_reply;
use bucket_gateway::gateway::reply_of_lookup;
use bucket_gateway::gateway::route_of_path;
use bucket_gateway::gateway::Route;
use bucket_gateway::lookup::to_lookup;
use bucket_gateway::lookup::BackendFailure;
use bucket_gateway::lookup::BackendOutcome;
use bucket_gateway::lookup::LookupResult;
use bucket_gateway::resolver::Resolver;

/// Drive a resolution where backend `i` would answer `script[i]`.
/// Returns the result and the backend indices queried, in order; panics
/// if any backend is queried twice.
fn drive(script: Vec<BackendOutcome>) -> (LookupResult, Vec<usize>) {
    let mut resolver = Resolver::new(script.len());
    let mut pending: Vec<Option<BackendOutcome>> = script.into_iter().map(Some).collect();
    let mut queried: Vec<usize> = Vec::new();
    while let Some(i) = resolver.next_query() {
        queried.push(i);
        let outcome = pending[i].take().expect("backend queried twice");
        resolver.record(outcome);
    }
    (resolver.into_result(), queried)
}

fn found_bytes(result: LookupResult) -> Vec<u8> {
    match result {
        LookupResult::Found(bytes) => bytes,
        LookupResult::Miss => panic!("expected a hit, got a miss"),
    }
}

#[test]
fn first_match_wins_and_short_circuits() {
    let script = vec![
        BackendOutcome::Absent,
        BackendOutcome::Found(b"from the second backend".to_vec()),
        BackendOutcome::Absent,
    ];
    let (result, queried) = drive(script);
    assert_eq!(found_bytes(result), b"from the second backend".to_vec());
    assert_eq!(queried, vec![0, 1]);
}

#[test]
fn miss_queries_every_backend_once_in_order() {
    let script = vec![
        BackendOutcome::Absent,
        BackendOutcome::Absent,
        BackendOutcome::Absent,
    ];
    let (result, queried) = drive(script);
    assert!(matches!(result, LookupResult::Miss));
    assert_eq!(queried, vec![0, 1, 2]);
}

#[test]
fn failure_before_the_match_is_swallowed() {
    let script = vec![
        BackendOutcome::Failed(BackendFailure::Transport),
        BackendOutcome::Found(b"still reached".to_vec()),
    ];
    let (result, queried) = drive(script);
    assert_eq!(found_bytes(result), b"still reached".to_vec());
    assert_eq!(queried, vec![0, 1]);
}

#[test]
fn auth_failure_everywhere_is_a_miss() {
    let script = vec![
        BackendOutcome::Failed(BackendFailure::Auth),
        BackendOutcome::Failed(BackendFailure::MalformedResponse),
    ];
    let (result, queried) = drive(script);
    assert!(matches!(result, LookupResult::Miss));
    assert_eq!(queried, vec![0, 1]);
}

#[test]
fn every_outcome_coerces_to_the_uniform_result() {
    let hit = to_lookup(BackendOutcome::Found(vec![1, 2, 3]));
    assert_eq!(found_bytes(hit), vec![1, 2, 3]);
    assert!(matches!(to_lookup(BackendOutcome::Absent), LookupResult::Miss));
    assert!(matches!(
        to_lookup(BackendOutcome::Failed(BackendFailure::Transport)),
        LookupResult::Miss
    ));
    assert!(matches!(
        to_lookup(BackendOutcome::Failed(BackendFailure::Auth)),
        LookupResult::Miss
    ));
    assert!(matches!(
        to_lookup(BackendOutcome::Failed(BackendFailure::MalformedResponse)),
        LookupResult::Miss
    ));
}

#[test]
fn health_reply_is_ok_whatever_the_backends() {
    let reply = health_reply();
    assert_eq!(reply.status, 200);
    assert_eq!(reply.body, b"OK".to_vec());
}

#[test]
fn round_trip_preserves_every_byte_and_the_length() {
    let stored: Vec<u8> = (0..=255u8).cycle().take(1024).collect();
    let script = vec![
        BackendOutcome::Absent,
        BackendOutcome::Found(stored.clone()),
    ];
    let (result, _) = drive(script);
    let reply = reply_of_lookup(result);
    assert_eq!(reply.status, 200);
    assert_eq!(reply.body.len(), 1024);
    assert_eq!(reply.body, stored);
}

#[test]
fn scenario_object_only_in_the_second_of_three() {
    let key = match route_of_path("/hello.txt") {
        Route::Object(key) => key,
        Route::Health => panic!("a non-root path must name an object"),
    };
    assert_eq!(key, "hello.txt");
    let content_of_b = b"contents held by B".to_vec();
    let script = vec![
        BackendOutcome::Absent,
        BackendOutcome::Found(content_of_b.clone()),
        BackendOutcome::Absent,
    ];
    let (result, queried) = drive(script);
    let reply = reply_of_lookup(result);
    assert_eq!(reply.status, 200);
    assert_eq!(reply.body, content_of_b);
    assert!(queried.iter().filter(|&&i| i == 0).count() <= 1);
    assert!(queried.iter().filter(|&&i| i == 1).count() <= 1);
    assert!(!queried.contains(&2), "the backend after the hit must never be queried");
}

#[test]
fn scenario_absent_from_both_backends() {
    let key = match route_of_path("/missing.txt") {
        Route::Object(key) => key,
        Route::Health => panic!("a non-root path must name an object"),
    };
    assert_eq!(key, "missing.txt");
    let (result, queried) = drive(vec![BackendOutcome::Absent, BackendOutcome::Absent]);
    let reply = reply_of_lookup(result);
    assert_eq!(reply.status, 404);
    assert_eq!(reply.body, b"Not Found".to_vec());
    assert_eq!(queried, vec![0, 1]);
}

#[test]
fn scenario_empty_backend_list() {
    match route_of_path("/anything") {
        Route::Object(key) => assert_eq!(key, "anything"),
        Route::Health => panic!("a non-root path must name an object"),
    }
    let (result, queried) = drive(Vec::new());
    let reply = reply_of_lookup(result);
    assert_eq!(reply.status, 404);
    assert_eq!(reply.body, b"Not Found".to_vec());
    assert!(queried.is_empty());

    assert!(matches!(route_of_path("/"), Route::Health));
    let health = health_reply();
    assert_eq!(health.status, 200);
    assert_eq!(health.body, b"OK".to_vec());
}
