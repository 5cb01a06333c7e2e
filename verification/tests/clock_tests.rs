use std::sync::Arc;

use salvia::runtime::clock::{ClockPhase, ClockPlan, ClockState, Indexer, PermitLedger, PhaseRequest};
use salvia::time::{GlobalInstant, LocalInstant};

fn is_mutation(phase: &ClockPhase) -> bool {
    matches!(phase, ClockPhase::Mutation)
}

fn query_snapshot(phase: &ClockPhase) -> Option<Vec<LocalInstant>> {
    match phase {
        ClockPhase::Query(s) => Some(s.as_ref().clone()),
        ClockPhase::Mutation => None,
    }
}

#[test]
fn test_force_mutation() {
    let mut state: ClockState<u32> = ClockState {
        phase: ClockPhase::Query(Arc::new(vec![])),
        current: GlobalInstant::new(3),
        ..ClockState::new()
    };

    state.update_handles(vec![]);
    assert!(state.in_query());
    state.start_mutation();

    assert!(is_mutation(&state.phase));
    assert_eq!(state.current, GlobalInstant::new(4));

    state.start_mutation();

    assert!(is_mutation(&state.phase));
    assert_eq!(state.current, GlobalInstant::new(4));
}

#[test]
fn test_force_query() {
    let mut state: ClockState<u32> = ClockState {
        phase: ClockPhase::Mutation,
        current: GlobalInstant::new(5),
        ..ClockState::new()
    };

    let plan = state.plan(PhaseRequest::Query);
    assert_eq!(plan, ClockPlan { release_tokens: true, collect_inputs: true, snapshot_inputs: true });
    state.update_handles(vec![]);
    state.start_query(vec![]);

    assert_eq!(query_snapshot(&state.phase), Some(vec![]));
    assert_eq!(state.current, GlobalInstant::new(5));

    // A second request for a query phase asks for no work and changes nothing.
    let plan = state.plan(PhaseRequest::Query);
    assert_eq!(plan, ClockPlan { release_tokens: false, collect_inputs: false, snapshot_inputs: false });

    assert_eq!(query_snapshot(&state.phase), Some(vec![]));
    assert_eq!(state.current, GlobalInstant::new(5));
}

#[test]
fn snapshot_defaults_missing_answers_to_initial() {
    let mut state: ClockState<u32> = ClockState::new();
    state.update_handles(vec![10, 11, 12]);
    state.start_mutation();
    let snapshot = state.start_query(vec![Some(LocalInstant::new(4)), None, Some(LocalInstant::new(9))]);
    assert_eq!(
        *snapshot,
        vec![LocalInstant::new(4), LocalInstant::initial(), LocalInstant::new(9)]
    );
    assert_eq!(state.input_handles, vec![10, 11, 12]);
    assert_eq!(state.current, GlobalInstant::new(1));
    assert_eq!(state.query_snapshot().map(|s| s.as_ref().clone()), Some(snapshot.as_ref().clone()));
}

#[test]
fn indexer_hands_out_positions() {
    let mut indexer: Indexer<&str> = Indexer::new();
    let mut clock: ClockState<&str> = ClockState::new();
    assert_eq!(indexer.register("a"), 0);
    assert_eq!(indexer.register("b"), 1);
    clock.update_handles(indexer.acquire_inputs());
    assert_eq!(indexer.register("c"), 2);
    clock.update_handles(indexer.acquire_inputs());
    assert!(indexer.acquire_inputs().is_empty());
    assert_eq!(clock.input_handles, vec!["a", "b", "c"]);
}

#[test]
fn permit_ledger_refills_when_exhausted() {
    let mut ledger = PermitLedger::new();
    assert_eq!(ledger.total_count(), 10);
    assert_eq!(ledger.reserve(3), 0);
    assert_eq!(ledger.total_count(), 10);
    assert_eq!(ledger.reserve(0), 10);
    assert_eq!(ledger.total_count(), 20);
}

#[test]
fn clock_plans_per_phase() {
    let mut state: ClockState<u32> = ClockState::new();
    let none = ClockPlan { release_tokens: false, collect_inputs: false, snapshot_inputs: false };
    assert_eq!(state.plan(PhaseRequest::Query), none);
    assert_eq!(
        state.plan(PhaseRequest::Mutation),
        ClockPlan { release_tokens: true, collect_inputs: true, snapshot_inputs: false }
    );
    state.start_mutation();
    assert_eq!(
        state.plan(PhaseRequest::Mutation),
        ClockPlan { release_tokens: true, collect_inputs: false, snapshot_inputs: false }
    );
    assert_eq!(
        state.plan(PhaseRequest::Query),
        ClockPlan { release_tokens: true, collect_inputs: true, snapshot_inputs: true }
    );
}

fn permit() -> Arc<tokio::sync::OwnedSemaphorePermit> {
    Arc::new(Arc::new(tokio::sync::Semaphore::new(1)).try_acquire_owned().unwrap())
}

#[test]
fn tokens_follow_the_phase() {
    let mut state: ClockState<u32> = ClockState::new();
    state.update_handles(vec![7, 8]);
    assert!(state.mutation_token(permit()).is_none());
    state.start_mutation();
    assert!(state.query_token(permit()).is_none());
    let input_token = state.mutation_token(permit()).unwrap();
    assert_eq!(input_token.current_frame(), GlobalInstant::new(1));

    let snapshot = state.start_query(vec![Some(LocalInstant::new(2)), None]);
    let token = state.query_token(permit()).unwrap();
    assert_eq!(token.current_frame(), GlobalInstant::new(1));
    assert!(Arc::ptr_eq(token.input_snapshot(), &snapshot));
    assert_eq!(**token.input_snapshot(), vec![LocalInstant::new(2), LocalInstant::initial()]);
}
