use std::sync::Arc;

use salvia::node::query::{
    extend_valid_range, upstream_status, Cache, CacheStatus, CacheUpdate, InputDeps, InputStatus,
    UpdateAction, UpdateEvent, UpstreamDeps, UpstreamStatus,
};
use salvia::node::{InputSelection, ValidationStatus, ValueDepInfo};
use salvia::node::query::InputStatus::{Changed, Unchanged};
use salvia::node::ValidationStatus::{Invalid, Valid};
use salvia::runtime::QueryToken;
use salvia::time::{GlobalInstant, GlobalInstant as GI, LocalInstant, LocalInstant as LI};
use tokio::sync::Semaphore;

fn make_token<I>(current_frame: GlobalInstant, local_instants: I) -> QueryToken
where
    I: IntoIterator<Item = LocalInstant>,
{
    let input_snapshot = Arc::new(local_instants.into_iter().collect::<Vec<_>>());
    let semaphore = Arc::new(Semaphore::new(1));
    let guard = Arc::new(semaphore.try_acquire_owned().unwrap());

    QueryToken::new(current_frame, input_snapshot, guard)
}

fn make_selection<I>(bits: I) -> InputSelection
where
    I: IntoIterator<Item = usize>,
{
    bits.into_iter()
        .fold(InputSelection::empty(), |acc, value| acc | InputSelection::new(value))
}

fn make_input_deps<I>(bits: I, snapshot: &[LocalInstant]) -> InputDeps
where
    I: IntoIterator<Item = usize>,
{
    InputDeps {
        selection: make_selection(bits),
        snapshot: Arc::new(snapshot.to_vec()),
    }
}

/// Upstream nodes answering each validation request with the given status.
fn make_upstream_deps<I>(iter: I) -> (UpstreamDeps<usize>, Vec<Option<ValidationStatus>>)
where
    I: IntoIterator<Item = ValidationStatus>,
{
    let answers: Vec<_> = iter.into_iter().map(Some).collect();
    let handles = (0..answers.len()).collect();
    (UpstreamDeps { handles }, answers)
}

fn make_cache(
    range: std::ops::RangeInclusive<GlobalInstant>,
    upstream: UpstreamDeps<usize>,
    input_deps: InputDeps,
) -> Cache<usize, usize> {
    Cache {
        value: 1_usize,
        valid_range: range,
        upstream_deps: upstream,
        input_deps,
    }
}

/// Status of the cache, consulting upstream answers when the token alone does not decide.
fn status(
    cache: &Cache<usize, usize>,
    token: &QueryToken,
    answers: &Vec<Option<ValidationStatus>>,
) -> CacheStatus {
    match cache.status_from_inputs(token) {
        Some(status) => status,
        None => cache.status_from_upstream(upstream_status(answers), token),
    }
}

#[test]
fn test_extend_range() {
    {
        let range = extend_valid_range(GI::new(1)..=GI::new(3), GI::new(4)..=GI::new(10));
        let expected = GI::new(1)..=GI::new(3);

        assert_eq!(range, expected)
    }

    {
        let range = extend_valid_range(GI::new(1)..=GI::new(3), GI::new(1)..=GI::new(2));
        let expected = GI::new(1)..=GI::new(3);

        assert_eq!(range, expected)
    }

    {
        let range = extend_valid_range(GI::new(5)..=GI::new(6), GI::new(5)..=GI::new(10));
        let expected = GI::new(5)..=GI::new(6);

        assert_eq!(range, expected)
    }

    {
        let range = extend_valid_range(GI::new(5)..=GI::new(6), GI::new(2)..=GI::new(6));
        let expected = GI::new(2)..=GI::new(6);

        assert_eq!(range, expected)
    }

    {
        let range = extend_valid_range(GI::new(5)..=GI::new(6), GI::new(2)..=GI::new(5));
        let expected = GI::new(2)..=GI::new(6);

        assert_eq!(range, expected)
    }

    {
        let range = extend_valid_range(GI::new(5)..=GI::new(6), GI::new(2)..=GI::new(4));
        let expected = GI::new(2)..=GI::new(6);

        assert_eq!(range, expected)
    }

    {
        let range = extend_valid_range(GI::new(5)..=GI::new(6), GI::new(2)..=GI::new(3));
        let expected = GI::new(5)..=GI::new(6);

        assert_eq!(range, expected)
    }
}

// Constant queries (i.e. with no input dependencies) are always considered valid.
#[test]
fn test_constant() {
    {
        // No inputs.

        let deps = make_input_deps([], &[]);
        let token = make_token(GI::new(1), []);

        assert_eq!(deps.status(token.current_frame(), &token), Some(Unchanged));
        assert_eq!(deps.status(GI::new(1), &token), Some(Unchanged));
        assert_eq!(deps.status(GI::initial(), &token), Some(Unchanged));
    }

    {
        // Same snapshot.

        let local_instants = [LI::initial(), LI::new(2)];

        let deps = make_input_deps([], &local_instants);
        let token = make_token(GI::new(2), local_instants);

        assert_eq!(deps.status(token.current_frame(), &token), Some(Unchanged));
        assert_eq!(deps.status(GI::new(1), &token), Some(Unchanged));
        assert_eq!(deps.status(GI::initial(), &token), Some(Unchanged));
    }

    {
        // Different snapshot.

        let instants1 = [LI::initial(), LI::new(2)];
        let instants2 = [LI::new(1), LI::new(2), LI::initial()];

        let deps = make_input_deps([], &instants1);
        let token = make_token(GI::new(2), instants2);

        assert_eq!(deps.status(token.current_frame(), &token), Some(Unchanged));
        assert_eq!(deps.status(GI::new(1), &token), Some(Unchanged));
        assert_eq!(deps.status(GI::initial(), &token), Some(Unchanged));
    }
}

// Behavior on outdated queries.
#[test]
fn test_local_instant_wrapping() {
    {
        // Constants are not affected.

        let instants = [LI::new(1), LI::new(2)];

        let deps = make_input_deps([], &instants);
        let token = make_token(GI::new(3) + LI::max_global_frames(), instants);

        assert_eq!(deps.status(GI::initial(), &token), Some(Unchanged));
        assert_eq!(deps.status(GI::new(3), &token), Some(Unchanged));
        assert_eq!(deps.status(GI::new(4), &token), Some(Unchanged));
    }

    {
        // Queries outdated by more than `LI::MAX_GLOBAL_FRAMES` cannot be verified.

        let instants = [LI::new(10), LI::new(11), LI::new(100)];

        let deps = make_input_deps([1], &instants);
        let token = make_token(GI::new(4) + LI::max_global_frames(), instants);

        assert_eq!(deps.status(GI::initial(), &token), None);
        assert_eq!(deps.status(GI::new(4), &token), None);
        assert_eq!(deps.status(GI::new(5), &token), Some(Unchanged));
    }
}

// Non-constant queries.
#[test]
fn test_normal() {
    let cache_instants = [LI::new(1), LI::new(2), LI::new(3)];

    let deps = make_input_deps([1, 2], &cache_instants);

    assert!(!deps.selection.is_empty());

    {
        // Same snapshot.

        let token = make_token(GI::new(3), cache_instants);

        assert_eq!(deps.status(token.current_frame(), &token), Some(Unchanged));
        assert_eq!(deps.status(GI::new(2), &token), Some(Unchanged));
        assert_eq!(deps.status(GI::initial(), &token), Some(Unchanged));
    }

    {
        // Different snapshot, dependencies preserved.

        let instants = [LI::new(2), LI::new(2), LI::new(3), LI::initial()];
        let token = make_token(GI::new(3), instants);

        assert_eq!(deps.status(token.current_frame(), &token), Some(Unchanged));
        assert_eq!(deps.status(GI::new(2), &token), Some(Unchanged));
        assert_eq!(deps.status(GI::initial(), &token), Some(Unchanged));
    }

    {
        // Different snapshot, dependencies changed.

        let instants = [LI::new(1), LI::new(2), LI::new(4)];
        let token = make_token(GI::new(3), instants);

        assert_eq!(deps.status(token.current_frame(), &token), Some(Changed));
        assert_eq!(deps.status(GI::new(2), &token), Some(Changed));
        assert_eq!(deps.status(GI::initial(), &token), Some(Changed));
    }

    {
        // Empty snapshot, dependencies changed.

        let token = make_token(GI::new(3), []);

        assert_eq!(deps.status(token.current_frame(), &token), Some(Changed));
        assert_eq!(deps.status(GI::new(2), &token), Some(Changed));
        assert_eq!(deps.status(GI::initial(), &token), Some(Changed));
    }
}

#[test]
fn query_test_empty() {
    let (_deps, answers) = make_upstream_deps([]);

    assert_eq!(upstream_status(&answers), UpstreamStatus::Valid(ValueDepInfo::trivial()));
}

#[test]
fn test_invalid() {
    {
        let (_deps, answers) = make_upstream_deps([ValidationStatus::Invalid]);
        assert_eq!(upstream_status(&answers), UpstreamStatus::Invalid);
    }

    {
        let (_deps, answers) = make_upstream_deps([
            ValidationStatus::Valid(ValueDepInfo::trivial()),
            ValidationStatus::Invalid,
        ]);
        assert_eq!(upstream_status(&answers), UpstreamStatus::Invalid);
    }
}

#[test]
fn missing_upstream_answer_is_invalid() {
    let answers = vec![Some(ValidationStatus::Valid(ValueDepInfo::trivial())), None];
    assert_eq!(upstream_status(&answers), UpstreamStatus::Invalid);
}

#[test]
fn test_info_folding() {
    let (_deps, answers) = make_upstream_deps([
        ValidationStatus::Valid(ValueDepInfo {
            since: GlobalInstant::new(1),
            input_selection: InputSelection::new(2),
        }),
        ValidationStatus::Valid(ValueDepInfo {
            since: GlobalInstant::new(100),
            input_selection: InputSelection::new(3),
        }),
        ValidationStatus::Valid(ValueDepInfo {
            since: GlobalInstant::new(3),
            input_selection: InputSelection::new(2),
        }),
        ValidationStatus::Valid(ValueDepInfo {
            since: GlobalInstant::new(10),
            input_selection: InputSelection::new(8),
        }),
    ]);

    let status = upstream_status(&answers);

    let expected = ValueDepInfo {
        since: GlobalInstant::new(100),
        input_selection: InputSelection::new(2) | InputSelection::new(3) | InputSelection::new(8),
    };

    assert_eq!(status, UpstreamStatus::Valid(expected));

    let mut reversed = answers.clone();
    reversed.reverse();
    assert_eq!(upstream_status(&reversed), status);

    let mut repeated = answers.clone();
    repeated.extend(answers.iter().cloned());
    assert_eq!(upstream_status(&repeated), status);
}

#[test]
fn test_same_instant() {
    let (upstream, answers) = make_upstream_deps([]);
    let cache = make_cache(GI::new(1)..=GI::new(3), upstream, make_input_deps([], &[]));

    let token = make_token(GI::new(3), []);

    assert_eq!(status(&cache, &token, &answers), CacheStatus::UpToDate);
}

#[test]
fn test_unchanged_inputs() {
    let (upstream, answers) = make_upstream_deps([]);
    let cache = make_cache(
        GI::new(1)..=GI::new(3),
        upstream,
        make_input_deps([1], &[LI::new(1), LI::new(2)]),
    );

    let token = make_token(GI::new(5), [LI::new(3), LI::new(2), LI::initial()]);

    let expected = CacheStatus::RangeChanged {
        new_range: GI::new(1)..=GI::new(5),
        new_input_selection: None,
    };

    assert_eq!(status(&cache, &token, &answers), expected);
}

#[test]
fn test_valid_upstream_touching() {

    let (upstream, answers) = make_upstream_deps([
        Valid(ValueDepInfo {
            since: GI::new(4),
            input_selection: make_selection([0]),
        }),
        Valid(ValueDepInfo {
            since: GI::new(3),
            input_selection: make_selection([]),
        }),
    ]);
    let cache = make_cache(
        GI::new(1)..=GI::new(3),
        upstream,
        make_input_deps([0], &[LI::new(1)]),
    );

    let token = make_token(GI::new(5), [LI::new(3)]);

    let expected = CacheStatus::RangeChanged {
        new_range: GI::new(1)..=GI::new(5),
        new_input_selection: Some(make_selection([0])),
    };

    assert_eq!(status(&cache, &token, &answers), expected);
}

#[test]
fn test_valid_upstream_discontinuous() {

    let (upstream, answers) = make_upstream_deps([
        Valid(ValueDepInfo {
            since: GI::new(5),
            input_selection: make_selection([1]),
        }),
        Valid(ValueDepInfo {
            since: GI::new(4),
            input_selection: make_selection([]),
        }),
    ]);
    let cache = make_cache(
        GI::new(1)..=GI::new(3),
        upstream,
        make_input_deps([0], &[LI::new(1)]),
    );

    let token = make_token(GI::new(6), [LI::new(3)]);

    let expected = CacheStatus::RangeChanged {
        new_range: GI::new(5)..=GI::new(6),
        new_input_selection: Some(make_selection([1])),
    };

    assert_eq!(status(&cache, &token, &answers), expected);
}

#[test]
fn test_invalid_upstream() {

    let (upstream, answers) = make_upstream_deps([Invalid]);
    let cache = make_cache(
        GI::new(1)..=GI::new(3),
        upstream,
        make_input_deps([0], &[LI::new(1)]),
    );

    let token = make_token(GI::new(6), [LI::new(3)]);

    assert_eq!(status(&cache, &token, &answers), CacheStatus::NeedRecalculation);
}

#[test]
fn update_routine_recalculates_equal_value() {

    let (upstream, answers) = make_upstream_deps([Invalid]);
    let mut cache = make_cache(
        GI::new(1)..=GI::new(3),
        upstream,
        make_input_deps([0], &[LI::new(1)]),
    );
    let token = make_token(GI::new(6), [LI::new(3)]);

    assert_eq!(cache.update_step(UpdateEvent::Start, &token), UpdateAction::ValidateUpstream);
    assert_eq!(
        cache.update_step(UpdateEvent::UpstreamAnswered(answers), &token),
        UpdateAction::Recalculate
    );
    let old_contains = cache.contains(GI::new(2));
    let action = cache.update_step(
        UpdateEvent::Evaluated {
            value: 1,
            handles: vec![4],
            dep_info: ValueDepInfo {
                since: GI::new(4),
                input_selection: make_selection([0]),
            },
        },
        &token,
    );
    assert_eq!(action, UpdateAction::Finished(CacheUpdate::Unchanged));
    assert_eq!(cache.valid_range, GI::new(1)..=GI::new(6));
    assert_eq!(cache.upstream_deps.handles, vec![4]);
    assert_eq!(
        cache.validation_status(GI::new(2), old_contains, CacheUpdate::Unchanged),
        Valid(ValueDepInfo { since: GI::new(1), input_selection: make_selection([0]) })
    );
    assert_eq!(
        cache.update_step(UpdateEvent::Start, &token),
        UpdateAction::Finished(CacheUpdate::Unchanged)
    );
}

#[test]
fn update_routine_records_changed_value() {

    let mut cache = make_cache(
        GI::new(1)..=GI::new(3),
        UpstreamDeps { handles: vec![0] },
        make_input_deps([0], &[LI::new(1)]),
    );
    let token = make_token(GI::new(6), [LI::new(3)]);
    let old_contains = cache.contains(GI::new(2));
    let action = cache.update_step(
        UpdateEvent::Evaluated {
            value: 9,
            handles: vec![],
            dep_info: ValueDepInfo {
                since: GI::new(5),
                input_selection: make_selection([0]),
            },
        },
        &token,
    );
    assert_eq!(action, UpdateAction::Finished(CacheUpdate::Changed));
    assert_eq!(cache.value, 9);
    assert_eq!(cache.valid_range, GI::new(5)..=GI::new(6));
    assert_eq!(
        cache.validation_status(GI::new(2), old_contains, CacheUpdate::Changed),
        Invalid
    );
    assert_eq!(
        cache.dep_info(),
        ValueDepInfo { since: GI::new(5), input_selection: make_selection([0]) }
    );
}

#[test]
fn from_evaluation_covers_since_to_current_frame() {
    let token = make_token(GI::new(6), [LI::new(3)]);
    let cache: Cache<usize, usize> = Cache::from_evaluation(
        5,
        vec![1, 2],
        ValueDepInfo { since: GI::new(2), input_selection: make_selection([0]) },
        &token,
    );
    assert_eq!(cache.valid_since(), GI::new(2));
    assert_eq!(cache.valid_until(), GI::new(6));
    assert!(cache.contains(GI::new(2)));
    assert!(!cache.contains(GI::new(1)));
    assert_eq!(*cache.input_deps.snapshot, vec![LI::new(3)]);
}

#[test]
fn range_change_keeps_upstream_and_takes_snapshot() {
    let mut cache = make_cache(
        GI::new(1)..=GI::new(3),
        UpstreamDeps { handles: vec![7, 8] },
        make_input_deps([1], &[LI::new(1), LI::new(2)]),
    );
    let token = make_token(GI::new(5), [LI::new(3), LI::new(2)]);

    assert_eq!(
        cache.update_step(UpdateEvent::Start, &token),
        UpdateAction::Finished(CacheUpdate::Unchanged)
    );
    assert_eq!(cache.valid_range, GI::new(1)..=GI::new(5));
    assert_eq!(cache.upstream_deps.handles, vec![7, 8]);
    assert_eq!(*cache.input_deps.snapshot, vec![LI::new(3), LI::new(2)]);
    assert_eq!(cache.input_deps.selection, make_selection([1]));
    assert_eq!(cache.value, 1);
}
