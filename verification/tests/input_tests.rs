use salvia::node::input::{Cache, Input};
use salvia::node::{InputSelection, ValidationStatus, ValueDepInfo};
use salvia::time::{GlobalInstant, LocalInstant};

#[derive(Debug, Copy, Clone, Eq, PartialEq, Hash)]
struct Integer;

impl Input<u64> for Integer {
    fn initial(&self) -> u64 {
        3
    }
}

#[test]
fn test_no_change_roll() {
    let mut cache = Cache::new(&Integer);

    cache.actualize();

    assert_eq!(cache.timed_value.value, 3);
    assert_eq!(cache.instant, LocalInstant::initial());
    assert!(cache.next_value.is_none());
}

#[test]
fn test_roll_with_change() {
    let mut cache = Cache::new(&Integer);

    let next_time = GlobalInstant::initial().next().next();
    cache.set_next(10, next_time);

    assert_eq!(cache.timed_value.value, 3);
    assert_eq!(cache.timed_value.valid_since, GlobalInstant::initial());
    assert_eq!(cache.instant, LocalInstant::initial());

    cache.actualize();

    assert_eq!(cache.timed_value.value, 10);
    assert_eq!(cache.timed_value.valid_since, next_time);
    assert_eq!(cache.instant, LocalInstant::initial().next());
    assert!(cache.next_value.is_none());
}

#[test]
fn test_roll_with_change_to_equal() {
    let mut cache = Cache::new(&Integer);

    let next_time = GlobalInstant::initial().next().next();
    cache.set_next(3, next_time);

    assert_eq!(cache.timed_value.value, 3);
    assert_eq!(cache.timed_value.valid_since, GlobalInstant::initial());
    assert_eq!(cache.instant, LocalInstant::initial());

    cache.actualize();

    assert_eq!(cache.instant, LocalInstant::initial());
    assert_eq!(cache.timed_value.value, 3);
    assert_eq!(cache.timed_value.valid_since, GlobalInstant::initial());
    assert!(cache.next_value.is_none());
}

#[test]
fn later_set_replaces_queued_value() {
    let mut cache = Cache::new(&Integer);
    cache.set_next(10, GlobalInstant::new(1));
    cache.set_next(11, GlobalInstant::new(2));
    cache.actualize();
    assert_eq!(cache.timed_value.value, 11);
    assert_eq!(cache.valid_since(), GlobalInstant::new(2));
}

#[test]
fn input_validation_depends_on_valid_since() {
    let mut cache = Cache::new(&Integer);
    cache.set_next(10, GlobalInstant::new(4));
    cache.actualize();
    let deps = InputSelection::new(2);

    assert_eq!(
        cache.validation_status(GlobalInstant::new(3), &deps),
        ValidationStatus::Invalid
    );
    assert_eq!(
        cache.validation_status(GlobalInstant::new(4), &deps),
        ValidationStatus::Valid(ValueDepInfo {
            since: GlobalInstant::new(4),
            input_selection: InputSelection::new(2),
        })
    );

    let payload = cache.value_payload(&deps);
    assert_eq!(payload.value, 10);
    assert_eq!(payload.dep_info.since, GlobalInstant::new(4));
    assert_eq!(payload.dep_info.input_selection, InputSelection::new(2));
}

#[derive(Debug, Copy, Clone, Eq, PartialEq, Hash)]
struct Tree(u32);

impl Input<String> for Tree {
    fn initial(&self) -> String {
        format!("i'm a tree #{}!", self.0)
    }
}

/// Reads a value the way an input node serves it.
fn read(cache: &Cache<Tree, String>) -> String {
    cache.value_payload(&InputSelection::new(0)).value
}

// Unset inputs are initialized using the provided function.
#[test]
fn test_initial_value() {
    assert_eq!(read(&Cache::new(&Tree(3))).as_str(), "i'm a tree #3!");
    assert_eq!(read(&Cache::new(&Tree(125))).as_str(), "i'm a tree #125!");
}

// Mutated inputs change their value once actualized.
#[test]
fn test_setter() {
    let mut three = Cache::new(&Tree(3));
    let mut big = Cache::new(&Tree(178));
    let five = Cache::new(&Tree(5));

    three.set_next("a stump".to_string(), GlobalInstant::new(1));
    big.set_next("a cristmas tree".to_string(), GlobalInstant::new(1));
    three.actualize();
    big.actualize();

    assert_eq!(read(&three).as_str(), "a stump");
    assert_eq!(read(&five), "i'm a tree #5!");
    assert_eq!(read(&big).as_str(), "a cristmas tree");
}
