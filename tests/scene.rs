use ray_trace::hittable::HittableList;
use ray_trace::render::{PathState, PathStep};

#[test]
fn list_keeps_insertion_order() {
    let mut list: HittableList<u32> = HittableList::new();
    assert!(list.objects.is_empty());
    list.push(1).push(2).push(3);
    assert_eq!(list.objects, vec![1, 2, 3]);
    assert_eq!(list.pop(), Some(3));
    assert_eq!(list.objects, vec![1, 2]);
}

#[test]
fn pop_on_empty_list_is_none() {
    let mut list: HittableList<u32> = HittableList::new();
    assert_eq!(list.pop(), None);
    assert!(list.objects.is_empty());
}

#[test]
fn clear_removes_everything() {
    let mut list: HittableList<&str> = HittableList::new();
    list.push("sphere").push("ground");
    list.clear().push("other");
    assert_eq!(list.objects, vec!["other"]);
    list.clear();
    assert!(list.objects.is_empty());
}

#[test]
fn zero_depth_is_black_whatever_the_scene() {
    let state = PathState::new(0);
    assert!(state.is_exhausted());
    assert_eq!(state.step(true), PathStep::Absorbed);
    assert_eq!(state.step(false), PathStep::Absorbed);
}

#[test]
fn hit_spends_one_bounce() {
    let state = PathState::new(5);
    assert!(!state.is_exhausted());
    assert_eq!(
        state.step(true),
        PathStep::Scattered { next: PathState { depth: 4, bounces: 1 } }
    );
}

#[test]
fn miss_escapes_with_bounce_count() {
    let state = PathState { depth: 3, bounces: 2 };
    assert_eq!(state.step(false), PathStep::Escaped { bounces: 2 });
    assert_eq!(PathState::new(7).step(false), PathStep::Escaped { bounces: 0 });
}

#[test]
fn path_that_always_hits_is_absorbed_after_budget() {
    let max_depth = 50;
    let mut state = PathState::new(max_depth);
    let mut queries = 0;
    let outcome = loop {
        queries += 1;
        match state.step(true) {
            PathStep::Scattered { next } => state = next,
            other => break other,
        }
    };
    assert_eq!(outcome, PathStep::Absorbed);
    assert_eq!(queries, max_depth + 1);
    assert_eq!(state, PathState { depth: 0, bounces: max_depth });
}

#[test]
fn path_escaping_after_two_bounces() {
    let mut state = PathState::new(10);
    let hits = [true, true, false];
    let mut outcome = None;
    for hit in hits {
        match state.step(hit) {
            PathStep::Scattered { next } => state = next,
            other => {
                outcome = Some(other);
                break;
            }
        }
    }
    assert_eq!(outcome, Some(PathStep::Escaped { bounces: 2 }));
}
