use voxel::command_list::{CommandListState, ListProgress};

fn busy_list() -> ListProgress {
    let mut p = ListProgress::new();
    assert!(p.submit());
    p
}

#[test]
fn fresh_list_accepts_changes() {
    let p = ListProgress::new();
    assert_eq!(p.state(), CommandListState::Init);
    assert!(p.commands_mutable());
}

#[test]
fn busy_list_refuses_changes_and_rerun() {
    let mut p = busy_list();
    assert_eq!(p.state(), CommandListState::Busy);
    assert!(!p.commands_mutable());
    assert!(!p.run_again());
    assert_eq!(p.state(), CommandListState::Busy);
    assert!(!p.submit());
}

#[test]
fn mapping_list_refuses_changes_and_rerun() {
    let mut p = busy_list();
    assert!(p.begin_mapping(2));
    assert_eq!(p.state(), CommandListState::Mapping);
    assert!(!p.commands_mutable());
    assert!(!p.run_again());
    assert_eq!(p.state(), CommandListState::Mapping);
    assert_eq!(p.pending, 2);
}

#[test]
fn done_list_accepts_changes_and_runs_again() {
    let mut p = busy_list();
    assert!(p.begin_mapping(1));
    assert!(p.complete_one());
    assert_eq!(p.state(), CommandListState::Done);
    assert!(p.commands_mutable());
    assert!(p.run_again());
    assert_eq!(p.state(), CommandListState::Init);
}

#[test]
fn run_again_from_init_is_refused() {
    let mut p = ListProgress::new();
    assert!(!p.run_again());
    assert_eq!(p.state(), CommandListState::Init);
}

#[test]
fn done_only_after_every_completion() {
    let n = 5;
    let mut p = busy_list();
    assert!(p.begin_mapping(n));
    for k in 0..n {
        assert_eq!(p.state(), CommandListState::Mapping);
        let finished = p.complete_one();
        assert_eq!(finished, k + 1 == n);
    }
    assert_eq!(p.state(), CommandListState::Done);
    assert!(!p.complete_one());
    assert_eq!(p.state(), CommandListState::Done);
}

#[test]
fn completions_in_any_order_finish_once() {
    // Three commands report back from different callbacks, out of order.
    let mut p = busy_list();
    assert!(p.begin_mapping(3));
    let order = [2usize, 0, 1];
    let mut finishes = Vec::new();
    for cmd in order {
        finishes.push((cmd, p.complete_one()));
    }
    assert_eq!(finishes, vec![(2, false), (0, false), (1, true)]);
    assert_eq!(p.state(), CommandListState::Done);
}

#[test]
fn empty_list_is_done_at_once() {
    let mut p = busy_list();
    assert!(p.begin_mapping(0));
    assert_eq!(p.state(), CommandListState::Done);
}

#[test]
fn mapping_is_refused_unless_busy() {
    let mut p = ListProgress::new();
    assert!(!p.begin_mapping(3));
    assert_eq!(p.state(), CommandListState::Init);
    assert!(!p.complete_one());
    assert_eq!(p.state(), CommandListState::Init);
}
