use wikigame::history::History;

#[test]
fn empty_history_is_unvisited() {
    let h = History::empty();
    assert_eq!(h.url(), "?");
    assert!(h.is_first());
    assert!(h.is_last());
}

#[test]
fn current_is_last_visited() {
    let mut h = History::empty();
    h.new_next("Alpha");
    assert_eq!(h.url(), "Alpha");
    h.new_next("Beta");
    assert_eq!(h.url(), "Beta");
    h.new_next("Gamma");
    assert_eq!(h.url(), "Gamma");
    assert!(h.is_last());
    assert!(!h.is_first());
}

#[test]
fn repeat_visit_is_noop() {
    let mut h = History::empty();
    h.new_next("Alpha");
    h.new_next("Beta");
    h.new_next("Beta");
    assert_eq!(h.url(), "Beta");
    assert!(h.is_last());
    h.prev();
    assert_eq!(h.url(), "Alpha");
    assert!(h.is_first());
    h.next();
    assert_eq!(h.url(), "Beta");
    assert!(h.is_last());
}

#[test]
fn retreat_then_visit_truncates_forward_history() {
    let mut h = History::empty();
    h.new_next("A");
    h.new_next("B");
    h.new_next("C");
    h.prev();
    h.new_next("D");
    assert_eq!(h.url(), "D");
    assert!(h.is_last());
    h.prev();
    assert_eq!(h.url(), "B");
    h.prev();
    assert_eq!(h.url(), "A");
    assert!(h.is_first());
}

#[test]
fn home_is_a_genuine_new_entry() {
    let mut h = History::empty();
    h.new_next("A");
    h.new_next("B");
    h.new_next("C");
    h.add_home();
    assert_eq!(h.url(), "A");
    assert!(h.is_last());
    h.prev();
    assert_eq!(h.url(), "C");
    h.prev();
    assert_eq!(h.url(), "B");
    h.prev();
    assert_eq!(h.url(), "A");
    assert!(h.is_first());
}

#[test]
fn home_when_already_at_home_is_noop() {
    let mut h = History::empty();
    h.new_next("A");
    h.add_home();
    assert_eq!(h.url(), "A");
    assert!(h.is_first());
    assert!(h.is_last());
}

#[test]
fn home_on_empty_history_is_noop() {
    let mut h = History::empty();
    h.add_home();
    assert_eq!(h.url(), "?");
    assert!(h.is_first());
    assert!(h.is_last());
}

#[test]
fn moves_never_pass_the_bounds() {
    let mut h = History::empty();
    h.prev();
    h.next();
    assert_eq!(h.url(), "?");
    h.new_next("A");
    h.new_next("B");
    h.prev();
    h.prev();
    assert_eq!(h.url(), "A");
    assert!(h.is_first());
    h.next();
    h.next();
    assert_eq!(h.url(), "B");
    assert!(h.is_last());
}

#[test]
fn clean_forgets_everything() {
    let mut h = History::empty();
    h.new_next("A");
    h.new_next("B");
    h.clean();
    assert_eq!(h.url(), "?");
    assert!(h.is_first());
    assert!(h.is_last());
    h.new_next("C");
    assert_eq!(h.url(), "C");
    assert!(h.is_first());
    assert!(h.is_last());
}
