use wikigame::game::{FetchError, GameSession, Phase};

#[test]
fn budget_below_minimum_rejected_and_unchanged() {
    let mut s = GameSession::new();
    assert_eq!(s.time_budget(), 120);
    assert!(s.configure_time_budget(30).is_err());
    assert_eq!(s.time_budget(), 120);
}

#[test]
fn budget_bounds_are_inclusive() {
    let mut s = GameSession::new();
    assert!(s.configure_time_budget(59).is_err());
    assert_eq!(s.time_budget(), 120);
    assert!(s.configure_time_budget(60).is_ok());
    assert_eq!(s.time_budget(), 60);
    assert!(s.configure_time_budget(600).is_ok());
    assert_eq!(s.time_budget(), 600);
    assert!(s.configure_time_budget(601).is_err());
    assert_eq!(s.time_budget(), 600);
}

#[test]
fn budget_cannot_change_after_start() {
    let mut s = GameSession::new();
    let _ = s.start_game("Alpha", "Omega");
    assert!(s.configure_time_budget(300).is_err());
    assert_eq!(s.time_budget(), 120);
}

#[test]
fn setup_phase_before_start() {
    let mut s = GameSession::new();
    assert_eq!(s.observe(5), Phase::Setup);
    assert!(!s.is_started());
    assert_eq!(s.destination(), None);
    assert_eq!(s.current_location(), "?");
}

#[test]
fn start_game_visits_start_and_issues_fetch() {
    let mut s = GameSession::new();
    let g = s.start_game("Alpha", "Omega");
    assert_eq!(g, 1);
    assert!(s.is_started());
    assert!(s.is_fetch_pending());
    assert_eq!(s.current_generation(), 1);
    assert_eq!(s.current_location(), "Alpha");
    assert_eq!(s.destination(), Some(String::from("Omega")));
}

#[test]
fn timer_starts_lazily_and_expiry_loses_exactly_once() {
    let mut s = GameSession::new();
    s.configure_time_budget(60).unwrap();
    let _ = s.start_game("Alpha", "Omega");
    assert_eq!(s.remaining_time(1000), 60);
    assert_eq!(s.observe(1000), Phase::Playing);
    assert_eq!(s.remaining_time(1000), 60);
    assert_eq!(s.remaining_time(1030), 30);
    assert_eq!(s.observe(1059), Phase::Playing);
    assert_eq!(s.observe(1061), Phase::Lost);
    assert_eq!(s.phase(), Phase::Lost);
    assert_eq!(s.observe(1061), Phase::Lost);
    assert_eq!(s.observe(20_000), Phase::Lost);
    assert_eq!(s.current_location(), "Alpha");
    assert_eq!(s.remaining_time(1061), 0);
    assert_eq!(s.remaining_time(99_999), 0);
}

#[test]
fn reaching_destination_wins_and_late_observation_stays_won() {
    let mut s = GameSession::new();
    s.configure_time_budget(60).unwrap();
    let _ = s.start_game("Alpha", "Omega");
    assert_eq!(s.observe(100), Phase::Playing);
    let t = s.goto("Omega");
    assert!(t.is_some());
    assert_eq!(s.observe(110), Phase::Won);
    assert_eq!(s.current_location(), "Omega");
    assert_eq!(s.observe(10_000), Phase::Won);
    assert_eq!(s.phase(), Phase::Won);
}

#[test]
fn expiry_takes_priority_over_destination() {
    let mut s = GameSession::new();
    s.configure_time_budget(60).unwrap();
    let _ = s.start_game("Alpha", "Omega");
    assert_eq!(s.observe(0), Phase::Playing);
    let _ = s.goto("Omega");
    assert_eq!(s.observe(61), Phase::Lost);
    assert_eq!(s.observe(62), Phase::Lost);
}

#[test]
fn stale_commit_after_newer_commit_is_discarded() {
    let mut s = GameSession::new();
    let g1 = s.start_game("Alpha", "Omega");
    let g2 = s.goto("Beta").unwrap();
    assert_eq!(g2, g1 + 1);
    assert!(s.commit_fetch(g2, "Beta", String::from("beta body"), vec![String::from("Gamma")]));
    assert!(!s.commit_fetch(g1, "Alpha", String::from("alpha body"), vec![String::from("Beta")]));
    assert_eq!(s.fetched_content(), Some(String::from("beta body")));
    assert_eq!(s.fetched_links(), Some(vec![String::from("Gamma")]));
    assert!(!s.is_fetch_pending());
}

#[test]
fn superseded_fetch_is_discarded_before_newer_commit_too() {
    let mut s = GameSession::new();
    let g1 = s.start_game("Alpha", "Omega");
    let g2 = s.goto("Beta").unwrap();
    assert!(!s.commit_fetch(g1, "Alpha", String::from("alpha body"), vec![]));
    assert!(s.fetched_content().is_none());
    assert!(s.commit_fetch(g2, "Beta", String::from("beta body"), vec![]));
    assert_eq!(s.fetched_content(), Some(String::from("beta body")));
}

#[test]
fn duplicate_commit_is_discarded() {
    let mut s = GameSession::new();
    let g = s.start_game("Alpha", "Omega");
    assert!(s.commit_fetch(g, "Alpha", String::from("body"), vec![]));
    assert!(!s.commit_fetch(g, "Alpha", String::from("other body"), vec![]));
    assert_eq!(s.fetched_content(), Some(String::from("body")));
}

#[test]
fn commit_without_outstanding_fetch_is_discarded() {
    let mut s = GameSession::new();
    assert!(!s.commit_fetch(0, "X", String::from("x"), vec![]));
    assert!(!s.commit_fetch_error(1, FetchError::Io));
    assert_eq!(s.fetched_content(), None);
    assert_eq!(s.fetch_error(), None);
}

#[test]
fn back_and_forward_reuse_cached_pages_without_refetch() {
    let mut s = GameSession::new();
    let g1 = s.start_game("Alpha", "Omega");
    assert!(s.commit_fetch(g1, "Alpha", String::from("alpha body"), vec![String::from("Beta")]));
    let g2 = s.goto("Beta").unwrap();
    assert!(s.commit_fetch(g2, "Beta", String::from("beta body"), vec![]));
    let back = s.go_back().unwrap();
    assert!(back.is_none());
    assert!(!s.is_fetch_pending());
    assert_eq!(s.current_location(), "Alpha");
    assert_eq!(s.fetched_content(), Some(String::from("alpha body")));
    assert_eq!(s.fetched_links(), Some(vec![String::from("Beta")]));
    let forward = s.go_forward().unwrap();
    assert!(forward.is_none());
    assert_eq!(s.current_location(), "Beta");
    assert_eq!(s.fetched_content(), Some(String::from("beta body")));
}

#[test]
fn back_to_an_uncached_page_refetches_it() {
    let mut s = GameSession::new();
    let _g1 = s.start_game("Alpha", "Omega");
    let g2 = s.goto("Beta").unwrap();
    assert!(s.commit_fetch(g2, "Beta", String::from("beta body"), vec![]));
    let back = s.go_back().unwrap();
    let g3 = back.expect("Alpha was never committed, so it must be refetched");
    assert_eq!(g3, g2 + 1);
    assert!(s.is_fetch_pending());
    assert!(s.commit_fetch(g3, "Alpha", String::from("alpha body"), vec![]));
    assert_eq!(s.fetched_content(), Some(String::from("alpha body")));
}

#[test]
fn navigation_past_bounds_is_rejected() {
    let mut s = GameSession::new();
    let _ = s.start_game("Alpha", "Omega");
    assert!(s.go_back().is_err());
    assert!(s.go_forward().is_err());
    assert_eq!(s.current_location(), "Alpha");
}

#[test]
fn go_home_repushes_the_start_entry() {
    let mut s = GameSession::new();
    let g1 = s.start_game("Alpha", "Omega");
    assert!(s.commit_fetch(g1, "Alpha", String::from("alpha body"), vec![]));
    let g2 = s.goto("Beta").unwrap();
    assert!(s.commit_fetch(g2, "Beta", String::from("beta body"), vec![]));
    let home = s.go_home();
    assert!(home.is_none());
    assert_eq!(s.current_location(), "Alpha");
    assert_eq!(s.fetched_content(), Some(String::from("alpha body")));
    let back = s.go_back().unwrap();
    assert!(back.is_none());
    assert_eq!(s.current_location(), "Beta");
}

#[test]
fn each_fetch_error_kind_is_reported_and_cleared() {
    let mut s = GameSession::new();
    let g1 = s.start_game("Alpha", "Omega");
    assert!(s.commit_fetch_error(g1, FetchError::Unavailable));
    assert_eq!(s.fetch_error(), Some(FetchError::Unavailable));
    assert!(s.fetched_content().is_none());
    assert_eq!(s.observe(10), Phase::Playing);
    let g2 = s.goto("Alpha").unwrap();
    assert!(s.commit_fetch_error(g2, FetchError::Malformed));
    assert_eq!(s.fetch_error(), Some(FetchError::Malformed));
    let g3 = s.goto("Alpha").unwrap();
    assert!(s.commit_fetch_error(g3, FetchError::Io));
    assert_eq!(s.fetch_error(), Some(FetchError::Io));
    let g4 = s.goto("Alpha").unwrap();
    assert!(s.commit_fetch(g4, "Alpha", String::from("alpha body"), vec![]));
    assert_eq!(s.fetch_error(), None);
    assert_eq!(s.fetched_content(), Some(String::from("alpha body")));
}

#[test]
fn restart_gives_a_fresh_setup_session() {
    let mut s = GameSession::new();
    s.configure_time_budget(300).unwrap();
    let g = s.start_game("Alpha", "Omega");
    assert!(s.commit_fetch(g, "Alpha", String::from("alpha body"), vec![]));
    s.restart();
    assert_eq!(s.phase(), Phase::Setup);
    assert!(!s.is_started());
    assert_eq!(s.time_budget(), 120);
    assert_eq!(s.current_location(), "?");
    assert_eq!(s.destination(), None);
    assert_eq!(s.current_generation(), 0);
    assert!(!s.is_fetch_pending());
    assert_eq!(s.fetched_content(), None);
}
