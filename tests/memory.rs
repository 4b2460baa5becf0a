use bot_core::memory::Memory;
use bot_core::planner::{GoalStatus, Planner};

#[test]
fn memory_keeps_ten_recent_items() {
    let mut m = Memory::new();
    for i in 0..12 {
        m.remember(&format!("fact {}", i), "user");
    }
    assert_eq!(m.short_term.len(), 10);
    assert_eq!(m.long_term.len(), 12);
    assert_eq!(m.short_term.front().unwrap().content, "fact 2");
    assert_eq!(m.last_facts(2), vec!["fact 11".to_string(), "fact 10".to_string()]);
    assert_eq!(m.last_facts(50).len(), 12);
    assert_eq!(m.find("fact 1").len(), 3);
    assert!(m.context_summary().starts_with("- fact 2 [user]\n- fact 3 [user]"));
}

#[test]
fn planner_tracks_step_progress() {
    let mut p = Planner::new();
    p.add_goal("learn rust", vec!["read", "write"]);
    p.add_goal("rest", vec![]);
    assert_eq!(p.active_goals().len(), 2);
    p.mark_step_done(0, 0);
    assert!(p.goals[0].status == GoalStatus::InProgress);
    p.mark_step_done(0, 1);
    assert!(p.goals[0].status == GoalStatus::Completed);
    assert_eq!(p.active_goals().len(), 1);
    p.mark_step_done(0, 9);
    assert!(p.goals[0].status == GoalStatus::Completed);
    p.mark_step_done(5, 0);
    assert_eq!(p.goals.len(), 2);
}
