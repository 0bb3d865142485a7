use talist::help::help_entries;
use talist::ticket::current_ticket;
use talist::ticket::make_ticket;
use talist::ticket::placeholder_ticket;
use talist::ticket::ticket_titles;
use talist::ticket::with_placeholder;
use talist::ticket::Ticket;
use talist::timer::poll_timeout_ms;
use talist::timer::tick_due;
use talist::timer::TICK_INTERVAL_MS;

fn sample(task: &str, board: &str) -> Ticket {
    make_ticket(task.to_string(), board.to_string(), "2024-01-02 03:04:05 UTC".to_string())
}

#[test]
fn empty_fetch_becomes_single_placeholder() {
    // A board with zero stored rows yields exactly one row: every field
    // empty except the owning board's name. Never an empty list.
    let out = with_placeholder(Vec::new(), "Work");
    assert_eq!(out.len(), 1);
    let t = &out[0];
    assert_eq!(t.board, "Work");
    assert_eq!(t.task, "");
    assert_eq!(t.description, "");
    assert_eq!(t.category, "");
    assert_eq!(t.priority, "");
    assert_eq!(t.created_date, "");
    assert_eq!(t.due_date, "");
    assert_eq!(t.finished_date, "");
    assert_eq!(t.duration, "");
}

#[test]
fn non_empty_fetch_passes_through_unchanged() {
    let rows = vec![sample("A", "Work"), sample("B", "Work")];
    let expect = vec![sample("A", "Work"), sample("B", "Work")];
    let out = with_placeholder(rows, "Work");
    assert_eq!(out, expect);
}

#[test]
fn placeholder_ticket_matches_policy() {
    let t = placeholder_ticket("Home");
    assert_eq!(t, make_ticket(String::new(), "Home".to_string(), String::new()));
}

#[test]
fn make_ticket_fills_only_task_board_created() {
    let t = sample("Call Ann", "Home");
    assert_eq!(t.task, "Call Ann");
    assert_eq!(t.board, "Home");
    assert_eq!(t.created_date, "2024-01-02 03:04:05 UTC");
    assert_eq!(t.description, "");
    assert_eq!(t.category, "");
    assert_eq!(t.priority, "");
    assert_eq!(t.due_date, "");
    assert_eq!(t.finished_date, "");
    assert_eq!(t.duration, "");
}

#[test]
fn current_ticket_follows_selection() {
    let rows = vec![sample("A", "W"), sample("B", "W"), sample("C", "W")];
    assert_eq!(current_ticket(&rows, 0).task, "A");
    assert_eq!(current_ticket(&rows, 2).task, "C");
}

#[test]
fn current_ticket_stale_selection_resolves_to_first_row() {
    // A selection left over from a longer list resolves to the top of
    // the fresh list instead of reading out of bounds.
    let rows = vec![sample("X", "Home")];
    assert_eq!(current_ticket(&rows, 2).task, "X");
}

#[test]
fn titles_project_tasks_in_order() {
    let rows = vec![sample("A", "W"), sample("B", "W"), sample("C", "W")];
    assert_eq!(ticket_titles(&rows), vec!["A", "B", "C"]);
    let none: Vec<Ticket> = Vec::new();
    assert_eq!(ticket_titles(&none), Vec::<String>::new());
}

#[test]
fn help_legend_is_structured_pairs() {
    let entries = help_entries();
    let got: Vec<(String, String)> =
        entries.into_iter().map(|e| (e.keys, e.action)).collect();
    assert_eq!(
        got,
        vec![
            ("h/l".to_string(), "Switch Board".to_string()),
            ("a".to_string(), "Add Ticket".to_string()),
            ("d".to_string(), "Delete Ticket".to_string()),
            ("q".to_string(), "Quit".to_string()),
            ("?".to_string(), "Full Help Menu".to_string()),
        ]
    );
}

#[test]
fn poll_timeout_is_remainder_of_interval() {
    assert_eq!(poll_timeout_ms(0, TICK_INTERVAL_MS), 200);
    assert_eq!(poll_timeout_ms(150, TICK_INTERVAL_MS), 50);
    assert_eq!(poll_timeout_ms(200, TICK_INTERVAL_MS), 0);
    assert_eq!(poll_timeout_ms(999, TICK_INTERVAL_MS), 0);
}

#[test]
fn tick_is_due_once_interval_elapsed() {
    assert!(!tick_due(0, TICK_INTERVAL_MS));
    assert!(!tick_due(199, TICK_INTERVAL_MS));
    assert!(tick_due(200, TICK_INTERVAL_MS));
    assert!(tick_due(1000, TICK_INTERVAL_MS));
}
