use std::collections::HashMap;
use system_monitor::dashboard::{status_line, Dashboard, Frame, LoopControl, POLL_TIMEOUT_MS};
use system_monitor::snapshot::Snapshot;
use system_monitor::state::{AccessError, SystemState};
use system_monitor::view::{Command, DashboardView, Key};

fn idle_snapshot() -> Snapshot<f32> {
    Snapshot {
        cpu_usage: 1.5,
        cpu_cores: 2,
        used_memory: 10,
        total_memory: 20,
        used_swap: 0,
        total_swap: 0,
        disks: Vec::new(),
        networks: Vec::new(),
        processes: HashMap::new(),
    }
}

#[test]
fn dashboard_starts_on_the_overview() {
    let dashboard = Dashboard::new();
    assert_eq!(dashboard.current_view, DashboardView::Overview);
    assert!(!dashboard.should_quit);
}

#[test]
fn six_right_arrows_return_to_the_overview() {
    let mut dashboard = Dashboard::new();
    for _ in 0..6 {
        dashboard.handle_input(Key::Right);
    }
    assert_eq!(dashboard, Dashboard::new());
}

#[test]
fn left_arrow_on_the_overview_selects_processes() {
    let mut dashboard = Dashboard::new();
    dashboard.handle_input(Key::Left);
    assert_eq!(dashboard.current_view, DashboardView::Processes);
    assert!(!dashboard.should_quit);
}

#[test]
fn arrows_walk_the_ring_in_both_directions() {
    let mut dashboard = Dashboard::new();
    dashboard.handle_input(Key::Right);
    assert_eq!(dashboard.current_view, DashboardView::Cpu);
    dashboard.handle_input(Key::Right);
    assert_eq!(dashboard.current_view, DashboardView::Memory);
    dashboard.handle_input(Key::Left);
    assert_eq!(dashboard.current_view, DashboardView::Cpu);
    dashboard.apply(Command::Retreat);
    dashboard.apply(Command::Retreat);
    assert_eq!(dashboard.current_view, DashboardView::Processes);
    dashboard.apply(Command::Advance);
    assert_eq!(dashboard.current_view, DashboardView::Overview);
}

#[test]
fn other_keys_are_ignored() {
    let mut dashboard = Dashboard::new();
    dashboard.handle_input(Key::Right);
    let before = dashboard;
    dashboard.handle_input(Key::Other);
    dashboard.handle_input(Key::Char('x'));
    dashboard.handle_input(Key::Char('Q'));
    assert_eq!(dashboard, before);
}

#[test]
fn q_sets_the_quit_flag_and_keeps_the_view() {
    let mut dashboard = Dashboard::new();
    dashboard.handle_input(Key::Right);
    dashboard.handle_input(Key::Char('q'));
    assert!(dashboard.should_quit);
    assert_eq!(dashboard.current_view, DashboardView::Cpu);
}

#[test]
fn nothing_changes_after_quit() {
    let mut dashboard = Dashboard::new();
    dashboard.handle_input(Key::Left);
    dashboard.handle_input(Key::Char('q'));
    let quit = dashboard;
    dashboard.handle_input(Key::Right);
    dashboard.handle_input(Key::Left);
    dashboard.handle_input(Key::Left);
    dashboard.handle_input(Key::Char('q'));
    dashboard.apply(Command::Advance);
    assert_eq!(dashboard, quit);
    assert_eq!(dashboard.current_view, DashboardView::Processes);
    assert_eq!(dashboard.step(Some(Key::Right)), LoopControl::Exit);
    assert_eq!(dashboard, quit);
}

#[test]
fn step_continues_until_quit() {
    let mut dashboard = Dashboard::new();
    assert_eq!(dashboard.step(None), LoopControl::Continue);
    assert_eq!(dashboard, Dashboard::new());
    assert_eq!(dashboard.step(Some(Key::Right)), LoopControl::Continue);
    assert_eq!(dashboard.current_view, DashboardView::Cpu);
    assert_eq!(dashboard.step(Some(Key::Other)), LoopControl::Continue);
    assert_eq!(dashboard.step(Some(Key::Char('q'))), LoopControl::Exit);
    assert_eq!(dashboard.step(None), LoopControl::Exit);
}

#[test]
fn run_stops_at_the_first_quit() {
    let mut dashboard = Dashboard::new();
    let events = vec![
        None,
        Some(Key::Right),
        None,
        Some(Key::Right),
        Some(Key::Char('q')),
        Some(Key::Right),
        Some(Key::Left),
    ];
    assert_eq!(dashboard.run(&events), 5);
    assert!(dashboard.should_quit);
    assert_eq!(dashboard.current_view, DashboardView::Memory);
}

#[test]
fn run_goes_through_all_events_without_quit() {
    let mut dashboard = Dashboard::new();
    let events = vec![Some(Key::Left), None, Some(Key::Left), Some(Key::Other)];
    assert_eq!(dashboard.run(&events), 4);
    assert!(!dashboard.should_quit);
    assert_eq!(dashboard.current_view, DashboardView::Network);
    assert_eq!(dashboard.run(&Vec::new()), 0);
    assert_eq!(dashboard.current_view, DashboardView::Network);
}

#[test]
fn run_draws_nothing_once_quit() {
    let mut dashboard = Dashboard::new();
    assert_eq!(dashboard.run(&vec![Some(Key::Char('q'))]), 1);
    assert_eq!(dashboard.run(&vec![Some(Key::Right), None]), 0);
    assert_eq!(dashboard.current_view, DashboardView::Overview);
}

#[test]
fn a_readable_state_gives_a_frame_of_the_selected_view() {
    let mut state = SystemState::new(idle_snapshot());
    state.update(idle_snapshot());
    let mut dashboard = Dashboard::new();
    dashboard.handle_input(Key::Right);
    match dashboard.frame(Ok(&state)) {
        Frame::Ready { view, seen } => {
            assert_eq!(view, DashboardView::Cpu);
            assert_eq!(*seen.snapshot, idle_snapshot());
            assert_eq!(seen.cpu_history.as_sequence(), vec![1.5]);
            assert_eq!(seen.memory_history.as_sequence(), vec![(10, 20)]);
            assert_eq!(seen.network_history.as_sequence(), vec![(0, 0)]);
        }
        Frame::Unavailable { .. } => panic!("the state was readable"),
    }
}

#[test]
fn a_poisoned_state_gives_an_error_frame_and_the_loop_goes_on() {
    let mut dashboard = Dashboard::new();
    dashboard.handle_input(Key::Left);
    match dashboard.frame::<f32>(Err(AccessError::Poisoned)) {
        Frame::Unavailable { view, error } => {
            assert_eq!(view, DashboardView::Processes);
            assert_eq!(error, AccessError::Poisoned);
            assert_eq!(error.message(), "Error: Could not access system state.");
        }
        Frame::Ready { .. } => panic!("the state was not readable"),
    }
    assert_eq!(dashboard.step(None), LoopControl::Continue);
    assert_eq!(dashboard.step(Some(Key::Right)), LoopControl::Continue);
    assert_eq!(dashboard.current_view, DashboardView::Overview);
    let state = SystemState::new(idle_snapshot());
    assert!(matches!(dashboard.frame(Ok(&state)), Frame::Ready { .. }));
}

#[test]
fn poll_timeout_is_a_tenth_of_a_second() {
    assert_eq!(POLL_TIMEOUT_MS, 100);
}

#[test]
fn status_line_names_the_keys() {
    assert_eq!(status_line(), "Press 'q' to quit, arrow keys to navigate");
}
