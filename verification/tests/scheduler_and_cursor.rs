use tui_counter::{Action, Home, ListCursor, MenuItem, Mode, ScheduleRequest, SCHEDULE_DELAY_SECS};

#[test]
fn scheduled_increment_runs_its_bracket() {
    let mut home = Home::new();
    assert_eq!(home.mode, Mode::Normal);
    let out = home.update(Action::ScheduleIncrement);
    let request = out.schedule.expect("a schedule request in Normal mode");
    assert_eq!(request, ScheduleRequest { amount: 1, increase: true });
    // The driver folds the first bracket action at once.
    let (first, payload, last) = request.bracket();
    home.update(first);
    assert_eq!(home.mode, Mode::Processing);
    assert_eq!(home.counter, 0);
    // After the fixed delay the task sends the payload and the closer.
    home.update(payload);
    home.update(last);
    assert_eq!(home.counter, 1);
    assert_eq!(home.mode, Mode::Normal);
}

#[test]
fn scheduled_decrement_runs_its_bracket() {
    let mut home = Home::new();
    home.update(Action::Increment(4));
    let out = home.update(Action::ScheduleDecrement);
    let request = out.schedule.expect("a schedule request in Normal mode");
    assert_eq!(request, ScheduleRequest { amount: 1, increase: false });
    let (first, payload, last) = request.bracket();
    home.update(first);
    assert_eq!(home.mode, Mode::Processing);
    home.update(payload);
    home.update(last);
    assert_eq!(home.counter, 3);
    assert_eq!(home.mode, Mode::Normal);
}

#[test]
fn bracket_shape() {
    let up = ScheduleRequest { amount: 7, increase: true };
    let (first, payload, last) = up.bracket();
    assert!(matches!(first, Action::EnterProcessing));
    assert!(matches!(payload, Action::Increment(7)));
    assert!(matches!(last, Action::ExitProcessing));
    let down = ScheduleRequest { amount: 2, increase: false };
    let (_, payload, _) = down.bracket();
    assert!(matches!(payload, Action::Decrement(2)));
}

#[test]
fn schedule_delay_is_one_second() {
    assert_eq!(SCHEDULE_DELAY_SECS, 1);
}

#[test]
fn counter_moves_drive_the_list_cursor() {
    let mut home = Home::new();
    assert!(home.text_list_state.selected.is_none());
    home.update(Action::Increment(1));
    assert_eq!(home.text_list_state.selected, Some(0));
    home.update(Action::Increment(1));
    assert_eq!(home.text_list_state.selected, Some(1));
    home.update(Action::Decrement(1));
    assert_eq!(home.text_list_state.selected, Some(0));
    home.update(Action::Decrement(1));
    assert_eq!(home.text_list_state.selected, Some(0));
}

#[test]
fn cursor_previous_from_nothing_picks_the_end() {
    let mut cursor = ListCursor { selected: None };
    cursor.select_previous();
    assert_eq!(cursor.selected, Some(usize::MAX));
}

#[test]
fn cursor_next_saturates() {
    let mut cursor = ListCursor { selected: Some(usize::MAX) };
    cursor.select_next();
    assert_eq!(cursor.selected, Some(usize::MAX));
}

#[test]
fn tab_navigation_clamps_at_both_ends() {
    let mut home = Home::new();
    assert_eq!(home.selected_tab, MenuItem::Zones);
    home.previous_tab();
    assert_eq!(home.selected_tab, MenuItem::Zones);
    home.next_tab();
    assert_eq!(home.selected_tab, MenuItem::Sensors);
    home.next_tab();
    home.next_tab();
    home.next_tab();
    assert_eq!(home.selected_tab, MenuItem::Misc);
    home.next_tab();
    assert_eq!(home.selected_tab, MenuItem::Misc);
    home.previous_tab();
    assert_eq!(home.selected_tab, MenuItem::IO);
}
