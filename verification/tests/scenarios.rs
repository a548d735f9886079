use chrono::NaiveDate;
use garbage_app::catalog::{lookup, BinCategory};
use garbage_app::command::Command;
use garbage_app::controller::InteractionController;
use garbage_app::mode::Mode;
use garbage_app::selection::SelectionState;

fn day(year: i32, month: u32, day: u32) -> NaiveDate {
    NaiveDate::from_ymd_opt(year, month, day).unwrap()
}

fn state(mode: Mode, date: NaiveDate, bin: Option<usize>) -> InteractionController {
    InteractionController::from_parts(mode, SelectionState::new(date, bin))
}

#[test]
fn edit_session_walks_through_every_command() {
    let start = state(Mode::Browsing, day(2024, 5, 1), Some(0));
    assert_eq!(start, InteractionController::new(day(2024, 5, 1)));

    let editing = start.apply(Command::StartEdit);
    assert_eq!(editing, state(Mode::Editing, day(2024, 5, 1), Some(0)));

    let bin_chosen = editing.apply(Command::SelectBin(2));
    assert_eq!(bin_chosen, state(Mode::Editing, day(2024, 5, 1), Some(2)));

    let date_chosen = bin_chosen.apply(Command::SelectDate(day(2024, 5, 15)));
    assert_eq!(date_chosen, state(Mode::Editing, day(2024, 5, 15), Some(2)));

    let done = date_chosen.apply(Command::StopEdit);
    assert_eq!(done, state(Mode::Browsing, day(2024, 5, 15), Some(2)));
    assert_eq!(done.mode(), Mode::Browsing);
    assert_eq!(done.selection().current_date(), day(2024, 5, 15));
    assert_eq!(done.selection().current_bin_index(), Some(2));
}

#[test]
fn submitting_a_reminder_while_editing_changes_nothing() {
    let editing = state(Mode::Editing, day(2024, 5, 1), Some(1));
    let after = editing.apply(Command::SubmitReminder(String::from("take out trash")));
    assert_eq!(after.mode(), Mode::Editing);
    assert_eq!(after.selection(), editing.selection());
    assert_eq!(after, editing);
}

#[test]
fn submitting_a_reminder_while_browsing_changes_nothing() {
    let browsing = state(Mode::Browsing, day(2023, 12, 31), None);
    let after = browsing.apply(Command::SubmitReminder(String::from("paper on friday")));
    assert_eq!(after, browsing);
}

#[test]
fn submitting_an_empty_reminder_is_accepted() {
    let editing = state(Mode::Editing, day(2024, 2, 29), Some(2));
    let after = editing.apply(Command::SubmitReminder(String::new()));
    assert_eq!(after, editing);
}

#[test]
fn selecting_the_second_bin_resolves_to_the_second_entry() {
    let start = InteractionController::new(day(2024, 5, 1));
    let after = start.apply(Command::SelectBin(1));
    let category = after.selection().resolved_bin_category();
    assert_eq!(category.icon_key(), "groen.png");
    assert_eq!(category.icon_key(), lookup(1).icon_key());
    assert_eq!(category, BinCategory::Green);
    assert_eq!(after.snapshot().bin_category, BinCategory::Green);
}

#[test]
fn start_edit_twice_is_start_edit_once() {
    for mode in [Mode::Browsing, Mode::Editing] {
        for bin in [None, Some(0), Some(2)] {
            let s = state(mode, day(2024, 5, 1), bin);
            let once = s.apply(Command::StartEdit);
            let twice = once.apply(Command::StartEdit);
            assert_eq!(once.mode(), Mode::Editing);
            assert_eq!(twice.mode(), Mode::Editing);
            assert_eq!(twice, once);
        }
    }
}

#[test]
fn stop_edit_twice_is_stop_edit_once() {
    for mode in [Mode::Browsing, Mode::Editing] {
        let s = state(mode, day(2024, 5, 1), Some(1));
        let once = s.apply(Command::StopEdit);
        let twice = once.apply(Command::StopEdit);
        assert_eq!(once.mode(), Mode::Browsing);
        assert_eq!(twice, once);
    }
}

#[test]
fn entering_and_leaving_edit_mode_gives_the_state_back() {
    for bin in [None, Some(0), Some(1), Some(2)] {
        let s = state(Mode::Browsing, day(2024, 7, 9), bin);
        let back = s.apply(Command::StartEdit).apply(Command::StopEdit);
        assert_eq!(back, s);
        assert_eq!(back.selection(), s.selection());
    }
}

#[test]
fn mode_commands_leave_the_selection_alone() {
    let s = state(Mode::Editing, day(2024, 7, 9), Some(2));
    assert_eq!(s.apply(Command::StartEdit).selection(), s.selection());
    assert_eq!(s.apply(Command::StopEdit).selection(), s.selection());
}

#[test]
fn selecting_a_date_works_alike_in_both_modes() {
    let target = day(2025, 1, 31);
    let browsing = state(Mode::Browsing, day(2024, 5, 1), Some(1));
    let editing = state(Mode::Editing, day(2024, 5, 1), Some(1));

    let from_browsing = browsing.apply(Command::SelectDate(target));
    let from_editing = editing.apply(Command::SelectDate(target));

    assert_eq!(from_browsing.selection().current_date(), target);
    assert_eq!(from_editing.selection().current_date(), target);
    assert_eq!(from_browsing.selection(), from_editing.selection());
    assert_eq!(from_browsing.mode(), Mode::Browsing);
    assert_eq!(from_editing.mode(), Mode::Editing);
    assert_eq!(from_browsing.selection().current_bin_index(), Some(1));
}

#[test]
fn selecting_a_bin_works_alike_in_both_modes() {
    for mode in [Mode::Browsing, Mode::Editing] {
        for index in 0..3 {
            let s = state(mode, day(2024, 5, 1), Some(0));
            let after = s.apply(Command::SelectBin(index));
            assert_eq!(after.mode(), mode);
            assert_eq!(after.selection().current_date(), day(2024, 5, 1));
            assert_eq!(after.selection().current_bin_index(), Some(index));
            assert_eq!(after.selection().resolved_bin_category().index(), index);
        }
    }
}

#[test]
fn a_bin_index_outside_the_catalog_is_stored_and_masked() {
    let s = InteractionController::new(day(2024, 5, 1));
    assert!(s.is_well_formed());
    let after = s.apply(Command::SelectBin(7));
    assert_eq!(after.selection().current_bin_index(), Some(7));
    assert!(!after.is_well_formed());
    assert_eq!(after.selection().resolved_bin_category(), BinCategory::Grey);
    assert_eq!(after.snapshot().bin_category.icon_key(), "grijs.png");
}

#[test]
fn admissible_commands_keep_the_invariant() {
    let mut s = InteractionController::new(day(2024, 5, 1));
    let commands = vec![
        Command::StartEdit,
        Command::SelectBin(2),
        Command::SelectDate(day(2024, 6, 1)),
        Command::SubmitReminder(String::from("glass")),
        Command::SelectBin(0),
        Command::StopEdit,
    ];
    for command in commands {
        assert!(command.is_admissible());
        s = s.apply(command);
        assert!(s.is_well_formed());
    }
    assert_eq!(s, state(Mode::Browsing, day(2024, 6, 1), Some(0)));
}

#[test]
fn selecting_a_date_and_changing_the_mode_commute() {
    let target = day(2024, 11, 30);
    for mode in [Mode::Browsing, Mode::Editing] {
        let s = state(mode, day(2024, 5, 1), Some(2));
        assert_eq!(
            s.apply(Command::StartEdit).apply(Command::SelectDate(target)),
            s.apply(Command::SelectDate(target)).apply(Command::StartEdit)
        );
        assert_eq!(
            s.apply(Command::StopEdit).apply(Command::SelectDate(target)),
            s.apply(Command::SelectDate(target)).apply(Command::StopEdit)
        );
    }
}
