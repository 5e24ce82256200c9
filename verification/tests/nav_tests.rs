use stems::nav::{Column, NavAction, NavState};

#[test]
fn test_cursor_walks_sections_down_and_up() {
    // Two input tracks, one playback track, then the mix row.
    let mut nav = NavState::new();
    assert_eq!(nav.selected_track, 0);

    assert_eq!(nav.move_down(2, 1), NavAction::Navigate);
    assert_eq!(nav.selected_track, 1);

    // Leaving the input section from the Arm column lands on Monitor.
    nav.move_down(2, 1);
    assert!(nav.in_playback_section);
    assert_eq!(nav.selected_playback_track, 0);
    assert_eq!(nav.selected_column, Column::Monitor);

    nav.move_down(2, 1);
    assert!(nav.selected_on_mix_row);
    assert_eq!(nav.selected_column, Column::Arm);

    // The mix row is the end of the table.
    nav.move_down(2, 1);
    assert!(nav.selected_on_mix_row);

    // And back up through every section.
    nav.move_up(2, 1);
    assert!(nav.in_playback_section);
    nav.move_up(2, 1);
    assert!(!nav.in_playback_section && !nav.selected_on_mix_row);
    assert_eq!(nav.selected_track, 1);
}

#[test]
fn test_cursor_skips_playback_when_none_loaded() {
    let mut nav = NavState::new();
    nav.move_down(1, 0);
    assert!(nav.selected_on_mix_row);
    nav.move_up(1, 0);
    assert!(!nav.selected_on_mix_row);
    assert_eq!(nav.selected_track, 0);
}

#[test]
fn test_columns_step_and_stop_at_edges() {
    let mut nav = NavState::new();
    assert_eq!(nav.selected_column, Column::Arm);
    nav.move_left();
    assert_eq!(nav.selected_column, Column::Arm);
    nav.move_right();
    assert_eq!(nav.selected_column, Column::Monitor);
    nav.jump_to_rightmost();
    assert_eq!(nav.selected_column, Column::Pan);
    nav.move_right();
    assert_eq!(nav.selected_column, Column::Pan);
    nav.jump_to_leftmost();
    assert_eq!(nav.selected_column, Column::Arm);
}

#[test]
fn test_edit_mode_turns_arrows_into_value_steps() {
    let mut nav = NavState::new();
    nav.selected_column = Column::Level;
    nav.set_edit_mode(true);
    assert_eq!(nav.move_up(4, 0), NavAction::IncreaseLevel);
    assert_eq!(nav.move_down(4, 0), NavAction::DecreaseLevel);
    nav.selected_column = Column::Pan;
    assert_eq!(nav.move_left(), NavAction::PanLeft);
    assert_eq!(nav.move_right(), NavAction::PanRight);
    // The cursor itself does not move while editing.
    assert_eq!(nav.selected_track, 0);
}

#[test]
fn test_jumps() {
    let mut nav = NavState::new();
    nav.jump_to_last();
    assert!(nav.selected_on_mix_row);
    nav.jump_up_5(12);
    assert!(!nav.selected_on_mix_row);
    assert_eq!(nav.selected_track, 6);
    nav.jump_to_first();
    assert_eq!(nav.selected_track, 0);
    nav.jump_down_5(12);
    assert_eq!(nav.selected_track, 5);
    nav.jump_down_5(12);
    assert_eq!(nav.selected_track, 10);
    // Past the last track, the jump lands on the mix row.
    nav.jump_down_5(12);
    assert!(nav.selected_on_mix_row);
}
