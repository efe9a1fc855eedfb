use pet_cli::cursor::Cursor;

fn cursor_at(i: usize) -> Cursor {
    let mut c = Cursor::new();
    c.select(Some(i));
    c
}

#[test]
fn select_first_selects_index_zero() {
    let mut c = Cursor::new();
    assert_eq!(c.selected(), None);
    c.select_first();
    assert_eq!(c.selected(), Some(0));
}

#[test]
fn move_down_visits_every_index_once_then_repeats() {
    let n = 3;
    let mut c = cursor_at(0);
    let mut seen = Vec::new();
    for _ in 0..n {
        seen.push(c.selected().unwrap());
        c.move_down(n);
    }
    seen.sort();
    assert_eq!(seen, vec![0, 1, 2]);
    assert_eq!(c.selected(), Some(0));
}

#[test]
fn move_down_stays_in_bounds() {
    let n = 4;
    let mut c = cursor_at(1);
    for _ in 0..10 {
        c.move_down(n);
        let i = c.selected().unwrap();
        assert!(i < n);
    }
}

#[test]
fn move_down_wraps_from_last_to_first() {
    let mut c = cursor_at(2);
    c.move_down(3);
    assert_eq!(c.selected(), Some(0));
}

#[test]
fn move_up_wraps_from_first_to_last() {
    let mut c = cursor_at(0);
    c.move_up(3);
    assert_eq!(c.selected(), Some(2));
}

#[test]
fn move_up_inverts_move_down_everywhere() {
    let n = 5;
    for start in 0..n {
        let mut c = cursor_at(start);
        c.move_down(n);
        c.move_up(n);
        assert_eq!(c.selected(), Some(start));

        let mut c = cursor_at(start);
        c.move_up(n);
        c.move_down(n);
        assert_eq!(c.selected(), Some(start));
    }
}

#[test]
fn moves_on_empty_list_leave_cursor_unchanged() {
    let mut c = cursor_at(0);
    c.move_down(0);
    assert_eq!(c.selected(), Some(0));
    c.move_up(0);
    assert_eq!(c.selected(), Some(0));
}

#[test]
fn moves_with_cleared_cursor_do_nothing() {
    let mut c = Cursor::new();
    c.move_down(3);
    assert_eq!(c.selected(), None);
    c.move_up(3);
    assert_eq!(c.selected(), None);
}

#[test]
fn remove_adjust_clears_when_list_became_empty() {
    let mut c = cursor_at(0);
    c.remove_selected_adjust(0);
    assert_eq!(c.selected(), None);
}

#[test]
fn remove_adjust_clamps_to_top_when_records_remain() {
    let mut c = cursor_at(0);
    c.remove_selected_adjust(2);
    assert_eq!(c.selected(), Some(0));
}

#[test]
fn remove_adjust_steps_back_from_positive_index() {
    let mut c = cursor_at(2);
    c.remove_selected_adjust(4);
    assert_eq!(c.selected(), Some(1));
}

#[test]
fn remove_adjust_with_cleared_cursor_does_nothing() {
    let mut c = Cursor::new();
    c.remove_selected_adjust(3);
    assert_eq!(c.selected(), None);
}
