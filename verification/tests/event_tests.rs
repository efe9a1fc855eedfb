use pet_cli::event::{tick_timeout_millis, Event, Key};

#[test]
fn tick_timeout_is_the_remainder_of_the_interval() {
    assert_eq!(tick_timeout_millis(200, 0), 200);
    assert_eq!(tick_timeout_millis(200, 50), 150);
    assert_eq!(tick_timeout_millis(200, 199), 1);
}

#[test]
fn tick_timeout_clamps_to_zero_once_the_interval_elapsed() {
    assert_eq!(tick_timeout_millis(200, 200), 0);
    assert_eq!(tick_timeout_millis(200, 1000), 0);
}

#[test]
fn events_compare_by_their_content() {
    assert_eq!(Event::Input(Key::Char('a')), Event::Input(Key::Char('a')));
    assert_ne!(Event::Input(Key::Char('a')), Event::Input(Key::Char('d')));
    assert_ne!(Event::Input(Key::Up), Event::Tick);
}
