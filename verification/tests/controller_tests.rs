use pet_cli::controller::App;
use pet_cli::data::{Pet, Store};
use pet_cli::error::AppError;
use pet_cli::event::{Event, Key};
use pet_cli::ui::MenuItem;

fn sample_pet(id: usize, name: &str) -> Pet {
    Pet {
        id,
        name: String::from(name),
        category: String::from("dogs"),
        age: 5,
        created_at: String::from("2021-06-01T10:00:00+00:00"),
    }
}

fn app_with(records: Vec<Pet>) -> App {
    App::new(Store::from_records(records))
}

#[test]
fn startup_selects_first_home_tab_running() {
    let app = app_with(vec![sample_pet(1, "Alfie")]);
    assert_eq!(app.selected(), Some(0));
    assert!(matches!(app.active_tab(), MenuItem::Home));
    assert!(app.is_running());
}

#[test]
fn quit_key_ends_the_session() {
    let mut app = app_with(vec![]);
    let r = app.handle_event(Event::Input(Key::Char('q')));
    assert_eq!(r, Ok(()));
    assert!(!app.is_running());
}

#[test]
fn navigation_keys_switch_tabs() {
    let mut app = app_with(vec![]);
    assert_eq!(app.handle_event(Event::Input(Key::Char('p'))), Ok(()));
    assert!(matches!(app.active_tab(), MenuItem::Pets));
    assert_eq!(app.handle_event(Event::Input(Key::Char('h'))), Ok(()));
    assert!(matches!(app.active_tab(), MenuItem::Home));
}

#[test]
fn tick_and_unbound_keys_change_nothing() {
    let mut app = app_with(vec![sample_pet(1, "Alfie")]);
    for ev in [
        Event::Tick,
        Event::Input(Key::Other),
        Event::Input(Key::Char('x')),
    ] {
        assert_eq!(app.handle_event(ev), Ok(()));
        assert_eq!(app.record_count(), 1);
        assert_eq!(app.selected(), Some(0));
        assert!(matches!(app.active_tab(), MenuItem::Home));
        assert!(app.is_running());
    }
}

#[test]
fn add_key_appends_without_touching_cursor_or_tab() {
    let mut app = app_with(vec![sample_pet(1, "Alfie")]);
    assert_eq!(app.handle_event(Event::Input(Key::Char('a'))), Ok(()));
    assert_eq!(app.record_count(), 2);
    assert_eq!(app.selected(), Some(0));
    let records = app.read_db();
    assert_eq!(records[0], sample_pet(1, "Alfie"));
    assert!(records[1].category == "cats" || records[1].category == "dogs");
}

#[test]
fn delete_key_with_out_of_range_cursor_reports_index_error() {
    let mut app = app_with(vec![]);
    // Startup leaves Some(0) selected over an empty store.
    let r = app.handle_event(Event::Input(Key::Char('d')));
    assert_eq!(r, Err(AppError::Index));
    assert_eq!(app.record_count(), 0);
    assert_eq!(app.selected(), Some(0));
}

#[test]
fn delete_of_sole_record_clears_the_selection() {
    let mut app = app_with(vec![sample_pet(1, "Alfie")]);
    assert_eq!(app.handle_event(Event::Input(Key::Char('d'))), Ok(()));
    assert_eq!(app.record_count(), 0);
    assert_eq!(app.selected(), None);
}

#[test]
fn down_key_over_empty_store_keeps_cursor_unchanged() {
    let mut app = app_with(vec![]);
    assert_eq!(app.handle_event(Event::Input(Key::Down)), Ok(()));
    assert_eq!(app.selected(), Some(0));
    assert_eq!(app.record_count(), 0);
}

#[test]
fn up_and_down_keys_wrap_over_the_list() {
    let mut app = app_with(vec![sample_pet(1, "Alfie"), sample_pet(2, "Bella")]);
    assert_eq!(app.handle_event(Event::Input(Key::Down)), Ok(()));
    assert_eq!(app.selected(), Some(1));
    assert_eq!(app.handle_event(Event::Input(Key::Down)), Ok(()));
    assert_eq!(app.selected(), Some(0));
    assert_eq!(app.handle_event(Event::Input(Key::Up)), Ok(()));
    assert_eq!(app.selected(), Some(1));
}

#[test]
fn three_adds_two_downs_one_delete_then_quit() {
    let mut app = app_with(vec![]);
    for _ in 0..3 {
        assert_eq!(app.handle_event(Event::Input(Key::Char('a'))), Ok(()));
    }
    assert_eq!(app.record_count(), 3);
    assert_eq!(app.selected(), Some(0));
    assert_eq!(app.handle_event(Event::Input(Key::Down)), Ok(()));
    assert_eq!(app.handle_event(Event::Input(Key::Down)), Ok(()));
    assert_eq!(app.selected(), Some(2));
    assert_eq!(app.handle_event(Event::Input(Key::Char('d'))), Ok(()));
    assert_eq!(app.record_count(), 2);
    assert_eq!(app.selected(), Some(1));
    assert_eq!(app.handle_event(Event::Input(Key::Char('q'))), Ok(()));
    assert!(!app.is_running());
}
