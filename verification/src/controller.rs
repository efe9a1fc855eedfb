//! The controller: owns all cross-frame state — the store image, the
//! selection cursor, the active tab and the run state — and dispatches one
//! event at a time. The loop around it, which blocks for the next event,
//! persists the store and draws the composed frame, lives outside the
//! library and performs no decision of its own.

use vstd::prelude::*;
use crate::cursor::Cursor;
use crate::cursor::next_down;
use crate::cursor::next_up;
use crate::data::Pet;
use crate::data::Store;
use crate::data::is_generated_pet;
use crate::error::AppError;
use crate::event::Event;
use crate::event::Key;
use crate::ui::Frame;
use crate::ui::MenuItem;
use crate::ui::compose_frame;
use crate::ui::spec_detail;
use crate::ui::Body;

verus! {

/// Whether the session keeps running or is about to end.
#[derive(Clone, Copy, Debug, PartialEq, Eq, Structural)]
pub enum RunState {
    Running,
    Exiting,
}

/// The controller's state, as the contracts see it.
pub ghost struct AppView {
    pub records: Seq<Pet>,
    pub sel: Option<usize>,
    pub active: MenuItem,
    pub run: RunState,
}

/// The controller. It is the only owner of the cursor, the active tab and
/// the run state; the store image changes only through the events it
/// dispatches.
pub struct App {
    store: Store,
    cursor: Cursor,
    active: MenuItem,
    run_state: RunState,
}

impl View for App {
    type V = AppView;

    closed spec fn view(&self) -> AppView {
        AppView {
            records: self.store@,
            sel: self.cursor@,
            active: self.active,
            run: self.run_state,
        }
    }
}

impl App {
    /// The startup state over the given store: the first position selected
    /// — even over an empty store, where that selection is out of bounds by
    /// construction — the home tab active, the session running.
    pub fn new(store: Store) -> (app: App)
        ensures
            app@.records == store@,
            app@.sel == Some(0usize),
            app@.active is Home,
            app@.run is Running,
    {
        let mut cursor = Cursor::new();
        cursor.select_first();
        App { store, cursor, active: MenuItem::Home, run_state: RunState::Running }
    }

    /// Whether the loop should continue.
    pub fn is_running(&self) -> (b: bool)
        ensures
            b == (self@.run is Running),
    {
        matches!(self.run_state, RunState::Running)
    }

    /// The selected index, if any.
    pub fn selected(&self) -> (r: Option<usize>)
        ensures
            r == self@.sel,
    {
        self.cursor.selected()
    }

    /// The active tab.
    pub fn active_tab(&self) -> (r: MenuItem)
        ensures
            r == self@.active,
    {
        self.active
    }

    /// How many records the store holds.
    pub fn record_count(&self) -> (n: usize)
        ensures
            n == self@.records.len(),
    {
        self.store.len()
    }

    /// Re-read the whole collection, as every query does: a copy of every
    /// record, in insertion order.
    pub fn read_db(&self) -> (r: Vec<Pet>)
        ensures
            r@ == self@.records,
    {
        self.store.read_db()
    }

    /// Compose the frame for the current state; pure, called before every
    /// blocking wait for the next event.
    pub fn compose(&self) -> (f: Frame)
        ensures
            f.titles@.len() == 5,
            f.active_tab == self@.active.spec_tab_index(),
            f.footer@ == "pet-CLI 2021 - all rights reserved"@,
            self@.active is Home ==> f.body is Home,
            self@.active is Pets ==> (f.body matches Body::Pets { names, detail } && names@.len()
                == self@.records.len() && (forall|i: int|
                0 <= i < self@.records.len() ==> #[trigger] names@[i]@
                    == self@.records[i].name@) && detail == spec_detail(self@.records, self@.sel)),
    {
        let records = self.store.read_db();
        compose_frame(self.active, &records, &self.cursor)
    }

    /// Delete the currently selected record, if any, then re-aim the
    /// cursor for the shortened list. A selection beyond the end of the
    /// list is rejected as a positional failure and changes nothing.
    pub fn delete_selected(&mut self) -> (r: Result<(), AppError>)
        ensures
            final(self)@.active == old(self)@.active,
            final(self)@.run == old(self)@.run,
            old(self)@.sel is None ==> r is Ok && final(self)@ == old(self)@,
            old(self)@.sel matches Some(i) ==> ((i < old(self)@.records.len()
                ==> r is Ok
                    && final(self)@.records == old(self)@.records.remove(i as int)
                    && (i > 0 ==> final(self)@.sel == Some((i - 1) as usize))
                    && (i == 0 && old(self)@.records.len() == 1 ==> final(self)@.sel is None)
                    && (i == 0 && old(self)@.records.len() > 1 ==> final(self)@.sel == Some(0usize)))
                && (i >= old(self)@.records.len()
                ==> r == Err::<(), AppError>(AppError::Index) && final(self)@ == old(self)@)),
    {
        match self.cursor.selected() {
            Some(index) => {
                let res = self.store.remove_pet_at_index(index);
                match res {
                    Ok(_) => {
                        let n = self.store.len();
                        self.cursor.remove_selected_adjust(n);
                        Ok(())
                    },
                    Err(e) => Err(e),
                }
            },
            None => Ok(()),
        }
    }

    /// Dispatch one event: navigation keys switch the tab, `a` appends a
    /// random record, `d` deletes the selected one, the arrows move the
    /// selection over the freshly read list length, `q` ends the session,
    /// a tick and every unbound key change nothing.
    pub fn handle_event(&mut self, ev: Event) -> (r: Result<(), AppError>)
        ensures
            ev is Tick ==> r is Ok && final(self)@ == old(self)@,
            ev == Event::Input(Key::Other) ==> r is Ok && final(self)@ == old(self)@,
            ev matches Event::Input(Key::Char(c)) ==> ((c != 'q' && c != 'h' && c != 'p' && c != 'a'
                && c != 'd') ==> r is Ok && final(self)@ == old(self)@),
            ev == Event::Input(Key::Char('q')) ==> r is Ok && final(self)@ == (AppView {
                run: RunState::Exiting,
                ..old(self)@
            }),
            ev == Event::Input(Key::Char('h')) ==> r is Ok && final(self)@ == (AppView {
                active: MenuItem::Home,
                ..old(self)@
            }),
            ev == Event::Input(Key::Char('p')) ==> r is Ok && final(self)@ == (AppView {
                active: MenuItem::Pets,
                ..old(self)@
            }),
            ev == Event::Input(Key::Char('a'))
                ==> r is Ok
                    && final(self)@.records.len() == old(self)@.records.len() + 1
                    && (forall|i: int| 0 <= i < old(self)@.records.len()
                        ==> final(self)@.records[i] == old(self)@.records[i])
                    && is_generated_pet(final(self)@.records.last())
                    && final(self)@.sel == old(self)@.sel
                    && final(self)@.active == old(self)@.active
                    && final(self)@.run == old(self)@.run,
            ev == Event::Input(Key::Char('d'))
                ==> final(self)@.active == old(self)@.active
                    && final(self)@.run == old(self)@.run
                    && (old(self)@.sel is None ==> r is Ok && final(self)@ == old(self)@)
                    && (old(self)@.sel matches Some(i) ==> ((i < old(self)@.records.len()
                        ==> r is Ok
                            && final(self)@.records == old(self)@.records.remove(i as int)
                            && (i > 0 ==> final(self)@.sel == Some((i - 1) as usize))
                            && (i == 0 && old(self)@.records.len() == 1
                                ==> final(self)@.sel is None)
                            && (i == 0 && old(self)@.records.len() > 1
                                ==> final(self)@.sel == Some(0usize)))
                        && (i >= old(self)@.records.len()
                        ==> r == Err::<(), AppError>(AppError::Index)
                            && final(self)@ == old(self)@))),
            ev == Event::Input(Key::Down)
                ==> r is Ok
                    && final(self)@.records == old(self)@.records
                    && final(self)@.active == old(self)@.active
                    && final(self)@.run == old(self)@.run
                    && (old(self)@.sel is None ==> final(self)@.sel == old(self)@.sel)
                    && (old(self)@.records.len() == 0 ==> final(self)@.sel == old(self)@.sel)
                    && (old(self)@.sel matches Some(i) ==> (old(self)@.records.len() > 0
                        ==> final(self)@.sel == Some(
                            next_down(i as int, old(self)@.records.len() as int) as usize,
                        ))),
            ev == Event::Input(Key::Up)
                ==> r is Ok
                    && final(self)@.records == old(self)@.records
                    && final(self)@.active == old(self)@.active
                    && final(self)@.run == old(self)@.run
                    && (old(self)@.sel is None ==> final(self)@.sel == old(self)@.sel)
                    && (old(self)@.records.len() == 0 ==> final(self)@.sel == old(self)@.sel)
                    && (old(self)@.sel matches Some(i) ==> (old(self)@.records.len() > 0
                        ==> final(self)@.sel == Some(
                            next_up(i as int, old(self)@.records.len() as int) as usize,
                        ))),
    {
        match ev {
            Event::Tick => Ok(()),
            Event::Input(key) => match key {
                Key::Char('q') => {
                    self.run_state = RunState::Exiting;
                    Ok(())
                },
                Key::Char('h') => {
                    self.active = MenuItem::Home;
                    Ok(())
                },
                Key::Char('p') => {
                    self.active = MenuItem::Pets;
                    Ok(())
                },
                Key::Char('a') => {
                    self.store.add_random_pet_to_db();
                    Ok(())
                },
                Key::Char('d') => self.delete_selected(),
                Key::Down => {
                    let n = self.store.len();
                    self.cursor.move_down(n);
                    Ok(())
                },
                Key::Up => {
                    let n = self.store.len();
                    self.cursor.move_up(n);
                    Ok(())
                },
                _ => Ok(()),
            },
        }
    }
}

} // verus!
