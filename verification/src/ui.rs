//! The view composer: a pure mapping from the current state — active tab,
//! record sequence, selection — to a declarative description of one frame.
//! Nothing here draws; the terminal backend outside the library walks the
//! returned `Frame` and renders it. An out-of-range cursor yields an empty
//! detail panel rather than a failure.

use vstd::prelude::*;
use crate::cursor::Cursor;
use crate::data::Pet;

verus! {

/// Which tab is active. Only the controller changes this, in response to
/// navigation keys.
#[derive(Clone, Copy, Debug, PartialEq, Eq, Structural)]
pub enum MenuItem {
    Home,
    Pets,
}

impl MenuItem {
    /// Position of this tab in the menu strip.
    pub open spec fn spec_tab_index(self) -> int {
        match self {
            MenuItem::Home => 0,
            MenuItem::Pets => 1,
        }
    }

    /// Position of this tab in the menu strip.
    pub fn tab_index(self) -> (r: usize)
        ensures
            r == self.spec_tab_index(),
    {
        match self {
            MenuItem::Home => 0,
            MenuItem::Pets => 1,
        }
    }
}

/// The body of a frame, by active tab.
#[derive(Debug, PartialEq, Eq)]
pub enum Body {
    /// The static informational panel of the home tab.
    Home { lines: Vec<String> },
    /// The list tab: one name per record for the narrow panel and, when a
    /// record is selected, a copy of it for the detail table.
    Pets { names: Vec<String>, detail: Option<Pet> },
}

/// A declarative description of one rendered frame: the menu strip with
/// the active tab, the body of the active tab, and the static footer line.
#[derive(Debug, PartialEq, Eq)]
pub struct Frame {
    pub titles: Vec<&'static str>,
    pub active_tab: usize,
    pub body: Body,
    pub footer: &'static str,
}

/// The record the detail panel shows: the selected one, or nothing when the
/// cursor is cleared or out of range.
pub open spec fn spec_detail(records: Seq<Pet>, sel: Option<usize>) -> Option<Pet> {
    match sel {
        Some(i) => if i < records.len() {
            Some(records[i as int])
        } else {
            None
        },
        None => None,
    }
}

/// The fixed entries of the menu strip, in display order.
pub fn menu_titles() -> (r: Vec<&'static str>)
    ensures
        r@.len() == 5,
        r@[0]@ == "Home"@,
        r@[1]@ == "Pets"@,
        r@[2]@ == "Add"@,
        r@[3]@ == "Delete"@,
        r@[4]@ == "Quit"@,
{
    let mut v: Vec<&'static str> = Vec::new();
    v.push("Home");
    v.push("Pets");
    v.push("Add");
    v.push("Delete");
    v.push("Quit");
    v
}

/// The static footer line shown under every frame.
pub fn footer_line() -> (r: &'static str)
    ensures
        r@ == "pet-CLI 2021 - all rights reserved"@,
{
    "pet-CLI 2021 - all rights reserved"
}

/// The static informational panel of the home tab.
pub fn render_menu() -> (r: Vec<String>)
    ensures
        r@.len() == 3,
        r@[0]@ == "Welcome to pet-CLI"@,
        r@[1]@ == "Press 'p' to show pets, 'a' to add a random pet and 'd' to delete the selected one"@,
        r@[2]@ == "Press 'q' to quit"@,
{
    let mut v: Vec<String> = Vec::new();
    v.push(String::from_str("Welcome to pet-CLI"));
    v.push(
        String::from_str(
            "Press 'p' to show pets, 'a' to add a random pet and 'd' to delete the selected one",
        ),
    );
    v.push(String::from_str("Press 'q' to quit"));
    v
}

/// The two panels of the list tab: one name per record, in order, and the
/// selected record for the detail table — or no record when the cursor is
/// cleared or out of range.
pub fn render_pets(records: &Vec<Pet>, cursor: &Cursor) -> (r: (Vec<String>, Option<Pet>))
    ensures
        r.0@.len() == records@.len(),
        forall|i: int| 0 <= i < records@.len() ==> #[trigger] r.0@[i]@ == records@[i].name@,
        r.1 == spec_detail(records@, cursor@),
{
    let mut names: Vec<String> = Vec::new();
    let mut i: usize = 0;
    while i < records.len()
        invariant
            i <= records@.len(),
            names@.len() == i,
            forall|j: int| 0 <= j < i ==> #[trigger] names@[j]@ == records@[j].name@,
        decreases records@.len() - i,
    {
        names.push(records[i].name.clone());
        i += 1;
    }
    let detail = match cursor.selected() {
        Some(sel) => if sel < records.len() {
            Some(records[sel].clone())
        } else {
            None
        },
        None => None,
    };
    (names, detail)
}

/// Compose one frame from the current state: the menu strip with the
/// active tab highlighted, the body of the active tab, and the footer.
pub fn compose_frame(active: MenuItem, records: &Vec<Pet>, cursor: &Cursor) -> (f: Frame)
    ensures
        f.titles@.len() == 5,
        f.active_tab == active.spec_tab_index(),
        f.footer@ == "pet-CLI 2021 - all rights reserved"@,
        active is Home ==> f.body is Home,
        active is Pets ==> (f.body matches Body::Pets { names, detail } && names@.len()
            == records@.len() && (forall|i: int|
            0 <= i < records@.len() ==> #[trigger] names@[i]@ == records@[i].name@) && detail
            == spec_detail(records@, cursor@)),
{
    let body = match active {
        MenuItem::Home => Body::Home { lines: render_menu() },
        MenuItem::Pets => {
            let (names, detail) = render_pets(records, cursor);
            Body::Pets { names, detail }
        },
    };
    Frame { titles: menu_titles(), active_tab: active.tab_index(), body, footer: footer_line() }
}

} // verus!
