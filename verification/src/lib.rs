//! A small terminal list manager: a record store persisted as a whole
//! sequence, a wrapping selection cursor, a pure view composer, and the
//! controller that dispatches key and tick events. The cursor arithmetic,
//! the store operations and the controller's dispatch are verified; the
//! terminal, the timer thread and the on-disk format live outside the
//! library.

pub mod controller;
pub mod cursor;
pub mod data;
pub mod error;
pub mod event;
pub mod ui;
