//! The core of a terminal weather dashboard.
//!
//! The dashboard browses a fixed list of cities, fetches the current weather
//! of the city under the cursor and shows it. This crate holds what it
//! decides: the state and its operations (`app`), the dispatch of keys
//! (`handler`), the turns of the render loop (`driver`), what the input
//! source forwards (`event`), the request and the record made of the answer
//! (`connection`, `clock`) and the text of the screen (`ui`, `text`). The
//! terminal, the queue of events and the network belong to the program
//! around it.

pub mod app;
pub mod clock;
pub mod connection;
pub mod driver;
pub mod event;
pub mod handler;
pub mod text;
pub mod ui;
