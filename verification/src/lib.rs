//! Search orchestration for a desktop application launcher.
//!
//! The launcher shows one list of rows that many back ends contribute to:
//! applications, a calculator, web searches, the weather and more. This
//! library holds what decides the list: which rows the configured launchers
//! produce, in which order the rows stand, which of them are shown for what is
//! typed, which mode the search is in, and which fetched results still count
//! when the user types faster than results arrive. It draws nothing and
//! fetches nothing: a front end feeds it events and acts on what it answers.
//!
//! [`session::search`] builds a [`session::SearchSession`] from the launchers;
//! the session's methods take the events.

pub mod attrs;
pub mod calc;
pub mod dispatch;
pub mod launcher;
pub mod matcher;
pub mod merge;
pub mod mode;
pub mod nav;
pub mod refresh;
pub mod row;
pub mod session;
pub mod sort;
pub mod text;
pub mod tiles;
