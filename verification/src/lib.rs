//! Switches a desktop's light and dark theme with the sun.
//!
//! The crate holds the decisions of the theme switcher: which variant the
//! sun calls for, how long to sleep, what a configuration document means and
//! how the reconciliation loop moves from one state to the next. Reading
//! files, waiting on channels and writing to the appearance store are left to
//! the program that drives it.

pub mod clock;
pub mod config;
pub mod notification;
pub mod reconcile;
pub mod refresh;
pub mod regkey;
pub mod schedule;
pub mod theme;
