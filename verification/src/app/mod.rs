//! The interactive front-end: `application` decides what each typed command
//! does, `navigation` tracks where in the category tree you are, and
//! `state` holds the rest of the transient state.

pub mod application;
pub mod navigation;
pub mod state;

pub use application::Application;
