//! Settings for MITOS: the categories of the settings navigator and the
//! settings each one registers, the plain-text configuration format with its
//! migrations, the client side of mitos-service's permission-grant
//! protocol, and the decisions behind the command-line and interactive
//! front-ends.

pub mod permissions;
pub mod settings;
pub mod text;
pub mod categories;
pub mod config;
pub mod grants;
pub mod cli;
pub mod app;
pub mod gui;
