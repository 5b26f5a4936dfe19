//! The decisions behind the graphical front-end, which only presents them.

pub mod change_password;
pub mod permissions_page;
pub mod widgets;
pub mod window;
