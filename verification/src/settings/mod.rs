//! The typed settings core that every category registers into: the `Value`
//! a setting holds and the `Schema` describing each setting.

pub mod schema;
pub mod value;
