//! A typed widget registry: layouts declare named widgets, builders expose
//! them by identifier, and typed handles resolve against a builder only when
//! the named widget exists and belongs to the handle's widget class.

pub mod kind;
pub mod layout;
pub mod builder;
pub mod ui;
pub mod registry;
