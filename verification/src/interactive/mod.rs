//! The interactive interfaces: option catalogues, the command registry and
//! the state machines of the two terminal interfaces.
pub mod catalog;
pub mod coverage;
pub mod executor;
pub mod i18n;
pub mod identifiers;
pub mod sections;
pub mod selection;
pub mod tui;
pub mod types;
pub mod ui;
