//! Fetching and installing ignore-file templates: the decisions of the tool,
//! from the remote listing to the local write, as verified functions.

pub mod order;
pub mod catalog;
pub mod error;
pub mod fetch;
pub mod text;
pub mod writer;
pub mod selector;
pub mod command;
