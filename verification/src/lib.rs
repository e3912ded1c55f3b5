//! Interaction core of a terminal catalogue browser for fruit dimension
//! records: the application state with selection and filtering, the modal
//! editor for multi-field text entry with validation, and the event
//! dispatcher that routes keys to mode-specific handlers.
//!
//! Rendering, terminal input and persistence are collaborators outside this
//! crate; they consume a read-only view of the application state and feed
//! events to the dispatcher.

pub mod error;
pub mod events;
pub mod modal;
pub mod record;
pub mod state;
pub mod text;
