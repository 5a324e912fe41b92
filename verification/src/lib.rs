//! A bridge between a compositor's layout protocol and a layout generator.
//!
//! The bridge is a state machine: it is fed the compositor's events one at a
//! time and answers each with the requests to send back. It keeps the set of
//! live outputs, opens one layout session per named output, and turns every
//! layout demand into the generator's rectangles followed by a commit.
//!
//! The bridge does no input or output of its own. Whoever runs it reads the
//! events from the compositor, hands them to the [`Bridge`] and sends what it
//! answers.

pub mod bridge;
pub mod error;
pub mod layout;
pub mod negotiation;
pub mod output;
pub mod protocol;
pub mod registry;
pub mod theorems;

pub use crate::bridge::Bridge;
pub use crate::error::Error;
pub use crate::error::Inconsistency;
pub use crate::layout::GeneratedLayout;
pub use crate::layout::Layout;
pub use crate::layout::Rectangle;
