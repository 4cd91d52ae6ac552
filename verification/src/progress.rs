//! Progress-report message kinds.
//!
//! The terminal progress bar itself (timing, terminal width, redrawing) is
//! I/O and floating-point work that lives in the surrounding application;
//! the kind of message and its label are plain data and are kept here.

use vstd::prelude::*;

verus! {

/// The kind of a progress message.
pub enum MessageType {
    Info,
    Error,
}

impl MessageType {
    /// The label printed in front of a progress line of this kind.
    pub fn get_message(&self) -> (r: &'static str)
        ensures
            self is Info ==> r@ == "[ INFO ]"@,
            self is Error ==> r@ == "[ ERROR ]"@,
    {
        match self {
            Self::Info => "[ INFO ]",
            Self::Error => "[ ERROR ]",
        }
    }
}

} // verus!
