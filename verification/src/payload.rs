//! The message handed to the UI layer when a tray event is forwarded.

use vstd::prelude::*;

verus! {

/// Payload of an event forwarded to the UI layer: a single message string,
/// usually the id of the menu item that was activated.
#[derive(Clone, Debug)]
pub struct SystemTrayPayload {
    message: String,
}

impl View for SystemTrayPayload {
    type V = Seq<char>;

    closed spec fn view(&self) -> Seq<char> {
        self.message@
    }
}

impl SystemTrayPayload {
    /// Wraps a message string into a payload, unchanged.
    pub fn new(message: &str) -> (p: SystemTrayPayload)
        ensures
            p@ == message@,
    {
        SystemTrayPayload { message: message.to_owned() }
    }

    /// The message this payload carries.
    pub fn message(&self) -> (m: &String)
        ensures
            m@ == self@,
    {
        &self.message
    }
}

} // verus!
