//! Configuration errors: mistakes in how a plugin is set up. They are
//! detected while protocols and fields are registered, before any packet is
//! dissected, and the call that detects one leaves the state as it was.

use vstd::prelude::*;

verus! {

/// A mistake in the setup of a plugin.
#[derive(Debug, Clone, Copy, PartialEq, Eq, Structural)]
pub enum ConfigurationError {
    /// A protocol with the same id is already there.
    DuplicateProtocol,
    /// A field with the same id is already registered under the protocol.
    DuplicateField,
    /// A subtree slot was asked for that the protocol did not declare.
    SubtreeIndexOutOfBounds,
    /// A protocol must declare at least one subtree slot.
    NoSubtreeSlots,
    /// The plugin was set up before.
    AlreadySetUp,
    /// The plugin, or its protocols, were registered before.
    AlreadyRegistered,
    /// The match conditions were handed to the host before.
    AlreadyHandedOff,
    /// The protocols have not been registered yet.
    NotRegistered,
}

} // verus!
