use vstd::prelude::*;

verus! {

/// Why a key event could not be translated or replayed.
///
/// None of these is fatal: each one concerns a single event, and the next
/// event is handled as if nothing had happened.
#[derive(Clone, Copy, Debug, PartialEq, Eq, Structural)]
pub enum KeyboardError {
    /// A translation table has no entry for the key.
    UnmappableKey,
    /// The event names a key or a modifier set that does not exist, or it
    /// lacks the part that says which key was pressed.
    InvalidWireEvent,
    /// The event is well formed, but its kind of key code cannot be replayed.
    UnsupportedKeyCode,
    /// The platform refused to synthesize a key event.
    InjectorFailure,
    /// No keyboard mapping is at hand, so characters cannot be resolved.
    KeymapUnavailable,
}

} // verus!
