use vstd::prelude::*;

verus! {

/// Events a client may send to the realtime service.
#[derive(Debug, Clone, Copy, PartialEq, Eq, Structural)]
pub enum ClientEvent {
    Pong,
}

} // verus!
