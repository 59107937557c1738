//! Connection state and buffered output of the reactor's client connections.

use vstd::prelude::*;

verus! {

/// Represents the current state of a client connection.
#[derive(Clone, Copy, Debug, PartialEq, Eq, Structural)]
pub enum ConnexionState {
    Reading,
    Writing,
}

/// An active client connection with buffered output.
pub struct Connexion {
    pub state: ConnexionState,
    pub out: Vec<u8>,
}

/// Abstract value of a connection.
pub struct ConnexionView {
    pub state: ConnexionState,
    pub out: Seq<u8>,
}

impl View for Connexion {
    type V = ConnexionView;

    open spec fn view(&self) -> ConnexionView {
        ConnexionView { state: self.state, out: self.out@ }
    }
}

impl Connexion {
    /// Creates a new connection in the Reading state with nothing to send.
    pub fn new() -> (c: Self)
        ensures
            c@ == (ConnexionView { state: ConnexionState::Reading, out: Seq::<u8>::empty() }),
    {
        Connexion { state: ConnexionState::Reading, out: Vec::new() }
    }
}

} // verus!
