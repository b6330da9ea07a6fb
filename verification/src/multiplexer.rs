use vstd::prelude::*;

use crate::session::Session;

verus! {

/// The terminal multiplexer that sessions are opened in.
#[derive(PartialEq, Eq, Structural, Clone, Copy, Debug)]
pub enum Multiplexer {
    Zellij,
}

impl Multiplexer {
    /// Opening a session does nothing yet, whatever the multiplexer.
    pub fn _open(&self, _session: &Session) {
        match self {
            Multiplexer::Zellij => {},
        }
    }
}

} // verus!
