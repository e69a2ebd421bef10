//! Where the service listens, and what becomes of it once it has tried to.

use vstd::prelude::*;

verus! {

/// An IPv4 address and a port.
#[derive(Clone, Copy, Debug)]
pub struct BindAddress {
    pub octets: [u8; 4],
    pub port: u16,
}

/// The address of the service: every interface, port 8080.
pub fn bind_address() -> (addr: BindAddress)
    ensures
        addr.octets@ == seq![0u8, 0u8, 0u8, 0u8],
        addr.port == 8080,
{
    let addr = BindAddress { octets: [0, 0, 0, 0], port: 8080 };
    assert(addr.octets@ =~= seq![0u8, 0u8, 0u8, 0u8]);
    addr
}

/// Where the service is in its life.
#[derive(Clone, Copy, Debug, PartialEq, Eq, Structural)]
pub enum ServerState {
    /// The listener is being bound.
    Starting,
    /// Requests are accepted, until something outside ends the process.
    Serving,
    /// The process ends with a diagnostic and a status other than zero.
    Terminated,
}

/// What the attempt to bind the listener came to.
#[derive(Clone, Copy, Debug, PartialEq, Eq, Structural)]
pub enum BindOutcome {
    Bound,
    Failed,
}

impl ServerState {
    /// The state that follows when the outcome of the bind is known. Only a
    /// starting service waits for one; there is no retry and no way back.
    pub open spec fn spec_after_bind(self, outcome: BindOutcome) -> ServerState {
        match (self, outcome) {
            (ServerState::Starting, BindOutcome::Bound) => ServerState::Serving,
            (ServerState::Starting, BindOutcome::Failed) => ServerState::Terminated,
            (state, _) => state,
        }
    }

    /// Moves on when the outcome of the bind is known.
    pub fn after_bind(self, outcome: BindOutcome) -> (next: ServerState)
        ensures
            next == self.spec_after_bind(outcome),
    {
        match self {
            ServerState::Starting => match outcome {
                BindOutcome::Bound => ServerState::Serving,
                BindOutcome::Failed => ServerState::Terminated,
            },
            ServerState::Serving => ServerState::Serving,
            ServerState::Terminated => ServerState::Terminated,
        }
    }
}

/// A service whose bind fails ends at once: it never serves.
pub proof fn failed_bind_terminates()
    ensures
        ServerState::Starting.spec_after_bind(BindOutcome::Failed) == ServerState::Terminated,
{
}

/// A serving service has no transition out of serving, and an ended one none
/// out of its end.
pub proof fn settled_states_stay(state: ServerState, outcome: BindOutcome)
    requires
        state != ServerState::Starting,
    ensures
        state.spec_after_bind(outcome) == state,
{
}

} // verus!
