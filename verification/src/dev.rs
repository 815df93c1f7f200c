//! The decisions of the development servers' start-up: when to keep
//! waiting for a server, when to try it again on the next port, and when to
//! give up. Spawning, sleeping and probing ports are left to the caller,
//! which reports what it saw as an event and performs the action it is
//! given.
use vstd::prelude::*;

verus! {

/// How many ports the web UI dev server is tried on, and how many times
/// each is polled, a second apart, before the next one is tried.
pub const WEBUI_RETRY_COUNT: u8 = 10;

/// Where the start of the web UI dev server stands: it is being tried on
/// port `start_port + attempt`, and has been polled `polls` times there.
#[derive(Clone, Copy, Debug, PartialEq, Eq, Structural)]
pub struct WebuiState {
    pub start_port: u16,
    pub attempt: u8,
    pub polls: u8,
}

/// What one poll of the server showed.
#[derive(Clone, Copy, Debug, PartialEq, Eq, Structural)]
pub enum WebuiEvent {
    /// The server process has exited.
    Exited,
    /// The server answers on its port.
    Online,
    /// The server runs but does not answer yet.
    NotOnline,
}

/// What to do next.
#[derive(Clone, Copy, Debug, PartialEq, Eq, Structural)]
pub enum WebuiAction {
    /// Wait a second and poll again.
    Poll,
    /// Kill the server and start it again on the given port.
    KillAndRetry(u16),
    /// The server runs on the given port.
    Started(u16),
    /// Kill the server: it started on none of the ports in the given range.
    GiveUp(u16, u16),
}

/// The state in which the server is first tried, on `start_port`.
pub open spec fn webui_start_spec(start_port: u16) -> WebuiState {
    WebuiState { start_port, attempt: 0, polls: 0 }
}

/// The next state and the action after event `e` in state `s`.
///
/// A server that answers has started on its port. One that exited, or does
/// not answer at its tenth poll, is killed and tried on the next port, with
/// the polls counted anew; after the tenth port the start gives up, naming
/// the ports it tried. Any other poll that finds no answer is followed by
/// another one.
pub open spec fn webui_step_spec(s: WebuiState, e: WebuiEvent) -> (WebuiState, WebuiAction) {
    let port = (s.start_port + s.attempt) as u16;
    match e {
        WebuiEvent::Online => (s, WebuiAction::Started(port)),
        _ => {
            if e is Exited || s.polls + 1 == WEBUI_RETRY_COUNT {
                if s.attempt + 1 < WEBUI_RETRY_COUNT {
                    (
                        WebuiState { attempt: (s.attempt + 1) as u8, polls: 0, ..s },
                        WebuiAction::KillAndRetry((port + 1) as u16),
                    )
                } else {
                    (
                        s,
                        WebuiAction::GiveUp(
                            s.start_port,
                            (s.start_port + WEBUI_RETRY_COUNT - 1) as u16,
                        ),
                    )
                }
            } else {
                (WebuiState { polls: (s.polls + 1) as u8, ..s }, WebuiAction::Poll)
            }
        },
    }
}

/// The state in which the server is first tried, on `start_port`.
pub fn webui_start(start_port: u16) -> (r: WebuiState)
    ensures
        r == webui_start_spec(start_port),
{
    WebuiState { start_port, attempt: 0, polls: 0 }
}

/// Decides what to do after a poll of the web UI dev server.
pub fn webui_step(s: WebuiState, e: WebuiEvent) -> (r: (WebuiState, WebuiAction))
    requires
        s.start_port + 10 <= 65536,
        s.attempt < 10,
        s.polls < 10,
    ensures
        r == webui_step_spec(s, e),
{
    let port = s.start_port + s.attempt as u16;
    match e {
        WebuiEvent::Online => (s, WebuiAction::Started(port)),
        _ => {
            let exited = matches!(e, WebuiEvent::Exited);
            if exited || s.polls + 1 == WEBUI_RETRY_COUNT {
                if s.attempt + 1 < WEBUI_RETRY_COUNT {
                    (
                        WebuiState { attempt: s.attempt + 1, polls: 0, ..s },
                        WebuiAction::KillAndRetry(port + 1),
                    )
                } else {
                    (
                        s,
                        WebuiAction::GiveUp(
                            s.start_port,
                            s.start_port + (WEBUI_RETRY_COUNT as u16 - 1),
                        ),
                    )
                }
            } else {
                (WebuiState { polls: s.polls + 1, ..s }, WebuiAction::Poll)
            }
        },
    }
}

/// What to do while waiting for the servers to come online.
#[derive(Clone, Copy, Debug, PartialEq, Eq, Structural)]
pub enum ServerWait {
    /// One of the servers exited: stop with an error.
    Failed,
    /// The playground answers on its port: all servers are up.
    Ready,
    /// Wait a second and look again.
    Wait,
}

/// The decision while waiting for the servers: an exited server fails the
/// start, even where the port answers; else an answering port ends the
/// wait.
pub open spec fn server_wait_spec(any_exited: bool, online: bool) -> ServerWait {
    if any_exited {
        ServerWait::Failed
    } else if online {
        ServerWait::Ready
    } else {
        ServerWait::Wait
    }
}

/// Decides what to do while waiting for the servers to come online, from
/// whether one of them has exited and whether the playground's port
/// answers.
pub fn server_wait_step(any_exited: bool, online: bool) -> (r: ServerWait)
    ensures
        r == server_wait_spec(any_exited, online),
{
    if any_exited {
        ServerWait::Failed
    } else if online {
        ServerWait::Ready
    } else {
        ServerWait::Wait
    }
}

/// Every step keeps the state within the bounds that the next step needs:
/// a poll counts up the polls of the attempt, a retry moves to the next
/// port with the polls counted anew, a start names the port tried, and the
/// start gives up only on the tenth port, naming the ten it tried.
pub proof fn lemma_webui_step_bounds(s: WebuiState, e: WebuiEvent)
    requires
        s.start_port + 10 <= 65536,
        s.attempt < 10,
        s.polls < 10,
    ensures
        ({
            let (t, a) = webui_step_spec(s, e);
            &&& t.start_port == s.start_port
            &&& t.attempt < 10
            &&& t.polls < 10
            &&& a matches WebuiAction::Poll ==> t.attempt == s.attempt && t.polls == s.polls + 1
            &&& a matches WebuiAction::KillAndRetry(p) ==> t.attempt == s.attempt + 1 && t.polls
                == 0 && p == s.start_port + t.attempt
            &&& a matches WebuiAction::Started(p) ==> p == s.start_port + s.attempt
            &&& a matches WebuiAction::GiveUp(lo, hi) ==> s.attempt == 9 && lo == s.start_port
                && hi == s.start_port + 9
        }),
{
}

} // verus!
