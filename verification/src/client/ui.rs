//! How a client gets from joining a server to loading its world, or back
//! to the menu.

use vstd::prelude::*;
use crate::multiplayer::CONNECTION_TIMEOUT_SECS;
use crate::ClientState;
use crate::ServerState;

verus! {

/// How the attempt to join a server stands.
#[derive(Clone, Copy, Debug, PartialEq, Eq, Structural)]
pub enum JoinStatus {
    /// The connection is there.
    Connected,
    /// The transport has given up.
    Failed,
    /// The connection did not come in time.
    TimedOut,
    /// The connection may still come; so many milliseconds are left.
    Waiting { remaining_millis: u64 },
}

/// What the transport and the user have to say in one tick of joining.
#[derive(Clone, Copy, Debug, PartialEq, Eq, Structural)]
pub struct JoinInput {
    /// Whether the transport reports the connection.
    pub connected: bool,
    /// Whether the transport reports that it gave up.
    pub disconnected: bool,
    /// The time waited so far, in milliseconds.
    pub elapsed_millis: u64,
    /// Whether the user asked to go back.
    pub back_clicked: bool,
}

/// What a tick of joining comes to.
#[derive(Clone, Copy, Debug, PartialEq, Eq, Structural)]
pub struct JoinStep {
    /// How the attempt stands, for display.
    pub status: JoinStatus,
    /// The state the client goes to, if it leaves the joining state.
    pub next_client_state: Option<ClientState>,
    /// The state the server of this process goes to, if it changes.
    pub next_server_state: Option<ServerState>,
    /// Whether the time waited starts again from nothing.
    pub reset_timeout: bool,
}

/// How the attempt to join stands: a connection counts before a failure,
/// and a failure before the clock.
pub open spec fn join_status(input: JoinInput) -> JoinStatus {
    if input.connected {
        JoinStatus::Connected
    } else if input.disconnected {
        JoinStatus::Failed
    } else if input.elapsed_millis >= CONNECTION_TIMEOUT_SECS * 1000 {
        JoinStatus::TimedOut
    } else {
        JoinStatus::Waiting { remaining_millis: (CONNECTION_TIMEOUT_SECS * 1000 - input.elapsed_millis) as u64 }
    }
}

/// What a tick of joining comes to: with the connection the client goes on
/// to load its world; without it the client stays, shows how the attempt
/// stands, and goes back to the menu when the user asks for that.
pub open spec fn join_step(input: JoinInput) -> JoinStep {
    if input.connected {
        JoinStep {
            status: JoinStatus::Connected,
            next_client_state: Some(ClientState::LoadingWorld),
            next_server_state: None,
            reset_timeout: true,
        }
    } else if input.back_clicked {
        JoinStep {
            status: join_status(input),
            next_client_state: Some(ClientState::MainMenu),
            next_server_state: Some(ServerState::MainMenu),
            reset_timeout: true,
        }
    } else {
        JoinStep {
            status: join_status(input),
            next_client_state: None,
            next_server_state: None,
            reset_timeout: false,
        }
    }
}

/// One tick of the joining state, see [`join_step`].
pub fn server_loading_menu_system(input: JoinInput) -> (step: JoinStep)
    ensures
        step == join_step(input),
{
    let timeout_millis: u64 = CONNECTION_TIMEOUT_SECS * 1000;
    if input.connected {
        JoinStep {
            status: JoinStatus::Connected,
            next_client_state: Some(ClientState::LoadingWorld),
            next_server_state: None,
            reset_timeout: true,
        }
    } else {
        let status = if input.disconnected {
            JoinStatus::Failed
        } else if input.elapsed_millis >= timeout_millis {
            JoinStatus::TimedOut
        } else {
            JoinStatus::Waiting { remaining_millis: timeout_millis - input.elapsed_millis }
        };
        if input.back_clicked {
            JoinStep {
                status,
                next_client_state: Some(ClientState::MainMenu),
                next_server_state: Some(ServerState::MainMenu),
                reset_timeout: true,
            }
        } else {
            JoinStep { status, next_client_state: None, next_server_state: None, reset_timeout: false }
        }
    }
}

} // verus!
