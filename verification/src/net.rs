//! What the client does with each message from the server.

use crate::model::{ChatLine, GameError, PlayerId, SessionSecret, VictoryFocusTarget, NIL_ID};
use crate::reducer::{GameAction, InitPayload, QueueStatus};
use crate::text::{contains_text, lowercase_text, occurs_at, to_lowercase};
use crate::update::UpdateStatePayload;
use vstd::prelude::*;

verus! {

/// Part of an error title by which the server tells that the stored session
/// is no longer valid.
pub const INVALID_SESSION_MARKER: &'static str = "invalid session secret";

/// Messages sent by the server.
#[derive(Clone, PartialEq, Debug)]
pub enum ServerMessage {
    Init(Box<InitPayload>),
    UpdateState(Box<UpdateStatePayload>),
    QueueState { position_in_queue: u32, queued_players: u32, required_players: u32 },
    Error(GameError),
    GameOver { final_score: u64, kills: u32, pieces_captured: u32, time_survived_secs: u64 },
    Victory { title: String, message: String, focus_target: VictoryFocusTarget },
    Chat(ChatLine),
    Pong { sent_ms: u64, server_time_ms: i64 },
}

/// What the client does with one server message.
#[derive(Clone, PartialEq, Debug)]
pub struct MessageOutcome {
    /// Remember this player id and session secret for the selected mode.
    pub store_session: Option<(PlayerId, SessionSecret)>,
    /// Forget the stored session of the selected mode.
    pub clear_session: bool,
    /// The reducer action to dispatch.
    pub action: Option<GameAction>,
    /// A pong to measure the round trip and clock offset from.
    pub pong: Option<(u64, i64)>,
}

/// The title says that the stored session secret was rejected.
pub open spec fn rejects_session(title: Seq<char>) -> bool {
    exists|i: int| occurs_at(lowercase_text(title), INVALID_SESSION_MARKER@, i)
}

/// What the client does with server message `msg`.
pub open spec fn outcome_of(msg: ServerMessage) -> MessageOutcome {
    let plain = MessageOutcome { store_session: None, clear_session: false, action: None, pong: None };
    match msg {
        ServerMessage::Init(p) => MessageOutcome {
            store_session: if p.player_id != NIL_ID { Some((p.player_id, p.session_secret)) } else { None },
            action: Some(GameAction::SetInit(p)),
            ..plain
        },
        ServerMessage::UpdateState(u) => MessageOutcome { action: Some(GameAction::UpdateState(u)), ..plain },
        ServerMessage::QueueState { position_in_queue, queued_players, required_players } => MessageOutcome {
            action: Some(GameAction::SetQueueStatus(QueueStatus { position_in_queue, queued_players, required_players })),
            ..plain
        },
        ServerMessage::Error(e) => match e {
            GameError::Custom { title, message } => if rejects_session(title@) {
                MessageOutcome { clear_session: true, action: Some(GameAction::Reset), ..plain }
            } else {
                MessageOutcome {
                    action: Some(GameAction::SetDisconnected {
                        disconnected: true,
                        is_fatal: true,
                        title: Some(title),
                        msg: Some(message),
                    }),
                    ..plain
                }
            },
            _ => MessageOutcome { action: Some(GameAction::SetError(e)), ..plain },
        },
        ServerMessage::GameOver { final_score, kills, pieces_captured, time_survived_secs } => MessageOutcome {
            action: Some(GameAction::GameOver { final_score, kills, pieces_captured, time_survived_secs }),
            ..plain
        },
        ServerMessage::Victory { title, message, focus_target } => MessageOutcome {
            action: Some(GameAction::SetVictory { title, msg: message, focus_target }),
            ..plain
        },
        ServerMessage::Chat(line) => MessageOutcome { action: Some(GameAction::PushChatLine(line)), ..plain },
        ServerMessage::Pong { sent_ms, server_time_ms } => MessageOutcome { pong: Some((sent_ms, server_time_ms)), ..plain },
    }
}

/// Decides what the client does with a server message.
pub fn handle_server_message(msg: ServerMessage) -> (o: MessageOutcome)
    ensures
        o == outcome_of(msg),
{
    match msg {
        ServerMessage::Init(p) => {
            let store = if p.player_id != NIL_ID { Some((p.player_id, p.session_secret)) } else { None };
            MessageOutcome { store_session: store, clear_session: false, action: Some(GameAction::SetInit(p)), pong: None }
        },
        ServerMessage::UpdateState(u) => {
            MessageOutcome { store_session: None, clear_session: false, action: Some(GameAction::UpdateState(u)), pong: None }
        },
        ServerMessage::QueueState { position_in_queue, queued_players, required_players } => MessageOutcome {
            store_session: None,
            clear_session: false,
            action: Some(GameAction::SetQueueStatus(QueueStatus { position_in_queue, queued_players, required_players })),
            pong: None,
        },
        ServerMessage::Error(e) => match e {
            GameError::Custom { title, message } => {
                let lower = to_lowercase(title.as_str());
                if contains_text(lower.as_str(), INVALID_SESSION_MARKER) {
                    MessageOutcome { store_session: None, clear_session: true, action: Some(GameAction::Reset), pong: None }
                } else {
                    MessageOutcome {
                        store_session: None,
                        clear_session: false,
                        action: Some(GameAction::SetDisconnected {
                            disconnected: true,
                            is_fatal: true,
                            title: Some(title),
                            msg: Some(message),
                        }),
                        pong: None,
                    }
                }
            },
            _ => MessageOutcome { store_session: None, clear_session: false, action: Some(GameAction::SetError(e)), pong: None },
        },
        ServerMessage::GameOver { final_score, kills, pieces_captured, time_survived_secs } => MessageOutcome {
            store_session: None,
            clear_session: false,
            action: Some(GameAction::GameOver { final_score, kills, pieces_captured, time_survived_secs }),
            pong: None,
        },
        ServerMessage::Victory { title, message, focus_target } => MessageOutcome {
            store_session: None,
            clear_session: false,
            action: Some(GameAction::SetVictory { title, msg: message, focus_target }),
            pong: None,
        },
        ServerMessage::Chat(line) => {
            MessageOutcome { store_session: None, clear_session: false, action: Some(GameAction::PushChatLine(line)), pong: None }
        },
        ServerMessage::Pong { sent_ms, server_time_ms } => {
            MessageOutcome { store_session: None, clear_session: false, action: None, pong: Some((sent_ms, server_time_ms)) }
        },
    }
}

} // verus!
