use ffchess_client::clock::pong_clock_sample;
use ffchess_client::model::GameError;
use ffchess_client::net::{handle_server_message, ServerMessage};
use ffchess_client::reducer::GameAction;

#[test]
fn errors_map_to_actions() {
    let o = handle_server_message(ServerMessage::Error(GameError::Custom {
        title: "Invalid Session Secret".to_string(),
        message: "x".to_string(),
    }));
    assert!(o.clear_session);
    assert_eq!(o.action, Some(GameAction::Reset));
    let o = handle_server_message(ServerMessage::Error(GameError::Custom {
        title: "Server full".to_string(),
        message: "try later".to_string(),
    }));
    assert!(!o.clear_session);
    assert_eq!(
        o.action,
        Some(GameAction::SetDisconnected {
            disconnected: true,
            is_fatal: true,
            title: Some("Server full".to_string()),
            msg: Some("try later".to_string()),
        })
    );
    let o = handle_server_message(ServerMessage::Error(GameError::OnCooldown));
    assert_eq!(o.action, Some(GameAction::SetError(GameError::OnCooldown)));
}

#[test]
fn pong_is_measured_not_dispatched() {
    let o = handle_server_message(ServerMessage::Pong { sent_ms: 100, server_time_ms: 5000 });
    assert_eq!(o.pong, Some((100, 5000)));
    assert_eq!(o.action, None);
    assert_eq!(pong_clock_sample(100, 5000, 140), Some((40, 4880)));
    assert_eq!(pong_clock_sample(100, 5000, 90), None);
}
