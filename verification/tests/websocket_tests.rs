use rucord::error::{CloseFrame, ShardError};
use rucord::websocket::{get_text, WireMessage};

#[test]
fn text_frames_yield_their_payload() {
    let r = get_text(WireMessage::Text("{\"op\":11}".to_string()));
    assert_eq!(r, Ok(Some("{\"op\":11}".to_string())));
}

#[test]
fn control_frames_yield_nothing() {
    assert_eq!(get_text(WireMessage::Control), Ok(None));
}

#[test]
fn binary_frames_are_rejected() {
    let r = get_text(WireMessage::Binary(vec![1, 2, 3]));
    assert_eq!(
        r,
        Err(ShardError::Transport("unsupported binary frame".to_string()))
    );
}

#[test]
fn close_frames_report_the_closure() {
    let frame = CloseFrame {
        code: 4004,
        reason: "Authentication failed.".to_string(),
    };
    let r = get_text(WireMessage::ConnectionClose(Some(frame.clone())));
    assert_eq!(r, Err(ShardError::Closed(Some(frame))));
    let r = get_text(WireMessage::ConnectionClose(None));
    assert_eq!(r, Err(ShardError::Closed(None)));
}

#[test]
fn routes_build_versioned_urls() {
    assert_eq!(rucord::routes::gateway(), "/gateway");
    assert_eq!(rucord::routes::gateway_bot(), "/gateway/bot");
    assert_eq!(
        rucord::routes::api(&rucord::routes::gateway_bot()),
        "https://discord.com/api/v10/gateway/bot"
    );
}
