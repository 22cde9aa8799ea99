use ezbrowsergameserver::game::{Frame, PlayerCon};

#[test]
fn new_session_is_connected() {
    let p: PlayerCon<u32> = PlayerCon::new(7);
    assert!(!p.disconnected());
    assert_eq!(p.data, 7);
}

#[test]
fn send_failure_disconnects_without_close() {
    let mut p: PlayerCon<u32> = PlayerCon::new(0);
    p.note_send_result(true);
    assert!(!p.disconnected());
    p.note_send_result(false);
    assert!(p.disconnected());
}

#[test]
fn recv_failure_disconnects_without_close() {
    let mut p: PlayerCon<u32> = PlayerCon::new(0);
    p.note_recv_failure();
    assert!(p.disconnected());
    assert_eq!(p.data, 0);
}

#[test]
fn text_frame_surfaces_message() {
    let mut p: PlayerCon<u32> = PlayerCon::new(0);
    let out = p.respond_msg(Frame::Text("hello".to_string()));
    assert_eq!(out.message, Some("hello".to_string()));
    assert_eq!(out.pong, None);
    assert!(!p.disconnected());
}

#[test]
fn close_frame_disconnects_and_returns_none() {
    let mut p: PlayerCon<u32> = PlayerCon::new(0);
    let out = p.respond_msg(Frame::Close);
    assert_eq!(out.message, None);
    assert_eq!(out.pong, None);
    assert!(p.disconnected());
}

#[test]
fn ping_frame_is_answered_with_pong() {
    let mut p: PlayerCon<u32> = PlayerCon::new(0);
    let out = p.respond_msg(Frame::Ping(vec![1, 2, 3]));
    assert_eq!(out.message, None);
    assert_eq!(out.pong, Some(vec![1, 2, 3]));
    assert!(!p.disconnected());
}

#[test]
fn other_frames_are_ignored() {
    let mut p: PlayerCon<u32> = PlayerCon::new(0);
    for f in [
        Frame::Binary(vec![9]),
        Frame::Pong(vec![1]),
        Frame::Raw(vec![2]),
    ] {
        let out = p.respond_msg(f);
        assert_eq!(out.message, None);
        assert_eq!(out.pong, None);
        assert!(!p.disconnected());
    }
}

#[test]
fn force_disconnect_marks_session() {
    let mut p: PlayerCon<u32> = PlayerCon::new(0);
    p.force_disconnect();
    assert!(p.disconnected());
}
