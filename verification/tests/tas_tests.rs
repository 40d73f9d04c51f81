use re2line::tas::{frame_step, handle_command, Command, FrameStep, Poll, Response, TasController};

#[test]
fn command_names() {
    assert_eq!(Command::Pause.describe(), "pause");
    assert_eq!(Command::Resume.describe(), "resume");
}

#[test]
fn pause_and_resume() {
    let mut c = TasController::new();
    assert!(!c.is_paused());
    assert_eq!(handle_command(&mut c, &Command::Pause), Response::Success);
    assert!(c.is_paused());
    assert_eq!(handle_command(&mut c, &Command::Resume), Response::Success);
    assert!(!c.is_paused());
}

#[test]
fn paused_game_waits_for_commands() {
    let mut c = TasController::new();
    assert_eq!(frame_step(&mut c, Poll::Empty), FrameStep::Continue);
    assert_eq!(frame_step(&mut c, Poll::Received(Command::Pause)), FrameStep::Respond(Response::Success));
    assert_eq!(frame_step(&mut c, Poll::Empty), FrameStep::Wait);
    assert_eq!(frame_step(&mut c, Poll::Empty), FrameStep::Wait);
    assert_eq!(frame_step(&mut c, Poll::Received(Command::Resume)), FrameStep::Respond(Response::Success));
    assert_eq!(frame_step(&mut c, Poll::Empty), FrameStep::Continue);
}

#[test]
fn lost_server_shuts_down() {
    let mut c = TasController::new();
    c.pause();
    assert_eq!(frame_step(&mut c, Poll::Disconnected), FrameStep::Continue);
    assert!(!c.is_running());
    assert!(c.is_paused());
}
