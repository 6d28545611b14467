use grabber::CandidateWindow;
use grabber::FrameSlot;
use grabber::Grabber;
use grabber::SessionAction;
use grabber::SessionError;
use grabber::SessionEvent;
use grabber::SessionPhase;
use grabber::WindowGeometry;
use grabber::title_pattern;

fn window(app: Option<&str>, title: Option<&str>, width: i32, height: i32) -> CandidateWindow {
    CandidateWindow {
        owning_app: app.map(|s| s.to_string()),
        title: title.map(|s| s.to_string()),
        geometry: WindowGeometry { x: 0, y: 0, width, height },
    }
}

fn glide_windows() -> Vec<CandidateWindow> {
    vec![
        window(None, Some("Finder"), 500, 300),
        window(Some("A"), Some("GLIDE-ELECTRON WIN 1 - extra"), 1280, 720),
        window(Some("B"), Some("Other"), 640, 480),
    ]
}

#[test]
fn pattern_follows_instance_id() {
    assert_eq!(title_pattern(0), "GLIDE-ELECTRON WIN 1");
    assert_eq!(title_pattern(1), "GLIDE-ELECTRON WIN 2");
    assert_eq!(title_pattern(7), "GLIDE-ELECTRON WIN 2");
}

#[test]
fn new_grabber_is_idle_with_offset_tag() {
    let g = Grabber::new(1, FrameSlot::new());
    assert_eq!(g.instance_id, 1);
    assert_eq!(g.phase, SessionPhase::Idle);
    assert_eq!(g.delegate.delegate_id, 101);
    assert_eq!(g.delegate.frame_count, 0);
    assert_eq!(g.pattern, "GLIDE-ELECTRON WIN 2");
}

#[test]
fn start_requests_window_list() {
    let mut g = Grabber::new(0, FrameSlot::new());
    let a = g.start();
    assert_eq!(a, SessionAction::RequestWindows("GLIDE-ELECTRON WIN 1".to_string()));
    assert_eq!(g.phase, SessionPhase::AwaitingWindows);
}

#[test]
fn enumeration_failure_is_terminal() {
    let mut g = Grabber::new(0, FrameSlot::new());
    g.start();
    let a = g.step(SessionEvent::WindowsFailed);
    assert_eq!(a, SessionAction::NoAction);
    assert_eq!(g.phase, SessionPhase::Failed(SessionError::Enumeration));
}

#[test]
fn empty_filtered_list_is_terminal() {
    let mut g = Grabber::new(0, FrameSlot::new());
    g.start();
    let ws = vec![window(None, Some("Desktop"), 10, 10)];
    let a = g.step(SessionEvent::WindowsReady(ws));
    assert_eq!(a, SessionAction::NoAction);
    assert_eq!(g.phase, SessionPhase::Failed(SessionError::NoCandidates));
}

#[test]
fn degenerate_geometry_is_terminal() {
    let mut g = Grabber::new(0, FrameSlot::new());
    g.start();
    let ws = vec![window(Some("A"), Some("GLIDE-ELECTRON WIN 1"), 0, 720)];
    let a = g.step(SessionEvent::WindowsReady(ws));
    assert_eq!(a, SessionAction::NoAction);
    assert_eq!(g.phase, SessionPhase::Failed(SessionError::InvalidGeometry));
}

#[test]
fn happy_path_reaches_capturing() {
    let mut g = Grabber::new(0, FrameSlot::new());
    let a = g.start();
    assert!(matches!(a, SessionAction::RequestWindows(_)));

    let a = g.step(SessionEvent::WindowsReady(glide_windows()));
    let req = match a {
        SessionAction::AttachDelegate(req) => req,
        other => panic!("expected an attach request, got {:?}", other),
    };
    assert_eq!(req.window_index, 1);
    assert_eq!(req.delegate_tag, 100);
    assert_eq!(req.config.width, 1280);
    assert_eq!(req.config.height, 720);
    assert_eq!(g.phase, SessionPhase::AwaitingAttach);
    assert_eq!(g.delegate.delegate_id, 100);
    assert_eq!(g.delegate.frame_count, 0);

    let a = g.step(SessionEvent::AttachOk);
    assert_eq!(a, SessionAction::StartCapture);
    assert_eq!(g.phase, SessionPhase::AwaitingStart);

    let a = g.step(SessionEvent::StartOk);
    assert_eq!(a, SessionAction::NoAction);
    assert_eq!(g.phase, SessionPhase::Capturing);
}

#[test]
fn attach_failure_never_starts_capture() {
    let mut g = Grabber::new(0, FrameSlot::new());
    g.start();
    let a = g.step(SessionEvent::WindowsReady(glide_windows()));
    assert!(matches!(a, SessionAction::AttachDelegate(_)));

    let a = g.step(SessionEvent::AttachFailed);
    assert_eq!(a, SessionAction::NoAction);
    assert_eq!(g.phase, SessionPhase::Failed(SessionError::Attach));

    // The failed session ignores everything; no start-capture ever follows.
    let followups = [
        SessionEvent::AttachOk,
        SessionEvent::StartOk,
        SessionEvent::StartFailed,
        SessionEvent::WindowsFailed,
        SessionEvent::LockFailed,
    ];
    for ev in followups {
        let a = g.step(ev);
        assert_eq!(a, SessionAction::NoAction);
        assert_eq!(g.phase, SessionPhase::Failed(SessionError::Attach));
    }
}

#[test]
fn start_failure_is_terminal() {
    let mut g = Grabber::new(0, FrameSlot::new());
    g.start();
    g.step(SessionEvent::WindowsReady(glide_windows()));
    g.step(SessionEvent::AttachOk);
    let a = g.step(SessionEvent::StartFailed);
    assert_eq!(a, SessionAction::NoAction);
    assert_eq!(g.phase, SessionPhase::Failed(SessionError::StartCapture));
}

#[test]
fn lock_failure_while_capturing_is_terminal() {
    let mut g = Grabber::new(0, FrameSlot::new());
    g.start();
    g.step(SessionEvent::WindowsReady(glide_windows()));
    g.step(SessionEvent::AttachOk);
    g.step(SessionEvent::StartOk);
    assert_eq!(g.phase, SessionPhase::Capturing);
    let a = g.step(SessionEvent::LockFailed);
    assert_eq!(a, SessionAction::NoAction);
    assert_eq!(g.phase, SessionPhase::Failed(SessionError::FatalFrameLock));
}

#[test]
fn out_of_order_events_are_ignored() {
    let mut g = Grabber::new(0, FrameSlot::new());
    assert_eq!(g.step(SessionEvent::AttachOk), SessionAction::NoAction);
    assert_eq!(g.phase, SessionPhase::Idle);
    g.start();
    assert_eq!(g.step(SessionEvent::StartOk), SessionAction::NoAction);
    assert_eq!(g.phase, SessionPhase::AwaitingWindows);
    assert_eq!(g.step(SessionEvent::LockFailed), SessionAction::NoAction);
    assert_eq!(g.phase, SessionPhase::AwaitingWindows);
}

#[test]
fn stop_tears_down_active_session() {
    let mut g = Grabber::new(0, FrameSlot::new());
    g.start();
    g.step(SessionEvent::WindowsReady(glide_windows()));
    g.step(SessionEvent::AttachOk);
    g.step(SessionEvent::StartOk);
    assert_eq!(g.phase, SessionPhase::Capturing);

    let a = g.stop();
    assert_eq!(a, SessionAction::StopCapture);
    assert_eq!(g.phase, SessionPhase::Stopping);

    // A second stop request does nothing further.
    assert_eq!(g.stop(), SessionAction::NoAction);
    assert_eq!(g.phase, SessionPhase::Stopping);

    let a = g.step(SessionEvent::StopFinished);
    assert_eq!(a, SessionAction::NoAction);
    assert_eq!(g.phase, SessionPhase::Stopped);
    assert_eq!(g.stop(), SessionAction::NoAction);
}

#[test]
fn stop_when_idle_finishes_immediately() {
    let mut g = Grabber::new(0, FrameSlot::new());
    let a = g.stop();
    assert_eq!(a, SessionAction::NoAction);
    assert_eq!(g.phase, SessionPhase::Stopped);
}

#[test]
fn stop_after_failure_keeps_the_failure() {
    let mut g = Grabber::new(0, FrameSlot::new());
    g.start();
    g.step(SessionEvent::WindowsFailed);
    let a = g.stop();
    assert_eq!(a, SessionAction::NoAction);
    assert_eq!(g.phase, SessionPhase::Failed(SessionError::Enumeration));
}

#[test]
fn second_instance_selects_its_own_pattern() {
    let mut g = Grabber::new(1, FrameSlot::new());
    g.start();
    let ws = vec![
        window(Some("A"), Some("GLIDE-ELECTRON WIN 1"), 640, 480),
        window(Some("B"), Some("GLIDE-ELECTRON WIN 2"), 800, 600),
    ];
    let a = g.step(SessionEvent::WindowsReady(ws));
    let req = match a {
        SessionAction::AttachDelegate(req) => req,
        other => panic!("expected an attach request, got {:?}", other),
    };
    assert_eq!(req.window_index, 1);
    assert_eq!(req.delegate_tag, 101);
    assert_eq!(req.config.width, 800);
}
