use wlgif::backend::wlr::{
    exited_error, first_missing, shutdown_outcome, unexpected_exit_error, wf_recorder_args,
    wlr_dependency_names, PollAction, RecordLoop, WlrBackend,
};
use wlgif::backend::xdg_portal::{
    gstreamer_element_names, gstreamer_error, gstreamer_pipeline, gstreamer_ready,
    keep_waiting_for_eos, node_status, portal_availability, BusAction, BusLoop, BusMessage,
    XDGPortalBackend,
};
use wlgif::backend::{by_name, choose_backend, detect, BackendError, BackendKind};
use wlgif::converter::CommandArg;
use wlgif::error::Error;
use wlgif::region::Region;

fn render(args: &[CommandArg]) -> Vec<String> {
    args.iter()
        .map(|a| match a {
            CommandArg::Text(s) => s.clone(),
            CommandArg::InputFile => "<in>".to_string(),
            CommandArg::OutputFile => "<out>".to_string(),
            CommandArg::PaletteFile => "<palette>".to_string(),
        })
        .collect()
}

#[test]
fn backend_names() {
    for name in ["wlr", "wlroots"] {
        let b = by_name(name).unwrap();
        assert!(matches!(b, BackendKind::Wlr(_)));
        assert_eq!(b.name(), "wlroots");
    }
    for name in ["xdg-desktop-portal", "xdg-portal", "portal"] {
        let b = by_name(name).unwrap();
        assert!(matches!(b, BackendKind::Portal(_)));
        assert_eq!(b.name(), "xdg-desktop-portal");
    }
    for name in ["gnome", "xdg"] {
        match by_name(name) {
            Err(BackendError::Unknown(n)) => assert_eq!(n, name),
            other => panic!("unexpected {:?}", other),
        }
    }
    assert_eq!(
        BackendError::Unknown("x".to_string()).message(),
        "unknown backend: x"
    );
    assert!(BackendError::NoneAvailable
        .message()
        .starts_with("no recording backend available\n  install either:\n    - "));
    assert_eq!(WlrBackend::new().name(), "wlroots");
    assert_eq!(XDGPortalBackend::new().name(), "xdg-desktop-portal");
}

#[test]
fn availability_reports_a_wlr_dependency() {
    match WlrBackend::new().is_available() {
        Ok(()) => {}
        Err(Error::MissingDependency { dep }) => {
            assert!(["slurp", "wf-recorder", "ffmpeg"].contains(&dep))
        }
        Err(e) => panic!("unexpected {:?}", e),
    }
}

#[test]
fn recorder_arguments() {
    let r = Region { x: 1, y: 2, width: 30, height: 40 };
    assert_eq!(
        render(&wf_recorder_args(Some(r), 15)),
        vec!["-g", "1,2 30x40", "-r", "15", "-c", "libx264rgb", "-p", "crf=18", "-f", "<out>"]
    );
    assert_eq!(
        render(&wf_recorder_args(None, 30)),
        vec!["-r", "30", "-c", "libx264rgb", "-p", "crf=18", "-f", "<out>"]
    );
}

#[test]
fn record_loop_counts_polls() {
    let mut l = RecordLoop::new(2);
    assert_eq!(l.step(false, None), PollAction::Wait);
    assert_eq!(l.step(false, None), PollAction::Wait);
    assert_eq!(l.step(false, None), PollAction::Interrupt);
    assert_eq!(l.polls, 2);
}

#[test]
fn record_loop_decisions() {
    let mut l = RecordLoop::new(10);
    assert_eq!(l.step(true, Some(true)), PollAction::Interrupt);
    assert_eq!(l.step(false, Some(true)), PollAction::Finished);
    assert_eq!(l.step(false, Some(false)), PollAction::Failed);
    assert_eq!(l.polls, 0);
    let mut none = RecordLoop::new(0);
    assert_eq!(none.step(false, Some(false)), PollAction::Interrupt);
}

#[test]
fn shutdown_outcomes() {
    assert!(shutdown_outcome(true, false, true));
    assert!(shutdown_outcome(false, true, true));
    assert!(shutdown_outcome(false, false, false));
    assert!(!shutdown_outcome(false, false, true));
}

#[test]
fn recording_errors() {
    assert_eq!(
        exited_error("exit status: 1").message(),
        "recording failed: wf-recorder exited: exit status: 1"
    );
    match unexpected_exit_error("signal: 9") {
        Error::Recording(m) => assert_eq!(m, "unexpected exit: signal: 9"),
        e => panic!("unexpected {:?}", e),
    }
}

#[test]
fn portal_pipeline() {
    assert_eq!(
        gstreamer_pipeline(7, 42, 15, "/tmp/x/capture.mp4"),
        "pipewiresrc fd=7 path=42 do-timestamp=true ! videoconvert ! videorate ! \
         video/x-raw,framerate=15/1 ! x264enc tune=zerolatency speed-preset=ultrafast ! \
         mp4mux ! filesink location=/tmp/x/capture.mp4"
    );
    assert_eq!(node_status(42, Some((1920, 1080))), "Recording PipeWire node 42 (1920x1080)");
    assert_eq!(node_status(3, None), "Recording PipeWire node 3 (0x0)");
    assert_eq!(node_status(3, Some((-1, 5))), "Recording PipeWire node 3 (-1x5)");
}

#[test]
fn portal_availability_needs_plugins() {
    match XDGPortalBackend::new().is_available(false) {
        Err(Error::MissingGSPlugins) => {}
        Err(Error::MissingDependency { dep }) => assert_eq!(dep, "ffmpeg"),
        other => panic!("unexpected {:?}", other),
    }
    match XDGPortalBackend::new().is_available(true) {
        Ok(()) => {}
        Err(Error::MissingDependency { dep }) => assert_eq!(dep, "ffmpeg"),
        other => panic!("unexpected {:?}", other),
    }
}

fn missing(r: Result<(), Error>) -> Option<&'static str> {
    match r {
        Ok(()) => None,
        Err(Error::MissingDependency { dep }) => Some(dep),
        Err(e) => panic!("unexpected {:?}", e),
    }
}

#[test]
fn first_missing_dependency_in_order() {
    assert_eq!(wlr_dependency_names(), vec!["slurp", "wf-recorder", "ffmpeg"]);
    assert_eq!(missing(first_missing((true, true, true))), None);
    assert_eq!(missing(first_missing((false, false, false))), Some("slurp"));
    assert_eq!(missing(first_missing((false, true, true))), Some("slurp"));
    assert_eq!(missing(first_missing((true, false, false))), Some("wf-recorder"));
    assert_eq!(missing(first_missing((true, true, false))), Some("ffmpeg"));
}

#[test]
fn portal_availability_order() {
    assert_eq!(missing(portal_availability(true, true)), None);
    assert_eq!(missing(portal_availability(false, false)), Some("ffmpeg"));
    assert_eq!(missing(portal_availability(false, true)), Some("ffmpeg"));
    assert!(matches!(portal_availability(true, false), Err(Error::MissingGSPlugins)));
}

#[test]
fn gstreamer_elements_checked() {
    assert_eq!(gstreamer_element_names(), vec!["pipewiresrc", "x264enc", "mp4mux"]);
    assert!(gstreamer_ready(true, &vec![true, true, true]));
    assert!(!gstreamer_ready(false, &vec![true, true, true]));
    assert!(!gstreamer_ready(true, &vec![true, false, true]));
    assert!(!gstreamer_ready(true, &vec![true, true]));
}

#[test]
fn auto_detection_prefers_the_portal() {
    assert!(matches!(choose_backend(true, true), Ok(BackendKind::Portal(_))));
    assert!(matches!(choose_backend(true, false), Ok(BackendKind::Portal(_))));
    assert!(matches!(choose_backend(false, true), Ok(BackendKind::Wlr(_))));
    assert!(matches!(choose_backend(false, false), Err(BackendError::NoneAvailable)));
    // without GStreamer's elements, the portal is never picked
    assert!(!matches!(detect(false), Ok(BackendKind::Portal(_))));
}

#[test]
fn portal_bus_loop() {
    let mut l = BusLoop::new(3);
    assert_eq!(l.step(false, BusMessage::Nothing), BusAction::Poll);
    assert_eq!(l.step(false, BusMessage::Other), BusAction::Poll);
    assert_eq!(l.step(false, BusMessage::Error), BusAction::Fail);
    assert_eq!(l.step(false, BusMessage::EndOfStream), BusAction::Finish);
    assert_eq!(l.step(true, BusMessage::Error), BusAction::Finish);
    assert_eq!(l.step(false, BusMessage::Nothing), BusAction::Poll);
    assert_eq!(l.step(false, BusMessage::Error), BusAction::Finish);
    assert_eq!(l.polls, 3);
    assert!(keep_waiting_for_eos(0, false));
    assert!(keep_waiting_for_eos(99, false));
    assert!(!keep_waiting_for_eos(100, false));
    assert!(!keep_waiting_for_eos(5, true));
    assert_eq!(
        gstreamer_error("no element").message(),
        "recording failed: GStreamer error: no element"
    );
}
