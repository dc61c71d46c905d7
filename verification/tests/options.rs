use wlgif::backend::wlr::WlrBackend;
use wlgif::backend::xdg_portal::XDGPortalBackend;
use wlgif::backend::BackendKind;
use wlgif::error::Error;
use wlgif::options::{get_region, validate_output, OutputError, RegionChoice};

#[test]
fn output_extension() {
    assert!(validate_output(Some("gif")).is_ok());
    match validate_output(Some("mp4")) {
        Err(e @ OutputError::WrongExtension(_)) => {
            assert_eq!(e.message(), "output must be a .gif file, got .mp4")
        }
        other => panic!("unexpected {:?}", other),
    }
    match validate_output(None) {
        Err(e @ OutputError::NoExtension) => assert_eq!(e.message(), "output must be a .gif file"),
        other => panic!("unexpected {:?}", other),
    }
    assert!(validate_output(Some("GIF")).is_err());
}

#[test]
fn region_choice() {
    let portal = BackendKind::Portal(XDGPortalBackend::new());
    let wlr = BackendKind::Wlr(WlrBackend::new());
    match get_region(Some("10x20+30+40"), portal) {
        Ok(RegionChoice::Given(r)) => assert_eq!((r.x, r.y, r.width, r.height), (30, 40, 10, 20)),
        other => panic!("unexpected {:?}", other),
    }
    assert!(matches!(get_region(None, portal), Ok(RegionChoice::FromPortal)));
    assert!(matches!(get_region(None, wlr), Ok(RegionChoice::SelectInteractively)));
    assert!(matches!(get_region(Some("nope"), wlr), Err(Error::InvalidRegion(_))));
}

#[test]
fn error_messages() {
    assert_eq!(
        Error::MissingDependency { dep: "slurp" }.message(),
        "missing dependency: slurp"
    );
    assert_eq!(Error::MissingGSPlugins.message(), "GStreamer plugins missing");
    assert_eq!(Error::SelectionCancelled.message(), "region selection cancelled");
    assert_eq!(Error::Recording("x".into()).message(), "recording failed: x");
    assert_eq!(Error::Conversion("y".into()).message(), "conversion failed: y");
    assert_eq!(Error::EmptyRecording.message(), "no video data captured");
}
