use wlgif::error::Error;
use wlgif::region::{Region, SlurpError};

#[test]
fn parse_slurp_output() {
    let region = Region::from_slurp("100,200 800x600").unwrap();
    assert_eq!(region.x, 100);
    assert_eq!(region.y, 200);
    assert_eq!(region.width, 800);
    assert_eq!(region.height, 600);
}

#[test]
fn parse_geometry() {
    let region = Region::from_geometry("800x600+100+200").unwrap();
    assert_eq!(region.width, 800);
    assert_eq!(region.height, 600);
    assert_eq!(region.x, 100);
    assert_eq!(region.y, 200);
}

#[test]
fn wf_recorder_format() {
    let region = Region {
        x: 100,
        y: 200,
        width: 800,
        height: 600,
    };
    assert_eq!(region.to_wf_recorder_arg(), "100,200 800x600");
}

fn slurp_err(s: &str) -> SlurpError {
    match Region::from_slurp(s) {
        Ok(r) => panic!("unexpected region {:?}", r),
        Err(e) => e,
    }
}

fn fields(r: Region) -> (u32, u32, u32, u32) {
    (r.x, r.y, r.width, r.height)
}

#[test]
fn slurp_tolerates_surrounding_whitespace_and_trailing_words() {
    let r = Region::from_slurp("  \t0,0   1x1\n").unwrap();
    assert_eq!(fields(r), (0, 0, 1, 1));
    let r = Region::from_slurp("5,6 7x8 extra words").unwrap();
    assert_eq!(fields(r), (5, 6, 7, 8));
    // pieces after the second separator are ignored, a leading '+' is accepted
    let r = Region::from_slurp("+1,2,3 4x5x6").unwrap();
    assert_eq!(fields(r), (1, 2, 4, 5));
    // unicode whitespace separates words too
    let r = Region::from_slurp("1,2\u{3000}3x4\u{a0}").unwrap();
    assert_eq!(fields(r), (1, 2, 3, 4));
}

#[test]
fn slurp_extremes() {
    let r = Region::from_slurp("4294967295,0 0x4294967295").unwrap();
    assert_eq!(fields(r), (u32::MAX, 0, 0, u32::MAX));
    assert_eq!(slurp_err("4294967296,0 1x1"), SlurpError::InvalidX);
    let r = Region::from_slurp("000000000000012,7 8x9").unwrap();
    assert_eq!(fields(r), (12, 7, 8, 9));
}

#[test]
fn slurp_errors() {
    assert_eq!(slurp_err(""), SlurpError::MissingPosition);
    assert_eq!(slurp_err("   \n"), SlurpError::MissingPosition);
    assert_eq!(slurp_err("100,200"), SlurpError::MissingSize);
    assert_eq!(slurp_err("a,200 800x600"), SlurpError::InvalidX);
    assert_eq!(slurp_err(",200 800x600"), SlurpError::InvalidX);
    assert_eq!(slurp_err("-1,200 800x600"), SlurpError::InvalidX);
    assert_eq!(slurp_err("100 800x600"), SlurpError::MissingY);
    assert_eq!(slurp_err("100, 800x600"), SlurpError::InvalidY);
    assert_eq!(slurp_err("100,+ 800x600"), SlurpError::InvalidY);
    assert_eq!(slurp_err("100,200 x600"), SlurpError::InvalidWidth);
    assert_eq!(slurp_err("100,200 800"), SlurpError::MissingHeight);
    assert_eq!(slurp_err("100,200 800x"), SlurpError::InvalidHeight);
    assert_eq!(slurp_err("100,200 800x6OO"), SlurpError::InvalidHeight);
}

#[test]
fn slurp_error_messages() {
    assert_eq!(SlurpError::MissingPosition.message(), "missing position in slurp output");
    assert_eq!(SlurpError::MissingSize.message(), "missing size in slurp output");
    assert_eq!(SlurpError::InvalidX.message(), "invalid X coordinate");
    assert_eq!(SlurpError::MissingY.message(), "missing Y");
    assert_eq!(SlurpError::InvalidY.message(), "invalid Y coordinate");
    assert_eq!(SlurpError::InvalidWidth.message(), "invalid width");
    assert_eq!(SlurpError::MissingHeight.message(), "missing height");
    assert_eq!(SlurpError::InvalidHeight.message(), "invalid height");
}

fn invalid_region_text(s: &str) -> String {
    match Region::from_geometry(s) {
        Err(Error::InvalidRegion(t)) => t,
        other => panic!("unexpected {:?}", other),
    }
}

#[test]
fn geometry_errors_hold_trimmed_input() {
    assert_eq!(invalid_region_text("  800x600+100 \n"), "800x600+100");
    assert_eq!(invalid_region_text("800x600+100+200+5"), "800x600+100+200+5");
    assert_eq!(invalid_region_text("800x600++100"), "800x600++100");
    assert_eq!(invalid_region_text(" 800x600+1a0+200"), "800x600+1a0+200");
    assert_eq!(invalid_region_text("800x600+100+4294967296"), "800x600+100+4294967296");
    assert_eq!(invalid_region_text(""), "");
    let e = Region::from_geometry("bogus").unwrap_err();
    assert_eq!(
        e.message(),
        "invalid region format: bogus\n  expected: WxH+X+Y (e.g., 800x600+100+100)"
    );
}

#[test]
fn geometry_accepts_padding_and_x_or_plus_anywhere() {
    let r = Region::from_geometry("\t1x2+3+4  ").unwrap();
    assert_eq!(fields(r), (3, 4, 1, 2));
    // the separators are interchangeable
    let r = Region::from_geometry("1+2x3x4").unwrap();
    assert_eq!(fields(r), (3, 4, 1, 2));
}

#[test]
fn slurp_reads_back_wf_recorder_arg() {
    for &(x, y, w, h) in &[
        (0, 0, 0, 0),
        (100, 200, 800, 600),
        (u32::MAX, 1, 10, 9),
        (7, u32::MAX, u32::MAX, u32::MAX),
    ] {
        let r = Region { x, y, width: w, height: h };
        let back = Region::from_slurp(&r.to_wf_recorder_arg()).unwrap();
        assert_eq!(fields(back), (x, y, w, h));
    }
}

#[test]
fn geometry_reads_back_its_form() {
    let r = Region::from_geometry(&format!("{}x{}+{}+{}", 1920, 1080, 0, u32::MAX)).unwrap();
    assert_eq!(fields(r), (0, u32::MAX, 1920, 1080));
}

#[test]
fn display_string() {
    let r = Region { x: 10, y: 20, width: 300, height: 400 };
    assert_eq!(r.to_display_string(), "300x400 at (10, 20)");
}
