use wlgif::output::{format_size, summary};

fn float_size(bytes: u64) -> String {
    let size_kb = bytes as f64 / 1024.0;
    if size_kb >= 1024.0 {
        format!("{:.2} MB", size_kb / 1024.0)
    } else {
        format!("{:.1} KB", size_kb)
    }
}

#[test]
fn size_examples() {
    assert_eq!(format_size(0), "0.0 KB");
    assert_eq!(format_size(1024), "1.0 KB");
    assert_eq!(format_size(1536), "1.5 KB");
    assert_eq!(format_size(1048575), "1024.0 KB");
    assert_eq!(format_size(1048576), "1.00 MB");
    assert_eq!(format_size(5 * 1048576 + 524288), "5.50 MB");
}

#[test]
fn size_rounds_ties_to_even() {
    // 256 bytes is exactly 0.25 KB
    assert_eq!(format_size(256), "0.2 KB");
    // 768 bytes is exactly 0.75 KB
    assert_eq!(format_size(768), "0.8 KB");
}

#[test]
fn size_matches_float_formatting() {
    for b in 0..5000u64 {
        assert_eq!(format_size(b), float_size(b), "{}", b);
    }
    for b in (1040000..1060000u64).step_by(7) {
        assert_eq!(format_size(b), float_size(b), "{}", b);
    }
    let mut b: u64 = 1;
    while b < u64::MAX / 3 {
        for d in [0u64, 1, 2, 5, 10485, 10486] {
            for v in [b.wrapping_sub(d), b + d, b * 3 + d] {
                assert_eq!(format_size(v), float_size(v), "{}", v);
            }
        }
        b *= 2;
    }
    for v in [u64::MAX, u64::MAX - 1, u64::MAX - 2048, (1u64 << 53) + 1, (1u64 << 54) + 3] {
        assert_eq!(format_size(v), float_size(v), "{}", v);
    }
}

#[test]
fn summary_lines() {
    let (saved, size) = summary("out/cap.gif", 2048);
    assert_eq!(saved, "Saved: out/cap.gif");
    assert_eq!(size, "Size: 2.0 KB");
}
