use copernicus_explorer::tui::{
    format_bytes, spinner_frame, truncate, xml_escape, FilterField, Pane,
};

/// `format_bytes` written directly with floating point, as a reference.
fn reference(bytes: u64) -> String {
    const UNITS: [&str; 5] = ["B", "KB", "MB", "GB", "TB"];
    let mut size = bytes as f64;
    let mut unit = 0;
    while size >= 1024.0 && unit < UNITS.len() - 1 {
        size /= 1024.0;
        unit += 1;
    }
    if unit == 0 {
        format!("{} {}", bytes, UNITS[0])
    } else {
        format!("{size:.1} {}", UNITS[unit])
    }
}

#[test]
fn format_bytes_examples() {
    assert_eq!(format_bytes(0), "0 B");
    assert_eq!(format_bytes(512), "512 B");
    assert_eq!(format_bytes(1023), "1023 B");
    assert_eq!(format_bytes(1024), "1.0 KB");
    assert_eq!(format_bytes(1536), "1.5 KB");
    assert_eq!(format_bytes(1024 * 1024), "1.0 MB");
    assert_eq!(format_bytes(5 * 1024 * 1024 * 1024), "5.0 GB");
    assert_eq!(format_bytes(3 * 1024u64.pow(4)), "3.0 TB");
    assert_eq!(format_bytes(2048 * 1024u64.pow(4)), "2048.0 TB");
}

#[test]
fn format_bytes_ties_round_to_even() {
    // 1.25 KB and 1.75 KB lie exactly between two tenths.
    assert_eq!(format_bytes(1280), reference(1280));
    assert_eq!(format_bytes(1280), "1.2 KB");
    assert_eq!(format_bytes(1792), reference(1792));
    assert_eq!(format_bytes(1792), "1.8 KB");
}

#[test]
fn format_bytes_matches_floating_point() {
    let mut samples: Vec<u64> = vec![u64::MAX, u64::MAX - 1, (1 << 53) + 1, (1 << 60) + 12345];
    let mut x: u64 = 0x9E37_79B9_7F4A_7C15;
    for _ in 0..20000 {
        x ^= x << 13;
        x ^= x >> 7;
        x ^= x << 17;
        samples.push(x >> (x % 64));
    }
    for k in 0..5u32 {
        let p = 1024u64.pow(k);
        for d in [0u64, 1, 2, 3, 5, 51, 52, 102, 103, 512, 1023] {
            samples.push(p.saturating_mul(1024).saturating_sub(d));
            samples.push(p.saturating_add(d));
            samples.push(p.saturating_mul(3).saturating_add(d * (p / 20 + 1)));
        }
    }
    for b in samples {
        assert_eq!(format_bytes(b), reference(b), "bytes = {b}");
    }
}

#[test]
fn filter_field_labels() {
    assert_eq!(FilterField::Satellite.label(), "Satellite");
    assert_eq!(FilterField::CloudCover.label(), "Cloud cover %");
    assert_eq!(FilterField::Bbox.label(), "BBox (tlat,llon,blat,rlon)");
    assert_eq!(FilterField::MaxResults.label(), "Max results");
}

#[test]
fn filter_field_text_kinds() {
    assert!(!FilterField::Satellite.is_text());
    assert!(!FilterField::Product.is_text());
    for f in FilterField::ALL.iter().skip(2) {
        assert!(f.is_text());
    }
}

#[test]
fn filter_field_order_wraps() {
    assert_eq!(FilterField::MaxResults.next(), FilterField::Satellite);
    assert_eq!(FilterField::Satellite.previous(), FilterField::MaxResults);
    for f in FilterField::ALL {
        assert_eq!(f.next().previous(), f);
        assert_eq!(f.previous().next(), f);
    }
}

#[test]
fn panes_cycle() {
    assert_eq!(Pane::Filters.next(), Pane::Results);
    assert_eq!(Pane::Results.next(), Pane::Downloads);
    assert_eq!(Pane::Downloads.next(), Pane::Filters);
    for p in [Pane::Filters, Pane::Results, Pane::Downloads] {
        assert_eq!(p.next().previous(), p);
    }
}

#[test]
fn truncate_cuts_with_ellipsis() {
    assert_eq!(truncate("abcdef", 0), "");
    assert_eq!(truncate("abcdef", 1), "…");
    assert_eq!(truncate("abcdef", 4), "abc…");
    assert_eq!(truncate("abcdef", 6), "abcdef");
    assert_eq!(truncate("héllo", 3), "hé…");
}

#[test]
fn xml_escape_special_characters() {
    assert_eq!(xml_escape("a<b>&\"c\""), "a&lt;b&gt;&amp;&quot;c&quot;");
    assert_eq!(xml_escape("plain text"), "plain text");
}

#[test]
fn spinner_frames_advance() {
    assert_eq!(spinner_frame(None), "⠋");
    assert_eq!(spinner_frame(Some(79)), "⠋");
    assert_eq!(spinner_frame(Some(80)), "⠙");
    assert_eq!(spinner_frame(Some(800)), "⠋");
}
