use alumy::fs::filesize::{format_size, is_whitespace, parse_size, parse_upper};

#[test]
fn test_parse_size() {
    // Basic units (binary)
    assert_eq!(parse_size("1k"), Some(1024));
    assert_eq!(parse_size("1kb"), Some(1024));
    assert_eq!(parse_size("1kib"), Some(1024));
    assert_eq!(parse_size("10M"), Some(10 * 1024 * 1024));
    assert_eq!(parse_size("10MB"), Some(10 * 1024 * 1024));
    assert_eq!(parse_size("10MiB"), Some(10 * 1024 * 1024));
    assert_eq!(parse_size("2G"), Some(2 * 1024 * 1024 * 1024));
    assert_eq!(parse_size("2GB"), Some(2 * 1024 * 1024 * 1024));
    assert_eq!(parse_size("2GiB"), Some(2 * 1024 * 1024 * 1024));
    assert_eq!(parse_size("1T"), Some(1024u64.pow(4)));
    assert_eq!(parse_size("1TB"), Some(1024u64.pow(4)));
    assert_eq!(parse_size("1TiB"), Some(1024u64.pow(4)));
    assert_eq!(parse_size("1P"), Some(1024u64.pow(5)));
    assert_eq!(parse_size("1PB"), Some(1024u64.pow(5)));
    assert_eq!(parse_size("1PiB"), Some(1024u64.pow(5)));

    // No unit (bytes)
    assert_eq!(parse_size("512"), Some(512));
    assert_eq!(parse_size("1024B"), Some(1024));

    // Case insensitivity
    assert_eq!(parse_size("1KB"), Some(1024));
    assert_eq!(parse_size("1kb"), Some(1024));
    assert_eq!(parse_size("1Kb"), Some(1024));

    // Whitespace handling
    assert_eq!(parse_size("  1024  "), Some(1024));
    assert_eq!(parse_size("  1 M  "), Some(1024 * 1024));

    // Invalid inputs
    assert_eq!(parse_size("invalid"), None);
    assert_eq!(parse_size(""), None);
    assert_eq!(parse_size("1.5G"), None);
    assert_eq!(parse_size("-1024"), None);
}

#[test]
fn test_format_size() {
    assert_eq!(format_size(512), "512B");
    assert_eq!(format_size(1024), "1.0KB");
    assert_eq!(format_size(1024 * 1024), "1.0MB");
    assert_eq!(format_size(1024 * 1024 * 1024), "1.0GB");
    assert_eq!(format_size(1024u64.pow(4)), "1.0TB");
    assert_eq!(format_size(1024u64.pow(5)), "1.0PB");
    assert_eq!(format_size(1536), "1.5KB");
}

/// The size that a string states, computed with the standard library alone.
fn size_by_std(text: &str) -> Option<u64> {
    let units: [(&str, u64); 16] = [
        ("PIB", 1024u64.pow(5)),
        ("PB", 1024u64.pow(5)),
        ("P", 1024u64.pow(5)),
        ("TIB", 1024u64.pow(4)),
        ("TB", 1024u64.pow(4)),
        ("T", 1024u64.pow(4)),
        ("GIB", 1024u64.pow(3)),
        ("GB", 1024u64.pow(3)),
        ("G", 1024u64.pow(3)),
        ("MIB", 1024u64.pow(2)),
        ("MB", 1024u64.pow(2)),
        ("M", 1024u64.pow(2)),
        ("KIB", 1024),
        ("KB", 1024),
        ("K", 1024),
        ("B", 1),
    ];
    let s = text.trim().to_uppercase();
    if s.is_empty() {
        return None;
    }
    let (value, unit) = units
        .iter()
        .find(|(suffix, _)| s.ends_with(suffix))
        .map(|(suffix, unit)| (&s[..s.len() - suffix.len()], *unit))
        .unwrap_or((s.as_str(), 1));
    value.trim().parse::<u64>().ok().and_then(|v| v.checked_mul(unit))
}

/// The text of a size, computed in floating point.
fn text_by_float(bytes: u64) -> String {
    let k = 1024f64;
    if bytes < 1024 {
        format!("{}B", bytes)
    } else if bytes < 1024u64.pow(2) {
        format!("{:.1}KB", bytes as f64 / k)
    } else if bytes < 1024u64.pow(3) {
        format!("{:.1}MB", bytes as f64 / (k * k))
    } else if bytes < 1024u64.pow(4) {
        format!("{:.1}GB", bytes as f64 / (k * k * k))
    } else if bytes < 1024u64.pow(5) {
        format!("{:.1}TB", bytes as f64 / (k * k * k * k))
    } else {
        format!("{:.1}PB", bytes as f64 / (k * k * k * k * k))
    }
}

#[test]
fn whitespace_is_the_unicode_property() {
    for code in 0u32..=0x10FFFF {
        if let Some(c) = char::from_u32(code) {
            assert_eq!(is_whitespace(c), c.is_whitespace(), "U+{:04X}", code);
        }
    }
}

#[test]
fn parse_size_agrees_with_std_on_odd_inputs() {
    let inputs = [
        "", " ", "\t\n", "0", "00", "007", "+5", "+", "++5", "-5", "5+", "+5k", "+ 5k", "5 +k",
        "1k", "1K", "1 k", "1\tk", "1\u{a0}k", "\u{3000}1k\u{2003}", "1k b", "1ki", "1ib", "1i",
        "kb", "k", "b", "ib", "kib", " kib", "1xib", "1bb", "1kbb", "1kk", "1mk", "1pib", "1pb",
        "1tib", "1gib", "1mib", "1e3", "1_000", "1,000", "0x10", "١٢٣", "1\u{131}b", "1k\u{131}b",
        "1\u{212a}", "1\u{212a}b", "1\u{fb06}", "1ﬆ", "1ß", "12\u{17f}", "1Ｋ", "１k", "1 2k",
        "18446744073709551615", "18446744073709551616", "18446744073709551615b",
        "18446744073709551615k", "18014398509481983k", "18014398509481984k", "16383p", "16384p",
        "99999999999999999999999999", "99999999999999999999999999x", "000000000000000000000001k",
        "1\u{0}", "\u{0}1", "1 \u{85} m", "1\u{2028}MB", "1\u{200b}k", "1\u{180e}k", "1\u{feff}k",
    ];
    for text in inputs {
        assert_eq!(parse_size(text), size_by_std(text), "{:?}", text);
    }
}

#[test]
fn parse_size_does_not_wrap() {
    assert_eq!(parse_size("18014398509481983k"), Some(18014398509481983 * 1024));
    assert_eq!(parse_size("18014398509481984k"), None);
    assert_eq!(parse_size("16384p"), None);
    assert_eq!(parse_size("18446744073709551615"), Some(u64::MAX));
    assert_eq!(parse_size("18446744073709551616"), None);
}

#[test]
fn parse_size_takes_the_upper_case_of_unicode() {
    // the dotless i becomes `I` in upper case, the Kelvin sign stays
    assert_eq!(parse_size("1k\u{131}b"), Some(1024));
    assert_eq!(parse_size("1\u{212a}"), None);
    assert_eq!(parse_upper("1k\u{131}b"), None);
}

#[test]
fn parse_upper_reads_trimmed_upper_case_text() {
    assert_eq!(parse_upper("10M"), Some(10 * 1024 * 1024));
    assert_eq!(parse_upper("512 KB"), Some(512 * 1024));
    assert_eq!(parse_upper("1024"), Some(1024));
    assert_eq!(parse_upper("7B"), Some(7));
    assert_eq!(parse_upper("3GIB"), Some(3 * 1024 * 1024 * 1024));
    assert_eq!(parse_upper("10m"), None);
    assert_eq!(parse_upper(""), None);
    assert_eq!(parse_upper("KB"), None);
    assert_eq!(parse_upper(" 1K"), Some(1024));
}

#[test]
fn format_size_rounds_to_the_nearest_tenth() {
    assert_eq!(format_size(0), "0B");
    assert_eq!(format_size(1023), "1023B");
    assert_eq!(format_size(1075), "1.0KB");
    assert_eq!(format_size(1076), "1.1KB");
    assert_eq!(format_size(1048575), "1024.0KB");
    assert_eq!(format_size(10 * 1024 * 1024 + 512 * 1024), "10.5MB");
    assert_eq!(format_size(u64::MAX), "16384.0PB");
}

#[test]
fn format_size_breaks_ties_to_the_even_digit() {
    // 1280 / 1024 = 1.25 and 1408 / 1024 = 1.375, 1664 / 1024 = 1.625
    assert_eq!(format_size(1280), "1.2KB");
    assert_eq!(format_size(1024 + 128 + 256), "1.4KB");
    assert_eq!(format_size(1024 + 768), "1.8KB");
    assert_eq!(format_size(1024 + 256 + 512 + 128), "1.9KB");
    // 1.15 exactly would be a tie; 1177.6 bytes is no byte count
    assert_eq!(format_size(5 * 256), "1.2KB");
    assert_eq!(format_size(15 * 256), "3.8KB");
    assert_eq!(format_size(25 * 256), "6.2KB");
}

#[test]
fn format_size_agrees_with_floating_point() {
    let mut samples: Vec<u64> = Vec::new();
    for shift in 0..64u32 {
        let p = 1u64 << shift;
        for delta in 0..40u64 {
            samples.push(p.wrapping_add(delta));
            samples.push(p.wrapping_sub(delta));
            samples.push(p.wrapping_add(p / 2).wrapping_add(delta));
            samples.push(p.wrapping_add(p / 20 * delta));
            samples.push(p.wrapping_add(p / 20 * delta).wrapping_add(p / 40));
        }
    }
    for k in 0..4000u64 {
        samples.push(k * 256);
        samples.push(k * 256 * 1024);
        samples.push(k * 256 * 1024 * 1024 * 1024 * 1024);
        samples.push(u64::MAX - k);
        samples.push((1u64 << 53) + k);
        samples.push((1u64 << 54) - 2000 + k);
        samples.push((1u64 << 60) + k * 64);
        samples.push((1u64 << 63) + k * 1024 - 7);
    }
    let mut x: u64 = 0x9E37_79B9_7F4A_7C15;
    for _ in 0..20000 {
        x ^= x << 13;
        x ^= x >> 7;
        x ^= x << 17;
        samples.push(x);
        samples.push(x >> (x % 64));
    }
    for bytes in samples {
        assert_eq!(format_size(bytes), text_by_float(bytes), "{}", bytes);
    }
}
