use snare::text::{align_left, align_right, begin, blank, decimal, integer, same, white_space};

#[test]
fn numbers_in_decimal() {
    for n in [0u64, 7, 9, 10, 99, 100, 65535, u64::MAX] {
        assert_eq!(decimal(n), n.to_string());
    }
    for n in [0i64, -1, 42, -100, i64::MAX, i64::MIN] {
        assert_eq!(integer(n), n.to_string());
    }
}

#[test]
fn alignment_counts_characters() {
    assert_eq!(align_right("7", 3), format!("{:>3}", "7"));
    assert_eq!(align_right("···", 3), "···");
    assert_eq!(align_right("1000", 3), "1000");
    assert_eq!(align_left("GET", 5), format!("{:<5}", "GET"));
    assert_eq!(align_left("ÜÜ", 5), "ÜÜ   ");
    assert_eq!(align_left("OPTIONS", 5), "OPTIONS");
}

#[test]
fn beginnings_count_characters() {
    assert_eq!(begin("grün", 3), "grü");
    assert_eq!(begin("grün", 4), "grün");
    assert_eq!(begin("grün", 9), "grün");
    assert_eq!(begin("grün", 0), "");
}

#[test]
fn white_space_is_that_of_unicode() {
    for code in 0..=0x10ffffu32 {
        if let Some(c) = char::from_u32(code) {
            assert_eq!(white_space(c), c.is_whitespace(), "{code:x}");
        }
    }
}

#[test]
fn blank_lines() {
    for line in ["", " ", "\t\r\n", "\u{3000}\u{2003}"] {
        assert!(blank(line));
        assert!(line.trim().is_empty());
    }
    assert!(!blank("  x "));
    assert!(!blank("\u{200b}"));
}

#[test]
fn sameness() {
    assert!(same("ping", "ping"));
    assert!(!same("ping", "Ping"));
    assert!(!same("", " "));
}
