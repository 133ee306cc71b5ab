use fs25_ffb::text::{
    chars_of, chomp, contains, copy_opt, decimal_text, hex_text, join_path, parse_u32, read_number,
    same_text, split_tokens, starts_with, trim, TokenClass,
};

#[test]
fn numbers_in_decimal() {
    assert_eq!(decimal_text(0), "0");
    assert_eq!(decimal_text(9), "9");
    assert_eq!(decimal_text(10), "10");
    assert_eq!(decimal_text(2300320), "2300320");
    assert_eq!(decimal_text(u64::MAX), format!("{}", u64::MAX));
}

#[test]
fn numbers_in_hexadecimal() {
    assert_eq!(hex_text(0x346e, 4, false), "346e");
    assert_eq!(hex_text(0x346e, 4, true), "346E");
    assert_eq!(hex_text(2, 4, true), "0002");
    assert_eq!(hex_text(0xdeadbeef, 8, true), "DEADBEEF");
    assert_eq!(hex_text(0x12345, 4, false), "2345");
    assert_eq!(hex_text(7, 0, false), "");
}

#[test]
fn texts_are_compared_by_their_characters() {
    assert!(same_text("wheel", "wheel"));
    assert!(!same_text("wheel", "Wheel"));
    assert!(!same_text("wheel", "wheels"));
    assert!(same_text("", ""));
    assert_eq!(chars_of("aé"), vec!['a', 'é']);
}

#[test]
fn parts_are_found() {
    assert!(contains("GE-Proton9-25", "Proton9"));
    assert!(contains("9.0-203", "9."));
    assert!(contains("abc", ""));
    assert!(contains("", ""));
    assert!(!contains("", "a"));
    assert!(!contains("8.0", "9."));
    assert!(contains("xaab", "ab"));
}

#[test]
fn fronts_are_found() {
    assert!(starts_with("GE-Proton9-25", "GE-Proton"));
    assert!(starts_with("x", ""));
    assert!(!starts_with("GE", "GE-Proton"));
    assert!(!starts_with("a GE-Proton9", "GE-Proton"));
}

#[test]
fn white_space_is_trimmed_like_the_standard_library_does() {
    for s in [
        "",
        " ",
        "  6.14.3-1-cachyos\n",
        "\t a b \r\n",
        "\u{85}\u{a0}x\u{2003}",
        "\u{200b}x",
        "no space",
    ] {
        assert_eq!(trim(s), s.trim());
    }
}

#[test]
fn line_feeds_are_cut_off_the_end() {
    assert_eq!(chomp("line\n\n"), "line");
    assert_eq!(chomp("line\r\n"), "line\r");
    assert_eq!(chomp("\n"), "");
    assert_eq!(chomp("a\nb"), "a\nb");
}

#[test]
fn tokens_are_maximal_runs() {
    assert_eq!(split_tokens("6.14.3-1-cachyos", TokenClass::Digits), vec!["6", "14", "3", "1"]);
    assert_eq!(split_tokens("none", TokenClass::Digits).len(), 0);
    assert_eq!(split_tokens(" wheel  input\n", TokenClass::Words), vec!["wheel", "input"]);
    assert_eq!(split_tokens("", TokenClass::Words).len(), 0);
}

#[test]
fn decimal_numbers_are_read_like_the_standard_library_does() {
    for s in ["0", "7", "007", "+7", "+", "", "-1", "4294967295", "4294967296", "12a", "99999999999999999999"] {
        assert_eq!(parse_u32(s), s.parse::<u32>().ok());
    }
}

#[test]
fn numbers_are_read_out_of_texts() {
    assert_eq!(read_number("GE-Proton9-25", 9), (9, 10));
    assert_eq!(read_number("GE-Proton9-25", 11), (25, 13));
    assert_eq!(read_number("99999999999", 0), (u32::MAX, 11));
}

#[test]
fn paths_are_joined_like_the_standard_library_does() {
    for base in ["", "/", "/home/me", "/home/me/", "rel"] {
        for rest in ["", "a/b", "/abs"] {
            let expected = std::path::Path::new(base).join(rest);
            assert_eq!(join_path(base, rest), expected.to_str().unwrap());
        }
    }
}

#[test]
fn absent_texts_stay_absent() {
    assert_eq!(copy_opt(&None), None);
    assert_eq!(copy_opt(&Some("x".to_string())), Some("x".to_string()));
}
