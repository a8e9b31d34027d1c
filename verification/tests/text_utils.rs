use utalk_bot::text::{
    contains, digits_only, ends_with, find, i64_to_decimal, i64_to_lower_hex, parse_usize, replace,
    starts_with, trim, trim_end_char, u64_to_decimal, usize_to_decimal,
};
use utalk_bot::assistant::{http_method, HttpMethod};
use utalk_bot::conversation::is_reset_command;

#[test]
fn trim_removes_unicode_white_space_at_both_ends() {
    assert_eq!(trim("  \t olá mundo \n"), "olá mundo");
    assert_eq!(trim("\u{00A0}x\u{2003}"), "x");
    assert_eq!(trim("   "), "");
    assert_eq!(trim(""), "");
}

#[test]
fn trim_is_idempotent_on_examples() {
    for s in ["  a b  ", "\n\nx", "y\t", "", " "] {
        let once = trim(s);
        assert_eq!(trim(&once), once);
    }
}

#[test]
fn replace_is_left_to_right_and_non_overlapping() {
    assert_eq!(replace("aaaa", "aa", "b"), "bb");
    assert_eq!(replace("aaa", "aa", "b"), "ba");
    assert_eq!(replace("Oi [TRANSFERIR] tchau [TRANSFERIR]", "[TRANSFERIR]", ""), "Oi  tchau ");
    assert_eq!(replace("sem marca", "[TRANSFERIR]", "x"), "sem marca");
    assert_eq!(replace("```json\n{}\n```", "```json", ""), "\n{}\n```");
}

#[test]
fn find_counts_characters() {
    assert_eq!(find("çãoabc", "abc"), Some(3));
    assert_eq!(find("abc", "d"), None);
    assert_eq!(find("abc", ""), Some(0));
    assert!(contains("poço artesiano", "poço"));
    assert!(!contains("rio", "represa"));
}

#[test]
fn prefixes_and_suffixes() {
    assert!(starts_with("https://x", "https://"));
    assert!(!starts_with("http", "https://"));
    assert!(ends_with("audio.wav", ".wav"));
    assert!(!ends_with("wav", ".wav"));
}

#[test]
fn trailing_slashes_are_dropped() {
    assert_eq!(trim_end_char("https://api/v1///", '/'), "https://api/v1");
    assert_eq!(trim_end_char("///", '/'), "");
}

#[test]
fn digits_are_kept_in_order() {
    assert_eq!(digits_only("+55 (11) 98765-4321"), "5511987654321");
    assert_eq!(digits_only("N/A"), "");
}

#[test]
fn decimal_and_hex_rendering() {
    assert_eq!(usize_to_decimal(0), "0");
    assert_eq!(usize_to_decimal(1234), "1234");
    assert_eq!(u64_to_decimal(u64::MAX), u64::MAX.to_string());
    assert_eq!(i64_to_decimal(-42), "-42");
    assert_eq!(i64_to_decimal(i64::MIN), i64::MIN.to_string());
    assert_eq!(i64_to_lower_hex(255), "ff");
    assert_eq!(i64_to_lower_hex(-1), format!("{:x}", -1i64));
}

#[test]
fn parse_usize_matches_std() {
    for s in ["0", "17", "+5", "", "+", "-1", "12a", "18446744073709551615", "18446744073709551616", " 1"] {
        assert_eq!(parse_usize(s), s.parse::<usize>().ok(), "input {:?}", s);
    }
}

#[test]
fn parse_inverts_decimal_rendering() {
    for n in [0usize, 9, 10, 99, 100, 123456789, usize::MAX] {
        assert_eq!(parse_usize(&usize_to_decimal(n)), Some(n));
    }
}

#[test]
fn case_mappings_are_unicode() {
    assert!(is_reset_command(true, "Reiniciar: TUBARAO_TESTES"));
    assert!(!is_reset_command(true, "TUBARÃO TESTES"));
    assert_eq!(http_method("patch"), HttpMethod::Patch);
    assert_eq!(http_method("dElEtE"), HttpMethod::Delete);
}

#[test]
fn empty_pattern_replacement_interleaves() {
    assert_eq!(replace("ab", "", "-"), "-a-b-");
    assert_eq!(replace("", "", "x"), "x");
}
