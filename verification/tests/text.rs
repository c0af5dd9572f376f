use tuigreet::greeter::InputBuffer;
use tuigreet::text::{
    chars_of, clone_string_list, contains_text, decimal_string, join, opt_string_eq,
    padded_decimal_string, parse_u16, parse_u32, parse_u8, run_backward_len, run_forward_len,
    spaces_string, split, split_once, str_eq, string_list_eq, trim, trim_bounds, white_flags_of,
};

#[test]
fn characters_are_read_in_order() {
    assert_eq!(chars_of("héllo"), vec!['h', 'é', 'l', 'l', 'o']);
    assert_eq!(chars_of(""), Vec::<char>::new());
}

#[test]
fn texts_are_compared_by_their_characters() {
    assert!(str_eq("abc", "abc"));
    assert!(!str_eq("abc", "abd"));
    assert!(!str_eq("abc", "ab"));
    assert!(str_eq("", ""));
    assert!(opt_string_eq(&Some("a".to_string()), &Some("a".to_string())));
    assert!(!opt_string_eq(&Some("a".to_string()), &None));
    assert!(opt_string_eq(&None, &None));
    assert!(!opt_string_eq(&Some("a".to_string()), &Some("b".to_string())));
    let a = vec!["x".to_string(), "y".to_string()];
    assert!(string_list_eq(&a, &a.clone()));
    assert!(!string_list_eq(&a, &vec!["x".to_string()]));
    assert!(!string_list_eq(&a, &vec!["x".to_string(), "z".to_string()]));
    assert_eq!(clone_string_list(&a), a);
}

#[test]
fn trim_removes_white_space_at_both_ends() {
    assert_eq!(trim("  a b \t\n"), "a b");
    assert_eq!(trim("ab"), "ab");
    assert_eq!(trim(" \u{a0}\u{3000}x\u{2003}"), "x");
    assert_eq!(trim("   "), "");
    assert_eq!(trim(""), "");
    for text in ["", " ", "a", " a", "a ", "  mid dle  ", "\r\n x \u{85}"] {
        assert_eq!(trim(text), text.trim());
    }
}

#[test]
fn split_cuts_at_every_separator() {
    assert_eq!(split("a:b:c", ':'), vec!["a", "b", "c"]);
    assert_eq!(split("", ':'), vec![""]);
    assert_eq!(split(":", ':'), vec!["", ""]);
    assert_eq!(split("a::b:", ':'), vec!["a", "", "b", ""]);
    assert_eq!(split("nothing", ';'), vec!["nothing"]);
    for text in ["", ";", "a;b", ";;a;", "é;ü"] {
        let expected: Vec<String> = text.split(';').map(|p| p.to_string()).collect();
        assert_eq!(split(text, ';'), expected);
    }
}

#[test]
fn split_once_cuts_at_the_first_separator() {
    assert_eq!(split_once("key=value", '='), Some(("key", "value")));
    assert_eq!(split_once("a=b=c", '='), Some(("a", "b=c")));
    assert_eq!(split_once("=x", '='), Some(("", "x")));
    assert_eq!(split_once("x=", '='), Some(("x", "")));
    assert_eq!(split_once("novalue", '='), None);
    assert_eq!(split_once("", '='), None);
}

#[test]
fn contains_finds_a_run_of_characters() {
    assert!(contains_text("sudo poweroff", "sudo"));
    assert!(contains_text("/usr/bin/doas reboot", "doas"));
    assert!(!contains_text("poweroff", "sudo"));
    assert!(!contains_text("sud", "sudo"));
    assert!(contains_text("anything", ""));
    assert!(contains_text("", ""));
    assert!(!contains_text("", "a"));
    assert!(contains_text("aab", "ab"));
}

#[test]
fn unsigned_numbers_are_read_strictly() {
    assert_eq!(parse_u32("0"), Some(0));
    assert_eq!(parse_u32("1000"), Some(1000));
    assert_eq!(parse_u32("+7"), Some(7));
    assert_eq!(parse_u32("007"), Some(7));
    assert_eq!(parse_u32("4294967295"), Some(4294967295));
    assert_eq!(parse_u32("4294967296"), None);
    assert_eq!(parse_u32("99999999999999999999999"), None);
    assert_eq!(parse_u32(""), None);
    assert_eq!(parse_u32("+"), None);
    assert_eq!(parse_u32("-"), None);
    assert_eq!(parse_u32("-1"), None);
    assert_eq!(parse_u32("++1"), None);
    assert_eq!(parse_u32(" 1"), None);
    assert_eq!(parse_u32("1 "), None);
    assert_eq!(parse_u32("1_000"), None);
    assert_eq!(parse_u32("12a"), None);
    assert_eq!(parse_u32("١٢"), None);
    assert_eq!(parse_u16("65535"), Some(65535));
    assert_eq!(parse_u16("65536"), None);
    assert_eq!(parse_u8("255"), Some(255));
    assert_eq!(parse_u8("256"), None);
    assert_eq!(parse_u8("12"), Some(12));
    for text in ["", "+", "-0", "+0", "0", "00", "255", "256", "1e3", "0x10", "４２"] {
        assert_eq!(parse_u8(text), text.parse::<u8>().ok());
        assert_eq!(parse_u16(text), text.parse::<u16>().ok());
        assert_eq!(parse_u32(text), text.parse::<u32>().ok());
    }
}

#[test]
fn numbers_are_written_in_base_ten() {
    assert_eq!(decimal_string(0), "0");
    assert_eq!(decimal_string(7), "7");
    assert_eq!(decimal_string(10), "10");
    assert_eq!(decimal_string(65535), "65535");
    assert_eq!(decimal_string(u64::MAX), "18446744073709551615");
    assert_eq!(padded_decimal_string(7, 3), "  7");
    assert_eq!(padded_decimal_string(42, 3), " 42");
    assert_eq!(padded_decimal_string(123, 3), "123");
    assert_eq!(padded_decimal_string(1234, 3), "1234");
    assert_eq!(padded_decimal_string(5, 0), "5");
    assert_eq!(spaces_string(0), "");
    assert_eq!(spaces_string(4), "    ");
}

#[test]
fn join_puts_the_separator_between_neighbours() {
    let parts = vec!["a=1".to_string(), "b=2".to_string(), "c=3".to_string()];
    assert_eq!(join(&parts, ";"), "a=1;b=2;c=3");
    assert_eq!(join(&vec!["solo".to_string()], ";"), "solo");
    assert_eq!(join(&Vec::new(), ";"), "");
    assert_eq!(join(&vec![String::new(), String::new()], ", "), ", ");
}

#[test]
fn input_line_is_edited_at_the_cursor() {
    let mut line = InputBuffer::new();
    assert!(line.is_empty());
    assert!(line.is_valid());
    line.insert('b');
    line.left();
    line.insert('a');
    line.right();
    line.insert('c');
    assert_eq!(line.text(), "abc");
    assert_eq!(line.cursor, 3);
    line.left();
    line.backspace();
    assert_eq!(line.text(), "ac");
    assert_eq!(line.cursor, 1);
    line.delete();
    assert_eq!(line.text(), "a");
    line.delete();
    line.right();
    assert_eq!(line.text(), "a");
    assert_eq!(line.cursor, 1);
    line.clear();
    assert!(line.is_empty());
    assert_eq!(line.cursor, 0);
    line.backspace();
    line.left();
    assert!(line.is_empty());

    let held = InputBuffer::holding("héllo");
    assert_eq!(held.cursor, 5);
    assert_eq!(held.text(), "héllo");

    let broken = InputBuffer { chars: vec!['a'], cursor: 2 };
    assert!(!broken.is_valid());
}

#[test]
fn runs_of_flags_are_counted_from_either_end() {
    let flags = vec![true, true, false, true, false, false];
    assert_eq!(run_forward_len(&flags, 0, true), 2);
    assert_eq!(run_forward_len(&flags, 0, false), 0);
    assert_eq!(run_forward_len(&flags, 2, false), 1);
    assert_eq!(run_forward_len(&flags, 4, false), 2);
    assert_eq!(run_forward_len(&flags, 6, false), 0);
    assert_eq!(run_forward_len(&flags, 9, true), 0);
    assert_eq!(run_backward_len(&flags, 6, false), 2);
    assert_eq!(run_backward_len(&flags, 6, true), 0);
    assert_eq!(run_backward_len(&flags, 2, true), 2);
    assert_eq!(run_backward_len(&flags, 0, true), 0);
    assert_eq!(run_backward_len(&flags, 7, false), 0);
    assert_eq!(run_forward_len(&Vec::new(), 0, true), 0);
}

#[test]
fn trim_bounds_leave_out_both_runs_of_white_space() {
    assert_eq!(trim_bounds(&vec![true, false, true]), (1, 2));
    assert_eq!(trim_bounds(&vec![true, true, false, true, false, true, true]), (2, 5));
    assert_eq!(trim_bounds(&vec![false, false]), (0, 2));
    assert_eq!(trim_bounds(&vec![true, true, true]), (3, 3));
    assert_eq!(trim_bounds(&vec![false]), (0, 1));
    assert_eq!(trim_bounds(&Vec::new()), (0, 0));
}

#[test]
fn white_space_is_flagged_character_by_character() {
    assert_eq!(white_flags_of(" a\tb\u{a0}"), vec![true, false, true, false, true]);
    assert_eq!(white_flags_of(""), Vec::<bool>::new());
    for text in [" x ", "\n", "a b", "\u{2028}é"] {
        let expected: Vec<bool> = text.chars().map(|c| c.is_whitespace()).collect();
        assert_eq!(white_flags_of(text), expected);
    }
}
