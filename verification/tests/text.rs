use overclock::json::{json_object2, json_str, json_unsigned, JsonNumber, JsonValue};
use overclock::registry::{read_registry_command, read_registry_dword, read_registry_string, write_registry_dword, write_registry_string};
use overclock::text::{
    chars_of, decimal_string, index_of_char, last_index_of_char, line_bounds, nonblank_lines_of, substring, parse_u32_str, str_contains, text_eq, trim_str,
};

#[test]
fn trimming_unicode_whitespace() {
    assert_eq!(trim_str("  a b\t\r\n"), "a b");
    assert_eq!(trim_str("\u{3000}x\u{a0}"), "x");
    assert_eq!(trim_str(" \n "), "");
    assert_eq!(trim_str("x\u{200b}"), "x\u{200b}");
}

#[test]
fn lines_like_str_lines() {
    assert_eq!(line_bounds(&chars_of("a\n\nb\n")), vec![(0, 1), (2, 2), (3, 4)]);
    assert_eq!(line_bounds(&chars_of("a\nbc")), vec![(0, 1), (2, 4)]);
    assert!(line_bounds(&chars_of("")).is_empty());
    assert_eq!(nonblank_lines_of("{A}\r\n  \r\n {B}"), vec!["{A}", "{B}"]);
    for s in ["x\r\ny\r\n", "\n\n", "one", " a \n b", "é\n ü \n"] {
        let mine: Vec<String> = nonblank_lines_of(s);
        let std_: Vec<String> = s.lines().map(|l| l.trim().to_string()).filter(|l| !l.is_empty()).collect();
        assert_eq!(mine, std_);
    }
}

#[test]
fn substrings_count_characters() {
    assert_eq!(substring("héllo", 1, 4), "éll");
    assert_eq!(substring("abc", 3, 3), "");
    assert_eq!(substring("a\u{3000}b", 0, 2), "a\u{3000}");
}

#[test]
fn searching() {
    assert!(str_contains("abcabd", "abd"));
    assert!(!str_contains("ab", "abc"));
    assert!(str_contains("x", ""));
    assert_eq!(index_of_char(&chars_of("a\\b\\c"), '\\'), Some(1));
    assert_eq!(last_index_of_char(&chars_of("a\\b\\c"), '\\'), Some(3));
    assert_eq!(index_of_char(&chars_of("abc"), '\\'), None);
    assert!(text_eq("same", "same"));
    assert!(!text_eq("same", "Same"));
}

#[test]
fn decimal_numbers() {
    assert_eq!(decimal_string(0), "0");
    assert_eq!(decimal_string(4294967295), "4294967295");
    assert_eq!(decimal_string(u64::MAX), u64::MAX.to_string());
    assert_eq!(parse_u32_str("42"), Some(42));
    assert_eq!(parse_u32_str("+42"), Some(42));
    assert_eq!(parse_u32_str("007"), Some(7));
    assert_eq!(parse_u32_str("-1"), None);
    assert_eq!(parse_u32_str("+"), None);
    assert_eq!(parse_u32_str(""), None);
    assert_eq!(parse_u32_str("4294967295"), Some(u32::MAX));
    assert_eq!(parse_u32_str("4294967296"), None);
    assert_eq!(parse_u32_str("12a"), None);
    for s in ["0", "+9", "00", "99999999999", "1 2", "٣"] {
        assert_eq!(parse_u32_str(s), s.parse::<u32>().ok());
    }
}

#[test]
fn registry_reads_and_writes() {
    assert_eq!(read_registry_dword(" 1\r\n"), Some(1));
    assert_eq!(read_registry_dword(""), None);
    assert_eq!(read_registry_dword("abc"), None);
    assert_eq!(read_registry_string("  10 \n"), Some("10".to_string()));
    assert_eq!(read_registry_string("\r\n"), None);
    assert_eq!(
        read_registry_command("HKCU", r"Control Panel\Mouse", "MouseSpeed"),
        r"(Get-ItemProperty -Path 'HKCU:\Control Panel\Mouse' -Name 'MouseSpeed' -ErrorAction SilentlyContinue).'MouseSpeed'"
    );
    assert_eq!(
        write_registry_dword("HKLM", "A", "B", 7),
        r"New-Item -Path 'HKLM:\A' -Force -ErrorAction SilentlyContinue | Out-Null; New-ItemProperty -Path 'HKLM:\A' -Name 'B' -Value 7 -PropertyType DWord -Force -ErrorAction SilentlyContinue | Out-Null"
    );
    assert_eq!(
        write_registry_string("HKCU", "A", "B", "x"),
        r"New-Item -Path 'HKCU:\A' -Force -ErrorAction SilentlyContinue | Out-Null; Set-ItemProperty -Path 'HKCU:\A' -Name 'B' -Value 'x' -Force -ErrorAction SilentlyContinue"
    );
}

#[test]
fn dword_written_then_read_back() {
    for v in [0u32, 1, 2, 3, 4294967295] {
        assert_eq!(read_registry_dword(&format!("{}\r\n", v)), Some(v));
    }
}

#[test]
fn json_accessors() {
    let o = json_object2("MouseSpeed", json_str("1"), "MouseSpeed", json_str("2"));
    assert_eq!(o.get("MouseSpeed").unwrap().as_str().map(|s| s.as_str()), Some("1"));
    assert!(o.get("Other").is_none());
    assert!(o.is_object());
    assert!(json_str("x").get("x").is_none());
    assert_eq!(json_unsigned(5).as_u64(), Some(5));
    assert_eq!(JsonValue::Number(JsonNumber::Negative(-5)).as_u64(), None);
    assert_eq!(JsonValue::Number(JsonNumber::Float("1.5".into())).as_u64(), None);
    assert!(JsonValue::Null.is_null());
    assert!(json_str("x").as_u64().is_none());
}
