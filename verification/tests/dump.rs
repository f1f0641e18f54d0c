use lc3_traits::tools::dump::{
    dump_is_complete, find_memory, line_kind_of, memory_entry_of, parse_dump, string_flags, words_by_line, LineKind,
};
use lc3_traits::tools::hex_string_to_integer_checked;
use lc3_traits::tools::text::{find_from, lines_of, split_str, str_contains, words_of};

fn flags(s: &str) -> string_flags {
    string_flags { temp_string: s.to_string(), condition: true }
}

#[test]
fn find_memory_returns_the_first_match() {
    let lines = vec![flags("x3000: x1234"), flags("xF000: x0001"), flags("xF000: x0002")];
    assert_eq!(find_memory(lines.clone(), "xF000"), "xF000: x0001");
    assert_eq!(find_memory(lines.clone(), "x3000"), "x3000: x1234");
    assert_eq!(find_memory(lines, "x4000"), "Can't find");
    assert_eq!(find_memory(Vec::new(), ""), "Can't find");
}

#[test]
fn substring_search() {
    assert!(str_contains("PC: x3000", "PC: "));
    assert!(!str_contains("PSR: x8002", "PC: "));
    assert!(str_contains("abc", ""));
    assert_eq!(find_from("abcabc", "bc", 0), Some(1));
    assert_eq!(find_from("abcabc", "bc", 2), Some(4));
    assert_eq!(find_from("abcabc", "bc", 5), None);
    assert_eq!(find_from("ab", "abc", 0), None);
}

#[test]
fn splitting_matches_str_split() {
    for (s, p) in [("a,b,,c", ","), ("R0: x0 R1: x1", "R"), ("", ","), ("abc", "abc"), ("xxx", "xx"), ("é,ü", ",")] {
        let expected: Vec<&str> = s.split(p).collect();
        assert_eq!(split_str(s, p), expected);
    }
}

#[test]
fn lines_and_words_match_std() {
    for s in ["", "a", "a\n", "a\r\nb", "a\r", "\n\nx\n", "one two\tthree\n  four  \r\nfive\u{3000}six"] {
        let expected: Vec<&str> = s.lines().collect();
        assert_eq!(lines_of(s), expected);
        let expected_words: Vec<&str> = s.split_whitespace().collect();
        assert_eq!(words_of(s), expected_words);
        let by_line: Vec<Vec<&str>> = s.lines().map(|l| l.split_whitespace().collect()).collect();
        assert_eq!(words_by_line(s), by_line);
    }
}

#[test]
fn checked_hex() {
    assert_eq!(hex_string_to_integer_checked("FFFF"), Some(0xFFFF));
    assert_eq!(hex_string_to_integer_checked("3000"), Some(0x3000));
}

#[test]
fn line_kinds() {
    assert_eq!(line_kind_of(0, "PC: x3000"), LineKind::Pc);
    assert_eq!(line_kind_of(0, "PSR: x8002"), LineKind::Psr);
    assert_eq!(line_kind_of(0, "R0: x0000 R1: x0001 R2: x0002 R3: x0003"), LineKind::R0);
    assert_eq!(line_kind_of(0, "R4: x0004 R5: x0005 R6: x0006 R7: x0007"), LineKind::R4);
    assert_eq!(line_kind_of(32, "0x3000: 0x1234"), LineKind::Header);
    assert_eq!(line_kind_of(33, "0x3000: 0x1234"), LineKind::Memory);
}

#[test]
fn memory_entries() {
    assert_eq!(memory_entry_of("0x3000: 0x1234 ADD R0, R0, R1"), Some((0x3000, 0x1234)));
    assert_eq!(memory_entry_of("0xFE00: 0x8000"), Some((0xFE00, 0x8000)));
    assert_eq!(memory_entry_of("0x3000:"), None);
    assert_eq!(memory_entry_of("3000: 0x1"), None);
}

fn dump_lines() -> Vec<String> {
    let mut ls: Vec<String> = Vec::new();
    ls.push("PC: 0x3000".to_string());
    ls.push("PSR: 0x8002".to_string());
    ls.push("R0: 0x0000 R1: 0x0001 R2: 0x0002 R3: 0x0003".to_string());
    ls.push("R4: 0x0004 R5: 0x0005 R6: 0x0006 R7: 0x0007".to_string());
    while ls.len() < 33 {
        ls.push("header".to_string());
    }
    ls.push("0x3000: 0x1234 ADD".to_string());
    ls.push("no hex here".to_string());
    ls.push("0x3001: 0xF025 HALT".to_string());
    ls.push("PC: 0x3001".to_string());
    ls
}

#[test]
fn a_dump_reads_back() {
    assert!(dump_is_complete(&dump_lines()));
    let d = parse_dump(&dump_lines());
    assert_eq!(d.pc, "0x3001");
    assert_eq!(d.psr, "0x8002");
    assert_eq!(d.registers, vec!["0x0000", "0x0001", "0x0002", "0x0003", "0x0004", "0x0005", "0x0006", "0x0007"]);
    assert_eq!(d.memory, vec![(0x3000, 0x1234), (0x3001, 0xF025)]);
}

#[test]
fn a_dump_without_registers_is_refused() {
    let ls: Vec<String> = dump_lines().into_iter().filter(|l| !l.starts_with("R4")).collect();
    assert!(!dump_is_complete(&ls));
    let mut ls = dump_lines();
    ls.push("0x3000:".to_string());
    assert!(!dump_is_complete(&ls));
}
