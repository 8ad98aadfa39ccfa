use tooly::command::Platform;
use tooly::path::join_path;
use tooly::text::{
    chars_eq, chars_of, find_first, find_last, is_whitespace, push_decimal, text_eq, trim,
};

#[test]
fn a_text_is_its_characters() {
    let v = chars_of("héllo, wörld");
    assert_eq!(v.len(), 12);
    assert_eq!(v[1], 'é');
    assert_eq!(v, "héllo, wörld".chars().collect::<Vec<char>>());
    assert_eq!(chars_of(""), Vec::<char>::new());
}

#[test]
fn text_equality_is_by_characters() {
    assert!(text_eq("run", "run"));
    assert!(!text_eq("run", "Run"));
    assert!(!text_eq("run", "runs"));
    assert!(!text_eq("runs", "run"));
    assert!(text_eq("", ""));
    assert!(chars_eq(&vec!['a', 'b'], &vec!['a', 'b']));
    assert!(!chars_eq(&vec!['a', 'b'], &vec!['a', 'c']));
}

#[test]
fn white_space_is_what_std_says() {
    let mut code: u32 = 0;
    while code <= 0x10FFFF {
        if let Some(c) = char::from_u32(code) {
            assert_eq!(is_whitespace(c), c.is_whitespace(), "U+{:04X}", code);
        }
        code += 1;
    }
}

#[test]
fn trim_takes_white_space_off_both_ends() {
    assert_eq!(trim("  hi \n"), "hi");
    assert_eq!(trim("hi"), "hi");
    assert_eq!(trim(""), "");
    assert_eq!(trim(" \t\r\n"), "");
    assert_eq!(trim("a b"), "a b");
    assert_eq!(trim("\u{3000}a\u{a0} b\u{2028}"), "a\u{a0} b");
    let samples = ["", " ", "x", " x", "x ", "\n\nx y\t\t", "\u{85}z\u{1680}", "  \u{feff}  "];
    for s in samples {
        assert_eq!(trim(s), s.trim());
    }
}

#[test]
fn first_and_last_places_of_a_character() {
    let v = chars_of("a.b.c");
    assert_eq!(find_first(&v, '.'), 1);
    assert_eq!(find_last(&v, '.'), Some(3));
    assert_eq!(find_first(&v, '|'), 5);
    assert_eq!(find_last(&v, '|'), None);
    let empty = chars_of("");
    assert_eq!(find_first(&empty, '.'), 0);
    assert_eq!(find_last(&empty, '.'), None);
}

#[test]
fn decimal_is_what_std_writes() {
    let numbers: [u64; 9] = [0, 1, 9, 10, 11, 99, 100, 1234567890, u64::MAX];
    for n in numbers {
        let mut out = String::from("n=");
        push_decimal(&mut out, n);
        assert_eq!(out, format!("n={}", n));
    }
}

#[test]
fn a_path_is_directory_separator_name() {
    assert_eq!(join_path(Platform::Linux, "/tmp/x", "a.txt"), "/tmp/x/a.txt");
    assert_eq!(join_path(Platform::MacOs, "/tmp/x/", "a.txt"), "/tmp/x/a.txt");
    assert_eq!(join_path(Platform::Linux, "", "a.txt"), "a.txt");
    assert_eq!(join_path(Platform::Linux, "/", "a.txt"), "/a.txt");
    assert_eq!(join_path(Platform::Linux, "/tmp/x", "/etc/passwd"), "/tmp/x//etc/passwd");
    assert_eq!(join_path(Platform::Linux, "dir\\", "a"), "dir\\/a");
    assert_eq!(join_path(Platform::Windows, "C:\\Temp", "a.txt"), "C:\\Temp\\a.txt");
    assert_eq!(join_path(Platform::Windows, "C:\\Temp\\", "a.txt"), "C:\\Temp\\a.txt");
    assert_eq!(join_path(Platform::Windows, "C:/Temp/", "a.txt"), "C:/Temp/a.txt");
}
