use quickswitch::path::{extension, file_name, join, parent};
use quickswitch::text::{format_decimal, format_padded, repeat_char, split_lines, str_contains, str_eq};
use std::path::Path;

const PATHS: &[&str] = &[
    "", "/", "//", "a", "a/", "a//", "/a", "/a/", "/a/b", "/a/b/", "a/b", "a/b/c", ".", "./", "./a",
    "./a/", "..", "../a", "a/..", "a/.", "a/./", "/.", "/..", "./.", "a/./b", "foo.txt", "foo.tar.gz",
    ".bashrc", "a/.bashrc", "a.", "...", ".a.b", "/home/user/file.PDF", "x/y.z/", "a//b//", "/./a",
    "héllo/wörld.txt", "./..", "a/b/..", "//a//b//",
];

#[test]
fn file_name_matches_std_path() {
    for p in PATHS {
        let expected = Path::new(p).file_name().map(|n| n.to_str().unwrap().to_string());
        assert_eq!(file_name(p), expected, "file_name of {:?}", p);
    }
}

#[test]
fn parent_matches_std_path() {
    for p in PATHS {
        let expected = Path::new(p).parent().map(|n| n.to_str().unwrap().to_string());
        assert_eq!(parent(p), expected, "parent of {:?}", p);
    }
}

#[test]
fn extension_matches_std_path() {
    for p in PATHS {
        let expected = Path::new(p).extension().map(|n| n.to_str().unwrap().to_string());
        assert_eq!(extension(p), expected, "extension of {:?}", p);
    }
}

#[test]
fn join_matches_std_path() {
    for base in ["", "/", "a", "a/", "/x/y", "/x/y/"] {
        for name in ["b", "quickswitch", ".local"] {
            let expected = Path::new(base).join(name).to_str().unwrap().to_string();
            assert_eq!(join(base, name), expected);
        }
    }
}

#[test]
fn file_name_of_join_law_example() {
    let joined = join("/home/user", "docs");
    assert_eq!(joined, "/home/user/docs");
    assert_eq!(file_name(&joined), Some("docs".to_string()));
}

#[test]
fn parent_of_join_law_example() {
    assert_eq!(parent(&join("/home/user", "docs")), Some("/home/user".to_string()));
    assert_eq!(parent(&join("/", "etc")), Some("/".to_string()));
    assert_eq!(parent(&join("", "etc")), Some("".to_string()));
}

#[test]
fn decimal_formatting() {
    assert_eq!(format_decimal(0), "0");
    assert_eq!(format_decimal(7), "7");
    assert_eq!(format_decimal(42), "42");
    assert_eq!(format_decimal(18446744073709551615), "18446744073709551615");
    assert_eq!(format_padded(1, 3), "  1");
    assert_eq!(format_padded(12, 3), " 12");
    assert_eq!(format_padded(123, 3), "123");
    assert_eq!(format_padded(12345, 3), "12345");
    assert_eq!(format_padded(5, 3), format!("{:3}", 5));
}

#[test]
fn repeat_and_compare() {
    assert_eq!(repeat_char('─', 3), "───");
    assert!(str_eq("abc", "abc"));
    assert!(!str_eq("abc", "abd"));
    assert!(!str_eq("abc", "ab"));
}

#[test]
fn lines_match_std_lines() {
    let cases = ["", "\n", "a", "a\n", "a\nb", "a\r\nb\r\n", "a\r", "\n\n", "x\ny\n\nz", "\r\n", "é\r\nü"];
    for c in cases {
        let expected: Vec<String> = c.lines().map(|l| l.to_string()).collect();
        assert_eq!(split_lines(c), expected, "lines of {:?}", c);
    }
}

#[test]
fn contains_and_lowercase() {
    assert!(str_contains("hello world", "o w"));
    assert!(str_contains("hello", ""));
    assert!(!str_contains("hello", "low"));
    assert!(!str_contains("", "a"));
}
