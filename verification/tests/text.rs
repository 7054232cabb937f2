use glycin::path::{file_name, from_iter, iter, join, starts_with};
use glycin::text::{begins_with, copy, is_same, read_u64, split, write_i32, write_u64};

fn paths(parts: &[&str]) -> Vec<Vec<u8>> {
    parts.iter().map(|part| part.as_bytes().to_vec()).collect()
}

#[test]
fn texts_are_compared() {
    assert!(begins_with(b"library", b"lib"));
    assert!(begins_with(b"lib", b""));
    assert!(!begins_with(b"li", b"lib"));
    assert!(is_same(b"nix", b"nix"));
    assert!(!is_same(b"nix", b"nixos"));
    assert_eq!(copy(&b"abc".to_vec()), b"abc");
}

#[test]
fn texts_are_split() {
    for text in ["", " ", "a", "a b", "  a  b ", "a bc d"] {
        let expected: Vec<&str> = text.split(' ').collect();
        assert_eq!(split(text.as_bytes(), b' '), paths(&expected));
    }
}

#[test]
fn numbers_are_written() {
    for number in [0, 1, 9, 10, 12345, u64::MAX] {
        assert_eq!(write_u64(number), number.to_string().as_bytes());
    }
    for number in [0, 7, -7, i32::MAX, i32::MIN] {
        assert_eq!(write_i32(number), number.to_string().as_bytes());
    }
}

#[test]
fn numbers_are_read() {
    for text in [
        "0",
        "007",
        "+5",
        "++5",
        "+",
        "",
        "-1",
        "12a",
        "18446744073709551615",
        "18446744073709551616",
        "99999999999999999999999",
    ] {
        assert_eq!(read_u64(text.as_bytes()), text.parse::<u64>().ok(), "{text}");
    }
}

#[test]
fn written_numbers_are_read_back() {
    for number in [0, 3, 1000, 18446744073709551614, u64::MAX] {
        assert_eq!(read_u64(&write_u64(number)), Some(number));
    }
}

#[test]
fn components_of_paths() {
    for path in [
        "", "/", ".", "..", "./a", "a/./b", "a//b/", "/usr/lib/../lib64", "//a", "a/b/.", "./.",
    ] {
        let expected: Vec<Vec<u8>> = std::path::Path::new(path)
            .iter()
            .map(|part| part.as_encoded_bytes().to_vec())
            .collect();
        assert_eq!(iter(path.as_bytes()), expected, "{path}");
    }
}

#[test]
fn names_of_paths() {
    for path in ["/lib64", "/lib64/", "/", "", ".", "..", "a/..", "/nix/.", "a"] {
        let expected = std::path::Path::new(path)
            .file_name()
            .map(|name| name.as_encoded_bytes().to_vec());
        assert_eq!(file_name(path.as_bytes()), expected, "{path}");
    }
}

#[test]
fn paths_within_others() {
    for path in ["/usr/lib", "/usr", "/usrlocal", "usr/lib", "/", "/usr/../etc", "//usr/x"] {
        for base in ["/usr", "/usr/", "/", "", "usr"] {
            assert_eq!(
                starts_with(path.as_bytes(), base.as_bytes()),
                std::path::Path::new(path).starts_with(base),
                "{path} {base}"
            );
        }
    }
}

#[test]
fn paths_are_joined() {
    for base in ["", "/", "/home", "/home/", "a"] {
        for path in ["", "b", "b/c", "/etc", "."] {
            assert_eq!(
                join(base.as_bytes(), path.as_bytes()),
                std::path::Path::new(base)
                    .join(path)
                    .as_os_str()
                    .as_encoded_bytes(),
                "{base} {path}"
            );
        }
    }
}

#[test]
fn lists_of_paths_are_joined() {
    assert_eq!(from_iter(&paths(&[])), b"");
    assert_eq!(
        from_iter(&paths(&["/home/user/.cache", "glycin", "usr/libexec/loader"])),
        b"/home/user/.cache/glycin/usr/libexec/loader"
    );
    assert_eq!(from_iter(&paths(&["/home", "/etc", "x"])), b"/etc/x");
}

#[test]
fn joined_paths_are_within_the_base() {
    for base in ["/home", "/home/", "a/b"] {
        for path in ["x", "x/y/z"] {
            let joined = join(base.as_bytes(), path.as_bytes());
            assert!(starts_with(&joined, base.as_bytes()));
        }
    }
}
