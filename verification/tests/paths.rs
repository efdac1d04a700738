use sm_pkg::fspath::{base_name_of, join};
use std::path::Path;

fn std_join(base: &str, part: &str) -> String {
    Path::new(base).join(part).to_string_lossy().into_owned()
}

#[test]
fn join_puts_one_separator() {
    assert_eq!(join("/srv/app", "repo"), "/srv/app/repo");
    assert_eq!(join("/srv/app/", "repo"), "/srv/app/repo");
    assert_eq!(join("", "repo"), "repo");
    assert_eq!(join("/", "repo"), "/repo");
}

#[test]
fn join_with_an_absolute_part_replaces_the_base() {
    assert_eq!(join("/srv/app", "/etc/passwd"), "/etc/passwd");
}

#[test]
fn join_with_an_empty_part_ends_in_a_separator() {
    assert_eq!(join("/srv/app", ""), "/srv/app/");
    assert_eq!(join("", ""), "");
}

#[test]
fn join_agrees_with_the_standard_library() {
    let bases = ["", "/", "a", "a/", "/a/b", "/a/b/", "a//", "."];
    let parts = ["", "x", "x/y", "/x", "../x", "x/", "//x", "."];
    for base in bases {
        for part in parts {
            assert_eq!(join(base, part), std_join(base, part), "{:?} + {:?}", base, part);
        }
    }
}

#[test]
fn the_base_name_is_what_follows_the_last_separator() {
    assert_eq!(base_name_of("sub/a.sp"), "a.sp");
    assert_eq!(base_name_of("a/b/c.sp"), "c.sp");
    assert_eq!(base_name_of("a.sp"), "a.sp");
    assert_eq!(base_name_of("/a.sp"), "a.sp");
    assert_eq!(base_name_of("sub/"), "");
    assert_eq!(base_name_of(""), "");
    assert_eq!(base_name_of("/"), "");
    assert_eq!(base_name_of("dé/ñ.sp"), "ñ.sp");
}

#[test]
fn the_base_name_is_the_file_name_of_the_standard_library() {
    for path in ["sub/a.sp", "a/b/c.sp", "a.sp", "/x/y", "x", "a b/c d.sp"] {
        let expected = Path::new(path).file_name().unwrap().to_string_lossy().into_owned();
        assert_eq!(base_name_of(path), expected);
    }
}
