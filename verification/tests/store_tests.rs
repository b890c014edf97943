use fastbash::listing::{listing_line, NAME_WIDTH};
use fastbash::store::{adjoin, script_path, store_dir, STORE_UNDER_HOME};
use std::path::Path;

#[test]
fn store_lies_under_the_home_directory() {
    assert_eq!(STORE_UNDER_HOME, ".fastbash/scripts");
    assert_eq!(store_dir("/home/me"), "/home/me/.fastbash/scripts");
    assert_eq!(store_dir("/home/me/"), "/home/me/.fastbash/scripts");
    assert_eq!(store_dir("/"), "/.fastbash/scripts");
}

#[test]
fn script_lies_in_the_store_under_its_name() {
    assert_eq!(script_path("/home/me/.fastbash/scripts", "backup"), "/home/me/.fastbash/scripts/backup");
    assert_eq!(script_path("/store", "my script"), "/store/my script");
}

#[test]
fn resolving_twice_gives_the_same_path() {
    assert_eq!(script_path("/store", "backup"), script_path("/store", "backup"));
}

#[test]
fn absolute_name_stands_for_itself() {
    assert_eq!(script_path("/store", "/bin/ls"), "/bin/ls");
}

#[test]
fn adjoin_agrees_with_the_language() {
    let bases = ["", "/", "/a", "/a/", "a", "a/b", "a//", "/home/me/.fastbash/scripts", "."];
    let rests = ["", "x", "x/y", "/x", "/", "..", "./x", "x/", " ", "\u{4e16}\u{754c}"];
    for base in bases {
        for rest in rests {
            let expected = Path::new(base).join(rest);
            assert_eq!(adjoin(base, rest), expected.to_str().unwrap(), "{:?} {:?}", base, rest);
        }
    }
}

#[test]
fn listing_line_fills_the_name_column() {
    assert_eq!(NAME_WIDTH, 20);
    assert_eq!(listing_line("backup", "Back up my notes"), "backup               Back up my notes");
    assert_eq!(listing_line("backup", "(no description)"), format!("{:<20} {}", "backup", "(no description)"));
}

#[test]
fn listing_line_keeps_long_names_whole() {
    let name = "a-script-with-a-very-long-name";
    assert_eq!(listing_line(name, "d"), "a-script-with-a-very-long-name d");
    assert_eq!(listing_line("exactly-twenty-chars", "d"), "exactly-twenty-chars d");
    assert_eq!(listing_line("", ""), format!("{:<20} {}", "", ""));
}

#[test]
fn listing_line_counts_characters() {
    let name = "\u{4e16}\u{754c}";
    assert_eq!(listing_line(name, "world"), format!("{:<20} {}", name, "world"));
}
