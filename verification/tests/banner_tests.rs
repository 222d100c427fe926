use term_editor::banner::{welcome_banner, NAME, VERSION};

fn blanks(count: usize) -> String {
    " ".repeat(count)
}

#[test]
fn welcome_banner_on_eighty_columns() {
    let banner = welcome_banner("editor", "1.0", 80);
    let message = "editor editor -- version 1.0";
    assert_eq!(message.len(), 28);
    assert_eq!((80 - message.len()) / 2 - 1, 25);
    assert_eq!(banner, format!("~{}{}", blanks(25), message));
    assert_eq!(banner.len(), 54);
    assert!(banner.starts_with('~'));
    assert!(banner.ends_with(message));
}

#[test]
fn welcome_banner_is_not_truncated_when_it_fits() {
    let banner = welcome_banner("editor", "1.0", 80);
    assert!(banner.ends_with("version 1.0"));
    assert!(banner.len() <= 80);
}

#[test]
fn welcome_banner_pads_with_half_the_room_less_one() {
    let message = "ab editor -- version 1";
    assert_eq!(message.len(), 22);
    assert_eq!(welcome_banner("ab", "1", 40), format!("~{}{}", blanks(8), message));
    assert_eq!(welcome_banner("ab", "1", 41), format!("~{}{}", blanks(8), message));
    assert_eq!(welcome_banner("ab", "1", 42), format!("~{}{}", blanks(9), message));
}

#[test]
fn welcome_banner_with_little_room_has_no_padding() {
    let message = "editor editor -- version 1.0";
    assert_eq!(welcome_banner("editor", "1.0", 29), format!("~{}", message));
    assert_eq!(welcome_banner("editor", "1.0", 30), format!("~{}", message));
    assert_eq!(welcome_banner("editor", "1.0", 31), format!("~{}", message));
    assert_eq!(welcome_banner("editor", "1.0", 32), format!("~ {}", message));
    assert_eq!(welcome_banner("editor", "1.0", 33), format!("~ {}", message));
    assert_eq!(welcome_banner("editor", "1.0", 34), format!("~  {}", message));
}

#[test]
fn welcome_banner_on_a_narrow_screen_is_cut() {
    assert_eq!(welcome_banner("editor", "1.0", 28), "~editor editor -- version 1.");
    assert_eq!(welcome_banner("editor", "1.0", 10), "~editor ed");
    assert_eq!(welcome_banner("editor", "1.0", 2), "~e");
    assert_eq!(welcome_banner("editor", "1.0", 1), "~");
}

#[test]
fn welcome_banner_on_no_columns_is_empty() {
    assert_eq!(welcome_banner("editor", "1.0", 0), "");
}

#[test]
fn welcome_banner_never_runs_past_the_screen() {
    for width in 0..120u16 {
        let banner = welcome_banner("editor", "1.0", width);
        assert!(banner.chars().count() <= usize::from(width));
    }
}

#[test]
fn welcome_banner_counts_characters_not_bytes() {
    let banner = welcome_banner("\u{e9}d", "1", 10);
    assert_eq!(banner, "~\u{e9}d editor");
    assert_eq!(banner.chars().count(), 10);
}

#[test]
fn welcome_banner_with_empty_name_and_version() {
    assert_eq!(welcome_banner("", "", 21), "~ editor -- version ");
    assert_eq!(welcome_banner("", "", 23), format!("~{} editor -- version ", blanks(1)));
}

#[test]
fn welcome_banner_on_the_widest_screen() {
    let banner = welcome_banner("editor", "1.0", 65535);
    assert_eq!(banner.len(), 1 + (65535 - 28) / 2 - 1 + 28);
}

#[test]
fn product_name_and_version_are_set() {
    assert_eq!(NAME, "term_editor");
    assert_eq!(VERSION, "0.1.0");
}
