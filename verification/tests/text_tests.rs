use gopro_shell::text::{
    bool_word, contains_name, eq_ignore_case, fold, pad_center, pad_right, text_eq,
};

#[test]
fn fold_lowers_ascii_capitals_only() {
    assert_eq!(fold('A'), 'a');
    assert_eq!(fold('Z'), 'z');
    assert_eq!(fold('m'), 'm');
    assert_eq!(fold('@'), '@');
    assert_eq!(fold('['), '[');
    assert_eq!(fold('7'), '7');
    assert_eq!(fold('É'), 'É');
}

#[test]
fn names_compare_without_case() {
    assert!(eq_ignore_case("Studio-Cam", "studio-cam"));
    assert!(eq_ignore_case("HELP", "help"));
    assert!(eq_ignore_case("", ""));
    assert!(!eq_ignore_case("help", "helps"));
    assert!(!eq_ignore_case("help", "helq"));
    assert!(!eq_ignore_case("a", ""));
}

#[test]
fn names_with_other_letters_compare_exactly() {
    assert!(eq_ignore_case("caméra", "CAMéRA"));
    assert!(!eq_ignore_case("caméra", "camÉra"));
}

#[test]
fn texts_compare_exactly() {
    assert!(text_eq("list", "list"));
    assert!(!text_eq("list", "List"));
    assert!(!text_eq("list", "lis"));
    assert!(text_eq("", ""));
}

#[test]
fn pad_right_fills_the_column() {
    assert_eq!(pad_right("help", 8), "help    ");
    assert_eq!(pad_right("help", 4), "help");
    assert_eq!(pad_right("help", 2), "help");
    assert_eq!(pad_right("", 3), "   ");
    assert_eq!(pad_right("é", 3), "é  ");
}

#[test]
fn pad_center_puts_the_odd_blank_right() {
    assert_eq!(pad_center("a", 4), " a  ");
    assert_eq!(pad_center("ab", 4), " ab ");
    assert_eq!(pad_center("false", 10), "  false   ");
    assert_eq!(pad_center("Recording", 10), "Recording ");
    assert_eq!(pad_center("Device Name", 15), "  Device Name  ");
    assert_eq!(pad_center("a-very-long-device-name", 15), "a-very-long-device-name");
    assert_eq!(pad_center("", 0), "");
}

#[test]
fn truth_values_have_words() {
    assert_eq!(bool_word(true), "true");
    assert_eq!(bool_word(false), "false");
}

#[test]
fn a_listing_is_searched_without_case() {
    let names = vec!["GoPro 1234".to_string(), "Studio-Cam".to_string()];
    assert!(contains_name(&names, "studio-cam"));
    assert!(contains_name(&names, "GOPRO 1234"));
    assert!(!contains_name(&names, "studio"));
    assert!(!contains_name(&Vec::new(), "studio-cam"));
}
