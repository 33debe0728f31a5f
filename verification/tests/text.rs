use simple_pokedex::text::{clean_description, format_display_name, lower_string};

#[test]
fn display_name_single_word() {
    assert_eq!(format_display_name("charizard"), "Charizard");
}

#[test]
fn display_name_two_words() {
    assert_eq!(format_display_name("deoxys normal"), "Deoxys Normal");
}

#[test]
fn display_name_collapses_extra_whitespace() {
    assert_eq!(format_display_name("  deoxys \t normal "), "Deoxys Normal");
}

#[test]
fn display_name_empty() {
    assert_eq!(format_display_name(""), "");
    assert_eq!(format_display_name("   "), "");
}

#[test]
fn display_name_keeps_non_letters() {
    assert_eq!(format_display_name("ho-oh"), "Ho-oh");
}

#[test]
fn clean_description_replaces_line_breaks() {
    assert_eq!(
        clean_description("Spits fire\nthat can melt rock."),
        "Spits fire that can melt rock."
    );
}

#[test]
fn clean_description_without_breaks_is_unchanged() {
    assert_eq!(clean_description("A strange seed."), "A strange seed.");
}

#[test]
fn clean_description_each_break_becomes_one_space() {
    assert_eq!(clean_description("a\nb\nc"), "a b c");
}

#[test]
fn lower_string_lowercases_ascii() {
    assert_eq!(lower_string("PiKaChu"), "pikachu");
    assert_eq!(lower_string("MR. MIME"), "mr. mime");
}
