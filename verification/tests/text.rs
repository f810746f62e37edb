use lua_interface_interpretator::paths::{
    is_image_extension_of, is_image_file, material_path_for_name, suggest_material_path, to_ascii_lowercase,
};
use lua_interface_interpretator::text::{
    escape_lua_string, lua_keyword, push_decimal, push_indented_lines, remove_char, sanitize_var_name,
    str_eq, trim_start_char, trimmed,
};

#[test]
fn decimals_are_written_in_full() {
    let mut s = String::from("n=");
    push_decimal(&mut s, 0);
    s.push(',');
    push_decimal(&mut s, 1234567890123);
    assert_eq!(s, "n=0,1234567890123");
}

#[test]
fn lua_escaping() {
    assert_eq!(escape_lua_string("a\\b\"c"), "a\\\\b\\\"c");
    assert_eq!(escape_lua_string("plain"), "plain");
}

#[test]
fn lua_keywords_and_identifiers() {
    assert!(lua_keyword("end"));
    assert!(lua_keyword("goto"));
    assert!(!lua_keyword("End"));
    assert_eq!(sanitize_var_name("end"), "p_end");
    assert_eq!(sanitize_var_name("My Panel!"), "My_Panel_");
    assert_eq!(sanitize_var_name("9lives"), "p_9lives");
    assert_eq!(sanitize_var_name(""), "p_");
    assert_eq!(sanitize_var_name("Кнопка"), "______");
}

#[test]
fn trimming_and_lines() {
    assert_eq!(trimmed("  \t code \n"), "code");
    assert_eq!(trimmed("   "), "");
    let mut out = String::new();
    push_indented_lines(&mut out, "\t\t", "a()\r\nb()");
    assert_eq!(out, "\t\ta()\n\t\tb()\n");
}

#[test]
fn char_removal_helpers() {
    assert_eq!(trim_start_char("DDButton", 'D'), "Button");
    assert_eq!(trim_start_char("Panel", 'D'), "Panel");
    assert_eq!(remove_char("a b  c", ' '), "abc");
    assert!(str_eq("abc", "abc"));
    assert!(!str_eq("abc", "abd"));
}

#[test]
fn image_files_by_extension() {
    assert!(is_image_file("/x/y.PNG"));
    assert!(is_image_file("photo.jpeg"));
    assert!(is_image_file("a.webp"));
    assert!(!is_image_file("notes.txt"));
    assert!(!is_image_file("noext"));
    assert_eq!(to_ascii_lowercase("AbC-Д"), "abc-Д");
}

#[test]
fn material_paths_from_file_names() {
    assert_eq!(suggest_material_path("/home/u/pics/logo.png"), "materials/logo.png");
    assert_eq!(suggest_material_path("logo.png"), "materials/logo.png");
    assert_eq!(suggest_material_path("/"), "materials/image.png");
}

#[test]
fn material_path_from_a_given_file_name() {
    assert_eq!(material_path_for_name(Some("logo.png")), "materials/logo.png");
    assert_eq!(material_path_for_name(None), "materials/image.png");
}

#[test]
fn image_extensions_in_any_case() {
    assert!(is_image_extension_of(Some("JPG")));
    assert!(is_image_extension_of(Some("gif")));
    assert!(!is_image_extension_of(Some("tiff")));
    assert!(!is_image_extension_of(Some("")));
    assert!(!is_image_extension_of(None));
}
