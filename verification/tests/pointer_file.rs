use config_naga_gui::pointer::pointer_file_name;
use config_naga_gui::pointer::recall_last_path;
use config_naga_gui::pointer::remember_last_path;
use config_naga_gui::pointer::trim;

#[test]
fn pointer_file_has_its_name() {
    assert_eq!(pointer_file_name(), "last_config.txt");
}

#[test]
fn trim_removes_white_space_at_both_ends() {
    assert_eq!(trim("  /home/u/naga.toml\n"), "/home/u/naga.toml");
    assert_eq!(trim("\t\r\n x y \u{3000}"), "x y");
    assert_eq!(trim("abc"), "abc");
    assert_eq!(trim(""), "");
    assert_eq!(trim(" \n\t "), "");
    assert_eq!(trim("a"), "a");
    assert_eq!(trim(" a"), "a");
    assert_eq!(trim("a "), "a");
}

#[test]
fn trim_agrees_with_std_on_every_kind_of_white_space() {
    let spaces = [
        '\u{9}', '\u{a}', '\u{b}', '\u{c}', '\u{d}', '\u{20}', '\u{85}', '\u{a0}', '\u{1680}',
        '\u{2000}', '\u{2001}', '\u{2005}', '\u{200a}', '\u{2028}', '\u{2029}', '\u{202f}',
        '\u{205f}', '\u{3000}',
    ];
    for c in spaces {
        let text = format!("{}{}p q{}{}", c, c, c, c);
        assert_eq!(trim(&text), "p q");
        assert_eq!(trim(&text), text.trim());
    }
    let others = ['\u{8}', '\u{e}', '\u{1f}', '\u{200b}', '\u{180e}', '\u{feff}', '\u{2060}', '_'];
    for c in others {
        let text = format!("{} p {}", c, c);
        assert_eq!(trim(&text), text.as_str());
        assert_eq!(trim(&text), text.trim());
    }
}

#[test]
fn trim_agrees_with_std_for_every_character() {
    for code in 0..0x11_0000u32 {
        if let Some(c) = char::from_u32(code) {
            let text = format!("{}x{}", c, c);
            assert_eq!(trim(&text), text.trim());
        }
    }
}

#[test]
fn remembered_path_is_recalled() {
    let content = remember_last_path("/home/u/.config/naga/keys.toml");
    assert_eq!(content, "/home/u/.config/naga/keys.toml");
    assert_eq!(
        recall_last_path(Some(&content)),
        Some("/home/u/.config/naga/keys.toml".to_string())
    );
}

#[test]
fn recall_trims_the_content() {
    assert_eq!(recall_last_path(Some("  /tmp/a b.toml \n")), Some("/tmp/a b.toml".to_string()));
}

#[test]
fn recall_of_missing_or_blank_pointer_is_none() {
    assert_eq!(recall_last_path(None), None);
    assert_eq!(recall_last_path(Some("")), None);
    assert_eq!(recall_last_path(Some(" \n\t")), None);
}
