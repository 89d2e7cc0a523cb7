use config_naga_gui::config::load_config;
use config_naga_gui::config::mapping_from_document;
use config_naga_gui::config::mapping_from_table;
use config_naga_gui::config::parse_config;
use config_naga_gui::config::read_slot;
use config_naga_gui::config::render_config;
use config_naga_gui::decimal::decimal_string;
use config_naga_gui::errors::ConfigError;
use config_naga_gui::keys::get_valid_keys;
use config_naga_gui::keys::is_valid_key;
use config_naga_gui::mapping::KeyMapping;

fn sample_mapping() -> KeyMapping {
    let mut m = KeyMapping::new();
    assert!(m.set(1, "F1"));
    assert!(m.set(2, "Esc"));
    m
}

#[test]
fn decimal_string_writes_each_length() {
    assert_eq!(decimal_string(0), "0");
    assert_eq!(decimal_string(7), "7");
    assert_eq!(decimal_string(10), "10");
    assert_eq!(decimal_string(12), "12");
    assert_eq!(decimal_string(109), "109");
    assert_eq!(decimal_string(255), "255");
}

#[test]
fn decimal_string_agrees_with_std_for_every_byte() {
    for n in 0..=255u8 {
        assert_eq!(decimal_string(n), n.to_string());
    }
}

#[test]
fn vocabulary_has_all_key_names() {
    let keys = get_valid_keys();
    assert_eq!(keys.len(), 89);
    assert_eq!(keys[0], "F1");
    assert_eq!(keys[12], "Grave");
    assert_eq!(keys[72], "Esc");
    assert_eq!(keys[88], "ScrollDown");
}

#[test]
fn is_valid_key_knows_the_vocabulary() {
    for key in get_valid_keys() {
        assert!(is_valid_key(&key));
    }
    assert!(is_valid_key("_1"));
    assert!(!is_valid_key("f1"));
    assert!(!is_valid_key("F13"));
    assert!(!is_valid_key(""));
    assert!(!is_valid_key("Escape"));
}

#[test]
fn mapping_set_and_get() {
    let mut m = KeyMapping::new();
    assert!(m.is_empty());
    assert!(m.set(3, "Tab"));
    assert_eq!(m.get(3).map(|s| s.as_str()), Some("Tab"));
    assert_eq!(m.get(4), None);
    assert!(m.set(3, "Enter"));
    assert_eq!(m.get(3).map(|s| s.as_str()), Some("Enter"));
    assert!(!m.is_empty());
    m.clear();
    assert!(m.is_empty());
    assert_eq!(m.get(3), None);
}

#[test]
fn mapping_set_refuses_bad_buttons_and_names() {
    let mut m = sample_mapping();
    let before = m.clone();
    assert!(!m.set(0, "F1"));
    assert!(!m.set(13, "F1"));
    assert!(!m.set(255, "F1"));
    assert!(!m.set(1, "NoSuchKey"));
    assert_eq!(m, before);
    assert!(m.set(12, "ScrollDown"));
    assert_eq!(m.get(12).map(|s| s.as_str()), Some("ScrollDown"));
}

#[test]
fn mapping_entries_are_ascending() {
    let mut m = KeyMapping::new();
    assert!(m.set(12, "Z"));
    assert!(m.set(1, "A"));
    assert!(m.set(5, "M"));
    assert_eq!(
        m.entries(),
        vec![(1u8, "A".to_string()), (5u8, "M".to_string()), (12u8, "Z".to_string())]
    );
    assert_eq!(KeyMapping::new().entries(), vec![]);
}

#[test]
fn mapping_clone_is_equal_and_independent() {
    let m = sample_mapping();
    let mut copy = m.clone();
    assert_eq!(copy, m);
    assert!(copy.set(1, "F2"));
    assert_eq!(m.get(1).map(|s| s.as_str()), Some("F1"));
}

#[test]
fn render_config_exact_text() {
    assert_eq!(render_config(&KeyMapping::new()), "[keys]\n");
    assert_eq!(render_config(&sample_mapping()), "[keys]\n1 = 'F1'\n2 = 'Esc'\n");
    let mut m = KeyMapping::new();
    assert!(m.set(12, "ScrollUp"));
    assert!(m.set(10, "_0"));
    assert_eq!(render_config(&m), "[keys]\n10 = '_0'\n12 = 'ScrollUp'\n");
}

#[test]
fn render_config_does_not_depend_on_order_of_setting() {
    let mut a = KeyMapping::new();
    assert!(a.set(1, "F1"));
    assert!(a.set(2, "Esc"));
    assert!(a.set(11, "Left"));
    let mut b = KeyMapping::new();
    assert!(b.set(11, "Left"));
    assert!(b.set(2, "Esc"));
    assert!(b.set(1, "F1"));
    assert_eq!(a, b);
    assert_eq!(render_config(&a), render_config(&b));
}

#[test]
fn save_then_load_gives_the_mapping_back() {
    let m = sample_mapping();
    assert_eq!(parse_config(&render_config(&m)), Ok(m));
    let empty = KeyMapping::new();
    assert_eq!(parse_config(&render_config(&empty)), Ok(empty));
}

#[test]
fn save_then_load_gives_every_single_entry_back() {
    for button in 1..=12u8 {
        for key in get_valid_keys() {
            let mut m = KeyMapping::new();
            assert!(m.set(button, &key));
            assert_eq!(parse_config(&render_config(&m)), Ok(m));
        }
    }
}

#[test]
fn save_then_load_gives_a_full_mapping_back() {
    let keys = get_valid_keys();
    let mut m = KeyMapping::new();
    for button in 1..=12u8 {
        assert!(m.set(button, &keys[(button as usize) * 7]));
    }
    let text = render_config(&m);
    assert_eq!(text.lines().count(), 13);
    assert_eq!(parse_config(&text), Ok(m));
}

#[test]
fn parse_config_reads_inline_table() {
    let loaded = parse_config("keys = { \"1\" = \"F1\", \"2\" = \"Esc\" }\n");
    assert_eq!(loaded, Ok(sample_mapping()));
}

#[test]
fn parse_config_rejects_text_that_is_no_toml() {
    assert_eq!(parse_config("[keys\n1 = 'F1'\n"), Err(ConfigError::Invalid));
    assert_eq!(parse_config("1 = = 2"), Err(ConfigError::Invalid));
}

#[test]
fn parse_config_rejects_missing_keys_table() {
    assert_eq!(parse_config(""), Err(ConfigError::Invalid));
    assert_eq!(parse_config("[buttons]\n1 = 'F1'\n"), Err(ConfigError::Invalid));
}

#[test]
fn parse_config_rejects_keys_that_is_no_table() {
    assert_eq!(parse_config("keys = 5\n"), Err(ConfigError::Invalid));
    assert_eq!(parse_config("keys = 'F1'\n"), Err(ConfigError::Invalid));
    assert_eq!(parse_config("keys = ['F1', 'Esc']\n"), Err(ConfigError::Invalid));
}

#[test]
fn parse_config_rejects_unknown_key_name() {
    assert_eq!(parse_config("[keys]\n1 = 'F1'\n2 = 'Bogus'\n"), Err(ConfigError::Invalid));
    assert_eq!(parse_config("[keys]\n12 = 'esc'\n"), Err(ConfigError::Invalid));
}

#[test]
fn parse_config_ignores_button_thirteen_and_other_keys() {
    let loaded = parse_config("[keys]\n1 = 'F1'\n2 = 'Esc'\n13 = 'F3'\n0 = 'F4'\nname = 'x'\n");
    assert_eq!(loaded, Ok(sample_mapping()));
    let loaded = parse_config("[keys]\n13 = 'NoSuchKey'\n");
    assert_eq!(loaded, Ok(KeyMapping::new()));
}

#[test]
fn parse_config_passes_over_values_that_are_no_strings() {
    let loaded = parse_config("[keys]\n1 = 'F1'\n2 = 'Esc'\n3 = 7\n4 = true\n5 = ['A']\n");
    assert_eq!(loaded, Ok(sample_mapping()));
}

#[test]
fn parse_config_ignores_other_tables() {
    let loaded = parse_config("title = 'mine'\n[keys]\n1 = 'F1'\n2 = 'Esc'\n[other]\n1 = 'Bogus'\n");
    assert_eq!(loaded, Ok(sample_mapping()));
}

#[test]
fn parse_config_wants_the_number_spelled_without_leading_zero() {
    assert_eq!(parse_config("[keys]\n01 = 'F1'\n"), Ok(KeyMapping::new()));
}

#[test]
fn mapping_from_table_reads_a_table_built_by_hand() {
    let mut table = toml::Table::new();
    table.insert("1".to_string(), toml::Value::String("F1".to_string()));
    table.insert("2".to_string(), toml::Value::String("Esc".to_string()));
    table.insert("3".to_string(), toml::Value::Integer(3));
    table.insert("13".to_string(), toml::Value::String("F2".to_string()));
    assert_eq!(mapping_from_table(&table), Ok(sample_mapping()));
    table.insert("4".to_string(), toml::Value::String("Bogus".to_string()));
    assert_eq!(mapping_from_table(&table), Err(ConfigError::Invalid));
    assert_eq!(mapping_from_table(&toml::Table::new()), Ok(KeyMapping::new()));
}

#[test]
fn mapping_from_document_wants_a_keys_table() {
    let mut keys = toml::Table::new();
    keys.insert("1".to_string(), toml::Value::String("F1".to_string()));
    keys.insert("2".to_string(), toml::Value::String("Esc".to_string()));
    let mut top = toml::Table::new();
    top.insert("keys".to_string(), toml::Value::Table(keys.clone()));
    assert_eq!(mapping_from_document(&toml::Value::Table(top)), Ok(sample_mapping()));

    let mut misnamed = toml::Table::new();
    misnamed.insert("Keys".to_string(), toml::Value::Table(keys.clone()));
    assert_eq!(mapping_from_document(&toml::Value::Table(misnamed)), Err(ConfigError::Invalid));

    let mut wrong_kind = toml::Table::new();
    wrong_kind.insert("keys".to_string(), toml::Value::String("F1".to_string()));
    assert_eq!(mapping_from_document(&toml::Value::Table(wrong_kind)), Err(ConfigError::Invalid));

    assert_eq!(mapping_from_document(&toml::Value::Table(keys)), Err(ConfigError::Invalid));
    assert_eq!(
        mapping_from_document(&toml::Value::String("keys".to_string())),
        Err(ConfigError::Invalid)
    );
    assert_eq!(mapping_from_document(&toml::Value::Array(vec![])), Err(ConfigError::Invalid));
}

#[test]
fn load_config_reports_why_the_file_could_not_be_read() {
    assert_eq!(
        load_config(Err("permission denied".to_string())),
        Err(ConfigError::Io("permission denied".to_string()))
    );
    assert_eq!(load_config(Ok("[keys]\n1 = 'F1'\n2 = 'Esc'\n".to_string())), Ok(sample_mapping()));
    assert_eq!(load_config(Ok("nothing here".to_string())), Err(ConfigError::Invalid));
}

#[test]
fn read_slot_takes_in_one_button() {
    let mut m = KeyMapping::new();
    assert_eq!(read_slot(&mut m, 1, Some("F1")), Ok(()));
    assert_eq!(read_slot(&mut m, 2, Some("Esc")), Ok(()));
    assert_eq!(read_slot(&mut m, 3, None), Ok(()));
    assert_eq!(m, sample_mapping());
    assert_eq!(read_slot(&mut m, 13, Some("F1")), Ok(()));
    assert_eq!(read_slot(&mut m, 0, Some("Bogus")), Ok(()));
    assert_eq!(m, sample_mapping());
    assert_eq!(read_slot(&mut m, 4, Some("Bogus")), Err(ConfigError::Invalid));
    assert_eq!(m, sample_mapping());
    assert_eq!(read_slot(&mut m, 1, Some("F2")), Ok(()));
    assert_eq!(m.get(1).map(|s| s.as_str()), Some("F2"));
}
