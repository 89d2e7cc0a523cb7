//! The configuration file: reading a mapping out of its text, and writing one
//! as text.

use vstd::prelude::*;
use vstd::string::StringExecFns;
use crate::decimal::decimal_digits;
use crate::decimal::decimal_string;
use crate::decimal::lemma_decimal_digits_injective;
use crate::document::entries_of;
use crate::document::node_of;
use crate::document::parse_document;
use crate::document::table_get;
use crate::document::toml_parse;
use crate::document::value_get;
use crate::document::TomlNode;
use crate::errors::ConfigError;
use crate::errors::ConfigFailure;
use crate::keys::is_valid_key_name;
use crate::mapping::is_button;
use crate::mapping::valid_mapping;
use crate::mapping::KeyMapping;
use crate::mapping::BUTTON_COUNT;
use crate::views::option_text;
use crate::views::read_text;

verus! {

/// The text that the table `keys` holds for `button`: the string under the
/// button's number. `None` where the table has no such key, or has a value
/// there that is no string.
pub open spec fn slot_text(keys: Map<Seq<char>, TomlNode>, button: u8) -> Option<Seq<char>> {
    let name = decimal_digits(button as nat);
    if keys.contains_key(name) {
        match keys[name] {
            TomlNode::Text(text) => Some(text),
            _ => None,
        }
    } else {
        None
    }
}

/// Whether every button that has a text in `keys` has the name of a key there.
pub open spec fn names_existing_keys(keys: Map<Seq<char>, TomlNode>) -> bool {
    forall|b: u8|
        is_button(b) && (#[trigger] slot_text(keys, b)) is Some ==> is_valid_key_name(
            slot_text(keys, b)->Some_0,
        )
}

/// The mapping that `keys` spells out: each button with the text it has.
pub open spec fn table_mapping(keys: Map<Seq<char>, TomlNode>) -> Map<u8, Seq<char>> {
    Map::new(
        |b: u8| is_button(b) && slot_text(keys, b) is Some,
        |b: u8| slot_text(keys, b)->Some_0,
    )
}

/// What loading the table `keys` gives: its mapping, or `Invalid` where it
/// names a key that does not exist.
pub open spec fn mapping_of_table(keys: Map<Seq<char>, TomlNode>) -> Result<
    Map<u8, Seq<char>>,
    ConfigFailure,
> {
    if names_existing_keys(keys) {
        Ok(table_mapping(keys))
    } else {
        Err(ConfigFailure::Invalid)
    }
}

/// The table named `keys` of the document `doc`, if it has one.
pub open spec fn keys_table(doc: TomlNode) -> Option<Map<Seq<char>, TomlNode>> {
    match doc {
        TomlNode::Table(top) => if top.contains_key("keys"@) {
            match top["keys"@] {
                TomlNode::Table(keys) => Some(keys),
                _ => None,
            }
        } else {
            None
        },
        _ => None,
    }
}

/// What loading the document `doc` gives.
pub open spec fn mapping_of_document(doc: TomlNode) -> Result<Map<u8, Seq<char>>, ConfigFailure> {
    match keys_table(doc) {
        Some(keys) => mapping_of_table(keys),
        None => Err(ConfigFailure::Invalid),
    }
}

/// What loading the file text `text` gives.
pub open spec fn mapping_of_text(text: Seq<char>) -> Result<Map<u8, Seq<char>>, ConfigFailure> {
    match toml_parse(text) {
        Some(doc) => mapping_of_document(doc),
        None => Err(ConfigFailure::Invalid),
    }
}

/// What loading gives when reading the file gave `read`: `Io` with the cause
/// where the file could not be read, else what its text gives.
pub open spec fn load_result(read: Result<Seq<char>, Seq<char>>) -> Result<
    Map<u8, Seq<char>>,
    ConfigFailure,
> {
    match read {
        Ok(text) => mapping_of_text(text),
        Err(cause) => Err(ConfigFailure::Io(cause)),
    }
}

/// Whether the outcome `r` of a load is the outcome `expected`.
pub open spec fn loads_as(
    r: Result<KeyMapping, ConfigError>,
    expected: Result<Map<u8, Seq<char>>, ConfigFailure>,
) -> bool {
    match r {
        Ok(mapping) => expected == Ok::<Map<u8, Seq<char>>, ConfigFailure>(mapping@),
        Err(e) => expected == Err::<Map<u8, Seq<char>>, ConfigFailure>(e@),
    }
}

/// The mapping `m` after a table was found to hold `text` for `button`: a
/// text for a button is the button's key, and must be a key name. Nothing
/// changes where there is no text, or where `button` is no button.
pub open spec fn with_slot(m: Map<u8, Seq<char>>, button: u8, text: Option<Seq<char>>) -> Result<
    Map<u8, Seq<char>>,
    ConfigFailure,
> {
    match text {
        Some(key) => if !is_button(button) {
            Ok(m)
        } else if is_valid_key_name(key) {
            Ok(m.insert(button, key))
        } else {
            Err(ConfigFailure::Invalid)
        },
        None => Ok(m),
    }
}

/// Takes into `mapping` what a table holds for `button`: `text` is the string
/// under the button's number, or `None` where there is none. A string that is
/// no key name is refused with `Invalid`, and `mapping` stays as it was.
pub fn read_slot(mapping: &mut KeyMapping, button: u8, text: Option<&str>) -> (r: Result<
    (),
    ConfigError,
>)
    ensures
        match with_slot(old(mapping)@, button, option_text(text)) {
            Ok(m) => r is Ok && final(mapping)@ == m,
            Err(e) => r matches Err(refused) && refused@ == e && final(mapping)@ == old(mapping)@,
        },
{
    match text {
        Some(key) => {
            if !(1 <= button && button <= BUTTON_COUNT) {
                Ok(())
            } else if mapping.set(button, key) {
                Ok(())
            } else {
                Err(ConfigError::Invalid)
            }
        },
        None => Ok(()),
    }
}

/// Reads the mapping out of a `keys` table: for each button, the string under
/// its number. Other keys and values that are no strings are passed over; a
/// string that is no key name makes the table invalid.
pub fn mapping_from_table(keys: &toml::Table) -> (r: Result<KeyMapping, ConfigError>)
    ensures
        loads_as(r, mapping_of_table(entries_of(*keys))),
{
    let ghost entries = entries_of(*keys);
    let mut mapping = KeyMapping::new();
    let mut b: u8 = 0;
    while b < BUTTON_COUNT
        invariant
            b <= BUTTON_COUNT,
            entries == entries_of(*keys),
            forall|c: u8|
                1 <= c <= b && (#[trigger] slot_text(entries, c)) is Some ==> is_valid_key_name(
                    slot_text(entries, c)->Some_0,
                ),
            mapping@ =~= Map::new(
                |c: u8| 1 <= c <= b && slot_text(entries, c) is Some,
                |c: u8| slot_text(entries, c)->Some_0,
            ),
        decreases BUTTON_COUNT - b,
    {
        b = b + 1;
        let name = decimal_string(b);
        let text = match table_get(keys, name.as_str()) {
            Some(value) => value.as_str(),
            None => None,
        };
        assert(option_text(text) == slot_text(entries, b));
        match read_slot(&mut mapping, b, text) {
            Ok(_) => {},
            Err(refused) => {
                return Err(refused);
            },
        }
    }
    assert(mapping@ =~= table_mapping(entries));
    Ok(mapping)
}

/// Reads the mapping out of a parsed document: out of its `keys` table.
pub fn mapping_from_document(doc: &toml::Value) -> (r: Result<KeyMapping, ConfigError>)
    ensures
        loads_as(r, mapping_of_document(node_of(*doc))),
{
    match value_get(doc, "keys") {
        Some(section) => match section.as_table() {
            Some(keys) => mapping_from_table(keys),
            None => Err(ConfigError::Invalid),
        },
        None => Err(ConfigError::Invalid),
    }
}

/// Reads the mapping out of the text of a configuration file.
pub fn parse_config(text: &str) -> (r: Result<KeyMapping, ConfigError>)
    ensures
        loads_as(r, mapping_of_text(text@)),
{
    match parse_document(text) {
        Ok(doc) => mapping_from_document(&doc),
        Err(_) => Err(ConfigError::Invalid),
    }
}

/// Loads a mapping from what reading a configuration file gave: the file's
/// text, or the reason why it could not be read.
pub fn load_config(read: Result<String, String>) -> (r: Result<KeyMapping, ConfigError>)
    ensures
        loads_as(r, load_result(read_text(read))),
{
    match read {
        Ok(text) => parse_config(text.as_str()),
        Err(cause) => Err(ConfigError::Io(cause)),
    }
}

/// The line of the configuration file that maps `button` to `key`.
pub open spec fn config_line(button: u8, key: Seq<char>) -> Seq<char> {
    decimal_digits(button as nat) + " = '"@ + key + "'\n"@
}

/// The lines of the configuration file for the buttons 1 to `upto` of `m`,
/// in ascending order.
pub open spec fn config_lines(m: Map<u8, Seq<char>>, upto: nat) -> Seq<char>
    decreases upto,
{
    if upto == 0 {
        Seq::empty()
    } else if m.contains_key(upto as u8) {
        config_lines(m, (upto - 1) as nat) + config_line(upto as u8, m[upto as u8])
    } else {
        config_lines(m, (upto - 1) as nat)
    }
}

/// The text of the configuration file for `m`: the header of the table
/// `keys`, then one line for each button that has a key, in ascending order.
pub open spec fn config_text(m: Map<u8, Seq<char>>) -> Seq<char> {
    "[keys]\n"@ + config_lines(m, BUTTON_COUNT as nat)
}

/// Writes a mapping as the text of a configuration file.
pub fn render_config(mapping: &KeyMapping) -> (r: String)
    ensures
        r@ == config_text(mapping@),
{
    let mut out = String::from_str("[keys]\n");
    let mut b: u8 = 0;
    while b < BUTTON_COUNT
        invariant
            b <= BUTTON_COUNT,
            out@ == "[keys]\n"@ + config_lines(mapping@, b as nat),
        decreases BUTTON_COUNT - b,
    {
        b = b + 1;
        let ghost before = out@;
        match mapping.get(b) {
            Some(key) => {
                let number = decimal_string(b);
                out.append(number.as_str());
                out.append(" = '");
                out.append(key.as_str());
                out.append("'\n");
                assert(out@ =~= before + config_line(b, mapping@[b]));
            },
            None => {},
        }
        assert(out@ =~= "[keys]\n"@ + config_lines(mapping@, b as nat));
    }
    out
}

/// A mapping that loads is valid: it maps buttons only, and each to a key
/// name that exists.
pub proof fn lemma_loaded_mapping_is_valid(keys: Map<Seq<char>, TomlNode>)
    ensures
        mapping_of_table(keys) matches Ok(m) ==> valid_mapping(m),
{
}

/// A table that holds, under the numbers of the buttons, exactly the entries
/// of a valid mapping loads as that mapping, whatever else it holds.
pub proof fn lemma_table_of_mapping_loads_as_mapping(
    keys: Map<Seq<char>, TomlNode>,
    m: Map<u8, Seq<char>>,
)
    requires
        valid_mapping(m),
        forall|b: u8|
            is_button(b) ==> #[trigger] slot_text(keys, b) == if m.contains_key(b) {
                Some(m[b])
            } else {
                None
            },
    ensures
        mapping_of_table(keys) == Ok::<Map<u8, Seq<char>>, ConfigFailure>(m),
{
    assert(names_existing_keys(keys));
    assert(table_mapping(keys) =~= m);
}

/// The table that holds, under the number of each button of `m`, the
/// button's key as a string, and nothing else.
pub open spec fn table_of_mapping(m: Map<u8, Seq<char>>) -> Map<Seq<char>, TomlNode> {
    Map::new(
        |name: Seq<char>| exists|b: u8| m.contains_key(b) && decimal_digits(b as nat) == name,
        |name: Seq<char>|
            TomlNode::Text(m[choose|b: u8| m.contains_key(b) && decimal_digits(b as nat) == name]),
    )
}

/// The table of a valid mapping loads as that mapping.
pub proof fn lemma_table_of_mapping_round_trips(m: Map<u8, Seq<char>>)
    requires
        valid_mapping(m),
    ensures
        mapping_of_table(table_of_mapping(m)) == Ok::<Map<u8, Seq<char>>, ConfigFailure>(m),
{
    let keys = table_of_mapping(m);
    assert forall|b: u8| is_button(b) implies #[trigger] slot_text(keys, b) == if m.contains_key(
        b,
    ) {
        Some(m[b])
    } else {
        None
    } by {
        let name = decimal_digits(b as nat);
        if keys.contains_key(name) {
            let c = choose|c: u8| m.contains_key(c) && decimal_digits(c as nat) == name;
            lemma_decimal_digits_injective(c as nat, b as nat);
            assert(c == b);
        } else {
            assert(!m.contains_key(b));
        }
    }
    lemma_table_of_mapping_loads_as_mapping(keys, m);
}

/// A document whose `keys` table holds exactly the entries of a valid mapping
/// loads as that mapping.
pub proof fn lemma_document_of_mapping_loads_as_mapping(
    doc: TomlNode,
    keys: Map<Seq<char>, TomlNode>,
    m: Map<u8, Seq<char>>,
)
    requires
        keys_table(doc) == Some(keys),
        valid_mapping(m),
        forall|b: u8|
            is_button(b) ==> #[trigger] slot_text(keys, b) == if m.contains_key(b) {
                Some(m[b])
            } else {
                None
            },
    ensures
        mapping_of_document(doc) == Ok::<Map<u8, Seq<char>>, ConfigFailure>(m),
{
    lemma_table_of_mapping_loads_as_mapping(keys, m);
}

/// The text written for a mapping does not depend on the order in which its
/// entries were set.
pub proof fn lemma_config_text_ignores_order_of_setting(
    m: Map<u8, Seq<char>>,
    first: u8,
    first_key: Seq<char>,
    second: u8,
    second_key: Seq<char>,
)
    requires
        first != second,
    ensures
        m.insert(first, first_key).insert(second, second_key) == m.insert(
            second,
            second_key,
        ).insert(first, first_key),
        config_text(m.insert(first, first_key).insert(second, second_key)) == config_text(
            m.insert(second, second_key).insert(first, first_key),
        ),
{
    assert(m.insert(first, first_key).insert(second, second_key) =~= m.insert(
        second,
        second_key,
    ).insert(first, first_key));
}

/// A document that is no table, has no `keys`, or has under `keys` a value
/// that is no table, is invalid.
pub proof fn lemma_document_without_keys_table_is_invalid(doc: TomlNode)
    requires
        match doc {
            TomlNode::Table(top) => !top.contains_key("keys"@) || !(top["keys"@] is Table),
            _ => true,
        },
    ensures
        mapping_of_document(doc) == Err::<Map<u8, Seq<char>>, ConfigFailure>(
            ConfigFailure::Invalid,
        ),
{
}

/// A text that is no TOML document, or is one without a `keys` table, is
/// invalid.
pub proof fn lemma_text_without_keys_table_is_invalid(text: Seq<char>)
    ensures
        toml_parse(text) is None || keys_table(toml_parse(text)->Some_0) is None
            ==> mapping_of_text(text) == Err::<Map<u8, Seq<char>>, ConfigFailure>(
            ConfigFailure::Invalid,
        ),
{
}

/// A table that has, for some button, a text that is no key name is invalid.
pub proof fn lemma_unknown_key_name_is_rejected(keys: Map<Seq<char>, TomlNode>, button: u8)
    requires
        is_button(button),
        slot_text(keys, button) is Some,
        !is_valid_key_name(slot_text(keys, button)->Some_0),
    ensures
        mapping_of_table(keys) == Err::<Map<u8, Seq<char>>, ConfigFailure>(ConfigFailure::Invalid),
{
}

/// An entry under a key that is no button's number changes nothing: the
/// table loads as it does without the entry.
pub proof fn lemma_other_keys_are_ignored(
    keys: Map<Seq<char>, TomlNode>,
    name: Seq<char>,
    node: TomlNode,
)
    requires
        forall|b: u8| is_button(b) ==> decimal_digits(b as nat) != name,
    ensures
        mapping_of_table(keys.insert(name, node)) == mapping_of_table(keys),
{
    let more = keys.insert(name, node);
    assert forall|b: u8| is_button(b) implies #[trigger] slot_text(more, b) == slot_text(
        keys,
        b,
    ) by {
        assert(decimal_digits(b as nat) != name);
    }
    if names_existing_keys(keys) {
        assert(names_existing_keys(more));
    }
    if names_existing_keys(more) {
        assert forall|b: u8| is_button(b) && (#[trigger] slot_text(keys, b)) is Some implies
            is_valid_key_name(slot_text(keys, b)->Some_0) by {
            assert(slot_text(more, b) == slot_text(keys, b));
        }
    }
    assert(table_mapping(more) =~= table_mapping(keys));
}

/// An entry for a number that is no button's, such as 13, changes nothing.
pub proof fn lemma_number_out_of_range_is_ignored(
    keys: Map<Seq<char>, TomlNode>,
    number: nat,
    node: TomlNode,
)
    requires
        number < 1 || number > BUTTON_COUNT,
    ensures
        mapping_of_table(keys.insert(decimal_digits(number), node)) == mapping_of_table(keys),
{
    assert forall|b: u8| is_button(b) implies decimal_digits(b as nat) != decimal_digits(
        number,
    ) by {
        if decimal_digits(b as nat) == decimal_digits(number) {
            lemma_decimal_digits_injective(b as nat, number);
        }
    }
    lemma_other_keys_are_ignored(keys, decimal_digits(number), node);
}

} // verus!
