use std::cell::RefCell;

use keyboard_layout::error::LayoutError;
use keyboard_layout::keys::{Key, KeyMapEntry, KeyboardLayout};
use keyboard_layout::resolver::{
    create_keyboard_layout, key_from_entry, key_from_translations, resolve, translate_key,
    KeyTranslations,
};
use keyboard_layout::translation::{
    key_code, modifier_key_state, produced, translation_request, Modifier, TranslationOutput,
    TranslationRequest, ALT_KEY, CMD_KEY, KEY_ACTION_DISPLAY, MAX_STRING_LENGTH,
    NO_DEAD_KEYS_MASK, SHIFT_KEY,
};

const KEY_A: i64 = 0x0007_0004;
const KEY_B: i64 = 0x0007_0005;
const F1: i64 = 0x0007_003a;

const NOTHING: TranslationOutput = TranslationOutput { count: 0, unit: 0 };

fn unit(c: char) -> TranslationOutput {
    TranslationOutput { count: 1, unit: c as u16 }
}

fn us_like(request: TranslationRequest) -> TranslationOutput {
    match (request.key_code, request.modifier_key_state) {
        (0, 0) => unit('a'),
        (0, 2) => unit('A'),
        (0, 8) => unit('å'),
        (0, 10) => unit('Å'),
        (0, 1) => unit('a'),
        (11, 0) => unit('b'),
        (11, 2) => unit('B'),
        (11, 1) => unit('b'),
        _ => NOTHING,
    }
}

fn unreachable_service(_request: TranslationRequest) -> TranslationOutput {
    panic!("the translation service was reached")
}

#[test]
fn modifier_states_are_the_flags_shifted_into_one_byte() {
    assert_eq!(modifier_key_state(Modifier::Plain), 0);
    assert_eq!(modifier_key_state(Modifier::Shift), 2);
    assert_eq!(modifier_key_state(Modifier::Alt), 8);
    assert_eq!(modifier_key_state(Modifier::AltShift), 10);
    assert_eq!(modifier_key_state(Modifier::Meta), 1);
    assert_eq!(modifier_key_state(Modifier::Shift), (SHIFT_KEY >> 8) & 0xFF);
    assert_eq!(modifier_key_state(Modifier::Alt), (ALT_KEY >> 8) & 0xFF);
    assert_eq!(modifier_key_state(Modifier::Meta), (CMD_KEY >> 8) & 0xFF);
}

#[test]
fn key_code_keeps_the_low_sixteen_bits() {
    assert_eq!(key_code(0), 0);
    assert_eq!(key_code(11), 11);
    assert_eq!(key_code(0xFFFF), 0xFFFF);
    assert_eq!(key_code(0x1_0005), 5);
    assert_eq!(key_code(-1), 0xFFFF);
}

#[test]
fn request_is_a_single_unit_display_lookup_without_dead_keys() {
    let request = translation_request(11, Modifier::AltShift);
    assert_eq!(
        request,
        TranslationRequest {
            key_code: 11,
            key_action: 3,
            modifier_key_state: 10,
            translate_options: 1,
            max_string_length: 1,
        }
    );
    assert_eq!(request.key_action, KEY_ACTION_DISPLAY);
    assert_eq!(request.translate_options, NO_DEAD_KEYS_MASK);
    assert_eq!(request.max_string_length, MAX_STRING_LENGTH);
}

#[test]
fn produced_reads_the_unit_only_when_one_was_written() {
    assert_eq!(produced(TranslationOutput { count: 1, unit: 97 }), Some(97));
    assert_eq!(produced(TranslationOutput { count: 2, unit: 0xFFFF }), Some(0xFFFF));
    assert_eq!(produced(TranslationOutput { count: 0, unit: 97 }), None);
    assert_eq!(produced(TranslationOutput { count: 1, unit: 0 }), Some(0));
}

#[test]
fn key_from_translations_fills_each_field_from_its_own_output() {
    let entry = KeyMapEntry { platform: 0, physical: KEY_A, logical: None };
    let translations = KeyTranslations {
        plain: unit('a'),
        shift: unit('A'),
        alt: NOTHING,
        alt_shift: unit('Å'),
        meta: TranslationOutput { count: 0, unit: 0x61 },
    };
    assert_eq!(
        key_from_translations(&entry, &translations),
        Key {
            platform: 0,
            physical: KEY_A,
            logical: Some(0x61),
            logical_shift: Some(0x41),
            logical_alt: None,
            logical_alt_shift: Some(0xC5),
            logical_meta: None,
        }
    );
}

#[test]
fn key_from_translations_ignores_outputs_for_a_fixed_entry() {
    let entry = KeyMapEntry { platform: 122, physical: F1, logical: Some(0x1_0000_0801) };
    let translations = KeyTranslations {
        plain: unit('x'),
        shift: unit('X'),
        alt: unit('y'),
        alt_shift: unit('Y'),
        meta: unit('z'),
    };
    assert_eq!(
        key_from_translations(&entry, &translations),
        Key {
            platform: 122,
            physical: F1,
            logical: Some(0x1_0000_0801),
            logical_shift: None,
            logical_alt: None,
            logical_alt_shift: None,
            logical_meta: None,
        }
    );
}

#[test]
fn translate_key_makes_the_five_lookups_in_order() {
    let seen: RefCell<Vec<TranslationRequest>> = RefCell::new(Vec::new());
    let service = |request: TranslationRequest| {
        seen.borrow_mut().push(request);
        us_like(request)
    };
    let translations = translate_key(0, &service);
    assert_eq!(
        translations,
        KeyTranslations {
            plain: unit('a'),
            shift: unit('A'),
            alt: unit('å'),
            alt_shift: unit('Å'),
            meta: unit('a'),
        }
    );
    let states: Vec<u32> = seen.borrow().iter().map(|r| r.modifier_key_state).collect();
    assert_eq!(states, vec![0, 2, 8, 10, 1]);
    for request in seen.borrow().iter() {
        assert_eq!(request.key_code, 0);
        assert_eq!(request.key_action, 3);
        assert_eq!(request.translate_options, 1);
        assert_eq!(request.max_string_length, 1);
    }
}

#[test]
fn fixed_value_bypasses_the_service() {
    let entry = KeyMapEntry { platform: 122, physical: F1, logical: Some(0x1_0000_0801) };
    let key = key_from_entry(&entry, &unreachable_service);
    assert_eq!(key.platform, 122);
    assert_eq!(key.physical, F1);
    assert_eq!(key.logical, Some(0x1_0000_0801));
    assert_eq!(key.logical_shift, None);
    assert_eq!(key.logical_alt, None);
    assert_eq!(key.logical_alt_shift, None);
    assert_eq!(key.logical_meta, None);
}

#[test]
fn absent_output_gives_an_absent_field() {
    let entry = KeyMapEntry { platform: 11, physical: KEY_B, logical: None };
    let key = key_from_entry(&entry, &us_like);
    assert_eq!(key.logical, Some('b' as i64));
    assert_eq!(key.logical_shift, Some('B' as i64));
    assert_eq!(key.logical_alt, None);
    assert_eq!(key.logical_alt_shift, None);
    assert_eq!(key.logical_meta, Some('b' as i64));
}

#[test]
fn a_key_that_produces_nothing_has_no_field() {
    let entry = KeyMapEntry { platform: 50, physical: 0x0007_0035, logical: None };
    let silent = |_request: TranslationRequest| TranslationOutput { count: 0, unit: 0x60 };
    let key = key_from_entry(&entry, &silent);
    assert_eq!(
        key,
        Key {
            platform: 50,
            physical: 0x0007_0035,
            logical: None,
            logical_shift: None,
            logical_alt: None,
            logical_alt_shift: None,
            logical_meta: None,
        }
    );
}

#[test]
fn layout_follows_the_table_in_order() {
    let key_map = vec![
        KeyMapEntry { platform: 11, physical: KEY_B, logical: None },
        KeyMapEntry { platform: 122, physical: F1, logical: Some(0x1_0000_0801) },
        KeyMapEntry { platform: 0, physical: KEY_A, logical: None },
    ];
    let calls: RefCell<Vec<(u16, u32)>> = RefCell::new(Vec::new());
    let service = |request: TranslationRequest| {
        calls.borrow_mut().push((request.key_code, request.modifier_key_state));
        us_like(request)
    };
    let layout = create_keyboard_layout(&key_map, &service);
    assert_eq!(layout.keys.len(), 3);
    assert_eq!(layout.keys[0].physical, KEY_B);
    assert_eq!(layout.keys[0].platform, 11);
    assert_eq!(layout.keys[0].logical, Some('b' as i64));
    assert_eq!(layout.keys[1].physical, F1);
    assert_eq!(layout.keys[1].logical, Some(0x1_0000_0801));
    assert_eq!(layout.keys[1].logical_shift, None);
    assert_eq!(layout.keys[2].physical, KEY_A);
    assert_eq!(layout.keys[2].logical_alt_shift, Some('Å' as i64));
    assert_eq!(
        *calls.borrow(),
        vec![
            (11, 0),
            (11, 2),
            (11, 8),
            (11, 10),
            (11, 1),
            (0, 0),
            (0, 2),
            (0, 8),
            (0, 10),
            (0, 1),
        ]
    );
}

#[test]
fn empty_table_gives_an_empty_layout() {
    let key_map: Vec<KeyMapEntry> = Vec::new();
    let layout = create_keyboard_layout(&key_map, &unreachable_service);
    assert_eq!(layout, KeyboardLayout { keys: Vec::new() });
}

#[test]
fn resolution_is_deterministic_under_a_fixed_source() {
    let key_map = vec![
        KeyMapEntry { platform: 0, physical: KEY_A, logical: None },
        KeyMapEntry { platform: 11, physical: KEY_B, logical: None },
        KeyMapEntry { platform: 122, physical: F1, logical: Some(0x1_0000_0801) },
    ];
    let first = create_keyboard_layout(&key_map, &us_like);
    let second = create_keyboard_layout(&key_map, &us_like);
    assert_eq!(first, second);
    assert_eq!(first.clone(), first);
}

#[test]
fn resolve_fails_without_an_input_source() {
    let key_map = vec![KeyMapEntry { platform: 0, physical: KEY_A, logical: None }];
    let outcome = resolve(&key_map, None::<&fn(TranslationRequest) -> TranslationOutput>);
    assert_eq!(outcome, Err(LayoutError::InputSourceUnavailable));
    assert_eq!(
        LayoutError::InputSourceUnavailable.message(),
        "no active keyboard input source is available"
    );
}

#[test]
fn resolve_with_an_input_source_gives_the_layout() {
    let key_map = vec![KeyMapEntry { platform: 11, physical: KEY_B, logical: None }];
    let outcome = resolve(&key_map, Some(&us_like));
    assert_eq!(
        outcome,
        Ok(KeyboardLayout {
            keys: vec![Key {
                platform: 11,
                physical: KEY_B,
                logical: Some(0x62),
                logical_shift: Some(0x42),
                logical_alt: None,
                logical_alt_shift: None,
                logical_meta: Some(0x62),
            }],
        })
    );
}
