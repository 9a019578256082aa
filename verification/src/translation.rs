//! The interface to the key translation service: what is asked of it for one
//! key under one modifier combination, and how its answer is read.

use vstd::prelude::*;

verus! {

/// Modifier flag of the shift keys, as event records carry it.
pub const SHIFT_KEY: u32 = 0x0200;

/// Modifier flag of the alt (option) keys.
pub const ALT_KEY: u32 = 0x0800;

/// Modifier flag of the meta (command) keys.
pub const CMD_KEY: u32 = 0x0100;

/// Key action under which a key is translated for display.
pub const KEY_ACTION_DISPLAY: u16 = 3;

/// Translation option that switches dead-key processing off, so that a dead
/// key yields its spacing glyph at once.
pub const NO_DEAD_KEYS_MASK: u32 = 1;

/// Number of code units a translation may write.
pub const MAX_STRING_LENGTH: u64 = 1;

/// The modifier combinations a key is resolved under.
#[derive(Clone, Copy, Debug, PartialEq, Eq)]
pub enum Modifier {
    Plain,
    Shift,
    Alt,
    AltShift,
    Meta,
}

/// One lookup handed to the translation service.
#[derive(Clone, Copy, Debug, PartialEq, Eq)]
pub struct TranslationRequest {
    pub key_code: u16,
    pub key_action: u16,
    pub modifier_key_state: u32,
    pub translate_options: u32,
    pub max_string_length: u64,
}

/// What the translation service wrote back: how many code units the key
/// produced, and the first of them. `unit` means nothing when `count` is zero.
#[derive(Clone, Copy, Debug, PartialEq, Eq)]
pub struct TranslationOutput {
    pub count: u64,
    pub unit: u16,
}

/// The modifier state the service expects for each combination: the
/// modifier flags shifted down into one byte.
pub open spec fn modifier_key_state_of(modifier: Modifier) -> u32 {
    match modifier {
        Modifier::Plain => 0,
        Modifier::Shift => 2,
        Modifier::Alt => 8,
        Modifier::AltShift => 10,
        Modifier::Meta => 1,
    }
}

/// The key code of a platform code: its low sixteen bits.
pub open spec fn key_code_of(platform: i64) -> u16 {
    platform as u16
}

/// The lookup made for a key under a modifier combination: for display, a
/// single code unit, with dead keys off.
pub open spec fn translation_request_of(platform: i64, modifier: Modifier) -> TranslationRequest {
    TranslationRequest {
        key_code: key_code_of(platform),
        key_action: KEY_ACTION_DISPLAY,
        modifier_key_state: modifier_key_state_of(modifier),
        translate_options: NO_DEAD_KEYS_MASK,
        max_string_length: MAX_STRING_LENGTH,
    }
}

/// The logical value an output stands for: the code unit when one was
/// produced, nothing otherwise.
pub open spec fn produced_of(output: TranslationOutput) -> Option<i64> {
    if output.count > 0 {
        Some(output.unit as i64)
    } else {
        None
    }
}

/// Computes the modifier state of a combination from the modifier flags.
pub fn modifier_key_state(modifier: Modifier) -> (state: u32)
    ensures
        state == modifier_key_state_of(modifier),
{
    assert((0x0200u32 >> 8) & 0xFF == 2) by (bit_vector);
    assert((0x0800u32 >> 8) & 0xFF == 8) by (bit_vector);
    assert((0x0100u32 >> 8) & 0xFF == 1) by (bit_vector);
    assert(2u32 | 8u32 == 10) by (bit_vector);
    match modifier {
        Modifier::Plain => 0,
        Modifier::Shift => (SHIFT_KEY >> 8) & 0xFF,
        Modifier::Alt => (ALT_KEY >> 8) & 0xFF,
        Modifier::AltShift => (SHIFT_KEY >> 8) & 0xFF | (ALT_KEY >> 8) & 0xFF,
        Modifier::Meta => (CMD_KEY >> 8) & 0xFF,
    }
}

/// Cuts a platform code down to the key code the service takes.
pub fn key_code(platform: i64) -> (code: u16)
    ensures
        code == key_code_of(platform),
{
    #[verifier::truncate]
    (platform as u16)
}

/// Builds the lookup for a key under a modifier combination.
pub fn translation_request(platform: i64, modifier: Modifier) -> (request: TranslationRequest)
    ensures
        request == translation_request_of(platform, modifier),
{
    TranslationRequest {
        key_code: key_code(platform),
        key_action: KEY_ACTION_DISPLAY,
        modifier_key_state: modifier_key_state(modifier),
        translate_options: NO_DEAD_KEYS_MASK,
        max_string_length: MAX_STRING_LENGTH,
    }
}

/// Reads an output: the produced code unit, or nothing.
pub fn produced(output: TranslationOutput) -> (logical: Option<i64>)
    ensures
        logical == produced_of(output),
{
    if output.count > 0 {
        Some(output.unit as i64)
    } else {
        None
    }
}

} // verus!
