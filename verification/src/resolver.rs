//! Resolving the key table against a translation service: one key record
//! per table entry, in table order.

use crate::error::LayoutError;
use crate::keys::{Key, KeyMapEntry, KeyboardLayout};
use crate::translation::{
    produced, produced_of, translation_request, translation_request_of, Modifier,
    TranslationOutput, TranslationRequest,
};
use vstd::prelude::*;

verus! {

/// The outputs of the five lookups made for one key.
#[derive(Clone, Copy, Debug, PartialEq, Eq)]
pub struct KeyTranslations {
    pub plain: TranslationOutput,
    pub shift: TranslationOutput,
    pub alt: TranslationOutput,
    pub alt_shift: TranslationOutput,
    pub meta: TranslationOutput,
}

impl KeyTranslations {
    /// The output recorded for a modifier combination.
    pub open spec fn of(self, modifier: Modifier) -> TranslationOutput {
        match modifier {
            Modifier::Plain => self.plain,
            Modifier::Shift => self.shift,
            Modifier::Alt => self.alt,
            Modifier::AltShift => self.alt_shift,
            Modifier::Meta => self.meta,
        }
    }
}

impl Key {
    /// The logical value recorded for a modifier combination.
    pub open spec fn logical_under(self, modifier: Modifier) -> Option<i64> {
        match modifier {
            Modifier::Plain => self.logical,
            Modifier::Shift => self.logical_shift,
            Modifier::Alt => self.logical_alt,
            Modifier::AltShift => self.logical_alt_shift,
            Modifier::Meta => self.logical_meta,
        }
    }
}

/// The record of a key whose logical value is fixed by the table: that value
/// unmodified, and nothing under any modifier.
pub open spec fn fixed_key(entry: KeyMapEntry, logical: i64) -> Key {
    Key {
        platform: entry.platform,
        physical: entry.physical,
        logical: Some(logical),
        logical_shift: None,
        logical_alt: None,
        logical_alt_shift: None,
        logical_meta: None,
    }
}

/// The record of a key that went through translation: under each modifier
/// combination, what the lookup for it produced.
pub open spec fn translated_key(entry: KeyMapEntry, translations: KeyTranslations) -> Key {
    Key {
        platform: entry.platform,
        physical: entry.physical,
        logical: produced_of(translations.plain),
        logical_shift: produced_of(translations.shift),
        logical_alt: produced_of(translations.alt),
        logical_alt_shift: produced_of(translations.alt_shift),
        logical_meta: produced_of(translations.meta),
    }
}

/// The record of a table entry, given the outputs of its lookups. The
/// outputs play no part for an entry with a fixed logical value.
pub open spec fn resolved_key(entry: KeyMapEntry, translations: KeyTranslations) -> Key {
    match entry.logical {
        Some(logical) => fixed_key(entry, logical),
        None => translated_key(entry, translations),
    }
}

/// The service accepts each of the five lookups of a platform code.
pub open spec fn accepts_lookups<F: Fn(TranslationRequest) -> TranslationOutput>(
    translate: F,
    platform: i64,
) -> bool {
    &&& call_requires(translate, (translation_request_of(platform, Modifier::Plain),))
    &&& call_requires(translate, (translation_request_of(platform, Modifier::Shift),))
    &&& call_requires(translate, (translation_request_of(platform, Modifier::Alt),))
    &&& call_requires(translate, (translation_request_of(platform, Modifier::AltShift),))
    &&& call_requires(translate, (translation_request_of(platform, Modifier::Meta),))
}

/// The service accepts every lookup that resolving the table makes: the five
/// lookups of each entry without a fixed logical value, and no others.
pub open spec fn can_resolve<F: Fn(TranslationRequest) -> TranslationOutput>(
    translate: F,
    key_map: Seq<KeyMapEntry>,
) -> bool {
    forall|i: int|
        0 <= i < key_map.len() && (#[trigger] key_map[i]).logical is None ==> accepts_lookups(
            translate,
            key_map[i].platform,
        )
}

/// Each of the five outputs is one that the service gives for the lookup of
/// the platform code under that modifier combination.
pub open spec fn translated_by<F: Fn(TranslationRequest) -> TranslationOutput>(
    translate: F,
    platform: i64,
    translations: KeyTranslations,
) -> bool {
    &&& call_ensures(
        translate,
        (translation_request_of(platform, Modifier::Plain),),
        translations.plain,
    )
    &&& call_ensures(
        translate,
        (translation_request_of(platform, Modifier::Shift),),
        translations.shift,
    )
    &&& call_ensures(
        translate,
        (translation_request_of(platform, Modifier::Alt),),
        translations.alt,
    )
    &&& call_ensures(
        translate,
        (translation_request_of(platform, Modifier::AltShift),),
        translations.alt_shift,
    )
    &&& call_ensures(
        translate,
        (translation_request_of(platform, Modifier::Meta),),
        translations.meta,
    )
}

/// `key` is the record of `entry` under the service: the fixed record where
/// the table fixes the logical value, and otherwise the record of five
/// outputs that the service gave for the entry's lookups.
pub open spec fn key_resolved_by<F: Fn(TranslationRequest) -> TranslationOutput>(
    translate: F,
    entry: KeyMapEntry,
    key: Key,
) -> bool {
    match entry.logical {
        Some(logical) => key == fixed_key(entry, logical),
        None => exists|translations: KeyTranslations|
            #[trigger] translated_by(translate, entry.platform, translations) && key
                == translated_key(entry, translations),
    }
}

/// `keys` is a resolution of the table under the service: as long as the
/// table, with the record of each entry at the entry's place.
pub open spec fn layout_resolved_by<F: Fn(TranslationRequest) -> TranslationOutput>(
    translate: F,
    key_map: Seq<KeyMapEntry>,
    keys: Seq<Key>,
) -> bool {
    &&& keys.len() == key_map.len()
    &&& forall|i: int|
        0 <= i < key_map.len() ==> key_resolved_by(translate, key_map[i], #[trigger] keys[i])
}

/// Builds the record of a table entry from the outputs of its lookups.
pub fn key_from_translations(entry: &KeyMapEntry, translations: &KeyTranslations) -> (key: Key)
    ensures
        key == resolved_key(*entry, *translations),
{
    match entry.logical {
        Some(logical) => Key {
            platform: entry.platform,
            physical: entry.physical,
            logical: Some(logical),
            logical_shift: None,
            logical_alt: None,
            logical_alt_shift: None,
            logical_meta: None,
        },
        None => Key {
            platform: entry.platform,
            physical: entry.physical,
            logical: produced(translations.plain),
            logical_shift: produced(translations.shift),
            logical_alt: produced(translations.alt),
            logical_alt_shift: produced(translations.alt_shift),
            logical_meta: produced(translations.meta),
        },
    }
}

/// Makes the five lookups of a platform code, each on its own: unmodified,
/// shift, alt, alt with shift, meta.
pub fn translate_key<F: Fn(TranslationRequest) -> TranslationOutput>(
    platform: i64,
    translate: &F,
) -> (translations: KeyTranslations)
    requires
        accepts_lookups(*translate, platform),
    ensures
        translated_by(*translate, platform, translations),
{
    let plain = translate(translation_request(platform, Modifier::Plain));
    let shift = translate(translation_request(platform, Modifier::Shift));
    let alt = translate(translation_request(platform, Modifier::Alt));
    let alt_shift = translate(translation_request(platform, Modifier::AltShift));
    // What the key gives with meta held is recorded beside the others: on
    // some layouts a shortcut with meta is matched against it, on others
    // against the unmodified value. Which one applies is for the consumer.
    let meta = translate(translation_request(platform, Modifier::Meta));
    KeyTranslations { plain, shift, alt, alt_shift, meta }
}

/// Resolves one table entry. An entry with a fixed logical value is
/// recorded without any lookup; nothing is required of the service for it.
pub fn key_from_entry<F: Fn(TranslationRequest) -> TranslationOutput>(
    entry: &KeyMapEntry,
    translate: &F,
) -> (key: Key)
    requires
        entry.logical is None ==> accepts_lookups(*translate, entry.platform),
    ensures
        key_resolved_by(*translate, *entry, key),
{
    match entry.logical {
        Some(logical) => Key {
            platform: entry.platform,
            physical: entry.physical,
            logical: Some(logical),
            logical_shift: None,
            logical_alt: None,
            logical_alt_shift: None,
            logical_meta: None,
        },
        None => {
            let translations = translate_key(entry.platform, translate);
            key_from_translations(entry, &translations)
        },
    }
}

/// Resolves the whole table under the service.
pub fn create_keyboard_layout<F: Fn(TranslationRequest) -> TranslationOutput>(
    key_map: &Vec<KeyMapEntry>,
    translate: &F,
) -> (layout: KeyboardLayout)
    requires
        can_resolve(*translate, key_map@),
    ensures
        layout_resolved_by(*translate, key_map@, layout@),
{
    let mut keys: Vec<Key> = Vec::with_capacity(key_map.len());
    let mut i: usize = 0;
    while i < key_map.len()
        invariant
            i <= key_map.len(),
            can_resolve(*translate, key_map@),
            keys@.len() == i,
            forall|j: int|
                0 <= j < i ==> key_resolved_by(*translate, key_map@[j], #[trigger] keys@[j]),
        decreases key_map.len() - i,
    {
        let key = key_from_entry(&key_map[i], translate);
        keys.push(key);
        i += 1;
    }
    KeyboardLayout { keys }
}

/// Resolves the table against the active input source, where there is one.
/// `source` is the translation service bound to the active input source, or
/// nothing when the system could not supply an input source.
pub fn resolve<F: Fn(TranslationRequest) -> TranslationOutput>(
    key_map: &Vec<KeyMapEntry>,
    source: Option<&F>,
) -> (outcome: Result<KeyboardLayout, LayoutError>)
    requires
        source matches Some(translate) ==> can_resolve(*translate, key_map@),
    ensures
        source is None ==> outcome == Err::<KeyboardLayout, LayoutError>(
            LayoutError::InputSourceUnavailable,
        ),
        source matches Some(translate) ==> outcome matches Ok(layout) && layout_resolved_by(
            *translate,
            key_map@,
            layout@,
        ),
{
    match source {
        Some(translate) => Ok(create_keyboard_layout(key_map, translate)),
        None => Err(LayoutError::InputSourceUnavailable),
    }
}

} // verus!
