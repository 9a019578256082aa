//! What holds of the library as a whole, over the models its contracts use.

use crate::cache::served;
use crate::engine::{delegate_event, EngineState, ObserverRemoval, NO_OBSERVER};
use crate::error::LayoutError;
use crate::keys::{Key, KeyMapEntry};
use crate::resolver::{
    fixed_key, key_resolved_by, layout_resolved_by, resolved_key, translated_by, translated_key,
    KeyTranslations,
};
use crate::translation::{
    key_code_of, modifier_key_state_of, produced_of, translation_request_of, Modifier,
    TranslationOutput, TranslationRequest,
};
use vstd::prelude::*;

verus! {

/// The service gives one output per lookup: the input source does not
/// change between two calls.
pub open spec fn deterministic<F: Fn(TranslationRequest) -> TranslationOutput>(
    translate: F,
) -> bool {
    forall|request: TranslationRequest, a: TranslationOutput, b: TranslationOutput|
        #![trigger call_ensures(translate, (request,), a), call_ensures(translate, (request,), b)]
        call_ensures(translate, (request,), a) && call_ensures(translate, (request,), b) ==> a
            == b
}

/// No two entries of the table name the same physical key.
pub open spec fn distinct_entries(key_map: Seq<KeyMapEntry>) -> bool {
    forall|i: int, j: int|
        0 <= i < j < key_map.len() ==> (#[trigger] key_map[i]).physical != (
        #[trigger] key_map[j]).physical
}

/// No two keys of a layout name the same physical key.
pub open spec fn distinct_keys(keys: Seq<Key>) -> bool {
    forall|i: int, j: int|
        0 <= i < j < keys.len() ==> (#[trigger] keys[i]).physical != (#[trigger] keys[j]).physical
}

/// Under a fixed input source a table has one resolution: two resolutions
/// of the same table under a service that answers each lookup in one way
/// agree in every field of every key.
pub proof fn law_resolution_deterministic<F: Fn(TranslationRequest) -> TranslationOutput>(
    translate: F,
    key_map: Seq<KeyMapEntry>,
    first: Seq<Key>,
    second: Seq<Key>,
)
    requires
        deterministic(translate),
        layout_resolved_by(translate, key_map, first),
        layout_resolved_by(translate, key_map, second),
    ensures
        first == second,
{
    assert forall|i: int| 0 <= i < key_map.len() implies first[i] == second[i] by {
        let entry = key_map[i];
        assert(key_resolved_by(translate, entry, first[i]));
        assert(key_resolved_by(translate, entry, second[i]));
        if entry.logical is None {
            let a = choose|t: KeyTranslations|
                #[trigger] translated_by(translate, entry.platform, t) && first[i]
                    == translated_key(entry, t);
            let b = choose|t: KeyTranslations|
                #[trigger] translated_by(translate, entry.platform, t) && second[i]
                    == translated_key(entry, t);
            assert(a.plain == b.plain);
            assert(a.shift == b.shift);
            assert(a.alt == b.alt);
            assert(a.alt_shift == b.alt_shift);
            assert(a.meta == b.meta);
        }
    }
    assert(first =~= second);
}

/// A layout mirrors its table: it is as long, each key carries the platform
/// code and the physical key of its entry, and where the table names no
/// physical key twice, neither does the layout.
pub proof fn law_layout_mirrors_table<F: Fn(TranslationRequest) -> TranslationOutput>(
    translate: F,
    key_map: Seq<KeyMapEntry>,
    keys: Seq<Key>,
)
    requires
        layout_resolved_by(translate, key_map, keys),
    ensures
        keys.len() == key_map.len(),
        forall|i: int|
            0 <= i < keys.len() ==> (#[trigger] keys[i]).platform == key_map[i].platform
                && keys[i].physical == key_map[i].physical,
        distinct_entries(key_map) ==> distinct_keys(keys),
{
    assert forall|i: int| 0 <= i < keys.len() implies (#[trigger] keys[i]).platform
        == key_map[i].platform && keys[i].physical == key_map[i].physical by {
        assert(key_resolved_by(translate, key_map[i], keys[i]));
    }
    if distinct_entries(key_map) {
        assert forall|i: int, j: int| 0 <= i < j < keys.len() implies (#[trigger] keys[i]).physical
            != (#[trigger] keys[j]).physical by {
            assert(keys[i].physical == key_map[i].physical);
            assert(keys[j].physical == key_map[j].physical);
        }
    }
}

/// A query that follows an answered query, with no invalidation between
/// them, gives the same keys and leaves the cache as it was, whatever table
/// and input source it is handed. Nothing is asked of that input source, so
/// the translation service is not reached.
pub proof fn law_cache_coherence<
    F: Fn(TranslationRequest) -> TranslationOutput,
    G: Fn(TranslationRequest) -> TranslationOutput,
>(
    before: Option<Seq<Key>>,
    key_map: Seq<KeyMapEntry>,
    source: Option<&F>,
    answer: Seq<Key>,
    between: Option<Seq<Key>>,
    next_key_map: Seq<KeyMapEntry>,
    next_source: Option<&G>,
    next_outcome: Result<Seq<Key>, LayoutError>,
    after: Option<Seq<Key>>,
)
    requires
        served(before, key_map, source, Ok(answer), between),
        served(between, next_key_map, next_source, next_outcome, after),
    ensures
        between == Some(answer),
        next_outcome == Ok::<Seq<Key>, LayoutError>(answer),
        after == between,
{
}

/// After an invalidation the next query resolves anew, whether or not the
/// layout changed: its answer is a resolution under the input source it was
/// handed, and the key of an entry without a fixed logical value records
/// outputs that the translation service gave for that entry.
pub proof fn law_invalidation_forces_resolution<F: Fn(TranslationRequest) -> TranslationOutput>(
    state: EngineState,
    key_map: Seq<KeyMapEntry>,
    translate: &F,
    outcome: Result<Seq<Key>, LayoutError>,
    after: Option<Seq<Key>>,
    i: int,
)
    requires
        served(state.invalidated().layout, key_map, Some(translate), outcome, after),
        0 <= i < key_map.len(),
        key_map[i].logical is None,
    ensures
        outcome matches Ok(keys) && after == Some(keys) && layout_resolved_by(
            *translate,
            key_map,
            keys,
        ) && exists|output: TranslationOutput|
            #[trigger] call_ensures(
                *translate,
                (translation_request_of(key_map[i].platform, Modifier::Plain),),
                output,
            ) && keys[i].logical == produced_of(output),
{
    let keys = outcome->Ok_0;
    assert(key_resolved_by(*translate, key_map[i], keys[i]));
    let t = choose|t: KeyTranslations|
        #[trigger] translated_by(*translate, key_map[i].platform, t) && keys[i] == translated_key(
            key_map[i],
            t,
        );
    assert(call_ensures(
        *translate,
        (translation_request_of(key_map[i].platform, Modifier::Plain),),
        t.plain,
    ));
}

/// A platform code that fits in sixteen bits is its own key code, and the
/// five modifier combinations are told apart by their modifier state.
pub proof fn law_lookups_distinct(platform: i64, a: Modifier, b: Modifier)
    ensures
        0 <= platform <= 0xFFFF ==> key_code_of(platform) == platform,
        modifier_key_state_of(a) == modifier_key_state_of(b) <==> a == b,
        translation_request_of(platform, a) == translation_request_of(platform, b) <==> a == b,
{
    assert(0 <= platform <= 0xFFFF ==> (platform as u16) as i64 == platform) by (bit_vector);
}

/// An entry with a fixed logical value yields that value unmodified and
/// nothing under any modifier, whatever the translation service does and
/// whatever outputs are at hand.
pub proof fn law_fixed_value_bypass<F: Fn(TranslationRequest) -> TranslationOutput>(
    translate: F,
    entry: KeyMapEntry,
    logical: i64,
    key: Key,
)
    requires
        entry.logical == Some(logical),
        key_resolved_by(translate, entry, key),
    ensures
        key == fixed_key(entry, logical),
        key.logical == Some(logical),
        key.logical_shift is None,
        key.logical_alt is None,
        key.logical_alt_shift is None,
        key.logical_meta is None,
        key.platform == entry.platform,
        key.physical == entry.physical,
        forall|translations: KeyTranslations| #[trigger]
            resolved_key(entry, translations) == key,
{
}

/// For an entry that goes through translation, a field is absent exactly
/// when the lookup for its modifier combination produced no code unit, and
/// holds the produced code unit otherwise.
pub proof fn law_absence(entry: KeyMapEntry, translations: KeyTranslations, modifier: Modifier)
    requires
        entry.logical is None,
    ensures
        resolved_key(entry, translations).logical_under(modifier) is None <==> translations.of(
            modifier,
        ).count == 0,
        translations.of(modifier).count > 0 ==> resolved_key(entry, translations).logical_under(
            modifier,
        ) == Some(translations.of(modifier).unit as i64),
{
}

/// A change notification delivered twice leaves the engine as one delivery
/// does: nothing cached, token and registration untouched. The delegate is
/// owed the same event each time, and the next query resolves anew.
pub proof fn law_notification_idempotent<F: Fn(TranslationRequest) -> TranslationOutput>(
    state: EngineState,
    delegate_alive: bool,
    key_map: Seq<KeyMapEntry>,
    translate: &F,
    outcome: Result<Seq<Key>, LayoutError>,
    after: Option<Seq<Key>>,
)
    requires
        served(state.invalidated().invalidated().layout, key_map, Some(translate), outcome, after),
    ensures
        state.invalidated().invalidated() == state.invalidated(),
        state.invalidated().layout is None,
        state.invalidated().weak_self == state.weak_self,
        state.invalidated().observer == state.observer,
        delegate_event(delegate_alive) is Some <==> delegate_alive,
        outcome matches Ok(keys) && after == Some(keys) && layout_resolved_by(
            *translate,
            key_map,
            keys,
        ),
{
}

/// The subscription runs once from unregistered to registered and back. A
/// new engine is unregistered. Given its token it is registered under that
/// token. Taking the registration leaves it unregistered with nothing more
/// to remove, and it keeps its token, so it cannot be given another. Every
/// step keeps a registered token equal to the engine's own.
pub proof fn law_subscription_lifecycle(state: EngineState, weak: usize)
    requires
        state.wf(),
    ensures
        EngineState::initial().wf(),
        !EngineState::initial().is_registered(),
        EngineState::initial().removal() is None,
        state.invalidated().wf(),
        state.released().wf(),
        state.assigned(weak).wf(),
        weak != NO_OBSERVER ==> state.assigned(weak).is_registered() && state.assigned(
            weak,
        ).removal() == Some(
            (ObserverRemoval {
                observer: weak,
                notification: EngineState::registration(weak).notification,
            }),
        ),
        !state.released().is_registered(),
        state.released().removal() is None,
        state.released().released() == state.released(),
        state.released().weak_self == state.weak_self,
        state.released().layout == state.layout,
{
}

} // verus!
