//! The slot that holds the layout between a resolution and the next change
//! of the input source.

use crate::error::LayoutError;
use crate::keys::{Key, KeyMapEntry, KeyboardLayout};
use crate::resolver::{can_resolve, layout_resolved_by, resolve};
use crate::translation::{TranslationOutput, TranslationRequest};
use vstd::prelude::*;

verus! {

/// At most one layout: the one resolved since the last invalidation.
pub struct LayoutCache {
    layout: Option<KeyboardLayout>,
}

/// The keys of the layout an outcome carries, or its error.
pub open spec fn outcome_keys(outcome: Result<KeyboardLayout, LayoutError>) -> Result<
    Seq<Key>,
    LayoutError,
> {
    match outcome {
        Ok(layout) => Ok(layout@),
        Err(error) => Err(error),
    }
}

/// How a query relates the cache before it, the answer, and the cache after it.
///
/// A filled cache answers with what it holds and stays as it is, whatever
/// `source` is. An empty cache without an input source fails and stays
/// empty. An empty cache with an input source answers with a resolution of
/// the table under that source, and holds it afterwards.
pub open spec fn served<F: Fn(TranslationRequest) -> TranslationOutput>(
    before: Option<Seq<Key>>,
    key_map: Seq<KeyMapEntry>,
    source: Option<&F>,
    outcome: Result<Seq<Key>, LayoutError>,
    after: Option<Seq<Key>>,
) -> bool {
    match before {
        Some(cached) => outcome == Ok::<Seq<Key>, LayoutError>(cached) && after == before,
        None => match source {
            None => outcome == Err::<Seq<Key>, LayoutError>(LayoutError::InputSourceUnavailable)
                && after == before,
            Some(translate) => outcome matches Ok(keys) && layout_resolved_by(
                *translate,
                key_map,
                keys,
            ) && after == Some(keys),
        },
    }
}

impl View for LayoutCache {
    type V = Option<Seq<Key>>;

    closed spec fn view(&self) -> Option<Seq<Key>> {
        match self.layout {
            Some(layout) => Some(layout@),
            None => None,
        }
    }
}

impl LayoutCache {
    /// An empty cache.
    pub fn new() -> (cache: Self)
        ensures
            cache@ is None,
    {
        LayoutCache { layout: None }
    }

    /// A copy of the cached layout, if there is one.
    pub fn get(&self) -> (layout: Option<KeyboardLayout>)
        ensures
            self@ is None <==> layout is None,
            layout matches Some(held) ==> self@ == Some(held@),
    {
        match &self.layout {
            Some(layout) => Some(layout.clone()),
            None => None,
        }
    }

    /// Discards the cached layout. The next query resolves anew.
    pub fn invalidate(&mut self)
        ensures
            final(self)@ is None,
    {
        self.layout = None;
    }

    /// Answers from the cache, or resolves the table and caches the result.
    ///
    /// Nothing is required of `source` while the cache is filled: the
    /// translation service is not reached then.
    pub fn get_or_build<F: Fn(TranslationRequest) -> TranslationOutput>(
        &mut self,
        key_map: &Vec<KeyMapEntry>,
        source: Option<&F>,
    ) -> (outcome: Result<KeyboardLayout, LayoutError>)
        requires
            old(self)@ is None ==> (source matches Some(translate) ==> can_resolve(
                *translate,
                key_map@,
            )),
        ensures
            served(old(self)@, key_map@, source, outcome_keys(outcome), final(self)@),
    {
        if let Some(layout) = &self.layout {
            return Ok(layout.clone());
        }
        match resolve(key_map, source) {
            Ok(layout) => {
                let answer = layout.clone();
                self.layout = Some(layout);
                Ok(answer)
            },
            Err(error) => Err(error),
        }
    }
}

} // verus!
