//! The key table the resolver reads and the records it produces.

use vstd::prelude::*;

verus! {

/// One entry of the key table: a physical key, the platform code by which
/// the translation service knows it, and, for a key whose meaning does not
/// depend on the layout, its fixed logical value.
#[derive(Clone, Copy, Debug, PartialEq, Eq)]
pub struct KeyMapEntry {
    pub platform: i64,
    pub physical: i64,
    pub logical: Option<i64>,
}

/// What one physical key produces under the active layout, per modifier
/// combination. A field is absent when the combination produces nothing.
#[derive(Clone, Copy, Debug, PartialEq, Eq)]
pub struct Key {
    pub platform: i64,
    pub physical: i64,
    pub logical: Option<i64>,
    pub logical_shift: Option<i64>,
    pub logical_alt: Option<i64>,
    pub logical_alt_shift: Option<i64>,
    pub logical_meta: Option<i64>,
}

/// One full resolution of the key table: a key per entry, in table order.
#[derive(Debug, PartialEq, Eq)]
pub struct KeyboardLayout {
    pub keys: Vec<Key>,
}

impl View for KeyboardLayout {
    type V = Seq<Key>;

    open spec fn view(&self) -> Seq<Key> {
        self.keys@
    }
}

impl Clone for KeyboardLayout {
    fn clone(&self) -> (copy: Self)
        ensures
            copy@ == self@,
    {
        let mut keys: Vec<Key> = Vec::with_capacity(self.keys.len());
        let mut i: usize = 0;
        while i < self.keys.len()
            invariant
                i <= self.keys.len(),
                keys@ == self.keys@.take(i as int),
            decreases self.keys.len() - i,
        {
            keys.push(self.keys[i]);
            i += 1;
        }
        KeyboardLayout { keys }
    }
}

} // verus!
