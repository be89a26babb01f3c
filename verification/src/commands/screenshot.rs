//! The screenshots taken of every monitor before the selection overlays open.

use std::collections::HashMap;

use vstd::prelude::*;

use crate::text::{chars_of, decimal, push_decimal, string_from_chars};

verus! {

broadcast use vstd::std_specs::hash::group_hash_axioms;

/// The PNG screenshot of each monitor, by monitor index, taken before any overlay window
/// is shown so that no overlay appears in them.
pub struct ScreenshotBuffer {
    shots: HashMap<usize, Vec<u8>>,
}

/// The text of the error for a monitor without a screenshot.
pub open spec fn missing_shot_message(index: usize) -> Seq<char> {
    "No pre-captured image for monitor "@ + decimal(index as nat)
}

impl ScreenshotBuffer {
    /// The bytes held for each monitor index.
    pub closed spec fn shots(&self) -> Map<usize, Seq<u8>> {
        self.shots@.map_values(|v: Vec<u8>| v@)
    }

    /// An empty buffer.
    pub fn new() -> (r: Self)
        ensures
            r.shots() == Map::<usize, Seq<u8>>::empty(),
    {
        let r = ScreenshotBuffer { shots: HashMap::new() };
        assert(r.shots() =~= Map::<usize, Seq<u8>>::empty());
        r
    }

    /// Forgets every screenshot.
    pub fn clear(&mut self)
        ensures
            final(self).shots() == Map::<usize, Seq<u8>>::empty(),
    {
        self.shots.clear();
        assert(self.shots() =~= Map::<usize, Seq<u8>>::empty());
    }

    /// Keeps the screenshot of monitor `index`, replacing any earlier one.
    pub fn store(&mut self, index: usize, png: Vec<u8>)
        ensures
            final(self).shots() == old(self).shots().insert(index, png@),
    {
        let ghost before = self.shots();
        let ghost pv = png@;
        self.shots.insert(index, png);
        assert(self.shots() =~= before.insert(index, pv));
    }

    /// The screenshot of monitor `index`, or the error text when there is none.
    pub fn captured(&self, index: usize) -> (r: Result<Vec<u8>, String>)
        ensures
            r is Ok <==> self.shots().contains_key(index),
            r matches Ok(b) ==> b@ == self.shots()[index],
            r matches Err(m) ==> m@ == missing_shot_message(index),
    {
        match self.shots.get(&index) {
            Some(b) => Ok(b.clone()),
            None => {
                let mut v = chars_of("No pre-captured image for monitor ");
                push_decimal(index as u64, &mut v);
                Err(string_from_chars(v.as_slice()))
            },
        }
    }
}

/// A stored screenshot is given back until another is stored for the same monitor or the
/// buffer is cleared; the screenshots of other monitors are left as they were.
pub proof fn law_store_then_captured(before: Map<usize, Seq<u8>>, index: usize, png: Seq<u8>, other: usize)
    requires
        other != index,
    ensures
        before.insert(index, png).contains_key(index),
        before.insert(index, png)[index] == png,
        before.insert(index, png).contains_key(other) == before.contains_key(other),
        before.contains_key(other) ==> before.insert(index, png)[other] == before[other],
{
}

} // verus!
