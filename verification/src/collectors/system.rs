//! Which sensor reading gives the machine's CPU or GPU temperature.
use vstd::prelude::*;

use crate::text::{chars_of, contains, lower, lower_contains};

verus! {

/// A sensor's label holds `needle` once ASCII letters are lowered.
pub open spec fn label_matches(label: Seq<char>, needle: Seq<char>) -> bool {
    contains(lower(label), needle)
}

/// The temperature of the first sensor whose label holds `needle` (a lower
/// case word such as `cpu`), ignoring ASCII case; `None` when no label holds
/// it or when that sensor has no reading. Readings are `(label, degrees)`.
pub fn pick_temperature(readings: &Vec<(String, Option<i32>)>, needle: &str) -> (r: Option<i32>)
    ensures
        (forall|k: int| 0 <= k < readings@.len() ==> !label_matches(#[trigger] readings@[k].0@, needle@))
            ==> r is None,
        forall|k: int|
            0 <= k < readings@.len() && label_matches(#[trigger] readings@[k].0@, needle@) && (forall|j: int|
                0 <= j < k ==> !label_matches(#[trigger] readings@[j].0@, needle@)) ==> r == readings@[k].1,
{
    let n = chars_of(needle);
    let mut i: usize = 0;
    while i < readings.len()
        invariant
            i <= readings@.len(),
            n@ == needle@,
            forall|j: int| 0 <= j < i ==> !label_matches(#[trigger] readings@[j].0@, needle@),
        decreases readings@.len() - i,
    {
        if lower_contains(readings[i].0.as_str(), &n) {
            return readings[i].1;
        }
        i = i + 1;
    }
    None
}

} // verus!
