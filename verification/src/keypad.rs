//! The sixteen-key keypad, and how a key-wait finds its key.

use vstd::prelude::*;

verus! {

/// Number of keys.
pub const KEY_COUNT: usize = 16;

/// Key `k` is down in `keys` and was up in `seen`.
pub open spec fn newly_pressed(seen: Seq<bool>, keys: Seq<bool>, k: int) -> bool {
    0 <= k < 16 && keys[k] && !seen[k]
}

/// Key `k` is newly pressed and no key below it is.
pub open spec fn is_first_new_key(seen: Seq<bool>, keys: Seq<bool>, k: int) -> bool {
    newly_pressed(seen, keys, k) && forall|j: int| 0 <= j < k ==> !newly_pressed(seen, keys, j)
}

/// The lowest key that is down in `keys` and was up in `seen`, if any.
pub open spec fn first_new_key(seen: Seq<bool>, keys: Seq<bool>) -> Option<u8> {
    if exists|k: int| is_first_new_key(seen, keys, k) {
        Some((choose|k: int| is_first_new_key(seen, keys, k)) as u8)
    } else {
        None
    }
}

/// The lowest key that is down in `keys` and was up in `seen`: `Some(k)`
/// for that key, `None` when no key went down.
pub fn find_new_key(seen: &[bool; 16], keys: &[bool; 16]) -> (r: Option<u8>)
    ensures
        r == first_new_key(seen@, keys@),
        match r {
            Some(k) => is_first_new_key(seen@, keys@, k as int),
            None => forall|k: int| !newly_pressed(seen@, keys@, k),
        },
{
    let mut k: usize = 0;
    while k < 16
        invariant
            k <= 16,
            forall|j: int| 0 <= j < k ==> !newly_pressed(seen@, keys@, j),
        decreases 16 - k,
    {
        if keys[k] && !seen[k] {
            assert(is_first_new_key(seen@, keys@, k as int));
            return Some(k as u8);
        }
        k += 1;
    }
    None
}

} // verus!
