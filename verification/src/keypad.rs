//! Reading the keypad: which key went down between two snapshots.

use vstd::prelude::*;

verus! {

/// Key `k` is down in `current` and was up in `previous`.
pub open spec fn key_went_down(previous: Seq<bool>, current: Seq<bool>, k: int) -> bool {
    0 <= k < 16 && current[k] && !previous[k]
}

/// Key `k` went down and no key with a smaller number did.
pub open spec fn is_first_key_down(previous: Seq<bool>, current: Seq<bool>, k: int) -> bool {
    key_went_down(previous, current, k) && forall|j: int|
        0 <= j < k ==> !key_went_down(previous, current, j)
}

/// The lowest-numbered key that went down between the two snapshots, if
/// any did.
pub open spec fn first_key_down(previous: Seq<bool>, current: Seq<bool>) -> Option<u8> {
    if exists|k: int| is_first_key_down(previous, current, k) {
        Some((choose|k: int| is_first_key_down(previous, current, k)) as u8)
    } else {
        None
    }
}

/// At most one key is the first to go down.
pub proof fn lemma_first_key_down_unique(
    previous: Seq<bool>,
    current: Seq<bool>,
    a: int,
    b: int,
)
    requires
        is_first_key_down(previous, current, a),
        is_first_key_down(previous, current, b),
    ensures
        a == b,
{
}

/// Finds the lowest-numbered key that is down now and was up in the
/// previous snapshot.
pub fn find_first_key_down(previous: &[bool; 16], current: &[bool; 16]) -> (r: Option<u8>)
    ensures
        r == first_key_down(previous@, current@),
        r matches Some(k) ==> is_first_key_down(previous@, current@, k as int),
        r is None ==> forall|k: int| !key_went_down(previous@, current@, k),
{
    let mut k: u8 = 0;
    while k < 16
        invariant
            k <= 16,
            forall|j: int| 0 <= j < k ==> !key_went_down(previous@, current@, j),
        decreases 16 - k,
    {
        if current[k as usize] && !previous[k as usize] {
            proof {
                assert(is_first_key_down(previous@, current@, k as int));
                let c = choose|c: int| is_first_key_down(previous@, current@, c);
                lemma_first_key_down_unique(previous@, current@, c, k as int);
            }
            return Some(k);
        }
        k += 1;
    }
    None
}

} // verus!
