use vstd::prelude::*;

verus! {

/// Some key of the table is pressed.
pub open spec fn any_pressed(keys: Seq<bool>) -> bool {
    exists|k: int| 0 <= k < keys.len() && keys[k]
}

/// `k` is the lowest pressed key of the table.
pub open spec fn is_first_pressed(keys: Seq<bool>, k: int) -> bool {
    &&& 0 <= k < keys.len()
    &&& keys[k]
    &&& forall|j: int| 0 <= j < k ==> !keys[j]
}

/// The lowest pressed key, where some key is pressed.
pub open spec fn first_pressed(keys: Seq<bool>) -> int {
    choose|k: int| is_first_pressed(keys, k)
}

/// Only one key is the lowest pressed one.
pub proof fn lemma_first_pressed_unique(keys: Seq<bool>, k: int)
    requires
        is_first_pressed(keys, k),
    ensures
        first_pressed(keys) == k,
{
    let f = first_pressed(keys);
    assert(is_first_pressed(keys, f));
    if f < k {
        assert(!keys[f]);
    } else if k < f {
        assert(!keys[k]);
    }
}

/// Whether any key of the table is pressed.
pub fn was_key_pressed(keys: &[bool; 16]) -> (r: bool)
    ensures
        r == any_pressed(keys@),
{
    let mut i: usize = 0;
    while i < 16
        invariant
            i <= 16,
            forall|j: int| 0 <= j < i ==> !keys@[j],
        decreases 16 - i,
    {
        if keys[i] {
            return true;
        }
        i = i + 1;
    }
    false
}

/// The lowest pressed key; 16, the size of the table, where none is pressed.
pub fn get_first_pressed_key(keys: &[bool; 16]) -> (r: u8)
    ensures
        any_pressed(keys@) ==> r == first_pressed(keys@),
        !any_pressed(keys@) ==> r == 16,
{
    let mut i: u8 = 0;
    while i < 16
        invariant
            i <= 16,
            forall|j: int| 0 <= j < i ==> !keys@[j],
        decreases 16 - i,
    {
        if keys[i as usize] {
            proof {
                lemma_first_pressed_unique(keys@, i as int);
            }
            return i;
        }
        i = i + 1;
    }
    16
}

} // verus!
