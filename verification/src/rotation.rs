use vstd::prelude::*;

use crate::device::Device;

verus! {

use vstd::arithmetic::div_mod::{lemma_mod_self_0, lemma_small_mod};

/// Advancing was requested but the filtered device list is empty: a
/// configuration/intent mismatch, reported instead of a panic or a silent
/// no-op.
#[derive(Clone, Copy, Debug, PartialEq, Eq, Structural)]
pub struct NoMatchError;

/// The names of a device sequence, in order.
pub open spec fn device_names(devs: Seq<Device>) -> Seq<Seq<char>> {
    devs.map_values(|d: Device| d.name@)
}

/// The position of the first name equal to `cur` at or after `i`, or
/// `names.len()` when there is none.
pub open spec fn first_match_from(names: Seq<Seq<char>>, cur: Seq<char>, i: int) -> int
    decreases names.len() - i,
{
    if i < 0 || i >= names.len() {
        names.len() as int
    } else if names[i] == cur {
        i
    } else {
        first_match_from(names, cur, i + 1)
    }
}

/// The position of the first name equal to `cur`, or `names.len()` when the
/// name does not occur.
pub open spec fn first_match(names: Seq<Seq<char>>, cur: Seq<char>) -> int {
    first_match_from(names, cur, 0)
}

/// The position of the device that should become the new default: the one
/// after the current default's first occurrence, wrapping to the front after
/// the last element, and position 0 when the current name does not occur.
pub open spec fn next_position(names: Seq<Seq<char>>, cur: Seq<char>) -> int {
    let found = first_match(names, cur);
    if found < names.len() && found + 1 < names.len() {
        found + 1
    } else {
        0
    }
}

/// No name at or after `i` equals `cur`, so the scan runs off the end.
proof fn lemma_first_match_from_none(names: Seq<Seq<char>>, cur: Seq<char>, i: int)
    requires
        forall|j: int| i <= j < names.len() ==> names[j] != cur,
    ensures
        first_match_from(names, cur, i) == names.len(),
    decreases names.len() - i,
{
    if 0 <= i < names.len() {
        lemma_first_match_from_none(names, cur, i + 1);
    }
}

/// The scan from the front skips an unequal prefix.
proof fn lemma_first_match_prefix(names: Seq<Seq<char>>, cur: Seq<char>, i: int)
    requires
        0 <= i <= names.len(),
        forall|j: int| 0 <= j < i ==> names[j] != cur,
    ensures
        first_match(names, cur) == first_match_from(names, cur, i),
    decreases i,
{
    if i > 0 {
        lemma_first_match_prefix(names, cur, i - 1);
    }
}

/// `first_match` is what its name says: when `cur` first occurs at `i`, the
/// scan stops there.
pub proof fn lemma_first_match_at(names: Seq<Seq<char>>, cur: Seq<char>, i: int)
    requires
        0 <= i < names.len(),
        names[i] == cur,
        forall|j: int| 0 <= j < i ==> names[j] != cur,
    ensures
        first_match(names, cur) == i,
{
    lemma_first_match_prefix(names, cur, i);
}

impl Device {
    /// Picks the device after the current default in the filtered list,
    /// wrapping to the front; the first device when the current default's
    /// name is not in the list. Pure: identical inputs give identical output.
    pub fn advance(filtered: &Vec<Device>, current: &Device) -> (next: Device)
        requires
            filtered@.len() > 0,
        ensures
            next == filtered@[next_position(device_names(filtered@), current.name@)],
    {
        let ghost names = device_names(filtered@);
        let n = filtered.len();
        let mut i: usize = 0;
        while i < n
            invariant
                n == filtered@.len(),
                0 < n,
                i <= n,
                names == device_names(filtered@),
                first_match(names, current.name@) == first_match_from(names, current.name@, i as int),
            decreases n - i,
        {
            if filtered[i].name.eq(&current.name) {
                let target = if i + 1 < n {
                    i + 1
                } else {
                    0
                };
                assert(first_match(names, current.name@) == i);
                return filtered[target].clone();
            }
            i = i + 1;
        }
        proof {
            assert(first_match(names, current.name@) == n);
        }
        filtered[0].clone()
    }

    /// The advance step of the switcher: fails with `NoMatchError` exactly
    /// when the filtered list is empty, and otherwise returns the device
    /// `advance` picks.
    pub fn select_next(filtered: &Vec<Device>, current: &Device) -> (r: Result<Device, NoMatchError>)
        ensures
            r is Err <==> filtered@.len() == 0,
            r matches Ok(d) ==> d == filtered@[next_position(
                device_names(filtered@),
                current.name@,
            )],
    {
        if filtered.len() == 0 {
            Err(NoMatchError)
        } else {
            Ok(Device::advance(filtered, current))
        }
    }
}

/// Rotation is cyclic: when the current default's name first occurs at
/// position `i`, the selected position is `(i + 1) % names.len()`.
pub proof fn lemma_rotation_cyclic(names: Seq<Seq<char>>, i: int)
    requires
        0 <= i < names.len(),
        forall|j: int| 0 <= j < i ==> names[j] != names[i],
    ensures
        next_position(names, names[i]) == (i + 1) % (names.len() as int),
{
    let n = names.len() as int;
    lemma_first_match_at(names, names[i], i);
    if i + 1 < n {
        lemma_small_mod((i + 1) as nat, n as nat);
    } else {
        lemma_mod_self_0(n);
    }
}

/// Rotation falls back to the front: when the current default's name is
/// absent from the filtered names, the selected position is 0.
pub proof fn lemma_rotation_fallback(names: Seq<Seq<char>>, cur: Seq<char>)
    requires
        forall|j: int| 0 <= j < names.len() ==> names[j] != cur,
    ensures
        next_position(names, cur) == 0,
{
    lemma_first_match_from_none(names, cur, 0);
}

/// A single-element list is a fixed point: whatever the current default,
/// rotation selects its only element.
pub proof fn lemma_rotation_single(names: Seq<Seq<char>>, cur: Seq<char>)
    requires
        names.len() == 1,
    ensures
        next_position(names, cur) == 0,
{
    if names[0] != cur {
        lemma_first_match_from_none(names, cur, 0);
    }
}

/// All names distinct: the hypothesis under which a full round of rotation
/// visits every position and returns to the start.
pub open spec fn distinct_names(names: Seq<Seq<char>>) -> bool {
    forall|i: int, j: int| 0 <= i < j < names.len() ==> names[i] != names[j]
}

/// The position reached after `k` rotation steps from `start`, each step
/// treating the device it selected as the next current default.
pub open spec fn rotate_from(names: Seq<Seq<char>>, start: int, k: nat) -> int
    decreases k,
{
    if k == 0 {
        start
    } else {
        next_position(names, names[rotate_from(names, start, (k - 1) as nat)])
    }
}

/// After `k <= names.len()` steps from `start`, rotation stands `k` places
/// further, wrapped once past the end.
proof fn lemma_rotate_from_adds(names: Seq<Seq<char>>, start: int, k: nat)
    requires
        distinct_names(names),
        0 <= start < names.len(),
        k <= names.len(),
    ensures
        rotate_from(names, start, k) == if start + k < names.len() {
            start + k
        } else {
            start + k - names.len()
        },
    decreases k,
{
    let n = names.len() as int;
    if k > 0 {
        lemma_rotate_from_adds(names, start, (k - 1) as nat);
        let p = rotate_from(names, start, (k - 1) as nat);
        lemma_first_match_at(names, names[p], p);
    }
}

/// A full round of rotation is the identity: with distinct names, applying
/// the advance step `names.len()` times in sequence — each time treating its
/// own output as the next current default — returns to the starting position.
pub proof fn lemma_rotation_full_cycle(names: Seq<Seq<char>>, start: int)
    requires
        distinct_names(names),
        0 <= start < names.len(),
    ensures
        rotate_from(names, start, names.len()) == start,
{
    lemma_rotate_from_adds(names, start, names.len());
}

} // verus!
