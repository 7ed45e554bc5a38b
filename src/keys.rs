use vstd::prelude::*;
use slotmap::{DefaultKey, Key, KeyData, SlotMap};

verus! {

/// The slot map that hands out the registry's keys. A key is carried as the
/// 64-bit value of `KeyData::as_ffi`: the slot's version in the upper half,
/// its index in the lower half.
#[verifier::external_body]
pub struct KeySlots {
    map: SlotMap<DefaultKey, ()>,
}

/// The keys that `slots` holds now.
pub uninterp spec fn live_keys(slots: KeySlots) -> Set<u64>;

/// The keys that `slots` handed out and has since removed: those whose slot
/// version has moved past theirs.
pub uninterp spec fn spent_keys(slots: KeySlots) -> Set<u64>;

/// A bound on the keys a slot map has handed out, live and spent together:
/// while the count is below it, one more insertion neither finds the map full
/// nor wraps a slot's version around, so no key is handed out twice.
pub const KEY_BUDGET: u64 = 0x7fff_fffe;

/// A key as `KeyData::as_ffi` writes it: its version, in the upper half, is odd.
pub open spec fn key_well_formed(key: u64) -> bool {
    (key / 0x1_0000_0000) % 2 == 1
}

/// Relies on `SlotMap::new`: an empty map whose slots were never used.
#[verifier::external_body]
pub(crate) fn empty_key_slots() -> (slots: KeySlots)
    ensures
        live_keys(slots) == Set::<u64>::empty(),
        spent_keys(slots) == Set::<u64>::empty(),
{
    KeySlots { map: SlotMap::new() }
}

/// Relies on `SlotMap::insert`: the new key takes a vacant slot, or a new one,
/// at a version above every version that slot had before, so it differs from
/// every key the map holds or has removed. With fewer than `KEY_BUDGET` keys
/// handed out, no version wraps and the map is not full, so `insert` does not
/// panic. The key is written with `KeyData::as_ffi`, which keeps the version odd.
#[verifier::external_body]
pub(crate) fn issue_key(slots: &mut KeySlots) -> (key: u64)
    requires
        live_keys(*old(slots)).finite(),
        spent_keys(*old(slots)).finite(),
        live_keys(*old(slots)).len() + spent_keys(*old(slots)).len() < KEY_BUDGET,
    ensures
        key_well_formed(key),
        !live_keys(*old(slots)).contains(key),
        !spent_keys(*old(slots)).contains(key),
        live_keys(*final(slots)) == live_keys(*old(slots)).insert(key),
        spent_keys(*final(slots)) == spent_keys(*old(slots)),
{
    slots.map.insert(()).data().as_ffi()
}

/// Relies on `SlotMap::remove`: a key the map holds is removed and its slot's
/// version moves on, so the key is spent; any other key leaves the map as it
/// was. `KeyData::from_ffi` gives back the key that `as_ffi` wrote, for a
/// value whose version is odd.
#[verifier::external_body]
pub(crate) fn retire_key(slots: &mut KeySlots, key: u64) -> (removed: bool)
    requires
        key_well_formed(key),
    ensures
        removed == live_keys(*old(slots)).contains(key),
        removed ==> live_keys(*final(slots)) == live_keys(*old(slots)).remove(key),
        removed ==> spent_keys(*final(slots)) == spent_keys(*old(slots)).insert(key),
        !removed ==> live_keys(*final(slots)) == live_keys(*old(slots)),
        !removed ==> spent_keys(*final(slots)) == spent_keys(*old(slots)),
{
    slots.map.remove(DefaultKey::from(KeyData::from_ffi(key))).is_some()
}

} // verus!
