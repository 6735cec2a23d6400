use vstd::prelude::*;
use vstd::relations::{sorted_by, total_ordering};

use crate::keymap::{key_to_hid_usage_id, usage_for_key};
use crate::modifier::{
    lemma_byte_from_bits, lemma_mask_values, lemma_with_modifier_bits, mask_if, modifier_for_key,
    with_modifier, UsbHidModifier,
};
use crate::report::{distinct_usages, empty_slots, Report, WhyNoDeriveDeserializeManSadFaceHere};

verus! {

broadcast use vstd::seq_lib::group_to_multiset_ensures;

/// The order the slots are kept in after a release: largest usage first.
pub open spec fn descending() -> spec_fn(u8, u8) -> bool {
    |a: u8, b: u8| a >= b
}

/// Whether `i` is the first position of `v` in `s`.
pub open spec fn is_first(s: Seq<u8>, v: u8, i: int) -> bool {
    0 <= i < s.len() && s[i] == v && forall|j: int| 0 <= j < i ==> s[j] != v
}

/// The first position of `v` in `s`, where `s` holds it.
pub open spec fn first_index(s: Seq<u8>, v: u8) -> int {
    choose|i: int| is_first(s, v, i)
}

/// The slots after the key with usage `u` goes down: unchanged when the usage
/// is already held or no slot is empty, else `u` takes the first empty slot.
pub open spec fn slots_after_press(s: Seq<u8>, u: u8) -> Seq<u8> {
    if s.contains(u) || !s.contains(0) {
        s
    } else {
        s.update(first_index(s, 0), u)
    }
}

/// The slots after the key with usage `u` goes up: unchanged when the usage is
/// not held, else its slot is emptied and all six slots are sorted, largest
/// usage first, so that the empty slots sink to the end.
pub open spec fn slots_after_release(s: Seq<u8>, u: u8) -> Seq<u8> {
    if !s.contains(u) {
        s
    } else {
        s.update(first_index(s, u), 0).sort_by(descending())
    }
}

/// The modifier byte after the key `code` goes down (`down`) or up.
pub open spec fn modifiers_after(bits: u8, code: u16, down: bool) -> u8 {
    match modifier_for_key(code) {
        Some(flag) => with_modifier(bits, flag, down),
        None => bits,
    }
}

/// The slots after the key `code` goes down (`down`) or up. Modifier keys and
/// keys without a usage leave them alone.
pub open spec fn slots_after(s: Seq<u8>, code: u16, down: bool) -> Seq<u8> {
    if modifier_for_key(code) is Some {
        s
    } else {
        match usage_for_key(code) {
            Some(u) => if down {
                slots_after_press(s, u)
            } else {
                slots_after_release(s, u)
            },
            None => s,
        }
    }
}

/// Whether the key `code` counts as held in the state (`bits`, `s`).
pub open spec fn key_is_held(bits: u8, s: Seq<u8>, code: u16) -> bool {
    match modifier_for_key(code) {
        Some(flag) => bits & flag.mask() != 0,
        None => match usage_for_key(code) {
            Some(u) => s.contains(u),
            None => false,
        },
    }
}

/// The set of keys held on the host: the modifier byte and six usage slots.
#[derive(Clone, Copy, Debug, PartialEq, Eq, Default)]
pub struct KeySet {
    pub modifier: u8,
    pub keys: [u8; 6],
}

impl KeySet {
    /// Well-formed: the report it describes is valid, so no usage sits in
    /// two slots.
    pub open spec fn wf(self) -> bool {
        self.as_report().is_valid()
    }

    /// No key held.
    pub fn new() -> (r: Self)
        ensures
            r.modifier == 0,
            r.keys@ == empty_slots(),
            r.wf(),
    {
        let r = KeySet { modifier: 0, keys: [0u8; 6] };
        assert(r.keys@ =~= empty_slots());
        proof {
            lemma_empty_slots_distinct();
        }
        r
    }

    /// Sets or clears the bit of one modifier.
    pub fn set_modifier(&mut self, flag: UsbHidModifier, on: bool)
        ensures
            final(self).modifier == with_modifier(old(self).modifier, flag, on),
            final(self).keys == old(self).keys,
    {
        if on {
            self.modifier = self.modifier | flag.bit();
        } else {
            self.modifier = self.modifier & !flag.bit();
        }
    }

    /// Puts usage `u` into the first empty slot, unless it is held already or
    /// every slot is taken.
    pub fn press_usage(&mut self, u: u8)
        ensures
            final(self).keys@ == slots_after_press(old(self).keys@, u),
            final(self).modifier == old(self).modifier,
            old(self).wf() ==> final(self).wf(),
    {
        let ghost s = self.keys@;
        if contains_usage(&self.keys, u) {
            return;
        }
        let mut i: usize = 0;
        while i < 6
            invariant
                0 <= i <= 6,
                self.keys@ == s,
                s == old(self).keys@,
                self.modifier == old(self).modifier,
                !s.contains(u),
                forall|j: int| 0 <= j < i ==> s[j] != 0,
            decreases 6 - i,
        {
            if self.keys[i] == 0 {
                proof {
                    lemma_first_is_unique(s, 0, i as int);
                }
                self.keys[i] = u;
                proof {
                    if old(self).wf() {
                        lemma_fill_keeps_distinct(s, i as int, u);
                    }
                }
                return;
            }
            i += 1;
        }
        assert(!s.contains(0));
    }

    /// Empties the slot of usage `u`, if one holds it, and sorts the slots
    /// largest usage first.
    pub fn release_usage(&mut self, u: u8)
        ensures
            final(self).keys@ == slots_after_release(old(self).keys@, u),
            final(self).modifier == old(self).modifier,
            old(self).wf() ==> final(self).wf(),
    {
        let ghost s = self.keys@;
        let mut i: usize = 0;
        while i < 6
            invariant
                0 <= i <= 6,
                self.keys@ == s,
                s == old(self).keys@,
                self.modifier == old(self).modifier,
                forall|j: int| 0 <= j < i ==> s[j] != u,
            decreases 6 - i,
        {
            if self.keys[i] == u {
                proof {
                    lemma_first_is_unique(s, u, i as int);
                }
                self.keys[i] = 0;
                proof {
                    if old(self).wf() {
                        lemma_clear_keeps_distinct(s, i as int);
                    }
                }
                let ghost cleared = self.keys@;
                sort_descending(&mut self.keys);
                proof {
                    if old(self).wf() {
                        lemma_distinct_same_multiset(cleared, self.keys@);
                    }
                }
                return;
            }
            i += 1;
        }
    }

    /// The key `code` goes down: a modifier sets its bit, another key with a
    /// usage takes a slot as `press_usage` says, any other key is ignored.
    pub fn press_key(&mut self, code: u16)
        ensures
            final(self).modifier == modifiers_after(old(self).modifier, code, true),
            final(self).keys@ == slots_after(old(self).keys@, code, true),
            old(self).wf() ==> final(self).wf(),
    {
        if let Some(flag) = UsbHidModifier::from_key(code) {
            self.set_modifier(flag, true);
        } else if let Some(u) = key_to_hid_usage_id(code) {
            self.press_usage(u);
        }
    }

    /// The key `code` goes up: a modifier clears its bit, another key with a
    /// usage leaves its slot as `release_usage` says, any other key is ignored.
    pub fn release_key(&mut self, code: u16)
        ensures
            final(self).modifier == modifiers_after(old(self).modifier, code, false),
            final(self).keys@ == slots_after(old(self).keys@, code, false),
            old(self).wf() ==> final(self).wf(),
    {
        if let Some(flag) = UsbHidModifier::from_key(code) {
            self.set_modifier(flag, false);
        } else if let Some(u) = key_to_hid_usage_id(code) {
            self.release_usage(u);
        }
    }

    /// The report that describes the held keys.
    pub open spec fn as_report(self) -> Report {
        WhyNoDeriveDeserializeManSadFaceHere { modifier: self.modifier, keys: self.keys }
    }

    /// The report that describes the held keys.
    pub fn report(&self) -> (r: Report)
        ensures
            r == self.as_report(),
    {
        WhyNoDeriveDeserializeManSadFaceHere { modifier: self.modifier, keys: self.keys }
    }
}

impl From<KeySet> for WhyNoDeriveDeserializeManSadFaceHere {
    fn from(value: KeySet) -> (r: Self) {
        value.report()
    }
}

impl vstd::std_specs::convert::FromSpecImpl<KeySet> for WhyNoDeriveDeserializeManSadFaceHere {
    open spec fn obeys_from_spec() -> bool {
        true
    }

    open spec fn from_spec(value: KeySet) -> Self {
        value.as_report()
    }
}

/// Whether one of the slots holds `u`.
fn contains_usage(keys: &[u8; 6], u: u8) -> (r: bool)
    ensures
        r == keys@.contains(u),
{
    let mut i: usize = 0;
    while i < 6
        invariant
            0 <= i <= 6,
            forall|j: int| 0 <= j < i ==> keys@[j] != u,
        decreases 6 - i,
    {
        if keys[i] == u {
            return true;
        }
        i += 1;
    }
    false
}

/// Sorts six slots in place, largest first (selection sort).
pub fn sort_descending(a: &mut [u8; 6])
    ensures
        final(a)@ == old(a)@.sort_by(descending()),
{
    let ghost orig = a@;
    let mut i: usize = 0;
    while i < 6
        invariant
            0 <= i <= 6,
            a@.len() == 6,
            a@.to_multiset() == orig.to_multiset(),
            forall|p: int, q: int| 0 <= p < q < i ==> a@[p] >= a@[q],
            forall|p: int, q: int| 0 <= p < i <= q < 6 ==> a@[p] >= a@[q],
        decreases 6 - i,
    {
        let mut m: usize = i;
        let mut k: usize = i + 1;
        while k < 6
            invariant
                i < 6,
                i <= m < 6,
                i < k <= 6,
                a@.len() == 6,
                forall|q: int| i <= q < k ==> a@[m as int] >= a@[q],
            decreases 6 - k,
        {
            if a[k] > a[m] {
                m = k;
            }
            k += 1;
        }
        let ghost before = a@;
        let x = a[i];
        let y = a[m];
        a[i] = y;
        a[m] = x;
        proof {
            lemma_swap_multiset(before, i as int, m as int);
            assert(a@ == before.update(i as int, before[m as int]).update(m as int, before[i as int]));
        }
        i += 1;
    }
    proof {
        let s = orig.sort_by(descending());
        lemma_descending_total();
        orig.lemma_sort_by_ensures(descending());
        assert(sorted_by(a@, descending()));
        vstd::seq_lib::lemma_sorted_unique(a@, s, descending());
    }
}

/// The descending order on bytes is a total order.
pub proof fn lemma_descending_total()
    ensures
        total_ordering(descending()),
{
    reveal(vstd::relations::total_ordering);
}

/// Swapping two positions keeps the multiset of a sequence.
proof fn lemma_swap_multiset(s: Seq<u8>, i: int, j: int)
    requires
        0 <= i < s.len(),
        0 <= j < s.len(),
    ensures
        s.update(i, s[j]).update(j, s[i]).to_multiset() == s.to_multiset(),
{
    broadcast use vstd::seq_lib::to_multiset_update;
    broadcast use vstd::multiset::group_multiset_axioms;

    let t = s.update(i, s[j]);
    assert(t.to_multiset() == s.to_multiset().insert(s[j]).remove(s[i]));
    assert(t.update(j, s[i]).to_multiset() == t.to_multiset().insert(s[i]).remove(t[j]));
    if i == j {
        assert(t.update(j, s[i]) =~= s);
    } else {
        assert(t[j] == s[j]);
        assert(t.update(j, s[i]).to_multiset() =~= s.to_multiset());
    }
}

/// Two first positions of the same value are the same position.
pub proof fn lemma_first_is_unique(s: Seq<u8>, v: u8, i: int)
    requires
        is_first(s, v, i),
    ensures
        first_index(s, v) == i,
{
    let k = first_index(s, v);
    assert(is_first(s, v, k));
    if k < i {
        assert(s[k] != v);
    } else if i < k {
        assert(s[i] != v);
    }
}

/// Six empty slots hold no usage twice.
proof fn lemma_empty_slots_distinct()
    ensures
        distinct_usages(empty_slots()),
{
    assert forall|v: u8| v != 0 implies #[trigger] empty_slots().to_multiset().count(v) <= 1 by {
        assert(!empty_slots().contains(v));
    }
}

/// Writing a usage that is not held into an empty slot keeps usages distinct.
proof fn lemma_fill_keeps_distinct(s: Seq<u8>, i: int, u: u8)
    requires
        distinct_usages(s),
        0 <= i < s.len(),
        s[i] == 0,
        !s.contains(u),
    ensures
        distinct_usages(s.update(i, u)),
{
    broadcast use vstd::seq_lib::to_multiset_update;
    broadcast use vstd::multiset::group_multiset_axioms;

    assert(s.to_multiset().count(u) == 0);
    assert forall|v: u8| v != 0 implies #[trigger] s.update(i, u).to_multiset().count(v) <= 1 by {
        assert(s.update(i, u).to_multiset() == s.to_multiset().insert(u).remove(0));
    }
}

/// Emptying a slot keeps usages distinct.
proof fn lemma_clear_keeps_distinct(s: Seq<u8>, i: int)
    requires
        distinct_usages(s),
        0 <= i < s.len(),
    ensures
        distinct_usages(s.update(i, 0)),
{
    broadcast use vstd::seq_lib::to_multiset_update;
    broadcast use vstd::multiset::group_multiset_axioms;

    assert forall|v: u8| v != 0 implies #[trigger] s.update(i, 0).to_multiset().count(v) <= 1 by {
        assert(s.update(i, 0).to_multiset() == s.to_multiset().insert(0).remove(s[i]));
    }
}

/// Reordering slots keeps usages distinct.
proof fn lemma_distinct_same_multiset(s: Seq<u8>, t: Seq<u8>)
    requires
        distinct_usages(s),
        t == s.sort_by(descending()),
    ensures
        distinct_usages(t),
{
    lemma_descending_total();
    s.lemma_sort_by_ensures(descending());
    assert forall|v: u8| v != 0 implies #[trigger] t.to_multiset().count(v) <= 1 by {
        assert(t.to_multiset().count(v) == s.to_multiset().count(v));
    }
}

/// Whether `s` holds `v` somewhere, then it has a first position of it.
pub proof fn lemma_first_exists(s: Seq<u8>, v: u8)
    requires
        s.contains(v),
    ensures
        is_first(s, v, first_index(s, v)),
    decreases s.len(),
{
    if s[0] == v {
        assert(is_first(s, v, 0));
    } else {
        let t = s.drop_first();
        let k = choose|k: int| 0 <= k < s.len() && s[k] == v;
        assert(t[k - 1] == v);
        lemma_first_exists(t, v);
        let j = first_index(t, v);
        assert forall|m: int| 0 <= m < j + 1 implies s[m] != v by {
            if m > 0 {
                assert(s[m] == t[m - 1]);
            }
        }
        assert(is_first(s, v, j + 1));
    }
}

/// Pressing a key that is already held changes neither the modifier byte nor
/// the slots.
pub proof fn lemma_press_held_key_is_noop(bits: u8, s: Seq<u8>, code: u16)
    requires
        key_is_held(bits, s, code),
    ensures
        modifiers_after(bits, code, true) == bits,
        slots_after(s, code, true) == s,
{
    if let Some(flag) = modifier_for_key(code) {
        let j = flag.index();
        assert(j < 8);
        assert((bits & (1u8 << j)) != 0 ==> (bits | (1u8 << j)) == bits) by (bit_vector)
            requires
                j < 8,
        ;
    }
}

/// Pressing a key twice leaves the same state as pressing it once.
pub proof fn lemma_press_twice_is_press_once(bits: u8, s: Seq<u8>, code: u16)
    ensures
        modifiers_after(modifiers_after(bits, code, true), code, true) == modifiers_after(
            bits,
            code,
            true,
        ),
        slots_after(slots_after(s, code, true), code, true) == slots_after(s, code, true),
{
    let b1 = modifiers_after(bits, code, true);
    let s1 = slots_after(s, code, true);
    if let Some(flag) = modifier_for_key(code) {
        let j = flag.index();
        assert(j < 8);
        assert((bits | (1u8 << j)) & (1u8 << j) != 0) by (bit_vector)
            requires
                j < 8,
        ;
        lemma_press_held_key_is_noop(b1, s1, code);
    } else if let Some(u) = usage_for_key(code) {
        if !s.contains(u) && s.contains(0) {
            lemma_first_exists(s, 0);
            let i = first_index(s, 0);
            assert(s1[i] == u);
            lemma_press_held_key_is_noop(b1, s1, code);
        }
    }
}

/// The modifier byte after the key events `events` (each a key code, and
/// whether it went down), starting from `bits`.
pub open spec fn modifiers_after_events(bits: u8, events: Seq<(u16, bool)>) -> u8
    decreases events.len(),
{
    if events.len() == 0 {
        bits
    } else {
        let e = events.last();
        modifiers_after(modifiers_after_events(bits, events.drop_last()), e.0, e.1)
    }
}

/// Whether `flag` is held after `events`: the last event on its key went down.
pub open spec fn modifier_held(events: Seq<(u16, bool)>, flag: UsbHidModifier) -> bool
    decreases events.len(),
{
    if events.len() == 0 {
        false
    } else if modifier_for_key(events.last().0) == Some(flag) {
        events.last().1
    } else {
        modifier_held(events.drop_last(), flag)
    }
}

/// The bitwise OR of the bits of the modifiers held after `events`.
pub open spec fn held_modifier_mask(events: Seq<(u16, bool)>) -> u8 {
    mask_if(modifier_held(events, UsbHidModifier::LeftControl), 1) | mask_if(
        modifier_held(events, UsbHidModifier::LeftShift),
        2,
    ) | mask_if(modifier_held(events, UsbHidModifier::LeftAlt), 4) | mask_if(
        modifier_held(events, UsbHidModifier::LeftMeta),
        8,
    ) | mask_if(modifier_held(events, UsbHidModifier::RightControl), 16) | mask_if(
        modifier_held(events, UsbHidModifier::RightShift),
        32,
    ) | mask_if(modifier_held(events, UsbHidModifier::RightAlt), 64) | mask_if(
        modifier_held(events, UsbHidModifier::RightMeta),
        128,
    )
}

/// After any sequence of key events from an empty key set, each modifier's
/// bit is set exactly when that modifier is held.
pub proof fn lemma_modifier_bits_follow_held(events: Seq<(u16, bool)>, flag: UsbHidModifier)
    ensures
        (modifiers_after_events(0, events) & flag.mask() != 0) == modifier_held(events, flag),
    decreases events.len(),
{
    if events.len() == 0 {
        let j = flag.index();
        assert(j < 8);
        assert(0u8 & (1u8 << j) == 0) by (bit_vector);
    } else {
        let e = events.last();
        let prev = modifiers_after_events(0, events.drop_last());
        lemma_modifier_bits_follow_held(events.drop_last(), flag);
        if let Some(g) = modifier_for_key(e.0) {
            lemma_with_modifier_bits(prev, g, e.1, flag);
        }
    }
}

/// The modifier byte after any sequence of press and release events, starting
/// from no key held, is the bitwise OR of the bits of the modifiers that are
/// held at the end, whatever the order of the events.
pub proof fn lemma_modifier_byte_is_held_mask(events: Seq<(u16, bool)>)
    ensures
        modifiers_after_events(0, events) == held_modifier_mask(events),
{
    let b = modifiers_after_events(0, events);
    lemma_byte_from_bits(b);
    lemma_mask_values();
    lemma_modifier_bits_follow_held(events, UsbHidModifier::LeftControl);
    lemma_modifier_bits_follow_held(events, UsbHidModifier::LeftShift);
    lemma_modifier_bits_follow_held(events, UsbHidModifier::LeftAlt);
    lemma_modifier_bits_follow_held(events, UsbHidModifier::LeftMeta);
    lemma_modifier_bits_follow_held(events, UsbHidModifier::RightControl);
    lemma_modifier_bits_follow_held(events, UsbHidModifier::RightShift);
    lemma_modifier_bits_follow_held(events, UsbHidModifier::RightAlt);
    lemma_modifier_bits_follow_held(events, UsbHidModifier::RightMeta);
}

} // verus!
