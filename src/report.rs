use vstd::prelude::*;

verus! {

/// One snapshot of the keyboard as it travels between host and device: the
/// modifier byte and six usage slots, where a usage of 0 marks an empty slot.
#[derive(Clone, Copy, Debug, Eq)]
pub struct WhyNoDeriveDeserializeManSadFaceHere {
    pub modifier: u8,
    pub keys: [u8; 6],
}

impl PartialEq for WhyNoDeriveDeserializeManSadFaceHere {
    fn eq(&self, other: &Self) -> (r: bool) {
        let r = self.modifier == other.modifier && self.keys[0] == other.keys[0] && self.keys[1]
            == other.keys[1] && self.keys[2] == other.keys[2] && self.keys[3] == other.keys[3]
            && self.keys[4] == other.keys[4] && self.keys[5] == other.keys[5];
        proof {
            if r {
                assert(self.keys@ =~= other.keys@);
            }
        }
        r
    }
}

impl vstd::std_specs::cmp::PartialEqSpecImpl for WhyNoDeriveDeserializeManSadFaceHere {
    open spec fn obeys_eq_spec() -> bool {
        true
    }

    open spec fn eq_spec(&self, other: &Self) -> bool {
        self.modifier == other.modifier && self.keys@ == other.keys@
    }
}

/// The report type under a shorter name.
pub type Report = WhyNoDeriveDeserializeManSadFaceHere;

/// Whether no non-zero usage occurs twice among the slots `s`.
pub open spec fn distinct_usages(s: Seq<u8>) -> bool {
    forall|v: u8| v != 0 ==> #[trigger] s.to_multiset().count(v) <= 1
}

/// Six empty usage slots.
pub open spec fn empty_slots() -> Seq<u8> {
    seq![0u8, 0u8, 0u8, 0u8, 0u8, 0u8]
}

impl WhyNoDeriveDeserializeManSadFaceHere {
    /// The seven bytes that stand for the report on the wire: the modifier
    /// byte, then the six slots in order.
    pub open spec fn wire_bytes(self) -> Seq<u8> {
        seq![self.modifier] + self.keys@
    }

    /// Whether the report keeps the report invariant: no non-zero usage
    /// occurs in two slots.
    pub open spec fn is_valid(self) -> bool {
        distinct_usages(self.keys@)
    }

    /// The neutral report: no modifier and no key held.
    pub fn idle() -> (r: Self)
        ensures
            r.modifier == 0,
            r.keys@ == empty_slots(),
    {
        let r = WhyNoDeriveDeserializeManSadFaceHere { modifier: 0, keys: [0u8; 6] };
        assert(r.keys@ =~= empty_slots());
        r
    }

    /// A report that holds one key with the given modifier byte.
    pub fn single(modifier: u8, usage: u8) -> (r: Self)
        ensures
            r.modifier == modifier,
            r.keys@ == seq![usage, 0u8, 0u8, 0u8, 0u8, 0u8],
    {
        let r = WhyNoDeriveDeserializeManSadFaceHere {
            modifier,
            keys: [usage, 0u8, 0u8, 0u8, 0u8, 0u8],
        };
        assert(r.keys@ =~= seq![usage, 0u8, 0u8, 0u8, 0u8, 0u8]);
        r
    }

    /// The seven wire bytes of the report.
    pub fn to_wire_bytes(&self) -> (r: [u8; 7])
        ensures
            r@ == self.wire_bytes(),
    {
        let k = self.keys;
        let r = [self.modifier, k[0], k[1], k[2], k[3], k[4], k[5]];
        assert(r@ =~= self.wire_bytes());
        r
    }

    /// The report whose wire bytes are `b`.
    pub fn from_wire_bytes(b: [u8; 7]) -> (r: Self)
        ensures
            r.wire_bytes() == b@,
    {
        let r = WhyNoDeriveDeserializeManSadFaceHere {
            modifier: b[0],
            keys: [b[1], b[2], b[3], b[4], b[5], b[6]],
        };
        assert(r.wire_bytes() =~= b@);
        r
    }
}

/// Two reports with the same wire bytes are the same report.
pub proof fn lemma_wire_bytes_injective(x: Report, y: Report)
    requires
        x.wire_bytes() == y.wire_bytes(),
    ensures
        x == y,
{
    assert(x.modifier == x.wire_bytes()[0]);
    assert forall|i: int| 0 <= i < 6 implies x.keys[i] == y.keys[i] by {
        assert(x.keys@[i] == x.wire_bytes()[i + 1]);
        assert(y.keys@[i] == y.wire_bytes()[i + 1]);
    }
    assert(x.keys =~= y.keys);
}

} // verus!
