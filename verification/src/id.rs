//! Twelve-byte identifiers.

use vstd::prelude::*;
use vstd::std_specs::cmp::PartialEqSpecImpl;

verus! {

/// A 12-byte identifier. Its bytes, read as one big-endian number, give its
/// sort order, and identifiers from the generator sort roughly by time.
#[derive(Clone, Copy, Debug, Eq, Hash)]
pub struct Id(pub [u8; 12]);

pub const ZERO_BYTES: [u8; 12] = [0, 0, 0, 0, 0, 0, 0, 0, 0, 0, 0, 0];

pub const MAX_BYTES: [u8; 12] = [255, 255, 255, 255, 255, 255, 255, 255, 255, 255, 255, 255];

pub const MIN_BYTES: [u8; 12] = [0, 0, 0, 0, 255, 255, 255, 255, 255, 255, 255, 255];

/// The identifier of the system wallet: twelve zero bytes.
pub open spec fn spec_sys_id() -> Id {
    Id(ZERO_BYTES)
}

/// The greatest identifier; it seeds a scan that has no upper bound.
pub open spec fn spec_max_id() -> Id {
    Id(MAX_BYTES)
}

/// Four zero bytes followed by eight bytes of 255.
pub open spec fn spec_min_id() -> Id {
    Id(MIN_BYTES)
}

#[verifier::when_used_as_spec(spec_sys_id)]
pub fn sys_id() -> (r: Id)
    ensures
        r == spec_sys_id(),
{
    Id(ZERO_BYTES)
}

#[verifier::when_used_as_spec(spec_max_id)]
pub fn max_id() -> (r: Id)
    ensures
        r == spec_max_id(),
{
    Id(MAX_BYTES)
}

#[verifier::when_used_as_spec(spec_min_id)]
pub fn min_id() -> (r: Id)
    ensures
        r == spec_min_id(),
{
    Id(MIN_BYTES)
}

/// 256 to the power of `n`.
pub open spec fn pow256(n: nat) -> int
    decreases n,
{
    if n == 0 {
        1
    } else {
        256 * pow256((n - 1) as nat)
    }
}

/// The number that the first `n` bytes spell, most significant first.
pub open spec fn value_upto(b: Seq<u8>, n: int) -> int
    decreases n,
{
    if n <= 0 {
        0
    } else {
        value_upto(b, n - 1) * 256 + b[n - 1]
    }
}

impl PartialEq for Id {
    fn eq(&self, other: &Id) -> (r: bool) {
        let mut i: usize = 0;
        while i < 12
            invariant
                i <= 12,
                forall|j: int| 0 <= j < i ==> self.0[j] == other.0[j],
            decreases 12 - i,
        {
            if self.0[i] != other.0[i] {
                return false;
            }
            i += 1;
        }
        assert(self.0 =~= other.0);
        true
    }
}

impl PartialEqSpecImpl for Id {
    open spec fn obeys_eq_spec() -> bool {
        true
    }

    open spec fn eq_spec(&self, other: &Id) -> bool {
        *self == *other
    }
}

impl Default for Id {
    fn default() -> (r: Id)
        ensures
            r == sys_id(),
    {
        sys_id()
    }
}

/// `xid::new`: the next identifier of the process-wide generator, built from
/// the clock, the machine, the process and a counter. Nothing is claimed of
/// its bytes. The generator stops the process if the clock reads a time
/// before 1970.
#[verifier::external_body]
fn xid_new() -> Id {
    Id(xid::new().0)
}

impl Id {
    /// The twelve bytes, most significant first.
    pub open spec fn bytes(self) -> Seq<u8> {
        self.0@
    }

    pub open spec fn spec_is_zero(&self) -> bool {
        *self == sys_id()
    }

    /// Whether every byte is zero, which marks the system wallet.
    #[verifier::when_used_as_spec(spec_is_zero)]
    pub fn is_zero(&self) -> (r: bool)
        ensures
            r == (*self == sys_id()),
            r == (forall|i: int| 0 <= i < 12 ==> self.0[i] == 0),
    {
        let z: Id = sys_id();
        assert(forall|i: int| 0 <= i < 12 ==> z.0[i] == 0);
        assert((forall|i: int| 0 <= i < 12 ==> self.0[i] == 0) ==> self.0 =~= z.0);
        *self == z
    }

    /// The identifier as one number, its bytes read most significant
    /// first. Identifiers sort by this number.
    pub open spec fn spec_value(&self) -> int {
        value_upto(self.0@, 12)
    }

    pub fn value(&self) -> (r: u128)
        ensures
            r == self.spec_value(),
    {
        let mut v: u128 = 0;
        let mut i: usize = 0;
        assert(pow256(12) == 0x1_0000_0000_0000_0000_0000_0000) by {
            reveal_with_fuel(pow256, 13);
        }
        while i < 12
            invariant
                i <= 12,
                v == value_upto(self.0@, i as int),
                0 <= v < pow256(i as nat),
                pow256(12) == 0x1_0000_0000_0000_0000_0000_0000,
            decreases 12 - i,
        {
            assert(pow256(i as nat) <= pow256(11)) by {
                Self::lemma_pow_grows(i as nat, 11);
            }
            assert(pow256(12) == 256 * pow256(11));
            v = v * 256 + self.0[i] as u128;
            i += 1;
        }
        v
    }

    proof fn lemma_pow_grows(a: nat, b: nat)
        requires
            a <= b,
        ensures
            0 < pow256(a) <= pow256(b),
        decreases b,
    {
        if a < b {
            Self::lemma_pow_grows(a, (b - 1) as nat);
        } else if a > 0 {
            Self::lemma_pow_grows((a - 1) as nat, (b - 1) as nat);
        }
    }

    /// Whether this identifier sorts before the other.
    pub fn lt(&self, other: &Id) -> (r: bool)
        ensures
            r == (self.spec_value() < other.spec_value()),
    {
        self.value() < other.value()
    }

    /// A fresh identifier from the generator. Two calls may give any two
    /// identifiers, so callers take the result as it comes.
    pub fn new() -> Id {
        xid_new()
    }

    /// A copy of the twelve bytes.
    pub fn to_vec(&self) -> (r: Vec<u8>)
        ensures
            r@ == self.bytes(),
    {
        let mut v: Vec<u8> = Vec::new();
        let mut i: usize = 0;
        while i < 12
            invariant
                i <= 12,
                v@ == self.0@.subrange(0, i as int),
            decreases 12 - i,
        {
            v.push(self.0[i]);
            assert(v@ =~= self.0@.subrange(0, i + 1));
            i += 1;
        }
        assert(self.0@.subrange(0, 12) =~= self.0@);
        v
    }

    /// The identifier with the given bytes, if there are twelve of them.
    pub fn from_bytes(bytes: &[u8]) -> (r: Option<Id>)
        ensures
            r is Some <==> bytes@.len() == 12,
            r is Some ==> r->0.bytes() == bytes@,
    {
        if bytes.len() != 12 {
            return None;
        }
        let mut raw: [u8; 12] = ZERO_BYTES;
        let mut i: usize = 0;
        while i < 12
            invariant
                i <= 12,
                bytes@.len() == 12,
                forall|j: int| 0 <= j < i ==> raw[j] == bytes@[j],
            decreases 12 - i,
        {
            raw[i] = bytes[i];
            i += 1;
        }
        assert(raw@ =~= bytes@);
        Some(Id(raw))
    }
}

} // verus!
