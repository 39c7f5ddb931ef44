use vstd::prelude::*;

use core::cmp::Ordering;

use crate::common::codec::DecodeError;
use crate::common::codec::Endianness;
use vstd::std_specs::cmp::PartialOrdSpec;

verus! {

/// Identity key of a data-object whose changes in value the protocol
/// communicates: sixteen opaque bytes produced by an external key-hashing
/// collaborator. This layer only stores, compares and serializes them; it
/// never decodes any meaning out of the bytes.
#[derive(Clone, Copy, Debug, Eq, Ord)]
pub struct InstanceHandle_t {
    pub entity_key: [u8; 16],
}

impl PartialEq for InstanceHandle_t {
    /// Exact byte-wise equality over the sixteen key bytes.
    fn eq(&self, other: &Self) -> (r: bool) {
        let a = &self.entity_key;
        let b = &other.entity_key;
        let mut i: usize = 0;
        while i < 16
            invariant
                0 <= i <= 16,
                a@ == self.entity_key@,
                b@ == other.entity_key@,
                forall|j: int| 0 <= j < i ==> a@[j] == b@[j],
            decreases 16 - i,
        {
            if a[i] != b[i] {
                return false;
            }
            i = i + 1;
        }
        proof {
            assert(a@ =~= b@);
        }
        true
    }
}

impl vstd::std_specs::cmp::PartialEqSpecImpl for InstanceHandle_t {
    open spec fn obeys_eq_spec() -> bool {
        true
    }

    open spec fn eq_spec(&self, other: &Self) -> bool {
        self.entity_key@ == other.entity_key@
    }
}

/// The all-zero key of the default handle: the "no instance" sentinel.
pub open spec fn default_entity_key() -> Seq<u8> {
    Seq::new(16, |i: int| 0u8)
}

/// Bytewise lexicographic comparison: the first differing byte decides, and
/// when one sequence runs out first it orders below the longer one.
pub open spec fn lex_cmp(a: Seq<u8>, b: Seq<u8>) -> Ordering
    decreases a.len(),
{
    if a.len() == 0 && b.len() == 0 {
        Ordering::Equal
    } else if a.len() == 0 {
        Ordering::Less
    } else if b.len() == 0 {
        Ordering::Greater
    } else if a[0] < b[0] {
        Ordering::Less
    } else if a[0] > b[0] {
        Ordering::Greater
    } else {
        lex_cmp(a.skip(1), b.skip(1))
    }
}

/// "Lexicographically less", spelled out for equal-length sequences: the two
/// agree up to some position at which `a` holds the smaller byte.
pub open spec fn lex_less(a: Seq<u8>, b: Seq<u8>) -> bool {
    exists|k: int|
        0 <= k < a.len() && k < b.len() && (forall|j: int| 0 <= j < k ==> a[j] == b[j]) && a[k]
            < b[k]
}

impl Default for InstanceHandle_t {
    /// Sixteen zero bytes: the "no instance" / unkeyed sentinel.
    fn default() -> (r: InstanceHandle_t)
        ensures
            r.entity_key@ == default_entity_key(),
    {
        let r = InstanceHandle_t { entity_key: [0u8; 16] };
        proof {
            assert(r.entity_key@ =~= default_entity_key());
        }
        r
    }
}

impl InstanceHandle_t {
    /// Emits the sixteen key bytes verbatim, in array order. The byte-order
    /// selection is accepted for interface uniformity and cannot influence
    /// the result, as the postcondition does not mention it.
    pub fn encode(&self, _endianness: Endianness) -> (r: Vec<u8>)
        ensures
            r@ == self.entity_key@,
            r@.len() == 16,
    {
        let mut out: Vec<u8> = Vec::new();
        proof {
            assert(out@ =~= self.entity_key@.subrange(0, 0));
        }
        for i in 0..16
            invariant
                out@ == self.entity_key@.subrange(0, i as int),
        {
            out.push(self.entity_key[i]);
            proof {
                assert(out@ =~= self.entity_key@.subrange(0, i + 1));
            }
        }
        proof {
            assert(self.entity_key@.subrange(0, 16) =~= self.entity_key@);
        }
        out
    }

    /// Reads sixteen raw bytes back into a handle. Fails with
    /// `TruncatedInput` exactly when fewer than sixteen bytes are available.
    /// The byte-order selection is accepted for interface uniformity and
    /// cannot influence the result.
    pub fn decode(bytes: &[u8], _endianness: Endianness) -> (r: Result<
        InstanceHandle_t,
        DecodeError,
    >)
        ensures
            bytes@.len() >= 16 ==> (r matches Ok(h) && h.entity_key@ == bytes@.subrange(0, 16)),
            bytes@.len() < 16 ==> r == Err::<InstanceHandle_t, DecodeError>(
                DecodeError::TruncatedInput,
            ),
    {
        if bytes.len() < 16 {
            return Err(DecodeError::TruncatedInput);
        }
        let mut key = [0u8; 16];
        for i in 0..16
            invariant
                bytes@.len() >= 16,
                forall|j: int| 0 <= j < i ==> key@[j] == bytes@[j],
        {
            key[i] = bytes[i];
        }
        let h = InstanceHandle_t { entity_key: key };
        proof {
            assert(h.entity_key@ =~= bytes@.subrange(0, 16));
        }
        Ok(h)
    }
}

impl PartialOrd for InstanceHandle_t {
    /// Total byte-wise comparison over the sixteen key bytes, with no
    /// higher-level semantics: exactly `lex_cmp` of the two keys.
    fn partial_cmp(&self, other: &Self) -> (r: Option<Ordering>) {
        let a = &self.entity_key;
        let b = &other.entity_key;
        proof {
            assert(a@.skip(0) =~= a@);
            assert(b@.skip(0) =~= b@);
        }
        let mut i: usize = 0;
        while i < 16
            invariant
                0 <= i <= 16,
                a@ == self.entity_key@,
                b@ == other.entity_key@,
                lex_cmp(a@, b@) == lex_cmp(a@.skip(i as int), b@.skip(i as int)),
            decreases 16 - i,
        {
            let x = a[i];
            let y = b[i];
            proof {
                assert(a@.skip(i as int).len() == 16 - i);
                assert(b@.skip(i as int).len() == 16 - i);
                assert(a@.skip(i as int)[0] == a@[i as int]);
                assert(b@.skip(i as int)[0] == b@[i as int]);
            }
            if x < y {
                proof {
                    assert(lex_cmp(a@.skip(i as int), b@.skip(i as int)) == Ordering::Less);
                }
                return Some(Ordering::Less);
            }
            if x > y {
                proof {
                    assert(lex_cmp(a@.skip(i as int), b@.skip(i as int)) == Ordering::Greater);
                }
                return Some(Ordering::Greater);
            }
            proof {
                assert(a@.skip(i as int).skip(1) =~= a@.skip(i as int + 1));
                assert(b@.skip(i as int).skip(1) =~= b@.skip(i as int + 1));
            }
            i = i + 1;
        }
        proof {
            assert(a@.skip(16) =~= Seq::<u8>::empty());
            assert(b@.skip(16) =~= Seq::<u8>::empty());
        }
        Some(Ordering::Equal)
    }
}

impl vstd::std_specs::cmp::PartialOrdSpecImpl for InstanceHandle_t {
    open spec fn obeys_partial_cmp_spec() -> bool {
        true
    }

    open spec fn partial_cmp_spec(&self, other: &Self) -> Option<Ordering> {
        Some(lex_cmp(self.entity_key@, other.entity_key@))
    }
}

/// For equal-length byte sequences, `lex_cmp` answers `Less` exactly on the
/// pairs that `lex_less` describes.
pub proof fn lemma_lex_cmp_less_iff(a: Seq<u8>, b: Seq<u8>)
    requires
        a.len() == b.len(),
    ensures
        lex_cmp(a, b) == Ordering::Less <==> lex_less(a, b),
    decreases a.len(),
{
    if a.len() == 0 {
        assert(!lex_less(a, b));
    } else if a[0] < b[0] {
        assert(lex_less(a, b)) by {
            assert(0 <= 0 < a.len() && 0 < b.len() && (forall|j: int| 0 <= j < 0 ==> a[j] == b[j])
                && a[0] < b[0]);
        }
    } else if a[0] > b[0] {
        assert(!lex_less(a, b)) by {
            if lex_less(a, b) {
                let k = choose|k: int|
                    0 <= k < a.len() && k < b.len() && (forall|j: int|
                        0 <= j < k ==> a[j] == b[j]) && a[k] < b[k];
                if k == 0 {
                    assert(a[0] < b[0]);
                } else {
                    assert(a[0] == b[0]);
                }
            }
        }
    } else {
        let a1 = a.skip(1);
        let b1 = b.skip(1);
        lemma_lex_cmp_less_iff(a1, b1);
        if lex_less(a1, b1) {
            let k = choose|k: int|
                0 <= k < a1.len() && k < b1.len() && (forall|j: int| 0 <= j < k ==> a1[j] == b1[j])
                    && a1[k] < b1[k];
            assert(lex_less(a, b)) by {
                assert(forall|j: int| 0 <= j < k + 1 ==> a[j] == b[j]) by {
                    assert(forall|j: int| 1 <= j < k + 1 ==> a[j] == a1[j - 1] && b[j] == b1[j
                        - 1]);
                }
                assert(a[k + 1] == a1[k] && b[k + 1] == b1[k]);
                assert(0 <= k + 1 < a.len() && k + 1 < b.len() && a[k + 1] < b[k + 1]);
            }
        }
        if lex_less(a, b) {
            let k = choose|k: int|
                0 <= k < a.len() && k < b.len() && (forall|j: int| 0 <= j < k ==> a[j] == b[j])
                    && a[k] < b[k];
            assert(k >= 1);
            assert(lex_less(a1, b1)) by {
                assert(forall|j: int| 0 <= j < k - 1 ==> a1[j] == a[j + 1] && b1[j] == b[j + 1]);
                assert(a1[k - 1] == a[k] && b1[k - 1] == b[k]);
                assert(0 <= k - 1 < a1.len() && k - 1 < b1.len() && a1[k - 1] < b1[k - 1]);
            }
        }
    }
}

/// For equal-length byte sequences, `lex_cmp` answers `Equal` exactly on
/// equal sequences.
pub proof fn lemma_lex_cmp_equal_iff(a: Seq<u8>, b: Seq<u8>)
    requires
        a.len() == b.len(),
    ensures
        lex_cmp(a, b) == Ordering::Equal <==> a == b,
    decreases a.len(),
{
    if a.len() == 0 {
        assert(a =~= b);
    } else if a[0] == b[0] {
        lemma_lex_cmp_equal_iff(a.skip(1), b.skip(1));
        if lex_cmp(a, b) == Ordering::Equal {
            assert(a =~= b) by {
                assert(forall|i: int|
                    1 <= i < a.len() ==> a[i] == a.skip(1)[i - 1] && b[i] == b.skip(1)[i - 1]);
            }
        }
        if a == b {
            assert(a.skip(1) == b.skip(1));
        }
    } else {
        assert(a != b);
    }
}

/// Swapping the operands of `lex_cmp` swaps `Less` and `Greater`.
pub proof fn lemma_lex_cmp_flip(a: Seq<u8>, b: Seq<u8>)
    requires
        a.len() == b.len(),
    ensures
        lex_cmp(a, b) == Ordering::Greater <==> lex_cmp(b, a) == Ordering::Less,
    decreases a.len(),
{
    if a.len() == 0 {
    } else if a[0] != b[0] {
    } else {
        lemma_lex_cmp_flip(a.skip(1), b.skip(1));
    }
}

/// The comparison on handles is the total bytewise lexicographic order over
/// the sixteen-byte keys, with no higher-level semantics: a handle orders
/// below another exactly when its key is lexicographically less, orders above
/// it exactly in the mirrored case, and compares equal exactly on equal keys.
pub proof fn lemma_handle_order_lexicographic(a: InstanceHandle_t, b: InstanceHandle_t)
    ensures
        a.partial_cmp_spec(&b) == Some(Ordering::Less) <==> lex_less(
            a.entity_key@,
            b.entity_key@,
        ),
        a.partial_cmp_spec(&b) == Some(Ordering::Greater) <==> lex_less(
            b.entity_key@,
            a.entity_key@,
        ),
        a.partial_cmp_spec(&b) == Some(Ordering::Equal) <==> a.entity_key@ == b.entity_key@,
{
    lemma_lex_cmp_less_iff(a.entity_key@, b.entity_key@);
    lemma_lex_cmp_less_iff(b.entity_key@, a.entity_key@);
    lemma_lex_cmp_flip(a.entity_key@, b.entity_key@);
    lemma_lex_cmp_equal_iff(a.entity_key@, b.entity_key@);
}

/// Wire injectivity for handles: two handles with the same wire image are the
/// same handle. Together with the contracts of `encode` and `decode` this
/// gives the round trip: decoding the bytes that `encode` produced yields
/// exactly the encoded handle, under either byte-order selection.
pub proof fn lemma_handle_round_trip(h: InstanceHandle_t, decoded: InstanceHandle_t)
    requires
        decoded.entity_key@ == h.entity_key@,
    ensures
        decoded == h,
{
    assert(decoded.entity_key =~= h.entity_key);
}

} // verus!
