//! The randomness delivered for a request, and its reduction into a range.
use crate::bound_int::BoundInt;
use std::ops::RangeInclusive;
use vstd::prelude::*;

verus! {

/// Length of the random value.
pub const RANDOM_BYTE_LEN: usize = 16;

/// Length of the reference to the transaction that requested the value.
pub const SIGNATURE_BYTE_LEN: usize = 64;

/// Length of a serialized result record: the random value, then the reference.
pub const RECORD_BYTE_LEN: usize = 80;

/// 2^127, the least `u128` whose top bit is set.
const TOP_BIT: u128 = 0x8000_0000_0000_0000_0000_0000_0000_0000;

/// 256 to the power `n`.
pub open spec fn pow256(n: nat) -> nat
    decreases n,
{
    if n == 0 {
        1
    } else {
        256 * pow256((n - 1) as nat)
    }
}

/// The unsigned integer that `s` encodes, most significant byte first.
pub open spec fn be_unsigned(s: Seq<u8>) -> nat
    decreases s.len(),
{
    if s.len() == 0 {
        0
    } else {
        be_unsigned(s.drop_last()) * 256 + s.last() as nat
    }
}

/// The signed 128-bit integer that sixteen bytes encode in two's complement,
/// most significant byte first.
pub open spec fn be_signed128(s: Seq<u8>) -> int {
    let u = be_unsigned(s);
    if u >= pow256(16) / 2 {
        u - pow256(16)
    } else {
        u as int
    }
}

/// The value in `[low, high]` that `random` selects: `low` when the range holds
/// one value, else `low` plus the signed value of `random` reduced modulo
/// `high - low`.
pub open spec fn bounded_value(random: Seq<u8>, low: int, high: int) -> int {
    if low == high {
        low
    } else {
        low + be_signed128(random) % (high - low)
    }
}

/// The 80-byte record of a result: the random value, then the reference.
pub open spec fn record_bytes(random: Seq<u8>, request_transaction: Seq<u8>) -> Seq<u8> {
    random + request_transaction
}

/// The randomness delivered for one request, with the reference that proves
/// where it came from. The all-zero value means that none has arrived yet.
pub struct VrfResult {
    pub random: [u8; 16],
    pub request_transaction: [u8; 64],
}

proof fn lemma_pow256_monotone(i: nat, j: nat)
    requires
        i <= j,
    ensures
        pow256(i) <= pow256(j),
    decreases j,
{
    if i < j {
        lemma_pow256_monotone(i, (j - 1) as nat);
    }
}

proof fn lemma_pow256_16()
    ensures
        pow256(15) == 0x1_0000_0000_0000_0000_0000_0000_0000_00,
        pow256(16) == 0x1_0000_0000_0000_0000_0000_0000_0000_0000,
{
    reveal_with_fuel(pow256, 17);
}

/// Relies on `RangeInclusive::into_inner`: it returns the start and the end bound.
#[verifier::external_body]
fn range_bounds<T>(range: RangeInclusive<T>) -> (r: (T, T))
    ensures
        r.0 == range@.start,
        r.1 == range@.end,
{
    range.into_inner()
}

impl VrfResult {
    /// A result that carries `random` and an all-zero reference.
    pub fn new(random: [u8; 16]) -> (r: Self)
        ensures
            r.random@ == random@,
            r.request_transaction@ == Seq::new(64, |i: int| 0u8),
    {
        let r = VrfResult { random, request_transaction: [0u8; 64] };
        assert(r.request_transaction@ =~= Seq::new(64, |i: int| 0u8));
        r
    }

    /// The random value read as a signed 128-bit integer, most significant byte first.
    pub fn random_i128(&self) -> (v: i128)
        ensures
            v as int == be_signed128(self.random@),
    {
        let mut u: u128 = 0;
        let mut i: usize = 0;
        proof {
            lemma_pow256_16();
            assert(self.random@.subrange(0, 0) =~= Seq::<u8>::empty());
        }
        while i < RANDOM_BYTE_LEN
            invariant
                i <= RANDOM_BYTE_LEN,
                self.random@.len() == RANDOM_BYTE_LEN,
                u as int == be_unsigned(self.random@.subrange(0, i as int)),
                (u as int) < pow256(i as nat),
                pow256(15) == 0x1_0000_0000_0000_0000_0000_0000_0000_00,
            decreases RANDOM_BYTE_LEN - i,
        {
            let b = self.random[i];
            proof {
                lemma_pow256_monotone(i as nat, 15);
                let p = pow256(i as nat);
                assert((u as int) * 256 + b < p * 256) by (nonlinear_arith)
                    requires
                        (u as int) < p,
                        b < 256,
                ;
                assert(p * 256 <= pow256(15) * 256) by (nonlinear_arith)
                    requires
                        p <= pow256(15),
                ;
                let next = self.random@.subrange(0, i + 1);
                assert(next.drop_last() =~= self.random@.subrange(0, i as int));
                assert(next.last() == b);
            }
            u = u * 256 + b as u128;
            i = i + 1;
        }
        assert(self.random@.subrange(0, 16) =~= self.random@);
        if u >= TOP_BIT {
            ((u - TOP_BIT) as i128) - 0x7fff_ffff_ffff_ffff_ffff_ffff_ffff_ffff - 1
        } else {
            u as i128
        }
    }

    /// Maps the random value into `range`, both ends included: the start plus
    /// the signed value of the random bytes reduced modulo the range's width,
    /// a remainder in `[0, width)`, so that the result never leaves the range.
    /// A range that holds one value gives that value. The bounds must fit in an
    /// `i128`, and so must the width, through which the arithmetic runs.
    pub fn bound<T: BoundInt>(self, range: RangeInclusive<T>) -> (r: T)
        requires
            range@.start.as_int() <= range@.end.as_int(),
            i128::MIN <= range@.start.as_int(),
            range@.end.as_int() <= i128::MAX,
            range@.end.as_int() - range@.start.as_int() <= i128::MAX,
        ensures
            r.as_int() == bounded_value(self.random@, range@.start.as_int(), range@.end.as_int()),
    {
        let (lo, hi) = range_bounds(range);
        let v = self.random_i128();
        let low = lo.widen();
        let high = hi.widen();
        if low == high {
            return lo;
        }
        let span: i128 = high - low;
        let offset: i128 = v.checked_rem_euclid(span).unwrap();
        T::narrow(low + offset, &lo, &hi)
    }
}

impl Default for VrfResult {
    /// The placeholder for a result that has not arrived: all bytes zero.
    fn default() -> (r: Self)
        ensures
            r.random@ == Seq::new(16, |i: int| 0u8),
            r.request_transaction@ == Seq::new(64, |i: int| 0u8),
    {
        let r = VrfResult { random: [0u8; 16], request_transaction: [0u8; 64] };
        assert(r.random@ =~= Seq::new(16, |i: int| 0u8));
        assert(r.request_transaction@ =~= Seq::new(64, |i: int| 0u8));
        r
    }
}

impl VrfResult {
    /// The serialized record: the random value, then the reference.
    pub fn to_bytes(&self) -> (r: Vec<u8>)
        ensures
            r@ == record_bytes(self.random@, self.request_transaction@),
    {
        let mut out: Vec<u8> = Vec::with_capacity(RECORD_BYTE_LEN);
        let mut i: usize = 0;
        while i < RANDOM_BYTE_LEN
            invariant
                i <= RANDOM_BYTE_LEN,
                out@ == self.random@.subrange(0, i as int),
            decreases RANDOM_BYTE_LEN - i,
        {
            out.push(self.random[i]);
            i = i + 1;
        }
        let mut j: usize = 0;
        while j < SIGNATURE_BYTE_LEN
            invariant
                j <= SIGNATURE_BYTE_LEN,
                out@ == self.random@ + self.request_transaction@.subrange(0, j as int),
            decreases SIGNATURE_BYTE_LEN - j,
        {
            out.push(self.request_transaction[j]);
            j = j + 1;
        }
        assert(self.random@.subrange(0, 16) =~= self.random@);
        assert(self.request_transaction@.subrange(0, 64) =~= self.request_transaction@);
        out
    }

    /// Reads a serialized record back: `None` unless `bytes` holds exactly 80
    /// bytes; else the first 16 are the random value and the other 64 the reference.
    pub fn from_bytes(bytes: &[u8]) -> (r: Option<Self>)
        ensures
            r is Some <==> bytes@.len() == RECORD_BYTE_LEN,
            r matches Some(v) ==> v.random@ == bytes@.subrange(0, 16)
                && v.request_transaction@ == bytes@.subrange(16, 80),
    {
        if bytes.len() != RECORD_BYTE_LEN {
            return None;
        }
        let mut random = [0u8; 16];
        let mut i: usize = 0;
        while i < RANDOM_BYTE_LEN
            invariant
                i <= RANDOM_BYTE_LEN,
                bytes@.len() == RECORD_BYTE_LEN,
                forall|k: int| 0 <= k < i ==> random@[k] == bytes@[k],
            decreases RANDOM_BYTE_LEN - i,
        {
            random[i] = bytes[i];
            i = i + 1;
        }
        let mut request_transaction = [0u8; 64];
        let mut j: usize = 0;
        while j < SIGNATURE_BYTE_LEN
            invariant
                j <= SIGNATURE_BYTE_LEN,
                bytes@.len() == RECORD_BYTE_LEN,
                forall|k: int| 0 <= k < j ==> request_transaction@[k] == bytes@[RANDOM_BYTE_LEN + k],
            decreases SIGNATURE_BYTE_LEN - j,
        {
            request_transaction[j] = bytes[RANDOM_BYTE_LEN + j];
            j = j + 1;
        }
        assert(random@ =~= bytes@.subrange(0, 16));
        assert(request_transaction@ =~= bytes@.subrange(16, 80));
        Some(VrfResult { random, request_transaction })
    }
}

/// A range that holds one value bounds every random value to that value.
pub proof fn lemma_bound_single_value(random: Seq<u8>, low: int)
    ensures
        bounded_value(random, low, low) == low,
{
}

/// For a range of more than one value, every random value is bounded into the
/// range, both ends included.
pub proof fn lemma_bound_in_range(random: Seq<u8>, low: int, high: int)
    requires
        low < high,
    ensures
        low <= bounded_value(random, low, high) <= high,
{
}

/// Bounding is a function of the random value and the range alone: two calls
/// with the same random value and the same range give the same integer.
pub proof fn lemma_bound_deterministic<T: BoundInt>(
    random: Seq<u8>,
    low: int,
    high: int,
    first: T,
    second: T,
)
    requires
        first.as_int() == bounded_value(random, low, high),
        second.as_int() == bounded_value(random, low, high),
    ensures
        first.as_int() == second.as_int(),
{
}

/// Splitting a serialized record after 16 bytes gives back the random value and
/// the reference, and reading it back yields the same two fields.
pub proof fn lemma_record_round_trip(random: Seq<u8>, request_transaction: Seq<u8>)
    requires
        random.len() == RANDOM_BYTE_LEN,
        request_transaction.len() == SIGNATURE_BYTE_LEN,
    ensures
        record_bytes(random, request_transaction).len() == RECORD_BYTE_LEN,
        record_bytes(random, request_transaction).subrange(0, 16) == random,
        record_bytes(random, request_transaction).subrange(16, 80) == request_transaction,
{
    assert(record_bytes(random, request_transaction).subrange(0, 16) =~= random);
    assert(record_bytes(random, request_transaction).subrange(16, 80) =~= request_transaction);
}

} // verus!
