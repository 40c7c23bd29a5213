//! Node and data identifiers, and their order by XOR distance to a target.

use vstd::prelude::*;

use crate::bytes::{array_as_vector, generate_random_vec_u8};
use crate::crypto::{sha512, sha512_digest};

verus! {

/// Number of bytes in a well-formed identifier.
pub const DHT_ID_BYTES: usize = 64;

/// An identifier in the 512-bit XOR address space.
#[derive(Clone, Debug, PartialEq, Eq, Hash, PartialOrd, Ord)]
pub struct DhtId(pub Vec<u8>);

impl View for DhtId {
    type V = Seq<u8>;

    open spec fn view(&self) -> Seq<u8> {
        self.0@
    }
}

/// Byte `i` of the XOR distance between `a` and `target`.
pub open spec fn distance_byte(a: Seq<u8>, target: Seq<u8>, i: int) -> u8 {
    a[i] ^ target[i]
}

/// `lhs` and `rhs` are at the same XOR distance from `target` in every byte
/// before index `i`.
pub open spec fn same_distance_before(lhs: Seq<u8>, rhs: Seq<u8>, target: Seq<u8>, i: int) -> bool {
    forall|j: int|
        0 <= j < i ==> #[trigger] distance_byte(lhs, target, j) == distance_byte(rhs, target, j)
}

/// Comparing byte by byte over the length of `lhs`, the first byte in which
/// the distances of `lhs` and `rhs` to `target` differ is smaller for `lhs`.
pub open spec fn closer_spec(lhs: Seq<u8>, rhs: Seq<u8>, target: Seq<u8>) -> bool {
    exists|i: int|
        0 <= i < lhs.len() && same_distance_before(lhs, rhs, target, i)
            && #[trigger] distance_byte(lhs, target, i) < distance_byte(rhs, target, i)
}

/// The lower-case hexadecimal digit for `n` (below 16).
pub open spec fn hex_digit(n: int) -> char {
    "0123456789abcdef"@[n]
}

/// A byte in lower-case hexadecimal, without leading zeros.
pub open spec fn lower_hex(b: u8) -> Seq<char> {
    if b < 16 {
        seq![hex_digit(b as int)]
    } else {
        seq![hex_digit(b as int / 16), hex_digit(b as int % 16)]
    }
}

/// The debug form of an identifier: its first two bytes in hexadecimal.
pub open spec fn debug_form(id: Seq<u8>) -> Seq<char> {
    "DhtId("@ + lower_hex(id[0]) + lower_hex(id[1]) + ")"@
}

/// Appends `b` in lower-case hexadecimal, without leading zeros.
fn push_lower_hex(out: &mut String, b: u8)
    ensures
        final(out)@ == old(out)@ + lower_hex(b),
{
    let digits = "0123456789abcdef";
    proof {
        reveal_strlit("0123456789abcdef");
    }
    if b < 16 {
        let d = digits.substring_char(b as usize, b as usize + 1);
        assert(d@ =~= seq![hex_digit(b as int)]);
        out.append(d);
    } else {
        let hi: usize = (b / 16) as usize;
        let lo: usize = (b % 16) as usize;
        let d1 = digits.substring_char(hi, hi + 1);
        let d2 = digits.substring_char(lo, lo + 1);
        assert(d1@ =~= seq![hex_digit(b as int / 16)]);
        assert(d2@ =~= seq![hex_digit(b as int % 16)]);
        out.append(d1);
        out.append(d2);
        assert(final(out)@ =~= old(out)@ + lower_hex(b));
    }
}

/// An identifier of the right length with at least one non-zero byte.
pub open spec fn valid_id(id: Seq<u8>) -> bool {
    id.len() == DHT_ID_BYTES && exists|i: int| 0 <= i < id.len() && id[i] != 0
}

impl DhtId {
    /// The identifier whose bytes are those of `array`.
    pub fn new(array: &[u8; 64]) -> (id: DhtId)
        ensures
            id@ == array@,
    {
        DhtId(array_as_vector(array))
    }

    /// The identifier of a piece of data: its SHA-512 digest.
    pub fn from_data(data: &[u8]) -> (id: DhtId)
        ensures
            id@ == sha512_digest(data@),
            id@.len() == DHT_ID_BYTES,
    {
        let digest = sha512(data);
        DhtId::new(&digest)
    }

    /// A random identifier of the right length.
    pub fn generate_random() -> (id: DhtId)
        ensures
            id@.len() == DHT_ID_BYTES,
    {
        DhtId(generate_random_vec_u8(DHT_ID_BYTES))
    }

    /// Whether the identifier has the right length and is not all zeros.
    pub fn is_valid(&self) -> (valid: bool)
        ensures
            valid == valid_id(self@),
            valid == (self@.len() == 64 && exists|k: int| 0 <= k < self@.len() && self@[k] != 0u8),
    {
        if self.0.len() != DHT_ID_BYTES {
            return false;
        }
        let n: usize = self.0.len();
        for i in 0..n
            invariant
                n == self@.len(),
                n == DHT_ID_BYTES,
                forall|j: int| 0 <= j < i ==> self@[j] == 0,
        {
            if self.0[i] != 0 {
                assert(self@[i as int] != 0);
                return true;
            }
        }
        false
    }

    /// The debug form of the identifier, such as `DhtId(8758)`: its first
    /// two bytes in hexadecimal.
    pub fn debug_string(&self) -> (s: String)
        requires
            self@.len() >= 2,
        ensures
            s@ == debug_form(self@),
    {
        let mut s = String::from_str("DhtId(");
        push_lower_hex(&mut s, self.0[0]);
        push_lower_hex(&mut s, self.0[1]);
        s.append(")");
        s
    }

    /// A copy of the identifier.
    pub fn copy(&self) -> (id: DhtId)
        ensures
            id@ == self@,
    {
        DhtId(self.0.clone())
    }

    /// Whether two identifiers hold the same bytes.
    pub fn same_as(&self, other: &DhtId) -> (same: bool)
        ensures
            same == (self@ == other@),
    {
        if self.0.len() != other.0.len() {
            return false;
        }
        let n: usize = self.0.len();
        for i in 0..n
            invariant
                n == self@.len(),
                n == other@.len(),
                forall|j: int| 0 <= j < i ==> self@[j] == other@[j],
        {
            if self.0[i] != other.0[i] {
                return false;
            }
        }
        assert(self@ =~= other@);
        true
    }
}

/// Whether `lhs` is closer to `target` than `rhs` in the XOR metric, reading
/// the distances as big-endian numbers over the length of `lhs`.
pub fn closer_to_target(lhs: &DhtId, rhs: &DhtId, target: &DhtId) -> (closer: bool)
    requires
        rhs@.len() >= lhs@.len(),
        target@.len() >= lhs@.len(),
    ensures
        closer == closer_spec(lhs@, rhs@, target@),
        closer == exists|i: int|
            0 <= i < lhs@.len() && (forall|j: int|
                0 <= j < i ==> (#[trigger] lhs@[j] ^ target@[j]) == (rhs@[j] ^ target@[j]))
                && (#[trigger] lhs@[i] ^ target@[i]) < (rhs@[i] ^ target@[i]),
{
    let n: usize = lhs.0.len();
    for i in 0..n
        invariant
            n == lhs@.len(),
            rhs@.len() >= n,
            target@.len() >= n,
            same_distance_before(lhs@, rhs@, target@, i as int),
    {
        let res_0: u8 = lhs.0[i] ^ target.0[i];
        let res_1: u8 = rhs.0[i] ^ target.0[i];
        assert(res_0 == distance_byte(lhs@, target@, i as int));
        assert(res_1 == distance_byte(rhs@, target@, i as int));
        if res_0 != res_1 {
            if !(res_0 < res_1) {
                assert forall|k: int|
                    0 <= k < lhs@.len() && same_distance_before(lhs@, rhs@, target@, k) implies
                    !(#[trigger] distance_byte(lhs@, target@, k) < distance_byte(rhs@, target@, k)) by {
                    if k > i {
                        assert(distance_byte(lhs@, target@, i as int) == distance_byte(rhs@, target@, i as int));
                    }
                }
            }
            proof {
                lemma_closer_is_xor_order(lhs@, rhs@, target@);
            }
            return res_0 < res_1;
        }
    }
    assert forall|k: int|
        0 <= k < lhs@.len() && same_distance_before(lhs@, rhs@, target@, k) implies
        !(#[trigger] distance_byte(lhs@, target@, k) < distance_byte(rhs@, target@, k)) by {
        assert(distance_byte(lhs@, target@, k) == distance_byte(rhs@, target@, k));
    }
    proof {
        lemma_closer_is_xor_order(lhs@, rhs@, target@);
    }
    false
}

/// Closeness is the XOR metric: `lhs` is closer to `target` than `rhs`
/// exactly when, at the first byte where `lhs ^ target` and `rhs ^ target`
/// differ (within the length of `lhs`), the byte of `lhs ^ target` is the
/// smaller.
pub proof fn lemma_closer_is_xor_order(lhs: Seq<u8>, rhs: Seq<u8>, target: Seq<u8>)
    ensures
        closer_spec(lhs, rhs, target) == exists|i: int|
            0 <= i < lhs.len() && (forall|j: int|
                0 <= j < i ==> (#[trigger] lhs[j] ^ target[j]) == (rhs[j] ^ target[j]))
                && (#[trigger] lhs[i] ^ target[i]) < (rhs[i] ^ target[i]),
{
    if closer_spec(lhs, rhs, target) {
        let i = choose|i: int|
            0 <= i < lhs.len() && same_distance_before(lhs, rhs, target, i)
                && #[trigger] distance_byte(lhs, target, i) < distance_byte(rhs, target, i);
        assert forall|j: int| 0 <= j < i implies (#[trigger] lhs[j] ^ target[j]) == (rhs[j]
            ^ target[j]) by {
            assert(distance_byte(lhs, target, j) == distance_byte(rhs, target, j));
        }
        assert((lhs[i] ^ target[i]) < (rhs[i] ^ target[i]));
    }
    if exists|i: int|
        0 <= i < lhs.len() && (forall|j: int|
            0 <= j < i ==> (#[trigger] lhs[j] ^ target[j]) == (rhs[j] ^ target[j]))
            && (#[trigger] lhs[i] ^ target[i]) < (rhs[i] ^ target[i]) {
        let i = choose|i: int|
            0 <= i < lhs.len() && (forall|j: int|
                0 <= j < i ==> (#[trigger] lhs[j] ^ target[j]) == (rhs[j] ^ target[j]))
                && (#[trigger] lhs[i] ^ target[i]) < (rhs[i] ^ target[i]);
        assert forall|j: int| 0 <= j < i implies #[trigger] distance_byte(lhs, target, j)
            == distance_byte(rhs, target, j) by {
            assert((lhs[j] ^ target[j]) == (rhs[j] ^ target[j]));
        }
        assert(distance_byte(lhs, target, i) < distance_byte(rhs, target, i));
    }
}

/// A byte's distance to the target is their bitwise XOR.
pub proof fn lemma_distance_byte_is_xor(a: Seq<u8>, target: Seq<u8>, i: int)
    ensures
        distance_byte(a, target, i) == a[i] ^ target[i],
{
}

/// An identifier is valid exactly when it is 64 bytes long and some byte
/// is not zero: a 64-byte identifier with any non-zero byte is valid, an
/// all-zero one is not, and no identifier of another length is.
pub proof fn lemma_valid_id_cases(id: Seq<u8>, k: int)
    ensures
        id.len() == 64 && 0 <= k < 64 && id[k] != 0u8 ==> valid_id(id),
        (forall|j: int| 0 <= j < id.len() ==> id[j] == 0u8) ==> !valid_id(id),
        id.len() != 64 ==> !valid_id(id),
{
}

/// No identifier is closer to a target than itself.
pub proof fn lemma_closer_irreflexive(a: Seq<u8>, target: Seq<u8>)
    ensures
        !closer_spec(a, a, target),
{
}

/// Of two identifiers of one length, at most one is closer to a target than
/// the other.
pub proof fn lemma_closer_asymmetric(a: Seq<u8>, b: Seq<u8>, target: Seq<u8>)
    requires
        a.len() == b.len(),
    ensures
        closer_spec(a, b, target) ==> !closer_spec(b, a, target),
{
    if closer_spec(a, b, target) && closer_spec(b, a, target) {
        let i = choose|i: int|
            0 <= i < a.len() && same_distance_before(a, b, target, i)
                && #[trigger] distance_byte(a, target, i) < distance_byte(b, target, i);
        let k = choose|k: int|
            0 <= k < b.len() && same_distance_before(b, a, target, k)
                && #[trigger] distance_byte(b, target, k) < distance_byte(a, target, k);
        if i < k {
            assert(distance_byte(b, target, i) == distance_byte(a, target, i));
        } else if k < i {
            assert(distance_byte(a, target, k) == distance_byte(b, target, k));
        }
    }
}

/// Closeness to a target is transitive over identifiers of one length.
pub proof fn lemma_closer_transitive(a: Seq<u8>, b: Seq<u8>, c: Seq<u8>, target: Seq<u8>)
    requires
        a.len() == b.len(),
        b.len() == c.len(),
    ensures
        closer_spec(a, b, target) && closer_spec(b, c, target) ==> closer_spec(a, c, target),
{
    if closer_spec(a, b, target) && closer_spec(b, c, target) {
        let i = choose|i: int|
            0 <= i < a.len() && same_distance_before(a, b, target, i)
                && #[trigger] distance_byte(a, target, i) < distance_byte(b, target, i);
        let k = choose|k: int|
            0 <= k < b.len() && same_distance_before(b, c, target, k)
                && #[trigger] distance_byte(b, target, k) < distance_byte(c, target, k);
        let m = if i < k { i } else { k };
        assert forall|j: int| 0 <= j < m implies #[trigger] distance_byte(a, target, j)
            == distance_byte(c, target, j) by {
            assert(distance_byte(a, target, j) == distance_byte(b, target, j));
            assert(distance_byte(b, target, j) == distance_byte(c, target, j));
        }
        if i < k {
            assert(distance_byte(b, target, i) == distance_byte(c, target, i));
        } else if k < i {
            assert(distance_byte(a, target, k) == distance_byte(b, target, k));
        }
        assert(distance_byte(a, target, m) < distance_byte(c, target, m));
    }
}

/// Two bytes at the same XOR distance from a third are equal.
proof fn lemma_xor_cancel(x: u8, y: u8, t: u8)
    ensures
        (x ^ t == y ^ t) ==> x == y,
{
    assert((x ^ t == y ^ t) ==> x == y) by (bit_vector);
}

/// Helper for totality: scanning from index `i`, where the distances so far
/// agree and the identifiers differ somewhere at or after `i`.
proof fn lemma_closer_total_from(a: Seq<u8>, b: Seq<u8>, target: Seq<u8>, i: int)
    requires
        a.len() == b.len(),
        target.len() >= a.len(),
        0 <= i <= a.len(),
        same_distance_before(a, b, target, i),
        exists|k: int| i <= k < a.len() && a[k] != b[k],
    ensures
        closer_spec(a, b, target) || closer_spec(b, a, target),
    decreases a.len() - i,
{
    let k = choose|k: int| i <= k < a.len() && a[k] != b[k];
    if distance_byte(a, target, i) != distance_byte(b, target, i) {
        assert(same_distance_before(b, a, target, i));
    } else {
        lemma_xor_cancel(a[i], b[i], target[i]);
        assert(k != i);
        assert(same_distance_before(a, b, target, i + 1));
        lemma_closer_total_from(a, b, target, i + 1);
    }
}

/// Of two distinct identifiers of one length, one is closer to a target
/// (no longer than them) than the other.
pub proof fn lemma_closer_total(a: Seq<u8>, b: Seq<u8>, target: Seq<u8>)
    requires
        a.len() == b.len(),
        target.len() >= a.len(),
        a != b,
    ensures
        closer_spec(a, b, target) || closer_spec(b, a, target),
{
    assert(!(a =~= b));
    lemma_closer_total_from(a, b, target, 0);
}

/// A target is closer to itself than any other identifier of its length.
pub proof fn lemma_target_is_closest(x: Seq<u8>, target: Seq<u8>)
    requires
        x.len() == target.len(),
        x != target,
    ensures
        closer_spec(target, x, target),
{
    lemma_closer_total(target, x, target);
    if closer_spec(x, target, target) {
        let i = choose|i: int|
            0 <= i < x.len() && same_distance_before(x, target, target, i)
                && #[trigger] distance_byte(x, target, i) < distance_byte(target, target, i);
        let t = target[i];
        assert(t ^ t == 0u8) by (bit_vector);
    }
}

} // verus!
