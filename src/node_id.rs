//! Random node ids at a chosen XOR distance from the local node, used to look
//! up peers for one routing-table bucket.
use vstd::prelude::*;

verus! {

/// Relies on rand::random: a value drawn from the thread-local generator.
/// Nothing is known of the value drawn.
pub assume_specification<T>[ rand::random::<T> ]() -> (r: T)
    where
        rand::distributions::Standard: rand::distributions::Distribution<T>,
;

/// A 256-bit node identifier, most significant byte first.
#[derive(Clone, Copy, Debug, PartialEq, Eq)]
pub struct NodeId {
    pub raw: [u8; 32],
}

impl NodeId {
    /// The node id with these bytes.
    pub fn new(raw: &[u8; 32]) -> (r: NodeId)
        ensures
            r.raw@ == raw@,
    {
        NodeId { raw: *raw }
    }

    /// The bytes of the id.
    pub fn raw(&self) -> (r: [u8; 32])
        ensures
            r@ == self.raw@,
    {
        self.raw
    }

    /// A node id drawn at random.
    pub fn random() -> (r: NodeId) {
        NodeId { raw: rand::random::<[u8; 32]>() }
    }
}

/// The byte-wise XOR of two equally long byte strings.
pub open spec fn xor_bytes(a: Seq<u8>, b: Seq<u8>) -> Seq<u8> {
    Seq::new(a.len(), |i: int| a[i] ^ b[i])
}

/// The XOR distance of two ids, most significant byte first.
pub fn xor_distance(a: &[u8; 32], b: &[u8; 32]) -> (r: [u8; 32])
    ensures
        r@ == xor_bytes(a@, b@),
{
    let mut r: [u8; 32] = [0u8; 32];
    let mut i: usize = 0;
    while i < 32
        invariant
            i <= 32,
            r@.len() == 32,
            forall|j: int| 0 <= j < i ==> r@[j] == a@[j] ^ b@[j],
        decreases 32 - i,
    {
        r[i] = a[i] ^ b[i];
        i = i + 1;
    }
    assert(r@ =~= xor_bytes(a@, b@));
    r
}

/// The index of the byte that holds bit `idx` (bit 0 is the least significant).
pub open spec fn bucket_byte(idx: nat) -> int {
    31 - (idx / 8) as int
}

/// Whether the highest set bit of the 256-bit distance `d` is bit `idx`, that is,
/// `2^idx <= d < 2^(idx + 1)`: bytes before the bucket byte are zero, and the
/// bucket byte's highest set bit is `idx % 8`.
pub open spec fn in_bucket(d: Seq<u8>, idx: nat) -> bool {
    let p = bucket_byte(idx);
    let low = vstd::arithmetic::power2::pow2(idx % 8);
    &&& d.len() == 32
    &&& forall|j: int| 0 <= j < p ==> d[j] == 0
    &&& low <= d[p] < 2 * low
}

/// The distance made from the random bytes `draw` for bucket `idx`: bytes before
/// the bucket byte zero, the bucket byte `2^(idx % 8) + draw % 2^(idx % 8)`,
/// later bytes as drawn.
pub open spec fn shaped_distance(draw: Seq<u8>, idx: nat) -> Seq<u8> {
    let p = bucket_byte(idx);
    let low = vstd::arithmetic::power2::pow2(idx % 8);
    Seq::new(
        32,
        |j: int|
            if j < p {
                0u8
            } else if j == p {
                (low + (draw[p] as nat) % low) as u8
            } else {
                draw[j]
            },
    )
}

/// Shapes the random bytes `draw` into a distance whose highest set bit is
/// bit `target_bucket_idx`.
pub fn shape_distance(draw: [u8; 32], target_bucket_idx: u8) -> (r: [u8; 32])
    ensures
        r@ == shaped_distance(draw@, target_bucket_idx as nat),
        in_bucket(r@, target_bucket_idx as nat),
{
    let mut bytes = draw;
    let p: usize = 31 - (target_bucket_idx / 8) as usize;
    let k: u8 = target_bucket_idx % 8;
    let mut low: u8 = 1;
    let mut i: u8 = 0;
    proof {
        vstd::arithmetic::power2::lemma2_to64();
    }
    while i < k
        invariant
            k < 8,
            i <= k,
            low as nat == vstd::arithmetic::power2::pow2(i as nat),
        decreases k - i,
    {
        proof {
            vstd::arithmetic::power2::lemma_pow2_unfold((i + 1) as nat);
            vstd::arithmetic::power2::lemma_pow2_strictly_increases(i as nat, 7);
            vstd::arithmetic::power2::lemma2_to64();
        }
        low = low * 2;
        i = i + 1;
    }
    proof {
        vstd::arithmetic::power2::lemma2_to64();
        assert(low <= 128) by {
            if k == 0 {} else if k == 1 {} else if k == 2 {} else if k == 3 {}
            else if k == 4 {} else if k == 5 {} else if k == 6 {} else {}
        }
    }
    bytes[p] = low + bytes[p] % low;
    let mut j: usize = 0;
    while j < p
        invariant
            p < 32,
            j <= p,
            p as int == bucket_byte(target_bucket_idx as nat),
            low as nat == vstd::arithmetic::power2::pow2((target_bucket_idx % 8) as nat),
            bytes@.len() == 32,
            bytes@[p as int] == low + draw@[p as int] % low,
            low as nat <= bytes@[p as int] < 2 * low as nat,
            forall|m: int| 0 <= m < j ==> bytes@[m] == 0,
            forall|m: int| p < m < 32 ==> bytes@[m] == draw@[m],
        decreases p - j,
    {
        bytes[j] = 0;
        j = j + 1;
    }
    assert(bytes@ =~= shaped_distance(draw@, target_bucket_idx as nat));
    bytes
}

/// A random distance whose highest set bit is bit `target_bucket_idx`.
pub fn random_distance(target_bucket_idx: u8) -> (r: [u8; 32])
    ensures
        in_bucket(r@, target_bucket_idx as nat),
{
    shape_distance(rand::random::<[u8; 32]>(), target_bucket_idx)
}

/// A random node id whose XOR distance to `local_node_id` has its highest set
/// bit at `target_bucket_idx`.
pub fn generate_random_node_id(target_bucket_idx: u8, local_node_id: NodeId) -> (r: NodeId)
    ensures
        in_bucket(xor_bytes(r.raw@, local_node_id.raw@), target_bucket_idx as nat),
{
    let distance = random_distance(target_bucket_idx);
    let raw = xor_distance(&local_node_id.raw, &distance);
    proof {
        assert forall|j: int| 0 <= j < 32 implies #[trigger] xor_bytes(raw@, local_node_id.raw@)[j]
            == distance@[j] by {
            let a = local_node_id.raw@[j];
            let d = distance@[j];
            assert((a ^ d) ^ a == d) by (bit_vector);
        }
        assert(xor_bytes(raw@, local_node_id.raw@) =~= distance@);
    }
    NodeId::new(&raw)
}

} // verus!
