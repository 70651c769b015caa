//! The commitment engine: derives and verifies the deterministic 32-byte
//! digest that binds a claimant identity, an amount and a salt. The digest is
//! SHA-256 over the claimant's canonical bytes, the 16-byte big-endian amount
//! and the raw salt, in that order.
use crate::bytemap::bytes_eq;
use crate::bytemap::copy_vec;
use vstd::prelude::*;

verus! {

/// Declares soroban's host environment handle so that it can be passed
/// through to the hash wrapper.
#[verifier::external_type_specification]
#[verifier::external_body]
pub struct ExEnv(soroban_sdk::Env);

/// The SHA-256 digest of a byte string. The digest is a function of the input
/// alone; it is named here and computed by the host.
pub uninterp spec fn sha256_of(data: Seq<u8>) -> Seq<u8>;

/// Relies on soroban_sdk's `Crypto::sha256`: returns the SHA-256 hash of the
/// data, a 32-byte digest that depends on the data alone.
#[verifier::external_body]
fn sha256_digest(env: &soroban_sdk::Env, data: &Vec<u8>) -> (r: Vec<u8>)
    ensures
        r@ == sha256_of(data@),
        r@.len() == 32,
{
    let bytes = soroban_sdk::Bytes::from_slice(env, data.as_slice());
    env.crypto().sha256(&bytes).to_array().to_vec()
}

/// Big-endian byte `j` (0 = most significant) of the 16-byte two's-complement
/// encoding of `amount`.
pub open spec fn amount_be_byte(amount: i128, j: int) -> u8 {
    (((amount as u128) >> ((120 - 8 * j) as u128)) & 0xff) as u8
}

/// The 16-byte big-endian two's-complement encoding of `amount`.
pub open spec fn amount_be_bytes(amount: i128) -> Seq<u8> {
    Seq::new(16, |j: int| amount_be_byte(amount, j))
}

/// The byte string the commitment digest is computed over: the claimant's
/// canonical serialization, then the 16-byte big-endian amount, then the salt.
pub open spec fn commitment_preimage(claimant: Seq<u8>, amount: i128, salt: Seq<u8>) -> Seq<u8> {
    claimant + amount_be_bytes(amount) + salt
}

/// The commitment digest binding (claimant, amount, salt).
pub open spec fn commitment_of(claimant: Seq<u8>, amount: i128, salt: Seq<u8>) -> Seq<u8> {
    sha256_of(commitment_preimage(claimant, amount, salt))
}

/// Whether `digest` is exactly the commitment of (claimant, amount, salt).
pub open spec fn commitment_matches(
    digest: Seq<u8>,
    claimant: Seq<u8>,
    amount: i128,
    salt: Seq<u8>,
) -> bool {
    digest == commitment_of(claimant, amount, salt)
}

/// Encodes `amount` as 16 big-endian bytes.
fn amount_to_be_bytes(amount: i128) -> (r: Vec<u8>)
    ensures
        r@ == amount_be_bytes(amount),
{
    let u: u128 = #[verifier::truncate] (amount as u128);
    let mut out: Vec<u8> = Vec::new();
    let mut j: usize = 0;
    while j < 16
        invariant
            j <= 16,
            u == amount as u128,
            out@.len() == j as int,
            forall|m: int| 0 <= m < j as int ==> out@[m] == amount_be_byte(amount, m),
        decreases 16 - j,
    {
        let sh: u128 = (120 - 8 * j) as u128;
        let masked: u128 = (u >> sh) & 0xff;
        proof {
            assert((u >> sh) & 0xff < 256) by (bit_vector);
        }
        let b: u8 = masked as u8;
        assert(b == amount_be_byte(amount, j as int));
        out.push(b);
        j += 1;
    }
    assert(out@ =~= amount_be_bytes(amount));
    out
}

/// Appends the contents of `add` to `out`.
fn append_bytes(out: &mut Vec<u8>, add: &Vec<u8>)
    ensures
        final(out)@ == old(out)@ + add@,
{
    let mut i: usize = 0;
    while i < add.len()
        invariant
            i <= add.len(),
            out@ == old(out)@ + add@.subrange(0, i as int),
        decreases add.len() - i,
    {
        out.push(add[i]);
        i += 1;
    }
    assert(out@ == old(out)@ + add@);
}

/// Derives the commitment digest for (owner, amount, salt). Deterministic and
/// side-effect free: the same inputs always yield the same digest.
pub fn create_amount_commitment(
    env: &soroban_sdk::Env,
    owner: &Vec<u8>,
    amount: i128,
    salt: &Vec<u8>,
) -> (r: Vec<u8>)
    ensures
        r@ == commitment_of(owner@, amount, salt@),
        r@.len() == 32,
{
    let mut data = copy_vec(owner);
    let amount_bytes = amount_to_be_bytes(amount);
    append_bytes(&mut data, &amount_bytes);
    append_bytes(&mut data, salt);
    assert(data@ == commitment_preimage(owner@, amount, salt@));
    sha256_digest(env, &data)
}

/// Recomputes the commitment of (owner, amount, salt) and compares it with
/// `commitment` for exact equality.
pub fn verify_amount_commitment(
    env: &soroban_sdk::Env,
    commitment: &Vec<u8>,
    owner: &Vec<u8>,
    amount: i128,
    salt: &Vec<u8>,
) -> (r: bool)
    ensures
        r == commitment_matches(commitment@, owner@, amount, salt@),
{
    let digest = create_amount_commitment(env, owner, amount, salt);
    bytes_eq(commitment, &digest)
}

/// Round-trip law: the digest derived from a reveal always verifies against
/// that same reveal.
pub proof fn lemma_commitment_round_trip(claimant: Seq<u8>, amount: i128, salt: Seq<u8>)
    ensures
        commitment_matches(commitment_of(claimant, amount, salt), claimant, amount, salt),
{
}

/// The 16-byte big-endian encoding determines the amount.
proof fn lemma_amount_be_bytes_injective(a1: i128, a2: i128)
    requires
        amount_be_bytes(a1) == amount_be_bytes(a2),
    ensures
        a1 == a2,
{
    let u1: u128 = #[verifier::truncate] (a1 as u128);
    let u2: u128 = #[verifier::truncate] (a2 as u128);
    assert forall|j: int| 0 <= j < 16 implies amount_be_byte(a1, j) == amount_be_byte(
        a2,
        j,
    ) by {
        assert(amount_be_bytes(a1)[j] == amount_be_byte(a1, j));
        assert(amount_be_bytes(a2)[j] == amount_be_byte(a2, j));
        assert(amount_be_bytes(a1)[j] == amount_be_bytes(a2)[j]);
    }
    assert(amount_be_byte(a1, 0) == amount_be_byte(a2, 0));
    assert(amount_be_byte(a1, 1) == amount_be_byte(a2, 1));
    assert(amount_be_byte(a1, 2) == amount_be_byte(a2, 2));
    assert(amount_be_byte(a1, 3) == amount_be_byte(a2, 3));
    assert(amount_be_byte(a1, 4) == amount_be_byte(a2, 4));
    assert(amount_be_byte(a1, 5) == amount_be_byte(a2, 5));
    assert(amount_be_byte(a1, 6) == amount_be_byte(a2, 6));
    assert(amount_be_byte(a1, 7) == amount_be_byte(a2, 7));
    assert(amount_be_byte(a1, 8) == amount_be_byte(a2, 8));
    assert(amount_be_byte(a1, 9) == amount_be_byte(a2, 9));
    assert(amount_be_byte(a1, 10) == amount_be_byte(a2, 10));
    assert(amount_be_byte(a1, 11) == amount_be_byte(a2, 11));
    assert(amount_be_byte(a1, 12) == amount_be_byte(a2, 12));
    assert(amount_be_byte(a1, 13) == amount_be_byte(a2, 13));
    assert(amount_be_byte(a1, 14) == amount_be_byte(a2, 14));
    assert(amount_be_byte(a1, 15) == amount_be_byte(a2, 15));
    assert(u1 == u2) by (bit_vector)
        requires
            ((u1 >> 120u128) & 0xff) as u8 == ((u2 >> 120u128) & 0xff) as u8,
            ((u1 >> 112u128) & 0xff) as u8 == ((u2 >> 112u128) & 0xff) as u8,
            ((u1 >> 104u128) & 0xff) as u8 == ((u2 >> 104u128) & 0xff) as u8,
            ((u1 >> 96u128) & 0xff) as u8 == ((u2 >> 96u128) & 0xff) as u8,
            ((u1 >> 88u128) & 0xff) as u8 == ((u2 >> 88u128) & 0xff) as u8,
            ((u1 >> 80u128) & 0xff) as u8 == ((u2 >> 80u128) & 0xff) as u8,
            ((u1 >> 72u128) & 0xff) as u8 == ((u2 >> 72u128) & 0xff) as u8,
            ((u1 >> 64u128) & 0xff) as u8 == ((u2 >> 64u128) & 0xff) as u8,
            ((u1 >> 56u128) & 0xff) as u8 == ((u2 >> 56u128) & 0xff) as u8,
            ((u1 >> 48u128) & 0xff) as u8 == ((u2 >> 48u128) & 0xff) as u8,
            ((u1 >> 40u128) & 0xff) as u8 == ((u2 >> 40u128) & 0xff) as u8,
            ((u1 >> 32u128) & 0xff) as u8 == ((u2 >> 32u128) & 0xff) as u8,
            ((u1 >> 24u128) & 0xff) as u8 == ((u2 >> 24u128) & 0xff) as u8,
            ((u1 >> 16u128) & 0xff) as u8 == ((u2 >> 16u128) & 0xff) as u8,
            ((u1 >> 8u128) & 0xff) as u8 == ((u2 >> 8u128) & 0xff) as u8,
            ((u1 >> 0u128) & 0xff) as u8 == ((u2 >> 0u128) & 0xff) as u8,
    ;
    assert(a1 == a2) by (bit_vector)
        requires
            a1 as u128 == a2 as u128,
    ;
}

/// Sensitivity law for the preimage encoding: two reveals whose claimants
/// have the same length produce the same preimage only when they agree field
/// for field. Changing any single field therefore changes the byte string
/// that is hashed; the digests differ whenever the hash maps the two
/// preimages apart.
pub proof fn lemma_preimage_injective(
    c1: Seq<u8>,
    a1: i128,
    s1: Seq<u8>,
    c2: Seq<u8>,
    a2: i128,
    s2: Seq<u8>,
)
    requires
        c1.len() == c2.len(),
        commitment_preimage(c1, a1, s1) == commitment_preimage(c2, a2, s2),
    ensures
        c1 == c2,
        a1 == a2,
        s1 == s2,
{
    let p1 = commitment_preimage(c1, a1, s1);
    let p2 = commitment_preimage(c2, a2, s2);
    let n = c1.len() as int;
    assert(amount_be_bytes(a1).len() == 16);
    assert(amount_be_bytes(a2).len() == 16);
    assert(p1.len() == n + 16 + s1.len());
    assert(p2.len() == n + 16 + s2.len());
    assert(c1 =~= c2) by {
        assert forall|i: int| 0 <= i < n implies c1[i] == c2[i] by {
            assert(p1[i] == c1[i]);
            assert(p2[i] == c2[i]);
        }
    }
    assert(amount_be_bytes(a1) =~= amount_be_bytes(a2)) by {
        assert forall|j: int| 0 <= j < 16 implies amount_be_bytes(a1)[j] == amount_be_bytes(
            a2,
        )[j] by {
            assert(p1[n + j] == amount_be_bytes(a1)[j]);
            assert(p2[n + j] == amount_be_bytes(a2)[j]);
        }
    }
    lemma_amount_be_bytes_injective(a1, a2);
    assert(s1 =~= s2) by {
        assert(s1.len() == s2.len());
        assert forall|i: int| 0 <= i < s1.len() implies s1[i] == s2[i] by {
            assert(p1[n + 16 + i] == s1[i]);
            assert(p2[n + 16 + i] == s2[i]);
        }
    }
}

} // verus!
