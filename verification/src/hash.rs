use vstd::prelude::*;

verus! {

/// The number of colour values an anonymous author id can take: ids run
/// from 0 up to, not including, 0xFFFFFF.
pub const COLOUR_RANGE: u64 = 16_777_215;

/// The anonymous id that a 64-bit digest gives.
pub open spec fn spec_to_user(col: u64) -> u32 {
    (col % COLOUR_RANGE) as u32
}

/// Folds a 64-bit digest into the colour range: the id shown for an author.
pub fn to_user(col: u64) -> (id: u32)
    ensures
        id == spec_to_user(col),
        id < COLOUR_RANGE,
{
    (col % COLOUR_RANGE) as u32
}

/// The XXH64 digest, with the given seed, of the given bytes.
pub uninterp spec fn xxh64(seed: u64, data: Seq<u8>) -> u64;

/// Calls `twox_hash::XxHash64`: `with_seed(seed)`, then `Hasher::write(data)`,
/// then `Hasher::finish`. The contract claims only that the digest is the
/// XXH64 function of the seed and the bytes written; the algorithm itself is
/// not stated here.
#[verifier::external_body]
fn xxh64_digest(seed: u64, data: &[u8]) -> (digest: u64)
    ensures
        digest == xxh64(seed, data@),
{
    let mut hasher = twox_hash::XxHash64::with_seed(seed);
    std::hash::Hasher::write(&mut hasher, data);
    std::hash::Hasher::finish(&hasher)
}

/// The eight bytes of `n`, least significant first.
pub open spec fn le_bytes(n: u64) -> Seq<u8> {
    seq![
        n as u8,
        (n >> 8u64) as u8,
        (n >> 16u64) as u8,
        (n >> 24u64) as u8,
        (n >> 32u64) as u8,
        (n >> 40u64) as u8,
        (n >> 48u64) as u8,
        (n >> 56u64) as u8,
    ]
}

/// The anonymous id of a user in a guild: the user id, written as eight
/// little-endian bytes, is hashed with XXH64 seeded by the guild's secret,
/// and the digest is folded into the colour range.
pub open spec fn spec_hash_from_user(guild_confession_hash: u64, user: u64) -> u32 {
    spec_to_user(xxh64(guild_confession_hash, le_bytes(user)))
}

/// The anonymous id shown for `user` in the guild whose secret is
/// `guild_confession_hash`.
pub fn get_hash_from_user(guild_confession_hash: u64, user: u64) -> (id: u32)
    ensures
        id == spec_hash_from_user(guild_confession_hash, user),
        id < COLOUR_RANGE,
{
    let bytes: [u8; 8] = [
        user as u8,
        (user >> 8u64) as u8,
        (user >> 16u64) as u8,
        (user >> 24u64) as u8,
        (user >> 32u64) as u8,
        (user >> 40u64) as u8,
        (user >> 48u64) as u8,
        (user >> 56u64) as u8,
    ];
    proof {
        assert(bytes@ =~= le_bytes(user));
    }
    let digest = xxh64_digest(guild_confession_hash, &bytes);
    to_user(digest)
}

/// The anonymous id of a user in a guild is the XXH64 digest of the user id's
/// little-endian bytes, seeded with that guild's secret, whatever the user id,
/// reduced modulo 0xFFFFFF.
pub proof fn lemma_anonymous_id(guild_confession_hash: u64, user: u64)
    ensures
        spec_hash_from_user(guild_confession_hash, user) as int == xxh64(
            guild_confession_hash,
            le_bytes(user),
        ) as int % 16_777_215,
        spec_hash_from_user(guild_confession_hash, user) < 16_777_215,
{
}

/// The bytes hashed for a user id are its eight bytes, least significant
/// first: read back in that order they give the id.
pub proof fn lemma_le_bytes_encode(n: u64)
    ensures
        le_bytes(n).len() == 8,
        n as int == le_bytes(n)[0] as int + 0x100 * le_bytes(n)[1] as int + 0x1_0000 * le_bytes(
            n,
        )[2] as int + 0x100_0000 * le_bytes(n)[3] as int + 0x1_0000_0000 * le_bytes(n)[4] as int
            + 0x100_0000_0000 * le_bytes(n)[5] as int + 0x1_0000_0000_0000 * le_bytes(n)[6] as int
            + 0x100_0000_0000_0000 * le_bytes(n)[7] as int,
{
    let b0 = n as u8;
    let b1 = (n >> 8u64) as u8;
    let b2 = (n >> 16u64) as u8;
    let b3 = (n >> 24u64) as u8;
    let b4 = (n >> 32u64) as u8;
    let b5 = (n >> 40u64) as u8;
    let b6 = (n >> 48u64) as u8;
    let b7 = (n >> 56u64) as u8;
    assert(n == b0 as u64 + 0x100u64 * b1 as u64 + 0x1_0000u64 * b2 as u64 + 0x100_0000u64 * b3 as u64
        + 0x1_0000_0000u64 * b4 as u64 + 0x100_0000_0000u64 * b5 as u64 + 0x1_0000_0000_0000u64
        * b6 as u64 + 0x100_0000_0000_0000u64 * b7 as u64) by (bit_vector)
        requires
            b0 == n as u8,
            b1 == (n >> 8u64) as u8,
            b2 == (n >> 16u64) as u8,
            b3 == (n >> 24u64) as u8,
            b4 == (n >> 32u64) as u8,
            b5 == (n >> 40u64) as u8,
            b6 == (n >> 48u64) as u8,
            b7 == (n >> 56u64) as u8,
    ;
}

} // verus!
