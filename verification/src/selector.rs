use vstd::prelude::*;

use crate::error::Error;

verus! {

/// The SHA3-256 digest of a byte string, as the external hasher computes
/// it. The digest is a function of the input bytes alone.
pub uninterp spec fn sha3_256_of(input: Seq<u8>) -> Seq<u8>;

/// Relies on tiny_keccak's `Sha3::v256` with `Hasher::update` and
/// `Hasher::finalize`: one update followed by a finalize into a 32-byte
/// buffer yields the SHA3-256 digest of the input, which depends on the
/// input bytes alone and is exactly 32 bytes long.
#[verifier::external_body]
fn sha3_256(input: &[u8]) -> (r: [u8; 32])
    ensures
        r@ == sha3_256_of(input@),
{
    let mut sha3 = tiny_keccak::Sha3::v256();
    tiny_keccak::Hasher::update(&mut sha3, input);
    let mut out = [0u8; 32];
    tiny_keccak::Hasher::finalize(sha3, &mut out);
    out
}

/// The decimal digits of `n`, most significant first, with no sign and no
/// leading zeros (a single `'0'` for zero).
pub open spec fn decimal_of(n: nat) -> Seq<u8>
    decreases n,
{
    if n < 10 {
        seq![(48 + n) as u8]
    } else {
        decimal_of(n / 10).push((48 + n % 10) as u8)
    }
}

/// Appends the decimal digits of `n` to `out`.
fn push_decimal_digits(n: u64, out: &mut Vec<u8>)
    ensures
        final(out)@ == old(out)@ + decimal_of(n as nat),
    decreases n,
{
    if n < 10 {
        out.push(48 + n as u8);
        proof {
            assert(out@ =~= old(out)@ + decimal_of(n as nat));
        }
    } else {
        push_decimal_digits(n / 10, out);
        out.push(48 + (n % 10) as u8);
        proof {
            assert(out@ =~= old(out)@ + decimal_of(n as nat));
        }
    }
}

/// The decimal string form of `n`, as bytes.
pub fn u64_decimal(n: u64) -> (r: Vec<u8>)
    ensures
        r@ == decimal_of(n as nat),
{
    let mut out: Vec<u8> = Vec::new();
    push_decimal_digits(n, &mut out);
    proof {
        assert(out@ =~= decimal_of(n as nat));
    }
    out
}

/// The first eight bytes of `bytes` read as a big-endian unsigned integer.
pub open spec fn be_u64_of(bytes: Seq<u8>) -> nat {
    (bytes[0] * 0x100_0000_0000_0000 + bytes[1] * 0x1_0000_0000_0000 + bytes[2]
        * 0x100_0000_0000 + bytes[3] * 0x1_0000_0000 + bytes[4] * 0x100_0000 + bytes[5]
        * 0x1_0000 + bytes[6] * 0x100 + bytes[7]) as nat
}

/// Reads the first eight bytes of `bytes` as a big-endian unsigned 64-bit
/// integer.
pub fn bytes_to_u64(bytes: &[u8]) -> (r: u64)
    requires
        bytes@.len() >= 8,
    ensures
        r == be_u64_of(bytes@),
{
    let b0 = bytes[0] as u64;
    let b1 = bytes[1] as u64;
    let b2 = bytes[2] as u64;
    let b3 = bytes[3] as u64;
    let b4 = bytes[4] as u64;
    let b5 = bytes[5] as u64;
    let b6 = bytes[6] as u64;
    let b7 = bytes[7] as u64;
    b0 * 0x100_0000_0000_0000 + b1 * 0x1_0000_0000_0000 + b2 * 0x100_0000_0000 + b3
        * 0x1_0000_0000 + b4 * 0x100_0000 + b5 * 0x1_0000 + b6 * 0x100 + b7
}

/// The pseudo-random draw value for a draw at `draw_time`: the first eight
/// digest bytes of the SHA3-256 hash of the time's decimal form, read
/// big-endian.
pub open spec fn draw_hash_of(draw_time: u64) -> nat {
    be_u64_of(sha3_256_of(decimal_of(draw_time as nat)))
}

/// The winning ticket index for a draw at `draw_time` over `ticket_count`
/// sold tickets.
pub open spec fn winner_index_of(ticket_count: u64, draw_time: u64) -> nat
    recommends
        ticket_count > 0,
{
    draw_hash_of(draw_time) % (ticket_count as nat)
}

/// Derives the winning ticket index in `[0, ticket_count)` from the draw
/// time. The result is a pure function of the two arguments, so a repeated
/// call with the same count and time always yields the same index. A draw
/// over zero tickets is refused rather than left to fault on the modulus.
pub fn select_winner(ticket_count: u64, draw_time: u64) -> (r: Result<u64, Error>)
    ensures
        ticket_count == 0 ==> r == Err::<u64, Error>(Error::WinnerError),
        ticket_count > 0 ==> (r matches Ok(w) && w == winner_index_of(ticket_count, draw_time)
            && w < ticket_count),
{
    if ticket_count == 0 {
        return Err(Error::WinnerError);
    }
    let digits = u64_decimal(draw_time);
    let digest = sha3_256(digits.as_slice());
    let hash_number = bytes_to_u64(digest.as_slice());
    Ok(hash_number % ticket_count)
}

/// The draw is deterministic: any two results that `select_winner`'s
/// contract admits for one ticket count and one draw time are the same
/// result.
pub proof fn lemma_draw_deterministic(
    ticket_count: u64,
    draw_time: u64,
    r1: Result<u64, Error>,
    r2: Result<u64, Error>,
)
    requires
        ticket_count > 0,
        r1 matches Ok(w1) && w1 == winner_index_of(ticket_count, draw_time),
        r2 matches Ok(w2) && w2 == winner_index_of(ticket_count, draw_time),
    ensures
        r1 == r2,
{
}

} // verus!
