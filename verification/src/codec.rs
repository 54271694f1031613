//! The mirror sync payload: a fixed 4-byte operation selector followed by
//! seven positionally encoded fields, each widened to a 32-byte big-endian
//! word (the identity left-padded to a word, the event hash kept as one).
//!
//! [`sync_payload`] pins every byte of the wire format;
//! [`encode_sync_payload`] builds it.

use vstd::prelude::*;
use crate::identity::Hash256;
use crate::identity::Identity;

verus! {

/// The 4-byte operation selector that opens every mirror notification.
pub open spec fn sync_selector() -> Seq<u8> {
    seq![0x3fu8, 0x10u8, 0x4du8, 0xadu8]
}

/// A run of `n` zero bytes.
pub open spec fn zero_bytes(n: nat) -> Seq<u8> {
    Seq::new(n, |i: int| 0u8)
}

/// The 4 bytes of `x`, big-endian.
pub open spec fn be_bytes_u32(x: u32) -> Seq<u8> {
    seq![
        ((x / 0x1000000) % 256) as u8,
        ((x / 0x10000) % 256) as u8,
        ((x / 0x100) % 256) as u8,
        (x % 256) as u8,
    ]
}

/// The 8 bytes of `x`, big-endian.
pub open spec fn be_bytes_u64(x: u64) -> Seq<u8> {
    seq![
        ((x / 0x100000000000000) % 256) as u8,
        ((x / 0x1000000000000) % 256) as u8,
        ((x / 0x10000000000) % 256) as u8,
        ((x / 0x100000000) % 256) as u8,
        ((x / 0x1000000) % 256) as u8,
        ((x / 0x10000) % 256) as u8,
        ((x / 0x100) % 256) as u8,
        (x % 256) as u8,
    ]
}

/// The 16 bytes of `x`, big-endian.
pub open spec fn be_bytes_u128(x: u128) -> Seq<u8> {
    seq![
        ((x / 0x1000000000000000000000000000000) % 256) as u8,
        ((x / 0x10000000000000000000000000000) % 256) as u8,
        ((x / 0x100000000000000000000000000) % 256) as u8,
        ((x / 0x1000000000000000000000000) % 256) as u8,
        ((x / 0x10000000000000000000000) % 256) as u8,
        ((x / 0x100000000000000000000) % 256) as u8,
        ((x / 0x1000000000000000000) % 256) as u8,
        ((x / 0x10000000000000000) % 256) as u8,
        ((x / 0x100000000000000) % 256) as u8,
        ((x / 0x1000000000000) % 256) as u8,
        ((x / 0x10000000000) % 256) as u8,
        ((x / 0x100000000) % 256) as u8,
        ((x / 0x1000000) % 256) as u8,
        ((x / 0x10000) % 256) as u8,
        ((x / 0x100) % 256) as u8,
        (x % 256) as u8,
    ]
}

/// A 64-bit value widened to a 32-byte big-endian word.
pub open spec fn abi_word_u64(x: u64) -> Seq<u8> {
    zero_bytes(24) + be_bytes_u64(x)
}

/// A 160-bit identity left-padded to a 32-byte word.
pub open spec fn abi_word_identity(id: Identity) -> Seq<u8> {
    zero_bytes(12) + be_bytes_u32(id.hi) + be_bytes_u128(id.lo)
}

/// The 32 bytes of a 256-bit hash.
pub open spec fn hash_bytes(h: Hash256) -> Seq<u8> {
    be_bytes_u128(h.hi) + be_bytes_u128(h.lo)
}

/// Every byte of the mirror notification for one accepted check-in:
/// the selector, then (identity, streak, longest, total, milestones,
/// score, event hash), each field a 32-byte word. 228 bytes in all.
pub open spec fn sync_payload(
    user: Identity,
    streak: u32,
    longest: u32,
    total: u32,
    milestones: u32,
    score: u16,
    prayer_hash: Hash256,
) -> Seq<u8> {
    sync_selector() + abi_word_identity(user) + abi_word_u64(streak as u64) + abi_word_u64(
        longest as u64,
    ) + abi_word_u64(total as u64) + abi_word_u64(milestones as u64) + abi_word_u64(score as u64)
        + hash_bytes(prayer_hash)
}

fn push_zero_bytes(out: &mut Vec<u8>, n: usize)
    ensures
        final(out)@ == old(out)@ + zero_bytes(n as nat),
{
    let ghost pre = out@;
    let mut i: usize = 0;
    while i < n
        invariant
            i <= n,
            out@ == pre + zero_bytes(i as nat),
        decreases n - i,
    {
        out.push(0u8);
        i = i + 1;
        proof {
            assert(zero_bytes(i as nat) =~= zero_bytes((i - 1) as nat).push(0u8));
        }
    }
    proof {
        assert(out@ =~= pre + zero_bytes(n as nat));
    }
}

fn push_be_u32(out: &mut Vec<u8>, x: u32)
    ensures
        final(out)@ == old(out)@ + be_bytes_u32(x),
{
    let ghost pre = out@;
    out.push(((x / 0x1000000) % 256) as u8);
    out.push(((x / 0x10000) % 256) as u8);
    out.push(((x / 0x100) % 256) as u8);
    out.push((x % 256) as u8);
    proof {
        assert(out@ =~= pre + be_bytes_u32(x));
    }
}

fn push_be_u64(out: &mut Vec<u8>, x: u64)
    ensures
        final(out)@ == old(out)@ + be_bytes_u64(x),
{
    let ghost pre = out@;
    out.push(((x / 0x100000000000000) % 256) as u8);
    out.push(((x / 0x1000000000000) % 256) as u8);
    out.push(((x / 0x10000000000) % 256) as u8);
    out.push(((x / 0x100000000) % 256) as u8);
    out.push(((x / 0x1000000) % 256) as u8);
    out.push(((x / 0x10000) % 256) as u8);
    out.push(((x / 0x100) % 256) as u8);
    out.push((x % 256) as u8);
    proof {
        assert(out@ =~= pre + be_bytes_u64(x));
    }
}

fn push_be_u128(out: &mut Vec<u8>, x: u128)
    ensures
        final(out)@ == old(out)@ + be_bytes_u128(x),
{
    let ghost pre = out@;
    out.push(((x / 0x1000000000000000000000000000000) % 256) as u8);
    out.push(((x / 0x10000000000000000000000000000) % 256) as u8);
    out.push(((x / 0x100000000000000000000000000) % 256) as u8);
    out.push(((x / 0x1000000000000000000000000) % 256) as u8);
    out.push(((x / 0x10000000000000000000000) % 256) as u8);
    out.push(((x / 0x100000000000000000000) % 256) as u8);
    out.push(((x / 0x1000000000000000000) % 256) as u8);
    out.push(((x / 0x10000000000000000) % 256) as u8);
    out.push(((x / 0x100000000000000) % 256) as u8);
    out.push(((x / 0x1000000000000) % 256) as u8);
    out.push(((x / 0x10000000000) % 256) as u8);
    out.push(((x / 0x100000000) % 256) as u8);
    out.push(((x / 0x1000000) % 256) as u8);
    out.push(((x / 0x10000) % 256) as u8);
    out.push(((x / 0x100) % 256) as u8);
    out.push((x % 256) as u8);
    proof {
        assert(out@ =~= pre + be_bytes_u128(x));
    }
}

fn push_abi_word_u64(out: &mut Vec<u8>, x: u64)
    ensures
        final(out)@ == old(out)@ + abi_word_u64(x),
{
    let ghost pre = out@;
    push_zero_bytes(out, 24);
    push_be_u64(out, x);
    proof {
        assert(out@ =~= pre + abi_word_u64(x));
    }
}

/// Builds the mirror notification payload, byte for byte as
/// [`sync_payload`] states it.
pub fn encode_sync_payload(
    user: Identity,
    streak: u32,
    longest: u32,
    total: u32,
    milestones: u32,
    score: u16,
    prayer_hash: Hash256,
) -> (r: Vec<u8>)
    ensures
        r@ == sync_payload(user, streak, longest, total, milestones, score, prayer_hash),
{
    let mut out: Vec<u8> = Vec::new();
    out.push(0x3f);
    out.push(0x10);
    out.push(0x4d);
    out.push(0xad);
    proof {
        assert(out@ =~= sync_selector());
    }
    push_zero_bytes(&mut out, 12);
    push_be_u32(&mut out, user.hi);
    push_be_u128(&mut out, user.lo);
    push_abi_word_u64(&mut out, streak as u64);
    push_abi_word_u64(&mut out, longest as u64);
    push_abi_word_u64(&mut out, total as u64);
    push_abi_word_u64(&mut out, milestones as u64);
    push_abi_word_u64(&mut out, score as u64);
    push_be_u128(&mut out, prayer_hash.hi);
    push_be_u128(&mut out, prayer_hash.lo);
    proof {
        assert(out@ =~= sync_payload(user, streak, longest, total, milestones, score, prayer_hash));
    }
    out
}

} // verus!
