//! Byte form of the stored escrow record: the fields in declaration order,
//! integers little-endian, keys as their 32 bytes, the state as a one-byte tag
//! and the settlement time as a one-byte presence tag followed, when present,
//! by its eight bytes; the rest of the account is zero.

use crate::account::le_value;
use crate::error::CardError;
use crate::key::Key;
use crate::state::{Escrow, EscrowState, ESCROW_DATA_SIZE};
use vstd::prelude::*;

verus! {

/// `256` to the power `n`: one more than the largest value `n` bytes hold.
pub open spec fn byte_cap(n: nat) -> int
    decreases n,
{
    if n == 0 {
        1
    } else {
        256 * byte_cap((n - 1) as nat)
    }
}

/// The `n` little-endian bytes of `v`.
pub open spec fn le_bytes(v: int, n: nat) -> Seq<u8>
    decreases n,
{
    if n == 0 {
        seq![]
    } else {
        seq![(v % 256) as u8] + le_bytes(v / 256, (n - 1) as nat)
    }
}

/// Bytes read little-endian stay under the cap of their length.
pub proof fn lemma_le_value_bound(s: Seq<u8>)
    ensures
        0 <= le_value(s) < byte_cap(s.len()),
    decreases s.len(),
{
    if s.len() > 0 {
        lemma_le_value_bound(s.drop_first());
    }
}

/// Reading back the bytes of a value that fits gives the value.
pub proof fn lemma_le_decode_encode(v: int, n: nat)
    requires
        0 <= v < byte_cap(n),
    ensures
        le_bytes(v, n).len() == n,
        le_value(le_bytes(v, n)) == v,
    decreases n,
{
    if n > 0 {
        lemma_le_decode_encode(v / 256, (n - 1) as nat);
        let s = le_bytes(v, n);
        assert(s.drop_first() =~= le_bytes(v / 256, (n - 1) as nat));
    }
}

/// Writing the value read from some bytes gives those bytes back.
pub proof fn lemma_le_encode_decode(s: Seq<u8>)
    ensures
        le_bytes(le_value(s), s.len()) == s,
    decreases s.len(),
{
    if s.len() > 0 {
        lemma_le_value_bound(s.drop_first());
        lemma_le_encode_decode(s.drop_first());
        let v = le_value(s);
        assert(v % 256 == s[0] as int);
        assert(v / 256 == le_value(s.drop_first()));
        assert(le_bytes(v, s.len()) =~= s);
    }
}

/// Appends the `n` little-endian bytes of `v`.
fn push_le(out: &mut Vec<u8>, v: u64, n: usize)
    requires
        n <= 8,
    ensures
        final(out)@ == old(out)@ + le_bytes(v as int, n as nat),
    decreases n,
{
    if n == 0 {
        assert(old(out)@ + le_bytes(v as int, 0) =~= old(out)@);
        return;
    }
    let start = Ghost(out@);
    out.push((v % 256) as u8);
    push_le(out, v / 256, n - 1);
    assert(out@ =~= start@ + le_bytes(v as int, n as nat));
}

/// Reads `n` little-endian bytes starting at `at`.
fn read_le(src: &[u8], at: usize, n: usize) -> (r: u64)
    requires
        n <= 8,
        at + n <= src@.len() <= usize::MAX,
    ensures
        r == le_value(src@.subrange(at as int, at + n)),
    decreases n,
{
    if n == 0 {
        return 0;
    }
    let rest = read_le(src, at + 1, n - 1);
    proof {
        let s = src@.subrange(at as int, at + n);
        assert(s.drop_first() =~= src@.subrange(at + 1, at + n));
        lemma_le_value_bound(src@.subrange(at + 1, at + n));
        assert(byte_cap((n - 1) as nat) <= byte_cap(7)) by {
            lemma_byte_cap_mono((n - 1) as nat, 7);
        }
        reveal_with_fuel(byte_cap, 8);
        assert(byte_cap(7) == 72057594037927936);
    }
    src[at] as u64 + 256 * rest
}

/// The cap grows with the length.
proof fn lemma_byte_cap_mono(a: nat, b: nat)
    requires
        a <= b,
    ensures
        1 <= byte_cap(a) <= byte_cap(b),
    decreases b,
{
    if b > 0 {
        if a < b {
            lemma_byte_cap_mono(a, (b - 1) as nat);
        } else {
            lemma_byte_cap_mono((b - 1) as nat, (b - 1) as nat);
        }
    }
}

/// Appends the 32 bytes of a key.
fn push_key(out: &mut Vec<u8>, k: &Key)
    ensures
        final(out)@ == old(out)@ + k@,
{
    let start = Ghost(out@);
    let mut i: usize = 0;
    while i < 32
        invariant
            i <= 32,
            k@.len() == 32,
            out@ == start@ + k@.subrange(0, i as int),
        decreases 32 - i,
    {
        out.push(k.0[i]);
        assert(k@.subrange(0, i + 1) =~= k@.subrange(0, i as int).push(k@[i as int]));
        i = i + 1;
    }
    assert(k@.subrange(0, 32) =~= k@);
}

/// Reads the 32 bytes of a key starting at `at`.
fn read_key(src: &[u8], at: usize) -> (k: Key)
    requires
        at + 32 <= src@.len() <= usize::MAX,
    ensures
        k@ == src@.subrange(at as int, at + 32),
{
    let mut bytes = [0u8; 32];
    let mut i: usize = 0;
    while i < 32
        invariant
            i <= 32,
            at + 32 <= src@.len() <= usize::MAX,
            bytes@.len() == 32,
            forall|j: int| 0 <= j < i ==> bytes@[j] == src@[at + j],
        decreases 32 - i,
    {
        bytes[i] = src[at + i];
        i = i + 1;
    }
    assert(bytes@ =~= src@.subrange(at as int, at + 32));
    Key(bytes)
}

/// The tag byte of a lifecycle state.
pub open spec fn state_tag(s: EscrowState) -> u8 {
    match s {
        EscrowState::Uninitialized => 0,
        EscrowState::Initialized => 1,
        EscrowState::Settled => 2,
        EscrowState::Canceled => 3,
        EscrowState::Closed => 4,
    }
}

/// The bytes of an optional time: a presence tag, then the time if present.
pub open spec fn time_bytes(t: Option<u64>) -> Seq<u8> {
    match t {
        None => seq![0u8],
        Some(v) => seq![1u8] + le_bytes(v as int, 8),
    }
}

/// The bytes of an escrow record, before the zero padding.
pub open spec fn escrow_bytes(e: Escrow) -> Seq<u8> {
    seq![state_tag(e.state)] + le_bytes(e.amount as int, 8) + le_bytes(e.fee_bps as int, 2)
        + le_bytes(e.fixed_fee as int, 8) + e.src_token@ + e.dst_token@ + e.vault_token@
        + e.fee_token@ + e.mint@ + e.authority@ + seq![e.vault_bump] + e.reference@ + time_bytes(
        e.settled_at,
    )
}

/// Stored bytes that decode: the record's size, a known state tag at byte 0 and
/// a presence tag of 0 or 1 at byte 244.
pub open spec fn escrow_layout_valid(d: Seq<u8>) -> bool {
    &&& d.len() == ESCROW_DATA_SIZE
    &&& d[0] <= 4
    &&& d[244] <= 1
}

/// Two records hold the same values, keys compared by their bytes.
pub open spec fn same_record(a: Escrow, b: Escrow) -> bool {
    &&& a.state == b.state
    &&& a.amount == b.amount
    &&& a.fee_bps == b.fee_bps
    &&& a.fixed_fee == b.fixed_fee
    &&& a.src_token@ == b.src_token@
    &&& a.dst_token@ == b.dst_token@
    &&& a.vault_token@ == b.vault_token@
    &&& a.fee_token@ == b.fee_token@
    &&& a.mint@ == b.mint@
    &&& a.authority@ == b.authority@
    &&& a.vault_bump == b.vault_bump
    &&& a.reference@ == b.reference@
    &&& a.settled_at == b.settled_at
}

impl Escrow {
    /// The stored bytes of the record: its encoding, then zeros up to the
    /// record's size.
    pub fn pack(&self) -> (r: Vec<u8>)
        ensures
            r@.len() == ESCROW_DATA_SIZE,
            r@.subrange(0, escrow_bytes(*self).len() as int) == escrow_bytes(*self),
            forall|i: int| escrow_bytes(*self).len() <= i < ESCROW_DATA_SIZE ==> r@[i] == 0,
    {
        let mut out: Vec<u8> = Vec::new();
        let tag: u8 = match self.state {
            EscrowState::Uninitialized => 0,
            EscrowState::Initialized => 1,
            EscrowState::Settled => 2,
            EscrowState::Canceled => 3,
            EscrowState::Closed => 4,
        };
        out.push(tag);
        push_le(&mut out, self.amount, 8);
        push_le(&mut out, self.fee_bps as u64, 2);
        push_le(&mut out, self.fixed_fee, 8);
        push_key(&mut out, &self.src_token);
        push_key(&mut out, &self.dst_token);
        push_key(&mut out, &self.vault_token);
        push_key(&mut out, &self.fee_token);
        push_key(&mut out, &self.mint);
        push_key(&mut out, &self.authority);
        out.push(self.vault_bump);
        push_key(&mut out, &self.reference);
        match self.settled_at {
            None => {
                out.push(0);
            },
            Some(t) => {
                out.push(1);
                push_le(&mut out, t, 8);
                assert(seq![1u8] + le_bytes(t as int, 8) =~= seq![1u8].add(le_bytes(t as int, 8)));
            },
        }
        proof {
            lemma_escrow_bytes_len(*self);
            assert(out@ =~= escrow_bytes(*self));
        }
        let filled = Ghost(out@);
        assert(out@.subrange(0, filled@.len() as int) =~= filled@);
        while out.len() < ESCROW_DATA_SIZE
            invariant
                filled@.len() <= out@.len() <= ESCROW_DATA_SIZE,
                out@.subrange(0, filled@.len() as int) == filled@,
                forall|i: int| filled@.len() <= i < out@.len() ==> out@[i] == 0,
            decreases ESCROW_DATA_SIZE - out@.len(),
        {
            out.push(0);
            assert(out@.subrange(0, filled@.len() as int) =~= filled@);
        }
        out
    }

    /// Decodes a stored record. Fails with `InvalidAccountData` unless the
    /// bytes are the record's size with a known state tag and a valid presence
    /// tag; bytes past the encoding are not read.
    pub fn unpack_from_slice(src: &[u8]) -> (r: Result<Escrow, CardError>)
        ensures
            r is Ok <==> escrow_layout_valid(src@),
            r is Err ==> r == Err::<Escrow, CardError>(CardError::InvalidAccountData),
            r matches Ok(e) ==> escrow_bytes(e) == src@.subrange(0, escrow_bytes(e).len() as int),
    {
        if src.len() != ESCROW_DATA_SIZE {
            return Err(CardError::InvalidAccountData);
        }
        let state = match src[0] {
            0 => EscrowState::Uninitialized,
            1 => EscrowState::Initialized,
            2 => EscrowState::Settled,
            3 => EscrowState::Canceled,
            4 => EscrowState::Closed,
            _ => {
                return Err(CardError::InvalidAccountData);
            },
        };
        let settled_at = match src[244] {
            0 => None,
            1 => Some(read_le(src, 245, 8)),
            _ => {
                return Err(CardError::InvalidAccountData);
            },
        };
        let amount = read_le(src, 1, 8);
        let fee_bps_wide = read_le(src, 9, 2);
        proof {
            lemma_le_value_bound(src@.subrange(9, 11));
            reveal_with_fuel(byte_cap, 3);
        }
        let e = Escrow {
            state,
            amount,
            fee_bps: fee_bps_wide as u16,
            fixed_fee: read_le(src, 11, 8),
            src_token: read_key(src, 19),
            dst_token: read_key(src, 51),
            vault_token: read_key(src, 83),
            fee_token: read_key(src, 115),
            mint: read_key(src, 147),
            authority: read_key(src, 179),
            vault_bump: src[211],
            reference: read_key(src, 212),
            settled_at,
        };
        proof {
            let d = src@;
            lemma_le_encode_decode(d.subrange(1, 9));
            lemma_le_encode_decode(d.subrange(9, 11));
            lemma_le_encode_decode(d.subrange(11, 19));
            lemma_escrow_bytes_len(e);
            if settled_at is Some {
                lemma_le_encode_decode(d.subrange(245, 253));
                assert(time_bytes(e.settled_at) =~= d.subrange(244, 253));
            } else {
                assert(time_bytes(e.settled_at) =~= d.subrange(244, 245));
            }
            assert(escrow_bytes(e) =~= d.subrange(0, escrow_bytes(e).len() as int));
        }
        Ok(e)
    }
}

/// The length of a record's encoding: 253 bytes with a settlement time, 245
/// without.
pub proof fn lemma_escrow_bytes_len(e: Escrow)
    ensures
        escrow_bytes(e).len() == if e.settled_at is Some { 253int } else { 245int },
        escrow_bytes(e).len() <= ESCROW_DATA_SIZE,
{
    lemma_le_decode_encode_len(e.amount as int, 8);
    lemma_le_decode_encode_len(e.fee_bps as int, 2);
    lemma_le_decode_encode_len(e.fixed_fee as int, 8);
    if let Some(t) = e.settled_at {
        lemma_le_decode_encode_len(t as int, 8);
    }
}

/// `le_bytes` has the length asked for.
pub proof fn lemma_le_decode_encode_len(v: int, n: nat)
    ensures
        le_bytes(v, n).len() == n,
    decreases n,
{
    if n > 0 {
        lemma_le_decode_encode_len(v / 256, (n - 1) as nat);
    }
}

/// Where each field sits in a record's encoding.
pub proof fn lemma_escrow_bytes_layout(e: Escrow)
    ensures
        escrow_bytes(e).len() == if e.settled_at is Some { 253int } else { 245int },
        escrow_bytes(e)[0] == state_tag(e.state),
        escrow_bytes(e).subrange(1, 9) == le_bytes(e.amount as int, 8),
        escrow_bytes(e).subrange(9, 11) == le_bytes(e.fee_bps as int, 2),
        escrow_bytes(e).subrange(11, 19) == le_bytes(e.fixed_fee as int, 8),
        escrow_bytes(e).subrange(19, 51) == e.src_token@,
        escrow_bytes(e).subrange(51, 83) == e.dst_token@,
        escrow_bytes(e).subrange(83, 115) == e.vault_token@,
        escrow_bytes(e).subrange(115, 147) == e.fee_token@,
        escrow_bytes(e).subrange(147, 179) == e.mint@,
        escrow_bytes(e).subrange(179, 211) == e.authority@,
        escrow_bytes(e)[211] == e.vault_bump,
        escrow_bytes(e).subrange(212, 244) == e.reference@,
        escrow_bytes(e).subrange(244, escrow_bytes(e).len() as int) == time_bytes(e.settled_at),
{
    lemma_le_decode_encode_len(e.amount as int, 8);
    lemma_le_decode_encode_len(e.fee_bps as int, 2);
    lemma_le_decode_encode_len(e.fixed_fee as int, 8);
    if let Some(t) = e.settled_at {
        lemma_le_decode_encode_len(t as int, 8);
    }
    assert(e.src_token@.len() == 32);
    assert(e.dst_token@.len() == 32);
    assert(e.vault_token@.len() == 32);
    assert(e.fee_token@.len() == 32);
    assert(e.mint@.len() == 32);
    assert(e.authority@.len() == 32);
    assert(e.reference@.len() == 32);
    let with_amount = seq![state_tag(e.state)] + le_bytes(e.amount as int, 8);
    let with_fee_bps = with_amount + le_bytes(e.fee_bps as int, 2);
    let with_fixed_fee = with_fee_bps + le_bytes(e.fixed_fee as int, 8);
    let with_src = with_fixed_fee + e.src_token@;
    let with_dst = with_src + e.dst_token@;
    let with_vault = with_dst + e.vault_token@;
    let with_fee_token = with_vault + e.fee_token@;
    let with_mint = with_fee_token + e.mint@;
    let with_authority = with_mint + e.authority@;
    let with_bump = with_authority + seq![e.vault_bump];
    let with_reference = with_bump + e.reference@;
    let b = with_reference + time_bytes(e.settled_at);
    assert(b == escrow_bytes(e));
    assert(b.subrange(0, 244) =~= with_reference);
    assert(with_reference.subrange(0, 212) =~= with_bump);
    assert(with_bump.subrange(0, 211) =~= with_authority);
    assert(with_authority.subrange(0, 179) =~= with_mint);
    assert(with_mint.subrange(0, 147) =~= with_fee_token);
    assert(with_fee_token.subrange(0, 115) =~= with_vault);
    assert(with_vault.subrange(0, 83) =~= with_dst);
    assert(with_dst.subrange(0, 51) =~= with_src);
    assert(with_src.subrange(0, 19) =~= with_fixed_fee);
    assert(with_fixed_fee.subrange(0, 11) =~= with_fee_bps);
    assert(with_fee_bps.subrange(0, 9) =~= with_amount);
    assert(b.subrange(244, b.len() as int) =~= time_bytes(e.settled_at));
    assert(with_reference.subrange(212, 244) =~= e.reference@);
    assert(b.subrange(212, 244) =~= e.reference@);
    assert(with_authority.subrange(179, 211) =~= e.authority@);
    assert(b.subrange(179, 211) =~= e.authority@);
    assert(with_mint.subrange(147, 179) =~= e.mint@);
    assert(b.subrange(147, 179) =~= e.mint@);
    assert(with_fee_token.subrange(115, 147) =~= e.fee_token@);
    assert(b.subrange(115, 147) =~= e.fee_token@);
    assert(with_vault.subrange(83, 115) =~= e.vault_token@);
    assert(b.subrange(83, 115) =~= e.vault_token@);
    assert(with_dst.subrange(51, 83) =~= e.dst_token@);
    assert(b.subrange(51, 83) =~= e.dst_token@);
    assert(with_src.subrange(19, 51) =~= e.src_token@);
    assert(b.subrange(19, 51) =~= e.src_token@);
    assert(with_fixed_fee.subrange(11, 19) =~= le_bytes(e.fixed_fee as int, 8));
    assert(b.subrange(11, 19) =~= le_bytes(e.fixed_fee as int, 8));
    assert(with_fee_bps.subrange(9, 11) =~= le_bytes(e.fee_bps as int, 2));
    assert(b.subrange(9, 11) =~= le_bytes(e.fee_bps as int, 2));
    assert(with_amount.subrange(1, 9) =~= le_bytes(e.amount as int, 8));
    assert(b.subrange(1, 9) =~= le_bytes(e.amount as int, 8));
    assert(b[211] == with_bump[211]);
    assert(b[0] == with_amount[0]);
}

/// A stored record reads back as the record that was stored: bytes that begin
/// with a record's encoding decode, and any record whose encoding also begins
/// them holds the same values.
pub proof fn lemma_escrow_round_trip(e: Escrow, stored: Seq<u8>, back: Escrow)
    requires
        stored.len() == ESCROW_DATA_SIZE,
        stored.subrange(0, escrow_bytes(e).len() as int) == escrow_bytes(e),
        escrow_bytes(back) == stored.subrange(0, escrow_bytes(back).len() as int),
    ensures
        escrow_layout_valid(stored),
        same_record(back, e),
{
    lemma_escrow_bytes_layout(e);
    lemma_escrow_bytes_layout(back);
    let be = escrow_bytes(e);
    let bb = escrow_bytes(back);
    assert(stored[0] == be[0]);
    assert(stored[0] == bb[0]);
    assert(stored[244] == be[244]);
    assert(stored[244] == bb[244]);
    assert(be[244] == time_bytes(e.settled_at)[0]);
    assert(bb[244] == time_bytes(back.settled_at)[0]);
    assert(stored[211] == be[211]);
    assert(stored[211] == bb[211]);
    assert(be.subrange(1, 9) =~= stored.subrange(1, 9));
    assert(bb.subrange(1, 9) =~= stored.subrange(1, 9));
    assert(be.subrange(9, 11) =~= stored.subrange(9, 11));
    assert(bb.subrange(9, 11) =~= stored.subrange(9, 11));
    assert(be.subrange(11, 19) =~= stored.subrange(11, 19));
    assert(bb.subrange(11, 19) =~= stored.subrange(11, 19));
    assert(be.subrange(19, 51) =~= stored.subrange(19, 51));
    assert(bb.subrange(19, 51) =~= stored.subrange(19, 51));
    assert(be.subrange(51, 83) =~= stored.subrange(51, 83));
    assert(bb.subrange(51, 83) =~= stored.subrange(51, 83));
    assert(be.subrange(83, 115) =~= stored.subrange(83, 115));
    assert(bb.subrange(83, 115) =~= stored.subrange(83, 115));
    assert(be.subrange(115, 147) =~= stored.subrange(115, 147));
    assert(bb.subrange(115, 147) =~= stored.subrange(115, 147));
    assert(be.subrange(147, 179) =~= stored.subrange(147, 179));
    assert(bb.subrange(147, 179) =~= stored.subrange(147, 179));
    assert(be.subrange(179, 211) =~= stored.subrange(179, 211));
    assert(bb.subrange(179, 211) =~= stored.subrange(179, 211));
    assert(be.subrange(212, 244) =~= stored.subrange(212, 244));
    assert(bb.subrange(212, 244) =~= stored.subrange(212, 244));
    reveal_with_fuel(byte_cap, 9);
    lemma_le_decode_encode(e.amount as int, 8);
    lemma_le_decode_encode(back.amount as int, 8);
    lemma_le_decode_encode(e.fee_bps as int, 2);
    lemma_le_decode_encode(back.fee_bps as int, 2);
    lemma_le_decode_encode(e.fixed_fee as int, 8);
    lemma_le_decode_encode(back.fixed_fee as int, 8);
    assert(state_tag(e.state) == state_tag(back.state));
    if e.settled_at is Some {
        let te = e.settled_at->Some_0;
        let tb = back.settled_at->Some_0;
        assert(time_bytes(e.settled_at).subrange(1, 9) =~= le_bytes(te as int, 8));
        assert(time_bytes(back.settled_at).subrange(1, 9) =~= le_bytes(tb as int, 8));
        assert(be.subrange(245, 253) =~= stored.subrange(245, 253));
        assert(bb.subrange(245, 253) =~= stored.subrange(245, 253));
        assert(be.subrange(245, 253) =~= time_bytes(e.settled_at).subrange(1, 9));
        assert(bb.subrange(245, 253) =~= time_bytes(back.settled_at).subrange(1, 9));
        lemma_le_decode_encode(te as int, 8);
        lemma_le_decode_encode(tb as int, 8);
    }
}

} // verus!
