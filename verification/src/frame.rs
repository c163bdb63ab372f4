//! Framing for the bridge connection.
//!
//! A bridged capture source streams raw packets over a local byte
//! connection, so both ends must agree on where one packet ends and the
//! next begins. A frame is a 32-bit big-endian length prefix followed by
//! that many payload bytes; a byte stream is a concatenation of frames,
//! possibly ending in an incomplete residue still in flight.

use vstd::arithmetic::div_mod::{
    lemma_div_denominator,
    lemma_fundamental_div_mod,
    lemma_multiply_divide_lt,
    lemma_small_mod,
};
use vstd::prelude::*;

verus! {

/// Whether a payload fits in one frame: its length must fit the 32-bit
/// length prefix.
pub open spec fn fits_frame(p: Seq<u8>) -> bool {
    p.len() < 0x100000000
}

/// The value of a stream's big-endian 32-bit length prefix.
pub open spec fn prefix_value(b: Seq<u8>) -> nat
    recommends
        b.len() >= 4,
{
    (b[0] as nat) * 0x1000000 + (b[1] as nat) * 0x10000 + (b[2] as nat) * 0x100 + (b[3] as nat)
}

/// The big-endian 32-bit length prefix for a payload of `n` bytes.
pub open spec fn length_prefix(n: nat) -> Seq<u8>
    recommends
        n < 0x100000000,
{
    seq![
        (n / 0x1000000 % 0x100) as u8,
        (n / 0x10000 % 0x100) as u8,
        (n / 0x100 % 0x100) as u8,
        (n % 0x100) as u8,
    ]
}

/// One payload as it travels over the bridge: its length, then its bytes.
pub open spec fn frame_of(p: Seq<u8>) -> Seq<u8>
    recommends
        fits_frame(p),
{
    length_prefix(p.len()) + p
}

/// The frames of a packet sequence, concatenated in order.
pub open spec fn frames_of(ps: Seq<Seq<u8>>) -> Seq<u8>
    decreases ps.len(),
{
    if ps.len() == 0 {
        Seq::<u8>::empty()
    } else {
        frame_of(ps.first()) + frames_of(ps.drop_first())
    }
}

/// Split a byte stream into the complete frames it starts with, in order,
/// and the incomplete residue that follows them.
pub open spec fn parse_frames(b: Seq<u8>) -> (Seq<Seq<u8>>, Seq<u8>)
    decreases b.len(),
{
    if b.len() < 4 {
        (Seq::<Seq<u8>>::empty(), b)
    } else {
        let n = prefix_value(b) as int;
        if b.len() < 4 + n {
            (Seq::<Seq<u8>>::empty(), b)
        } else {
            let rec = parse_frames(b.skip(4 + n));
            (seq![b.subrange(4, 4 + n)] + rec.0, rec.1)
        }
    }
}

/// Wrap one packet for transport over the bridge connection.
pub fn encode_frame(packet: &[u8]) -> (r: Vec<u8>)
    requires
        fits_frame(packet@),
    ensures
        r@ == frame_of(packet@),
{
    let n = packet.len();
    let mut r: Vec<u8> = Vec::new();
    r.push((n / 0x1000000 % 0x100) as u8);
    r.push((n / 0x10000 % 0x100) as u8);
    r.push((n / 0x100 % 0x100) as u8);
    r.push((n % 0x100) as u8);
    proof {
        assert(r@ =~= length_prefix(packet@.len()));
    }
    let mut i: usize = 0;
    while i < packet.len()
        invariant
            i <= packet@.len(),
            r@ == length_prefix(packet@.len()) + packet@.subrange(0, i as int),
        decreases packet@.len() - i,
    {
        r.push(packet[i]);
        proof {
            assert(packet@.subrange(0, i + 1 as int) =~= packet@.subrange(0, i as int).push(
                packet@[i as int],
            ));
        }
        i = i + 1;
    }
    proof {
        assert(packet@.subrange(0, packet@.len() as int) =~= packet@);
    }
    r
}

/// The length prefix decodes to the length it encodes.
pub proof fn lemma_prefix_value(n: nat)
    requires
        n < 0x100000000,
    ensures
        length_prefix(n).len() == 4,
        prefix_value(length_prefix(n)) == n,
{
    let x = n as int;
    lemma_fundamental_div_mod(x, 0x100);
    lemma_fundamental_div_mod(x / 0x100, 0x100);
    lemma_fundamental_div_mod(x / 0x100 / 0x100, 0x100);
    lemma_div_denominator(x, 0x100, 0x100);
    lemma_div_denominator(x, 0x10000, 0x100);
    lemma_div_denominator(x / 0x100, 0x100, 0x100);
    lemma_multiply_divide_lt(x, 0x1000000, 0x100);
    lemma_small_mod((x / 0x1000000) as nat, 0x100);
    assert(x == 0x1000000 * (x / 0x1000000) + 0x10000 * (x / 0x10000 % 0x100) + 0x100 * (x / 0x100
        % 0x100) + x % 0x100);
}

/// Parsing a stream that starts with a complete frame yields that frame's
/// payload first and parses the rest on its own.
pub proof fn lemma_parse_frame_prepend(p: Seq<u8>, rest: Seq<u8>)
    requires
        fits_frame(p),
    ensures
        parse_frames(frame_of(p) + rest).0 == seq![p] + parse_frames(rest).0,
        parse_frames(frame_of(p) + rest).1 == parse_frames(rest).1,
{
    let b = frame_of(p) + rest;
    lemma_prefix_value(p.len());
    assert(b.subrange(0, 4) =~= length_prefix(p.len()));
    assert(prefix_value(b) == prefix_value(length_prefix(p.len())));
    let n = p.len() as int;
    assert(b.len() >= 4 + n);
    assert(b.subrange(4, 4 + n) =~= p);
    assert(b.skip(4 + n) =~= rest);
}

/// Law: a stream that carries exactly the frames of packets `ps`, each of
/// which fits a frame, parses back to `ps` itself — same packets, same
/// order, nothing lost, nothing duplicated, and no residue left over.
pub proof fn lemma_parse_frames_of(ps: Seq<Seq<u8>>)
    requires
        forall|i: int| 0 <= i < ps.len() ==> fits_frame(#[trigger] ps[i]),
    ensures
        parse_frames(frames_of(ps)).0 == ps,
        parse_frames(frames_of(ps)).1 == Seq::<u8>::empty(),
    decreases ps.len(),
{
    if ps.len() == 0 {
        assert(frames_of(ps).len() == 0);
        assert(frames_of(ps) =~= Seq::<u8>::empty());
        assert(parse_frames(frames_of(ps)).0 =~= ps);
    } else {
        lemma_parse_frames_of(ps.drop_first());
        lemma_parse_frame_prepend(ps.first(), frames_of(ps.drop_first()));
        assert(seq![ps.first()] + ps.drop_first() =~= ps);
    }
}

} // verus!
