//! Terminated text for the native ABI.
//!
//! The native engine takes text as a pointer to a null-terminated byte
//! sequence. [`c_text`] is the model of that hand-over: the bytes the callee
//! reads are the caller's bytes up to (and excluding) the first terminator
//! byte, so an input holding an embedded terminator is truncated
//! deterministically at that point. The executable helpers materialize and
//! read back such sequences, and the lemmas prove the round trip: reading
//! from where a string was placed, up to the terminator, yields exactly the
//! truncated bytes of that string.

use vstd::prelude::*;

verus! {

/// The bytes the native callee reads from a terminated buffer: the prefix of
/// `bytes` before the first zero byte (all of `bytes` when none occurs).
pub open spec fn c_text(bytes: Seq<u8>) -> Seq<u8>
    decreases bytes.len(),
{
    if bytes.len() == 0 {
        bytes
    } else if bytes[0] == 0 {
        Seq::empty()
    } else {
        seq![bytes[0]] + c_text(bytes.drop_first())
    }
}

/// `c_text(b)` is `b.take(i)` whenever `i` marks the first zero byte of `b`
/// (or the end of `b`, when `b` holds none).
pub proof fn lemma_c_text_characterize(b: Seq<u8>, i: int)
    requires
        0 <= i <= b.len(),
        forall|j: int| 0 <= j < i ==> b[j] != 0,
        i == b.len() || b[i] == 0,
    ensures
        c_text(b) == b.take(i),
    decreases b.len(),
{
    if b.len() == 0 {
        assert(c_text(b) =~= b.take(i));
    } else if i == 0 {
        assert(b[0] == 0);
        assert(c_text(b) =~= b.take(0));
    } else {
        assert(b[0] != 0);
        let t = b.drop_first();
        assert(forall|j: int| 0 <= j < i - 1 ==> t[j] == b[j + 1] && t[j] != 0);
        assert(i - 1 == t.len() || t[i - 1] == 0);
        lemma_c_text_characterize(t, i - 1);
        assert(seq![b[0]] + t.take(i - 1) =~= b.take(i));
    }
}

/// The truncated text holds no terminator byte.
pub proof fn lemma_c_text_has_no_nul(b: Seq<u8>)
    ensures
        forall|j: int| 0 <= j < c_text(b).len() ==> c_text(b)[j] != 0,
    decreases b.len(),
{
    if b.len() == 0 {
    } else if b[0] == 0 {
    } else {
        let t = b.drop_first();
        lemma_c_text_has_no_nul(t);
        assert(c_text(b) == seq![b[0]] + c_text(t));
        assert forall|j: int| 0 <= j < c_text(b).len() implies c_text(b)[j] != 0 by {
            if j > 0 {
                assert(c_text(b)[j] == c_text(t)[j - 1]);
            }
        }
    }
}

/// When `b` holds no terminator byte, the truncation is the identity.
pub proof fn lemma_c_text_of_clean(b: Seq<u8>)
    requires
        forall|j: int| 0 <= j < b.len() ==> b[j] != 0,
    ensures
        c_text(b) == b,
    decreases b.len(),
{
    lemma_c_text_characterize(b, b.len() as int);
    assert(b.take(b.len() as int) =~= b);
}

/// Round trip of the scratch discipline: place the truncated bytes of an
/// input and a terminator after any prefix, then read from where they begin;
/// what comes back is exactly the truncated bytes of the input.
pub proof fn lemma_scratch_round_trip(pre: Seq<u8>, bytes: Seq<u8>)
    ensures
        c_text((pre + c_text(bytes) + seq![0u8]).skip(pre.len() as int)) == c_text(bytes),
{
    let placed = pre + c_text(bytes) + seq![0u8];
    let tail = placed.skip(pre.len() as int);
    assert(tail =~= c_text(bytes) + seq![0u8]);
    lemma_c_text_has_no_nul(bytes);
    assert(forall|j: int| 0 <= j < c_text(bytes).len() ==> tail[j] != 0);
    assert(tail[c_text(bytes).len() as int] == 0);
    lemma_c_text_characterize(tail, c_text(bytes).len() as int);
    assert(tail.take(c_text(bytes).len() as int) =~= c_text(bytes));
}

/// Appends the truncated bytes of `bytes` and one terminator byte to `buf`.
pub fn append_terminated(buf: &mut Vec<u8>, bytes: &[u8])
    ensures
        final(buf)@ == old(buf)@ + c_text(bytes@) + seq![0u8],
{
    let ghost pre = buf@;
    let mut i: usize = 0;
    while i < bytes.len() && bytes[i] != 0
        invariant
            i <= bytes@.len(),
            forall|j: int| 0 <= j < i ==> bytes@[j] != 0,
            buf@ == pre + bytes@.take(i as int),
        decreases bytes@.len() - i,
    {
        let b = bytes[i];
        buf.push(b);
        assert(pre + bytes@.take(i as int) + seq![bytes@[i as int]] =~= pre + bytes@.take(
            i as int + 1,
        ));
        i = i + 1;
    }
    proof {
        lemma_c_text_characterize(bytes@, i as int);
    }
    buf.push(0);
    assert(pre + bytes@.take(i as int) + seq![0u8] =~= pre + c_text(bytes@) + seq![0u8]);
}

/// The truncated bytes of `bytes`, as a one-shot native string holds them:
/// everything before the first terminator byte, without the terminator.
pub fn c_text_bytes(bytes: &[u8]) -> (r: Vec<u8>)
    ensures
        r@ == c_text(bytes@),
{
    let mut r: Vec<u8> = Vec::new();
    let mut i: usize = 0;
    while i < bytes.len() && bytes[i] != 0
        invariant
            i <= bytes@.len(),
            forall|j: int| 0 <= j < i ==> bytes@[j] != 0,
            r@ == bytes@.take(i as int),
        decreases bytes@.len() - i,
    {
        let b = bytes[i];
        r.push(b);
        assert(bytes@.take(i as int).push(bytes@[i as int]) =~= bytes@.take(i as int + 1));
        i = i + 1;
    }
    proof {
        lemma_c_text_characterize(bytes@, i as int);
    }
    r
}

/// Reads a terminated byte sequence out of `buf`, beginning at `start`: the
/// bytes before the first terminator at or after `start` (to the end of the
/// buffer when none follows).
pub fn read_terminated(buf: &Vec<u8>, start: usize) -> (r: Vec<u8>)
    requires
        start <= buf@.len(),
    ensures
        r@ == c_text(buf@.skip(start as int)),
{
    let ghost tail = buf@.skip(start as int);
    let mut r: Vec<u8> = Vec::new();
    let mut i: usize = start;
    while i < buf.len() && buf[i] != 0
        invariant
            start <= i <= buf@.len(),
            tail == buf@.skip(start as int),
            forall|j: int| 0 <= j < i - start ==> tail[j] != 0,
            r@ == tail.take(i - start),
        decreases buf@.len() - i,
    {
        let b = buf[i];
        r.push(b);
        assert(tail.take(i - start).push(buf@[i as int]) =~= tail.take(i + 1 - start));
        i = i + 1;
    }
    proof {
        lemma_c_text_characterize(tail, i - start);
    }
    r
}

} // verus!
