//! How parts are read at a given place of an input.

use crate::model::decode_xid;
use crate::wire::{
    be_value, decode_cstr, decode_i16, decode_i32, decode_i64, decode_i8, decode_list, decode_u32,
    decode_u64, decode_u8, first_nul_at, prepend, put_cstr, to_signed, Decoded,
};
use crate::wire_lemmas::{
    lemma_be_value_bound, lemma_capacity, lemma_cstr_reads_back, lemma_prepend_both,
    lemma_prepend_nothing,
};
use vstd::prelude::*;

verus! {

/// Reading a byte at `at`.
pub proof fn lemma_u8_at(s: Seq<u8>, at: int)
    requires
        0 <= at <= s.len(),
    ensures
        at + 1 <= s.len() ==> decode_u8(s.skip(at)) == Decoded::Value(s[at], s.skip(at + 1)),
        at + 1 > s.len() ==> decode_u8(s.skip(at)).is_cut_short(),
{
    if at + 1 <= s.len() {
        assert(s.skip(at).skip(1) == s.skip(at + 1));
    }
}

/// Reading a signed integer of one byte at `at`.
pub proof fn lemma_i8_at(s: Seq<u8>, at: int)
    requires
        0 <= at <= s.len(),
    ensures
        at + 1 <= s.len() ==> {
            &&& decode_i8(s.skip(at)) matches Decoded::Value(n, rest)
            &&& n == to_signed(be_value(s.subrange(at, at + 1)), 1)
            &&& rest == s.skip(at + 1)
        },
        at + 1 > s.len() ==> decode_i8(s.skip(at)).is_cut_short(),
{
    if at + 1 <= s.len() {
        assert(s.skip(at).take(1) == s.subrange(at, at + 1));
        assert(s.skip(at).skip(1) == s.skip(at + 1));
        lemma_be_value_bound(s.subrange(at, at + 1));
        lemma_capacity();
    }
}

/// Reading a signed integer of two bytes at `at`.
pub proof fn lemma_i16_at(s: Seq<u8>, at: int)
    requires
        0 <= at <= s.len(),
    ensures
        at + 2 <= s.len() ==> {
            &&& decode_i16(s.skip(at)) matches Decoded::Value(n, rest)
            &&& n == to_signed(be_value(s.subrange(at, at + 2)), 2)
            &&& rest == s.skip(at + 2)
        },
        at + 2 > s.len() ==> decode_i16(s.skip(at)).is_cut_short(),
{
    if at + 2 <= s.len() {
        assert(s.skip(at).take(2) == s.subrange(at, at + 2));
        assert(s.skip(at).skip(2) == s.skip(at + 2));
        lemma_be_value_bound(s.subrange(at, at + 2));
        lemma_capacity();
    }
}

/// Reading a signed integer of four bytes at `at`.
pub proof fn lemma_i32_at(s: Seq<u8>, at: int)
    requires
        0 <= at <= s.len(),
    ensures
        at + 4 <= s.len() ==> {
            &&& decode_i32(s.skip(at)) matches Decoded::Value(n, rest)
            &&& n == to_signed(be_value(s.subrange(at, at + 4)), 4)
            &&& rest == s.skip(at + 4)
        },
        at + 4 > s.len() ==> decode_i32(s.skip(at)).is_cut_short(),
{
    if at + 4 <= s.len() {
        assert(s.skip(at).take(4) == s.subrange(at, at + 4));
        assert(s.skip(at).skip(4) == s.skip(at + 4));
        lemma_be_value_bound(s.subrange(at, at + 4));
        lemma_capacity();
    }
}

/// Reading an unsigned integer of four bytes at `at`.
pub proof fn lemma_u32_at(s: Seq<u8>, at: int)
    requires
        0 <= at <= s.len(),
    ensures
        at + 4 <= s.len() ==> {
            &&& decode_u32(s.skip(at)) matches Decoded::Value(n, rest)
            &&& n == be_value(s.subrange(at, at + 4))
            &&& rest == s.skip(at + 4)
        },
        at + 4 > s.len() ==> decode_u32(s.skip(at)).is_cut_short(),
{
    if at + 4 <= s.len() {
        assert(s.skip(at).take(4) == s.subrange(at, at + 4));
        assert(s.skip(at).skip(4) == s.skip(at + 4));
        lemma_be_value_bound(s.subrange(at, at + 4));
        lemma_capacity();
    }
}

/// Reading a signed integer of eight bytes at `at`.
pub proof fn lemma_i64_at(s: Seq<u8>, at: int)
    requires
        0 <= at <= s.len(),
    ensures
        at + 8 <= s.len() ==> {
            &&& decode_i64(s.skip(at)) matches Decoded::Value(n, rest)
            &&& n == to_signed(be_value(s.subrange(at, at + 8)), 8)
            &&& rest == s.skip(at + 8)
        },
        at + 8 > s.len() ==> decode_i64(s.skip(at)).is_cut_short(),
{
    if at + 8 <= s.len() {
        assert(s.skip(at).take(8) == s.subrange(at, at + 8));
        assert(s.skip(at).skip(8) == s.skip(at + 8));
        lemma_be_value_bound(s.subrange(at, at + 8));
        lemma_capacity();
    }
}

/// Reading an unsigned integer of eight bytes at `at`.
pub proof fn lemma_u64_at(s: Seq<u8>, at: int)
    requires
        0 <= at <= s.len(),
    ensures
        at + 8 <= s.len() ==> {
            &&& decode_u64(s.skip(at)) matches Decoded::Value(n, rest)
            &&& n == be_value(s.subrange(at, at + 8))
            &&& rest == s.skip(at + 8)
        },
        at + 8 > s.len() ==> decode_u64(s.skip(at)).is_cut_short(),
{
    if at + 8 <= s.len() {
        assert(s.skip(at).take(8) == s.subrange(at, at + 8));
        assert(s.skip(at).skip(8) == s.skip(at + 8));
        lemma_be_value_bound(s.subrange(at, at + 8));
        lemma_capacity();
    }
}

/// Reading a name at `at` that is ended by the zero byte at `end`.
pub proof fn lemma_cstr_at(s: Seq<u8>, at: int, end: int)
    requires
        0 <= at <= end < s.len(),
        s[end] == 0,
        !s.subrange(at, end).contains(0u8),
    ensures
        decode_cstr(s.skip(at)) == Decoded::Value(s.subrange(at, end), s.skip(end + 1)),
{
    let name = s.subrange(at, end);
    assert forall|i: int| 0 <= i < name.len() implies name[i] != 0 by {
        assert(name.contains(name[i]));
    }
    assert(s.skip(at) == put_cstr(name, s.skip(end + 1)));
    lemma_cstr_reads_back(name, s.skip(end + 1));
}

/// Reading a name at `at` where no zero byte follows.
pub proof fn lemma_no_cstr_at(s: Seq<u8>, at: int)
    requires
        0 <= at <= s.len(),
        !s.skip(at).contains(0u8),
    ensures
        decode_cstr(s.skip(at)).is_cut_short(),
{
    assert forall|i: int| !first_nul_at(s.skip(at), i) by {
        if first_nul_at(s.skip(at), i) {
            assert(s.skip(at).contains(s.skip(at)[i]));
        }
    }
}

/// Reading a transaction ID behind the tag of a message.
pub proof fn lemma_xid_at(streamed: bool, s: Seq<u8>)
    requires
        s.len() >= 1,
    ensures
        !streamed ==> decode_xid(streamed, s.skip(1)) == Decoded::Value(None::<u32>, s.skip(1)),
        streamed && s.len() >= 5 ==> {
            &&& decode_xid(streamed, s.skip(1)) matches Decoded::Value(Some(xid), rest)
            &&& xid == be_value(s.subrange(1, 5))
            &&& rest == s.skip(5)
        },
        streamed && s.len() < 5 ==> decode_xid(streamed, s.skip(1)).is_cut_short(),
{
    lemma_u32_at(s, 1);
}

/// Where the first entries of a list stand one behind the other, the others are
/// read behind them.
pub proof fn lemma_list_from<T>(
    decode: spec_fn(Seq<u8>) -> Decoded<T>,
    count: int,
    s: Seq<u8>,
    starts: Seq<int>,
    entries: Seq<T>,
)
    requires
        starts.len() == entries.len() + 1,
        entries.len() <= count,
        forall|i: int|
            0 <= i < entries.len() ==> decode(s.skip(starts[i])) == Decoded::Value(
                #[trigger] entries[i],
                s.skip(starts[i + 1]),
            ),
    ensures
        decode_list(decode, count, s.skip(starts[0])) == prepend(
            entries,
            decode_list(decode, count - entries.len(), s.skip(starts.last())),
        ),
    decreases entries.len(),
{
    if entries.len() == 0 {
        assert(entries == Seq::<T>::empty());
        lemma_prepend_nothing(decode_list(decode, count, s.skip(starts[0])));
    } else {
        let n = entries.len() - 1;
        let before = entries.drop_last();
        assert forall|i: int| 0 <= i < before.len() implies decode(s.skip(starts.drop_last()[i]))
            == Decoded::Value(#[trigger] before[i], s.skip(starts.drop_last()[i + 1])) by {
            assert(before[i] == entries[i]);
        }
        lemma_list_from(decode, count, s, starts.drop_last(), before);
        assert(decode(s.skip(starts[n])) == Decoded::Value(entries[n], s.skip(starts[n + 1])));
        let behind = decode_list(decode, count - entries.len(), s.skip(starts.last()));
        assert(decode_list(decode, count - n, s.skip(starts[n])) == prepend(
            seq![entries[n]],
            behind,
        ));
        lemma_prepend_both(before, seq![entries[n]], behind);
        assert(before + seq![entries[n]] == entries);
    }
}

} // verus!
