//! Facts about the parts that messages are made of: what is put in front of
//! other bytes is read back, what is read is what was put there, and bytes
//! behind a part do not change how it is read.

use crate::wire::{
    be_bytes, be_value, capacity, decode_bytes, decode_cstr, decode_i16, decode_i32, decode_i64,
    decode_i8, decode_list, decode_u32, decode_u64, decode_u8, first_nul_at, is_cstr, prepend,
    put_cstr, put_i16, put_i32, put_i64, put_i8, put_list, put_u32, put_u64, put_u8, to_unsigned,
    Decoded,
};
use vstd::prelude::*;

verus! {

pub proof fn lemma_capacity()
    ensures
        capacity(1) == 0x100,
        capacity(2) == 0x1_0000,
        capacity(4) == 0x1_0000_0000,
        capacity(8) == 0x1_0000_0000_0000_0000,
{
    reveal_with_fuel(capacity, 9);
}

pub proof fn lemma_be_value_bound(bytes: Seq<u8>)
    ensures
        be_value(bytes) < capacity(bytes.len()),
    decreases bytes.len(),
{
    if bytes.len() > 0 {
        lemma_be_value_bound(bytes.drop_last());
    }
}

proof fn lemma_be_bytes_len(n: nat, width: nat)
    ensures
        be_bytes(n, width).len() == width,
    decreases width,
{
    if width > 0 {
        lemma_be_bytes_len(n / 256, (width - 1) as nat);
    }
}

/// The number that the first byte stands for.
pub proof fn lemma_be_value_of_1(s: Seq<u8>)
    requires
        s.len() >= 1,
    ensures
        be_value(s.take(1)) == s[0],
{
    reveal_with_fuel(be_value, 2);
    assert(s.take(1).drop_last() == s.take(0));
}

/// The number that the first 2 bytes stand for, written out.
pub proof fn lemma_be_value_of_2(s: Seq<u8>)
    requires
        s.len() >= 2,
    ensures
        be_value(s.take(2)) == s[0] * 0x100 + s[1],
{
    reveal_with_fuel(be_value, 3);
    assert(s.take(2).drop_last() == s.take(1));
    assert(s.take(1).drop_last() == s.take(0));
}

/// The number that the first 4 bytes stand for, written out.
pub proof fn lemma_be_value_of_4(s: Seq<u8>)
    requires
        s.len() >= 4,
    ensures
        be_value(s.take(4)) == s[0] * 0x100_0000 + s[1] * 0x1_0000 + s[2] * 0x100 + s[3],
{
    reveal_with_fuel(be_value, 5);
    assert(s.take(4).drop_last() == s.take(3));
    assert(s.take(3).drop_last() == s.take(2));
    assert(s.take(2).drop_last() == s.take(1));
    assert(s.take(1).drop_last() == s.take(0));
}

/// The number that the first 8 bytes stand for, written out.
pub proof fn lemma_be_value_of_8(s: Seq<u8>)
    requires
        s.len() >= 8,
    ensures
        be_value(s.take(8)) == s[0] * 0x100_0000_0000_0000 + s[1] * 0x1_0000_0000_0000 + s[2]
            * 0x100_0000_0000 + s[3] * 0x1_0000_0000 + s[4] * 0x100_0000 + s[5] * 0x1_0000 + s[6]
            * 0x100 + s[7],
{
    reveal_with_fuel(be_value, 9);
    assert(s.take(8).drop_last() == s.take(7));
    assert(s.take(7).drop_last() == s.take(6));
    assert(s.take(6).drop_last() == s.take(5));
    assert(s.take(5).drop_last() == s.take(4));
    assert(s.take(4).drop_last() == s.take(3));
    assert(s.take(3).drop_last() == s.take(2));
    assert(s.take(2).drop_last() == s.take(1));
    assert(s.take(1).drop_last() == s.take(0));
}

/// A number that fits is what its own bytes stand for.
proof fn lemma_be_value_of_bytes(n: nat, width: nat)
    requires
        n < capacity(width),
    ensures
        be_value(be_bytes(n, width)) == n,
    decreases width,
{
    if width > 0 {
        lemma_be_value_of_bytes(n / 256, (width - 1) as nat);
        assert(be_bytes(n, width).drop_last() == be_bytes(n / 256, (width - 1) as nat));
    }
}

/// Bytes are the bytes of the number that they stand for.
proof fn lemma_be_bytes_of_value(bytes: Seq<u8>)
    ensures
        be_bytes(be_value(bytes), bytes.len()) == bytes,
    decreases bytes.len(),
{
    if bytes.len() > 0 {
        lemma_be_bytes_of_value(bytes.drop_last());
        let n = be_value(bytes);
        assert(n / 256 == be_value(bytes.drop_last()));
        assert(n % 256 == bytes.last());
        assert(bytes == bytes.drop_last().push(bytes.last()));
    }
}

/// Fixed-width bytes in front of `rest` are taken off again.
proof fn lemma_front(n: nat, width: nat, rest: Seq<u8>)
    requires
        n < capacity(width),
    ensures
        (be_bytes(n, width) + rest).len() == width + rest.len(),
        (be_bytes(n, width) + rest).take(width as int) == be_bytes(n, width),
        (be_bytes(n, width) + rest).skip(width as int) == rest,
        be_value((be_bytes(n, width) + rest).take(width as int)) == n,
{
    lemma_be_bytes_len(n, width);
    lemma_be_value_of_bytes(n, width);
    assert((be_bytes(n, width) + rest).take(width as int) == be_bytes(n, width));
    assert((be_bytes(n, width) + rest).skip(width as int) == rest);
}

/// The first bytes of an input are those of the number read from them.
proof fn lemma_split(s: Seq<u8>, width: nat)
    requires
        width <= s.len(),
    ensures
        be_value(s.take(width as int)) < capacity(width),
        s == be_bytes(be_value(s.take(width as int)), width) + s.skip(width as int),
{
    lemma_be_value_bound(s.take(width as int));
    lemma_be_bytes_of_value(s.take(width as int));
}

/// Bytes behind an input do not change what its first bytes stand for.
proof fn lemma_extend(s: Seq<u8>, more: Seq<u8>, width: nat)
    requires
        width <= s.len(),
    ensures
        (s + more).take(width as int) == s.take(width as int),
        (s + more).skip(width as int) == s.skip(width as int) + more,
{
    assert((s + more).take(width as int) == s.take(width as int));
    assert((s + more).skip(width as int) == s.skip(width as int) + more);
}

pub broadcast proof fn lemma_u8_reads_back(n: u8, rest: Seq<u8>)
    ensures
        #[trigger] decode_u8(put_u8(n, rest)) == Decoded::Value(n, rest),
{
    assert(put_u8(n, rest).skip(1) == rest);
}

pub broadcast proof fn lemma_u8_is_put(s: Seq<u8>)
    ensures
        #[trigger] decode_u8(s) matches Decoded::Value(n, rest) ==> s == put_u8(n, rest),
{
    if s.len() >= 1 {
        assert(s == put_u8(s[0], s.skip(1)));
    }
}

pub broadcast proof fn lemma_u8_extends(s: Seq<u8>, more: Seq<u8>)
    ensures
        !decode_u8(s).is_cut_short() ==> #[trigger] decode_u8(s + more) == decode_u8(
            s,
        ).followed_by(more),
{
    if s.len() >= 1 {
        lemma_extend(s, more, 1);
    }
}

pub broadcast proof fn lemma_i8_reads_back(n: i8, rest: Seq<u8>)
    ensures
        #[trigger] decode_i8(put_i8(n, rest)) == Decoded::Value(n, rest),
{
    lemma_capacity();
    lemma_front(to_unsigned(n as int, 1), 1, rest);
}

pub broadcast proof fn lemma_i8_is_put(s: Seq<u8>)
    ensures
        #[trigger] decode_i8(s) matches Decoded::Value(n, rest) ==> s == put_i8(n, rest),
{
    if s.len() >= 1 {
        lemma_capacity();
        lemma_split(s, 1);
    }
}

pub broadcast proof fn lemma_i8_extends(s: Seq<u8>, more: Seq<u8>)
    ensures
        !decode_i8(s).is_cut_short() ==> #[trigger] decode_i8(s + more) == decode_i8(
            s,
        ).followed_by(more),
{
    if s.len() >= 1 {
        lemma_extend(s, more, 1);
    }
}

pub broadcast proof fn lemma_i16_reads_back(n: i16, rest: Seq<u8>)
    ensures
        #[trigger] decode_i16(put_i16(n, rest)) == Decoded::Value(n, rest),
{
    lemma_capacity();
    lemma_front(to_unsigned(n as int, 2), 2, rest);
}

pub broadcast proof fn lemma_i16_is_put(s: Seq<u8>)
    ensures
        #[trigger] decode_i16(s) matches Decoded::Value(n, rest) ==> s == put_i16(n, rest),
{
    if s.len() >= 2 {
        lemma_capacity();
        lemma_split(s, 2);
    }
}

pub broadcast proof fn lemma_i16_extends(s: Seq<u8>, more: Seq<u8>)
    ensures
        !decode_i16(s).is_cut_short() ==> #[trigger] decode_i16(s + more) == decode_i16(
            s,
        ).followed_by(more),
{
    if s.len() >= 2 {
        lemma_extend(s, more, 2);
    }
}

pub broadcast proof fn lemma_i32_reads_back(n: i32, rest: Seq<u8>)
    ensures
        #[trigger] decode_i32(put_i32(n, rest)) == Decoded::Value(n, rest),
{
    lemma_capacity();
    lemma_front(to_unsigned(n as int, 4), 4, rest);
}

pub broadcast proof fn lemma_i32_is_put(s: Seq<u8>)
    ensures
        #[trigger] decode_i32(s) matches Decoded::Value(n, rest) ==> s == put_i32(n, rest),
{
    if s.len() >= 4 {
        lemma_capacity();
        lemma_split(s, 4);
    }
}

pub broadcast proof fn lemma_i32_extends(s: Seq<u8>, more: Seq<u8>)
    ensures
        !decode_i32(s).is_cut_short() ==> #[trigger] decode_i32(s + more) == decode_i32(
            s,
        ).followed_by(more),
{
    if s.len() >= 4 {
        lemma_extend(s, more, 4);
    }
}

pub broadcast proof fn lemma_u32_reads_back(n: u32, rest: Seq<u8>)
    ensures
        #[trigger] decode_u32(put_u32(n, rest)) == Decoded::Value(n, rest),
{
    lemma_capacity();
    lemma_front(n as nat, 4, rest);
}

pub broadcast proof fn lemma_u32_is_put(s: Seq<u8>)
    ensures
        #[trigger] decode_u32(s) matches Decoded::Value(n, rest) ==> s == put_u32(n, rest),
{
    if s.len() >= 4 {
        lemma_capacity();
        lemma_split(s, 4);
    }
}

pub broadcast proof fn lemma_u32_extends(s: Seq<u8>, more: Seq<u8>)
    ensures
        !decode_u32(s).is_cut_short() ==> #[trigger] decode_u32(s + more) == decode_u32(
            s,
        ).followed_by(more),
{
    if s.len() >= 4 {
        lemma_extend(s, more, 4);
    }
}

pub broadcast proof fn lemma_i64_reads_back(n: i64, rest: Seq<u8>)
    ensures
        #[trigger] decode_i64(put_i64(n, rest)) == Decoded::Value(n, rest),
{
    lemma_capacity();
    lemma_front(to_unsigned(n as int, 8), 8, rest);
}

pub broadcast proof fn lemma_i64_is_put(s: Seq<u8>)
    ensures
        #[trigger] decode_i64(s) matches Decoded::Value(n, rest) ==> s == put_i64(n, rest),
{
    if s.len() >= 8 {
        lemma_capacity();
        lemma_split(s, 8);
    }
}

pub broadcast proof fn lemma_i64_extends(s: Seq<u8>, more: Seq<u8>)
    ensures
        !decode_i64(s).is_cut_short() ==> #[trigger] decode_i64(s + more) == decode_i64(
            s,
        ).followed_by(more),
{
    if s.len() >= 8 {
        lemma_extend(s, more, 8);
    }
}

pub broadcast proof fn lemma_u64_reads_back(n: u64, rest: Seq<u8>)
    ensures
        #[trigger] decode_u64(put_u64(n, rest)) == Decoded::Value(n, rest),
{
    lemma_capacity();
    lemma_front(n as nat, 8, rest);
}

pub broadcast proof fn lemma_u64_is_put(s: Seq<u8>)
    ensures
        #[trigger] decode_u64(s) matches Decoded::Value(n, rest) ==> s == put_u64(n, rest),
{
    if s.len() >= 8 {
        lemma_capacity();
        lemma_split(s, 8);
    }
}

pub broadcast proof fn lemma_u64_extends(s: Seq<u8>, more: Seq<u8>)
    ensures
        !decode_u64(s).is_cut_short() ==> #[trigger] decode_u64(s + more) == decode_u64(
            s,
        ).followed_by(more),
{
    if s.len() >= 8 {
        lemma_extend(s, more, 8);
    }
}

/// Text that can be ended by a zero byte is read back.
pub broadcast proof fn lemma_cstr_reads_back(text: Seq<u8>, rest: Seq<u8>)
    requires
        is_cstr(text),
    ensures
        #[trigger] decode_cstr(put_cstr(text, rest)) == Decoded::Value(text, rest),
{
    let s = put_cstr(text, rest);
    assert(first_nul_at(s, text.len() as int));
    let at = choose|at: int| first_nul_at(s, at);
    assert(at == text.len()) by {
        assert(first_nul_at(s, at));
    }
    assert(s.take(at) == text);
    assert(s.skip(at + 1) == rest);
}

pub broadcast proof fn lemma_cstr_is_put(s: Seq<u8>)
    ensures
        #[trigger] decode_cstr(s) matches Decoded::Value(text, rest) ==> {
            &&& s == put_cstr(text, rest)
            &&& is_cstr(text)
        },
{
    if exists|at: int| first_nul_at(s, at) {
        let at = choose|at: int| first_nul_at(s, at);
        assert(s == put_cstr(s.take(at), s.skip(at + 1)));
    }
}

pub broadcast proof fn lemma_cstr_extends(s: Seq<u8>, more: Seq<u8>)
    ensures
        !decode_cstr(s).is_cut_short() ==> #[trigger] decode_cstr(s + more) == decode_cstr(
            s,
        ).followed_by(more),
{
    if exists|at: int| first_nul_at(s, at) {
        let at = choose|at: int| first_nul_at(s, at);
        assert(first_nul_at(s + more, at));
        let found = choose|at: int| first_nul_at(s + more, at);
        assert(found == at) by {
            assert(first_nul_at(s + more, found));
        }
        assert((s + more).take(at) == s.take(at));
        assert((s + more).skip(at + 1) == s.skip(at + 1) + more);
    }
}

pub broadcast proof fn lemma_bytes_read_back(text: Seq<u8>, rest: Seq<u8>)
    ensures
        #[trigger] decode_bytes(text.len() as int, text + rest) == Decoded::Value(text, rest),
{
    assert((text + rest).take(text.len() as int) == text);
    assert((text + rest).skip(text.len() as int) == rest);
}

pub broadcast proof fn lemma_bytes_are_put(len: int, s: Seq<u8>)
    ensures
        #[trigger] decode_bytes(len, s) matches Decoded::Value(text, rest) ==> {
            &&& s == text + rest
            &&& text.len() == len
        },
{
    if 0 <= len <= s.len() {
        assert(s == s.take(len) + s.skip(len));
    }
}

pub broadcast proof fn lemma_bytes_extend(len: int, s: Seq<u8>, more: Seq<u8>)
    ensures
        !decode_bytes(len, s).is_cut_short() ==> #[trigger] decode_bytes(len, s + more)
            == decode_bytes(len, s).followed_by(more),
{
    if 0 <= len <= s.len() {
        lemma_extend(s, more, len as nat);
    }
}

/// A part in front of `rest` is read back, with `rest` behind it.
pub broadcast group group_reads_back {
    lemma_u8_reads_back,
    lemma_i8_reads_back,
    lemma_i16_reads_back,
    lemma_i32_reads_back,
    lemma_u32_reads_back,
    lemma_i64_reads_back,
    lemma_u64_reads_back,
    lemma_cstr_reads_back,
    lemma_bytes_read_back,
}

/// An input from which a part is read is that part in front of the other bytes.
pub broadcast group group_is_put {
    lemma_u8_is_put,
    lemma_i8_is_put,
    lemma_i16_is_put,
    lemma_i32_is_put,
    lemma_u32_is_put,
    lemma_i64_is_put,
    lemma_u64_is_put,
    lemma_cstr_is_put,
    lemma_bytes_are_put,
}

/// Bytes behind a part do not change how it is read.
pub broadcast group group_extends {
    lemma_u8_extends,
    lemma_i8_extends,
    lemma_i16_extends,
    lemma_i32_extends,
    lemma_u32_extends,
    lemma_i64_extends,
    lemma_u64_extends,
    lemma_cstr_extends,
    lemma_bytes_extend,
}

/// Nothing is put in front of a list by prepending nothing.
pub proof fn lemma_prepend_nothing<T>(list: Decoded<Seq<T>>)
    ensures
        prepend(Seq::empty(), list) == list,
{
    if let Decoded::Value(entries, _) = list {
        assert(Seq::empty() + entries == entries);
    }
}

/// Entries can be prepended one after the other or together.
pub proof fn lemma_prepend_both<T>(prefix: Seq<T>, more: Seq<T>, list: Decoded<Seq<T>>)
    ensures
        prepend(prefix, prepend(more, list)) == prepend(prefix + more, list),
{
    if let Decoded::Value(entries, _) = list {
        assert(prefix + (more + entries) == (prefix + more) + entries);
    }
}

/// A list is read back where each of its entries is.
pub proof fn lemma_list_reads_back<T>(
    decode: spec_fn(Seq<u8>) -> Decoded<T>,
    put: spec_fn(T, Seq<u8>) -> Seq<u8>,
    list: Seq<T>,
    rest: Seq<u8>,
)
    requires
        forall|i: int, s: Seq<u8>|
            0 <= i < list.len() ==> #[trigger] decode(put(list[i], s)) == Decoded::Value(
                list[i],
                s,
            ),
    ensures
        decode_list(decode, list.len() as int, put_list(put, list, rest)) == Decoded::Value(
            list,
            rest,
        ),
    decreases list.len(),
{
    if list.len() > 0 {
        let others = list.drop_first();
        assert forall|i: int, s: Seq<u8>| 0 <= i < others.len() implies #[trigger] decode(
            put(others[i], s),
        ) == Decoded::Value(others[i], s) by {
            assert(others[i] == list[i + 1]);
        }
        lemma_list_reads_back(decode, put, others, rest);
        let behind = put_list(put, others, rest);
        assert(decode(put(list[0], behind)) == Decoded::Value(list[0], behind));
        assert(seq![list[0]] + others == list);
    } else {
        assert(list == Seq::<T>::empty());
    }
}

/// An input from which a list is read is that list in front of the other bytes,
/// where that holds of each entry, and the list is as long as it is said to be.
pub proof fn lemma_list_is_put<T>(
    decode: spec_fn(Seq<u8>) -> Decoded<T>,
    put: spec_fn(T, Seq<u8>) -> Seq<u8>,
    valid: spec_fn(T) -> bool,
    count: int,
    s: Seq<u8>,
)
    requires
        forall|s: Seq<u8>|
            #[trigger] decode(s) matches Decoded::Value(v, rest) ==> s == put(v, rest) && valid(v),
    ensures
        decode_list(decode, count, s) matches Decoded::Value(list, rest) ==> {
            &&& s == put_list(put, list, rest)
            &&& list.len() == count
            &&& forall|i: int| 0 <= i < list.len() ==> #[trigger] valid(list[i])
        },
    decreases count,
{
    if count > 0 {
        if let Decoded::Value(first, behind) = decode(s) {
            lemma_list_is_put(decode, put, valid, count - 1, behind);
            if let Decoded::Value(others, rest) = decode_list(decode, count - 1, behind) {
                assert((seq![first] + others).drop_first() == others);
            }
        }
    }
}

/// Bytes behind a list do not change how it is read, where that holds of each
/// entry.
pub proof fn lemma_list_extends<T>(
    decode: spec_fn(Seq<u8>) -> Decoded<T>,
    count: int,
    s: Seq<u8>,
    more: Seq<u8>,
)
    requires
        forall|s: Seq<u8>, more: Seq<u8>|
            !decode(s).is_cut_short() ==> #[trigger] decode(s + more) == decode(s).followed_by(
                more,
            ),
    ensures
        !decode_list(decode, count, s).is_cut_short() ==> decode_list(decode, count, s + more)
            == decode_list(decode, count, s).followed_by(more),
    decreases count,
{
    if count > 0 {
        if !decode(s).is_cut_short() {
            assert(decode(s + more) == decode(s).followed_by(more));
            if let Decoded::Value(first, behind) = decode(s) {
                lemma_list_extends(decode, count - 1, behind, more);
            }
        }
    }
}

} // verus!
