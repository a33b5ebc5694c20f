/// Error codes and the errors built from them.
pub mod error;
/// Hexadecimal and decimal text of integers.
pub mod text;

pub use crate::common::To;
use vstd::prelude::*;
use widestring::U16CString;

verus! {

// ---------------------------------------------------------------------------
// Mathematical model of little-endian UTF-16 byte buffers
// ---------------------------------------------------------------------------

/// The UTF-16 code unit stored little-endian at unit index `i` of `bytes`
/// (bytes `2 * i` and `2 * i + 1`).
pub open spec fn unit_at(bytes: Seq<u8>, i: int) -> u16 {
    (bytes[2 * i] as int + 256 * bytes[2 * i + 1] as int) as u16
}

/// The number of code units of the wide string at the start of `bytes`: the complete
/// two-byte units before the first nul unit, or all complete units when there is none.
/// A trailing odd byte is never part of a unit.
pub open spec fn wide_len(bytes: Seq<u8>) -> nat
    decreases bytes.len(),
{
    if bytes.len() < 2 || (bytes[0] == 0 && bytes[1] == 0) {
        0
    } else {
        1 + wide_len(bytes.subrange(2, bytes.len() as int))
    }
}

/// The first `n` code units of `bytes`.
pub open spec fn wide_units(bytes: Seq<u8>, n: nat) -> Seq<u16> {
    Seq::new(n, |i: int| unit_at(bytes, i))
}

/// The code units of the wide string at the start of `bytes` (without its terminator).
pub open spec fn wide_string(bytes: Seq<u8>) -> Seq<u16> {
    wide_units(bytes, wide_len(bytes))
}

/// Every string of the multi-string sequence in `bytes` up to the first empty string is
/// followed by its nul terminator inside `bytes`.
pub open spec fn is_terminated_multi(bytes: Seq<u8>) -> bool
    decreases bytes.len(),
{
    let n = wide_len(bytes);
    n == 0 || (2 * n + 2 <= bytes.len() && is_terminated_multi(
        bytes.subrange((2 * n + 2) as int, bytes.len() as int),
    ))
}

/// The strings of a multi-string byte sequence: consecutive nul-terminated wide strings,
/// ended by an empty string (or by the end of the bytes).
pub open spec fn multi_strings(bytes: Seq<u8>) -> Seq<Seq<u16>>
    decreases bytes.len(),
{
    let n = wide_len(bytes);
    if n == 0 || bytes.len() < 2 * n + 2 {
        Seq::empty()
    } else {
        seq![wide_units(bytes, n)] + multi_strings(bytes.subrange((2 * n + 2) as int, bytes.len() as int))
    }
}

/// No code unit of `s` is nul.
pub open spec fn nul_free(s: Seq<u16>) -> bool {
    forall|i: int| 0 <= i < s.len() ==> s[i] != 0
}

/// The little-endian bytes of the code units `s`.
pub open spec fn encode_units(s: Seq<u16>) -> Seq<u8> {
    Seq::new(
        2 * s.len(),
        |j: int|
            if j % 2 == 0 {
                (s[j / 2] % 256) as u8
            } else {
                (s[j / 2] / 256) as u8
            },
    )
}

/// The multi-string encoding of `ss`: each string's bytes followed by a nul unit.
pub open spec fn encode_multi(ss: Seq<Seq<u16>>) -> Seq<u8>
    decreases ss.len(),
{
    if ss.len() == 0 {
        Seq::empty()
    } else {
        encode_units(ss[0]) + seq![0u8, 0u8] + encode_multi(ss.drop_first())
    }
}

/// The code units of `v` before its first nul unit (all of them when there is none).
pub open spec fn units_before_nul(v: Seq<u16>) -> Seq<u16>
    decreases v.len(),
{
    if v.len() == 0 {
        v
    } else if v[0] == 0 {
        Seq::empty()
    } else {
        seq![v[0]] + units_before_nul(v.drop_first())
    }
}

/// An integer read little-endian from `bytes[start..start + 4]`.
pub open spec fn le_u32(bytes: Seq<u8>, start: int) -> int {
    bytes[start] as int + 256 * bytes[start + 1] as int + 65536 * bytes[start + 2] as int
        + 16777216 * bytes[start + 3] as int
}

/// An integer read little-endian from `bytes[start..start + 2]`.
pub open spec fn le_u16(bytes: Seq<u8>, start: int) -> int {
    bytes[start] as int + 256 * bytes[start + 1] as int
}

// ---------------------------------------------------------------------------
// Outside types
// ---------------------------------------------------------------------------

#[verifier::external_type_specification]
#[verifier::external_body]
pub struct ExU16CString(U16CString);

/// The code units that a `widestring::U16CString` holds, without its nul terminator.
pub uninterp spec fn u16cstring_units(s: U16CString) -> Seq<u16>;

/// Calls `widestring::U16CString::from_vec_truncate`. Its source truncates the vector
/// after the first nul value and appends a nul terminator when the last value is not
/// one, so the string holds the units before the first nul.
#[verifier::external_body]
fn u16cstring_from_vec_truncate(v: Vec<u16>) -> (s: U16CString)
    ensures
        u16cstring_units(s) == units_before_nul(v@),
{
    U16CString::from_vec_truncate(v)
}

// ---------------------------------------------------------------------------
// Lemmas
// ---------------------------------------------------------------------------

proof fn lemma_wide_len_props(bytes: Seq<u8>)
    ensures
        2 * wide_len(bytes) <= bytes.len(),
        forall|i: int| 0 <= i < wide_len(bytes) ==> #[trigger] unit_at(bytes, i) != 0,
        2 * wide_len(bytes) + 2 <= bytes.len() ==> unit_at(bytes, wide_len(bytes) as int) == 0,
    decreases bytes.len(),
{
    if bytes.len() < 2 || (bytes[0] == 0 && bytes[1] == 0) {
    } else {
        let rest = bytes.subrange(2, bytes.len() as int);
        lemma_wide_len_props(rest);
        assert forall|i: int| 0 <= i < wide_len(bytes) implies #[trigger] unit_at(bytes, i) != 0 by {
            if i > 0 {
                assert(unit_at(rest, i - 1) != 0);
                assert(rest[2 * (i - 1)] == bytes[2 * i]);
                assert(rest[2 * (i - 1) + 1] == bytes[2 * i + 1]);
            }
        }
        if 2 * wide_len(bytes) + 2 <= bytes.len() {
            let n = wide_len(rest) as int;
            assert(rest[2 * n] == bytes[2 * (n + 1)]);
            assert(rest[2 * n + 1] == bytes[2 * (n + 1) + 1]);
        }
    }
}

/// Splitting off the first unit of an encoding.
proof fn lemma_encode_units_first(s: Seq<u16>)
    requires
        s.len() > 0,
    ensures
        encode_units(s) =~= seq![(s[0] % 256) as u8, (s[0] / 256) as u8] + encode_units(
            s.drop_first(),
        ),
{
    let e = encode_units(s);
    let r = seq![(s[0] % 256) as u8, (s[0] / 256) as u8] + encode_units(s.drop_first());
    assert forall|j: int| 0 <= j < e.len() implies e[j] == r[j] by {
        if j >= 2 {
            assert((j - 2) / 2 == j / 2 - 1);
            assert((j - 2) % 2 == j % 2);
        }
    }
}

/// A code unit is rebuilt from its low and high byte.
proof fn lemma_unit_bytes(u: u16)
    ensures
        ((u % 256) as u8 as int + 256 * ((u / 256) as u8) as int) as u16 == u,
        ((u % 256) as u8 == 0 && (u / 256) as u8 == 0) ==> u == 0,
{
}

/// The unit at index `i` of an encoding is the `i`-th code unit.
proof fn lemma_unit_at_encoded(s: Seq<u16>, rest: Seq<u8>, i: int)
    requires
        0 <= i < s.len(),
    ensures
        unit_at(encode_units(s) + rest, i) == s[i],
{
    let b = encode_units(s) + rest;
    assert((2 * i) % 2 == 0);
    assert((2 * i + 1) % 2 == 1);
    assert((2 * i) / 2 == i);
    assert((2 * i + 1) / 2 == i);
    assert(b[2 * i] == (s[i] % 256) as u8);
    assert(b[2 * i + 1] == (s[i] / 256) as u8);
    lemma_unit_bytes(s[i]);
}

/// Reading back a nul-free string that is followed by a nul unit (or by fewer than two
/// bytes) gives the string's length and its code units.
#[verifier::rlimit(40)]
pub proof fn lemma_wide_string_round_trip(s: Seq<u16>, rest: Seq<u8>)
    requires
        nul_free(s),
        rest.len() < 2 || (rest[0] == 0 && rest[1] == 0),
    ensures
        wide_len(encode_units(s) + rest) == s.len(),
        wide_string(encode_units(s) + rest) == s,
    decreases s.len(),
{
    let b = encode_units(s) + rest;
    if s.len() == 0 {
        assert(b =~= rest);
    } else {
        lemma_encode_units_first(s);
        let t = s.drop_first();
        assert(nul_free(t)) by {
            assert forall|i: int| 0 <= i < t.len() implies t[i] != 0 by {
                assert(t[i] == s[i + 1]);
            }
        }
        lemma_wide_string_round_trip(t, rest);
        lemma_unit_bytes(s[0]);
        assert(b[0] == (s[0] % 256) as u8);
        assert(b[1] == (s[0] / 256) as u8);
        assert(b.subrange(2, b.len() as int) =~= encode_units(t) + rest);
    }
    assert forall|i: int| 0 <= i < s.len() implies #[trigger] wide_string(b)[i] == s[i] by {
        lemma_unit_at_encoded(s, rest, i);
    }
    assert(wide_string(b) =~= s);
}

/// Decoding the multi-string encoding of non-empty, nul-free strings, followed by the
/// empty string that ends the sequence, gives those strings back.
pub proof fn lemma_multi_string_round_trip(ss: Seq<Seq<u16>>, rest: Seq<u8>)
    requires
        forall|k: int| 0 <= k < ss.len() ==> #[trigger] ss[k].len() > 0 && nul_free(ss[k]),
    ensures
        is_terminated_multi(encode_multi(ss) + seq![0u8, 0u8] + rest),
        multi_strings(encode_multi(ss) + seq![0u8, 0u8] + rest) == ss,
    decreases ss.len(),
{
    let b = encode_multi(ss) + seq![0u8, 0u8] + rest;
    if ss.len() == 0 {
        assert(b =~= seq![0u8, 0u8] + rest);
        assert(wide_len(b) == 0);
        assert(multi_strings(b) =~= ss);
    } else {
        let s = ss[0];
        let tail = ss.drop_first();
        assert forall|k: int| 0 <= k < tail.len() implies #[trigger] tail[k].len() > 0 && nul_free(
            tail[k],
        ) by {
            assert(tail[k] == ss[k + 1]);
        }
        lemma_multi_string_round_trip(tail, rest);
        let after = encode_multi(tail) + seq![0u8, 0u8] + rest;
        let terminated = seq![0u8, 0u8] + after;
        assert(b =~= encode_units(s) + terminated);
        assert(ss[0].len() > 0 && nul_free(ss[0]));
        lemma_wide_string_round_trip(s, terminated);
        let n = s.len();
        assert(encode_units(s).len() == 2 * n);
        assert(b.subrange((2 * n + 2) as int, b.len() as int) =~= after);
        assert(multi_strings(b) =~= seq![s] + tail);
    }
}

proof fn lemma_units_before_nul_of_nul_free(v: Seq<u16>)
    requires
        nul_free(v),
    ensures
        units_before_nul(v) == v,
    decreases v.len(),
{
    if v.len() > 0 {
        let t = v.drop_first();
        assert(nul_free(t)) by {
            assert forall|i: int| 0 <= i < t.len() implies t[i] != 0 by {
                assert(t[i] == v[i + 1]);
            }
        }
        lemma_units_before_nul_of_nul_free(t);
        assert(seq![v[0]] + t =~= v);
    }
}

/// The wide string at the start of any byte buffer holds no nul unit.
proof fn lemma_wide_string_nul_free(bytes: Seq<u8>)
    ensures
        nul_free(wide_string(bytes)),
{
    lemma_wide_len_props(bytes);
    let w = wide_string(bytes);
    assert forall|i: int| 0 <= i < w.len() implies w[i] != 0 by {
        assert(unit_at(bytes, i) != 0);
    }
}

// ---------------------------------------------------------------------------
// Executable functions
// ---------------------------------------------------------------------------

/// The wide-string length of `bytes[start..]`.
fn wide_len_from(bytes: &[u8], start: usize) -> (len: usize)
    requires
        start <= bytes@.len(),
    ensures
        len == wide_len(bytes@.subrange(start as int, bytes@.len() as int)),
        2 * len + start <= bytes@.len(),
{
    let ghost total = bytes@.len() as int;
    let mut len: usize = 0;
    let mut i: usize = start;
    while bytes.len() - i >= 2
        invariant
            start <= i <= bytes@.len(),
            i == start + 2 * len,
            total == bytes@.len(),
            wide_len(bytes@.subrange(start as int, total)) == len + wide_len(
                bytes@.subrange(i as int, total),
            ),
        decreases bytes@.len() - i,
    {
        let ghost rest = bytes@.subrange(i as int, total);
        assert(rest[0] == bytes@[i as int]);
        assert(rest[1] == bytes@[i + 1]);
        if bytes[i] == 0 && bytes[i + 1] == 0 {
            return len;
        }
        assert(rest.subrange(2, rest.len() as int) =~= bytes@.subrange(i + 2, total));
        i = i + 2;
        len = len + 1;
    }
    len
}

/// The first `n` code units of `bytes[start..]`.
fn wide_units_from(bytes: &[u8], start: usize, n: usize) -> (units: Vec<u16>)
    requires
        start + 2 * n <= bytes@.len(),
    ensures
        units@ == wide_units(bytes@.subrange(start as int, bytes@.len() as int), n as nat),
{
    let ghost rest = bytes@.subrange(start as int, bytes@.len() as int);
    let bytes_len = bytes.len();
    let mut units: Vec<u16> = Vec::with_capacity(n);
    let mut k: usize = 0;
    while k < n
        invariant
            k <= n,
            bytes_len == bytes@.len(),
            start + 2 * n <= bytes@.len(),
            rest == bytes@.subrange(start as int, bytes@.len() as int),
            units@ =~= wide_units(rest, n as nat).take(k as int),
        decreases n - k,
    {
        let lo = bytes[start + 2 * k];
        let hi = bytes[start + 2 * k + 1];
        let unit: u16 = lo as u16 + (hi as u16) * 256;
        assert(rest[2 * k as int] == lo);
        assert(rest[2 * k + 1] == hi);
        units.push(unit);
        k = k + 1;
        assert(units@ =~= wide_units(rest, n as nat).take(k as int));
    }
    assert(wide_units(rest, n as nat).take(n as int) =~= wide_units(rest, n as nat));
    units
}

/// Gets the length from the bytes of a wide string in characters.
/// The returned length does not include the null terminator (`\0`).
///
/// The bytes hold little-endian UTF-16 code units; an odd trailing byte is ignored.
pub fn get_wide_string_len_from_bytes(bytes: &[u8]) -> (len: usize)
    ensures
        len == wide_len(bytes@),
        2 * len <= bytes@.len(),
        forall|i: int| 0 <= i < len ==> #[trigger] unit_at(bytes@, i) != 0,
        2 * len + 2 <= bytes@.len() ==> unit_at(bytes@, len as int) == 0,
{
    let len = wide_len_from(bytes, 0);
    assert(bytes@.subrange(0, bytes@.len() as int) =~= bytes@);
    proof {
        lemma_wide_len_props(bytes@);
    }
    len
}

/// Gets the number of strings that the multi-string byte sequence contains.
///
/// The sequence ends with an empty string; every string before it must be nul-terminated
/// within `bytes`.
pub fn get_multi_string_bytes_count(bytes: &[u8]) -> (count: usize)
    requires
        is_terminated_multi(bytes@),
    ensures
        count == multi_strings(bytes@).len(),
{
    let ghost total = bytes@.len() as int;
    let bytes_len = bytes.len();
    let mut count: usize = 0;
    let mut start: usize = 0;
    assert(bytes@.subrange(0, total) =~= bytes@);
    loop
        invariant
            start <= bytes@.len(),
            total == bytes@.len(),
            bytes_len == bytes@.len(),
            count <= start,
            is_terminated_multi(bytes@.subrange(start as int, total)),
            multi_strings(bytes@).len() == count + multi_strings(
                bytes@.subrange(start as int, total),
            ).len(),
        decreases bytes@.len() - start,
    {
        let ghost rest = bytes@.subrange(start as int, total);
        let n = wide_len_from(bytes, start);
        if n == 0 {
            return count;
        }
        assert(2 * n + 2 <= rest.len());
        assert(rest.subrange((2 * n + 2) as int, rest.len() as int) =~= bytes@.subrange(
            start + 2 * n + 2,
            total,
        ));
        start = start + 2 * n + 2;
        count = count + 1;
    }
}

/// Determines whether every string of the multi-string byte sequence `bytes`, up to the
/// empty string that ends it, is nul-terminated inside `bytes` (what
/// [`get_multi_string_bytes_count`] and [`multi_string_bytes_to_strings`] need).
pub fn is_terminated_multi_string(bytes: &[u8]) -> (terminated: bool)
    ensures
        terminated == is_terminated_multi(bytes@),
{
    let ghost total = bytes@.len() as int;
    let bytes_len = bytes.len();
    let mut start: usize = 0;
    assert(bytes@.subrange(0, total) =~= bytes@);
    loop
        invariant
            start <= bytes@.len(),
            total == bytes@.len(),
            bytes_len == bytes@.len(),
            is_terminated_multi(bytes@) == is_terminated_multi(bytes@.subrange(start as int, total)),
        decreases bytes@.len() - start,
    {
        let ghost rest = bytes@.subrange(start as int, total);
        let n = wide_len_from(bytes, start);
        if n == 0 {
            return true;
        }
        if bytes_len - start - 2 * n < 2 {
            return false;
        }
        assert(rest.subrange((2 * n + 2) as int, rest.len() as int) =~= bytes@.subrange(
            start + 2 * n + 2,
            total,
        ));
        start = start + 2 * n + 2;
    }
}

/// Extracts each string from the multi-string byte sequence and returns
/// them in a [vector][alloc::vec::Vec].
pub fn multi_string_bytes_to_strings(bytes: &[u8]) -> (strings: Vec<U16CString>)
    requires
        is_terminated_multi(bytes@),
    ensures
        strings@.len() == multi_strings(bytes@).len(),
        forall|i: int|
            0 <= i < strings@.len() ==> u16cstring_units(#[trigger] strings@[i])
                == multi_strings(bytes@)[i],
{
    let string_count = get_multi_string_bytes_count(bytes);
    let ghost total = bytes@.len() as int;
    let bytes_len = bytes.len();
    let mut strings: Vec<U16CString> = Vec::with_capacity(string_count);
    let mut start: usize = 0;
    let ghost mut done: Seq<Seq<u16>> = Seq::empty();
    assert(bytes@.subrange(0, total) =~= bytes@);
    assert(multi_strings(bytes@) =~= done + multi_strings(bytes@));
    loop
        invariant
            start <= bytes@.len(),
            total == bytes@.len(),
            bytes_len == bytes@.len(),
            strings@.len() == done.len(),
            is_terminated_multi(bytes@.subrange(start as int, total)),
            multi_strings(bytes@) == done + multi_strings(bytes@.subrange(start as int, total)),
            forall|i: int|
                0 <= i < strings@.len() ==> u16cstring_units(#[trigger] strings@[i]) == done[i],
        decreases bytes@.len() - start,
    {
        let ghost rest = bytes@.subrange(start as int, total);
        let n = wide_len_from(bytes, start);
        if n == 0 {
            assert(multi_strings(rest) =~= Seq::<Seq<u16>>::empty());
            assert(done + multi_strings(rest) =~= done);
            return strings;
        }
        assert(2 * n + 2 <= rest.len());
        let units = wide_units_from(bytes, start, n);
        proof {
            lemma_wide_string_nul_free(rest);
            lemma_units_before_nul_of_nul_free(units@);
        }
        let string = u16cstring_from_vec_truncate(units);
        let ghost next = rest.subrange((2 * n + 2) as int, rest.len() as int);
        assert(next =~= bytes@.subrange(start + 2 * n + 2, total));
        assert(multi_strings(rest) =~= seq![wide_units(rest, n as nat)] + multi_strings(next));
        strings.push(string);
        proof {
            done = done.push(wide_units(rest, n as nat));
        }
        assert(multi_strings(bytes@) =~= done + multi_strings(next));
        start = start + 2 * n + 2;
    }
}

/// Builds the wide C string held at the start of `bytes` (the code units before the first
/// nul unit), as the power-scheme and device readers do with the buffers they receive.
pub fn wide_cstring_from_bytes(bytes: &[u8]) -> (string: U16CString)
    ensures
        u16cstring_units(string) == wide_string(bytes@),
{
    let n = wide_len_from(bytes, 0);
    assert(bytes@.subrange(0, bytes@.len() as int) =~= bytes@);
    let units = wide_units_from(bytes, 0, n);
    proof {
        lemma_wide_string_nul_free(bytes@);
        lemma_units_before_nul_of_nul_free(units@);
    }
    u16cstring_from_vec_truncate(units)
}

/// Builds the wide C string held in the first `len` units of `buffer` (in all of them when
/// `len` passes the buffer's end): the units before the first nul among them, as the
/// readers of system-filled buffers do with the length that the system reported.
pub fn wide_cstring_from_units(buffer: &[u16], len: usize) -> (string: U16CString)
    ensures
        u16cstring_units(string) == units_before_nul(
            buffer@.take(if len < buffer@.len() { len as int } else { buffer@.len() as int }),
        ),
{
    let end: usize = if len < buffer.len() {
        len
    } else {
        buffer.len()
    };
    let mut units: Vec<u16> = Vec::with_capacity(end);
    let mut i: usize = 0;
    while i < end
        invariant
            i <= end,
            end <= buffer@.len(),
            units@ =~= buffer@.take(i as int),
        decreases end - i,
    {
        units.push(buffer[i]);
        i = i + 1;
        assert(units@ =~= buffer@.take(i as int));
    }
    u16cstring_from_vec_truncate(units)
}

/// The little-endian bytes of `units` followed by a nul terminator, the form in which
/// a device name is handed to the device-power enumeration as a filter.
pub fn wide_string_to_bytes_with_nul(units: &[u16]) -> (bytes: Vec<u8>)
    requires
        2 * units@.len() + 2 <= usize::MAX,
    ensures
        bytes@ == encode_units(units@) + seq![0u8, 0u8],
{
    let len = units.len();
    let mut bytes: Vec<u8> = Vec::with_capacity(2 * len + 2);
    let mut i: usize = 0;
    while i < len
        invariant
            i <= len,
            len == units@.len(),
            bytes@ =~= encode_units(units@.take(i as int)),
        decreases len - i,
    {
        let unit = units[i];
        bytes.push((unit % 256) as u8);
        bytes.push((unit / 256) as u8);
        proof {
            let prev = encode_units(units@.take(i as int));
            let next = encode_units(units@.take(i + 1));
            assert forall|j: int| 0 <= j < next.len() implies next[j] == bytes@[j] by {
                if j < 2 * i {
                    assert(next[j] == prev[j]);
                } else {
                    assert(j / 2 == i);
                }
            }
        }
        i = i + 1;
    }
    assert(units@.take(len as int) =~= units@);
    bytes.push(0u8);
    bytes.push(0u8);
    bytes
}

/// A globally unique identifier, laid out as the Windows `GUID` structure.
#[derive(Clone, Copy, Debug, PartialEq, Eq)]
pub struct Guid {
    pub data1: u32,
    pub data2: u16,
    pub data3: u16,
    pub data4: [u8; 8],
}

/// Creates a [`Guid`] from an array of `16` bytes.
///
/// The first three fields are read little-endian; the last eight bytes are kept in order.
pub fn guid_from_array(bytes: &[u8; 16]) -> (guid: Guid)
    ensures
        guid.data1 as int == le_u32(bytes@, 0),
        guid.data2 as int == le_u16(bytes@, 4),
        guid.data3 as int == le_u16(bytes@, 6),
        guid.data4@ == bytes@.subrange(8, 16),
{
    let data1: u32 = bytes[0] as u32 + (bytes[1] as u32) * 256 + (bytes[2] as u32) * 65536 + (
    bytes[3] as u32) * 16777216;
    let data2: u16 = bytes[4] as u16 + (bytes[5] as u16) * 256;
    let data3: u16 = bytes[6] as u16 + (bytes[7] as u16) * 256;
    let data4: [u8; 8] = [
        bytes[8],
        bytes[9],
        bytes[10],
        bytes[11],
        bytes[12],
        bytes[13],
        bytes[14],
        bytes[15],
    ];
    assert(data4@ =~= bytes@.subrange(8, 16));
    Guid { data1, data2, data3, data4 }
}

} // verus!
