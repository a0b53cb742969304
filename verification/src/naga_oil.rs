//! Names that naga_oil decorates with the module they come from:
//! `NameX_naga_oil_mod_X<module>X`, where `<module>` is the module path in
//! unpadded base32 (RFC 4648, upper case). Undecorated, such a name is
//! `module::Name`.

use vstd::prelude::*;

use crate::text::{chars_of, find, find_from_exec, lemma_find_from, matches_at, path_sep, push_all, slice_to_vec};

verus! {

/// The text between a decorated name and its encoded module.
pub open spec fn naga_oil_marker() -> Seq<char> {
    "X_naga_oil_mod_X"@
}

/// Whether `c` is a digit of the base32 alphabet: `A`-`Z` or `2`-`7`.
pub open spec fn is_base32_digit(c: char) -> bool {
    ('A' <= c && c <= 'Z') || ('2' <= c && c <= '7')
}

/// The value of a base32 digit: 0-25 for `A`-`Z`, 26-31 for `2`-`7`.
pub open spec fn base32_value(c: char) -> int {
    if 'A' <= c && c <= 'Z' {
        c as int - 'A' as int
    } else {
        c as int - '2' as int + 26
    }
}

/// The value of digit `i` of a block, zero past its end.
pub open spec fn digit_at(s: Seq<char>, i: int) -> int {
    if 0 <= i < s.len() {
        base32_value(s[i])
    } else {
        0
    }
}

/// The five bytes that a block of eight digits (missing ones read as zero)
/// encodes, most significant bits first.
pub open spec fn block_bytes(s: Seq<char>) -> Seq<int> {
    seq![
        digit_at(s, 0) * 8 + digit_at(s, 1) / 4,
        (digit_at(s, 1) % 4) * 64 + digit_at(s, 2) * 2 + digit_at(s, 3) / 16,
        (digit_at(s, 3) % 16) * 16 + digit_at(s, 4) / 2,
        (digit_at(s, 4) % 2) * 128 + digit_at(s, 5) * 4 + digit_at(s, 6) / 8,
        (digit_at(s, 6) % 8) * 32 + digit_at(s, 7),
    ]
}

/// How many whole bytes a final block of `n` digits carries, for the
/// lengths that unpadded base32 allows (2, 4, 5 or 7 digits).
pub open spec fn tail_bytes(n: int) -> int {
    if n == 2 {
        1
    } else if n == 4 {
        2
    } else if n == 5 {
        3
    } else if n == 7 {
        4
    } else {
        0
    }
}

/// Whether `s` is unpadded base32: digits of the alphabet only, and a
/// length whose final block is whole or has 2, 4, 5 or 7 digits.
pub open spec fn is_base32(s: Seq<char>) -> bool {
    &&& forall|i: int| 0 <= i < s.len() ==> is_base32_digit(#[trigger] s[i])
    &&& (s.len() % 8 == 0 || s.len() % 8 == 2 || s.len() % 8 == 4 || s.len() % 8 == 5 || s.len() % 8 == 7)
}

/// The bytes that unpadded base32 digits encode, block by block.
pub open spec fn base32_decode(s: Seq<char>) -> Seq<int>
    decreases s.len(),
{
    if s.len() >= 8 {
        block_bytes(s.take(8)) + base32_decode(s.skip(8))
    } else {
        block_bytes(s).take(tail_bytes(s.len() as int))
    }
}

/// Whether every byte is ASCII.
pub open spec fn all_ascii(bytes: Seq<int>) -> bool {
    forall|i: int| 0 <= i < bytes.len() ==> 0 <= #[trigger] bytes[i] < 128
}

/// The characters of ASCII bytes.
pub open spec fn ascii_chars(bytes: Seq<int>) -> Seq<char> {
    Seq::new(bytes.len(), |i: int| bytes[i] as char)
}

/// The module path that base32 digits encode, when they are unpadded base32
/// of a non-empty ASCII text.
pub open spec fn decoded_module(enc: Seq<char>) -> Option<Seq<char>> {
    if is_base32(enc) && base32_decode(enc).len() > 0 && all_ascii(base32_decode(enc)) {
        Some(ascii_chars(base32_decode(enc)))
    } else {
        None
    }
}

/// A naga_oil-decorated name undecorated: for `NameX_naga_oil_mod_X<enc>X`
/// (split at the first marker, with a non-empty name and `<enc>` the
/// base32 of an ASCII module path), `module::Name`; none for any other
/// text.
pub open spec fn naga_oil_undecorated(s: Seq<char>) -> Option<Seq<char>> {
    match find(s, naga_oil_marker()) {
        Some(i) => {
            let rest = s.skip(i + naga_oil_marker().len());
            if i > 0 && rest.len() > 0 && rest.last() == 'X' {
                match decoded_module(rest.drop_last()) {
                    Some(m) => Some(m + path_sep() + s.take(i)),
                    None => None,
                }
            } else {
                None
            }
        },
        None => None,
    }
}

/// The value of a base32 digit.
fn base32_value_exec(c: char) -> (r: u32)
    requires
        is_base32_digit(c),
    ensures
        r == base32_value(c),
        r < 32,
{
    if 'A' <= c && c <= 'Z' {
        (c as u32) - ('A' as u32)
    } else {
        (c as u32) - ('2' as u32) + 26
    }
}

/// The value of digit `i` of `s[start..end]`, zero past its end.
fn digit_at_exec(s: &Vec<char>, start: usize, end: usize, i: usize) -> (r: u32)
    requires
        start <= end <= s@.len(),
        forall|k: int| start <= k < end ==> is_base32_digit(#[trigger] s@[k]),
    ensures
        r == digit_at(s@.subrange(start as int, end as int), i as int),
        r < 32,
{
    if i < end - start {
        assert(s@.subrange(start as int, end as int)[i as int] == s@[start + i]);
        base32_value_exec(s[start + i])
    } else {
        0
    }
}

/// Whether every character of `s` is a base32 digit.
fn all_base32_digits(s: &Vec<char>) -> (r: bool)
    ensures
        r == forall|i: int| 0 <= i < s@.len() ==> is_base32_digit(#[trigger] s@[i]),
{
    let mut i: usize = 0;
    while i < s.len()
        invariant
            i <= s@.len(),
            forall|k: int| 0 <= k < i ==> is_base32_digit(#[trigger] s@[k]),
        decreases s@.len() - i,
    {
        let c = s[i];
        if !(('A' <= c && c <= 'Z') || ('2' <= c && c <= '7')) {
            assert(!is_base32_digit(s@[i as int]));
            return false;
        }
        i += 1;
    }
    true
}

/// The five bytes of the block `s[start..end]` (at most eight digits).
fn block_exec(s: &Vec<char>, start: usize, end: usize) -> (r: [u32; 5])
    requires
        start <= end <= s@.len(),
        end - start <= 8,
        forall|k: int| start <= k < end ==> is_base32_digit(#[trigger] s@[k]),
    ensures
        forall|k: int| 0 <= k < 5 ==> r@[k] as int == #[trigger] block_bytes(s@.subrange(start as int, end as int))[k],
{
    let d0 = digit_at_exec(s, start, end, 0);
    let d1 = digit_at_exec(s, start, end, 1);
    let d2 = digit_at_exec(s, start, end, 2);
    let d3 = digit_at_exec(s, start, end, 3);
    let d4 = digit_at_exec(s, start, end, 4);
    let d5 = digit_at_exec(s, start, end, 5);
    let d6 = digit_at_exec(s, start, end, 6);
    let d7 = digit_at_exec(s, start, end, 7);
    [
        d0 * 8 + d1 / 4,
        (d1 % 4) * 64 + d2 * 2 + d3 / 16,
        (d3 % 16) * 16 + d4 / 2,
        (d4 % 2) * 128 + d5 * 4 + d6 / 8,
        (d6 % 8) * 32 + d7,
    ]
}

/// How many bytes a block of `n` digits carries.
fn block_len_exec(n: usize) -> (r: usize)
    ensures
        n == 8 ==> r == 5,
        n < 8 ==> r == tail_bytes(n as int),
        r <= 5,
{
    if n == 8 {
        5
    } else if n == 2 {
        1
    } else if n == 4 {
        2
    } else if n == 5 {
        3
    } else if n == 7 {
        4
    } else {
        0
    }
}

/// The bytes that unpadded base32 digits encode.
fn base32_decode_exec(s: &Vec<char>) -> (r: Vec<u32>)
    requires
        is_base32(s@),
    ensures
        r@.len() == base32_decode(s@).len(),
        forall|i: int| 0 <= i < r@.len() ==> r@[i] as int == #[trigger] base32_decode(s@)[i],
{
    let mut out: Vec<u32> = Vec::new();
    let mut start: usize = 0;
    let ghost done: Seq<int> = Seq::empty();
    assert(s@.skip(0) =~= s@);
    assert(done + base32_decode(s@) =~= base32_decode(s@));
    while start < s.len()
        invariant
            start <= s@.len(),
            is_base32(s@),
            start == s@.len() || start % 8 == 0,
            base32_decode(s@) == done + base32_decode(s@.skip(start as int)),
            out@.len() == done.len(),
            forall|i: int| 0 <= i < out@.len() ==> out@[i] as int == #[trigger] done[i],
        decreases s@.len() - start,
    {
        let ghost rest = s@.skip(start as int);
        let end = if s.len() - start >= 8 {
            start + 8
        } else {
            s.len()
        };
        let ghost block = s@.subrange(start as int, end as int);
        let bytes = block_exec(s, start, end);
        let n = block_len_exec(end - start);
        let ghost bb = block_bytes(block);
        if end - start == 8 {
            assert(rest.take(8) =~= block);
            assert(rest.skip(8) =~= s@.skip(start + 8));
            assert(base32_decode(rest) == bb + base32_decode(s@.skip(end as int)));
            assert(bb.take(5) =~= bb);
        } else {
            assert(rest =~= block);
            assert(s@.skip(end as int) =~= Seq::<char>::empty());
            assert(base32_decode(rest) == bb.take(n as int));
            assert(bb.take(n as int) =~= bb.take(n as int) + base32_decode(s@.skip(end as int)));
        }
        let ghost piece = bb.take(n as int);
        let mut k: usize = 0;
        while k < n
            invariant
                k <= n <= 5,
                out@.len() == done.len() + k,
                forall|i: int| 0 <= i < done.len() ==> out@[i] as int == #[trigger] done[i],
                forall|i: int| 0 <= i < k ==> out@[done.len() + i] as int == #[trigger] bb[i],
                forall|j: int| 0 <= j < 5 ==> bytes@[j] as int == #[trigger] bb[j],
            decreases n - k,
        {
            out.push(bytes[k]);
            k += 1;
        }
        proof {
            assert(base32_decode(rest) == piece + base32_decode(s@.skip(end as int)));
            let nd = done + piece;
            assert forall|i: int| 0 <= i < out@.len() implies out@[i] as int == #[trigger] nd[i] by {
                if i >= done.len() {
                    assert(out@[done.len() + (i - done.len())] as int == bb[i - done.len()]);
                }
            }
            assert(base32_decode(s@) == nd + base32_decode(s@.skip(end as int)));
            done = nd;
        }
        start = end;
    }
    assert(s@.skip(start as int) =~= Seq::<char>::empty());
    assert(done + base32_decode(Seq::<char>::empty()) =~= done);
    out
}

/// The module path that base32 digits encode, if they are unpadded base32
/// of a non-empty ASCII text.
fn decoded_module_exec(enc: &Vec<char>) -> (r: Option<Vec<char>>)
    ensures
        match r {
            Some(m) => decoded_module(enc@) == Some(m@),
            None => decoded_module(enc@) is None,
        },
{
    let m = enc.len() % 8;
    if !(m == 0 || m == 2 || m == 4 || m == 5 || m == 7) || !all_base32_digits(enc) {
        return None;
    }
    let bytes = base32_decode_exec(enc);
    if bytes.len() == 0 {
        return None;
    }
    let ghost dv = base32_decode(enc@);
    let mut out: Vec<char> = Vec::new();
    let mut i: usize = 0;
    while i < bytes.len()
        invariant
            i <= bytes@.len(),
            bytes@.len() == dv.len(),
            forall|k: int| 0 <= k < bytes@.len() ==> bytes@[k] as int == #[trigger] dv[k],
            forall|k: int| 0 <= k < i ==> 0 <= #[trigger] dv[k] < 128,
            out@ == ascii_chars(dv.take(i as int)),
            dv == base32_decode(enc@),
            is_base32(enc@),
            dv.len() > 0,
        decreases bytes@.len() - i,
    {
        let b = bytes[i];
        if b >= 128 {
            assert(dv[i as int] == b as int);
            assert(!all_ascii(dv));
            return None;
        }
        let c = (b as u8) as char;
        out.push(c);
        assert(out@ =~= ascii_chars(dv.take(i + 1)));
        i += 1;
    }
    assert(dv.take(i as int) =~= dv);
    Some(out)
}

/// Undecorates a naga_oil-decorated name: `module::Name` for
/// `NameX_naga_oil_mod_X<enc>X`, none for any other text.
pub fn naga_oil_undecorate(s: &str) -> (r: Option<Vec<char>>)
    ensures
        match r {
            Some(d) => naga_oil_undecorated(s@) == Some(d@),
            None => naga_oil_undecorated(s@) is None,
        },
{
    let cs = chars_of(s);
    let marker = chars_of("X_naga_oil_mod_X");
    let i = match find_from_exec(&cs, &marker, 0) {
        Some(i) => i,
        None => {
            return None;
        },
    };
    proof {
        lemma_find_from(cs@, marker@, 0);
    }
    assert(matches_at(cs@, i as int, marker@));
    if i == 0 || i >= cs.len() || cs.len() - i <= marker.len() || cs[cs.len() - 1] != 'X' {
        return None;
    }
    let after = i + marker.len();
    let ghost rest = cs@.skip(after as int);
    let enc = slice_to_vec(&cs, after, cs.len() - 1);
    assert(enc@ =~= rest.drop_last());
    match decoded_module_exec(&enc) {
        Some(m) => {
            let mut out = m;
            push_all(&mut out, &chars_of("::"));
            push_all(&mut out, &slice_to_vec(&cs, 0, i));
            proof {
                reveal_strlit("::");
                assert(cs@.subrange(0, i as int) =~= cs@.take(i as int));
            }
            Some(out)
        },
        None => None,
    }
}

} // verus!
