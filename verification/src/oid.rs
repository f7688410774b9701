//! Post identifiers.
//!
//! A stored post is addressed by a database-generated 12-byte identifier,
//! shown to clients as a 24-digit hex string. Here the 96 bits are held as
//! a high 32-bit and a low 64-bit half, and this module renders an
//! identifier to its hex form and parses the hex form back, with a proved
//! round trip.

use vstd::prelude::*;

verus! {

/// A 96-bit storage identifier: the high 32 bits and the low 64 bits.
#[derive(Clone, Copy, PartialEq, Eq, Structural, Debug)]
pub struct PostId {
    pub hi: u32,
    pub lo: u64,
}

/// The digits a hex identifier may use: `0-9`, `a-f`, `A-F`.
pub open spec fn is_hex_digit(c: char) -> bool {
    let u = c as int;
    (48 <= u && u <= 57) || (97 <= u && u <= 102) || (65 <= u && u <= 70)
}

/// Numeric value of one hex digit (0 for a non-digit).
pub open spec fn hex_digit_val(c: char) -> int {
    let u = c as int;
    if 48 <= u && u <= 57 {
        u - 48
    } else if 97 <= u && u <= 102 {
        u - 87
    } else if 65 <= u && u <= 70 {
        u - 55
    } else {
        0
    }
}

/// The lowercase hex digit for a value below 16.
pub open spec fn hex_char_of(d: int) -> char {
    if d == 0 { '0' }
    else if d == 1 { '1' }
    else if d == 2 { '2' }
    else if d == 3 { '3' }
    else if d == 4 { '4' }
    else if d == 5 { '5' }
    else if d == 6 { '6' }
    else if d == 7 { '7' }
    else if d == 8 { '8' }
    else if d == 9 { '9' }
    else if d == 10 { 'a' }
    else if d == 11 { 'b' }
    else if d == 12 { 'c' }
    else if d == 13 { 'd' }
    else if d == 14 { 'e' }
    else { 'f' }
}

/// 16 to the power `n`.
pub open spec fn pow16(n: nat) -> int
    decreases n,
{
    if n == 0 {
        1
    } else {
        16 * pow16((n - 1) as nat)
    }
}

/// The number a big-endian sequence of hex digits denotes.
pub open spec fn hex_num(s: Seq<char>) -> int
    decreases s.len(),
{
    if s.len() == 0 {
        0
    } else {
        16 * hex_num(s.drop_last()) + hex_digit_val(s.last())
    }
}

/// The `n`-digit big-endian lowercase hex rendering of `v` (mod `16^n`).
pub open spec fn hex_seq(v: int, n: nat) -> Seq<char>
    decreases n,
{
    if n == 0 {
        Seq::empty()
    } else {
        hex_seq(v / 16, (n - 1) as nat).push(hex_char_of(v % 16))
    }
}

/// A well-formed external identifier: exactly 24 hex digits.
pub open spec fn valid_hex_id(s: Seq<char>) -> bool {
    s.len() == 24 && forall|i: int| 0 <= i < s.len() ==> is_hex_digit(#[trigger] s[i])
}

/// The identifier a well-formed 24-digit hex string denotes.
pub open spec fn id_of_hex(s: Seq<char>) -> PostId {
    PostId {
        hi: hex_num(s.subrange(0, 8)) as u32,
        lo: hex_num(s.subrange(8, 24)) as u64,
    }
}

/// The 24-digit hex rendering of an identifier.
pub open spec fn hex_str_of_id(id: PostId) -> Seq<char> {
    hex_seq(id.hi as int, 8) + hex_seq(id.lo as int, 16)
}

proof fn lemma_hex_char_val(d: int)
    requires
        0 <= d < 16,
    ensures
        is_hex_digit(hex_char_of(d)),
        hex_digit_val(hex_char_of(d)) == d,
{
}

proof fn lemma_pow16_pos(n: nat)
    ensures
        pow16(n) >= 1,
    decreases n,
{
    if n > 0 {
        lemma_pow16_pos((n - 1) as nat);
    }
}

proof fn lemma_pow16_mono(a: nat, b: nat)
    requires
        a <= b,
    ensures
        pow16(a) <= pow16(b),
    decreases b,
{
    if a < b {
        lemma_pow16_mono(a, (b - 1) as nat);
        lemma_pow16_pos((b - 1) as nat);
        assert(pow16(b) == 16 * pow16((b - 1) as nat));
    }
}

/// A sequence of `n` digits denotes a number below `16^n`.
proof fn lemma_hex_num_bound(s: Seq<char>)
    ensures
        0 <= hex_num(s) < pow16(s.len()),
    decreases s.len(),
{
    if s.len() > 0 {
        lemma_hex_num_bound(s.drop_last());
        assert(0 <= hex_digit_val(s.last()) <= 15);
        assert(pow16(s.len()) == 16 * pow16((s.len() - 1) as nat));
    }
}

proof fn lemma_hex_seq_digits(v: int, n: nat)
    requires
        0 <= v,
    ensures
        hex_seq(v, n).len() == n,
        forall|i: int| 0 <= i < n ==> is_hex_digit(#[trigger] hex_seq(v, n)[i]),
    decreases n,
{
    if n > 0 {
        lemma_hex_seq_digits(v / 16, (n - 1) as nat);
        lemma_hex_char_val(v % 16);
        assert forall|i: int| 0 <= i < n implies is_hex_digit(#[trigger] hex_seq(v, n)[i]) by {
            if i < n - 1 {
                assert(hex_seq(v, n)[i] == hex_seq(v / 16, (n - 1) as nat)[i]);
            }
        }
    }
}

/// Rendering a number below `16^n` to `n` hex digits and reading it back
/// gives the number again.
proof fn lemma_hex_seq_num(v: int, n: nat)
    requires
        0 <= v < pow16(n),
    ensures
        hex_num(hex_seq(v, n)) == v,
    decreases n,
{
    if n == 0 {
        assert(v == 0);
    } else {
        assert(pow16(n) == 16 * pow16((n - 1) as nat));
        assert(v / 16 < pow16((n - 1) as nat)) by {
            assert(16 * (v / 16) <= v);
        }
        lemma_hex_seq_num(v / 16, (n - 1) as nat);
        lemma_hex_char_val(v % 16);
        let s = hex_seq(v, n);
        assert(s.drop_last() =~= hex_seq(v / 16, (n - 1) as nat));
        assert(s.last() == hex_char_of(v % 16));
        assert(16 * (v / 16) + v % 16 == v);
    }
}

/// Round trip: the hex rendering of any identifier is well formed, and
/// parsing it yields the identifier itself. So a client that fetches a post
/// by the id string the create operation returned addresses the same
/// stored document.
pub proof fn lemma_id_hex_round_trip(id: PostId)
    ensures
        valid_hex_id(hex_str_of_id(id)),
        id_of_hex(hex_str_of_id(id)) == id,
{
    let a = hex_seq(id.hi as int, 8);
    let b = hex_seq(id.lo as int, 16);
    let s = hex_str_of_id(id);
    lemma_hex_seq_digits(id.hi as int, 8);
    lemma_hex_seq_digits(id.lo as int, 16);
    assert forall|i: int| 0 <= i < s.len() implies is_hex_digit(#[trigger] s[i]) by {
        if i < 8 {
            assert(s[i] == a[i]);
        } else {
            assert(s[i] == b[i - 8]);
        }
    }
    assert(s.subrange(0, 8) =~= a);
    assert(s.subrange(8, 24) =~= b);
    assert((id.hi as int) < pow16(8)) by {
        reveal_with_fuel(pow16, 9);
    }
    assert((id.lo as int) < pow16(16)) by {
        reveal_with_fuel(pow16, 17);
    }
    lemma_hex_seq_num(id.hi as int, 8);
    lemma_hex_seq_num(id.lo as int, 16);
}

/// The one-character string for a hex digit value.
fn hex_char_str(d: u8) -> (r: &'static str)
    requires
        d < 16,
    ensures
        r@ =~= seq![hex_char_of(d as int)],
{
    proof {
        reveal_strlit("0");
        reveal_strlit("1");
        reveal_strlit("2");
        reveal_strlit("3");
        reveal_strlit("4");
        reveal_strlit("5");
        reveal_strlit("6");
        reveal_strlit("7");
        reveal_strlit("8");
        reveal_strlit("9");
        reveal_strlit("a");
        reveal_strlit("b");
        reveal_strlit("c");
        reveal_strlit("d");
        reveal_strlit("e");
        reveal_strlit("f");
    }
    match d {
        0 => "0",
        1 => "1",
        2 => "2",
        3 => "3",
        4 => "4",
        5 => "5",
        6 => "6",
        7 => "7",
        8 => "8",
        9 => "9",
        10 => "a",
        11 => "b",
        12 => "c",
        13 => "d",
        14 => "e",
        _ => "f",
    }
}

/// The `n`-digit big-endian lowercase hex rendering of `v`.
fn hex_render(v: u64, n: usize) -> (r: String)
    ensures
        r@ =~= hex_seq(v as int, n as nat),
    decreases n,
{
    if n == 0 {
        String::new()
    } else {
        let rest = hex_render(v / 16, n - 1);
        let last = hex_char_str((v % 16) as u8);
        let out = rest.concat(last);
        proof {
            assert(out@ =~= hex_seq((v / 16) as int, (n - 1) as nat).push(
                hex_char_of((v % 16) as int),
            ));
        }
        out
    }
}

/// Render an identifier as its 24-digit hex string.
pub fn id_to_hex(id: &PostId) -> (r: String)
    ensures
        r@ == hex_str_of_id(*id),
{
    let hi = hex_render(id.hi as u64, 8);
    let lo = hex_render(id.lo, 16);
    let out = hi.concat(lo.as_str());
    proof {
        assert(out@ =~= hex_str_of_id(*id));
    }
    out
}

/// The numeric value of one hex digit, or `None` for any other character.
fn hex_digit_value(c: char) -> (r: Option<u8>)
    ensures
        r is Some <==> is_hex_digit(c),
        r matches Some(d) ==> d as int == hex_digit_val(c) && d < 16,
{
    let u = c as u32;
    if 48 <= u && u <= 57 {
        Some((u - 48) as u8)
    } else if 97 <= u && u <= 102 {
        Some((u - 87) as u8)
    } else if 65 <= u && u <= 70 {
        Some((u - 55) as u8)
    } else {
        None
    }
}

/// Parse the digits of `s` in positions `from..to` as one big-endian hex
/// number; `None` as soon as a non-digit stands there.
fn parse_hex_segment(s: &str, from: usize, to: usize) -> (r: Option<u64>)
    requires
        from <= to <= s@.len(),
        to - from <= 16,
    ensures
        r is Some <==> forall|i: int| from <= i < to ==> is_hex_digit(#[trigger] s@[i]),
        r matches Some(v) ==> v as int == hex_num(s@.subrange(from as int, to as int)),
{
    let mut acc: u64 = 0;
    let mut i: usize = from;
    while i < to
        invariant
            from <= i <= to <= s@.len(),
            to - from <= 16,
            forall|k: int| from <= k < i ==> is_hex_digit(#[trigger] s@[k]),
            acc as int == hex_num(s@.subrange(from as int, i as int)),
        decreases to - i,
    {
        let c = s.get_char(i);
        let d = match hex_digit_value(c) {
            Some(d) => d,
            None => {
                return None;
            },
        };
        proof {
            let pre = s@.subrange(from as int, i as int);
            lemma_hex_num_bound(pre);
            lemma_pow16_mono(pre.len() as nat, 15);
            assert(pow16(15) == 0x1000000000000000) by {
                reveal_with_fuel(pow16, 16);
            }
            assert(s@.subrange(from as int, i + 1 as int).drop_last() =~= pre);
        }
        acc = acc * 16 + (d as u64);
        i = i + 1;
    }
    proof {
        assert(s@.subrange(from as int, to as int) =~= s@.subrange(from as int, i as int));
    }
    Some(acc)
}

/// Parse an external identifier string: exactly 24 hex digits, upper or
/// lower case. `None` on any malformed input.
pub fn parse_hex_id(s: &str) -> (r: Option<PostId>)
    ensures
        r is Some <==> valid_hex_id(s@),
        r matches Some(id) ==> id == id_of_hex(s@),
{
    let n = s.unicode_len();
    if n != 24 {
        return None;
    }
    let hi64 = match parse_hex_segment(s, 0, 8) {
        Some(v) => v,
        None => {
            return None;
        },
    };
    let lo = match parse_hex_segment(s, 8, 24) {
        Some(v) => v,
        None => {
            return None;
        },
    };
    proof {
        lemma_hex_num_bound(s@.subrange(0, 8));
        assert(pow16(8) == 0x100000000) by {
            reveal_with_fuel(pow16, 9);
        }
    }
    let id = PostId { hi: hi64 as u32, lo };
    proof {
        assert forall|i: int| 0 <= i < s@.len() implies is_hex_digit(#[trigger] s@[i]) by {
            if i < 8 {
                assert(is_hex_digit(s@[i]));
            } else {
                assert(is_hex_digit(s@[i]));
            }
        }
    }
    Some(id)
}

} // verus!
