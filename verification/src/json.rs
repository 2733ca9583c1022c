//! Building blocks for the canonical JSON representation: escaping, decimal
//! rendering of integers, and joined arrays, each with an exact
//! specification over `Seq<char>`.

use vstd::prelude::*;
use vstd::string::*;

verus! {

/// The character for one digit value (decimal digits, then the lower-case
/// hexadecimal letters).
pub open spec fn digit_char(d: int) -> char {
    if d == 0 {
        '0'
    } else if d == 1 {
        '1'
    } else if d == 2 {
        '2'
    } else if d == 3 {
        '3'
    } else if d == 4 {
        '4'
    } else if d == 5 {
        '5'
    } else if d == 6 {
        '6'
    } else if d == 7 {
        '7'
    } else if d == 8 {
        '8'
    } else if d == 9 {
        '9'
    } else if d == 10 {
        'a'
    } else if d == 11 {
        'b'
    } else if d == 12 {
        'c'
    } else if d == 13 {
        'd'
    } else if d == 14 {
        'e'
    } else {
        'f'
    }
}

fn digit_char_exec(d: u64) -> (c: char)
    requires
        d < 16,
    ensures
        c == digit_char(d as int),
{
    if d == 0 {
        '0'
    } else if d == 1 {
        '1'
    } else if d == 2 {
        '2'
    } else if d == 3 {
        '3'
    } else if d == 4 {
        '4'
    } else if d == 5 {
        '5'
    } else if d == 6 {
        '6'
    } else if d == 7 {
        '7'
    } else if d == 8 {
        '8'
    } else if d == 9 {
        '9'
    } else if d == 10 {
        'a'
    } else if d == 11 {
        'b'
    } else if d == 12 {
        'c'
    } else if d == 13 {
        'd'
    } else if d == 14 {
        'e'
    } else {
        'f'
    }
}

/// Decimal representation of a non-negative integer, most significant digit
/// first, with no leading zeros (a single `0` for zero).
pub open spec fn dec_rep(n: int) -> Seq<char>
    decreases n,
{
    if n < 10 {
        seq![digit_char(n)]
    } else {
        dec_rep(n / 10).push(digit_char(n % 10))
    }
}

/// Decimal representation of a signed integer: a `-` sign, if negative,
/// followed by the digits of the absolute value.
pub open spec fn dec_rep_signed(n: int) -> Seq<char> {
    if n < 0 {
        seq!['-'] + dec_rep(-n)
    } else {
        dec_rep(n)
    }
}

/// Appends the decimal digits of `n` to `out`.
pub fn push_dec_u64(out: &mut Vec<char>, n: u64)
    ensures
        final(out)@ == old(out)@ + dec_rep(n as int),
    decreases n,
{
    if n < 10 {
        out.push(digit_char_exec(n));
        assert(out@ =~= old(out)@ + dec_rep(n as int));
    } else {
        push_dec_u64(out, n / 10);
        out.push(digit_char_exec(n % 10));
        assert(out@ =~= old(out)@ + dec_rep(n as int));
    }
}

/// Appends the signed decimal representation of `n` to `out`.
pub fn push_dec_i64(out: &mut Vec<char>, n: i64)
    ensures
        final(out)@ == old(out)@ + dec_rep_signed(n as int),
{
    if n < 0 {
        out.push('-');
        let wide: i128 = -(n as i128);
        assert(0 <= wide <= u64::MAX);
        let mag: u64 = wide as u64;
        push_dec_u64(out, mag);
        assert(out@ =~= old(out)@ + dec_rep_signed(n as int));
    } else {
        let mag: u64 = n as u64;
        push_dec_u64(out, mag);
    }
}

/// How one character reads inside a JSON string: quotes and backslashes get
/// a backslash, the common control characters their short escape, the other
/// control characters a `\u00..` escape, and everything else stands as it
/// is.
pub open spec fn escape_char(c: char) -> Seq<char> {
    if c == '"' {
        seq!['\\', '"']
    } else if c == '\\' {
        seq!['\\', '\\']
    } else if c == '\n' {
        seq!['\\', 'n']
    } else if c == '\r' {
        seq!['\\', 'r']
    } else if c == '\t' {
        seq!['\\', 't']
    } else if (c as u32) < 32 {
        seq!['\\', 'u', '0', '0', digit_char((c as u32) as int / 16), digit_char((c as u32) as int % 16)]
    } else {
        seq![c]
    }
}

/// JSON escaping of a whole character sequence.
pub open spec fn escape_seq(s: Seq<char>) -> Seq<char>
    decreases s.len(),
{
    if s.len() == 0 {
        Seq::empty()
    } else {
        escape_char(s[0]) + escape_seq(s.drop_first())
    }
}

/// Escaping distributes over appending one character at the end.
pub proof fn lemma_escape_push(s: Seq<char>, c: char)
    ensures
        escape_seq(s.push(c)) == escape_seq(s) + escape_char(c),
    decreases s.len(),
{
    if s.len() == 0 {
        assert(s.push(c)[0] == c);
        assert(s.push(c).drop_first() =~= s);
        assert(escape_seq(s.push(c)) =~= escape_seq(s) + escape_char(c));
    } else {
        assert(s.push(c)[0] == s[0]);
        assert(s.push(c).drop_first() =~= s.drop_first().push(c));
        lemma_escape_push(s.drop_first(), c);
        assert(escape_seq(s.push(c)) =~= escape_seq(s) + escape_char(c));
    }
}

/// A quoted, escaped JSON string.
pub open spec fn json_string(s: Seq<char>) -> Seq<char> {
    seq!['"'] + escape_seq(s) + seq!['"']
}

/// Appends the characters of `s` to `out` unchanged.
pub fn push_str_chars(out: &mut Vec<char>, s: &str)
    ensures
        final(out)@ == old(out)@ + s@,
{
    let n = s.unicode_len();
    let mut i: usize = 0;
    while i < n
        invariant
            n == s@.len(),
            0 <= i <= n,
            out@ == old(out)@ + s@.subrange(0, i as int),
        decreases n - i,
    {
        out.push(s.get_char(i));
        assert(out@ =~= old(out)@ + s@.subrange(0, i + 1 as int));
        i += 1;
    }
    proof {
        assert(s@.subrange(0, n as int) =~= s@);
    }
}

/// Appends the JSON escaping of `s` to `out`.
pub fn push_escaped(out: &mut Vec<char>, s: &str)
    ensures
        final(out)@ == old(out)@ + escape_seq(s@),
{
    let n = s.unicode_len();
    let mut i: usize = 0;
    while i < n
        invariant
            n == s@.len(),
            0 <= i <= n,
            out@ == old(out)@ + escape_seq(s@.subrange(0, i as int)),
        decreases n - i,
    {
        let c = s.get_char(i);
        if c == '"' {
            out.push('\\');
            out.push('"');
        } else if c == '\\' {
            out.push('\\');
            out.push('\\');
        } else if c == '\n' {
            out.push('\\');
            out.push('n');
        } else if c == '\r' {
            out.push('\\');
            out.push('r');
        } else if c == '\t' {
            out.push('\\');
            out.push('t');
        } else if (c as u32) < 32 {
            out.push('\\');
            out.push('u');
            out.push('0');
            out.push('0');
            let v: u32 = c as u32;
            out.push(digit_char_exec((v / 16) as u64));
            out.push(digit_char_exec((v % 16) as u64));
        } else {
            out.push(c);
        }
        proof {
            assert(s@.subrange(0, i as int).push(s@[i as int]) =~= s@.subrange(0, i + 1 as int));
            lemma_escape_push(s@.subrange(0, i as int), s@[i as int]);
            assert(out@ =~= old(out)@ + escape_seq(s@.subrange(0, i + 1 as int)));
        }
        i += 1;
    }
    proof {
        assert(s@.subrange(0, n as int) =~= s@);
    }
}

/// Appends the quoted, escaped JSON string for `s` to `out`.
pub fn push_json_string(out: &mut Vec<char>, s: &str)
    ensures
        final(out)@ == old(out)@ + json_string(s@),
{
    out.push('"');
    push_escaped(out, s);
    out.push('"');
    assert(out@ =~= old(out)@ + json_string(s@));
}

/// JSON strings joined by commas, in order.
pub open spec fn join_json_strings(elems: Seq<Seq<char>>) -> Seq<char>
    decreases elems.len(),
{
    if elems.len() == 0 {
        Seq::empty()
    } else if elems.len() == 1 {
        json_string(elems[0])
    } else {
        join_json_strings(elems.drop_last()) + seq![','] + json_string(elems.last())
    }
}

/// A JSON array of strings.
pub open spec fn json_string_array(elems: Seq<Seq<char>>) -> Seq<char> {
    seq!['['] + join_json_strings(elems) + seq![']']
}

/// Appends the JSON array holding the strings of `elems`, in order.
pub fn push_json_string_array(out: &mut Vec<char>, elems: &Vec<String>)
    ensures
        final(out)@ == old(out)@ + json_string_array(elems.deep_view()),
{
    out.push('[');
    let n = elems.len();
    let mut i: usize = 0;
    while i < n
        invariant
            n == elems@.len(),
            0 <= i <= n,
            elems.deep_view().len() == n,
            forall|k: int| 0 <= k < n ==> elems.deep_view()[k] == elems@[k]@,
            out@ == old(out)@ + seq!['['] + join_json_strings(
                elems.deep_view().subrange(0, i as int),
            ),
        decreases n - i,
    {
        if i > 0 {
            out.push(',');
        }
        push_json_string(out, elems[i].as_str());
        proof {
            let pref = elems.deep_view().subrange(0, i as int);
            let next = elems.deep_view().subrange(0, i + 1 as int);
            assert(next.drop_last() =~= pref);
            assert(next.last() == elems.deep_view()[i as int]);
            if i == 0 {
                assert(next.len() == 1);
                assert(out@ =~= old(out)@ + seq!['['] + join_json_strings(next));
            } else {
                assert(out@ =~= old(out)@ + seq!['['] + join_json_strings(next));
            }
        }
        i += 1;
    }
    out.push(']');
    proof {
        assert(elems.deep_view().subrange(0, n as int) =~= elems.deep_view());
        assert(out@ =~= old(out)@ + json_string_array(elems.deep_view()));
    }
}

/// Decimal numbers joined by commas, in order.
pub open spec fn join_dec_bytes(elems: Seq<u8>) -> Seq<char>
    decreases elems.len(),
{
    if elems.len() == 0 {
        Seq::empty()
    } else if elems.len() == 1 {
        dec_rep(elems[0] as int)
    } else {
        join_dec_bytes(elems.drop_last()) + seq![','] + dec_rep(elems.last() as int)
    }
}

/// A JSON array of byte values written as decimal numbers.
pub open spec fn json_byte_array(elems: Seq<u8>) -> Seq<char> {
    seq!['['] + join_dec_bytes(elems) + seq![']']
}

/// Appends the JSON array holding the bytes of `elems` as numbers, in order.
pub fn push_json_byte_array(out: &mut Vec<char>, elems: &Vec<u8>)
    ensures
        final(out)@ == old(out)@ + json_byte_array(elems@),
{
    out.push('[');
    let n = elems.len();
    let mut i: usize = 0;
    while i < n
        invariant
            n == elems@.len(),
            0 <= i <= n,
            out@ == old(out)@ + seq!['['] + join_dec_bytes(elems@.subrange(0, i as int)),
        decreases n - i,
    {
        if i > 0 {
            out.push(',');
        }
        push_dec_u64(out, elems[i] as u64);
        proof {
            let pref = elems@.subrange(0, i as int);
            let next = elems@.subrange(0, i + 1 as int);
            assert(next.drop_last() =~= pref);
            assert(next.last() == elems@[i as int]);
            assert(out@ =~= old(out)@ + seq!['['] + join_dec_bytes(next));
        }
        i += 1;
    }
    out.push(']');
    proof {
        assert(elems@.subrange(0, n as int) =~= elems@);
        assert(out@ =~= old(out)@ + json_byte_array(elems@));
    }
}

/// Appends `true` or `false`.
pub fn push_bool(out: &mut Vec<char>, b: bool)
    ensures
        final(out)@ == old(out)@ + bool_rep(b),
{
    if b {
        push_str_chars(out, "true");
    } else {
        push_str_chars(out, "false");
    }
}

/// The JSON text of a boolean.
pub open spec fn bool_rep(b: bool) -> Seq<char> {
    if b {
        "true"@
    } else {
        "false"@
    }
}

/// Collects the characters of `v` into a `String`.
///
/// Relies on `String`'s `FromIterator<char>` implementation of std: the
/// collected string holds exactly the characters of the iterator, in order.
#[verifier::external_body]
pub(crate) fn chars_to_string(v: &Vec<char>) -> (r: String)
    ensures
        r@ == v@,
{
    v.iter().collect()
}

} // verus!
