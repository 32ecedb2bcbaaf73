//! The values that stand behind a key: text, flags and counts, as they are
//! written and as they are read.
//!
//! Reading a value has three outcomes, told apart by two layers of `Option`:
//! `None` for text that is no value of the expected kind, `Some(None)` for a
//! value that is left unset (nothing, `null` or `~` behind the key), and
//! `Some(Some(v))` for the value `v`.

use crate::text::{is_blank, string_of};
use vstd::prelude::*;
use vstd::slice::slice_subrange;
use vstd::string::StringExecFns;

verus! {

/// What stands behind a key that is present but carries no value.
pub open spec fn is_null(v: Seq<char>) -> bool {
    v.len() == 0 || v == seq!['~'] || v == seq!['n', 'u', 'l', 'l']
}

// ----- text -----
/// How one character is written inside double quotes.
pub open spec fn escape_char(c: char) -> Seq<char> {
    if c == '"' {
        seq!['\\', '"']
    } else if c == '\\' {
        seq!['\\', '\\']
    } else if c == '\n' {
        seq!['\\', 'n']
    } else if c == '\r' {
        seq!['\\', 'r']
    } else if c == '\t' {
        seq!['\\', 't']
    } else if c == '\0' {
        seq!['\\', '0']
    } else {
        seq![c]
    }
}

/// The character that a backslash followed by `c` stands for, if any.
pub open spec fn unescape_char(c: char) -> Option<char> {
    if c == '"' {
        Some('"')
    } else if c == '\\' {
        Some('\\')
    } else if c == 'n' {
        Some('\n')
    } else if c == 'r' {
        Some('\r')
    } else if c == 't' {
        Some('\t')
    } else if c == '0' {
        Some('\0')
    } else if c == '/' {
        Some('/')
    } else if c == ' ' {
        Some(' ')
    } else {
        None
    }
}

/// How a text is written between double quotes.
pub open spec fn escape(s: Seq<char>) -> Seq<char>
    decreases s.len(),
{
    if s.len() == 0 {
        Seq::empty()
    } else {
        escape(s.drop_last()) + escape_char(s.last())
    }
}

/// A text as it is written: escaped, between double quotes.
pub open spec fn quote(s: Seq<char>) -> Seq<char> {
    seq!['"'] + escape(s) + seq!['"']
}

/// The text that stands between double quotes, or `None` where a backslash
/// is followed by nothing or by a character it cannot be followed by, or
/// where a double quote stands unescaped.
pub open spec fn unescape(b: Seq<char>) -> Option<Seq<char>>
    decreases b.len(),
{
    if b.len() == 0 {
        Some(Seq::empty())
    } else if b[0] == '\\' {
        if b.len() >= 2 && unescape_char(b[1]) is Some {
            match unescape(b.skip(2)) {
                Some(rest) => Some(seq![unescape_char(b[1])->0] + rest),
                None => None,
            }
        } else {
            None
        }
    } else if b[0] == '"' {
        None
    } else {
        match unescape(b.skip(1)) {
            Some(rest) => Some(seq![b[0]] + rest),
            None => None,
        }
    }
}

/// The text that stands between single quotes, in which two single quotes
/// stand for one and a lone one is an error.
pub open spec fn unquote_single(b: Seq<char>) -> Option<Seq<char>>
    decreases b.len(),
{
    if b.len() == 0 {
        Some(Seq::empty())
    } else if b[0] == '\'' {
        if b.len() >= 2 && b[1] == '\'' {
            match unquote_single(b.skip(2)) {
                Some(rest) => Some(seq!['\''] + rest),
                None => None,
            }
        } else {
            None
        }
    } else {
        match unquote_single(b.skip(1)) {
            Some(rest) => Some(seq![b[0]] + rest),
            None => None,
        }
    }
}

/// Characters with which no unquoted text begins: they open a quoted text, a
/// list, a mapping, a comment, a tag, a reference or a block.
pub open spec fn is_indicator(c: char) -> bool {
    c == '"' || c == '\'' || c == '[' || c == ']' || c == '{' || c == '}' || c == '#'
        || c == '&' || c == '*' || c == '!' || c == '|' || c == '>' || c == '%' || c == '@'
        || c == '`' || c == ','
}

/// A text value: unset, double-quoted, single-quoted, or words without
/// quotes, which are taken as they stand.
pub open spec fn decode_string(v: Seq<char>) -> Option<Option<Seq<char>>> {
    if is_null(v) {
        Some(None)
    } else if v[0] == '"' {
        if v.len() >= 2 && v.last() == '"' {
            match unescape(v.subrange(1, v.len() - 1)) {
                Some(s) => Some(Some(s)),
                None => None,
            }
        } else {
            None
        }
    } else if v[0] == '\'' {
        if v.len() >= 2 && v.last() == '\'' {
            match unquote_single(v.subrange(1, v.len() - 1)) {
                Some(s) => Some(Some(s)),
                None => None,
            }
        } else {
            None
        }
    } else if is_indicator(v[0]) {
        None
    } else {
        Some(Some(v))
    }
}

// ----- flags -----
/// A flag as it is written.
pub open spec fn bool_text(b: bool) -> Seq<char> {
    if b {
        seq!['t', 'r', 'u', 'e']
    } else {
        seq!['f', 'a', 'l', 's', 'e']
    }
}

/// A flag value: unset, `true` or `false`.
pub open spec fn decode_bool(v: Seq<char>) -> Option<Option<bool>> {
    if is_null(v) {
        Some(None)
    } else if v == bool_text(true) {
        Some(Some(true))
    } else if v == bool_text(false) {
        Some(Some(false))
    } else {
        None
    }
}

// ----- counts -----
/// Whether `c` is one of the ten decimal digits.
pub open spec fn is_digit(c: char) -> bool {
    '0' <= c <= '9'
}

/// The number that the digit `c` stands for.
pub open spec fn digit_value(c: char) -> nat {
    (c as u32 - '0' as u32) as nat
}

/// The digit that stands for `d`, a number below ten.
pub open spec fn digit_char(d: nat) -> char {
    ('0' as u32 + d as u32) as char
}

/// Every character of `s` is a decimal digit.
pub open spec fn all_digits(s: Seq<char>) -> bool {
    forall|i: int| 0 <= i < s.len() ==> is_digit(#[trigger] s[i])
}

/// The number that a row of decimal digits stands for.
pub open spec fn digits_value(s: Seq<char>) -> nat
    decreases s.len(),
{
    if s.len() == 0 {
        0
    } else {
        digits_value(s.drop_last()) * 10 + digit_value(s.last())
    }
}

/// A number as it is written: in decimal digits, without leading zeros.
pub open spec fn decimal(n: nat) -> Seq<char>
    decreases n,
{
    if n < 10 {
        seq![digit_char(n)]
    } else {
        decimal(n / 10).push(digit_char(n % 10))
    }
}

/// A count: unset, or a row of decimal digits that stands for a number no
/// greater than `u64::MAX`.
pub open spec fn decode_u64(v: Seq<char>) -> Option<Option<u64>> {
    if is_null(v) {
        Some(None)
    } else if all_digits(v) && digits_value(v) <= u64::MAX {
        Some(Some(digits_value(v) as u64))
    } else {
        None
    }
}

// ----- what holds of written values -----
/// A written value that a line can carry and give back: it is not empty, has
/// no blank at either end and no line feed anywhere.
pub open spec fn tight(v: Seq<char>) -> bool {
    &&& v.len() > 0
    &&& !is_blank(v[0])
    &&& !is_blank(v.last())
    &&& forall|i: int| 0 <= i < v.len() ==> v[i] != '\n'
}

/// Escaping goes through a text piece by piece.
pub proof fn lemma_escape_concat(a: Seq<char>, b: Seq<char>)
    ensures
        escape(a + b) == escape(a) + escape(b),
    decreases b.len(),
{
    if b.len() == 0 {
        assert(a + b =~= a);
        assert(escape(a) + escape(b) =~= escape(a));
    } else {
        assert((a + b).drop_last() =~= a + b.drop_last());
        lemma_escape_concat(a, b.drop_last());
        assert(escape(a) + escape(b.drop_last()) + escape_char(b.last()) =~= escape(a) + (escape(
            b.drop_last(),
        ) + escape_char(b.last())));
    }
}

/// An escaped text holds no line feed and no bare double quote, and reads
/// back as the text it was made from.
pub proof fn lemma_unescape_escape(s: Seq<char>)
    ensures
        unescape(escape(s)) == Some(s),
        forall|i: int| 0 <= i < escape(s).len() ==> escape(s)[i] != '\n',
    decreases s.len(),
{
    if s.len() == 0 {
    } else {
        let c = s[0];
        let rest = s.drop_first();
        assert(s =~= seq![c] + rest);
        lemma_escape_concat(seq![c], rest);
        assert(seq![c].drop_last() =~= Seq::<char>::empty());
        assert(escape(seq![c].drop_last()) =~= Seq::<char>::empty());
        assert(seq![c].last() == c);
        assert(escape(seq![c]) =~= escape_char(c));
        lemma_unescape_escape(rest);
        let e = escape(s);
        assert(e == escape_char(c) + escape(rest));
        if escape_char(c).len() == 2 {
            assert(e[0] == '\\');
            assert(e.skip(2) =~= escape(rest));
            assert(unescape_char(e[1]) == Some(c));
        } else {
            assert(e[0] == c);
            assert(e.skip(1) =~= escape(rest));
        }
        assert(seq![c] + rest =~= s);
        assert forall|i: int| 0 <= i < e.len() implies e[i] != '\n' by {
            if i >= escape_char(c).len() {
                assert(e[i] == escape(rest)[i - escape_char(c).len()]);
            }
        }
    }
}

/// A quoted text is a value that a line can carry, and it reads back as the
/// text that was quoted.
pub proof fn lemma_decode_quote(s: Seq<char>)
    ensures
        tight(quote(s)),
        decode_string(quote(s)) == Some(Some(s)),
{
    lemma_unescape_escape(s);
    let q = quote(s);
    assert(q[0] == '"');
    assert(q.last() == '"');
    assert(q.subrange(1, q.len() - 1) =~= escape(s));
    assert(seq!['~'][0] == '~');
    assert(seq!['n', 'u', 'l', 'l'][0] == 'n');
    assert forall|i: int| 0 <= i < q.len() implies q[i] != '\n' by {
        if 1 <= i < q.len() - 1 {
            assert(q[i] == escape(s)[i - 1]);
        }
    }
}

/// A written flag is a value that a line can carry, and it reads back as the
/// flag that was written.
pub proof fn lemma_decode_bool_text(b: bool)
    ensures
        tight(bool_text(b)),
        decode_bool(bool_text(b)) == Some(Some(b)),
{
    assert(seq!['~'].len() == 1);
    assert(seq!['n', 'u', 'l', 'l'].len() == 4);
    assert(bool_text(true).len() == 4);
    assert(bool_text(false).len() == 5);
    assert(bool_text(true)[0] == 't');
    assert(bool_text(false)[0] == 'f');
}

/// The digits of a number are digits, and they stand for that number.
pub proof fn lemma_digits_of_decimal(n: nat)
    ensures
        decimal(n).len() > 0,
        all_digits(decimal(n)),
        digits_value(decimal(n)) == n,
    decreases n,
{
    if n < 10 {
        let s = decimal(n);
        assert(s.drop_last() =~= Seq::<char>::empty());
        assert(digits_value(s.drop_last()) == 0);
    } else {
        lemma_digits_of_decimal(n / 10);
        let s = decimal(n);
        assert(s.drop_last() =~= decimal(n / 10));
        assert(s.last() == digit_char(n % 10));
    }
}

/// A written count is a value that a line can carry, and it reads back as the
/// count that was written.
pub proof fn lemma_decode_decimal(n: u64)
    ensures
        tight(decimal(n as nat)),
        decode_u64(decimal(n as nat)) == Some(Some(n)),
{
    lemma_digits_of_decimal(n as nat);
    let s = decimal(n as nat);
    assert(is_digit(s[0]));
    assert(is_digit(s.last()));
    assert(seq!['~'][0] == '~');
    assert(seq!['n', 'u', 'l', 'l'][0] == 'n');
    assert forall|i: int| 0 <= i < s.len() implies s[i] != '\n' by {
        assert(is_digit(s[i]));
    }
}

/// A row of digits stands for at least as much as any of its beginnings.
pub proof fn lemma_digits_value_grows(s: Seq<char>, k: int)
    requires
        0 <= k <= s.len(),
    ensures
        digits_value(s.take(k)) <= digits_value(s),
    decreases s.len(),
{
    if k == s.len() {
        assert(s.take(k) =~= s);
    } else {
        assert(s.drop_last().take(k) =~= s.take(k));
        lemma_digits_value_grows(s.drop_last(), k);
    }
}

// ----- reading -----
/// Whether nothing, `~` or `null` stands behind the key.
pub fn null_value(v: &[char]) -> (b: bool)
    ensures
        b == is_null(v@),
{
    let n = v.len();
    if n == 0 {
        true
    } else if n == 1 {
        assert(v@ =~= seq![v@[0]]);
        assert(seq!['~'][0] == '~');
        v[0] == '~'
    } else if n == 4 {
        assert(v@ =~= seq![v@[0], v@[1], v@[2], v@[3]]);
        let ghost word = seq!['n', 'u', 'l', 'l'];
        assert(word[0] == 'n' && word[1] == 'u' && word[2] == 'l' && word[3] == 'l');
        v[0] == 'n' && v[1] == 'u' && v[2] == 'l' && v[3] == 'l'
    } else {
        false
    }
}

/// The character that a backslash followed by `c` stands for.
pub fn unescaped(c: char) -> (r: Option<char>)
    ensures
        r == unescape_char(c),
{
    if c == '"' {
        Some('"')
    } else if c == '\\' {
        Some('\\')
    } else if c == 'n' {
        Some('\n')
    } else if c == 'r' {
        Some('\r')
    } else if c == 't' {
        Some('\t')
    } else if c == '0' {
        Some('\0')
    } else if c == '/' {
        Some('/')
    } else if c == ' ' {
        Some(' ')
    } else {
        None
    }
}

/// Reads what stands between double quotes.
pub fn read_escaped(b: &[char]) -> (r: Option<String>)
    ensures
        r.deep_view() == unescape(b@),
{
    let mut out = String::new();
    let mut i: usize = 0;
    assert(b@.skip(0) =~= b@);
    while i < b.len()
        invariant
            i <= b@.len(),
            unescape(b@) == match unescape(b@.skip(i as int)) {
                Some(rest) => Some(out@ + rest),
                None => None,
            },
        decreases b@.len() - i,
    {
        let ghost tail = b@.skip(i as int);
        let ghost before = out@;
        let c = b[i];
        assert(tail[0] == c);
        if c == '\\' {
            if i + 1 < b.len() {
                assert(tail[1] == b@[i + 1]);
                match unescaped(b[i + 1]) {
                    Some(d) => {
                        out.push(d);
                        proof {
                            assert(tail.skip(2) =~= b@.skip(i + 2));
                            assert forall|rest: Seq<char>|
                                before + (seq![d] + rest) == before.push(d) + rest by {
                                assert(before + (seq![d] + rest) =~= before.push(d) + rest);
                            }
                        }
                        i += 2;
                    },
                    None => {
                        return None;
                    },
                }
            } else {
                return None;
            }
        } else if c == '"' {
            return None;
        } else {
            out.push(c);
            proof {
                assert(tail.skip(1) =~= b@.skip(i + 1));
                assert forall|rest: Seq<char>|
                    before + (seq![c] + rest) == before.push(c) + rest by {
                    assert(before + (seq![c] + rest) =~= before.push(c) + rest);
                }
            }
            i += 1;
        }
    }
    assert(out@ + Seq::<char>::empty() =~= out@);
    Some(out)
}

/// Reads what stands between single quotes.
pub fn read_single_quoted(b: &[char]) -> (r: Option<String>)
    ensures
        r.deep_view() == unquote_single(b@),
{
    let mut out = String::new();
    let mut i: usize = 0;
    assert(b@.skip(0) =~= b@);
    while i < b.len()
        invariant
            i <= b@.len(),
            unquote_single(b@) == match unquote_single(b@.skip(i as int)) {
                Some(rest) => Some(out@ + rest),
                None => None,
            },
        decreases b@.len() - i,
    {
        let ghost tail = b@.skip(i as int);
        let ghost before = out@;
        let c = b[i];
        assert(tail[0] == c);
        if c == '\'' {
            if i + 1 < b.len() && b[i + 1] == '\'' {
                assert(tail[1] == b@[i + 1]);
                out.push('\'');
                proof {
                    assert(tail.skip(2) =~= b@.skip(i + 2));
                    assert forall|rest: Seq<char>|
                        before + (seq!['\''] + rest) == before.push('\'') + rest by {
                        assert(before + (seq!['\''] + rest) =~= before.push('\'') + rest);
                    }
                }
                i += 2;
            } else {
                assert(i + 1 < b@.len() ==> tail[1] == b@[i + 1]);
                return None;
            }
        } else {
            out.push(c);
            proof {
                assert(tail.skip(1) =~= b@.skip(i + 1));
                assert forall|rest: Seq<char>|
                    before + (seq![c] + rest) == before.push(c) + rest by {
                    assert(before + (seq![c] + rest) =~= before.push(c) + rest);
                }
            }
            i += 1;
        }
    }
    assert(out@ + Seq::<char>::empty() =~= out@);
    Some(out)
}

/// Whether no unquoted text begins with `c`.
pub fn indicator(c: char) -> (b: bool)
    ensures
        b == is_indicator(c),
{
    c == '"' || c == '\'' || c == '[' || c == ']' || c == '{' || c == '}' || c == '#'
        || c == '&' || c == '*' || c == '!' || c == '|' || c == '>' || c == '%' || c == '@'
        || c == '`' || c == ','
}

/// Reads a text value.
pub fn read_string(v: &[char]) -> (r: Option<Option<String>>)
    ensures
        r.deep_view() == decode_string(v@),
{
    if null_value(v) {
        return Some(None);
    }
    let n = v.len();
    let first = v[0];
    if first == '"' {
        if n >= 2 && v[n - 1] == '"' {
            match read_escaped(slice_subrange(v, 1, n - 1)) {
                Some(s) => Some(Some(s)),
                None => None,
            }
        } else {
            None
        }
    } else if first == '\'' {
        if n >= 2 && v[n - 1] == '\'' {
            match read_single_quoted(slice_subrange(v, 1, n - 1)) {
                Some(s) => Some(Some(s)),
                None => None,
            }
        } else {
            None
        }
    } else if indicator(first) {
        None
    } else {
        Some(Some(string_of(v)))
    }
}

/// Reads a flag.
pub fn read_bool(v: &[char]) -> (r: Option<Option<bool>>)
    ensures
        r == decode_bool(v@),
{
    if null_value(v) {
        return Some(None);
    }
    let n = v.len();
    let ghost yes = bool_text(true);
    let ghost no = bool_text(false);
    assert(yes.len() == 4 && yes[0] == 't' && yes[1] == 'r' && yes[2] == 'u' && yes[3] == 'e');
    assert(no.len() == 5 && no[0] == 'f' && no[1] == 'a' && no[2] == 'l' && no[3] == 's' && no[4]
        == 'e');
    if n == 4 && v[0] == 't' && v[1] == 'r' && v[2] == 'u' && v[3] == 'e' {
        assert(v@ =~= yes);
        Some(Some(true))
    } else if n == 5 && v[0] == 'f' && v[1] == 'a' && v[2] == 'l' && v[3] == 's' && v[4] == 'e' {
        assert(v@ =~= no);
        Some(Some(false))
    } else {
        None
    }
}

/// Reads a count.
pub fn read_u64(v: &[char]) -> (r: Option<Option<u64>>)
    ensures
        r == decode_u64(v@),
{
    if null_value(v) {
        return Some(None);
    }
    let mut acc: u64 = 0;
    let mut i: usize = 0;
    while i < v.len()
        invariant
            !is_null(v@),
            i <= v@.len(),
            all_digits(v@.take(i as int)),
            acc == digits_value(v@.take(i as int)),
        decreases v@.len() - i,
    {
        let c = v[i];
        if !('0' <= c && c <= '9') {
            assert(!is_digit(v@[i as int]));
            return None;
        }
        let d: u64 = (c as u32 - '0' as u32) as u64;
        let ghost longer = v@.take(i + 1);
        assert(longer.drop_last() =~= v@.take(i as int));
        assert(longer.last() == c);
        if acc > (u64::MAX - d) / 10 {
            proof {
                lemma_digits_value_grows(v@, i + 1);
            }
            return None;
        }
        acc = acc * 10 + d;
        i += 1;
    }
    assert(v@.take(v@.len() as int) =~= v@);
    Some(Some(acc))
}

// ----- writing -----
/// Writes `s` between double quotes at the end of `out`.
pub fn write_quoted(out: &mut String, s: &str)
    ensures
        final(out)@ == old(out)@ + quote(s@),
{
    let ghost before = out@;
    out.push('"');
    for c in it: s.chars()
        invariant
            it.seq() == s@,
            out@ == before + seq!['"'] + escape(it.seq().take(it.index() as int)),
    {
        let ghost done = it.seq().take(it.index() as int);
        let ghost more = it.seq().take(it.index() + 1);
        assert(more.drop_last() =~= done);
        assert(more.last() == c);
        let ghost start = out@;
        if c == '"' {
            out.push('\\');
            out.push('"');
        } else if c == '\\' {
            out.push('\\');
            out.push('\\');
        } else if c == '\n' {
            out.push('\\');
            out.push('n');
        } else if c == '\r' {
            out.push('\\');
            out.push('r');
        } else if c == '\t' {
            out.push('\\');
            out.push('t');
        } else if c == '\0' {
            out.push('\\');
            out.push('0');
        } else {
            out.push(c);
        }
        assert(out@ =~= start + escape_char(c));
        assert(out@ =~= before + seq!['"'] + escape(more));
    }
    assert(s@.take(s@.len() as int) =~= s@);
    out.push('"');
    assert(out@ =~= before + quote(s@));
}

/// Writes `b` at the end of `out`.
pub fn write_bool(out: &mut String, b: bool)
    ensures
        final(out)@ == old(out)@ + bool_text(b),
{
    proof {
        reveal_strlit("true");
        reveal_strlit("false");
    }
    if b {
        assert("true"@ =~= bool_text(true));
        out.append("true");
    } else {
        assert("false"@ =~= bool_text(false));
        out.append("false");
    }
}

/// Writes `n` in decimal digits at the end of `out`.
pub fn write_decimal(out: &mut String, n: u64)
    ensures
        final(out)@ == old(out)@ + decimal(n as nat),
    decreases n,
{
    let ghost before = out@;
    if n >= 10 {
        write_decimal(out, n / 10);
    }
    let d: u8 = (n % 10) as u8;
    let c: char = (48u8 + d) as char;
    assert(c == digit_char((n % 10) as nat));
    out.push(c);
    assert(out@ =~= before + decimal(n as nat));
}

} // verus!
