//! Small pieces of Rust source text.
use vstd::prelude::*;
use vstd::string::*;

verus! {

/// An identifier without the `r#` of a raw identifier: the text that
/// `quote::format_ident!` splices in for an identifier argument.
pub open spec fn unraw(ident: Seq<char>) -> Seq<char> {
    if ident.len() >= 2 && ident[0] == 'r' && ident[1] == '#' {
        ident.skip(2)
    } else {
        ident
    }
}

/// Strips the `r#` of a raw identifier.
pub fn unraw_ident(ident: &str) -> (r: String)
    ensures
        r@ == unraw(ident@),
{
    let n = ident.unicode_len();
    if n >= 2 && ident.get_char(0) == 'r' && ident.get_char(1) == '#' {
        String::from_str(ident.substring_char(2, n))
    } else {
        String::from_str(ident)
    }
}

/// A printable ASCII character that stands for itself inside a string
/// literal: neither a quote nor a backslash.
pub open spec fn plain_char(c: char) -> bool {
    0x20 <= (c as u32) <= 0x7e && c != '"' && c != '\\' && c != '\''
}

/// Every character of `s` stands for itself inside a string literal.
pub open spec fn all_plain(s: Seq<char>) -> bool {
    forall|i: int| 0 <= i < s.len() ==> plain_char(#[trigger] s[i])
}

/// `s` between double quotes.
pub open spec fn quoted(s: Seq<char>) -> Seq<char> {
    seq!['"'] + s + seq!['"']
}

/// The value of a hexadecimal digit.
pub open spec fn hex_digit(c: char) -> Option<int> {
    let n = c as int;
    if 0x30 <= n <= 0x39 {
        Some(n - 0x30)
    } else if 0x61 <= n <= 0x66 {
        Some(n - 0x61 + 10)
    } else if 0x41 <= n <= 0x46 {
        Some(n - 0x41 + 10)
    } else {
        None
    }
}

/// The value of a string of hexadecimal digits (0 for the empty string).
pub open spec fn hex_value(digits: Seq<char>) -> Option<int>
    decreases digits.len(),
{
    if digits.len() == 0 {
        Some(0)
    } else {
        match (hex_value(digits.drop_last()), hex_digit(digits.last())) {
            (Some(a), Some(d)) => Some(a * 16 + d),
            _ => None,
        }
    }
}

/// A Unicode scalar value: a code point that is not a surrogate.
pub open spec fn is_scalar(v: int) -> bool {
    (0 <= v <= 0xD7FF) || (0xE000 <= v <= 0x10FFFF)
}

/// The position of the first `}` in `body` from position `i` on.
pub open spec fn close_brace(body: Seq<char>, i: int) -> Option<int>
    decreases body.len() - i,
{
    if i < 0 || i >= body.len() {
        None
    } else if body[i] == '}' {
        Some(i)
    } else {
        close_brace(body, i + 1)
    }
}

/// The character a one-letter escape `\c` stands for.
pub open spec fn simple_escape(c: char) -> Option<char> {
    if c == 'n' {
        Some('\n')
    } else if c == 'r' {
        Some('\r')
    } else if c == 't' {
        Some('\t')
    } else if c == '\\' {
        Some('\\')
    } else if c == '0' {
        Some('\0')
    } else if c == '\'' {
        Some('\'')
    } else if c == '"' {
        Some('"')
    } else {
        None
    }
}

/// The escape at the start of `body` (which starts with a backslash): the
/// character it stands for and its length.  A one-letter escape, `\xHH`
/// with a value of at most 0x7F, or `\u{H..}` with one to six digits and a
/// scalar value.
pub open spec fn escape_at(body: Seq<char>) -> Option<(char, int)> {
    if body.len() < 2 {
        None
    } else if simple_escape(body[1]) is Some {
        Some((simple_escape(body[1])->0, 2))
    } else if body[1] == 'x' {
        if body.len() >= 4 {
            match hex_value(body.subrange(2, 4)) {
                Some(v) => if v <= 0x7f {
                    Some((v as char, 4))
                } else {
                    None
                },
                None => None,
            }
        } else {
            None
        }
    } else if body[1] == 'u' && body.len() >= 3 && body[2] == '{' {
        match close_brace(body, 3) {
            Some(k) => {
                let digits = body.subrange(3, k);
                if 1 <= digits.len() <= 6 {
                    match hex_value(digits) {
                        Some(v) => if is_scalar(v) {
                            Some((v as char, k + 1))
                        } else {
                            None
                        },
                        None => None,
                    }
                } else {
                    None
                }
            },
            None => None,
        }
    } else {
        None
    }
}

/// The value of the text between the quotes of a Rust string literal, or
/// `None` when the text is not such a body: every character stands for
/// itself but `"`, a bare carriage return, and `\`, which starts an escape.
pub open spec fn unescape(body: Seq<char>) -> Option<Seq<char>>
    decreases body.len(),
{
    if body.len() == 0 {
        Some(Seq::empty())
    } else if body[0] == '\\' {
        match escape_at(body) {
            Some((c, n)) => if 0 < n <= body.len() {
                match unescape(body.skip(n)) {
                    Some(rest) => Some(seq![c] + rest),
                    None => None,
                }
            } else {
                None
            },
            None => None,
        }
    } else if body[0] == '"' || body[0] == '\r' {
        None
    } else {
        match unescape(body.drop_first()) {
            Some(rest) => Some(seq![body[0]] + rest),
            None => None,
        }
    }
}

/// The value of the Rust string literal `lit`, or `None` when `lit` is not
/// a (non-raw) string literal.
pub open spec fn literal_value(lit: Seq<char>) -> Option<Seq<char>> {
    if lit.len() >= 2 && lit[0] == '"' && lit.last() == '"' {
        unescape(lit.subrange(1, lit.len() - 1))
    } else {
        None
    }
}

/// `lit` is a string literal written for `value`: its value is `value`,
/// and where every character of `value` is plain, it is `value` between
/// double quotes.
pub open spec fn literal_of(value: Seq<char>, lit: Seq<char>) -> bool {
    &&& literal_value(lit) == Some(value)
    &&& all_plain(value) ==> lit == quoted(value)
}

proof fn plain_unescape(v: Seq<char>)
    requires
        all_plain(v),
    ensures
        unescape(v) == Some(v),
    decreases v.len(),
{
    if v.len() > 0 {
        assert(plain_char(v[0]));
        assert forall|i: int| 0 <= i < v.drop_first().len() implies plain_char(#[trigger] v.drop_first()[i]) by {
            assert(plain_char(v[i + 1]));
        }
        plain_unescape(v.drop_first());
        assert(seq![v[0]] + v.drop_first() =~= v);
    }
}

/// The two clauses of `literal_of` agree: a plain value between double
/// quotes is a string literal whose value is that value.
pub proof fn lemma_quoted_plain_value(v: Seq<char>)
    requires
        all_plain(v),
    ensures
        literal_value(quoted(v)) == Some(v),
        literal_of(v, quoted(v)),
{
    plain_unescape(v);
    assert(quoted(v).subrange(1, quoted(v).len() - 1) =~= v);
}

/// `proc_macro2::Literal::string`, written out with `to_string`: the Rust
/// source of a string literal whose value is `value`.  Inside a procedural
/// macro the compiler writes the text, elsewhere proc-macro2 escapes each
/// character with `char::escape_debug` (leaving `'` as it is, and writing a
/// NUL before a digit as `\x00`); both write a value of plain printable
/// characters between double quotes unchanged.  What is not stated is which
/// of the escapes for a character other characters get.
#[verifier::external_body]
pub(crate) fn string_literal(value: &str) -> (r: String)
    ensures
        literal_of(value@, r@),
{
    proc_macro2::Literal::string(value).to_string()
}

} // verus!
