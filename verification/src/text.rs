//! Character classification and text helpers.
//!
//! The Unicode character classes come from the standard library and are
//! named, not restated: the two class predicates below are functions of
//! the character alone.
use vstd::prelude::*;

verus! {

/// Whether `c` has the Unicode whitespace property.
pub uninterp spec fn unicode_whitespace(c: char) -> bool;

/// Whether `c` has the Unicode alphanumeric property.
pub uninterp spec fn unicode_alphanumeric(c: char) -> bool;

/// Relies on `char::is_whitespace`: the Unicode whitespace property of
/// the character alone.
pub assume_specification[ char::is_whitespace ](c: char) -> (r: bool)
    ensures
        r == unicode_whitespace(c),
;

/// Relies on `char::is_alphanumeric`: the Unicode alphanumeric property
/// of the character alone.
pub assume_specification[ char::is_alphanumeric ](c: char) -> (r: bool)
    ensures
        r == unicode_alphanumeric(c),
;

/// Relies on `String::push`: appends the one character to the end.
pub assume_specification[ String::push ](s: &mut String, c: char)
    ensures
        final(s)@ == old(s)@.push(c),
;

/// What a string looks like after every word is capitalized and the
/// separators are removed (upper camel case).  The conversion is a
/// function of the characters alone.
pub uninterp spec fn upper_camel_of(s: Seq<char>) -> Seq<char>;

/// Relies on `convert_case`'s `Casing::to_case` with `Case::UpperCamel`:
/// capitalizes each word of `s` and joins the words without separators.
/// The result depends on the characters of `s` alone.
#[verifier::external_body]
pub fn to_upper_camel(s: &str) -> (r: String)
    ensures
        r@ == upper_camel_of(s@),
{
    convert_case::Casing::to_case(&s, convert_case::Case::UpperCamel)
}

/// The piece of a source-text string literal that denotes `c`: quotes
/// and backslashes get a backslash in front, all else stands as it is.
pub open spec fn escape_char(c: char) -> Seq<char> {
    if c == '"' {
        seq!['\\', '"']
    } else if c == '\\' {
        seq!['\\', '\\']
    } else {
        seq![c]
    }
}

/// The body of a source-text string literal that denotes `s`.
pub open spec fn escape_text_spec(s: Seq<char>) -> Seq<char>
    decreases s.len(),
{
    if s.len() == 0 {
        Seq::empty()
    } else {
        escape_text_spec(s.drop_last()) + escape_char(s.last())
    }
}

/// Write `s` as the body of a string literal.
pub fn escape_text(s: &str) -> (r: String)
    ensures
        r@ == escape_text_spec(s@),
{
    let n = s.unicode_len();
    let mut out = String::new();
    let mut i: usize = 0;
    while i < n
        invariant
            n == s@.len(),
            i <= n,
            out@ == escape_text_spec(s@.take(i as int)),
        decreases n - i,
    {
        let ghost prev = out@;
        let c = s.get_char(i);
        if c == '"' {
            out.append("\\\"");
            proof {
                reveal_strlit("\\\"");
                assert("\\\""@ =~= escape_char(c));
            }
        } else if c == '\\' {
            out.append("\\\\");
            proof {
                reveal_strlit("\\\\");
                assert("\\\\"@ =~= escape_char(c));
            }
        } else {
            out.push(c);
            proof {
                assert(prev.push(c) =~= prev + escape_char(c));
            }
        }
        proof {
            assert(s@.take(i as int + 1).drop_last() =~= s@.take(i as int));
            assert(s@.take(i as int + 1).last() == c);
        }
        i = i + 1;
    }
    proof {
        assert(s@.take(n as int) =~= s@);
    }
    out
}

/// Whether two string slices hold the same characters.
pub fn text_eq(a: &str, b: &str) -> (r: bool)
    ensures
        r == (a@ == b@),
{
    let na = a.unicode_len();
    let nb = b.unicode_len();
    if na != nb {
        return false;
    }
    let mut i: usize = 0;
    while i < na
        invariant
            na == a@.len(),
            na == b@.len(),
            i <= na,
            forall|k: int| 0 <= k < i ==> a@[k] == b@[k],
        decreases na - i,
    {
        if a.get_char(i) != b.get_char(i) {
            return false;
        }
        i = i + 1;
    }
    proof {
        assert(a@ =~= b@);
    }
    true
}

/// The lower-case base-sixteen digit for `n`.
pub open spec fn hex_digit(n: u8) -> char {
    match n {
        0 => '0',
        1 => '1',
        2 => '2',
        3 => '3',
        4 => '4',
        5 => '5',
        6 => '6',
        7 => '7',
        8 => '8',
        9 => '9',
        10 => 'a',
        11 => 'b',
        12 => 'c',
        13 => 'd',
        14 => 'e',
        _ => 'f',
    }
}

/// The piece of a source-text byte-string literal that denotes `b`:
/// printable bytes stand as they are (quotes and backslashes escaped),
/// every other byte is written as a two-digit escape.
pub open spec fn escape_byte(b: u8) -> Seq<char> {
    if b == 34 {
        seq!['\\', '"']
    } else if b == 92 {
        seq!['\\', '\\']
    } else if 32 <= b && b <= 126 {
        seq![b as char]
    } else {
        seq!['\\', 'x', hex_digit(b / 16), hex_digit(b % 16)]
    }
}

/// The body of a source-text byte-string literal that denotes `bs`.
pub open spec fn escape_bytes_spec(bs: Seq<u8>) -> Seq<char>
    decreases bs.len(),
{
    if bs.len() == 0 {
        Seq::empty()
    } else {
        escape_bytes_spec(bs.drop_last()) + escape_byte(bs.last())
    }
}

/// Write `bs` as the body of a byte-string literal.
pub fn escape_bytes(bs: &Vec<u8>) -> (r: String)
    ensures
        r@ == escape_bytes_spec(bs@),
{
    let mut out = String::new();
    let mut i: usize = 0;
    while i < bs.len()
        invariant
            i <= bs@.len(),
            out@ == escape_bytes_spec(bs@.take(i as int)),
        decreases bs@.len() - i,
    {
        let ghost prev = out@;
        let b = bs[i];
        if b == 34 {
            out.append("\\\"");
            proof {
                reveal_strlit("\\\"");
                assert("\\\""@ =~= escape_byte(b));
            }
        } else if b == 92 {
            out.append("\\\\");
            proof {
                reveal_strlit("\\\\");
                assert("\\\\"@ =~= escape_byte(b));
            }
        } else if 32 <= b && b <= 126 {
            out.push(b as char);
            proof {
                assert(prev.push(b as char) =~= prev + escape_byte(b));
            }
        } else {
            out.push('\\');
            out.push('x');
            out.push(hex_digit_exec(b / 16));
            out.push(hex_digit_exec(b % 16));
            proof {
                assert(prev.push('\\').push('x').push(hex_digit(b / 16)).push(hex_digit(b % 16))
                    =~= prev + escape_byte(b));
            }
        }
        proof {
            assert(bs@.take(i as int + 1).drop_last() =~= bs@.take(i as int));
            assert(bs@.take(i as int + 1).last() == b);
        }
        i = i + 1;
    }
    proof {
        assert(bs@.take(bs@.len() as int) =~= bs@);
    }
    out
}

/// The lower-case base-sixteen digit for `n`, as a character.
pub fn hex_digit_exec(n: u8) -> (c: char)
    ensures
        c == hex_digit(n),
{
    match n {
        0 => '0',
        1 => '1',
        2 => '2',
        3 => '3',
        4 => '4',
        5 => '5',
        6 => '6',
        7 => '7',
        8 => '8',
        9 => '9',
        10 => 'a',
        11 => 'b',
        12 => 'c',
        13 => 'd',
        14 => 'e',
        _ => 'f',
    }
}

} // verus!
