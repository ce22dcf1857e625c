//! The literal-list grammar.
//!
//! A literal list is a comma-separated sequence of quoted string
//! literals, each optionally followed by `= Identifier`, with an
//! optional trailing comma: `"first", "second" = Two,`.  Whitespace is
//! blanks, tabs and line breaks; identifiers are ASCII letters, digits
//! and underscores, not starting with a digit; string literals know the
//! one-letter escapes `\"`, `\\`, `\'`, `\n`, `\t`, `\r` and `\0`,
//! two-digit `\xNN` escapes below 0x80, and `\u{...}` escapes naming a
//! Unicode scalar value with one to six hexadecimal digits.
use vstd::prelude::*;

use crate::error::{ErrorKind, GenError};

verus! {

/// Whether `c` is whitespace of this grammar.
pub open spec fn grammar_ws(c: char) -> bool {
    c == ' ' || c == '\t' || c == '\n' || c == '\r'
}

/// Whether `c` can start an identifier: an ASCII letter or `_`.
pub open spec fn ident_start(c: char) -> bool {
    let u = c as u32;
    (97 <= u && u <= 122) || (65 <= u && u <= 90) || u == 95
}

/// Whether `c` can continue an identifier: `ident_start` or a digit.
pub open spec fn ident_cont(c: char) -> bool {
    ident_start(c) || (48 <= c as u32 && c as u32 <= 57)
}

/// Whether `c` is whitespace of this grammar.
pub fn is_grammar_ws(c: char) -> (r: bool)
    ensures
        r == grammar_ws(c),
{
    c == ' ' || c == '\t' || c == '\n' || c == '\r'
}

/// Whether `c` can start an identifier.
pub fn is_ident_start(c: char) -> (r: bool)
    ensures
        r == ident_start(c),
{
    let u = c as u32;
    (97 <= u && u <= 122) || (65 <= u && u <= 90) || u == 95
}

/// Whether `c` can continue an identifier.
pub fn is_ident_cont(c: char) -> (r: bool)
    ensures
        r == ident_cont(c),
{
    let u = c as u32;
    is_ident_start(c) || (48 <= u && u <= 57)
}

/// The first position at or after `i` that holds no whitespace.
pub open spec fn ws_end(s: Seq<char>, i: int) -> int
    decreases s.len() - i,
{
    if i < 0 || i >= s.len() || !grammar_ws(s[i]) {
        i
    } else {
        ws_end(s, i + 1)
    }
}

/// Bounds of [`ws_end`].
pub proof fn lemma_ws_end(s: Seq<char>, i: int)
    requires
        0 <= i <= s.len(),
    ensures
        i <= ws_end(s, i) <= s.len(),
    decreases s.len() - i,
{
    if i < s.len() && grammar_ws(s[i]) {
        lemma_ws_end(s, i + 1);
    }
}

/// The first position at or after `i` that cannot continue an identifier.
pub open spec fn ident_end(s: Seq<char>, i: int) -> int
    decreases s.len() - i,
{
    if i < 0 || i >= s.len() || !ident_cont(s[i]) {
        i
    } else {
        ident_end(s, i + 1)
    }
}

/// Bounds of [`ident_end`].
pub proof fn lemma_ident_end(s: Seq<char>, i: int)
    requires
        0 <= i <= s.len(),
    ensures
        i <= ident_end(s, i) <= s.len(),
        i < s.len() && ident_cont(s[i]) ==> ident_end(s, i) > i,
    decreases s.len() - i,
{
    if i < s.len() && ident_cont(s[i]) {
        lemma_ident_end(s, i + 1);
    }
}

/// Skip whitespace: the first position at or after `i` without it.
pub fn skip_ws(s: &str, i: usize) -> (r: usize)
    requires
        i <= s@.len(),
    ensures
        r as int == ws_end(s@, i as int),
        i <= r <= s@.len(),
{
    let n = s.unicode_len();
    let mut j = i;
    loop
        invariant
            i <= j <= n,
            n == s@.len(),
            ws_end(s@, i as int) == ws_end(s@, j as int),
        ensures
            i <= j <= n,
            j as int == ws_end(s@, i as int),
        decreases n - j,
    {
        if j >= n {
            break;
        }
        if !is_grammar_ws(s.get_char(j)) {
            break;
        }
        j = j + 1;
    }
    j
}

/// Scan an identifier: the first position at or after `i` that cannot
/// continue one.
pub fn skip_ident(s: &str, i: usize) -> (r: usize)
    requires
        i <= s@.len(),
    ensures
        r as int == ident_end(s@, i as int),
        i <= r <= s@.len(),
{
    let n = s.unicode_len();
    let mut j = i;
    loop
        invariant
            i <= j <= n,
            n == s@.len(),
            ident_end(s@, i as int) == ident_end(s@, j as int),
        ensures
            i <= j <= n,
            j as int == ident_end(s@, i as int),
        decreases n - j,
    {
        if j >= n {
            break;
        }
        if !is_ident_cont(s.get_char(j)) {
            break;
        }
        j = j + 1;
    }
    j
}

/// The character a one-letter escape stands for, if it is one.
pub open spec fn unescape(c: char) -> Option<char> {
    if c == '"' {
        Some('"')
    } else if c == '\\' {
        Some('\\')
    } else if c == '\'' {
        Some('\'')
    } else if c == 'n' {
        Some('\n')
    } else if c == 't' {
        Some('\t')
    } else if c == 'r' {
        Some('\r')
    } else if c == '0' {
        Some('\0')
    } else {
        None
    }
}

/// The character a one-letter escape stands for, if it is one.
pub fn unescape_exec(c: char) -> (r: Option<char>)
    ensures
        r == unescape(c),
{
    if c == '"' {
        Some('"')
    } else if c == '\\' {
        Some('\\')
    } else if c == '\'' {
        Some('\'')
    } else if c == 'n' {
        Some('\n')
    } else if c == 't' {
        Some('\t')
    } else if c == 'r' {
        Some('\r')
    } else if c == '0' {
        Some('\0')
    } else {
        None
    }
}

/// The value of one hexadecimal digit, if `c` is one.
pub open spec fn hex_char_val(c: char) -> Option<u32> {
    let u = c as u32;
    if 48 <= u && u <= 57 {
        Some((u - 48) as u32)
    } else if 97 <= u && u <= 102 {
        Some((u - 87) as u32)
    } else if 65 <= u && u <= 70 {
        Some((u - 55) as u32)
    } else {
        None
    }
}

/// The value of one hexadecimal digit, if `c` is one.
pub fn hex_char_val_exec(c: char) -> (r: Option<u32>)
    ensures
        r == hex_char_val(c),
{
    let u = c as u32;
    if 48 <= u && u <= 57 {
        Some(u - 48)
    } else if 97 <= u && u <= 102 {
        Some(u - 87)
    } else if 65 <= u && u <= 70 {
        Some(u - 55)
    } else {
        None
    }
}

/// Whether `c` is a hexadecimal digit.
pub open spec fn is_hex(c: char) -> bool {
    hex_char_val(c) is Some
}

/// The first position at or after `i` that holds no hexadecimal digit.
pub open spec fn hex_end(s: Seq<char>, i: int) -> int
    decreases s.len() - i,
{
    if i < 0 || i >= s.len() || !is_hex(s[i]) {
        i
    } else {
        hex_end(s, i + 1)
    }
}

/// Bounds of [`hex_end`], and that the run it spans is hexadecimal.
pub proof fn lemma_hex_end(s: Seq<char>, i: int)
    requires
        0 <= i <= s.len(),
    ensures
        i <= hex_end(s, i) <= s.len(),
        forall|k: int| i <= k < hex_end(s, i) ==> is_hex(#[trigger] s[k]),
    decreases s.len() - i,
{
    if i < s.len() && is_hex(s[i]) {
        lemma_hex_end(s, i + 1);
    }
}

/// Scan a hexadecimal-digit run: the first position at or after `i`
/// that holds none.
pub fn skip_hex(s: &str, i: usize) -> (r: usize)
    requires
        i <= s@.len(),
    ensures
        r as int == hex_end(s@, i as int),
        i <= r <= s@.len(),
{
    let n = s.unicode_len();
    let mut j = i;
    loop
        invariant
            i <= j <= n,
            n == s@.len(),
            hex_end(s@, i as int) == hex_end(s@, j as int),
        ensures
            i <= j <= n,
            j as int == hex_end(s@, i as int),
        decreases n - j,
    {
        if j >= n {
            break;
        }
        if hex_char_val_exec(s.get_char(j)).is_none() {
            break;
        }
        j = j + 1;
    }
    j
}

/// The number a run of hexadecimal digits denotes.
pub open spec fn hex_seq_val(ds: Seq<char>) -> int
    decreases ds.len(),
{
    if ds.len() == 0 {
        0
    } else {
        16 * hex_seq_val(ds.drop_last()) + (match hex_char_val(ds.last()) {
            Some(h) => h as int,
            None => 0,
        })
    }
}

/// Bounds of [`hex_seq_val`], one rung per digit up to six.
pub proof fn lemma_hex_seq_val_bound(ds: Seq<char>)
    ensures
        0 <= hex_seq_val(ds),
        ds.len() <= 1 ==> hex_seq_val(ds) < 0x10,
        ds.len() <= 2 ==> hex_seq_val(ds) < 0x100,
        ds.len() <= 3 ==> hex_seq_val(ds) < 0x1000,
        ds.len() <= 4 ==> hex_seq_val(ds) < 0x10000,
        ds.len() <= 5 ==> hex_seq_val(ds) < 0x100000,
        ds.len() <= 6 ==> hex_seq_val(ds) < 0x1000000,
    decreases ds.len(),
{
    if ds.len() > 0 {
        lemma_hex_seq_val_bound(ds.drop_last());
    }
}

/// Read the hexadecimal run `[from, to)` as a number.
fn read_hex_value(s: &str, from: usize, to: usize) -> (r: u32)
    requires
        from <= to <= s@.len(),
        to - from <= 6,
        forall|k: int| from <= k < to ==> is_hex(#[trigger] s@[k]),
    ensures
        r as int == hex_seq_val(s@.subrange(from as int, to as int)),
{
    proof {
        assert(s@.subrange(from as int, from as int) =~= Seq::<char>::empty());
    }
    let mut v: u32 = 0;
    let mut j = from;
    while j < to
        invariant
            from <= j <= to,
            to <= s@.len(),
            to - from <= 6,
            forall|k: int| from <= k < to ==> is_hex(#[trigger] s@[k]),
            v as int == hex_seq_val(s@.subrange(from as int, j as int)),
        decreases to - j,
    {
        let c = s.get_char(j);
        let h = hex_char_val_exec(c).unwrap();
        proof {
            let pre = s@.subrange(from as int, j as int);
            let ext = s@.subrange(from as int, j as int + 1);
            assert(ext.drop_last() =~= pre);
            assert(ext.last() == c);
            lemma_hex_seq_val_bound(pre);
        }
        v = v * 16 + h;
        j = j + 1;
    }
    proof {
        assert(s@.subrange(from as int, j as int) =~= s@.subrange(from as int, to as int));
    }
    v
}

/// Whether a code point is a Unicode scalar value.
pub open spec fn scalar_value(v: int) -> bool {
    (0 <= v && v < 0xD800) || (0xE000 <= v && v <= 0x10FFFF)
}

/// Relies on `char::from_u32`: a character exactly for the code points
/// that are Unicode scalar values (not surrogates, at most 0x10FFFF).
pub assume_specification[ char::from_u32 ](i: u32) -> (r: Option<char>)
    ensures
        r is Some <==> scalar_value(i as int),
        r matches Some(c) ==> c as u32 == i,
;

/// The character and end position of the escape that starts at `k`
/// (just after the backslash): a one-letter escape, `xNN` with two
/// hexadecimal digits below 0x80, or `u{...}` with one to six
/// hexadecimal digits naming a Unicode scalar value.
pub open spec fn scan_escape(s: Seq<char>, k: int) -> Option<(char, int)> {
    if k < 0 || k >= s.len() {
        None
    } else {
        match unescape(s[k]) {
            Some(c) => Some((c, k + 1)),
            None => if s[k] == 'x' {
                if k + 2 < s.len() {
                    match (hex_char_val(s[k + 1]), hex_char_val(s[k + 2])) {
                        (Some(h1), Some(h2)) => {
                            let v = 16 * (h1 as int) + (h2 as int);
                            if v < 0x80 {
                                Some(((v as u32) as char, k + 3))
                            } else {
                                None
                            }
                        },
                        _ => None,
                    }
                } else {
                    None
                }
            } else if s[k] == 'u' {
                if k + 1 < s.len() && s[k + 1] == '{' {
                    let e = hex_end(s, k + 2);
                    let ds = s.subrange(k + 2, e);
                    if 1 <= ds.len() && ds.len() <= 6 && e < s.len() && s[e] == '}' {
                        let v = hex_seq_val(ds);
                        if scalar_value(v) {
                            Some(((v as u32) as char, e + 1))
                        } else {
                            None
                        }
                    } else {
                        None
                    }
                } else {
                    None
                }
            } else {
                None
            },
        }
    }
}

/// Bounds of [`scan_escape`].
pub proof fn lemma_scan_escape(s: Seq<char>, k: int)
    requires
        0 <= k,
    ensures
        match scan_escape(s, k) {
            Some(p) => k < p.1 <= s.len(),
            None => true,
        },
{
    if k < s.len() && unescape(s[k]) is None && s[k] == 'u' && k + 1 < s.len() && s[k + 1]
        == '{' {
        lemma_hex_end(s, k + 2);
    }
}

/// Scan the escape that starts at `k` (just after the backslash).
fn scan_escape_exec(s: &str, k: usize) -> (r: Option<(char, usize)>)
    requires
        k <= s@.len(),
    ensures
        match r {
            Some(p) => scan_escape(s@, k as int) == Some((p.0, p.1 as int)) && k < p.1
                <= s@.len(),
            None => scan_escape(s@, k as int) is None,
        },
{
    let n = s.unicode_len();
    if k >= n {
        return None;
    }
    let c = s.get_char(k);
    match unescape_exec(c) {
        Some(u) => Some((u, k + 1)),
        None => {
            if c == 'x' {
                if n < 3 || k >= n - 2 {
                    return None;
                }
                let h1 = match hex_char_val_exec(s.get_char(k + 1)) {
                    Some(h) => h,
                    None => {
                        return None;
                    },
                };
                let h2 = match hex_char_val_exec(s.get_char(k + 2)) {
                    Some(h) => h,
                    None => {
                        return None;
                    },
                };
                let v = 16 * h1 + h2;
                if v >= 0x80 {
                    return None;
                }
                let ch = char::from_u32(v).unwrap();
                proof {
                    vstd::utf8::char_u32_cast(ch, v);
                }
                Some((ch, k + 3))
            } else if c == 'u' {
                if k + 1 >= n || s.get_char(k + 1) != '{' {
                    return None;
                }
                let e = skip_hex(s, k + 2);
                proof {
                    lemma_hex_end(s@, k as int + 2);
                }
                let dlen = e - (k + 2);
                if !(1 <= dlen && dlen <= 6 && e < n && s.get_char(e) == '}') {
                    return None;
                }
                let v = read_hex_value(s, k + 2, e);
                match char::from_u32(v) {
                    Some(ch) => {
                        proof {
                            vstd::utf8::char_u32_cast(ch, v);
                        }
                        Some((ch, e + 1))
                    },
                    None => None,
                }
            } else {
                None
            }
        },
    }
}

/// Scan a string-literal body from `i` (just after the opening quote):
/// the denoted value and the position after the closing quote, or
/// nothing if the literal is unterminated or an escape is malformed.
pub open spec fn scan_lit(s: Seq<char>, i: int) -> Option<(Seq<char>, int)>
    decreases s.len() - i,
    via scan_lit_decreases
{
    if i < 0 || i >= s.len() {
        None
    } else if s[i] == '"' {
        Some((Seq::empty(), i + 1))
    } else if s[i] == '\\' {
        match scan_escape(s, i + 1) {
            Some((c, j)) => match scan_lit(s, j) {
                Some(p) => Some((seq![c] + p.0, p.1)),
                None => None,
            },
            None => None,
        }
    } else {
        match scan_lit(s, i + 1) {
            Some(p) => Some((seq![s[i]] + p.0, p.1)),
            None => None,
        }
    }
}

#[via_fn]
proof fn scan_lit_decreases(s: Seq<char>, i: int) {
    if 0 <= i < s.len() && s[i] == '\\' {
        lemma_scan_escape(s, i + 1);
    }
}

/// Bounds of [`scan_lit`].
pub proof fn lemma_scan_lit(s: Seq<char>, i: int)
    requires
        0 <= i,
    ensures
        match scan_lit(s, i) {
            Some(p) => i < p.1 <= s.len(),
            None => true,
        },
    decreases s.len() - i,
{
    if 0 <= i < s.len() && s[i] != '"' {
        if s[i] == '\\' {
            lemma_scan_escape(s, i + 1);
            match scan_escape(s, i + 1) {
                Some((c, j)) => {
                    lemma_scan_lit(s, j);
                },
                None => {},
            }
        } else {
            lemma_scan_lit(s, i + 1);
        }
    }
}

/// Scan a string-literal body from `i` (just after the opening quote).
pub fn scan_lit_exec(s: &str, i: usize) -> (r: Option<(String, usize)>)
    requires
        i <= s@.len(),
    ensures
        match r {
            Some(p) => scan_lit(s@, i as int) == Some((p.0@, p.1 as int)) && i < p.1 <= s@.len(),
            None => scan_lit(s@, i as int) is None,
        },
    decreases s@.len() - i,
{
    let n = s.unicode_len();
    if i >= n {
        return None;
    }
    let c = s.get_char(i);
    if c == '"' {
        return Some((String::new(), i + 1));
    }
    if c == '\\' {
        match scan_escape_exec(s, i + 1) {
            Some((u, j)) => {
                match scan_lit_exec(s, j) {
                    Some((rest, k)) => {
                        let mut v = String::new();
                        v.push(u);
                        v.append(rest.as_str());
                        proof {
                            assert(Seq::<char>::empty().push(u) =~= seq![u]);
                        }
                        Some((v, k))
                    },
                    None => None,
                }
            },
            None => None,
        }
    } else {
        match scan_lit_exec(s, i + 1) {
            Some((rest, k)) => {
                let mut v = String::new();
                v.push(c);
                v.append(rest.as_str());
                proof {
                    assert(Seq::<char>::empty().push(c) =~= seq![c]);
                }
                Some((v, k))
            },
            None => None,
        }
    }
}

/// One parsed list entry, at the specification level.
pub struct ItemSpec {
    /// The literal's denoted value.
    pub lit: Seq<char>,
    /// The explicit identifier, where one was given.
    pub named: Option<Seq<char>>,
}

/// One entry of a literal list: a bare literal, or a literal with an
/// explicit identifier.
#[derive(Debug)]
pub enum SmolItem {
    /// A bare string literal: the identifier will be derived.
    Bare(String),
    /// A literal with its explicit identifier: `"lit" = Name`.
    Value(String, String),
}

/// What a parsed entry denotes.
pub open spec fn item_view(it: SmolItem) -> ItemSpec {
    match it {
        SmolItem::Bare(l) => ItemSpec { lit: l@, named: None },
        SmolItem::Value(l, n) => ItemSpec { lit: l@, named: Some(n@) },
    }
}

/// Parse one list entry whose opening quote stands at `i`: the entry and
/// the position after it.
pub open spec fn parse_item(s: Seq<char>, i: int) -> Option<(ItemSpec, int)> {
    if i < 0 || i >= s.len() || s[i] != '"' {
        None
    } else {
        match scan_lit(s, i + 1) {
            None => None,
            Some((lit, j)) => {
                let m = ws_end(s, j);
                if m < s.len() && s[m] == '=' {
                    let m2 = ws_end(s, m + 1);
                    if m2 < s.len() && ident_start(s[m2]) {
                        let e = ident_end(s, m2);
                        Some((ItemSpec { lit, named: Some(s.subrange(m2, e)) }, e))
                    } else {
                        None
                    }
                } else {
                    Some((ItemSpec { lit, named: None }, j))
                }
            },
        }
    }
}

/// Bounds of [`parse_item`].
pub proof fn lemma_parse_item(s: Seq<char>, i: int)
    requires
        0 <= i,
    ensures
        match parse_item(s, i) {
            Some(p) => i < p.1 <= s.len(),
            None => true,
        },
{
    if 0 <= i < s.len() && s[i] == '"' {
        lemma_scan_lit(s, i + 1);
        match scan_lit(s, i + 1) {
            None => {},
            Some((lit, j)) => {
                lemma_ws_end(s, j);
                let m = ws_end(s, j);
                if m < s.len() && s[m] == '=' {
                    lemma_ws_end(s, m + 1);
                    let m2 = ws_end(s, m + 1);
                    if m2 < s.len() && ident_start(s[m2]) {
                        lemma_ident_end(s, m2);
                    }
                }
            },
        }
    }
}

/// Parse one list entry whose opening quote stands at `i`.
pub fn parse_item_exec(s: &str, i: usize) -> (r: Option<(SmolItem, usize)>)
    requires
        i <= s@.len(),
    ensures
        match r {
            Some(p) => parse_item(s@, i as int) == Some((item_view(p.0), p.1 as int)) && i < p.1
                <= s@.len(),
            None => parse_item(s@, i as int) is None,
        },
{
    let n = s.unicode_len();
    if i >= n {
        return None;
    }
    if s.get_char(i) != '"' {
        return None;
    }
    match scan_lit_exec(s, i + 1) {
        None => None,
        Some((lit, j)) => {
            let m = skip_ws(s, j);
            if m < n && s.get_char(m) == '=' {
                let m2 = skip_ws(s, m + 1);
                if m2 < n && is_ident_start(s.get_char(m2)) {
                    let e = skip_ident(s, m2);
                    proof {
                        lemma_ident_end(s@, m2 as int);
                    }
                    let name = s.substring_char(m2, e).to_owned();
                    Some((SmolItem::Value(lit, name), e))
                } else {
                    None
                }
            } else {
                Some((SmolItem::Bare(lit), j))
            }
        },
    }
}

/// Parse list entries from `i` up to the end of the text or a closing
/// `]`: the entries, and the position where parsing stopped (the text's
/// end or the `]`).  Entries are separated by commas; a trailing comma
/// is allowed.
pub open spec fn parse_items(s: Seq<char>, i: int) -> Option<(Seq<ItemSpec>, int)>
    decreases s.len() - i,
    via parse_items_decreases
{
    if i < 0 {
        None
    } else {
        let j = ws_end(s, i);
        if j >= s.len() || s[j] == ']' {
            Some((Seq::empty(), j))
        } else {
            match parse_item(s, j) {
                None => None,
                Some((it, k)) => {
                    let m = ws_end(s, k);
                    if m >= s.len() || s[m] == ']' {
                        Some((seq![it], m))
                    } else if s[m] == ',' {
                        match parse_items(s, m + 1) {
                            Some((rest, e)) => Some((seq![it] + rest, e)),
                            None => None,
                        }
                    } else {
                        None
                    }
                },
            }
        }
    }
}

#[via_fn]
proof fn parse_items_decreases(s: Seq<char>, i: int) {
    if 0 <= i <= s.len() {
        lemma_ws_end(s, i);
        let j = ws_end(s, i);
        if !(j >= s.len() || s[j] == ']') {
            lemma_parse_item(s, j);
            match parse_item(s, j) {
                None => {},
                Some((it, k)) => {
                    lemma_ws_end(s, k);
                },
            }
        }
    }
}

/// Parse list entries from `i` up to the end of the text or a closing
/// `]`.
pub fn parse_items_exec(s: &str, i: usize) -> (r: Result<(Vec<SmolItem>, usize), GenError>)
    requires
        i <= s@.len(),
    ensures
        match r {
            Ok((items, e)) => parse_items(s@, i as int) == Some(
                (items@.map_values(|it: SmolItem| item_view(it)), e as int),
            ) && i <= e <= s@.len(),
            Err(err) => parse_items(s@, i as int) is None && err.kind == ErrorKind::Syntax,
        },
    decreases s@.len() - i,
{
    let n = s.unicode_len();
    let j = skip_ws(s, i);
    if j >= n || s.get_char(j) == ']' {
        let items: Vec<SmolItem> = Vec::new();
        proof {
            assert(items@.map_values(|it: SmolItem| item_view(it)) =~= Seq::<ItemSpec>::empty());
        }
        return Ok((items, j));
    }
    match parse_item_exec(s, j) {
        None => Err(
            GenError {
                kind: ErrorKind::Syntax,
                at: j,
                note: String::from_str("expected a string literal"),
            },
        ),
        Some((it, k)) => {
            let m = skip_ws(s, k);
            if m >= n || s.get_char(m) == ']' {
                let mut items: Vec<SmolItem> = Vec::new();
                let ghost iv = item_view(it);
                items.push(it);
                proof {
                    assert(items@.map_values(|x: SmolItem| item_view(x)) =~= seq![iv]);
                }
                Ok((items, m))
            } else if s.get_char(m) == ',' {
                match parse_items_exec(s, m + 1) {
                    Ok((rest, e)) => {
                        let ghost iv = item_view(it);
                        let ghost rv = rest@.map_values(|x: SmolItem| item_view(x));
                        let mut items: Vec<SmolItem> = Vec::new();
                        items.push(it);
                        let mut rest = rest;
                        items.append(&mut rest);
                        proof {
                            assert(items@.map_values(|x: SmolItem| item_view(x)) =~= seq![iv]
                                + rv);
                        }
                        Ok((items, e))
                    },
                    Err(err) => Err(err),
                }
            } else {
                Err(
                    GenError {
                        kind: ErrorKind::Syntax,
                        at: m,
                        note: String::from_str("expected `,`"),
                    },
                )
            }
        },
    }
}

} // verus!
