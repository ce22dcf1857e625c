//! The option-assignment grammar of the open-wrapper generator.
//!
//! Options are comma-separated `name = bool` assignments, with an
//! optional trailing comma: `deref = false, derives = true`.  `deref`
//! asks for a slice-dereference implementation on the wrapper;
//! `derives` controls whether the user's derive list is re-emitted on
//! the generated types at all (it is recorded inverted, as
//! `no_derives`).
use vstd::prelude::*;

use crate::error::{ErrorKind, GenError};
use crate::grammar::{ws_end, ident_end, ident_start, lemma_ws_end, lemma_ident_end, skip_ws,
    skip_ident, is_ident_start};
use crate::text::text_eq;

verus! {

/// Configuration of the open-wrapper generator.
#[derive(Debug, Clone, Copy, PartialEq, Eq, Structural)]
pub struct SmollerOpts {
    /// Emit a slice-dereference implementation on the wrapper.
    pub impl_deref: bool,
    /// Recorded from the `derives` option, inverted: when set, the
    /// user's derive list is not re-emitted on the generated types.
    pub no_derives: bool,
}

impl Default for SmollerOpts {
    /// By default the wrapper gets the dereference implementation and
    /// the derive list is re-emitted.
    fn default() -> (r: SmollerOpts)
        ensures
            r == (SmollerOpts { impl_deref: true, no_derives: false }),
    {
        SmollerOpts { impl_deref: true, no_derives: false }
    }
}

/// Scan one `name = bool` assignment whose name starts at `j`: the
/// name, the assigned value, and the position after the assignment.
pub open spec fn scan_setting(s: Seq<char>, j: int) -> Option<(Seq<char>, bool, int)> {
    if j < 0 || j >= s.len() || !ident_start(s[j]) {
        None
    } else {
        let e = ident_end(s, j);
        let m = ws_end(s, e);
        if m >= s.len() || s[m] != '=' {
            None
        } else {
            let m2 = ws_end(s, m + 1);
            let e2 = ident_end(s, m2);
            let val = s.subrange(m2, e2);
            if val == "true"@ {
                Some((s.subrange(j, e), true, e2))
            } else if val == "false"@ {
                Some((s.subrange(j, e), false, e2))
            } else {
                None
            }
        }
    }
}

/// Bounds of [`scan_setting`].
pub proof fn lemma_scan_setting(s: Seq<char>, j: int)
    requires
        0 <= j <= s.len(),
    ensures
        match scan_setting(s, j) {
            Some(p) => j < p.2 <= s.len(),
            None => true,
        },
{
    if j < s.len() && ident_start(s[j]) {
        lemma_ident_end(s, j);
        let e = ident_end(s, j);
        lemma_ws_end(s, e);
        let m = ws_end(s, e);
        if m < s.len() && s[m] == '=' {
            lemma_ws_end(s, m + 1);
            let m2 = ws_end(s, m + 1);
            lemma_ident_end(s, m2);
        }
    }
}

/// Parse the assignments from `i` on, folding them into the options
/// accumulated so far.  `deref` sets the dereference flag; `derives`
/// sets the derive flag (recorded inverted); any other name, a missing
/// `=`, or a right-hand side other than `true` or `false` is refused.
pub open spec fn parse_opts(s: Seq<char>, i: int, cur: SmollerOpts) -> Option<SmollerOpts>
    decreases s.len() - i,
    via parse_opts_decreases
{
    if i < 0 {
        None
    } else {
        let j = ws_end(s, i);
        if j >= s.len() {
            Some(cur)
        } else {
            match scan_setting(s, j) {
                None => None,
                Some((name, value, e2)) => {
                    let upd = if name == "deref"@ {
                        Some(SmollerOpts { impl_deref: value, ..cur })
                    } else if name == "derives"@ {
                        Some(SmollerOpts { no_derives: !value, ..cur })
                    } else {
                        None
                    };
                    match upd {
                        None => None,
                        Some(nc) => {
                            let m3 = ws_end(s, e2);
                            if m3 >= s.len() {
                                Some(nc)
                            } else if s[m3] == ',' {
                                parse_opts(s, m3 + 1, nc)
                            } else {
                                None
                            }
                        },
                    }
                },
            }
        }
    }
}

#[via_fn]
proof fn parse_opts_decreases(s: Seq<char>, i: int, cur: SmollerOpts) {
    if 0 <= i <= s.len() {
        lemma_ws_end(s, i);
        let j = ws_end(s, i);
        if j < s.len() {
            lemma_scan_setting(s, j);
            match scan_setting(s, j) {
                None => {},
                Some((name, value, e2)) => {
                    lemma_ws_end(s, e2);
                },
            }
        }
    }
}

/// Parse one `name = bool` assignment whose name starts at `j`.
pub fn parse_setting(s: &str, j: usize) -> (r: Result<(String, bool, usize), GenError>)
    requires
        j <= s@.len(),
    ensures
        match r {
            Ok((name, value, e)) => scan_setting(s@, j as int) == Some(
                (name@, value, e as int),
            ) && j < e <= s@.len(),
            Err(err) => scan_setting(s@, j as int) is None && err.kind == ErrorKind::Syntax,
        },
{
    let n = s.unicode_len();
    if j >= n || !is_ident_start(s.get_char(j)) {
        return Err(
            GenError {
                kind: ErrorKind::Syntax,
                at: j,
                note: String::from_str("expected an identifier"),
            },
        );
    }
    let e = skip_ident(s, j);
    proof {
        lemma_ident_end(s@, j as int);
    }
    let m = skip_ws(s, e);
    if m >= n || s.get_char(m) != '=' {
        return Err(
            GenError {
                kind: ErrorKind::Syntax,
                at: m,
                note: String::from_str("invalid argument"),
            },
        );
    }
    let m2 = skip_ws(s, m + 1);
    let e2 = skip_ident(s, m2);
    let val = s.substring_char(m2, e2);
    let value = if text_eq(val, "true") {
        true
    } else if text_eq(val, "false") {
        false
    } else {
        return Err(
            GenError { kind: ErrorKind::Syntax, at: m2, note: String::from_str("expected a bool") },
        );
    };
    let name = s.substring_char(j, e).to_owned();
    Ok((name, value, e2))
}

/// Parse the assignments from `i` on, folding them into `cur`.
fn parse_opts_exec(s: &str, i: usize, cur: SmollerOpts) -> (r: Result<SmollerOpts, GenError>)
    requires
        i <= s@.len(),
    ensures
        match r {
            Ok(o) => parse_opts(s@, i as int, cur) == Some(o),
            Err(err) => parse_opts(s@, i as int, cur) is None && err.kind == ErrorKind::Syntax,
        },
    decreases s@.len() - i,
{
    let n = s.unicode_len();
    let j = skip_ws(s, i);
    if j >= n {
        return Ok(cur);
    }
    let (name, value, e2) = match parse_setting(s, j) {
        Ok(p) => p,
        Err(err) => {
            return Err(err);
        },
    };
    let nc = if text_eq(name.as_str(), "deref") {
        SmollerOpts { impl_deref: value, ..cur }
    } else if text_eq(name.as_str(), "derives") {
        SmollerOpts { no_derives: !value, ..cur }
    } else {
        return Err(
            GenError {
                kind: ErrorKind::Syntax,
                at: j,
                note: String::from_str("invalid argument"),
            },
        );
    };
    let m3 = skip_ws(s, e2);
    if m3 >= n {
        Ok(nc)
    } else if s.get_char(m3) == ',' {
        parse_opts_exec(s, m3 + 1, nc)
    } else {
        Err(GenError { kind: ErrorKind::Syntax, at: m3, note: String::from_str("invalid argument") })
    }
}

impl SmollerOpts {
    /// Parse an option list, starting from the defaults.
    ///
    /// Succeeds exactly when the text is a comma-separated sequence of
    /// `deref = bool` and `derives = bool` assignments (empty allowed,
    /// trailing comma allowed).
    pub fn parse(s: &str) -> (r: Result<SmollerOpts, GenError>)
        ensures
            match r {
                Ok(o) => parse_opts(
                    s@,
                    0,
                    SmollerOpts { impl_deref: true, no_derives: false },
                ) == Some(o),
                Err(err) => parse_opts(
                    s@,
                    0,
                    SmollerOpts { impl_deref: true, no_derives: false },
                ) is None && err.kind == ErrorKind::Syntax,
            },
    {
        parse_opts_exec(s, 0, SmollerOpts { impl_deref: true, no_derives: false })
    }
}

} // verus!
