//! The failure taxonomy of the generator.
//!
//! Every failure is fatal to the invocation that raised it and carries a
//! source position, so a caller can surface a precise diagnostic.
use vstd::prelude::*;

use crate::text::{escape_text, escape_text_spec};

verus! {

/// The source text of a compile-time diagnostic carrying `note`.
pub open spec fn compile_error_source(note: Seq<char>) -> Seq<char> {
    "compile_error!(\""@ + escape_text_spec(note) + "\");\n"@
}

/// What went wrong during a generation run.
#[derive(Clone, Copy, PartialEq, Eq, Structural, Debug)]
pub enum ErrorKind {
    /// A variant's field structure cannot be represented: named fields,
    /// or more than one unnamed field.
    UnsupportedShape,
    /// A unit variant lacks the required string-value annotation.
    MissingValueAnnotation,
    /// A single-field variant also carries a string-value annotation.
    ConflictingAnnotation,
    /// Generation was requested on a declaration that is not an enum.
    NotAnEnum,
    /// Open-wrapper generation was requested on a declaration without a
    /// `derive(...)` attribute.
    MissingDeriveList,
    /// A line-delimited literal file could not be read.
    FileRead,
    /// The option-assignment or literal-list grammar was violated.
    Syntax,
}

/// A generation failure: its kind, where it arose, and a short note.
///
/// `at` locates the failure: the index of the offending variant for
/// shape and annotation errors, the character offset for grammar errors,
/// and zero otherwise.
#[derive(Debug)]
pub struct GenError {
    pub kind: ErrorKind,
    pub at: usize,
    pub note: String,
}

impl GenError {
    /// Build a file-access failure that names the path and the cause.
    pub fn file_read(path: &str, cause: &str) -> (r: GenError)
        ensures
            r.kind == ErrorKind::FileRead,
            r.at == 0,
            r.note@ == "unable to read `"@ + path@ + "`: "@ + cause@,
    {
        let mut note = String::new();
        note.append("unable to read `");
        note.append(path);
        note.append("`: ");
        note.append(cause);
        GenError { kind: ErrorKind::FileRead, at: 0, note }
    }

    /// Write this failure as a compile-time diagnostic, the form a
    /// failed generation run leaves in place of its output.
    pub fn to_compile_error(&self) -> (r: String)
        ensures
            r@ == compile_error_source(self.note@),
    {
        let mut out = String::from_str("compile_error!(\"");
        out.append(escape_text(self.note.as_str()).as_str());
        out.append("\");\n");
        proof {
            assert(out@ =~= compile_error_source(self.note@));
        }
        out
    }
}

} // verus!
