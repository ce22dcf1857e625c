//! The input model: enum-variant declarations and their validation.
//!
//! A declaration to generate from is a sequence of variants, each either
//! a unit variant carrying a string-value annotation or a variant with a
//! single unnamed field.  [`parse_variants`] checks that shape and
//! produces the [`VariantData`] the synthesizers consume, in declaration
//! order.
use vstd::prelude::*;

use crate::error::{ErrorKind, GenError};

verus! {

/// The field structure of one declared variant.
#[derive(Debug)]
pub enum FieldShape {
    /// No fields.
    Unit,
    /// Unnamed (tuple-style) fields, each given by its type text.
    Tuple(Vec<String>),
    /// Named (struct-style) fields.
    Named,
}

/// One declared enum variant, as handed to the generator.
#[derive(Debug)]
pub struct VariantDecl {
    /// The variant's identifier.
    pub name: String,
    /// Its field structure.
    pub shape: FieldShape,
    /// The content of its string-value annotation, if present.
    pub value: Option<String>,
    /// Any further attributes, kept verbatim (the text between `#[` and `]`).
    pub attrs: Vec<String>,
}

/// One validated variant: either a unit variant mapped to a string value
/// or a variant carrying a single unnamed field.
#[derive(Debug)]
pub enum VariantData {
    /// A unit variant with its associated string value.
    Value { name: String, value: String },
    /// A single-field variant with its field's type text.
    Field { name: String, field_ty: String },
}

/// An attribute on the declaration itself.
#[derive(Debug)]
pub enum AttrDecl {
    /// A `derive(...)` attribute: the listed trait names, in order.
    DeriveList(Vec<String>),
    /// Any other attribute, kept verbatim (the text between `#[` and `]`).
    Plain(String),
}

/// What the declaration declares.
#[derive(Debug)]
pub enum DeclBody {
    /// An enum with the given variants, in declaration order.
    Enum(Vec<VariantDecl>),
    /// Anything else (a struct or a union): the generators reject it.
    NotEnum,
}

/// A whole declaration handed to a generator.
#[derive(Debug)]
pub struct Decl {
    /// Its visibility, verbatim (empty for inherited visibility).
    pub vis: String,
    /// Its identifier.
    pub name: String,
    /// Its attributes, in order.
    pub attrs: Vec<AttrDecl>,
    /// Its body.
    pub body: DeclBody,
}

/// Why one variant declaration is rejected, if it is.
pub open spec fn variant_err(v: VariantDecl) -> Option<ErrorKind> {
    match v.shape {
        FieldShape::Named => Some(ErrorKind::UnsupportedShape),
        FieldShape::Tuple(tys) => if tys@.len() != 1 {
            Some(ErrorKind::UnsupportedShape)
        } else if v.value is Some {
            Some(ErrorKind::ConflictingAnnotation)
        } else {
            None
        },
        FieldShape::Unit => if v.value is None {
            Some(ErrorKind::MissingValueAnnotation)
        } else {
            None
        },
    }
}

/// The diagnostic note for a rejected variant declaration.
pub open spec fn variant_note(v: VariantDecl) -> Seq<char> {
    match v.shape {
        FieldShape::Named => "named fields are not allowed"@,
        FieldShape::Tuple(tys) => if tys@.len() != 1 {
            "only a single tuple field is allowed"@
        } else {
            "variant field cannot be used with `#[value(\"...\")]` attribute"@
        },
        FieldShape::Unit => "missing `#[value(\"...\")]` attribute"@,
    }
}

/// How a validated variant relates to its declaration.
pub open spec fn data_matches(v: VariantDecl, d: VariantData) -> bool {
    match v.shape {
        FieldShape::Unit => match d {
            VariantData::Value { name, value } => name@ == v.name@ && match v.value {
                Some(s) => value@ == s@,
                None => false,
            },
            VariantData::Field { .. } => false,
        },
        FieldShape::Tuple(tys) => match d {
            VariantData::Field { name, field_ty } => name@ == v.name@ && tys@.len() == 1
                && field_ty@ == tys@[0]@,
            VariantData::Value { .. } => false,
        },
        FieldShape::Named => false,
    }
}

/// Validate a sequence of variant declarations, in order.
///
/// Succeeds exactly when every declaration is either a unit variant with
/// a string-value annotation or a single-unnamed-field variant without
/// one; the output preserves declaration order.  On failure, reports the
/// first offending variant: its index, the error kind, and a note.
pub fn parse_variants(vs: &Vec<VariantDecl>) -> (r: Result<Vec<VariantData>, GenError>)
    ensures
        match r {
            Ok(ds) => {
                &&& ds@.len() == vs@.len()
                &&& forall|i: int| 0 <= i < vs@.len() ==> variant_err(#[trigger] vs@[i]) is None
                &&& forall|i: int|
                    0 <= i < vs@.len() ==> data_matches(vs@[i], #[trigger] ds@[i])
            },
            Err(e) => {
                &&& e.at < vs@.len()
                &&& variant_err(vs@[e.at as int]) == Some(e.kind)
                &&& e.note@ == variant_note(vs@[e.at as int])
                &&& forall|j: int| 0 <= j < e.at ==> variant_err(#[trigger] vs@[j]) is None
            },
        },
{
    let mut ds: Vec<VariantData> = Vec::new();
    let mut i: usize = 0;
    while i < vs.len()
        invariant
            i <= vs@.len(),
            ds@.len() == i,
            forall|j: int| 0 <= j < i ==> variant_err(#[trigger] vs@[j]) is None,
            forall|j: int| 0 <= j < i ==> data_matches(vs@[j], #[trigger] ds@[j]),
        decreases vs@.len() - i,
    {
        let v = &vs[i];
        match &v.shape {
            FieldShape::Named => {
                return Err(GenError {
                    kind: ErrorKind::UnsupportedShape,
                    at: i,
                    note: String::from_str("named fields are not allowed"),
                });
            },
            FieldShape::Tuple(tys) => {
                if tys.len() != 1 {
                    return Err(GenError {
                        kind: ErrorKind::UnsupportedShape,
                        at: i,
                        note: String::from_str("only a single tuple field is allowed"),
                    });
                }
                if v.value.is_some() {
                    return Err(GenError {
                        kind: ErrorKind::ConflictingAnnotation,
                        at: i,
                        note: String::from_str(
                            "variant field cannot be used with `#[value(\"...\")]` attribute",
                        ),
                    });
                }
                ds.push(VariantData::Field { name: v.name.clone(), field_ty: tys[0].clone() });
            },
            FieldShape::Unit => {
                match &v.value {
                    Some(s) => {
                        ds.push(VariantData::Value { name: v.name.clone(), value: s.clone() });
                    },
                    None => {
                        return Err(GenError {
                            kind: ErrorKind::MissingValueAnnotation,
                            at: i,
                            note: String::from_str("missing `#[value(\"...\")]` attribute"),
                        });
                    },
                }
            },
        }
        i = i + 1;
    }
    Ok(ds)
}

} // verus!
