//! The closed-enum synthesizer.
//!
//! Given a name, a visibility and an ordered list of
//! (variant-identifier, string-literal) pairs, emit the source text of:
//! a `new` constructor that matches the input's bytes against each
//! literal's bytes in declaration order (first match wins), an `as_str`
//! accessor returning the exact literal for each variant, the `VALUES`
//! enumeration constant, and the parsing, display, conversion and
//! string-equality surface — all defined in terms of `new` and `as_str`.
use vstd::prelude::*;

use crate::decl::{Decl, DeclBody, VariantDecl, VariantData, parse_variants, variant_err,
    variant_note, data_matches};
use crate::error::{ErrorKind, GenError, compile_error_source};
use crate::text::{escape_bytes, escape_bytes_spec, escape_text, escape_text_spec};
use vstd::utf8::encode_utf8;

verus! {

/// The visibility text as written in front of an item: the visibility
/// and one blank, or nothing for inherited visibility.
pub open spec fn vis_prefix(vis: Seq<char>) -> Seq<char> {
    if vis.len() == 0 {
        Seq::empty()
    } else {
        vis + " "@
    }
}

/// Write `vis` as the text in front of an item.
pub fn render_vis_prefix(vis: &str) -> (r: String)
    ensures
        r@ == vis_prefix(vis@),
{
    if vis.is_empty() {
        String::new()
    } else {
        let mut out = String::new();
        out.append(vis);
        out.append(" ");
        proof {
            assert(Seq::<char>::empty() + vis@ =~= vis@);
        }
        out
    }
}

/// The (identifier, literal) views of an owned pair list.
pub open spec fn pairs_of(vs: Seq<(String, String)>) -> Seq<(Seq<char>, Seq<char>)> {
    vs.map_values(|p: (String, String)| (p.0@, p.1@))
}

/// One arm of the generated `new`: the literal's bytes mapped to the
/// variant.
pub open spec fn arm_new(name: Seq<char>, p: (Seq<char>, Seq<char>)) -> Seq<char> {
    "            b\""@ + escape_bytes_spec(encode_utf8(p.1)) + "\" => Some("@ + name + "::"@
        + p.0 + "),\n"@
}

/// The arms of the generated `new`, in declaration order.
pub open spec fn arms_new(name: Seq<char>, ps: Seq<(Seq<char>, Seq<char>)>) -> Seq<char>
    decreases ps.len(),
{
    if ps.len() == 0 {
        Seq::empty()
    } else {
        arms_new(name, ps.drop_last()) + arm_new(name, ps.last())
    }
}

/// One arm of the generated `as_str`: the variant mapped to its exact
/// literal.
pub open spec fn arm_str(name: Seq<char>, p: (Seq<char>, Seq<char>)) -> Seq<char> {
    "            "@ + name + "::"@ + p.0 + " => \""@ + escape_text_spec(p.1) + "\",\n"@
}

/// The arms of the generated `as_str`, in declaration order.
pub open spec fn arms_str(name: Seq<char>, ps: Seq<(Seq<char>, Seq<char>)>) -> Seq<char>
    decreases ps.len(),
{
    if ps.len() == 0 {
        Seq::empty()
    } else {
        arms_str(name, ps.drop_last()) + arm_str(name, ps.last())
    }
}

/// One entry of the generated `VALUES` constant.
pub open spec fn value_entry(p: (Seq<char>, Seq<char>)) -> Seq<char> {
    "        Self::"@ + p.0 + ",\n"@
}

/// The entries of the generated `VALUES` constant, in declaration order.
pub open spec fn value_entries(ps: Seq<(Seq<char>, Seq<char>)>) -> Seq<char>
    decreases ps.len(),
{
    if ps.len() == 0 {
        Seq::empty()
    } else {
        value_entries(ps.drop_last()) + value_entry(ps.last())
    }
}

/// The generated inherent impl: the `new` and `as_str` functions.
pub open spec fn inherent_impl(vis: Seq<char>, name: Seq<char>, ps: Seq<(Seq<char>, Seq<char>)>)
    -> Seq<char> {
    "impl "@ + name + " {\n    "@ + vis_prefix(vis)
        + "const fn new(s: &str) -> Option<Self> {\n        match s.as_bytes() {\n"@
        + arms_new(name, ps)
        + "            _ => None,\n        }\n    }\n    "@ + vis_prefix(vis)
        + "const fn as_str(&self) -> &'static str {\n        match self {\n"@
        + arms_str(name, ps) + "        }\n    }\n    "@ + vis_prefix(vis)
        + "const VALUES: &'static [Self] = &[\n"@ + value_entries(ps)
        + "    ];\n}\n\n"@
}

/// The generated `EnumStr` impl: formatting, parsing and enumeration,
/// each delegating to the inherent surface.
pub open spec fn enumstr_impl(name: Seq<char>) -> Seq<char> {
    "impl smoller_str::EnumStr for "@ + name + " {\n    fn as_str(&self) -> &str {\n        "@
        + name + "::as_str(self)\n    }\n    fn parse(s: &str) -> Option<Self> {\n        "@
        + name + "::new(s)\n    }\n    fn values() -> Vec<Self> {\n        "@ + name
        + "::VALUES.to_vec()\n    }\n}\n\n"@
}

/// The generated display, parsing, conversion and string-equality
/// impls, all defined in terms of `new` and `as_str`.
pub open spec fn trait_impls(name: Seq<char>) -> Seq<char> {
    "impl std::fmt::Display for "@ + name
        + " {\n    fn fmt(&self, f: &mut std::fmt::Formatter) -> std::fmt::Result {\n        f.write_str("@
        + name + "::as_str(self))\n    }\n}\n\nimpl std::str::FromStr for "@ + name
        + " {\n    type Err = ();\n    fn from_str(s: &str) -> Result<Self, Self::Err> {\n        "@
        + name + "::new(s).ok_or(())\n    }\n}\n\nimpl AsRef<str> for "@ + name
        + " {\n    fn as_ref(&self) -> &str {\n        "@ + name
        + "::as_str(self)\n    }\n}\n\nimpl PartialEq<str> for "@ + name
        + " {\n    fn eq(&self, other: &str) -> bool {\n        self.as_str() == other\n    }\n}\n\nimpl PartialEq<&'_ str> for "@
        + name
        + " {\n    fn eq(&self, other: &&str) -> bool {\n        self.as_str() == *other\n    }\n}\n\nimpl PartialEq<str> for &'_ "@
        + name + " {\n    fn eq(&self, other: &str) -> bool {\n        "@ + name
        + "::as_str(*self) == other\n    }\n}\n\nimpl PartialEq<"@ + name
        + "> for str {\n    fn eq(&self, other: &"@ + name
        + ") -> bool {\n        self == other.as_str()\n    }\n}\n"@
}

/// The whole generated closed-enum surface.
pub open spec fn enumstr_source(vis: Seq<char>, name: Seq<char>, ps: Seq<(Seq<char>, Seq<char>)>)
    -> Seq<char> {
    inherent_impl(vis, name, ps) + enumstr_impl(name) + trait_impls(name)
}

/// The closed-enum synthesizer's input: the (identifier, literal)
/// pairs, the enum's name, and its visibility.
#[derive(Debug)]
pub struct EnumStrInput {
    /// The (variant-identifier, string-literal) pairs, in order.
    pub variants: Vec<(String, String)>,
    /// The enum's name.
    pub ident: String,
    /// The visibility for the generated functions (empty: inherited).
    pub vis: String,
}

impl EnumStrInput {
    /// Assemble a synthesizer input.
    pub fn new(variants: Vec<(String, String)>, ident: String, vis: String) -> (r: EnumStrInput)
        ensures
            r.variants == variants,
            r.ident == ident,
            r.vis == vis,
    {
        EnumStrInput { variants, ident, vis }
    }

    /// Emit the whole closed-enum surface for this input.
    pub fn to_source(&self) -> (r: String)
        ensures
            r@ == enumstr_source(self.vis@, self.ident@, pairs_of(self.variants@)),
    {
        let mut out = render_inherent(self.vis.as_str(), self.ident.as_str(), &self.variants);
        let b = render_enumstr_impl(self.ident.as_str());
        let c = render_trait_impls(self.ident.as_str());
        out.append(b.as_str());
        out.append(c.as_str());
        out
    }
}

/// Emit the arms of the generated `new`.
fn render_arms_new(name: &str, vs: &Vec<(String, String)>) -> (r: String)
    ensures
        r@ == arms_new(name@, pairs_of(vs@)),
{
    let ghost ps = pairs_of(vs@);
    let mut out = String::new();
    let mut i: usize = 0;
    while i < vs.len()
        invariant
            i <= vs@.len(),
            ps == pairs_of(vs@),
            out@ == arms_new(name@, ps.take(i as int)),
        decreases vs@.len() - i,
    {
        let ghost prev = out@;
        out.append("            b\"");
        let bytes = vs[i].1.as_str().as_bytes_vec();
        let esc = escape_bytes(&bytes);
        out.append(esc.as_str());
        out.append("\" => Some(");
        out.append(name);
        out.append("::");
        out.append(vs[i].0.as_str());
        out.append("),\n");
        proof {
            assert(ps.take(i as int + 1).drop_last() =~= ps.take(i as int));
            assert(ps.take(i as int + 1).last() == ps[i as int]);
            assert(out@ =~= prev + arm_new(name@, ps[i as int]));
        }
        i = i + 1;
    }
    proof {
        assert(ps.take(vs@.len() as int) =~= ps);
    }
    out
}

/// Emit the arms of the generated `as_str`.
fn render_arms_str(name: &str, vs: &Vec<(String, String)>) -> (r: String)
    ensures
        r@ == arms_str(name@, pairs_of(vs@)),
{
    let ghost ps = pairs_of(vs@);
    let mut out = String::new();
    let mut i: usize = 0;
    while i < vs.len()
        invariant
            i <= vs@.len(),
            ps == pairs_of(vs@),
            out@ == arms_str(name@, ps.take(i as int)),
        decreases vs@.len() - i,
    {
        let ghost prev = out@;
        out.append("            ");
        out.append(name);
        out.append("::");
        out.append(vs[i].0.as_str());
        out.append(" => \"");
        let esc = escape_text(vs[i].1.as_str());
        out.append(esc.as_str());
        out.append("\",\n");
        proof {
            assert(ps.take(i as int + 1).drop_last() =~= ps.take(i as int));
            assert(ps.take(i as int + 1).last() == ps[i as int]);
            assert(out@ =~= prev + arm_str(name@, ps[i as int]));
        }
        i = i + 1;
    }
    proof {
        assert(ps.take(vs@.len() as int) =~= ps);
    }
    out
}

/// Emit the entries of the generated `VALUES` constant.
fn render_value_entries(vs: &Vec<(String, String)>) -> (r: String)
    ensures
        r@ == value_entries(pairs_of(vs@)),
{
    let ghost ps = pairs_of(vs@);
    let mut out = String::new();
    let mut i: usize = 0;
    while i < vs.len()
        invariant
            i <= vs@.len(),
            ps == pairs_of(vs@),
            out@ == value_entries(ps.take(i as int)),
        decreases vs@.len() - i,
    {
        let ghost prev = out@;
        out.append("        Self::");
        out.append(vs[i].0.as_str());
        out.append(",\n");
        proof {
            assert(ps.take(i as int + 1).drop_last() =~= ps.take(i as int));
            assert(ps.take(i as int + 1).last() == ps[i as int]);
            assert(out@ =~= prev + value_entry(ps[i as int]));
        }
        i = i + 1;
    }
    proof {
        assert(ps.take(vs@.len() as int) =~= ps);
    }
    out
}

/// Emit the generated inherent impl.
fn render_inherent(vis: &str, name: &str, vs: &Vec<(String, String)>) -> (r: String)
    ensures
        r@ == inherent_impl(vis@, name@, pairs_of(vs@)),
{
    let vp = render_vis_prefix(vis);
    let mut out = String::new();
    out.append("impl ");
    out.append(name);
    out.append(" {\n    ");
    out.append(vp.as_str());
    out.append("const fn new(s: &str) -> Option<Self> {\n        match s.as_bytes() {\n");
    let a = render_arms_new(name, vs);
    out.append(a.as_str());
    out.append("            _ => None,\n        }\n    }\n    ");
    out.append(vp.as_str());
    out.append("const fn as_str(&self) -> &'static str {\n        match self {\n");
    let b = render_arms_str(name, vs);
    out.append(b.as_str());
    out.append("        }\n    }\n    ");
    out.append(vp.as_str());
    out.append("const VALUES: &'static [Self] = &[\n");
    let c = render_value_entries(vs);
    out.append(c.as_str());
    out.append("    ];\n}\n\n");
    proof {
        assert(out@ =~= inherent_impl(vis@, name@, pairs_of(vs@)));
    }
    out
}

/// Emit the generated `EnumStr` impl.
fn render_enumstr_impl(name: &str) -> (r: String)
    ensures
        r@ == enumstr_impl(name@),
{
    let mut out = String::new();
    out.append("impl smoller_str::EnumStr for ");
    out.append(name);
    out.append(" {\n    fn as_str(&self) -> &str {\n        ");
    out.append(name);
    out.append("::as_str(self)\n    }\n    fn parse(s: &str) -> Option<Self> {\n        ");
    out.append(name);
    out.append("::new(s)\n    }\n    fn values() -> Vec<Self> {\n        ");
    out.append(name);
    out.append("::VALUES.to_vec()\n    }\n}\n\n");
    proof {
        assert(out@ =~= enumstr_impl(name@));
    }
    out
}

/// Emit the generated display, parsing, conversion and string-equality
/// impls.
fn render_trait_impls(name: &str) -> (r: String)
    ensures
        r@ == trait_impls(name@),
{
    let mut out = String::new();
    out.append("impl std::fmt::Display for ");
    out.append(name);
    out.append(
        " {\n    fn fmt(&self, f: &mut std::fmt::Formatter) -> std::fmt::Result {\n        f.write_str(",
    );
    out.append(name);
    out.append("::as_str(self))\n    }\n}\n\nimpl std::str::FromStr for ");
    out.append(name);
    out.append(
        " {\n    type Err = ();\n    fn from_str(s: &str) -> Result<Self, Self::Err> {\n        ",
    );
    out.append(name);
    out.append("::new(s).ok_or(())\n    }\n}\n\nimpl AsRef<str> for ");
    out.append(name);
    out.append(" {\n    fn as_ref(&self) -> &str {\n        ");
    out.append(name);
    out.append("::as_str(self)\n    }\n}\n\nimpl PartialEq<str> for ");
    out.append(name);
    out.append(
        " {\n    fn eq(&self, other: &str) -> bool {\n        self.as_str() == other\n    }\n}\n\nimpl PartialEq<&'_ str> for ",
    );
    out.append(name);
    out.append(
        " {\n    fn eq(&self, other: &&str) -> bool {\n        self.as_str() == *other\n    }\n}\n\nimpl PartialEq<str> for &'_ ",
    );
    out.append(name);
    out.append(" {\n    fn eq(&self, other: &str) -> bool {\n        ");
    out.append(name);
    out.append("::as_str(*self) == other\n    }\n}\n\nimpl PartialEq<");
    out.append(name);
    out.append("> for str {\n    fn eq(&self, other: &");
    out.append(name);
    out.append(") -> bool {\n        self == other.as_str()\n    }\n}\n");
    proof {
        assert(out@ =~= trait_impls(name@));
    }
    out
}

/// Whether every variant of a declaration is a unit variant carrying a
/// string value: the shape the closed-enum synthesizer accepts.
pub open spec fn all_unit_values(vs: Seq<VariantDecl>) -> bool {
    forall|i: int|
        0 <= i < vs.len() ==> (#[trigger] vs[i].shape) is Unit && vs[i].value is Some
}

/// The (identifier, literal) pairs of a unit-variants-only declaration.
pub open spec fn unit_pairs(vs: Seq<VariantDecl>) -> Seq<(Seq<char>, Seq<char>)> {
    vs.map_values(
        |v: VariantDecl|
            (
                v.name@,
                match v.value {
                    Some(s) => s@,
                    None => Seq::<char>::empty(),
                },
            ),
    )
}

/// How a failed validation of an enum's variants reads: the error names
/// the first variant that fails the validator, or, where all pass it,
/// the first variant that carries a field.
pub open spec fn variant_failure(vs: Seq<VariantDecl>, e: GenError) -> bool {
    &&& !all_unit_values(vs)
    &&& e.at < vs.len()
    &&& if exists|j: int| 0 <= j < vs.len() && variant_err(#[trigger] vs[j]) is Some {
        &&& variant_err(vs[e.at as int]) == Some(e.kind)
        &&& e.note@ == variant_note(vs[e.at as int])
        &&& forall|k: int| 0 <= k < e.at ==> variant_err(#[trigger] vs[k]) is None
    } else {
        &&& !(vs[e.at as int].shape is Unit)
        &&& e.kind == ErrorKind::UnsupportedShape
        &&& e.note@ == "only unit variants are allowed"@
        &&& forall|k: int| 0 <= k < e.at ==> (#[trigger] vs[k].shape) is Unit
    }
}

/// Validate a declaration's variants for closed-enum generation and
/// hand back its (identifier, literal) pairs, in declaration order.
pub fn unit_value_pairs(vs: &Vec<VariantDecl>) -> (r: Result<Vec<(String, String)>, GenError>)
    ensures
        match r {
            Ok(ps) => all_unit_values(vs@) && pairs_of(ps@) == unit_pairs(vs@),
            Err(e) => variant_failure(vs@, e),
        },
{
    let ds = match parse_variants(vs) {
        Ok(ds) => ds,
        Err(e) => {
            proof {
                assert(!(variant_err(vs@[e.at as int]) is None));
                assert(!all_unit_values(vs@));
            }
            return Err(e);
        },
    };
    let mut pairs: Vec<(String, String)> = Vec::new();
    let mut i: usize = 0;
    while i < ds.len()
        invariant
            i <= ds@.len(),
            ds@.len() == vs@.len(),
            forall|j: int| 0 <= j < vs@.len() ==> variant_err(#[trigger] vs@[j]) is None,
            forall|j: int| 0 <= j < vs@.len() ==> data_matches(vs@[j], #[trigger] ds@[j]),
            pairs@.len() == i,
            forall|j: int| 0 <= j < i ==> (#[trigger] vs@[j].shape) is Unit,
            forall|j: int|
                0 <= j < i ==> pairs_of(pairs@)[j] == #[trigger] unit_pairs(vs@)[j],
        decreases ds@.len() - i,
    {
        match &ds[i] {
            VariantData::Value { name, value } => {
                pairs.push((name.clone(), value.clone()));
            },
            VariantData::Field { name, field_ty } => {
                proof {
                    assert(data_matches(vs@[i as int], ds@[i as int]));
                    assert(!(vs@[i as int].shape is Unit));
                    assert(!all_unit_values(vs@));
                }
                return Err(
                    GenError {
                        kind: ErrorKind::UnsupportedShape,
                        at: i,
                        note: String::from_str("only unit variants are allowed"),
                    },
                );
            },
        }
        i = i + 1;
    }
    proof {
        assert(forall|j: int| 0 <= j < vs@.len() ==> (#[trigger] vs@[j]).value is Some);
        assert(pairs_of(pairs@) =~= unit_pairs(vs@));
    }
    Ok(pairs)
}

/// Generate the closed-enum surface for a declaration.
///
/// Succeeds exactly when the declaration is an enum whose variants are
/// all unit variants with string-value annotations; the output is the
/// full closed-enum source for the declaration's name and visibility.
/// Fails with `NotAnEnum` on any other declaration; variants that fail
/// validation propagate the validator's error; a variant with a field
/// is refused as an unsupported shape.
pub fn derive(node: &Decl) -> (r: Result<String, GenError>)
    ensures
        match r {
            Ok(out) => match node.body {
                DeclBody::Enum(vs) => all_unit_values(vs@) && out@ == enumstr_source(
                    node.vis@,
                    node.name@,
                    unit_pairs(vs@),
                ),
                DeclBody::NotEnum => false,
            },
            Err(e) => match node.body {
                DeclBody::NotEnum => e.kind == ErrorKind::NotAnEnum && e.note@
                    == "EnumStr can only be used on enums"@,
                DeclBody::Enum(vs) => variant_failure(vs@, e),
            },
        },
{
    let vs = match &node.body {
        DeclBody::Enum(vs) => vs,
        DeclBody::NotEnum => {
            return Err(
                GenError {
                    kind: ErrorKind::NotAnEnum,
                    at: 0,
                    note: String::from_str("EnumStr can only be used on enums"),
                },
            );
        },
    };
    let pairs = match unit_value_pairs(vs) {
        Ok(ps) => ps,
        Err(e) => {
            return Err(e);
        },
    };
    let input = EnumStrInput::new(pairs, node.name.clone(), node.vis.clone());
    let out = input.to_source();
    proof {
        assert(pairs_of(input.variants@) =~= unit_pairs(vs@));
    }
    Ok(out)
}

/// Run the closed-enum generator and, where it fails, emit the failure
/// as a compile-time diagnostic in place of the generated source.
pub fn derive_enumstr(node: &Decl) -> (r: String)
    ensures
        match node.body {
            DeclBody::Enum(vs) => if all_unit_values(vs@) {
                r@ == enumstr_source(node.vis@, node.name@, unit_pairs(vs@))
            } else {
                exists|e: GenError|
                    variant_failure(vs@, e) && r@ == compile_error_source(#[trigger] e.note@)
            },
            DeclBody::NotEnum => r@ == compile_error_source(
                "EnumStr can only be used on enums"@,
            ),
        },
{
    match derive(node) {
        Ok(out) => out,
        Err(e) => {
            let out = e.to_compile_error();
            proof {
                if node.body is Enum {
                    assert(variant_failure(node.body->Enum_0@, e) && out@ == compile_error_source(
                        e.note@,
                    ));
                }
            }
            out
        },
    }
}

} // verus!
