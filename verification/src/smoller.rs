//! The open-wrapper synthesizer.
//!
//! Given a user-authored enum declaration carrying a `derive(...)` list
//! that names `EnumStr`, emit: the closed repr enum (the declaration
//! renamed to `<Name>Repr`, value annotations stripped, the derive list
//! minus `EnumStr` re-emitted unless the `derives` option suppresses
//! it), the whole closed-enum surface for it,
//! and the open wrapper enum `<Name>` with variants `Builtin(<Name>Repr)`
//! and `Unknown(std::sync::Arc<str>)`, wired up with infallible parsing,
//! display, conversion, string equality, an optional dereference, and a
//! custom hash where (and only where) the user asked for hashing.
use vstd::prelude::*;

use crate::decl::{AttrDecl, Decl, DeclBody, FieldShape, VariantDecl};
use crate::enumstr::{enumstr_source, pairs_of, unit_value_pairs, variant_failure,
    vis_prefix, render_vis_prefix, EnumStrInput, all_unit_values};
use crate::error::{ErrorKind, GenError};
use crate::grammar::{ItemSpec, SmolItem, item_view, parse_items, parse_items_exec, ws_end,
    ident_end, ident_start, lemma_ident_end, skip_ws, skip_ident, is_ident_start};
use crate::ident::{derived_ident, derive_ident};
use crate::options::SmollerOpts;
use crate::text::text_eq;

verus! {

/// One unit variant of the declaration, at the specification level.
pub struct VariantV {
    /// The variant's identifier.
    pub name: Seq<char>,
    /// Its associated string value.
    pub value: Seq<char>,
    /// Its further attributes, kept verbatim.
    pub attrs: Seq<Seq<char>>,
}

/// What a declaration's variants denote.  (Only unit variants reach the
/// renderers; a missing value reads as empty.)
pub open spec fn variant_views(vs: Seq<VariantDecl>) -> Seq<VariantV> {
    vs.map_values(
        |v: VariantDecl|
            VariantV {
                name: v.name@,
                value: match v.value {
                    Some(s) => s@,
                    None => Seq::<char>::empty(),
                },
                attrs: v.attrs@.map_values(|a: String| a@),
            },
    )
}

/// The (identifier, literal) pairs of the variants.
pub open spec fn view_pairs(vs: Seq<VariantV>) -> Seq<(Seq<char>, Seq<char>)> {
    vs.map_values(|v: VariantV| (v.name, v.value))
}

/// The names of an owned name list.
pub open spec fn names_of(l: Seq<String>) -> Seq<Seq<char>> {
    l.map_values(|s: String| s@)
}

/// The derive list of the declaration: the one carried by the last
/// `derive(...)` attribute, where any is present.
pub open spec fn last_derive(attrs: Seq<AttrDecl>) -> Option<Vec<String>>
    decreases attrs.len(),
{
    if attrs.len() == 0 {
        None
    } else {
        match attrs.last() {
            AttrDecl::DeriveList(l) => Some(l),
            AttrDecl::Plain(_) => last_derive(attrs.drop_last()),
        }
    }
}

/// The trait names re-emitted on the repr enum: the user's list minus
/// the generation marker `EnumStr`, which is synthesized, not derived.
pub open spec fn repr_derives(ds: Seq<Seq<char>>) -> Seq<Seq<char>>
    decreases ds.len(),
{
    if ds.len() == 0 {
        Seq::empty()
    } else {
        repr_derives(ds.drop_last()) + (if ds.last() == "EnumStr"@ {
            Seq::<Seq<char>>::empty()
        } else {
            seq![ds.last()]
        })
    }
}

/// The trait names re-emitted on the wrapper: the user's list minus
/// `EnumStr`, minus copy semantics and hashing, which a heap-backed
/// variant cannot mechanically re-derive.
pub open spec fn wrapper_derives(ds: Seq<Seq<char>>) -> Seq<Seq<char>>
    decreases ds.len(),
{
    if ds.len() == 0 {
        Seq::empty()
    } else {
        wrapper_derives(ds.drop_last()) + (if ds.last() == "EnumStr"@ || ds.last() == "Copy"@
            || ds.last() == "Hash"@ {
            Seq::<Seq<char>>::empty()
        } else {
            seq![ds.last()]
        })
    }
}

/// Whether the list names a trait.
pub open spec fn names_contain(ds: Seq<Seq<char>>, x: Seq<char>) -> bool {
    exists|i: int| 0 <= i < ds.len() && ds[i] == x
}

/// The names joined with commas, as written inside `derive(...)`.
pub open spec fn join_names(ds: Seq<Seq<char>>) -> Seq<char>
    decreases ds.len(),
{
    if ds.len() == 0 {
        Seq::empty()
    } else if ds.len() == 1 {
        ds[0]
    } else {
        join_names(ds.drop_last()) + ", "@ + ds.last()
    }
}

/// The attributes written in front of a variant's name.
pub open spec fn attr_prefix(attrs: Seq<Seq<char>>) -> Seq<char>
    decreases attrs.len(),
{
    if attrs.len() == 0 {
        Seq::empty()
    } else {
        attr_prefix(attrs.drop_last()) + "#["@ + attrs.last() + "] "@
    }
}

/// One line of the repr enum's body.
pub open spec fn variant_line(v: VariantV) -> Seq<char> {
    "    "@ + attr_prefix(v.attrs) + v.name + ",\n"@
}

/// The repr enum's body, in declaration order.
pub open spec fn variant_lines(vs: Seq<VariantV>) -> Seq<char>
    decreases vs.len(),
{
    if vs.len() == 0 {
        Seq::empty()
    } else {
        variant_lines(vs.drop_last()) + variant_line(vs.last())
    }
}

/// The derive attribute written above a generated type — or nothing,
/// where the `derives` option suppressed re-emission.
pub open spec fn derive_line(ds: Seq<Seq<char>>, suppressed: bool) -> Seq<char> {
    if suppressed {
        Seq::empty()
    } else {
        "#[derive("@ + join_names(ds) + ")]\n"@
    }
}

/// The repr enum definition: the declaration renamed, value annotations
/// stripped, the filtered derive list re-emitted unless suppressed.
pub open spec fn repr_enum_def(
    vis: Seq<char>,
    repr: Seq<char>,
    ds: Seq<Seq<char>>,
    vs: Seq<VariantV>,
    suppressed: bool,
) -> Seq<char> {
    derive_line(ds, suppressed) + vis_prefix(vis) + "enum "@ + repr + " {\n"@
        + variant_lines(vs) + "}\n\n"@
}

/// The wrapper enum definition: `Builtin` holding the repr, `Unknown`
/// holding heap-backed string storage.
pub open spec fn wrapper_enum_def(
    vis: Seq<char>,
    name: Seq<char>,
    repr: Seq<char>,
    ds: Seq<Seq<char>>,
    suppressed: bool,
) -> Seq<char> {
    derive_line(ds, suppressed) + vis_prefix(vis) + "enum "@ + name
        + " {\n    Builtin("@ + repr + "),\n    Unknown(std::sync::Arc<str>),\n}\n\n"@
}

/// One entry of the generated `BUILTIN` constant.
pub open spec fn builtin_entry(repr: Seq<char>, v: VariantV) -> Seq<char> {
    "        Self::Builtin("@ + repr + "::"@ + v.name + "),\n"@
}

/// The entries of the generated `BUILTIN` constant, in declaration
/// order.
pub open spec fn builtin_entries(repr: Seq<char>, vs: Seq<VariantV>) -> Seq<char>
    decreases vs.len(),
{
    if vs.len() == 0 {
        Seq::empty()
    } else {
        builtin_entries(repr, vs.drop_last()) + builtin_entry(repr, vs.last())
    }
}

/// The `BUILTIN` enumeration constant on the wrapper: one `Builtin`
/// per closed-enum variant, in declaration order.
pub open spec fn builtin_block(vis: Seq<char>, name: Seq<char>, repr: Seq<char>, vs: Seq<VariantV>)
    -> Seq<char> {
    "impl "@ + name + " {\n    "@ + vis_prefix(vis) + "const BUILTIN: &'static [Self] = &[\n"@
        + builtin_entries(repr, vs) + "    ];\n}\n\n"@
}

/// The generated `SmollerStr` impl: the infallible `new` atop the
/// wrapper's parse, the delegating `as_str`, the two discriminator
/// predicates, and the `BUILTIN` enumeration.
pub open spec fn smollerstr_impl(name: Seq<char>) -> Seq<char> {
    "impl smoller_str::SmollerStr for "@ + name
        + " {\n    fn new(s: &str) -> Self {\n        s.parse().unwrap()\n    }\n    fn as_str(&self) -> &str {\n        match self {\n            Self::Builtin(s) => s.as_str(),\n            Self::Unknown(s) => s,\n        }\n    }\n    fn is_heap_allocated(&self) -> bool {\n        matches!(self, Self::Unknown(_))\n    }\n    fn is_builtin_value(&self) -> bool {\n        matches!(self, Self::Builtin(_))\n    }\n    fn builtin() -> Vec<Self> {\n        Self::BUILTIN.to_vec()\n    }\n}\n\n"@
}

/// The generated infallible parse: a matching string becomes `Builtin`,
/// any other becomes `Unknown`.
pub open spec fn fromstr_impl(name: Seq<char>) -> Seq<char> {
    "impl std::str::FromStr for "@ + name
        + " {\n    type Err = std::convert::Infallible;\n    fn from_str(s: &str) -> Result<Self, Self::Err> {\n        if let Ok(smoller) = s.parse() {\n            Ok(Self::Builtin(smoller))\n        } else {\n            Ok(Self::Unknown(s.into()))\n        }\n    }\n}\n\n"@
}

/// The custom hash, emitted only where the user asked for hashing:
/// proxies to the string representation.
pub open spec fn hash_impl(name: Seq<char>) -> Seq<char> {
    "impl std::hash::Hash for "@ + name
        + " {\n    fn hash<H: std::hash::Hasher>(&self, hasher: &mut H) {\n        smoller_str::SmollerStr::as_str(self).hash(hasher)\n    }\n}\n\n"@
}

/// The generated string-equality impls on the wrapper.
pub open spec fn wrapper_eq_impls(name: Seq<char>) -> Seq<char> {
    "impl PartialEq<str> for "@ + name
        + " {\n    fn eq(&self, other: &str) -> bool {\n        smoller_str::SmollerStr::as_str(self) == other\n    }\n}\n\nimpl PartialEq<str> for &'_ "@
        + name
        + " {\n    fn eq(&self, other: &str) -> bool {\n        smoller_str::SmollerStr::as_str(*self) == other\n    }\n}\n\n"@
}

/// The generated display impl on the wrapper.
pub open spec fn wrapper_display_impl(name: Seq<char>) -> Seq<char> {
    "impl std::fmt::Display for "@ + name
        + " {\n    fn fmt(&self, f: &mut std::fmt::Formatter) -> std::fmt::Result {\n        f.write_str(smoller_str::SmollerStr::as_str(self))\n    }\n}\n\n"@
}

/// The slice-dereference impl, emitted only where the options ask for
/// it.
pub open spec fn deref_impl(name: Seq<char>) -> Seq<char> {
    "impl std::ops::Deref for "@ + name
        + " {\n    type Target = str;\n\n    fn deref(&self) -> &str {\n        smoller_str::SmollerStr::as_str(self)\n    }\n}\n\n"@
}

/// The generated borrow and conversion impls on the wrapper.
pub open spec fn borrow_asref_impls(name: Seq<char>) -> Seq<char> {
    "impl std::borrow::Borrow<str> for "@ + name
        + " {\n    fn borrow(&self) -> &str {\n        smoller_str::SmollerStr::as_str(self)\n    }\n}\n\nimpl AsRef<str> for "@
        + name
        + " {\n    fn as_ref(&self) -> &str {\n        smoller_str::SmollerStr::as_str(self)\n    }\n}\n"@
}

/// The whole generated open-wrapper surface.
pub open spec fn smoller_source(
    opts: SmollerOpts,
    vis: Seq<char>,
    name: Seq<char>,
    ds: Seq<Seq<char>>,
    vs: Seq<VariantV>,
) -> Seq<char> {
    let repr = name + "Repr"@;
    repr_enum_def(vis, repr, repr_derives(ds), vs, opts.no_derives) + enumstr_source(
        Seq::empty(),
        repr,
        view_pairs(vs),
    ) + wrapper_enum_def(vis, name, repr, wrapper_derives(ds), opts.no_derives) + builtin_block(
        vis,
        name,
        repr,
        vs,
    ) + smollerstr_impl(name) + fromstr_impl(name) + (if names_contain(ds, "Hash"@) {
        hash_impl(name)
    } else {
        Seq::<char>::empty()
    }) + wrapper_eq_impls(name) + wrapper_display_impl(name) + (if opts.impl_deref {
        deref_impl(name)
    } else {
        Seq::<char>::empty()
    }) + borrow_asref_impls(name)
}

/// Emit the names joined with commas.
fn render_join_names(ds: &Vec<String>) -> (r: String)
    ensures
        r@ == join_names(names_of(ds@)),
{
    let ghost ns = names_of(ds@);
    let mut out = String::new();
    let mut i: usize = 0;
    while i < ds.len()
        invariant
            i <= ds@.len(),
            ns == names_of(ds@),
            out@ == join_names(ns.take(i as int)),
        decreases ds@.len() - i,
    {
        let ghost prev = out@;
        if i > 0 {
            out.append(", ");
        }
        out.append(ds[i].as_str());
        proof {
            assert(ns.take(i as int + 1).drop_last() =~= ns.take(i as int));
            assert(ns.take(i as int + 1).last() == ns[i as int]);
            if i == 0 {
                assert(out@ =~= join_names(ns.take(1)));
            } else {
                assert(out@ =~= join_names(ns.take(i as int)) + ", "@ + ns[i as int]);
            }
        }
        i = i + 1;
    }
    proof {
        assert(ns.take(ds@.len() as int) =~= ns);
    }
    out
}

/// Keep the names that survive the repr filter (everything but
/// `EnumStr`).
fn filter_repr_derives(ds: &Vec<String>) -> (r: Vec<String>)
    ensures
        names_of(r@) == repr_derives(names_of(ds@)),
{
    let ghost ns = names_of(ds@);
    let mut kept: Vec<String> = Vec::new();
    let mut i: usize = 0;
    while i < ds.len()
        invariant
            i <= ds@.len(),
            ns == names_of(ds@),
            names_of(kept@) == repr_derives(ns.take(i as int)),
        decreases ds@.len() - i,
    {
        let ghost prev = names_of(kept@);
        if !text_eq(ds[i].as_str(), "EnumStr") {
            kept.push(ds[i].clone());
        }
        proof {
            assert(ns.take(i as int + 1).drop_last() =~= ns.take(i as int));
            assert(ns.take(i as int + 1).last() == ns[i as int]);
            if ns[i as int] == "EnumStr"@ {
                assert(names_of(kept@) =~= prev);
                assert(prev + Seq::<Seq<char>>::empty() =~= prev);
            } else {
                assert(names_of(kept@) =~= prev + seq![ns[i as int]]);
            }
        }
        i = i + 1;
    }
    proof {
        assert(ns.take(ds@.len() as int) =~= ns);
    }
    kept
}

/// Keep the names that survive the wrapper filter (everything but
/// `EnumStr`, `Copy` and `Hash`).
fn filter_wrapper_derives(ds: &Vec<String>) -> (r: Vec<String>)
    ensures
        names_of(r@) == wrapper_derives(names_of(ds@)),
{
    let ghost ns = names_of(ds@);
    let mut kept: Vec<String> = Vec::new();
    let mut i: usize = 0;
    while i < ds.len()
        invariant
            i <= ds@.len(),
            ns == names_of(ds@),
            names_of(kept@) == wrapper_derives(ns.take(i as int)),
        decreases ds@.len() - i,
    {
        let ghost prev = names_of(kept@);
        if !text_eq(ds[i].as_str(), "EnumStr") && !text_eq(ds[i].as_str(), "Copy") && !text_eq(
            ds[i].as_str(),
            "Hash",
        ) {
            kept.push(ds[i].clone());
        }
        proof {
            assert(ns.take(i as int + 1).drop_last() =~= ns.take(i as int));
            assert(ns.take(i as int + 1).last() == ns[i as int]);
            if ns[i as int] == "EnumStr"@ || ns[i as int] == "Copy"@ || ns[i as int] == "Hash"@ {
                assert(names_of(kept@) =~= prev);
                assert(prev + Seq::<Seq<char>>::empty() =~= prev);
            } else {
                assert(names_of(kept@) =~= prev + seq![ns[i as int]]);
            }
        }
        i = i + 1;
    }
    proof {
        assert(ns.take(ds@.len() as int) =~= ns);
    }
    kept
}

/// Whether the list names the trait.
fn contains_name(ds: &Vec<String>, x: &str) -> (r: bool)
    ensures
        r == names_contain(names_of(ds@), x@),
{
    let ghost ns = names_of(ds@);
    let mut i: usize = 0;
    while i < ds.len()
        invariant
            i <= ds@.len(),
            ns == names_of(ds@),
            forall|j: int| 0 <= j < i ==> ns[j] != x@,
        decreases ds@.len() - i,
    {
        if text_eq(ds[i].as_str(), x) {
            proof {
                assert(ns[i as int] == x@);
            }
            return true;
        }
        i = i + 1;
    }
    false
}

/// Emit the repr enum's body.
fn render_variant_lines(vs: &Vec<VariantDecl>) -> (r: String)
    ensures
        r@ == variant_lines(variant_views(vs@)),
{
    let ghost vv = variant_views(vs@);
    let mut out = String::new();
    let mut i: usize = 0;
    while i < vs.len()
        invariant
            i <= vs@.len(),
            vv == variant_views(vs@),
            out@ == variant_lines(vv.take(i as int)),
        decreases vs@.len() - i,
    {
        let ghost prev = out@;
        out.append("    ");
        let ghost attrs = vv[i as int].attrs;
        let mut k: usize = 0;
        while k < vs[i].attrs.len()
            invariant
                0 <= i < vs@.len(),
                k <= vs@[i as int].attrs@.len(),
                vv == variant_views(vs@),
                attrs == vv[i as int].attrs,
                attrs.len() == vs@[i as int].attrs@.len(),
                forall|m: int| 0 <= m < attrs.len() ==> attrs[m] == vs@[i as int].attrs@[m]@,
                out@ == prev + "    "@ + attr_prefix(attrs.take(k as int)),
            decreases vs@[i as int].attrs@.len() - k,
        {
            out.append("#[");
            out.append(vs[i].attrs[k].as_str());
            out.append("] ");
            proof {
                assert(attrs.take(k as int + 1).drop_last() =~= attrs.take(k as int));
                assert(attrs.take(k as int + 1).last() == attrs[k as int]);
                assert(out@ =~= prev + "    "@ + attr_prefix(attrs.take(k as int + 1)));
            }
            k = k + 1;
        }
        out.append(vs[i].name.as_str());
        out.append(",\n");
        proof {
            assert(attrs.take(attrs.len() as int) =~= attrs);
            assert(vv.take(i as int + 1).drop_last() =~= vv.take(i as int));
            assert(vv.take(i as int + 1).last() == vv[i as int]);
            assert(out@ =~= prev + variant_line(vv[i as int]));
        }
        i = i + 1;
    }
    proof {
        assert(vv.take(vs@.len() as int) =~= vv);
    }
    out
}

/// Emit the entries of the generated `BUILTIN` constant.
fn render_builtin_entries(repr: &str, vs: &Vec<VariantDecl>) -> (r: String)
    ensures
        r@ == builtin_entries(repr@, variant_views(vs@)),
{
    let ghost vv = variant_views(vs@);
    let mut out = String::new();
    let mut i: usize = 0;
    while i < vs.len()
        invariant
            i <= vs@.len(),
            vv == variant_views(vs@),
            out@ == builtin_entries(repr@, vv.take(i as int)),
        decreases vs@.len() - i,
    {
        let ghost prev = out@;
        out.append("        Self::Builtin(");
        out.append(repr);
        out.append("::");
        out.append(vs[i].name.as_str());
        out.append("),\n");
        proof {
            assert(vv.take(i as int + 1).drop_last() =~= vv.take(i as int));
            assert(vv.take(i as int + 1).last() == vv[i as int]);
            assert(out@ =~= prev + builtin_entry(repr@, vv[i as int]));
        }
        i = i + 1;
    }
    proof {
        assert(vv.take(vs@.len() as int) =~= vv);
    }
    out
}

/// Find the derive list carried by the last `derive(...)` attribute.
fn find_last_derive(attrs: &Vec<AttrDecl>) -> (r: Option<&Vec<String>>)
    ensures
        match r {
            Some(l) => last_derive(attrs@) == Some(*l),
            None => last_derive(attrs@) is None,
        },
{
    let mut found: Option<&Vec<String>> = None;
    let mut i: usize = 0;
    while i < attrs.len()
        invariant
            i <= attrs@.len(),
            match found {
                Some(l) => last_derive(attrs@.take(i as int)) == Some(*l),
                None => last_derive(attrs@.take(i as int)) is None,
            },
        decreases attrs@.len() - i,
    {
        match &attrs[i] {
            AttrDecl::DeriveList(l) => {
                found = Some(l);
            },
            AttrDecl::Plain(_) => {},
        }
        proof {
            assert(attrs@.take(i as int + 1).drop_last() =~= attrs@.take(i as int));
            assert(attrs@.take(i as int + 1).last() == attrs@[i as int]);
        }
        i = i + 1;
    }
    proof {
        assert(attrs@.take(attrs@.len() as int) =~= attrs@);
    }
    found
}

/// Emit the repr enum definition.
fn render_repr_def(
    vis: &str,
    repr: &str,
    derives: &Vec<String>,
    vs: &Vec<VariantDecl>,
    no_derives: bool,
) -> (r: String)
    ensures
        r@ == repr_enum_def(
            vis@,
            repr@,
            repr_derives(names_of(derives@)),
            variant_views(vs@),
            no_derives,
        ),
{
    let mut out = String::new();
    if !no_derives {
        out.append("#[derive(");
        let rd = render_join_names(&filter_repr_derives(derives));
        out.append(rd.as_str());
        out.append(")]\n");
    }
    let vp = render_vis_prefix(vis);
    out.append(vp.as_str());
    out.append("enum ");
    out.append(repr);
    out.append(" {\n");
    let vl = render_variant_lines(vs);
    out.append(vl.as_str());
    out.append("}\n\n");
    proof {
        assert(out@ =~= repr_enum_def(
            vis@,
            repr@,
            repr_derives(names_of(derives@)),
            variant_views(vs@),
            no_derives,
        ));
    }
    out
}

/// Emit the wrapper enum definition.
fn render_wrapper_def(
    vis: &str,
    name: &str,
    repr: &str,
    derives: &Vec<String>,
    no_derives: bool,
) -> (r: String)
    ensures
        r@ == wrapper_enum_def(
            vis@,
            name@,
            repr@,
            wrapper_derives(names_of(derives@)),
            no_derives,
        ),
{
    let mut out = String::new();
    if !no_derives {
        out.append("#[derive(");
        let wd = render_join_names(&filter_wrapper_derives(derives));
        out.append(wd.as_str());
        out.append(")]\n");
    }
    let vp = render_vis_prefix(vis);
    out.append(vp.as_str());
    out.append("enum ");
    out.append(name);
    out.append(" {\n    Builtin(");
    out.append(repr);
    out.append("),\n    Unknown(std::sync::Arc<str>),\n}\n\n");
    proof {
        assert(out@ =~= wrapper_enum_def(
            vis@,
            name@,
            repr@,
            wrapper_derives(names_of(derives@)),
            no_derives,
        ));
    }
    out
}

/// Emit the `BUILTIN` enumeration constant on the wrapper.
fn render_builtin_block(vis: &str, name: &str, repr: &str, vs: &Vec<VariantDecl>) -> (r: String)
    ensures
        r@ == builtin_block(vis@, name@, repr@, variant_views(vs@)),
{
    let mut out = String::new();
    out.append("impl ");
    out.append(name);
    out.append(" {\n    ");
    let vp = render_vis_prefix(vis);
    out.append(vp.as_str());
    out.append("const BUILTIN: &'static [Self] = &[\n");
    let be = render_builtin_entries(repr, vs);
    out.append(be.as_str());
    out.append("    ];\n}\n\n");
    proof {
        assert(out@ =~= builtin_block(vis@, name@, repr@, variant_views(vs@)));
    }
    out
}

/// Emit the generated `SmollerStr` impl.
fn render_smollerstr(name: &str) -> (r: String)
    ensures
        r@ == smollerstr_impl(name@),
{
    let mut out = String::new();
    out.append("impl smoller_str::SmollerStr for ");
    out.append(name);
    out.append(
        " {\n    fn new(s: &str) -> Self {\n        s.parse().unwrap()\n    }\n    fn as_str(&self) -> &str {\n        match self {\n            Self::Builtin(s) => s.as_str(),\n            Self::Unknown(s) => s,\n        }\n    }\n    fn is_heap_allocated(&self) -> bool {\n        matches!(self, Self::Unknown(_))\n    }\n    fn is_builtin_value(&self) -> bool {\n        matches!(self, Self::Builtin(_))\n    }\n    fn builtin() -> Vec<Self> {\n        Self::BUILTIN.to_vec()\n    }\n}\n\n",
    );
    proof {
        assert(out@ =~= smollerstr_impl(name@));
    }
    out
}

/// Emit the generated infallible parse.
fn render_fromstr(name: &str) -> (r: String)
    ensures
        r@ == fromstr_impl(name@),
{
    let mut out = String::new();
    out.append("impl std::str::FromStr for ");
    out.append(name);
    out.append(
        " {\n    type Err = std::convert::Infallible;\n    fn from_str(s: &str) -> Result<Self, Self::Err> {\n        if let Ok(smoller) = s.parse() {\n            Ok(Self::Builtin(smoller))\n        } else {\n            Ok(Self::Unknown(s.into()))\n        }\n    }\n}\n\n",
    );
    proof {
        assert(out@ =~= fromstr_impl(name@));
    }
    out
}

/// Emit the custom hash.
fn render_hash(name: &str) -> (r: String)
    ensures
        r@ == hash_impl(name@),
{
    let mut out = String::new();
    out.append("impl std::hash::Hash for ");
    out.append(name);
    out.append(
        " {\n    fn hash<H: std::hash::Hasher>(&self, hasher: &mut H) {\n        smoller_str::SmollerStr::as_str(self).hash(hasher)\n    }\n}\n\n",
    );
    proof {
        assert(out@ =~= hash_impl(name@));
    }
    out
}

/// Emit the string-equality and display impls on the wrapper.
fn render_eq_display(name: &str) -> (r: String)
    ensures
        r@ == wrapper_eq_impls(name@) + wrapper_display_impl(name@),
{
    let mut out = String::new();
    out.append("impl PartialEq<str> for ");
    out.append(name);
    out.append(
        " {\n    fn eq(&self, other: &str) -> bool {\n        smoller_str::SmollerStr::as_str(self) == other\n    }\n}\n\nimpl PartialEq<str> for &'_ ",
    );
    out.append(name);
    out.append(
        " {\n    fn eq(&self, other: &str) -> bool {\n        smoller_str::SmollerStr::as_str(*self) == other\n    }\n}\n\n",
    );
    out.append("impl std::fmt::Display for ");
    out.append(name);
    out.append(
        " {\n    fn fmt(&self, f: &mut std::fmt::Formatter) -> std::fmt::Result {\n        f.write_str(smoller_str::SmollerStr::as_str(self))\n    }\n}\n\n",
    );
    proof {
        assert(out@ =~= wrapper_eq_impls(name@) + wrapper_display_impl(name@));
    }
    out
}

/// Emit the slice-dereference impl.
fn render_deref(name: &str) -> (r: String)
    ensures
        r@ == deref_impl(name@),
{
    let mut out = String::new();
    out.append("impl std::ops::Deref for ");
    out.append(name);
    out.append(
        " {\n    type Target = str;\n\n    fn deref(&self) -> &str {\n        smoller_str::SmollerStr::as_str(self)\n    }\n}\n\n",
    );
    proof {
        assert(out@ =~= deref_impl(name@));
    }
    out
}

/// Emit the borrow and conversion impls on the wrapper.
fn render_borrow_asref(name: &str) -> (r: String)
    ensures
        r@ == borrow_asref_impls(name@),
{
    let mut out = String::new();
    out.append("impl std::borrow::Borrow<str> for ");
    out.append(name);
    out.append(
        " {\n    fn borrow(&self) -> &str {\n        smoller_str::SmollerStr::as_str(self)\n    }\n}\n\nimpl AsRef<str> for ",
    );
    out.append(name);
    out.append(
        " {\n    fn as_ref(&self) -> &str {\n        smoller_str::SmollerStr::as_str(self)\n    }\n}\n",
    );
    proof {
        assert(out@ =~= borrow_asref_impls(name@));
    }
    out
}

/// How a successful open-wrapper run reads: the declaration is an enum
/// of unit variants with string values, it carries a derive list, and
/// the output is the whole generated surface.
pub open spec fn smoller_ok(opts: SmollerOpts, node: Decl, out: Seq<char>) -> bool {
    match node.body {
        DeclBody::Enum(vs) => {
            &&& all_unit_values(vs@)
            &&& last_derive(node.attrs@) matches Some(l) && out == smoller_source(
                opts,
                node.vis@,
                node.name@,
                names_of(l@),
                variant_views(vs@),
            )
        },
        DeclBody::NotEnum => false,
    }
}

/// How a failed open-wrapper run reads: a non-enum, a missing derive
/// list, or a variant that fails validation, in that order.
pub open spec fn smoller_err(node: Decl, e: GenError) -> bool {
    match node.body {
        DeclBody::NotEnum => e.kind == ErrorKind::NotAnEnum && e.note@
            == "`smol_str` can only be used on enums"@,
        DeclBody::Enum(vs) => if last_derive(node.attrs@) is None {
            e.kind == ErrorKind::MissingDeriveList && e.note@
                == "`smoller_str` must derive `EnumStr`"@
        } else {
            variant_failure(vs@, e)
        },
    }
}

/// Generate the paired repr enum and open wrapper for a declaration.
///
/// Succeeds exactly when the declaration is an enum, carries a
/// `derive(...)` attribute, and every variant is a unit variant with a
/// string-value annotation.  Fails with `NotAnEnum` on a non-enum,
/// `MissingDeriveList` without the attribute, and the variant
/// validator's error otherwise.
#[verifier::rlimit(100)]
pub fn smoller(opts: SmollerOpts, node: &Decl) -> (r: Result<String, GenError>)
    ensures
        match r {
            Ok(out) => smoller_ok(opts, *node, out@),
            Err(e) => smoller_err(*node, e),
        },
{
    let vs = match &node.body {
        DeclBody::Enum(vs) => vs,
        DeclBody::NotEnum => {
            return Err(
                GenError {
                    kind: ErrorKind::NotAnEnum,
                    at: 0,
                    note: String::from_str("`smol_str` can only be used on enums"),
                },
            );
        },
    };
    let derives = match find_last_derive(&node.attrs) {
        Some(l) => l,
        None => {
            return Err(
                GenError {
                    kind: ErrorKind::MissingDeriveList,
                    at: 0,
                    note: String::from_str("`smoller_str` must derive `EnumStr`"),
                },
            );
        },
    };
    let pairs = match unit_value_pairs(vs) {
        Ok(ps) => ps,
        Err(e) => {
            return Err(e);
        },
    };
    let mut repr = node.name.clone();
    repr.append("Repr");

    let ghost ds_v = names_of(derives@);
    let ghost vv = variant_views(vs@);

    // The repr enum definition.
    let mut out = render_repr_def(node.vis.as_str(), repr.as_str(), derives, vs, opts.no_derives);

    // The closed-enum surface for the repr, with inherited visibility.
    let input = EnumStrInput::new(pairs, repr.clone(), String::new());
    let closed = input.to_source();
    out.append(closed.as_str());
    proof {
        assert(pairs_of(input.variants@) =~= view_pairs(vv));
        assert(input.vis@ =~= Seq::<char>::empty());
    }

    // The wrapper enum definition.
    let wdef = render_wrapper_def(
        node.vis.as_str(),
        node.name.as_str(),
        repr.as_str(),
        derives,
        opts.no_derives,
    );
    out.append(wdef.as_str());

    // The BUILTIN enumeration and the SmollerStr impl.
    let bblock = render_builtin_block(
        node.vis.as_str(),
        node.name.as_str(),
        repr.as_str(),
        vs,
    );
    out.append(bblock.as_str());
    let simpl = render_smollerstr(node.name.as_str());
    out.append(simpl.as_str());

    // The infallible parse.
    let fimpl = render_fromstr(node.name.as_str());
    out.append(fimpl.as_str());

    // The custom hash, only where hashing was requested.
    let ghost with_hash = out@;
    if contains_name(derives, "Hash") {
        let himpl = render_hash(node.name.as_str());
        out.append(himpl.as_str());
    }
    proof {
        assert(out@ == with_hash + (if names_contain(ds_v, "Hash"@) {
            hash_impl(node.name@)
        } else {
            Seq::<char>::empty()
        })) by {
            if !names_contain(ds_v, "Hash"@) {
                assert(with_hash + Seq::<char>::empty() =~= with_hash);
            }
        }
    }

    // String equality and display.
    let eqd = render_eq_display(node.name.as_str());
    out.append(eqd.as_str());

    // The dereference, only where the options ask for it.
    let ghost with_deref = out@;
    if opts.impl_deref {
        let dimpl = render_deref(node.name.as_str());
        out.append(dimpl.as_str());
    }
    proof {
        assert(out@ == with_deref + (if opts.impl_deref {
            deref_impl(node.name@)
        } else {
            Seq::<char>::empty()
        })) by {
            if !opts.impl_deref {
                assert(with_deref + Seq::<char>::empty() =~= with_deref);
            }
        }
    }

    // Borrow and conversion.
    let ba = render_borrow_asref(node.name.as_str());
    out.append(ba.as_str());
    proof {
        assert(out@ =~= smoller_source(opts, node.vis@, node.name@, ds_v, vv));
    }
    Ok(out)
}

/// The variant one list entry declares.  The literal is kept verbatim
/// as the variant's string value; only the identifier is derived from
/// it where none was given explicitly.
pub open spec fn item_variant(it: ItemSpec) -> VariantV {
    match it.named {
        Some(n) => VariantV { name: n, value: it.lit, attrs: Seq::empty() },
        None => VariantV { name: derived_ident(it.lit), value: it.lit, attrs: Seq::empty() },
    }
}

/// The variants a whole literal list declares, in order.
pub open spec fn item_variants(items: Seq<SmolItem>) -> Seq<VariantV> {
    items.map_values(|it: SmolItem| item_variant(item_view(it)))
}

/// The derive list the literal-list front end requests on the enum it
/// declares.
pub open spec fn func_derives() -> Seq<Seq<char>> {
    seq!["Debug"@, "Clone"@, "Copy"@, "PartialEq"@, "Eq"@, "Hash"@, "EnumStr"@]
}

/// Generate the paired repr enum and open wrapper from a literal list.
///
/// Each entry becomes a public unit variant holding its literal
/// verbatim: an explicit identifier is taken as given; a bare literal
/// gets its derived identifier.  The enum derives the standard list
/// plus the generation marker, so generation cannot fail.
pub fn smoller_func(opts: SmollerOpts, name: String, strings: Vec<SmolItem>) -> (r: Result<
    String,
    GenError,
>)
    ensures
        r matches Ok(out) && out@ == smoller_source(
            opts,
            "pub"@,
            name@,
            func_derives(),
            item_variants(strings@),
        ),
{
    let ghost views = item_variants(strings@);
    let mut variants: Vec<VariantDecl> = Vec::new();
    let mut i: usize = 0;
    while i < strings.len()
        invariant
            i <= strings@.len(),
            views == item_variants(strings@),
            variants@.len() == i,
            forall|j: int| 0 <= j < i ==> (#[trigger] variants@[j].shape) is Unit,
            forall|j: int| 0 <= j < i ==> (#[trigger] variants@[j]).value is Some,
            forall|j: int| 0 <= j < i ==> variant_views(variants@)[j] == #[trigger] views[j],
        decreases strings@.len() - i,
    {
        let v = match &strings[i] {
            SmolItem::Bare(lit) => {
                let ident = derive_ident(lit.as_str());
                VariantDecl {
                    name: ident,
                    shape: FieldShape::Unit,
                    value: Some(lit.clone()),
                    attrs: Vec::new(),
                }
            },
            SmolItem::Value(lit, ident) => VariantDecl {
                name: ident.clone(),
                shape: FieldShape::Unit,
                value: Some(lit.clone()),
                attrs: Vec::new(),
            },
        };
        let ghost vv = variant_views(variants@.push(v));
        proof {
            assert(v.attrs@.map_values(|a: String| a@) =~= Seq::<Seq<char>>::empty());
            assert(vv[i as int] == views[i as int]);
        }
        variants.push(v);
        i = i + 1;
    }
    let mut derive_names: Vec<String> = Vec::new();
    derive_names.push(String::from_str("Debug"));
    derive_names.push(String::from_str("Clone"));
    derive_names.push(String::from_str("Copy"));
    derive_names.push(String::from_str("PartialEq"));
    derive_names.push(String::from_str("Eq"));
    derive_names.push(String::from_str("Hash"));
    derive_names.push(String::from_str("EnumStr"));
    proof {
        assert(names_of(derive_names@) =~= func_derives());
    }
    let mut attrs: Vec<AttrDecl> = Vec::new();
    attrs.push(AttrDecl::DeriveList(derive_names));
    let node = Decl {
        vis: String::from_str("pub"),
        name,
        attrs,
        body: DeclBody::Enum(variants),
    };
    proof {
        assert(node.attrs@.last() == node.attrs@[0]);
        assert(variant_views(node.body->Enum_0@) =~= views);
    }
    let r = smoller(opts, &node);
    match r {
        Ok(out) => Ok(out),
        Err(e) => {
            proof {
                assert(false);
            }
            Err(e)
        },
    }
}

/// Parse the inline invocation `Name, [ entries ]`: the declared enum
/// name and the literal-list entries.
pub open spec fn parse_strings_call(s: Seq<char>) -> Option<(Seq<char>, Seq<ItemSpec>)> {
    let j = ws_end(s, 0);
    if j < s.len() && ident_start(s[j]) {
        let e = ident_end(s, j);
        let name = s.subrange(j, e);
        let m = ws_end(s, e);
        if m < s.len() && s[m] == ',' {
            let m2 = ws_end(s, m + 1);
            if m2 < s.len() && s[m2] == '[' {
                match parse_items(s, m2 + 1) {
                    Some((items, stop)) => if stop < s.len() && s[stop] == ']' && ws_end(
                        s,
                        stop + 1,
                    ) == s.len() {
                        Some((name, items))
                    } else {
                        None
                    },
                    None => None,
                }
            } else {
                None
            }
        } else {
            None
        }
    } else {
        None
    }
}

/// Generate from the inline invocation form `Name, [ entries ]`, with
/// default options.
///
/// Succeeds exactly when the text matches that grammar; the output is
/// the literal-list generation for the parsed name and entries.
pub fn smoller_strings(s: &str) -> (r: Result<String, GenError>)
    ensures
        match r {
            Ok(out) => parse_strings_call(s@) matches Some(p) && out@ == smoller_source(
                SmollerOpts { impl_deref: true, no_derives: false },
                "pub"@,
                p.0,
                func_derives(),
                p.1.map_values(|it: ItemSpec| item_variant(it)),
            ),
            Err(e) => parse_strings_call(s@) is None && e.kind == ErrorKind::Syntax,
        },
{
    let n = s.unicode_len();
    let j = skip_ws(s, 0);
    if j >= n || !is_ident_start(s.get_char(j)) {
        return Err(
            GenError {
                kind: ErrorKind::Syntax,
                at: j,
                note: String::from_str("expected an identifier"),
            },
        );
    }
    let e = skip_ident(s, j);
    proof {
        lemma_ident_end(s@, j as int);
    }
    let name = s.substring_char(j, e).to_owned();
    let m = skip_ws(s, e);
    if m >= n || s.get_char(m) != ',' {
        return Err(
            GenError { kind: ErrorKind::Syntax, at: m, note: String::from_str("expected `,`") },
        );
    }
    let m2 = skip_ws(s, m + 1);
    if m2 >= n || s.get_char(m2) != '[' {
        return Err(
            GenError { kind: ErrorKind::Syntax, at: m2, note: String::from_str("expected `[`") },
        );
    }
    let (items, stop) = match parse_items_exec(s, m2 + 1) {
        Ok(p) => p,
        Err(err) => {
            return Err(err);
        },
    };
    if !(stop < n && s.get_char(stop) == ']') {
        return Err(
            GenError { kind: ErrorKind::Syntax, at: stop, note: String::from_str("expected `]`") },
        );
    }
    let after = skip_ws(s, stop + 1);
    if after < n {
        return Err(
            GenError {
                kind: ErrorKind::Syntax,
                at: after,
                note: String::from_str("expected the end of the invocation"),
            },
        );
    }
    let ghost its = items@.map_values(|it: SmolItem| item_view(it));
    let r = smoller_func(SmollerOpts { impl_deref: true, no_derives: false }, name, items);
    proof {
        assert(item_variants(items@) =~= its.map_values(|it: ItemSpec| item_variant(it)));
    }
    r
}

/// Generate from the attribute invocation form: the option text on the
/// attribute and the annotated declaration.
///
/// Succeeds exactly when the option text parses (empty text gives the
/// defaults) and the declaration passes open-wrapper generation.
pub fn smoller_str(attr: &str, node: &Decl) -> (r: Result<String, GenError>)
    ensures
        match r {
            Ok(out) => crate::options::parse_opts(
                attr@,
                0,
                SmollerOpts { impl_deref: true, no_derives: false },
            ) matches Some(o) && smoller_ok(o, *node, out@),
            Err(e) => match crate::options::parse_opts(
                attr@,
                0,
                SmollerOpts { impl_deref: true, no_derives: false },
            ) {
                Some(o) => smoller_err(*node, e),
                None => e.kind == ErrorKind::Syntax,
            },
        },
{
    let opts = match SmollerOpts::parse(attr) {
        Ok(o) => o,
        Err(e) => {
            return Err(e);
        },
    };
    smoller(opts, node)
}

/// A line-delimited literal file, rewritten as literal-list body text:
/// every line break becomes a comma (a carriage return in front of a
/// line break is dropped with it), so each line is one list entry.
pub open spec fn lines_joined(s: Seq<char>, i: int) -> Seq<char>
    decreases s.len() - i,
{
    if i < 0 || i >= s.len() {
        Seq::empty()
    } else if s[i] == '\r' && i + 1 < s.len() && s[i + 1] == '\n' {
        lines_joined(s, i + 1)
    } else if s[i] == '\n' {
        ",\n"@ + lines_joined(s, i + 1)
    } else {
        seq![s[i]] + lines_joined(s, i + 1)
    }
}

/// Rewrite a line-delimited literal file as literal-list body text.
pub fn join_file_lines(contents: &str) -> (r: String)
    ensures
        r@ == lines_joined(contents@, 0),
{
    let n = contents.unicode_len();
    let mut out = String::new();
    let mut i: usize = 0;
    while i < n
        invariant
            i <= n,
            n == contents@.len(),
            lines_joined(contents@, 0) == out@ + lines_joined(contents@, i as int),
        decreases n - i,
    {
        let ghost prev = out@;
        let ghost rest = lines_joined(contents@, i as int + 1);
        let c = contents.get_char(i);
        if c == '\r' && i + 1 < n && contents.get_char(i + 1) == '\n' {
            // Dropped together with the line break that follows.
        } else if c == '\n' {
            out.append(",\n");
            proof {
                assert(out@ + rest =~= prev + (",\n"@ + rest));
            }
        } else {
            out.push(c);
            proof {
                assert(out@ + rest =~= prev + (seq![c] + rest));
            }
        }
        i = i + 1;
    }
    proof {
        assert(out@ + lines_joined(contents@, n as int) =~= out@);
    }
    out
}

/// Generate from the contents of a line-delimited literal file, with
/// default options: each line is one literal-list entry.
///
/// Succeeds exactly when the rewritten lines parse as a literal list
/// that spans the whole text.  (Reading the file itself is the
/// caller's business; an unreadable file is its own failure kind.)
pub fn smoller_strings_lines(name: String, contents: &str) -> (r: Result<String, GenError>)
    ensures
        match r {
            Ok(out) => parse_items(lines_joined(contents@, 0), 0) matches Some(p) && p.1
                == lines_joined(contents@, 0).len() && out@ == smoller_source(
                SmollerOpts { impl_deref: true, no_derives: false },
                "pub"@,
                name@,
                func_derives(),
                p.0.map_values(|it: ItemSpec| item_variant(it)),
            ),
            Err(e) => e.kind == ErrorKind::Syntax && !(parse_items(
                lines_joined(contents@, 0),
                0,
            ) matches Some(p) && p.1 == lines_joined(contents@, 0).len()),
        },
{
    let joined = join_file_lines(contents);
    let (items, stop) = match parse_items_exec(joined.as_str(), 0) {
        Ok(p) => p,
        Err(err) => {
            return Err(err);
        },
    };
    if stop < joined.as_str().unicode_len() {
        return Err(
            GenError {
                kind: ErrorKind::Syntax,
                at: stop,
                note: String::from_str("expected the end of the list"),
            },
        );
    }
    let ghost its = items@.map_values(|it: SmolItem| item_view(it));
    let r = smoller_func(SmollerOpts { impl_deref: true, no_derives: false }, name, items);
    proof {
        assert(item_variants(items@) =~= its.map_values(|it: ItemSpec| item_variant(it)));
    }
    r
}

} // verus!
