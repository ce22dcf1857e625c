use smoller_str::decl::{AttrDecl, Decl, DeclBody, FieldShape, VariantDecl, VariantData,
    parse_variants};
use smoller_str::enumstr::{derive_enumstr, EnumStrInput};
use smoller_str::error::ErrorKind;
use smoller_str::error::GenError;
use smoller_str::ident::{derive_ident, normalized_words};
use smoller_str::options::SmollerOpts;
use smoller_str::smoller::{smoller, smoller_func, smoller_strings, smoller_strings_lines,
    smoller_str as smoller_attr};
use smoller_str::grammar::{parse_items_exec, SmolItem};

fn unit_variant(name: &str, value: &str) -> VariantDecl {
    VariantDecl {
        name: String::from(name),
        shape: FieldShape::Unit,
        value: Some(String::from(value)),
        attrs: Vec::new(),
    }
}

fn color_decl() -> Decl {
    Decl {
        vis: String::from("pub"),
        name: String::from("Color"),
        attrs: vec![AttrDecl::DeriveList(vec![
            String::from("Debug"),
            String::from("Clone"),
            String::from("Copy"),
            String::from("PartialEq"),
            String::from("Eq"),
            String::from("EnumStr"),
        ])],
        body: DeclBody::Enum(vec![
            unit_variant("Red", "red"),
            unit_variant("DarkBlue", "dark blue"),
        ]),
    }
}

#[test]
fn ident_derivation_examples() {
    assert_eq!(derive_ident("first_one"), "FirstOne");
    assert_eq!(derive_ident("The - Second"), "TheSecond");
}

#[test]
fn ident_derivation_is_deterministic() {
    let a = derive_ident("dark blue  thing");
    let b = derive_ident("dark blue  thing");
    assert_eq!(a, b);
}

#[test]
fn ident_normalization_drops_bad_tokens() {
    assert_eq!(normalized_words("The - Second"), "The Second");
    assert_eq!(normalized_words("  a  b "), "a b");
    assert_eq!(normalized_words("a+b"), "");
}

#[test]
fn parser_accepts_unit_values_in_order() {
    let vs = vec![unit_variant("A", "a"), unit_variant("B", "b")];
    let ds = parse_variants(&vs).unwrap();
    assert_eq!(ds.len(), 2);
    match &ds[0] {
        VariantData::Value { name, value } => {
            assert_eq!(name, "A");
            assert_eq!(value, "a");
        }
        _ => panic!("expected a value variant"),
    }
    match &ds[1] {
        VariantData::Value { name, value } => {
            assert_eq!(name, "B");
            assert_eq!(value, "b");
        }
        _ => panic!("expected a value variant"),
    }
}

#[test]
fn parser_reports_missing_value_annotation() {
    let vs = vec![
        unit_variant("A", "a"),
        VariantDecl {
            name: String::from("Bad"),
            shape: FieldShape::Unit,
            value: None,
            attrs: Vec::new(),
        },
    ];
    let e = parse_variants(&vs).unwrap_err();
    assert_eq!(e.kind, ErrorKind::MissingValueAnnotation);
    assert_eq!(e.at, 1);
}

#[test]
fn parser_rejects_named_fields() {
    let vs = vec![VariantDecl {
        name: String::from("Bad"),
        shape: FieldShape::Named,
        value: None,
        attrs: Vec::new(),
    }];
    let e = parse_variants(&vs).unwrap_err();
    assert_eq!(e.kind, ErrorKind::UnsupportedShape);
    assert_eq!(e.note, "named fields are not allowed");
}

#[test]
fn parser_rejects_multi_field_tuples() {
    let vs = vec![VariantDecl {
        name: String::from("Bad"),
        shape: FieldShape::Tuple(vec![String::from("u8"), String::from("u8")]),
        value: None,
        attrs: Vec::new(),
    }];
    let e = parse_variants(&vs).unwrap_err();
    assert_eq!(e.kind, ErrorKind::UnsupportedShape);
}

#[test]
fn parser_rejects_conflicting_annotation() {
    let vs = vec![VariantDecl {
        name: String::from("Bad"),
        shape: FieldShape::Tuple(vec![String::from("String")]),
        value: Some(String::from("x")),
        attrs: Vec::new(),
    }];
    let e = parse_variants(&vs).unwrap_err();
    assert_eq!(e.kind, ErrorKind::ConflictingAnnotation);
}

#[test]
fn closed_enum_source_is_exact() {
    let input = EnumStrInput::new(
        vec![
            (String::from("Red"), String::from("red")),
            (String::from("DarkBlue"), String::from("dark blue")),
        ],
        String::from("Color"),
        String::from("pub"),
    );
    let expected = r#"impl Color {
    pub const fn new(s: &str) -> Option<Self> {
        match s.as_bytes() {
            b"red" => Some(Color::Red),
            b"dark blue" => Some(Color::DarkBlue),
            _ => None,
        }
    }
    pub const fn as_str(&self) -> &'static str {
        match self {
            Color::Red => "red",
            Color::DarkBlue => "dark blue",
        }
    }
    pub const VALUES: &'static [Self] = &[
        Self::Red,
        Self::DarkBlue,
    ];
}

impl smoller_str::EnumStr for Color {
    fn as_str(&self) -> &str {
        Color::as_str(self)
    }
    fn parse(s: &str) -> Option<Self> {
        Color::new(s)
    }
    fn values() -> Vec<Self> {
        Color::VALUES.to_vec()
    }
}

impl std::fmt::Display for Color {
    fn fmt(&self, f: &mut std::fmt::Formatter) -> std::fmt::Result {
        f.write_str(Color::as_str(self))
    }
}

impl std::str::FromStr for Color {
    type Err = ();
    fn from_str(s: &str) -> Result<Self, Self::Err> {
        Color::new(s).ok_or(())
    }
}

impl AsRef<str> for Color {
    fn as_ref(&self) -> &str {
        Color::as_str(self)
    }
}

impl PartialEq<str> for Color {
    fn eq(&self, other: &str) -> bool {
        self.as_str() == other
    }
}

impl PartialEq<&'_ str> for Color {
    fn eq(&self, other: &&str) -> bool {
        self.as_str() == *other
    }
}

impl PartialEq<str> for &'_ Color {
    fn eq(&self, other: &str) -> bool {
        Color::as_str(*self) == other
    }
}

impl PartialEq<Color> for str {
    fn eq(&self, other: &Color) -> bool {
        self == other.as_str()
    }
}
"#;
    assert_eq!(input.to_source(), expected);
}

#[test]
fn literal_escapes_in_emitted_source() {
    let input = EnumStrInput::new(
        vec![(String::from("Odd"), String::from("a\"b\\c"))],
        String::from("T"),
        String::new(),
    );
    let out = input.to_source();
    assert!(out.contains("b\"a\\\"b\\\\c\" => Some(T::Odd),"));
    assert!(out.contains("T::Odd => \"a\\\"b\\\\c\","));
}

#[test]
fn non_ascii_literals_become_byte_escapes() {
    let input = EnumStrInput::new(
        vec![(String::from("Up"), String::from("\u{fc}ber"))],
        String::from("T"),
        String::new(),
    );
    let out = input.to_source();
    assert!(out.contains("b\"\\xc3\\xbcber\" => Some(T::Up),"));
}

#[test]
fn derive_rejects_non_enums() {
    let decl = Decl {
        vis: String::new(),
        name: String::from("S"),
        attrs: Vec::new(),
        body: DeclBody::NotEnum,
    };
    let e = smoller_str::enumstr::derive(&decl).unwrap_err();
    assert_eq!(e.kind, ErrorKind::NotAnEnum);
    let out = derive_enumstr(&decl);
    assert_eq!(out, "compile_error!(\"EnumStr can only be used on enums\");\n");
}

#[test]
fn derive_rejects_field_variants() {
    let decl = Decl {
        vis: String::new(),
        name: String::from("E"),
        attrs: Vec::new(),
        body: DeclBody::Enum(vec![VariantDecl {
            name: String::from("Other"),
            shape: FieldShape::Tuple(vec![String::from("String")]),
            value: None,
            attrs: Vec::new(),
        }]),
    };
    let e = smoller_str::enumstr::derive(&decl).unwrap_err();
    assert_eq!(e.kind, ErrorKind::UnsupportedShape);
    assert_eq!(e.note, "only unit variants are allowed");
}

#[test]
fn options_default() {
    let o = SmollerOpts::default();
    assert!(o.impl_deref);
    assert!(!o.no_derives);
}

#[test]
fn options_parse_empty_gives_defaults() {
    let o = SmollerOpts::parse("").unwrap();
    assert_eq!(o, SmollerOpts::default());
    let o = SmollerOpts::parse("   ").unwrap();
    assert_eq!(o, SmollerOpts::default());
}

#[test]
fn options_parse_assignments() {
    let o = SmollerOpts::parse("deref = false").unwrap();
    assert!(!o.impl_deref);
    assert!(!o.no_derives);
    let o = SmollerOpts::parse("derives = false, deref = true,").unwrap();
    assert!(o.impl_deref);
    assert!(o.no_derives);
}

#[test]
fn options_parse_errors() {
    assert_eq!(SmollerOpts::parse("deref").unwrap_err().kind, ErrorKind::Syntax);
    assert_eq!(SmollerOpts::parse("deref = maybe").unwrap_err().kind, ErrorKind::Syntax);
    assert_eq!(SmollerOpts::parse("color = true").unwrap_err().kind, ErrorKind::Syntax);
    assert_eq!(SmollerOpts::parse("= true").unwrap_err().kind, ErrorKind::Syntax);
}

#[test]
fn literal_list_grammar() {
    let (items, stop) = parse_items_exec("\"a\", \"b\" = Bee,", 0).unwrap();
    assert_eq!(stop, 15);
    assert_eq!(items.len(), 2);
    match &items[0] {
        SmolItem::Bare(l) => assert_eq!(l, "a"),
        _ => panic!("expected a bare literal"),
    }
    match &items[1] {
        SmolItem::Value(l, n) => {
            assert_eq!(l, "b");
            assert_eq!(n, "Bee");
        }
        _ => panic!("expected a named literal"),
    }
}

#[test]
fn literal_list_escapes() {
    let (items, _) = parse_items_exec("\"a\\\"b\\\\c\\n\"", 0).unwrap();
    match &items[0] {
        SmolItem::Bare(l) => assert_eq!(l, "a\"b\\c\n"),
        _ => panic!("expected a bare literal"),
    }
}

#[test]
fn literal_list_extended_escapes() {
    let (items, _) = parse_items_exec("\"a\\'b\"", 0).unwrap();
    match &items[0] {
        SmolItem::Bare(l) => assert_eq!(l, "a'b"),
        _ => panic!("expected a bare literal"),
    }
    let (items, _) = parse_items_exec("\"\\x41\\x7f\"", 0).unwrap();
    match &items[0] {
        SmolItem::Bare(l) => assert_eq!(l, "A\x7f"),
        _ => panic!("expected a bare literal"),
    }
    let (items, _) = parse_items_exec("\"\\u{fc}ber \\u{1F600}\"", 0).unwrap();
    match &items[0] {
        SmolItem::Bare(l) => assert_eq!(l, "\u{fc}ber \u{1F600}"),
        _ => panic!("expected a bare literal"),
    }
}

#[test]
fn literal_list_malformed_escapes() {
    assert_eq!(parse_items_exec("\"\\q\"", 0).unwrap_err().kind, ErrorKind::Syntax);
    assert_eq!(parse_items_exec("\"\\x4\"", 0).unwrap_err().kind, ErrorKind::Syntax);
    assert_eq!(parse_items_exec("\"\\x80\"", 0).unwrap_err().kind, ErrorKind::Syntax);
    assert_eq!(parse_items_exec("\"\\u{}\"", 0).unwrap_err().kind, ErrorKind::Syntax);
    assert_eq!(parse_items_exec("\"\\u{110000}\"", 0).unwrap_err().kind, ErrorKind::Syntax);
    assert_eq!(parse_items_exec("\"\\u{d800}\"", 0).unwrap_err().kind, ErrorKind::Syntax);
    assert_eq!(parse_items_exec("\"\\u{1234567}\"", 0).unwrap_err().kind, ErrorKind::Syntax);
}

#[test]
fn literal_list_errors() {
    assert_eq!(parse_items_exec("\"a", 0).unwrap_err().kind, ErrorKind::Syntax);
    assert_eq!(parse_items_exec("a", 0).unwrap_err().kind, ErrorKind::Syntax);
    assert_eq!(parse_items_exec("\"a\" \"b\"", 0).unwrap_err().kind, ErrorKind::Syntax);
}

#[test]
fn wrapper_generation_requires_derive_list() {
    let mut decl = color_decl();
    decl.attrs = Vec::new();
    let e = smoller(SmollerOpts::default(), &decl).unwrap_err();
    assert_eq!(e.kind, ErrorKind::MissingDeriveList);
    assert_eq!(e.note, "`smoller_str` must derive `EnumStr`");
}

#[test]
fn wrapper_generation_rejects_non_enums() {
    let decl = Decl {
        vis: String::new(),
        name: String::from("S"),
        attrs: vec![AttrDecl::DeriveList(vec![String::from("EnumStr")])],
        body: DeclBody::NotEnum,
    };
    let e = smoller(SmollerOpts::default(), &decl).unwrap_err();
    assert_eq!(e.kind, ErrorKind::NotAnEnum);
}

#[test]
fn wrapper_generation_emits_both_types() {
    let out = smoller(SmollerOpts::default(), &color_decl()).unwrap();
    assert!(out.contains("#[derive(Debug, Clone, Copy, PartialEq, Eq)]\npub enum ColorRepr {\n    Red,\n    DarkBlue,\n}\n"));
    assert!(out.contains("#[derive(Debug, Clone, PartialEq, Eq)]\npub enum Color {\n    Builtin(ColorRepr),\n    Unknown(std::sync::Arc<str>),\n}\n"));
    assert!(out.contains("b\"dark blue\" => Some(ColorRepr::DarkBlue),"));
    assert!(out.contains("        Self::Builtin(ColorRepr::Red),\n        Self::Builtin(ColorRepr::DarkBlue),\n    ];"));
    assert!(out.contains("impl smoller_str::SmollerStr for Color {"));
    assert!(out.contains("impl std::ops::Deref for Color {"));
    assert!(out.contains("impl std::borrow::Borrow<str> for Color {"));
    // The repr's own functions are private to the generated module.
    assert!(out.contains("    const fn new(s: &str) -> Option<Self> {"));
}

#[test]
fn wrapper_generation_preserves_hash_absence() {
    // Hashing not requested: no hash impl may appear on the wrapper.
    let out = smoller(SmollerOpts::default(), &color_decl()).unwrap();
    assert!(!out.contains("std::hash::Hash"));

    // Hashing requested: the custom string-proxy hash appears, and the
    // mechanical derive lists drop it on the wrapper.
    let mut decl = color_decl();
    decl.attrs = vec![AttrDecl::DeriveList(vec![
        String::from("Debug"),
        String::from("Clone"),
        String::from("PartialEq"),
        String::from("Eq"),
        String::from("Hash"),
        String::from("EnumStr"),
    ])];
    let out = smoller(SmollerOpts::default(), &decl).unwrap();
    assert!(out.contains("impl std::hash::Hash for Color {"));
    assert!(out.contains("#[derive(Debug, Clone, PartialEq, Eq, Hash)]\npub enum ColorRepr {"));
    assert!(out.contains("#[derive(Debug, Clone, PartialEq, Eq)]\npub enum Color {"));
}

#[test]
fn wrapper_generation_derives_option() {
    // With re-emission suppressed, neither generated type carries a
    // derive attribute; everything else stays.
    let opts = SmollerOpts { impl_deref: true, no_derives: true };
    let out = smoller(opts, &color_decl()).unwrap();
    assert!(!out.contains("#[derive("));
    assert!(out.contains("pub enum ColorRepr {\n    Red,\n    DarkBlue,\n}\n"));
    assert!(out.contains("pub enum Color {\n    Builtin(ColorRepr),"));

    let out = smoller_attr("derives = false", &color_decl()).unwrap();
    assert!(!out.contains("#[derive("));

    // By default both derive lists come back, filtered.
    let out = smoller(SmollerOpts::default(), &color_decl()).unwrap();
    assert_eq!(out.matches("#[derive(").count(), 2);
}

#[test]
fn wrapper_generation_deref_option() {
    let opts = SmollerOpts { impl_deref: false, no_derives: false };
    let out = smoller(opts, &color_decl()).unwrap();
    assert!(!out.contains("std::ops::Deref"));
}

#[test]
fn wrapper_generation_keeps_variant_attrs() {
    let mut decl = color_decl();
    match &mut decl.body {
        DeclBody::Enum(vs) => vs[0].attrs.push(String::from("doc = \"the warm one\"")),
        DeclBody::NotEnum => unreachable!(),
    }
    let out = smoller(SmollerOpts::default(), &decl).unwrap();
    assert!(out.contains("    #[doc = \"the warm one\"] Red,\n"));
}

#[test]
fn attribute_entry_parses_options() {
    let out = smoller_attr("deref = false", &color_decl()).unwrap();
    assert!(!out.contains("std::ops::Deref"));
    let e = smoller_attr("nope = true", &color_decl()).unwrap_err();
    assert_eq!(e.kind, ErrorKind::Syntax);
}

#[test]
fn literal_list_front_end() {
    let items = vec![
        SmolItem::Bare(String::from("first_one")),
        SmolItem::Bare(String::from("The - Second")),
        SmolItem::Value(String::from("third"), String::from("Three")),
    ];
    let out = smoller_func(SmollerOpts::default(), String::from("Words"), items).unwrap();
    assert!(out.contains("pub enum WordsRepr {\n    FirstOne,\n    TheSecond,\n    Three,\n}\n"));
    // A bare literal is kept verbatim as the declared value; only the
    // identifier is derived from it.
    assert!(out.contains("b\"first_one\" => Some(WordsRepr::FirstOne),"));
    assert!(out.contains("b\"The - Second\" => Some(WordsRepr::TheSecond),"));
    assert!(out.contains("b\"third\" => Some(WordsRepr::Three),"));
    assert!(out.contains("#[derive(Debug, Clone, Copy, PartialEq, Eq, Hash)]\npub enum WordsRepr {"));
}

#[test]
fn inline_invocation_form() {
    let out = smoller_strings("Fruit, [\"apple\", \"dragon fruit\"]").unwrap();
    assert!(out.contains("pub enum FruitRepr {\n    Apple,\n    DragonFruit,\n}\n"));
    assert!(out.contains("pub enum Fruit {\n    Builtin(FruitRepr),"));
    let e = smoller_strings("Fruit [\"apple\"]").unwrap_err();
    assert_eq!(e.kind, ErrorKind::Syntax);
    let e = smoller_strings("Fruit, [\"apple\"] trailing").unwrap_err();
    assert_eq!(e.kind, ErrorKind::Syntax);
}

#[test]
fn file_lines_form() {
    let out = smoller_strings_lines(String::from("Pet"), "\"cat\"\n\"small dog\" = Dog\n").unwrap();
    assert!(out.contains("pub enum PetRepr {\n    Cat,\n    Dog,\n}\n"));
    assert!(out.contains("b\"small dog\" => Some(PetRepr::Dog),"));
    let e = smoller_strings_lines(String::from("Pet"), "cat\ndog").unwrap_err();
    assert_eq!(e.kind, ErrorKind::Syntax);
}

#[test]
fn empty_literal_list() {
    let out = smoller_strings("Empty, []").unwrap();
    assert!(out.contains("pub enum EmptyRepr {\n}\n"));
    assert!(out.contains("const BUILTIN: &'static [Self] = &[\n    ];"));
}

#[test]
fn duplicate_literals_emit_arms_in_order() {
    let items = vec![
        SmolItem::Value(String::from("same"), String::from("First")),
        SmolItem::Value(String::from("same"), String::from("Second")),
    ];
    let out = smoller_func(SmollerOpts::default(), String::from("Dup"), items).unwrap();
    let first = out.find("b\"same\" => Some(DupRepr::First),").unwrap();
    let second = out.find("b\"same\" => Some(DupRepr::Second),").unwrap();
    assert!(first < second);
    assert!(out.contains("DupRepr::First => \"same\","));
    assert!(out.contains("DupRepr::Second => \"same\","));
}

#[test]
fn file_read_failure_carries_path_and_cause() {
    let e = GenError::file_read("pets.txt", "no such file");
    assert_eq!(e.kind, ErrorKind::FileRead);
    assert_eq!(e.note, "unable to read `pets.txt`: no such file");
    assert_eq!(
        e.to_compile_error(),
        "compile_error!(\"unable to read `pets.txt`: no such file\");\n"
    );
}
