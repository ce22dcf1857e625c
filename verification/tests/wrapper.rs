use smoller_str::{EnumStr, Repr, SmollerStr};
use smoller_str::table::lookup;

// A closed enum written exactly as the generator emits one, so the
// runtime surface is exercised by the same shape of code that the
// library produces.
#[derive(Debug, Clone, Copy, PartialEq, Eq)]
enum ColorRepr {
    Red,
    DarkBlue,
}

impl ColorRepr {
    fn new(s: &str) -> Option<Self> {
        match s.as_bytes() {
            b"red" => Some(ColorRepr::Red),
            b"dark blue" => Some(ColorRepr::DarkBlue),
            _ => None,
        }
    }
    fn as_str(&self) -> &'static str {
        match self {
            ColorRepr::Red => "red",
            ColorRepr::DarkBlue => "dark blue",
        }
    }
    fn all() -> Vec<Self> {
        vec![Self::Red, Self::DarkBlue]
    }
}

impl EnumStr for ColorRepr {
    fn as_str(&self) -> &str {
        ColorRepr::as_str(self)
    }
    fn parse(s: &str) -> Option<Self> {
        ColorRepr::new(s)
    }
    fn values() -> Vec<Self> {
        ColorRepr::all()
    }
}

// Two variants declared with the same literal: parsing must yield the
// first-declared one.
#[derive(Debug, Clone, Copy, PartialEq, Eq)]
enum DupRepr {
    First,
    Second,
}

impl EnumStr for DupRepr {
    fn as_str(&self) -> &str {
        match self {
            DupRepr::First => "same",
            DupRepr::Second => "same",
        }
    }
    fn parse(s: &str) -> Option<Self> {
        match s.as_bytes() {
            b"same" => Some(DupRepr::First),
            _ => None,
        }
    }
    fn values() -> Vec<Self> {
        vec![DupRepr::First, DupRepr::Second]
    }
}

#[test]
fn closed_round_trip() {
    for v in ColorRepr::all() {
        assert_eq!(ColorRepr::new(v.as_str()), Some(v));
    }
}

#[test]
fn closed_rejects_unknown_strings() {
    assert_eq!(ColorRepr::new("magenta"), None);
    assert_eq!(ColorRepr::new(""), None);
    assert_eq!(ColorRepr::new("re"), None);
}

#[test]
fn wrapper_prefers_builtin_values() {
    let r: Repr<ColorRepr> = SmollerStr::new("red");
    assert!(r.is_builtin_value());
    assert!(!r.is_heap_allocated());
    assert_eq!(r.as_str(), "red");

    let r: Repr<ColorRepr> = SmollerStr::new("dark blue");
    assert!(r.is_builtin_value());
    assert_eq!(r.as_str(), "dark blue");
}

#[test]
fn wrapper_falls_back_to_heap() {
    let r: Repr<ColorRepr> = SmollerStr::new("magenta");
    assert!(r.is_heap_allocated());
    assert!(!r.is_builtin_value());
    assert_eq!(r.as_str(), "magenta");

    // Long enough that the fallback storage really lives on the heap.
    let long = "a colour name far too long to sit in an inline buffer";
    let r: Repr<ColorRepr> = SmollerStr::new(long);
    assert!(r.is_heap_allocated());
    assert_eq!(r.as_str(), long);
}

#[test]
fn wrapper_discriminators_disagree_everywhere() {
    for s in ["red", "dark blue", "", "magenta", "RED", "dark  blue"] {
        let r: Repr<ColorRepr> = SmollerStr::new(s);
        assert_ne!(r.is_builtin_value(), r.is_heap_allocated());
        assert_eq!(r.as_str(), s);
    }
}

#[test]
fn wrapper_string_equality() {
    let r: Repr<ColorRepr> = SmollerStr::new("red");
    assert!(r.eq_str("red"));
    assert!(!r.eq_str("dark blue"));
}

#[test]
fn wrapper_equality_is_textual() {
    let builtin: Repr<ColorRepr> = SmollerStr::new("red");
    let other: Repr<ColorRepr> = SmollerStr::new("red");
    let unknown: Repr<ColorRepr> = SmollerStr::new("magenta");
    assert!(builtin == other);
    assert!(builtin != unknown);
    let unknown_again: Repr<ColorRepr> = SmollerStr::new("magenta");
    assert!(unknown == unknown_again);
}

#[test]
fn wrapper_equality_other_operands() {
    let r: Repr<ColorRepr> = SmollerStr::new("dark blue");
    assert!(r.eq_string(&String::from("dark blue")));
    assert!(!r.eq_string(&String::from("dark")));
    assert!(r.eq_smol(&smol_str::SmolStr::new("dark blue")));
    assert!(!r.eq_smol(&smol_str::SmolStr::new("red")));
}

#[test]
fn wrapper_builtin_enumeration() {
    let all: Vec<Repr<ColorRepr>> = SmollerStr::builtin();
    assert_eq!(all.len(), 2);
    for r in &all {
        assert!(r.is_builtin_value());
    }
    assert_eq!(all[0].as_str(), "red");
    assert_eq!(all[1].as_str(), "dark blue");
}

#[test]
fn duplicate_literals_parse_to_first_declared() {
    assert_eq!(DupRepr::parse(DupRepr::First.as_str()), Some(DupRepr::First));
    assert_eq!(DupRepr::parse(DupRepr::Second.as_str()), Some(DupRepr::First));
    // Construction by variant still round-trips through the literal.
    assert_eq!(DupRepr::Second.as_str(), "same");
    let r: Repr<DupRepr> = SmollerStr::new("same");
    assert!(r.is_builtin_value());
}

#[test]
fn lookup_takes_first_match() {
    let pairs = vec![
        (String::from("Red"), String::from("red")),
        (String::from("Blue"), String::from("blue")),
        (String::from("Crimson"), String::from("red")),
    ];
    assert_eq!(lookup(&pairs, "red"), Some(0));
    assert_eq!(lookup(&pairs, "blue"), Some(1));
    assert_eq!(lookup(&pairs, "navy"), None);
}

#[test]
fn lookup_round_trips_distinct_literals() {
    let pairs = vec![
        (String::from("A"), String::from("a")),
        (String::from("B"), String::from("b")),
        (String::from("C"), String::from("c")),
    ];
    for (i, p) in pairs.iter().enumerate() {
        assert_eq!(lookup(&pairs, p.1.as_str()), Some(i));
    }
}
