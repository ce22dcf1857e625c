//! The runtime surface the generated types implement.
//!
//! [`EnumStr`] is the capability of a closed enum over a fixed string
//! universe; [`SmollerStr`] the capability of an open wrapper that falls
//! back to heap storage.  [`Repr`] is a ready-made such wrapper over any
//! closed enum: known strings live in the enum, all others in a
//! [`SmolStr`].
use vstd::prelude::*;

use smol_str::SmolStr;

use crate::text::text_eq;

verus! {

#[verifier::external_type_specification]
#[verifier::external_body]
pub struct ExSmolStr(SmolStr);

/// The text a [`SmolStr`] stores.
pub uninterp spec fn smol_text(s: SmolStr) -> Seq<char>;

/// Relies on `smol_str::SmolStr::new`: stores exactly the given text,
/// on the heap where it is too long to hold inline.
#[verifier::external_body]
fn smol_new(text: &str) -> (r: SmolStr)
    ensures
        smol_text(r) == text@,
{
    SmolStr::new(text)
}

/// Relies on `smol_str::SmolStr::as_str`: returns the stored text.
#[verifier::external_body]
fn smol_as_str(s: &SmolStr) -> (r: &str)
    ensures
        r@ == smol_text(*s),
{
    s.as_str()
}

/// An enum representing a set of statically known strings.
///
/// A generated closed enum implements this: each value stands for its
/// canonical literal, formatting returns that exact literal, and
/// parsing returns a value exactly when the input is a declared
/// literal.
pub trait EnumStr: Sized + Copy {
    /// The canonical literal this value stands for.  (The default is
    /// an unspecified sequence: an implementation outside the verifier
    /// need not name one.)
    open spec fn canon(&self) -> Seq<char> {
        arbitrary()
    }

    /// The full value enumeration, at the specification level.  (Like
    /// `canon`, unspecified by default.)
    open spec fn values_seq() -> Seq<Self> {
        arbitrary()
    }

    /// The exact literal of this value.
    fn as_str(&self) -> (r: &str)
        ensures
            r@ == self.canon(),
    ;

    /// Parse a string: a value whose literal is the string, or nothing
    /// when no declared literal matches.
    fn parse(s: &str) -> (r: Option<Self>)
        ensures
            match r {
                Some(v) => v.canon() == s@,
                None => forall|v: Self| (#[trigger] v.canon()) != s@,
            },
    ;

    /// Every value, in declaration order.
    fn values() -> (r: Vec<Self>)
        ensures
            r@ == Self::values_seq(),
    ;
}

/// An enum representing a set of mostly known strings: construction
/// from any string succeeds, and each instance is backed either by a
/// builtin (closed-enum) value or by heap-allocated storage — never
/// both, never neither: both discriminators read the same state.
pub trait SmollerStr: Sized {
    /// The text this value stands for.  (The default is an unspecified
    /// sequence: an implementation outside the verifier need not name
    /// one.)
    open spec fn text(&self) -> Seq<char> {
        arbitrary()
    }

    /// Whether this value is backed by a builtin value.  (Unspecified
    /// by default, like `text`.)
    open spec fn is_known(&self) -> bool {
        arbitrary()
    }

    /// Wrap any string; never fails, and stores exactly the given text.
    fn new(s: &str) -> (r: Self)
        ensures
            r.text() == s@,
    ;

    /// The stored text.
    fn as_str(&self) -> (r: &str)
        ensures
            r@ == self.text(),
    ;

    /// Whether this value lives in the heap-backed fallback.
    fn is_heap_allocated(&self) -> (r: bool)
        ensures
            r == !self.is_known(),
    ;

    /// Whether this value is backed by a builtin value.
    fn is_builtin_value(&self) -> (r: bool)
        ensures
            r == self.is_known(),
    ;

    /// The builtin values, in declaration order.
    fn builtin() -> (r: Vec<Self>)
        ensures
            forall|i: int| 0 <= i < r@.len() ==> (#[trigger] r@[i]).is_known(),
    ;
}

/// A small representation of a mostly known string: a known string
/// lives as its closed-enum value, any other as a [`SmolStr`].
pub enum Repr<E> {
    /// The heap-backed fallback.
    Smol(SmolStr),
    /// A value of the closed enum.
    Smoller(E),
}

impl<E: EnumStr> Repr<E> {
    /// The exact text this value stands for.
    pub fn as_str(&self) -> (r: &str)
        ensures
            r@ == self.text(),
    {
        match self {
            Repr::Smol(s) => smol_as_str(s),
            Repr::Smoller(v) => v.as_str(),
        }
    }

    /// Whether this value holds exactly the text `other`.
    pub fn eq_str(&self, other: &str) -> (r: bool)
        ensures
            r == (self.text() == other@),
    {
        text_eq(self.as_str(), other)
    }

    /// Whether this value holds exactly the text of the owned string.
    pub fn eq_string(&self, other: &String) -> (r: bool)
        ensures
            r == (self.text() == other@),
    {
        text_eq(self.as_str(), other.as_str())
    }

    /// Whether this value holds exactly the text the small string
    /// stores.
    pub fn eq_smol(&self, other: &SmolStr) -> (r: bool)
        ensures
            r == (self.text() == smol_text(*other)),
    {
        text_eq(self.as_str(), smol_as_str(other))
    }
}

impl<E: EnumStr> SmollerStr for Repr<E> {
    open spec fn text(&self) -> Seq<char> {
        match self {
            Repr::Smol(s) => smol_text(*s),
            Repr::Smoller(v) => v.canon(),
        }
    }

    open spec fn is_known(&self) -> bool {
        self is Smoller
    }

    /// Builtin values take precedence: the result is backed by the
    /// closed enum exactly when some closed-enum value has this text,
    /// and falls back to heap storage holding exactly `s` otherwise.
    fn new(s: &str) -> (r: Repr<E>)
        ensures
            r.text() == s@,
            r.is_known() <==> exists|v: E| (#[trigger] v.canon()) == s@,
    {
        match E::parse(s) {
            Some(v) => Repr::Smoller(v),
            None => Repr::Smol(smol_new(s)),
        }
    }

    fn as_str(&self) -> (r: &str)
        ensures
            r@ == self.text(),
    {
        match self {
            Repr::Smol(s) => smol_as_str(s),
            Repr::Smoller(v) => v.as_str(),
        }
    }

    fn is_heap_allocated(&self) -> (r: bool)
        ensures
            r == !self.is_known(),
    {
        match self {
            Repr::Smol(_) => true,
            Repr::Smoller(_) => false,
        }
    }

    fn is_builtin_value(&self) -> (r: bool)
        ensures
            r == self.is_known(),
    {
        match self {
            Repr::Smol(_) => false,
            Repr::Smoller(_) => true,
        }
    }

    /// The complete enumeration: one builtin-backed entry per closed
    /// value, in declaration order.
    fn builtin() -> (r: Vec<Repr<E>>)
        ensures
            forall|i: int| 0 <= i < r@.len() ==> (#[trigger] r@[i]).is_known(),
            r@.len() == E::values_seq().len(),
            forall|i: int|
                0 <= i < r@.len() ==> #[trigger] r@[i] == Repr::<E>::Smoller(E::values_seq()[i]),
    {
        let values = E::values();
        let mut out: Vec<Repr<E>> = Vec::new();
        let mut i: usize = 0;
        while i < values.len()
            invariant
                i <= values@.len(),
                values@ == E::values_seq(),
                out@.len() == i,
                forall|j: int|
                    0 <= j < i ==> #[trigger] out@[j] == Repr::<E>::Smoller(E::values_seq()[j]),
            decreases values@.len() - i,
        {
            let v = values[i];
            out.push(Repr::Smoller(v));
            i = i + 1;
        }
        out
    }
}

impl<E: EnumStr> PartialEq for Repr<E> {
    /// Two wrapper values are equal exactly when they stand for the
    /// same text, whichever side of the fallback each lives on.
    fn eq(&self, other: &Repr<E>) -> (r: bool) {
        text_eq(self.as_str(), other.as_str())
    }
}

impl<E: EnumStr> vstd::std_specs::cmp::PartialEqSpecImpl for Repr<E> {
    open spec fn obeys_eq_spec() -> bool {
        true
    }

    open spec fn eq_spec(&self, other: &Repr<E>) -> bool {
        self.text() == other.text()
    }
}

/// An undeclared string round-trips through the fallback unchanged: the
/// wrapper of a string no closed-enum value declares is heap-backed and
/// holds exactly that string.  (The wrapper of a declared literal is
/// builtin-backed: see the `new` contract above.)
pub proof fn lemma_unknown_holds_input<E: EnumStr>(r: Repr<E>, s: Seq<char>)
    requires
        r.text() == s,
        forall|v: E| (#[trigger] v.canon()) != s,
    ensures
        !r.is_known(),
        r.text() == s,
{
    match r {
        Repr::Smol(_) => {},
        Repr::Smoller(v) => {
            assert(v.canon() != s);
        },
    }
}

} // verus!
