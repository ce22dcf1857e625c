//! Generation of compact string enumerations.
//!
//! Given a fixed set of string literals, this library produces the source
//! text of a closed enum whose variants map one-to-one onto those literals
//! (constant-time parsing and formatting, no lookup tables), together with
//! an open wrapper enum that falls back to heap-allocated storage for
//! strings outside the known set.  The library also provides the runtime
//! surface those generated types implement: the [`EnumStr`] and
//! [`SmollerStr`] traits and the [`Repr`] container.
pub mod decl;
pub mod ident;
pub mod options;
pub mod runtime;
pub mod smoller;
pub mod table;
pub mod enumstr;
pub mod error;
pub mod grammar;
pub mod text;

pub use runtime::EnumStr;
pub use runtime::Repr;
pub use runtime::SmollerStr;
