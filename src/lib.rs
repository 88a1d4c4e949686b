//! Left/right container shapes: exactly one of two values (`EitherOf`), at least one
//! (`SomeOf`), any number of them (`AnyOf`), and exactly both (`BothOf`), with the
//! conversions between them and two traits that let generic code treat them alike.
pub mod abs;
pub mod any_of;
pub mod both;
pub mod either;
pub mod some_of;

pub use abs::{TrAnyOf, TrInverseLR};
pub use any_of::{AnyOf, AnyLR};
pub use both::BothOf;
pub use either::{EitherOf, TrEitherOf};
pub use some_of::{SomeOf, SomeLR};
