//! Domain entities: arguments and the relations between them.

pub mod argument;
pub mod relation;

pub use argument::{Argument, ArgumentView, SummarizedInfo, SummarizedInfoView};
pub use relation::{Relation, RelationType, RelationView};
