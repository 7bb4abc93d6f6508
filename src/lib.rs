//! Declarative field validation: ordered constraints checked against one
//! bound value, producing every violation as a structured record.

pub mod error;
pub mod laws;
pub mod report;
pub mod rule;
pub mod text;
pub mod validator;
pub mod validators;

pub use error::Error;
pub use rule::ConstraintType;
pub use validator::{Constraint, Validate, Validator};
pub use validators::Validators;
