//! The option registry of a USI engine: a fixed catalog of named, typed,
//! range-checked options that a controller reads and sets at run time.

pub mod catalog;
pub mod decimal;
pub mod dispatch;
pub mod laws;
pub mod registry;
pub mod text;
pub mod value;
pub mod wire;

pub use crate::decimal::DecimalError;
pub use crate::dispatch::{CollaboratorCall, OptionError};
pub use crate::registry::UsiOptions;
pub use crate::value::{OptionKind, OptionValue, UsiOptionValue};
