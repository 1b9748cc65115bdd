//! One option: its kind, its declaration and its current value.

use vstd::prelude::*;
use vstd::string::*;

verus! {

/// The four kinds of option.
#[derive(Clone, Copy, Debug, PartialEq, Eq, Structural)]
pub enum OptionKind {
    /// A text.
    StringOption,
    /// A bounded integer.
    Spin,
    /// A boolean.
    Check,
    /// An action without a value.
    Button,
}

/// An option as contracts speak of it: texts are sequences of characters,
/// numbers are mathematical integers.
#[allow(inconsistent_fields)]
pub enum OptionValue {
    StringOption { default: Seq<char>, current: Seq<char> },
    Spin { default: int, current: int, min: int, max: int },
    Check { default: bool, current: bool },
    Button,
}

impl OptionValue {
    pub open spec fn kind(self) -> OptionKind {
        match self {
            OptionValue::StringOption { .. } => OptionKind::StringOption,
            OptionValue::Spin { .. } => OptionKind::Spin,
            OptionValue::Check { .. } => OptionKind::Check,
            OptionValue::Button => OptionKind::Button,
        }
    }

    /// Two values declare the same option when they agree in everything but
    /// the current value: kind, default, and the bounds of a spin.
    pub open spec fn same_declaration(self, other: OptionValue) -> bool {
        match (self, other) {
            (
                OptionValue::StringOption { default: a, .. },
                OptionValue::StringOption { default: b, .. },
            ) => a == b,
            (
                OptionValue::Spin { default: a, min: a_min, max: a_max, .. },
                OptionValue::Spin { default: b, min: b_min, max: b_max, .. },
            ) => a == b && a_min == b_min && a_max == b_max,
            (OptionValue::Check { default: a, .. }, OptionValue::Check { default: b, .. }) => a
                == b,
            (OptionValue::Button, OptionValue::Button) => true,
            _ => false,
        }
    }

    /// A spin holds its default and its current value within its bounds.
    /// The other kinds have nothing to keep.
    pub open spec fn within_bounds(self) -> bool {
        match self {
            OptionValue::Spin { default, current, min, max } => {
                &&& min <= default <= max
                &&& min <= current <= max
            },
            _ => true,
        }
    }
}

/// One option of the registry.
#[allow(inconsistent_fields)]
#[derive(Debug, PartialEq, Eq)]
pub enum UsiOptionValue {
    StringOption { default: String, current: String },
    Spin { default: i64, current: i64, min: i64, max: i64 },
    Check { default: bool, current: bool },
    Button,
}

impl View for UsiOptionValue {
    type V = OptionValue;

    open spec fn view(&self) -> OptionValue {
        match self {
            UsiOptionValue::StringOption { default, current } => OptionValue::StringOption {
                default: default@,
                current: current@,
            },
            UsiOptionValue::Spin { default, current, min, max } => OptionValue::Spin {
                default: *default as int,
                current: *current as int,
                min: *min as int,
                max: *max as int,
            },
            UsiOptionValue::Check { default, current } => OptionValue::Check {
                default: *default,
                current: *current,
            },
            UsiOptionValue::Button => OptionValue::Button,
        }
    }
}

impl Clone for UsiOptionValue {
    fn clone(&self) -> (r: Self)
        ensures
            r@ == self@,
    {
        match self {
            UsiOptionValue::StringOption { default, current } => UsiOptionValue::StringOption {
                default: default.clone(),
                current: current.clone(),
            },
            UsiOptionValue::Spin { default, current, min, max } => UsiOptionValue::Spin {
                default: *default,
                current: *current,
                min: *min,
                max: *max,
            },
            UsiOptionValue::Check { default, current } => UsiOptionValue::Check {
                default: *default,
                current: *current,
            },
            UsiOptionValue::Button => UsiOptionValue::Button,
        }
    }
}

impl UsiOptionValue {
    /// A text option with its default and its current value.
    pub fn string(default: &str, current: &str) -> (r: UsiOptionValue)
        ensures
            r@ == (OptionValue::StringOption { default: default@, current: current@ }),
    {
        UsiOptionValue::StringOption {
            default: default.to_owned(),
            current: current.to_owned(),
        }
    }

    /// A bounded integer option. The values are stored as given: whether
    /// they lie within the bounds is for the caller to see to.
    pub fn spin(default: i64, current: i64, min: i64, max: i64) -> (r: UsiOptionValue)
        ensures
            r@ == (OptionValue::Spin {
                default: default as int,
                current: current as int,
                min: min as int,
                max: max as int,
            }),
    {
        UsiOptionValue::Spin { default, current, min, max }
    }

    /// A boolean option with its default and its current value.
    pub fn check(default: bool, current: bool) -> (r: UsiOptionValue)
        ensures
            r@ == (OptionValue::Check { default, current }),
    {
        UsiOptionValue::Check { default, current }
    }

    /// A text option that starts at its default.
    pub fn string_default(default: &str) -> (r: UsiOptionValue)
        ensures
            r@ == (OptionValue::StringOption { default: default@, current: default@ }),
    {
        Self::string(default, default)
    }

    /// A bounded integer option that starts at its default.
    pub fn spin_default(default: i64, min: i64, max: i64) -> (r: UsiOptionValue)
        ensures
            r@ == (OptionValue::Spin {
                default: default as int,
                current: default as int,
                min: min as int,
                max: max as int,
            }),
    {
        Self::spin(default, default, min, max)
    }

    /// A boolean option that starts at its default.
    pub fn check_default(default: bool) -> (r: UsiOptionValue)
        ensures
            r@ == (OptionValue::Check { default, current: default }),
    {
        Self::check(default, default)
    }

    /// The kind of this option.
    pub fn kind(&self) -> (r: OptionKind)
        ensures
            r == self@.kind(),
    {
        match self {
            UsiOptionValue::StringOption { .. } => OptionKind::StringOption,
            UsiOptionValue::Spin { .. } => OptionKind::Spin,
            UsiOptionValue::Check { .. } => OptionKind::Check,
            UsiOptionValue::Button => OptionKind::Button,
        }
    }
}

} // verus!
