//! The lines by which the engine declares its options to the controller.
//!
//! A line names an option, its kind, its default and, for a spin, its
//! bounds. It never holds the current value: it declares the option, not
//! its state.

use crate::catalog::catalog_keys;
use crate::decimal::{decimal_text, push_decimal};
use crate::value::{OptionValue, UsiOptionValue};
use vstd::prelude::*;
use vstd::string::*;

verus! {

pub open spec fn bool_text(b: bool) -> Seq<char> {
    if b {
        "true"@
    } else {
        "false"@
    }
}

/// The line that declares one option.
pub open spec fn option_line(key: Seq<char>, v: OptionValue) -> Seq<char> {
    match v {
        OptionValue::StringOption { default, .. } => "option name "@ + key
            + " type string  default "@ + default,
        OptionValue::Spin { default, min, max, .. } => "option name "@ + key
            + " type spin    default "@ + decimal_text(default) + " min "@ + decimal_text(min)
            + " max "@ + decimal_text(max),
        OptionValue::Check { default, .. } => "option name "@ + key + " type check   default "@
            + bool_text(default),
        OptionValue::Button => "option name "@ + key + " type button"@,
    }
}

/// The lines of a registry: one for each key of the catalog, in the order of
/// `catalog_keys`.
pub open spec fn wire_lines(m: Map<Seq<char>, OptionValue>) -> Seq<Seq<char>> {
    Seq::new(catalog_keys().len(), |i: int| option_line(catalog_keys()[i], m[catalog_keys()[i]]))
}

/// Lines joined by a line feed: one between each two, none after the last.
pub open spec fn join_lines(lines: Seq<Seq<char>>) -> Seq<char>
    decreases lines.len(),
{
    if lines.len() == 0 {
        Seq::empty()
    } else if lines.len() == 1 {
        lines[0]
    } else {
        join_lines(lines.drop_last()) + seq!['\n'] + lines.last()
    }
}

/// The whole declaration of a registry.
pub open spec fn wire_text(m: Map<Seq<char>, OptionValue>) -> Seq<char> {
    join_lines(wire_lines(m))
}

/// Appends the line that declares one option.
pub fn push_option_line(out: &mut String, key: &str, value: &UsiOptionValue)
    ensures
        final(out)@ == old(out)@ + option_line(key@, value@),
{
    out.append("option name ");
    out.append(key);
    match value {
        UsiOptionValue::StringOption { default, .. } => {
            out.append(" type string  default ");
            out.append(default.as_str());
        },
        UsiOptionValue::Spin { default, min, max, .. } => {
            out.append(" type spin    default ");
            push_decimal(out, *default);
            out.append(" min ");
            push_decimal(out, *min);
            out.append(" max ");
            push_decimal(out, *max);
        },
        UsiOptionValue::Check { default, .. } => {
            out.append(" type check   default ");
            if *default {
                out.append("true");
            } else {
                out.append("false");
            }
        },
        UsiOptionValue::Button => {
            out.append(" type button");
        },
    }
    assert(out@ =~= old(out)@ + option_line(key@, value@));
}

} // verus!
