//! What holds of the registry whatever its state and whatever the input.
//!
//! Each law is stated over the map that a registry is viewed as, and over
//! the functions by which `set`, `push_button` and `to_usi_string` say what
//! they do.

use crate::catalog::{
    catalog, catalog_keys, has_catalog_shape, lemma_catalog_keys_cover,
    lemma_catalog_keys_distinct, lemma_catalog_keys_sorted, lemma_key_texts, CLEAR_HASH,
    EVAL_HASH, THREADS, USI_HASH,
};
use crate::decimal::{
    decimal_text, decimal_value, lemma_decimal_value_of_decimal_text, DecimalError,
};
use crate::dispatch::{
    button_call, clamp, push_outcome, ready_after_set, set_result, state_after_set,
    CollaboratorCall, OptionError,
};
use crate::text::{lemma_lex_order_total, lex_lt, lex_order};
use crate::value::OptionValue;
use crate::wire::{option_line, wire_lines, wire_text};
use vstd::prelude::*;
use vstd::relations::sorted_by;
use vstd::seq_lib::lemma_sorted_unique;

verus! {

/// Setting a spin to a text that denotes an integer stores that integer
/// clamped to the bounds of the spin, and leaves the declaration as it was.
pub proof fn law_set_stores_clamped(
    m: Map<Seq<char>, OptionValue>,
    key: Seq<char>,
    text: Seq<char>,
    n: int,
)
    requires
        m.contains_key(key),
        m[key] is Spin,
        decimal_value(text) == Ok::<int, DecimalError>(n),
    ensures
        state_after_set(m, key, text)[key] is Spin,
        state_after_set(m, key, text)[key]->Spin_current == clamp(
            n,
            m[key]->Spin_min,
            m[key]->Spin_max,
        ),
        state_after_set(m, key, text)[key].same_declaration(m[key]),
{
}

/// Setting a spin to the decimal text of an integer within `i64` makes its
/// current value, which `get_i64` returns, that integer clamped to the
/// bounds of the spin.
pub proof fn law_set_integer_then_get(m: Map<Seq<char>, OptionValue>, key: Seq<char>, n: int)
    requires
        m.contains_key(key),
        m[key] is Spin,
        i64::MIN <= n <= i64::MAX,
    ensures
        state_after_set(m, key, decimal_text(n))[key] is Spin,
        state_after_set(m, key, decimal_text(n))[key]->Spin_current == clamp(
            n,
            m[key]->Spin_min,
            m[key]->Spin_max,
        ),
{
    lemma_decimal_value_of_decimal_text(n);
}

/// An integer beyond `i64` is not clamped: it is turned down as an
/// overflow, and the registry stays as it was.
pub proof fn law_set_integer_beyond_i64(m: Map<Seq<char>, OptionValue>, key: Seq<char>, n: int)
    requires
        m.contains_key(key),
        m[key] is Spin,
        n < i64::MIN || n > i64::MAX,
    ensures
        state_after_set(m, key, decimal_text(n)) == m,
        set_result(m, key, decimal_text(n)) == Err::<Option<CollaboratorCall>, OptionError>(
            OptionError::NotInteger(
                if n > i64::MAX {
                    DecimalError::PosOverflow
                } else {
                    DecimalError::NegOverflow
                },
            ),
        ),
{
    lemma_decimal_value_of_decimal_text(n);
}

/// A key that the catalog does not have is turned down by `set` and by
/// `push_button`, and the registry and the readiness stay as they were.
pub proof fn law_unknown_key_changes_nothing(
    m: Map<Seq<char>, OptionValue>,
    key: Seq<char>,
    text: Seq<char>,
    ready: bool,
)
    requires
        has_catalog_shape(m),
        !catalog().contains_key(key),
    ensures
        state_after_set(m, key, text) == m,
        ready_after_set(m, key, text, ready) == ready,
        set_result(m, key, text) == Err::<Option<CollaboratorCall>, OptionError>(
            OptionError::IllegalName,
        ),
        push_outcome(m, key) == Err::<CollaboratorCall, OptionError>(OptionError::IllegalName),
{
}

/// Whatever is set, every other key keeps its value, and no key comes or goes.
pub proof fn law_set_touches_one_key(
    m: Map<Seq<char>, OptionValue>,
    key: Seq<char>,
    text: Seq<char>,
    other: Seq<char>,
)
    requires
        has_catalog_shape(m),
        other != key,
    ensures
        state_after_set(m, key, text).dom() == m.dom(),
        state_after_set(m, key, text)[other] == m[other],
        has_catalog_shape(state_after_set(m, key, text)),
{
    let after = state_after_set(m, key, text);
    assert(after.dom() =~= m.dom());
    assert forall|k: Seq<char>| #[trigger] catalog().contains_key(k) implies after[k]
        .same_declaration(catalog()[k]) && after[k].within_bounds() by {
        assert(m[k].same_declaration(catalog()[k]) && m[k].within_bounds());
    }
}

/// A check takes the texts `true` and `false` and no other: any other text
/// is turned down, and the registry stays as it was.
pub proof fn law_check_takes_only_true_and_false(
    m: Map<Seq<char>, OptionValue>,
    key: Seq<char>,
    text: Seq<char>,
)
    requires
        m.contains_key(key),
        m[key] is Check,
        text != "true"@,
        text != "false"@,
    ensures
        state_after_set(m, key, text) == m,
        set_result(m, key, text) == Err::<Option<CollaboratorCall>, OptionError>(
            OptionError::IllegalValue,
        ),
{
}

/// Every button of the catalog is bound to a command.
pub proof fn law_every_button_is_bound(m: Map<Seq<char>, OptionValue>, key: Seq<char>)
    requires
        has_catalog_shape(m),
        m.contains_key(key),
        m[key] is Button,
    ensures
        button_call(key) is Some,
        push_outcome(m, key) is Ok,
{
    // The one button that the catalog declares is `Clear_Hash`.
    assert(catalog().contains_key(key));
    assert(m[key].same_declaration(catalog()[key]));
}

/// Pushing `Clear_Hash` comes to one command, which empties the cache of
/// search results.
pub proof fn law_clear_hash_clears_result_cache(m: Map<Seq<char>, OptionValue>)
    requires
        has_catalog_shape(m),
    ensures
        push_outcome(m, CLEAR_HASH@) == Ok::<CollaboratorCall, OptionError>(
            CollaboratorCall::ClearResultCache,
        ),
{
    lemma_key_texts();
    assert(catalog().contains_key(CLEAR_HASH@));
    assert(m[CLEAR_HASH@].same_declaration(catalog()[CLEAR_HASH@]));
}

/// Setting `Threads` to a number from 1 to 8192 comes to one command, which
/// sets the number of worker threads to that number.
pub proof fn law_threads_resizes_pool(m: Map<Seq<char>, OptionValue>, n: int)
    requires
        has_catalog_shape(m),
        1 <= n <= 8192,
    ensures
        set_result(m, THREADS@, decimal_text(n)) == Ok::<Option<CollaboratorCall>, OptionError>(
            Some(CollaboratorCall::ResizeThreadPool(n as usize)),
        ),
        n as usize == n,
{
    lemma_key_texts();
    lemma_decimal_value_of_decimal_text(n);
    assert(catalog().contains_key(THREADS@));
    assert(m[THREADS@].same_declaration(catalog()[THREADS@]));
}

/// The command that follows a set of `Eval_Hash`, `Threads` or `USI_Hash`
/// carries the value that was stored, which is the input clamped to the
/// bounds of the spin: a size from 1 to 1048576, a number of threads from 1
/// to 8192.
pub proof fn law_resize_carries_stored_value(
    m: Map<Seq<char>, OptionValue>,
    key: Seq<char>,
    text: Seq<char>,
)
    requires
        has_catalog_shape(m),
        key == EVAL_HASH@ || key == THREADS@ || key == USI_HASH@,
        decimal_value(text) is Ok,
    ensures
        set_result(m, key, text) matches Ok(Some(call)) && {
            let stored = state_after_set(m, key, text)[key]->Spin_current;
            &&& stored == clamp(decimal_value(text)->Ok_0, 1, if key == THREADS@ {
                8192
            } else {
                1048576
            })
            &&& call == if key == EVAL_HASH@ {
                CollaboratorCall::ResizeEvalHash(stored as usize)
            } else if key == THREADS@ {
                CollaboratorCall::ResizeThreadPool(stored as usize)
            } else {
                CollaboratorCall::ResizeResultCache(stored as usize)
            }
            &&& stored as usize == stored
        },
{
    lemma_key_texts();
    assert(catalog().contains_key(key));
    assert(m[key].same_declaration(catalog()[key]));
}

/// Only `Eval_Hash`, `Threads` and `USI_Hash` are bound to a command: a set
/// of any other option, where it is taken, comes to none.
pub proof fn law_other_keys_call_nothing(
    m: Map<Seq<char>, OptionValue>,
    key: Seq<char>,
    text: Seq<char>,
)
    requires
        key != EVAL_HASH@,
        key != THREADS@,
        key != USI_HASH@,
    ensures
        set_result(m, key, text) is Ok ==> set_result(m, key, text) == Ok::<
            Option<CollaboratorCall>,
            OptionError,
        >(None),
{
}

/// The declaration has one line for each option of the registry, and the
/// lines stand in strictly increasing lexicographic order of their keys.
pub proof fn law_wire_lines_by_key(m: Map<Seq<char>, OptionValue>)
    requires
        has_catalog_shape(m),
    ensures
        m.dom().finite(),
        wire_lines(m).len() == m.dom().len(),
        catalog_keys().no_duplicates(),
        forall|key: Seq<char>| m.contains_key(key) <==> catalog_keys().contains(key),
        forall|i: int|
            0 <= i < wire_lines(m).len() ==> #[trigger] wire_lines(m)[i] == option_line(
                catalog_keys()[i],
                m[catalog_keys()[i]],
            ),
        forall|i: int, j: int|
            0 <= i < j < catalog_keys().len() ==> lex_lt(catalog_keys()[i], catalog_keys()[j]),
{
    lemma_catalog_keys_distinct();
    lemma_catalog_keys_cover();
    lemma_catalog_keys_sorted();
    let keys = catalog_keys();
    assert(keys.to_set() =~= m.dom());
    keys.unique_seq_to_set();
    vstd::seq_lib::seq_to_set_is_finite(keys);
}

/// In whatever order the options of a registry are listed, each once,
/// sorting the listing by key gives the order of the lines. So the
/// declaration is settled by the options alone, not by the order in which
/// they were put together.
pub proof fn law_wire_lines_ignore_listing_order(
    m: Map<Seq<char>, OptionValue>,
    listing: Seq<Seq<char>>,
)
    requires
        has_catalog_shape(m),
        listing.no_duplicates(),
        listing.to_set() == m.dom(),
    ensures
        listing.sort_by(lex_order()) == catalog_keys(),
        wire_lines(m) == listing.sort_by(lex_order()).map_values(
            |key: Seq<char>| option_line(key, m[key]),
        ),
{
    let keys = catalog_keys();
    let sorted = listing.sort_by(lex_order());
    lemma_lex_order_total();
    lemma_catalog_keys_sorted();
    lemma_catalog_keys_distinct();
    lemma_catalog_keys_cover();
    listing.lemma_sort_by_ensures(lex_order());
    assert(listing.to_multiset() =~= keys.to_multiset()) by {
        broadcast use vstd::seq_lib::group_to_multiset_ensures;

        listing.lemma_multiset_has_no_duplicates();
        keys.lemma_multiset_has_no_duplicates();
        assert forall|key: Seq<char>| listing.contains(key) <==> keys.contains(key) by {
            assert(listing.to_set().contains(key) <==> m.contains_key(key));
        }
    }
    assert(sorted_by(keys, lex_order()));
    lemma_sorted_unique(sorted, keys, lex_order());
    assert(wire_lines(m) =~= sorted.map_values(|key: Seq<char>| option_line(key, m[key])));
}

/// The declaration speaks of defaults and bounds only, so it never changes:
/// whatever the current values are, it is that of the catalog.
pub proof fn law_wire_text_is_fixed(m: Map<Seq<char>, OptionValue>)
    requires
        has_catalog_shape(m),
    ensures
        wire_text(m) == wire_text(catalog()),
{
    lemma_catalog_keys_cover();
    let keys = catalog_keys();
    assert forall|i: int| 0 <= i < keys.len() implies wire_lines(m)[i] == wire_lines(
        catalog(),
    )[i] by {
        assert(catalog().contains_key(keys[i]));
        assert(m[keys[i]].same_declaration(catalog()[keys[i]]));
    }
    assert(wire_lines(m) =~= wire_lines(catalog()));
}

} // verus!
