//! The catalog: which options exist, of which kind, with which default and
//! bounds. It is fixed: nothing adds or removes an option later.

use crate::text::{lemma_lex_lt_at, lex_lt};
use crate::value::OptionValue;
use vstd::prelude::*;

verus! {

/// A spin of the time management.
pub const BYOYOMI_MARGIN: &'static str = "Byoyomi_Margin";

/// The button that empties the cache of search results.
pub const CLEAR_HASH: &'static str = "Clear_Hash";

/// A text: the directory of the evaluation data.
pub const EVAL_DIR: &'static str = "Eval_Dir";

/// A spin: the size of the cache of evaluation data.
pub const EVAL_HASH: &'static str = "Eval_Hash";

/// A spin of the time management.
pub const MINIMUM_THINKING_TIME: &'static str = "Minimum_Thinking_Time";

/// A spin: the number of lines of play that a search reports.
pub const MULTI_PV: &'static str = "MultiPV";

/// A spin of the time management.
pub const SLOW_MOVER: &'static str = "Slow_Mover";

/// A spin: the number of worker threads.
pub const THREADS: &'static str = "Threads";

/// A spin of the time management.
pub const TIME_MARGIN: &'static str = "Time_Margin";

/// A spin: the size of the cache of search results.
pub const USI_HASH: &'static str = "USI_Hash";

/// A check: whether the engine may ponder.
pub const USI_PONDER: &'static str = "USI_Ponder";

/// The directory that `Eval_Dir` names until it is set.
pub const EVAL_DIR_DEFAULT: &'static str = "eval/20190617";

/// A spin as it is declared: at its default.
pub open spec fn declared_spin(default: int, min: int, max: int) -> OptionValue {
    OptionValue::Spin { default, current: default, min, max }
}

/// Every option of the catalog, at its default.
pub open spec fn catalog() -> Map<Seq<char>, OptionValue> {
    map![
        BYOYOMI_MARGIN@ => declared_spin(500, 0, i64::MAX as int),
        CLEAR_HASH@ => OptionValue::Button,
        EVAL_DIR@ => OptionValue::StringOption {
            default: EVAL_DIR_DEFAULT@,
            current: EVAL_DIR_DEFAULT@,
        },
        EVAL_HASH@ => declared_spin(256, 1, 1048576),
        MINIMUM_THINKING_TIME@ => declared_spin(20, 0, 5000),
        MULTI_PV@ => declared_spin(1, 1, 500),
        SLOW_MOVER@ => declared_spin(84, 10, 1000),
        THREADS@ => declared_spin(1, 1, 8192),
        TIME_MARGIN@ => declared_spin(500, 0, i64::MAX as int),
        USI_HASH@ => declared_spin(256, 1, 1048576),
        USI_PONDER@ => OptionValue::Check { default: true, current: true },
    ]
}

/// The keys of the catalog in lexicographic order.
pub open spec fn catalog_keys() -> Seq<Seq<char>> {
    seq![
        BYOYOMI_MARGIN@,
        CLEAR_HASH@,
        EVAL_DIR@,
        EVAL_HASH@,
        MINIMUM_THINKING_TIME@,
        MULTI_PV@,
        SLOW_MOVER@,
        THREADS@,
        TIME_MARGIN@,
        USI_HASH@,
        USI_PONDER@,
    ]
}

/// A map has the shape of the catalog when it holds the catalog's keys and
/// no others, each with the kind, default and bounds that the catalog
/// declares, and each spin within its bounds. Only current values may differ.
pub open spec fn has_catalog_shape(m: Map<Seq<char>, OptionValue>) -> bool {
    &&& m.dom() =~= catalog().dom()
    &&& forall|key: Seq<char>| #[trigger]
        catalog().contains_key(key) ==> m[key].same_declaration(catalog()[key])
            && m[key].within_bounds()
}

/// The length and the first character of each key. No two keys agree in both.
pub proof fn lemma_key_texts()
    ensures
        BYOYOMI_MARGIN@.len() == 14 && BYOYOMI_MARGIN@[0] == 'B',
        CLEAR_HASH@.len() == 10 && CLEAR_HASH@[0] == 'C',
        EVAL_DIR@.len() == 8 && EVAL_DIR@[0] == 'E',
        EVAL_HASH@.len() == 9 && EVAL_HASH@[0] == 'E',
        MINIMUM_THINKING_TIME@.len() == 21 && MINIMUM_THINKING_TIME@[0] == 'M',
        MULTI_PV@.len() == 7 && MULTI_PV@[0] == 'M',
        SLOW_MOVER@.len() == 10 && SLOW_MOVER@[0] == 'S',
        THREADS@.len() == 7 && THREADS@[0] == 'T',
        TIME_MARGIN@.len() == 11 && TIME_MARGIN@[0] == 'T',
        USI_HASH@.len() == 8 && USI_HASH@[0] == 'U',
        USI_PONDER@.len() == 10 && USI_PONDER@[0] == 'U',
{
    reveal_strlit("Byoyomi_Margin");
    reveal_strlit("Clear_Hash");
    reveal_strlit("Eval_Dir");
    reveal_strlit("Eval_Hash");
    reveal_strlit("Minimum_Thinking_Time");
    reveal_strlit("MultiPV");
    reveal_strlit("Slow_Mover");
    reveal_strlit("Threads");
    reveal_strlit("Time_Margin");
    reveal_strlit("USI_Hash");
    reveal_strlit("USI_Ponder");
}

/// No key stands twice in `catalog_keys`.
pub proof fn lemma_catalog_keys_distinct()
    ensures
        catalog_keys().no_duplicates(),
{
    lemma_key_texts();
}

/// The keys of the catalog are those of `catalog_keys`.
pub proof fn lemma_catalog_keys_cover()
    ensures
        catalog_keys().len() == 11,
        forall|key: Seq<char>| catalog().contains_key(key) <==> catalog_keys().contains(key),
{
}

/// `catalog_keys` is strictly increasing in lexicographic order.
pub proof fn lemma_catalog_keys_sorted()
    ensures
        forall|i: int, j: int|
            0 <= i < j < catalog_keys().len() ==> lex_lt(catalog_keys()[i], catalog_keys()[j]),
{
    let keys = catalog_keys();
    lemma_key_texts();
    // Four pairs of keys begin alike; every other pair differs in its first character.
    assert(lex_lt(EVAL_DIR@, EVAL_HASH@)) by {
        reveal_strlit("Eval_Dir");
        reveal_strlit("Eval_Hash");
        lemma_lex_lt_at(EVAL_DIR@, EVAL_HASH@, 5);
    }
    assert(lex_lt(MINIMUM_THINKING_TIME@, MULTI_PV@)) by {
        reveal_strlit("Minimum_Thinking_Time");
        reveal_strlit("MultiPV");
        lemma_lex_lt_at(MINIMUM_THINKING_TIME@, MULTI_PV@, 1);
    }
    assert(lex_lt(THREADS@, TIME_MARGIN@)) by {
        reveal_strlit("Threads");
        reveal_strlit("Time_Margin");
        lemma_lex_lt_at(THREADS@, TIME_MARGIN@, 1);
    }
    assert(lex_lt(USI_HASH@, USI_PONDER@)) by {
        reveal_strlit("USI_Hash");
        reveal_strlit("USI_Ponder");
        lemma_lex_lt_at(USI_HASH@, USI_PONDER@, 4);
    }
    assert forall|i: int, j: int| 0 <= i < j < keys.len() implies lex_lt(keys[i], keys[j]) by {
        if keys[i][0] != keys[j][0] {
            lemma_lex_lt_at(keys[i], keys[j], 0);
        }
    }
}

} // verus!
