//! The registry: the options of the catalog with their current values.

use crate::catalog::{
    catalog, catalog_keys, has_catalog_shape, lemma_catalog_keys_cover,
    lemma_catalog_keys_distinct, lemma_key_texts,
};
use crate::decimal::{decimal_value, parse_i64};
use crate::dispatch::{
    button_call, clamp, push_outcome, ready_after_set, set_result, state_after_set,
    CollaboratorCall, OptionError,
};
use crate::text::same_text;
use crate::value::{OptionKind, OptionValue, UsiOptionValue};
use crate::wire::{join_lines, option_line, push_option_line, wire_lines, wire_text};
use vstd::prelude::*;
use vstd::string::*;

verus! {

/// One key of the catalog with the option that is stored under it.
struct OptionEntry {
    key: &'static str,
    value: UsiOptionValue,
}

/// The options of the engine. It is built with the catalog's defaults;
/// from then on only current values change.
///
/// Its view is the map from each key to its option.
pub struct UsiOptions {
    /// One entry for each key of the catalog, in lexicographic order of the keys.
    entries: Vec<OptionEntry>,
}

impl View for UsiOptions {
    type V = Map<Seq<char>, OptionValue>;

    closed spec fn view(&self) -> Map<Seq<char>, OptionValue> {
        Map::new(
            |key: Seq<char>| self.holds(key),
            |key: Seq<char>| self.entries@[self.place_of(key)].value@,
        )
    }
}

impl UsiOptions {
    pub const BYOYOMI_MARGIN: &'static str = crate::catalog::BYOYOMI_MARGIN;

    pub const CLEAR_HASH: &'static str = crate::catalog::CLEAR_HASH;

    pub const EVAL_DIR: &'static str = crate::catalog::EVAL_DIR;

    pub const EVAL_HASH: &'static str = crate::catalog::EVAL_HASH;

    pub const MINIMUM_THINKING_TIME: &'static str = crate::catalog::MINIMUM_THINKING_TIME;

    pub const MULTI_PV: &'static str = crate::catalog::MULTI_PV;

    pub const SLOW_MOVER: &'static str = crate::catalog::SLOW_MOVER;

    pub const THREADS: &'static str = crate::catalog::THREADS;

    pub const TIME_MARGIN: &'static str = crate::catalog::TIME_MARGIN;

    pub const USI_HASH: &'static str = crate::catalog::USI_HASH;

    pub const USI_PONDER: &'static str = crate::catalog::USI_PONDER;

    /// Whether some entry has this key.
    spec fn holds(&self, key: Seq<char>) -> bool {
        exists|i: int| 0 <= i < self.entries@.len() && (#[trigger] self.entries@[i]).key@ == key
    }

    /// The place of an entry with this key.
    spec fn place_of(&self, key: Seq<char>) -> int {
        choose|i: int| 0 <= i < self.entries@.len() && (#[trigger] self.entries@[i]).key@ == key
    }

    /// The entries stand in the order of `catalog_keys`, one for each key.
    pub closed spec fn keys_in_order(&self) -> bool {
        &&& self.entries@.len() == catalog_keys().len()
        &&& forall|i: int|
            0 <= i < self.entries@.len() ==> (#[trigger] self.entries@[i]).key@ == catalog_keys()[i]
    }

    /// The registry is well-formed: it holds the options that the catalog
    /// declares, and every spin lies within its bounds.
    pub open spec fn wf(&self) -> bool {
        &&& self.keys_in_order()
        &&& has_catalog_shape(self@)
    }

    /// With the entries in order, the view holds under each key of the
    /// catalog the value of the entry at the key's place, and no other key.
    proof fn lemma_view_by_place(&self)
        requires
            self.keys_in_order(),
        ensures
            self@.dom() =~= catalog().dom(),
            forall|i: int|
                0 <= i < catalog_keys().len() ==> self@[#[trigger] catalog_keys()[i]]
                    == self.entries@[i].value@,
    {
        lemma_catalog_keys_distinct();
        lemma_catalog_keys_cover();
        let keys = catalog_keys();
        assert forall|i: int| 0 <= i < keys.len() implies self.holds(#[trigger] keys[i])
            && self.place_of(keys[i]) == i by {
            assert(self.entries@[i].key@ == keys[i]);
        }
        assert forall|key: Seq<char>| self@.contains_key(key) <==> catalog().contains_key(
            key,
        ) by {
            if self@.contains_key(key) {
                let i = self.place_of(key);
                assert(keys[i] == key);
            }
            if catalog().contains_key(key) {
                let i = choose|i: int| 0 <= i < keys.len() && keys[i] == key;
                assert(self.holds(keys[i]));
            }
        }
    }

    /// The registry with every option of the catalog at its default.
    pub fn new() -> (r: UsiOptions)
        ensures
            r.wf(),
            r@ == catalog(),
    {
        let mut entries: Vec<OptionEntry> = Vec::new();
        entries.push(
            OptionEntry {
                key: Self::BYOYOMI_MARGIN,
                value: UsiOptionValue::spin_default(500, 0, i64::MAX),
            },
        );
        entries.push(OptionEntry { key: Self::CLEAR_HASH, value: UsiOptionValue::Button });
        entries.push(
            OptionEntry {
                key: Self::EVAL_DIR,
                value: UsiOptionValue::string_default(crate::catalog::EVAL_DIR_DEFAULT),
            },
        );
        entries.push(
            OptionEntry {
                key: Self::EVAL_HASH,
                value: UsiOptionValue::spin_default(256, 1, 1024 * 1024),
            },
        );
        entries.push(
            OptionEntry {
                key: Self::MINIMUM_THINKING_TIME,
                value: UsiOptionValue::spin_default(20, 0, 5000),
            },
        );
        entries.push(
            OptionEntry { key: Self::MULTI_PV, value: UsiOptionValue::spin_default(1, 1, 500) },
        );
        entries.push(
            OptionEntry {
                key: Self::SLOW_MOVER,
                value: UsiOptionValue::spin_default(84, 10, 1000),
            },
        );
        entries.push(
            OptionEntry { key: Self::THREADS, value: UsiOptionValue::spin_default(1, 1, 8192) },
        );
        entries.push(
            OptionEntry {
                key: Self::TIME_MARGIN,
                value: UsiOptionValue::spin_default(500, 0, i64::MAX),
            },
        );
        entries.push(
            OptionEntry {
                key: Self::USI_HASH,
                value: UsiOptionValue::spin_default(256, 1, 1024 * 1024),
            },
        );
        entries.push(
            OptionEntry { key: Self::USI_PONDER, value: UsiOptionValue::check_default(true) },
        );
        let r = UsiOptions { entries };
        proof {
            r.lemma_view_by_place();
            lemma_key_texts();
            let keys = catalog_keys();
            assert forall|key: Seq<char>| catalog().contains_key(key) implies r@[key]
                == catalog()[key] by {
                lemma_catalog_keys_cover();
                let i = choose|i: int| 0 <= i < keys.len() && keys[i] == key;
                assert(r@[keys[i]] == r.entries@[i].value@);
            }
            assert(r@ =~= catalog());
        }
        r
    }

    /// The place of the entry with this key, if there is one.
    fn find(&self, key: &str) -> (r: Option<usize>)
        ensures
            match r {
                Some(i) => i < self.entries@.len() && self.entries@[i as int].key@ == key@,
                None => !self.holds(key@),
            },
    {
        let mut i: usize = 0;
        while i < self.entries.len()
            invariant
                i <= self.entries@.len(),
                forall|j: int| 0 <= j < i ==> (#[trigger] self.entries@[j]).key@ != key@,
            decreases self.entries@.len() - i,
        {
            if same_text(self.entries[i].key, key) {
                return Some(i);
            }
            i += 1;
        }
        None
    }

    /// The option under this key, if the registry has the key.
    fn lookup(&self, key: &str) -> (r: Option<&UsiOptionValue>)
        requires
            self.keys_in_order(),
        ensures
            match r {
                Some(v) => self@.contains_key(key@) && self@[key@] == v@,
                None => !self@.contains_key(key@),
            },
    {
        proof {
            self.lemma_view_by_place();
        }
        match self.find(key) {
            Some(i) => {
                assert(catalog_keys()[i as int] == key@);
                Some(&self.entries[i].value)
            },
            None => None,
        }
    }

    /// The kind of the option under this key, if the registry has the key.
    pub fn kind(&self, key: &str) -> (r: Option<OptionKind>)
        requires
            self.wf(),
        ensures
            r == if self@.contains_key(key@) {
                Some(self@[key@].kind())
            } else {
                None
            },
    {
        match self.lookup(key) {
            Some(v) => Some(v.kind()),
            None => None,
        }
    }

    /// The current value of a spin.
    pub fn get_i64(&self, key: &str) -> (r: i64)
        requires
            self.wf(),
            self@.contains_key(key@),
            self@[key@] is Spin,
        ensures
            r == self@[key@]->Spin_current,
    {
        match self.lookup(key) {
            Some(UsiOptionValue::Spin { current, .. }) => *current,
            _ => vstd::pervasive::unreached(),
        }
    }

    /// The current value of a text option.
    pub fn get_string(&self, key: &str) -> (r: String)
        requires
            self.wf(),
            self@.contains_key(key@),
            self@[key@] is StringOption,
        ensures
            r@ == self@[key@]->StringOption_current,
    {
        match self.lookup(key) {
            Some(UsiOptionValue::StringOption { current, .. }) => current.clone(),
            _ => vstd::pervasive::unreached(),
        }
    }

    /// The current value of a check.
    pub fn get_bool(&self, key: &str) -> (r: bool)
        requires
            self.wf(),
            self@.contains_key(key@),
            self@[key@] is Check,
        ensures
            r == self@[key@]->Check_current,
    {
        match self.lookup(key) {
            Some(UsiOptionValue::Check { current, .. }) => *current,
            _ => vstd::pervasive::unreached(),
        }
    }

    /// Pushes the button `key` and returns the command that it is bound to.
    /// The registry itself never changes; the caller carries the command out.
    ///
    /// An unknown key gives `IllegalName`, an option that is no button
    /// `NotButton`.
    pub fn push_button(&self, key: &str) -> (r: Result<CollaboratorCall, OptionError>)
        requires
            self.wf(),
        ensures
            r == push_outcome(self@, key@),
            // Every button is bound to a command.
            r is Ok ==> button_call(key@) is Some,
            // A key that the catalog does not have is turned down.
            !catalog().contains_key(key@) ==> r == Err::<CollaboratorCall, OptionError>(
                OptionError::IllegalName,
            ),
            // `Clear_Hash` empties the cache of search results, and does nothing else.
            key@ == Self::CLEAR_HASH@ ==> r == Ok::<CollaboratorCall, OptionError>(
                CollaboratorCall::ClearResultCache,
            ),
    {
        proof {
            lemma_key_texts();
        }
        match self.lookup(key) {
            None => Err(OptionError::IllegalName),
            Some(UsiOptionValue::Button) => {
                if same_text(key, Self::CLEAR_HASH) {
                    Ok(CollaboratorCall::ClearResultCache)
                } else {
                    vstd::pervasive::unreached()
                }
            },
            Some(_) => Err(OptionError::NotButton),
        }
    }

    /// Sets the option `key` to the value that `value` spells.
    ///
    /// On success the value is stored, and the result is the command that
    /// the caller has to carry out, if the option is bound to one.
    /// Setting the evaluation directory also clears `is_ready`.
    /// On failure nothing changes, and the error says why: an unknown key,
    /// a text that is no integer for a spin, a text other than `true` and
    /// `false` for a check, or a button, which takes no value.
    pub fn set(&mut self, key: &str, value: &str, is_ready: &mut bool) -> (r: Result<
        Option<CollaboratorCall>,
        OptionError,
    >)
        requires
            old(self).wf(),
        ensures
            final(self).wf(),
            final(self)@ == state_after_set(old(self)@, key@, value@),
            r == set_result(old(self)@, key@, value@),
            *final(is_ready) == ready_after_set(old(self)@, key@, value@, *old(is_ready)),
            // An input that is turned down changes nothing.
            r is Err ==> final(self)@ == old(self)@ && *final(is_ready) == *old(is_ready),
            // A key that the catalog does not have is turned down.
            !catalog().contains_key(key@) ==> r == Err::<Option<CollaboratorCall>, OptionError>(
                OptionError::IllegalName,
            ),
            // A spin stores the number clamped to its bounds.
            catalog().contains_key(key@) && old(self)@[key@] is Spin && decimal_value(value@) is Ok
                ==> final(self)@[key@]->Spin_current == clamp(
                decimal_value(value@)->Ok_0,
                old(self)@[key@]->Spin_min,
                old(self)@[key@]->Spin_max,
            ),
            // A check takes `true` and `false` and nothing else.
            catalog().contains_key(key@) && old(self)@[key@] is Check && value@ != "true"@ && value@
                != "false"@ ==> r == Err::<Option<CollaboratorCall>, OptionError>(
                OptionError::IllegalValue,
            ),
            // A number of threads within the bounds goes to the thread pool as it is.
            key@ == Self::THREADS@ && decimal_value(value@) is Ok && 1 <= decimal_value(
                value@,
            )->Ok_0 <= 8192 ==> r == Ok::<Option<CollaboratorCall>, OptionError>(
                Some(CollaboratorCall::ResizeThreadPool(decimal_value(value@)->Ok_0 as usize)),
            ),
            // No other option than these three resizes anything.
            key@ != Self::EVAL_HASH@ && key@ != Self::THREADS@ && key@ != Self::USI_HASH@ && r is Ok
                ==> r == Ok::<Option<CollaboratorCall>, OptionError>(None),
    {
        proof {
            self.lemma_view_by_place();
            lemma_key_texts();
        }
        let i = match self.find(key) {
            Some(i) => i,
            None => {
                return Err(OptionError::IllegalName);
            },
        };
        assert(catalog_keys()[i as int] == key@);
        assert(catalog().contains_key(key@) && self@[key@].same_declaration(catalog()[key@]));
        let stored_key = self.entries[i].key;
        let mut call: Option<CollaboratorCall> = None;
        let updated = match &self.entries[i].value {
            UsiOptionValue::StringOption { default, .. } => {
                if same_text(key, Self::EVAL_DIR) {
                    *is_ready = false;
                }
                UsiOptionValue::StringOption { default: default.clone(), current: value.to_owned() }
            },
            UsiOptionValue::Spin { default, min, max, .. } => {
                let n = match parse_i64(value) {
                    Ok(n) => n,
                    Err(e) => {
                        return Err(OptionError::NotInteger(e));
                    },
                };
                let n = if n > *max {
                    *max
                } else {
                    n
                };
                let n = if n < *min {
                    *min
                } else {
                    n
                };
                if same_text(key, Self::EVAL_HASH) {
                    assert(1 <= n <= 1048576);
                    call = Some(CollaboratorCall::ResizeEvalHash(n as usize));
                } else if same_text(key, Self::THREADS) {
                    assert(1 <= n <= 8192);
                    call = Some(CollaboratorCall::ResizeThreadPool(n as usize));
                } else if same_text(key, Self::USI_HASH) {
                    assert(1 <= n <= 1048576);
                    call = Some(CollaboratorCall::ResizeResultCache(n as usize));
                }
                UsiOptionValue::Spin { default: *default, current: n, min: *min, max: *max }
            },
            UsiOptionValue::Check { default, .. } => {
                if same_text(value, "true") {
                    UsiOptionValue::Check { default: *default, current: true }
                } else if same_text(value, "false") {
                    UsiOptionValue::Check { default: *default, current: false }
                } else {
                    return Err(OptionError::IllegalValue);
                }
            },
            UsiOptionValue::Button => {
                return Err(OptionError::IsButton);
            },
        };
        self.entries.set(i, OptionEntry { key: stored_key, value: updated });
        proof {
            self.lemma_view_by_place();
            lemma_catalog_keys_distinct();
            lemma_catalog_keys_cover();
            let keys = catalog_keys();
            let after = old(self)@.insert(key@, updated@);
            assert forall|k: Seq<char>| catalog().contains_key(k) implies self@[k] == after[k] by {
                let j = choose|j: int| 0 <= j < keys.len() && keys[j] == k;
                assert(self@[keys[j]] == self.entries@[j].value@);
                assert(old(self)@[keys[j]] == old(self).entries@[j].value@);
            }
            assert(self@ =~= after);
        }
        Ok(call)
    }

    /// The declaration of every option, one line for each, in
    /// lexicographic order of the keys, with a line feed between each two
    /// lines and none at the end.
    pub fn to_usi_string(&self) -> (s: String)
        requires
            self.wf(),
        ensures
            s@ == wire_text(self@),
    {
        proof {
            self.lemma_view_by_place();
        }
        let ghost lines = wire_lines(self@);
        let mut s = String::new();
        let mut i: usize = 0;
        while i < self.entries.len()
            invariant
                self.keys_in_order(),
                lines == wire_lines(self@),
                i <= self.entries@.len(),
                s@ == join_lines(lines.take(i as int)),
                forall|j: int|
                    0 <= j < catalog_keys().len() ==> self@[#[trigger] catalog_keys()[j]]
                        == self.entries@[j].value@,
            decreases self.entries@.len() - i,
        {
            if i > 0 {
                s.append("\n");
                proof {
                    reveal_strlit("\n");
                    assert("\n"@ =~= seq!['\n']);
                }
            }
            let entry = &self.entries[i];
            push_option_line(&mut s, entry.key, &entry.value);
            proof {
                let upto = lines.take(i as int + 1);
                assert(upto.drop_last() =~= lines.take(i as int));
                assert(upto.last() == option_line(entry.key@, entry.value@));
                assert(s@ =~= join_lines(upto));
            }
            i += 1;
        }
        assert(lines.take(i as int) =~= lines);
        s
    }
}

impl Clone for UsiOptions {
    /// A copy that holds the same options, with the same current values.
    fn clone(&self) -> (r: Self)
        ensures
            self.wf() ==> r.wf() && r@ == self@,
    {
        let mut entries: Vec<OptionEntry> = Vec::new();
        let mut i: usize = 0;
        while i < self.entries.len()
            invariant
                i <= self.entries@.len(),
                entries@.len() == i,
                forall|j: int|
                    0 <= j < i ==> (#[trigger] entries@[j]).key@ == self.entries@[j].key@
                        && entries@[j].value@ == self.entries@[j].value@,
            decreases self.entries@.len() - i,
        {
            let entry = &self.entries[i];
            entries.push(OptionEntry { key: entry.key, value: entry.value.clone() });
            i += 1;
        }
        let r = UsiOptions { entries };
        proof {
            if self.wf() {
                self.lemma_view_by_place();
                assert(r.keys_in_order());
                r.lemma_view_by_place();
                lemma_catalog_keys_cover();
                let keys = catalog_keys();
                assert forall|k: Seq<char>| catalog().contains_key(k) implies r@[k]
                    == self@[k] by {
                    let j = choose|j: int| 0 <= j < keys.len() && keys[j] == k;
                    assert(r@[keys[j]] == r.entries@[j].value@);
                    assert(self@[keys[j]] == self.entries@[j].value@);
                }
                assert(r@ =~= self@);
            }
        }
        r
    }
}

} // verus!
