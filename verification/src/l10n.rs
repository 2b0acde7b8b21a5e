//! Localized names: lists of names by index, and strings by key.
use crate::fmt::{digits, push_decimal};
use std::collections::HashMap;
use vstd::prelude::*;

verus! {

broadcast use vstd::std_specs::hash::group_hash_axioms;

/// The lists of indexed names.
#[derive(Clone, Copy, PartialEq, Eq, Structural, Debug)]
pub enum IndexedType {
    WorldExit,
    Scene,
    World,
    Item,
}

/// Where the list of a type of names is kept.
pub open spec fn indexed_slot(t: IndexedType) -> int {
    match t {
        IndexedType::WorldExit => 0,
        IndexedType::Scene => 1,
        IndexedType::World => 2,
        IndexedType::Item => 3,
    }
}

/// The name shown for an index that a list does not have.
pub open spec fn missing_name(index: usize) -> Seq<char> {
    "IDX_"@ + digits(index as nat, 10, false)
}

/// The names of one language.
pub struct L10n<'a> {
    language: &'a str,
    indexed_strings: Vec<Vec<String>>,
    strings: HashMap<String, String>,
}

impl<'a> L10n<'a> {
    /// The language.
    pub closed spec fn language_text(&self) -> Seq<char> {
        self.language@
    }

    /// The indexed names: world exit names, scene names, world names and item names.
    pub closed spec fn names(&self) -> Seq<Seq<String>> {
        self.indexed_strings@.map_values(|v: Vec<String>| v@)
    }

    /// The name shown for an index of a list: the listed name, or the placeholder.
    pub open spec fn name_of(&self, indexed_type: IndexedType, index: usize) -> Seq<char> {
        let list = self.names()[indexed_slot(indexed_type)];
        if index >= list.len() { missing_name(index) } else { list[index as int]@ }
    }

    /// The strings by key.
    pub closed spec fn keyed(&self) -> Map<String, String> {
        self.strings@
    }

    /// There is a list for each type of names.
    pub closed spec fn wf(&self) -> bool {
        self.indexed_strings@.len() == 4
    }

    /// The names of a language, from the lists read for it, and no keyed strings.
    pub fn new(
        language: &'a str,
        world_exit_names: Vec<String>,
        scene_names: Vec<String>,
        world_names: Vec<String>,
        item_names: Vec<String>,
    ) -> (l: L10n<'a>)
        ensures
            l.wf(),
            l.language_text() == language@,
            l.names() == seq![world_exit_names@, scene_names@, world_names@, item_names@],
            l.keyed() == Map::<String, String>::empty(),
    {
        let mut indexed_strings: Vec<Vec<String>> = Vec::new();
        indexed_strings.push(world_exit_names);
        indexed_strings.push(scene_names);
        indexed_strings.push(world_names);
        indexed_strings.push(item_names);
        let l = L10n { language, indexed_strings, strings: HashMap::new() };
        assert(l.names() =~= seq![world_exit_names@, scene_names@, world_names@, item_names@]);
        l
    }

    /// The language.
    pub fn get_language(&self) -> (language: &str)
        ensures
            language@ == self.language_text(),
    {
        self.language
    }

    /// The name of an index in a list, or a placeholder with the index where the list is shorter.
    pub fn get_indexed(&self, indexed_type: IndexedType, index: usize) -> (name: String)
        requires
            self.wf(),
        ensures
            ({
                let list = self.names()[indexed_slot(indexed_type)];
                name@ == (if index >= list.len() { missing_name(index) } else { list[index as int]@ })
            }),
    {
        let slot: usize = match indexed_type {
            IndexedType::WorldExit => 0,
            IndexedType::Scene => 1,
            IndexedType::World => 2,
            IndexedType::Item => 3,
        };
        let source = &self.indexed_strings[slot];
        assert(self.names()[slot as int] == source@);
        if index >= source.len() {
            let mut s = String::new();
            s.push_str("IDX_");
            push_decimal(&mut s, index as u64);
            return s;
        }
        source[index].clone()
    }

    /// The string of a key, or the key itself where there is none. What the hash map gives back
    /// is stated only for keys whose hashing follows the map's model.
    pub fn get_keyed(&self, key: &String) -> (s: String)
        ensures
            vstd::std_specs::hash::obeys_key_model::<String>() ==> s@ == (if self.keyed().contains_key(*key) {
                self.keyed()[*key]@
            } else {
                key@
            }),
    {
        match self.strings.get(key) {
            Some(value) => value.clone(),
            None => key.clone(),
        }
    }
}

} // verus!
