//! A parsed TOML document, held as plain values: tables of named items, each
//! item with its value and the text that TOML prints for it.

use vstd::prelude::*;
use crate::chars::opt_text;

verus! {

/// The value of a TOML item, as far as the configuration readers look into it.
pub enum TomlValue {
    Str(String),
    Array(Vec<TomlItem>),
    Table(TomlTable),
    /// An integer, float, boolean or date-time.
    Other,
}

/// A TOML value together with the text that TOML prints for it.
pub struct TomlItem {
    pub value: TomlValue,
    pub shown: String,
}

/// A TOML table: its keys, in the order in which the table lists them, with their items.
pub struct TomlTable {
    pub entries: Vec<(String, TomlItem)>,
}

/// The item of the first entry from `i` on whose key is `key`.
pub open spec fn lookup_from(e: Seq<(String, TomlItem)>, key: Seq<char>, i: nat) -> Option<TomlItem>
    decreases e.len() - i,
{
    if i >= e.len() {
        None
    } else if e[i as int].0@ == key {
        Some(e[i as int].1)
    } else {
        lookup_from(e, key, i + 1)
    }
}

/// The item that `t` holds under `key`.
pub open spec fn lookup(t: TomlTable, key: Seq<char>) -> Option<TomlItem> {
    lookup_from(t.entries@, key, 0)
}

/// The table that `t` holds under `key`, when what it holds there is a table.
pub open spec fn sub_table(t: TomlTable, key: Seq<char>) -> Option<TomlTable> {
    match lookup(t, key) {
        Some(item) => match item.value {
            TomlValue::Table(x) => Some(x),
            _ => None,
        },
        None => None,
    }
}

/// The text of a string item.
pub open spec fn text_of(item: TomlItem) -> Option<Seq<char>> {
    match item.value {
        TomlValue::Str(s) => Some(s@),
        _ => None,
    }
}

/// An item that is absent or a string.
pub open spec fn absent_or_text(o: Option<TomlItem>) -> bool {
    match o {
        Some(item) => text_of(item) is Some,
        None => true,
    }
}

/// The text of the string that `t` holds under `key` (none when absent).
pub open spec fn text_at(t: TomlTable, key: Seq<char>) -> Option<Seq<char>> {
    match lookup(t, key) {
        Some(item) => text_of(item),
        None => None,
    }
}

impl TomlTable {
    /// The item held under `key`.
    pub fn get(&self, key: &str) -> (r: Option<&TomlItem>)
        ensures
            r matches Some(x) ==> lookup(*self, key@) == Some(*x),
            r is None ==> lookup(*self, key@) is None,
    {
        let k = String::from_str(key);
        let mut i: usize = 0;
        while i < self.entries.len()
            invariant
                i <= self.entries@.len(),
                k@ == key@,
                lookup(*self, key@) == lookup_from(self.entries@, key@, i as nat),
            decreases self.entries@.len() - i,
        {
            if self.entries[i].0 == k {
                return Some(&self.entries[i].1);
            }
            i = i + 1;
        }
        None
    }

    /// The table held under `key`, when what is held there is a table.
    pub fn get_table(&self, key: &str) -> (r: Option<&TomlTable>)
        ensures
            r matches Some(x) ==> sub_table(*self, key@) == Some(*x),
            r is None ==> sub_table(*self, key@) is None,
    {
        match self.get(key) {
            Some(item) => item.as_table(),
            None => None,
        }
    }
}

impl TomlItem {
    /// The text of the item, when it is a string.
    pub fn as_str(&self) -> (r: Option<&String>)
        ensures
            r matches Some(s) ==> text_of(*self) == Some(s@),
            r is None ==> text_of(*self) is None,
    {
        match &self.value {
            TomlValue::Str(s) => Some(s),
            _ => None,
        }
    }

    /// The table, when the item is one.
    pub fn as_table(&self) -> (r: Option<&TomlTable>)
        ensures
            r matches Some(t) ==> self.value == TomlValue::Table(*t),
            r is None ==> !(self.value is Table),
    {
        match &self.value {
            TomlValue::Table(t) => Some(t),
            _ => None,
        }
    }

    /// The elements, when the item is an array.
    pub fn as_array(&self) -> (r: Option<&Vec<TomlItem>>)
        ensures
            r matches Some(a) ==> self.value == TomlValue::Array(*a),
            r is None ==> !(self.value is Array),
    {
        match &self.value {
            TomlValue::Array(a) => Some(a),
            _ => None,
        }
    }
}


/// The text held under `key`, for a key that is absent or holds a string.
pub fn text_field(t: &TomlTable, key: &str) -> (r: Option<String>)
    requires
        absent_or_text(lookup(*t, key@)),
    ensures
        opt_text(r) == text_at(*t, key@),
        r is Some <==> lookup(*t, key@) is Some,
{
    match t.get(key) {
        Some(item) => match item.as_str() {
            Some(s) => Some(s.clone()),
            None => None,
        },
        None => None,
    }
}

/// Whether `key` is absent from `t` or holds a string.
pub fn is_absent_or_text(t: &TomlTable, key: &str) -> (r: bool)
    ensures
        r == absent_or_text(lookup(*t, key@)),
{
    match t.get(key) {
        Some(item) => item.as_str().is_some(),
        None => true,
    }
}

} // verus!
