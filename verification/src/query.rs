//! The query string of a URI, read into keys and values.

use crate::error::{ResolveError, ResolveErrorModel};
use crate::vary::{ContentSourceDataFilter, FilterModel};
use std::collections::BTreeMap;
use vstd::prelude::*;

verus! {

/// A value of a query string, as `serde_json` holds it: a string, a list of
/// values, or values under keys of their own.
#[verifier::external_type_specification]
#[verifier::external_body]
pub struct ExJsonValue(serde_json::Value);

/// The error of `serde_qs::from_str`.
#[verifier::external_type_specification]
#[verifier::external_body]
pub struct ExQueryError(serde_qs::Error);

/// What a [`Query`] stands for: its keys, each with its value in JSON
/// notation, in the order of the keys.
pub type QueryModel = Seq<(Seq<char>, Seq<char>)>;

/// `value` in JSON notation, as `serde_json` writes it.
pub uninterp spec fn json_text(value: serde_json::Value) -> Seq<char>;

/// The keys and values that the crate `serde_qs` reads from a query string;
/// `None` where it refuses the string.
pub uninterp spec fn parsed_query(text: Seq<char>) -> Option<QueryModel>;

/// What a list of keys and values stands for.
pub open spec fn entries_model(entries: Seq<(String, serde_json::Value)>) -> QueryModel {
    entries.map_values(|e: (String, serde_json::Value)| (e.0@, json_text(e.1)))
}

/// Whether no key occurs twice.
pub open spec fn keys_distinct(entries: QueryModel) -> bool {
    forall|i: int, j: int|
        0 <= i < entries.len() && 0 <= j < entries.len() && i != j ==> entries[i].0
            != entries[j].0
}

/// The entries whose key the filter lets through, in their order.
pub open spec fn retained(entries: QueryModel, filter: FilterModel) -> QueryModel
    decreases entries.len(),
{
    if entries.len() == 0 {
        entries
    } else {
        let before = retained(entries.drop_last(), filter);
        if filter.contains(entries.last().0) {
            before.push(entries.last())
        } else {
            before
        }
    }
}

/// Every entry that is kept was there before.
pub proof fn lemma_retained_entries_were_there(entries: QueryModel, filter: FilterModel, i: int)
    requires
        0 <= i < retained(entries, filter).len(),
    ensures
        exists|j: int| 0 <= j < entries.len() && entries[j] == retained(entries, filter)[i],
    decreases entries.len(),
{
    if entries.len() > 0 {
        let before = retained(entries.drop_last(), filter);
        if i < before.len() {
            lemma_retained_entries_were_there(entries.drop_last(), filter, i);
            let j = choose|j: int|
                0 <= j < entries.drop_last().len() && entries.drop_last()[j] == before[i];
            assert(entries[j] == retained(entries, filter)[i]);
        } else {
            assert(entries[entries.len() - 1] == retained(entries, filter)[i]);
        }
    }
}

/// Where no key occurs twice, none occurs twice among the entries that
/// are kept.
pub proof fn lemma_retained_keys_distinct(entries: QueryModel, filter: FilterModel)
    requires
        keys_distinct(entries),
    ensures
        keys_distinct(retained(entries, filter)),
    decreases entries.len(),
{
    if entries.len() > 0 {
        let rest = entries.drop_last();
        let before = retained(rest, filter);
        lemma_retained_keys_distinct(rest, filter);
        let kept = retained(entries, filter);
        assert forall|i: int, j: int|
            0 <= i < kept.len() && 0 <= j < kept.len() && i != j implies kept[i].0
            != kept[j].0 by {
            if i < before.len() && j == before.len() {
                lemma_retained_entries_were_there(rest, filter, i);
            }
            if j < before.len() && i == before.len() {
                lemma_retained_entries_were_there(rest, filter, j);
            }
        }
    }
}

/// `serde_qs::from_str` on a query string, read into a map from keys to
/// JSON values and handed out entry by entry: the keys and values are those
/// that [`parsed_query`] names for the string, no key occurs twice among
/// them, and the call fails exactly where [`parsed_query`] is `None`.
#[verifier::external_body]
fn parse_query_string(text: &str) -> (parsed: Result<
    Vec<(String, serde_json::Value)>,
    serde_qs::Error,
>)
    ensures
        match parsed {
            Ok(entries) => parsed_query(text@) == Some(entries_model(entries@)) && keys_distinct(
                entries_model(entries@),
            ),
            Err(_) => parsed_query(text@) is None,
        },
{
    let parsed: BTreeMap<String, serde_json::Value> = serde_qs::from_str(text)?;
    Ok(parsed.into_iter().collect())
}

/// `serde_json::Value::to_string`: the value in JSON notation.
#[verifier::external_body]
fn write_json(value: &serde_json::Value) -> (text: String)
    ensures
        text@ == json_text(*value),
{
    value.to_string()
}

/// `serde_json::Value::clone`: a copy of the value, which reads in JSON
/// notation as the value does.
#[verifier::external_body]
fn copy_json(value: &serde_json::Value) -> (copy: serde_json::Value)
    ensures
        json_text(copy) == json_text(*value),
{
    value.clone()
}

/// The parameters of a query string: keys with their values. No key
/// occurs twice.
#[derive(Debug, PartialEq, Eq)]
pub struct Query {
    entries: Vec<(String, serde_json::Value)>,
}

impl View for Query {
    type V = QueryModel;

    closed spec fn view(&self) -> QueryModel {
        entries_model(self.entries@)
    }
}

impl Clone for Query {
    fn clone(&self) -> (copy: Query)
        ensures
            copy@ == self@,
    {
        proof {
            use_type_invariant(self);
        }
        let mut entries: Vec<(String, serde_json::Value)> = Vec::new();
        let mut i: usize = 0;
        while i < self.entries.len()
            invariant
                i <= self.entries.len(),
                entries.len() == i,
                forall|k: int|
                    0 <= k < i ==> entries[k].0@ == self.entries[k].0@ && json_text(entries[k].1)
                        == json_text(self.entries[k].1),
            decreases self.entries.len() - i,
        {
            entries.push((self.entries[i].0.clone(), copy_json(&self.entries[i].1)));
            i = i + 1;
        }
        assert(entries_model(entries@) =~= self@);
        Query { entries }
    }
}

impl Query {
    #[verifier::type_invariant]
    spec fn keys_apart(&self) -> bool {
        keys_distinct(entries_model(self.entries@))
    }

    /// The query without parameters.
    pub fn new() -> (query: Query)
        ensures
            query@ == QueryModel::empty(),
    {
        let query = Query { entries: Vec::new() };
        assert(query@ =~= QueryModel::empty());
        query
    }

    /// Reads a query string.
    pub fn parse(text: &str) -> (parsed: Result<Query, ResolveError>)
        ensures
            match parsed {
                Ok(query) => parsed_query(text@) == Some(query@),
                Err(e) => parsed_query(text@) is None && e@ == ResolveErrorModel::InvalidQuery,
            },
    {
        match parse_query_string(text) {
            Ok(entries) => Ok(Query { entries }),
            Err(_) => Err(ResolveError::InvalidQuery),
        }
    }

    /// The number of parameters.
    pub fn len(&self) -> (n: usize)
        ensures
            n == self@.len(),
    {
        self.entries.len()
    }

    /// Keeps the parameters whose key the filter lets through, and drops
    /// the others.
    pub fn filter_with(&mut self, filter: &ContentSourceDataFilter)
        ensures
            final(self)@ == retained(old(self)@, filter@),
    {
        proof {
            use_type_invariant(&*self);
        }
        let mut rest: Vec<(String, serde_json::Value)> = Vec::new();
        std::mem::swap(&mut self.entries, &mut rest);
        let ghost all = rest@;
        let total: usize = rest.len();
        let mut reversed: Vec<(String, serde_json::Value)> = Vec::new();
        while rest.len() > 0
            invariant
                rest@ == all.subrange(0, rest.len() as int),
                rest.len() + reversed.len() == all.len(),
                forall|k: int| 0 <= k < reversed.len() ==> reversed[k] == all[all.len() - 1 - k],
            decreases rest.len(),
        {
            let entry = rest.pop().unwrap();
            reversed.push(entry);
        }
        let mut kept: Vec<(String, serde_json::Value)> = Vec::new();
        let mut done: usize = 0;
        assert(entries_model(all.subrange(0, 0)) =~= QueryModel::empty());
        while reversed.len() > 0
            invariant
                all.len() == total,
                done + reversed.len() == all.len(),
                forall|k: int| 0 <= k < reversed.len() ==> reversed[k] == all[all.len() - 1 - k],
                entries_model(kept@) == retained(
                    entries_model(all.subrange(0, done as int)),
                    filter@,
                ),
            decreases reversed.len(),
        {
            let entry = reversed.pop().unwrap();
            assert(entry == all[done as int]);
            let ghost before = entries_model(all.subrange(0, done as int));
            let ghost until = entries_model(all.subrange(0, done + 1));
            assert(until.drop_last() =~= before);
            assert(until.last() == (entry.0@, json_text(entry.1)));
            if filter.contains(&entry.0) {
                let ghost so_far = kept@;
                kept.push(entry);
                assert(entries_model(kept@) =~= entries_model(so_far).push(until.last()));
            }
            done = done + 1;
        }
        proof {
            assert(all.subrange(0, done as int) =~= all);
            lemma_retained_keys_distinct(entries_model(all), filter@);
        }
        self.entries = kept;
    }

    /// The place of the parameter `key`, if it is there.
    fn find(&self, key: &String) -> (found: Option<usize>)
        ensures
            match found {
                Some(i) => i < self@.len() && self@[i as int].0 == key@,
                None => forall|j: int| 0 <= j < self@.len() ==> self@[j].0 != key@,
            },
    {
        let mut i: usize = 0;
        while i < self.entries.len()
            invariant
                i <= self.entries.len(),
                forall|j: int| 0 <= j < i ==> self@[j].0 != key@,
            decreases self.entries.len() - i,
        {
            if self.entries[i].0 == *key {
                return Some(i);
            }
            i = i + 1;
        }
        None
    }

    /// The value under `key`, if the key is there.
    pub fn get(&self, key: &String) -> (value: Option<&serde_json::Value>)
        ensures
            match value {
                Some(v) => exists|i: int|
                    0 <= i < self@.len() && self@[i] == (key@, json_text(*v)),
                None => forall|i: int| 0 <= i < self@.len() ==> self@[i].0 != key@,
            },
    {
        match self.find(key) {
            Some(i) => {
                assert(self@[i as int] == (key@, json_text(self.entries[i as int].1)));
                Some(&self.entries[i].1)
            },
            None => None,
        }
    }

    /// The value under `key` in JSON notation, if the key is there.
    pub fn get_json(&self, key: &String) -> (value: Option<String>)
        ensures
            match value {
                Some(v) => exists|i: int| 0 <= i < self@.len() && self@[i] == (key@, v@),
                None => forall|i: int| 0 <= i < self@.len() ==> self@[i].0 != key@,
            },
    {
        match self.get(key) {
            Some(v) => Some(write_json(v)),
            None => None,
        }
    }

    /// The parameters, in the order of their keys.
    pub fn entries(&self) -> (entries: &Vec<(String, serde_json::Value)>)
        ensures
            entries_model(entries@) == self@,
            keys_distinct(self@),
    {
        proof {
            use_type_invariant(self);
        }
        &self.entries
    }
}

} // verus!
