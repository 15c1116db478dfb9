//! A YAML document as plain values.
//!
//! The text is parsed and printed outside the library; this module holds the
//! document tree that the subscription logic reads and builds.
use vstd::prelude::*;

use crate::text::str_eq;

verus! {

/// A YAML node. Numbers keep the text the YAML printer writes for them.
pub enum YamlValue {
    Null,
    Bool(bool),
    Number(String),
    String(String),
    Sequence(Vec<YamlValue>),
    Mapping(Vec<YamlEntry>),
    Tagged(String, Box<YamlValue>),
}

/// One `key: value` pair of a mapping, in document order.
pub struct YamlEntry {
    pub key: YamlValue,
    pub value: YamlValue,
}

/// The node with every tag removed from its outside.
pub open spec fn untag(v: YamlValue) -> YamlValue
    decreases v,
{
    match v {
        YamlValue::Tagged(_, inner) => untag(*inner),
        _ => v,
    }
}

/// The node is the plain string `s` (untagged).
pub open spec fn is_plain_str(v: YamlValue, s: Seq<char>) -> bool {
    v matches YamlValue::String(x) && x@ == s
}

/// The value of the first entry whose key is the plain string `key`.
pub open spec fn lookup(entries: Seq<YamlEntry>, key: Seq<char>) -> Option<YamlValue>
    decreases entries.len(),
{
    if entries.len() == 0 {
        None
    } else if is_plain_str(entries[0].key, key) {
        Some(entries[0].value)
    } else {
        lookup(entries.drop_first(), key)
    }
}

/// Position of the first entry whose key is the plain string `key`.
pub open spec fn lookup_index(entries: Seq<YamlEntry>, key: Seq<char>) -> Option<int>
    decreases entries.len(),
{
    if entries.len() == 0 {
        None
    } else if is_plain_str(entries[0].key, key) {
        Some(0)
    } else {
        match lookup_index(entries.drop_first(), key) {
            Some(i) => Some(i + 1),
            None => None,
        }
    }
}

pub proof fn lemma_lookup_index(entries: Seq<YamlEntry>, key: Seq<char>)
    ensures
        lookup_index(entries, key) matches Some(i) ==> 0 <= i < entries.len() && lookup(
            entries,
            key,
        ) == Some(entries[i].value),
        lookup_index(entries, key) is None ==> lookup(entries, key) is None,
    decreases entries.len(),
{
    if entries.len() > 0 && !is_plain_str(entries[0].key, key) {
        lemma_lookup_index(entries.drop_first(), key);
    }
}

proof fn lemma_lookup_at(entries: Seq<YamlEntry>, key: Seq<char>, i: int)
    requires
        0 <= i <= entries.len(),
        forall|k: int| 0 <= k < i ==> !is_plain_str(#[trigger] entries[k].key, key),
        i < entries.len() ==> is_plain_str(entries[i].key, key),
    ensures
        i < entries.len() ==> lookup_index(entries, key) == Some(i),
        i == entries.len() ==> lookup_index(entries, key) is None,
    decreases i,
{
    if i > 0 {
        let t = entries.drop_first();
        assert forall|k: int| 0 <= k < i - 1 implies !is_plain_str(#[trigger] t[k].key, key) by {
            assert(t[k] == entries[k + 1]);
        }
        if i < entries.len() {
            assert(t[i - 1] == entries[i]);
        }
        lemma_lookup_at(t, key, i - 1);
    }
}

/// `lookup` on a suffix, stepping one entry back.
pub proof fn lemma_lookup_step(entries: Seq<YamlEntry>, key: Seq<char>, j: int)
    requires
        0 < j <= entries.len(),
    ensures
        lookup(entries.subrange(j - 1, entries.len() as int), key) == if is_plain_str(
            entries[j - 1].key,
            key,
        ) {
            Some(entries[j - 1].value)
        } else {
            lookup(entries.subrange(j, entries.len() as int), key)
        },
{
    let s = entries.subrange(j - 1, entries.len() as int);
    assert(s[0] == entries[j - 1]);
    assert(s.drop_first() == entries.subrange(j, entries.len() as int));
}

/// Whether `v` is the plain string `s`.
pub fn is_plain_str_exec(v: &YamlValue, s: &str) -> (r: bool)
    ensures
        r == is_plain_str(*v, s@),
{
    match v {
        YamlValue::String(x) => str_eq(x.as_str(), s),
        _ => false,
    }
}

/// The node inside all tags.
pub fn untag_ref(v: &YamlValue) -> (r: &YamlValue)
    ensures
        *r == untag(*v),
    decreases v,
{
    match v {
        YamlValue::Tagged(_, inner) => untag_ref(inner),
        _ => v,
    }
}

/// The node inside all tags, taken by value.
pub fn into_untagged(v: YamlValue) -> (r: YamlValue)
    ensures
        r == untag(v),
    decreases v,
{
    match v {
        YamlValue::Tagged(_, inner) => into_untagged(*inner),
        other => other,
    }
}

/// The value under the plain-string key `key`, as `Mapping::get`.
pub fn lookup_ref<'a>(entries: &'a Vec<YamlEntry>, key: &str) -> (r: Option<&'a YamlValue>)
    ensures
        r matches Some(x) ==> lookup(entries@, key@) == Some(*x),
        r is None ==> lookup(entries@, key@) is None,
{
    let mut i: usize = 0;
    while i < entries.len()
        invariant
            i <= entries.len(),
            forall|k: int| 0 <= k < i ==> !is_plain_str(#[trigger] entries@[k].key, key@),
        decreases entries.len() - i,
    {
        if is_plain_str_exec(&entries[i].key, key) {
            proof {
                lemma_lookup_at(entries@, key@, i as int);
                lemma_lookup_index(entries@, key@);
            }
            return Some(&entries[i].value);
        }
        i = i + 1;
    }
    proof {
        lemma_lookup_at(entries@, key@, entries@.len() as int);
        lemma_lookup_index(entries@, key@);
    }
    None
}

/// A plain string node.
pub fn yaml_str(s: &str) -> (r: YamlValue)
    ensures
        is_plain_str(r, s@),
{
    YamlValue::String(crate::text::owned(s))
}

} // verus!
