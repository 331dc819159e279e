//! The generic, dynamically-typed configuration tree that the compiler
//! consumes.  A document parser (outside this library) produces these nodes;
//! the compiler only ever reads them.

use vstd::prelude::*;

verus! {

/// One node of a parsed configuration document: a scalar, a sequence of
/// nodes, or an ordered mapping from string keys to nodes.
#[derive(Debug, PartialEq, Eq)]
pub enum ConfigValue {
    Null,
    Bool(bool),
    Int(i64),
    Str(String),
    Sequence(Vec<ConfigValue>),
    Mapping(Vec<(String, ConfigValue)>),
}

/// The value stored under `key` in an entry list: the first entry whose key
/// matches, or `None` when no entry does.
pub open spec fn lookup_entries(entries: Seq<(String, ConfigValue)>, key: Seq<char>) -> Option<
    ConfigValue,
>
    decreases entries.len(),
{
    if entries.len() == 0 {
        None
    } else if entries[0].0@ == key {
        Some(entries[0].1)
    } else {
        lookup_entries(entries.drop_first(), key)
    }
}

impl ConfigValue {
    /// The value stored under `key`: `None` unless `self` is a mapping that
    /// contains the key.
    pub open spec fn spec_lookup(self, key: Seq<char>) -> Option<ConfigValue> {
        match self {
            ConfigValue::Mapping(entries) => lookup_entries(entries@, key),
            _ => None,
        }
    }

    /// Looks `key` up in this node, returning a reference to the stored value.
    pub fn lookup(&self, key: &String) -> (r: Option<&ConfigValue>)
        ensures
            match r {
                Some(v) => self.spec_lookup(key@) == Some(*v),
                None => self.spec_lookup(key@) is None,
            },
    {
        match self {
            ConfigValue::Mapping(entries) => {
                let ghost all = entries@;
                let n = entries.len();
                proof {
                    assert(all.skip(0) =~= all);
                }
                for i in 0..n
                    invariant
                        n == all.len(),
                        all == entries@,
                        self.spec_lookup(key@) == lookup_entries(all, key@),
                        lookup_entries(all, key@) == lookup_entries(all.skip(i as int), key@),
                {
                    let ghost rest = all.skip(i as int);
                    let entry = &entries[i];
                    if entry.0 == *key {
                        proof {
                            assert(rest.len() > 0);
                            assert(rest[0] == all[i as int]);
                            assert(lookup_entries(rest, key@) == Some(rest[0].1));
                        }
                        return Some(&entry.1);
                    }
                    proof {
                        assert(rest[0] == all[i as int]);
                        assert(rest.drop_first() =~= all.skip(i as int + 1));
                    }
                }
                proof {
                    assert(all.skip(n as int) =~= Seq::<(String, ConfigValue)>::empty());
                }
                None
            },
            _ => None,
        }
    }
}

/// A successful lookup hands back a value that sits inside the tree, so the
/// tree is larger than the value in the termination order.
pub proof fn lemma_lookup_decreases(cv: ConfigValue, key: Seq<char>)
    requires
        cv.spec_lookup(key) is Some,
    ensures
        decreases_to!(cv => cv.spec_lookup(key)->Some_0),
{
    match cv {
        ConfigValue::Mapping(entries) => {
            lemma_lookup_entries_decreases(entries@, key);
            assert(decreases_to!(cv => entries));
            assert(decreases_to!(entries => entries@));
        },
        _ => {},
    }
}

proof fn lemma_lookup_entries_decreases(entries: Seq<(String, ConfigValue)>, key: Seq<char>)
    requires
        lookup_entries(entries, key) is Some,
    ensures
        decreases_to!(entries => lookup_entries(entries, key)->Some_0),
    decreases entries.len(),
{
    if entries.len() == 0 {
    } else if entries[0].0@ == key {
        assert(decreases_to!(entries => entries[0]));
        assert(decreases_to!(entries[0] => entries[0].1));
    } else {
        lemma_lookup_entries_decreases(entries.drop_first(), key);
        assert(entries.drop_first() == entries.subrange(1, entries.len() as int));
        assert(decreases_to!(entries => entries.drop_first()));
    }
}

} // verus!
