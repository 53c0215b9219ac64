//! Caller-supplied job options.
//!
//! An options bundle carries an optional display name and an open-ended list
//! of key/value properties for system-specific job settings. The reserved
//! `job-name` property is promoted into the display name when no explicit
//! name is given.

use vstd::prelude::*;

use crate::text::chars_eq;

verus! {

/// Index of the first property whose key views as `key`, or -1 when absent.
pub open spec fn first_key_index(props: Seq<(String, String)>, key: Seq<char>) -> int
    decreases props.len(),
{
    if props.len() == 0 {
        -1
    } else if props[0].0@ == key {
        0
    } else {
        let rest = first_key_index(props.drop_first(), key);
        if rest == -1 {
            -1
        } else {
            rest + 1
        }
    }
}

/// `first_key_index` points at the first property with the given key: the
/// index carries the key and no earlier one does; -1 means the key is absent.
pub proof fn lemma_first_key_index(props: Seq<(String, String)>, key: Seq<char>)
    ensures
        first_key_index(props, key) >= -1,
        first_key_index(props, key) < props.len(),
        first_key_index(props, key) == -1 ==> forall|i: int|
            0 <= i < props.len() ==> (#[trigger] props[i]).0@ != key,
        first_key_index(props, key) >= 0 ==> props[first_key_index(props, key)].0@ == key,
        first_key_index(props, key) >= 0 ==> forall|i: int|
            0 <= i < first_key_index(props, key) ==> (#[trigger] props[i]).0@ != key,
    decreases props.len(),
{
    if props.len() > 0 && props[0].0@ != key {
        lemma_first_key_index(props.drop_first(), key);
        let rest = first_key_index(props.drop_first(), key);
        if rest == -1 {
            assert forall|i: int| 0 <= i < props.len() implies (#[trigger] props[i]).0@
                != key by {
                if i > 0 {
                    assert(props.drop_first()[i - 1] == props[i]);
                }
            }
        } else {
            assert(props.drop_first()[rest] == props[rest + 1]);
            assert forall|i: int| 0 <= i < rest + 1 implies (#[trigger] props[i]).0@ != key by {
                if i > 0 {
                    assert(props.drop_first()[i - 1] == props[i]);
                }
            }
        }
    }
}

/// The reserved property key promoted into the display name.
pub open spec fn job_name_key() -> Seq<char> {
    "job-name"@
}

/// Index of the first property stored under `key`, if any.
fn find_key(props: &Vec<(String, String)>, key: &str) -> (r: Option<usize>)
    ensures
        match r {
            Some(i) => i == first_key_index(props@, key@) && i < props@.len(),
            None => first_key_index(props@, key@) == -1,
        },
{
    let n = props.len();
    let mut i: usize = 0;
    while i < n
        invariant
            n == props@.len(),
            i <= n,
            forall|j: int| 0 <= j < i ==> (#[trigger] props@[j]).0@ != key@,
        decreases n - i,
    {
        if chars_eq(props[i].0.as_str(), key) {
            proof {
                lemma_first_key_index(props@, key@);
                let k = first_key_index(props@, key@);
                if k > i as int {
                    assert(props@[i as int].0@ != key@);
                } else if k == -1 {
                    assert(props@[i as int].0@ != key@);
                } else if k < i as int {
                    assert(props@[k].0@ != key@);
                    assert(props@[k].0@ == key@);
                }
            }
            return Some(i);
        }
        i = i + 1;
    }
    proof {
        lemma_first_key_index(props@, key@);
        let k = first_key_index(props@, key@);
        if k >= 0 {
            assert(props@[k].0@ != key@);
            assert(props@[k].0@ == key@);
        }
    }
    None
}

/// Options attached to a submission: an optional display name and raw
/// key/value properties handed through to the printing subsystem.
pub struct PrinterJobOptions {
    /// Display name of the job, when the caller chose one.
    pub name: Option<String>,
    /// System-specific properties, as key/value pairs in caller order.
    pub raw_properties: Vec<(String, String)>,
}

impl PrinterJobOptions {
    /// Empty options: no name, no properties.
    pub fn none() -> (r: Self)
        ensures
            r.name is None,
            r.raw_properties@ == Seq::<(String, String)>::empty(),
    {
        PrinterJobOptions { name: None, raw_properties: Vec::new() }
    }

    /// Build options from a raw property list, promoting the first `job-name`
    /// entry (when present) into the display name and removing it from the
    /// list.
    pub fn from_map(raw_properties: Vec<(String, String)>) -> (r: Self)
        ensures
            ({
                let k = first_key_index(raw_properties@, job_name_key());
                if k == -1 {
                    r.name is None && r.raw_properties@ == raw_properties@
                } else {
                    &&& r.name matches Some(n) && n@ == raw_properties@[k].1@
                    &&& r.raw_properties@ == raw_properties@.remove(k)
                }
            }),
    {
        let mut props = raw_properties;
        match find_key(&props, "job-name") {
            Some(i) => {
                let pair = props.remove(i);
                PrinterJobOptions { name: Some(pair.1), raw_properties: props }
            },
            None => PrinterJobOptions { name: None, raw_properties: props },
        }
    }

    /// Build options from an explicit name and raw properties.
    pub fn with_name_and_properties(name: String, raw_properties: Vec<(String, String)>) -> (r:
        Self)
        ensures
            r.name matches Some(n) && n == name,
            r.raw_properties == raw_properties,
    {
        PrinterJobOptions { name: Some(name), raw_properties }
    }

    /// Look up the first property stored under `key`.
    pub fn get_property(&self, key: &str) -> (r: Option<&String>)
        ensures
            ({
                let k = first_key_index(self.raw_properties@, key@);
                match r {
                    Some(v) => k >= 0 && v == self.raw_properties@[k].1,
                    None => k == -1,
                }
            }),
    {
        match find_key(&self.raw_properties, key) {
            Some(i) => Some(&self.raw_properties[i].1),
            None => None,
        }
    }

    /// Whether some property is stored under `key`.
    pub fn contains_property(&self, key: &str) -> (r: bool)
        ensures
            r == (first_key_index(self.raw_properties@, key@) >= 0),
    {
        proof {
            lemma_first_key_index(self.raw_properties@, key@);
        }
        match self.get_property(key) {
            Some(_) => true,
            None => false,
        }
    }

}

impl Clone for PrinterJobOptions {
    /// A deep copy of the options.
    fn clone(&self) -> (r: Self)
        ensures
            r.name == self.name,
            r.raw_properties@ == self.raw_properties@,
    {
        let name = match &self.name {
            Some(n) => Some(n.clone()),
            None => None,
        };
        let mut props: Vec<(String, String)> = Vec::new();
        let n = self.raw_properties.len();
        let mut i: usize = 0;
        while i < n
            invariant
                n == self.raw_properties@.len(),
                i <= n,
                props@ =~= self.raw_properties@.subrange(0, i as int),
            decreases n - i,
        {
            let pair = (self.raw_properties[i].0.clone(), self.raw_properties[i].1.clone());
            proof {
                assert(pair == self.raw_properties@[i as int]);
            }
            props.push(pair);
            proof {
                assert(props@ =~= self.raw_properties@.subrange(0, i + 1 as int));
            }
            i = i + 1;
        }
        proof {
            assert(props@ =~= self.raw_properties@);
        }
        PrinterJobOptions { name, raw_properties: props }
    }
}

} // verus!
