//! Settings. The environment is read by the caller; what was found is handed
//! in, so that choosing between a value and its default is a plain function.

use vstd::prelude::*;

verus! {

/// The value that was found under a key, or the default when none was.
pub fn get_or_default(found: Option<String>, default: &str) -> (r: String)
    ensures
        r@ == (match found {
            Some(v) => v@,
            None => default@,
        }),
{
    match found {
        Some(v) => v,
        None => String::from_str(default),
    }
}

/// The values that were found, in the order of the keys. Every key must have
/// been set.
pub fn get_multiple(found: Vec<Option<String>>) -> (r: Vec<String>)
    requires
        forall|i: int| 0 <= i < found@.len() ==> found@[i] is Some,
    ensures
        r@.len() == found@.len(),
        forall|i: int| 0 <= i < found@.len() ==> r@[i]@ == found@[i]->0@,
{
    let mut results: Vec<String> = Vec::new();
    let mut i: usize = 0;
    while i < found.len()
        invariant
            i <= found.len(),
            results@.len() == i,
            forall|j: int| 0 <= j < found@.len() ==> found@[j] is Some,
            forall|j: int| 0 <= j < i ==> results@[j]@ == found@[j]->0@,
        decreases found.len() - i,
    {
        match &found[i] {
            Some(value) => results.push(value.clone()),
            None => {},
        }
        i = i + 1;
    }
    results
}

/// For each key the value that was found, or its default, in the order of
/// the keys.
pub fn get_or_default_multiple(found: Vec<(Option<String>, String)>) -> (r: Vec<String>)
    ensures
        r@.len() == found@.len(),
        forall|i: int|
            0 <= i < found@.len() ==> r@[i]@ == (match found@[i].0 {
                Some(v) => v@,
                None => found@[i].1@,
            }),
{
    let mut results: Vec<String> = Vec::new();
    let mut i: usize = 0;
    while i < found.len()
        invariant
            i <= found.len(),
            results@.len() == i,
            forall|j: int|
                0 <= j < i ==> results@[j]@ == (match found@[j].0 {
                    Some(v) => v@,
                    None => found@[j].1@,
                }),
        decreases found.len() - i,
    {
        match &found[i].0 {
            Some(value) => results.push(value.clone()),
            None => results.push(found[i].1.clone()),
        }
        i = i + 1;
    }
    results
}

} // verus!
