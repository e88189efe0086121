//! Reading the stack's environment: `KEY=VALUE` lines and lookups by key.

use vstd::prelude::*;
use vstd::string::StrSliceExecFns;
use crate::text::{chars_of, find_char, text_eq};

verus! {

/// A `KEY=VALUE` line: the key is what stands before the first `=` and must
/// not be empty; the value is everything after it.
pub open spec fn env_line_model(line: Seq<char>) -> Option<(Seq<char>, Seq<char>)> {
    if exists|i: int| 0 <= i < line.len() && line[i] == '=' {
        let i = choose|i: int| 0 <= i < line.len() && line[i] == '=' && forall|j: int| 0 <= j < i ==> line[j] != '=';
        if i == 0 {
            None
        } else {
            Some((line.subrange(0, i), line.subrange(i + 1, line.len() as int)))
        }
    } else {
        None
    }
}

/// Splits a `KEY=VALUE` line at its first `=`.
pub fn parse_env_line(line: &str) -> (r: Option<(String, String)>)
    ensures
        match (r, env_line_model(line@)) {
            (Some((k, v)), Some((mk, mv))) => k@ == mk && v@ == mv,
            (None, None) => true,
            _ => false,
        },
{
    let x = chars_of(line);
    match find_char(&x, '=') {
        None => None,
        Some(i) => {
            proof {
                let k = choose|k: int| 0 <= k < line@.len() && line@[k] == '=' && forall|j: int| 0 <= j < k ==> line@[j] != '=';
                if k < i {
                } else if k > i {
                    assert(line@[i as int] == '=');
                }
            }
            if i == 0 {
                None
            } else {
                let key = line.substring_char(0, i).to_owned();
                let value = line.substring_char(i + 1, x.len()).to_owned();
                Some((key, value))
            }
        },
    }
}

/// The entry at index `i` is the last one with key `key`: later entries
/// override earlier ones.
pub open spec fn is_last_entry(entries: Seq<(String, String)>, key: Seq<char>, i: int) -> bool {
    0 <= i < entries.len() && entries[i].0@ == key
        && forall|j: int| i < j < entries.len() ==> entries[j].0@ != key
}

/// The value of `key`: that of its last entry, or `None` when no entry has it.
pub fn env_lookup<'a>(entries: &'a Vec<(String, String)>, key: &str) -> (r: Option<&'a String>)
    ensures
        r is None <==> forall|j: int| 0 <= j < entries@.len() ==> entries@[j].0@ != key@,
        r matches Some(v) ==> exists|i: int| is_last_entry(entries@, key@, i) && entries@[i].1 == *v,
{
    let mut i: usize = entries.len();
    while i > 0
        invariant
            i <= entries.len(),
            forall|j: int| i <= j < entries.len() ==> entries@[j].0@ != key@,
        decreases i,
    {
        i = i - 1;
        if text_eq(entries[i].0.as_str(), key) {
            assert(is_last_entry(entries@, key@, i as int));
            return Some(&entries[i].1);
        }
    }
    None
}

} // verus!
