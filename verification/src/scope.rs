//! The path resolver: a single-segment key looked up against a local
//! value (the current iteration element) and the root context, the local
//! one taking precedence.

use vstd::prelude::*;
use crate::value::{Value, opt_val, spec_get};

verus! {

/// An empty key resolves to nothing; otherwise the local value's member
/// wins, and the root's member is the fallback.
pub open spec fn spec_resolve(local: Option<Value>, root: Value, key: Seq<char>) -> Option<Value> {
    if key.len() == 0 {
        None
    } else {
        let from_local = match local {
            Some(l) => spec_get(l, key),
            None => None,
        };
        match from_local {
            Some(v) => Some(v),
            None => spec_get(root, key),
        }
    }
}

/// Two-tier lookup with local shadowing root.
pub fn resolve<'a>(local: Option<&'a Value>, root: &'a Value, key: &str) -> (r: Option<&'a Value>)
    ensures
        match r {
            Some(v) => spec_resolve(opt_val(local), *root, key@) == Some(*v),
            None => spec_resolve(opt_val(local), *root, key@) is None,
        },
{
    if key.is_empty() {
        return None;
    }
    match local {
        Some(l) => match l.get_member(key) {
            Some(v) => Some(v),
            None => root.get_member(key),
        },
        None => root.get_member(key),
    }
}

} // verus!
