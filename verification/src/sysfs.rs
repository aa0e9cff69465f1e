//! Choosing sysfs entries.
use vstd::prelude::*;
use crate::text::starts_with;

verus! {

/// Whether the directory entry `name` is taken: every entry when there is
/// no prefix, else those whose name starts with it.
pub fn selected(name: &str, prefix: Option<&str>) -> (r: bool)
    ensures
        r == match prefix {
            None => true,
            Some(p) => p@.len() <= name@.len() && name@.take(p@.len() as int) == p@,
        },
{
    match prefix {
        None => true,
        Some(p) => starts_with(name, p),
    }
}

} // verus!
