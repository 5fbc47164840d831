//! Exported symbols of a module in the target, and lookup by exact name.
use vstd::prelude::*;
use crate::text::str_eq;

verus! {

/// A named address exported by a module of the target.
pub struct ModuleExport {
    pub name: String,
    pub addr: usize,
}


/// The address of the first export named exactly `name`, if any.
pub fn find_export(exports: &Vec<ModuleExport>, name: &str) -> (r: Option<usize>)
    ensures
        match r {
            Some(a) => exists|i: int|
                0 <= i < exports@.len() && (#[trigger] exports@[i]).name@ == name@ && exports@[i].addr
                    == a && forall|j: int| 0 <= j < i ==> (#[trigger] exports@[j]).name@ != name@,
            None => forall|i: int| 0 <= i < exports@.len() ==> (#[trigger] exports@[i]).name@ != name@,
        },
{
    let mut i: usize = 0;
    while i < exports.len()
        invariant
            i <= exports@.len(),
            forall|j: int| 0 <= j < i ==> (#[trigger] exports@[j]).name@ != name@,
        decreases exports@.len() - i,
    {
        if str_eq(exports[i].name.as_str(), name) {
            return Some(exports[i].addr);
        }
        i += 1;
    }
    None
}

} // verus!
