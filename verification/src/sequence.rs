//! Working through a list from its front while taking its items out.
use vstd::prelude::*;

verus! {

/// The same items, last first.
pub fn reversed<T>(items: Vec<T>) -> (r: Vec<T>)
    ensures
        r@.len() == items@.len(),
        forall|k: int| 0 <= k < r@.len() ==> #[trigger] r@[k] == items@[items@.len() - 1 - k],
{
    let mut items = items;
    let ghost all = items@;
    let mut out: Vec<T> = Vec::new();
    while items.len() > 0
        invariant
            items@.len() + out@.len() == all.len(),
            items@ == all.take(items@.len() as int),
            forall|k: int| 0 <= k < out@.len() ==> #[trigger] out@[k] == all[all.len() - 1 - k],
        decreases items@.len(),
    {
        let ghost n = items@.len();
        match items.pop() {
            Some(x) => {
                out.push(x);
            },
            None => {},
        }
        assert(items@ =~= all.take(n - 1));
    }
    out
}

} // verus!
