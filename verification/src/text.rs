//! Text put together from parts.

use vstd::prelude::*;

verus! {

/// `before`, then `middle`, then `after`.
pub(crate) fn join(before: &str, middle: &str, after: &str) -> (text: String)
    ensures
        text@ == before@ + middle@ + after@,
{
    let mut text = before.to_owned();
    text.append(middle);
    text.append(after);
    text
}

} // verus!
