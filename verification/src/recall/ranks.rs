//! Optional ranking by usefulness. It never holds up what is required.

use vstd::prelude::*;

use crate::text;

verus! {

/// How long a ranking is waited for, in milliseconds.
pub const RANK_TIMEOUT_MS: u64 = 500;

/// One memory that an item holds, at one content.
#[derive(Debug)]
pub struct ContentPin {
    pub id: String,
    pub content_digest: String,
}

pub open spec fn pin_view(p: ContentPin) -> (Seq<char>, Seq<char>) {
    (p.id@, p.content_digest@)
}

/// The item holds one Concept, and nothing else: only then does a rank of the
/// Concept speak of the item.
pub open spec fn holds_one_concept(found: Seq<ContentPin>) -> bool {
    &&& found.len() > 0
    &&& text::is_prefix("C-"@, found[0].id@)
    &&& forall|i: int| 0 <= i < found.len() ==> pin_view(#[trigger] found[i]) == pin_view(found[0])
}

/// The Concept that an item is ranked by.
pub fn rank_slot(found: &Vec<ContentPin>) -> (r: Option<&ContentPin>)
    ensures
        match r {
            Some(pin) => holds_one_concept(found@) && *pin == found@[0],
            None => !holds_one_concept(found@),
        },
{
    if found.len() == 0 || !text::starts_with(found[0].id.as_str(), "C-") {
        return None;
    }
    let mut i: usize = 0;
    while i < found.len()
        invariant
            i <= found.len(),
            found.len() > 0,
            text::is_prefix("C-"@, found@[0].id@),
            forall|k: int|
                0 <= k < i ==> pin_view(#[trigger] found@[k]) == pin_view(found@[0]),
        decreases found.len() - i,
    {
        if !text::same(found[i].id.as_str(), found[0].id.as_str()) || !text::same(
            found[i].content_digest.as_str(),
            found[0].content_digest.as_str(),
        ) {
            assert(pin_view(found@[i as int]) != pin_view(found@[0]));
            return None;
        }
        i = i + 1;
    }
    Some(&found[0])
}

} // verus!
