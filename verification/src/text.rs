//! Small facts about character and byte sequences used by the contracts.

use vstd::prelude::*;

verus! {

/// `text` begins with `prefix`.
pub open spec fn has_prefix<T>(text: Seq<T>, prefix: Seq<T>) -> bool {
    prefix.len() <= text.len() && text.subrange(0, prefix.len() as int) == prefix
}

pub proof fn lemma_concat_has_prefix<T>(prefix: Seq<T>, rest: Seq<T>)
    ensures
        has_prefix(prefix + rest, prefix),
{
    assert((prefix + rest).subrange(0, prefix.len() as int) =~= prefix);
}

/// `text` begins with `prefix` exactly when it is at least as long and
/// agrees with it at every position of the prefix.
pub proof fn lemma_has_prefix_elementwise<T>(text: Seq<T>, prefix: Seq<T>)
    ensures
        has_prefix(text, prefix) == (prefix.len() <= text.len() && forall|i: int|
            0 <= i < prefix.len() ==> #[trigger] text[i] == prefix[i]),
{
    if prefix.len() <= text.len() && forall|i: int|
        0 <= i < prefix.len() ==> #[trigger] text[i] == prefix[i] {
        assert(text.subrange(0, prefix.len() as int) =~= prefix);
    }
    if has_prefix(text, prefix) {
        assert forall|i: int| 0 <= i < prefix.len() implies #[trigger] text[i] == prefix[i] by {
            assert(text.subrange(0, prefix.len() as int)[i] == text[i]);
        }
    }
}

} // verus!
