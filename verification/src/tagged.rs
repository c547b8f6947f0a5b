//! Lists of values tagged with the position of the item each belongs to,
//! and comparisons of lists position by position.
use vstd::prelude::*;

verus! {

/// The tags of a tagged list, in order.
pub open spec fn tags<T>(entries: Seq<(usize, T)>) -> Seq<usize> {
    entries.map_values(|entry: (usize, T)| entry.0)
}

/// Appends `value` tagged with `tag`.
pub fn push_tagged<T>(entries: &mut Vec<(usize, T)>, tag: usize, value: T)
    ensures
        final(entries)@ == old(entries)@.push((tag, value)),
        tags(final(entries)@) == tags(old(entries)@).push(tag),
{
    entries.push((tag, value));
    proof {
        assert(tags(entries@) =~= tags(old(entries)@).push(tag));
    }
}

/// `position` is that of the first entry tagged `tag`.
pub open spec fn is_first_tagged(tags: Seq<usize>, tag: usize, position: int) -> bool {
    &&& 0 <= position < tags.len()
    &&& tags[position] == tag
    &&& forall|j: int| 0 <= j < position ==> #[trigger] tags[j] != tag
}

/// The position of the first entry tagged `tag`, if any.
pub fn find_tagged<T>(entries: &Vec<(usize, T)>, tag: usize) -> (position: Option<usize>)
    ensures
        match position {
            Some(p) => is_first_tagged(tags(entries@), tag, p as int),
            None => !tags(entries@).contains(tag),
        },
{
    let mut position: usize = 0;
    while position < entries.len()
        invariant
            position <= entries@.len(),
            forall|j: int| 0 <= j < position ==> #[trigger] tags(entries@)[j] != tag,
        decreases entries@.len() - position,
    {
        if entries[position].0 == tag {
            return Some(position);
        }
        position = position + 1;
    }
    proof {
        if tags(entries@).contains(tag) {
            let j = choose|j: int| 0 <= j < tags(entries@).len() && tags(entries@)[j] == tag;
            assert(tags(entries@)[j] != tag);
        }
    }
    None
}

/// The value of the entry at `position`.
pub fn tagged_value<T>(entries: &Vec<(usize, T)>, position: usize) -> (value: &T)
    requires
        position < tags(entries@).len(),
    ensures
        *value == entries@[position as int].1,
{
    &entries[position].1
}

/// `after` holds what `before` holds, except maybe at `position`.
pub open spec fn same_except<A>(before: Seq<A>, after: Seq<A>, position: int) -> bool {
    &&& after.len() == before.len()
    &&& forall|j: int| 0 <= j < before.len() && j != position ==> #[trigger] after[j] == before[j]
}

} // verus!
