use vstd::prelude::*;

verus! {

/// Whether a mathematical integer can be held in an `i32`.
pub open spec fn fits_i32(v: int) -> bool {
    i32::MIN <= v <= i32::MAX
}

/// The sequence that holds what an optional value holds: one item or none.
pub open spec fn option_seq<T>(item: Option<T>) -> Seq<T> {
    match item {
        Some(data) => seq![data],
        None => Seq::empty(),
    }
}

/// The sequence of references to the items of a sequence.
pub open spec fn refs<'a, T>(items: Seq<T>) -> Seq<&'a T> {
    items.map_values(|data: T| &data)
}

/// Appends a reference to what `item` holds, if it holds anything.
pub(crate) fn push_present<'a, T>(items: &mut Vec<&'a T>, item: &'a Option<T>, Ghost(before): Ghost<Seq<T>>)
    requires
        old(items)@ == refs(before),
    ensures
        final(items)@ == refs(before + option_seq(*item)),
{
    if let Some(data) = item.as_ref() {
        items.push(data);
    }
    proof {
        assert(items@ =~= refs(before + option_seq(*item)));
    }
}

} // verus!
