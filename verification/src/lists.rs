//! Optional lists that grow by appending.
//!
//! A builder keeps each of its lists absent until the first item arrives, so
//! that an update can tell "leave the list alone" from "make it empty".
use vstd::prelude::*;

verus! {

/// The items of `list`, an absent list counting as empty.
pub open spec fn or_empty<T>(list: Option<Seq<T>>) -> Seq<T> {
    match list {
        Some(items) => items,
        None => Seq::empty(),
    }
}

/// `list` after `item` was added at its end. The list is present afterwards,
/// and nothing that was in it has moved or left.
pub open spec fn appended<T>(list: Option<Seq<T>>, item: T) -> Option<Seq<T>> {
    Some(or_empty(list).push(item))
}

/// Adds `item` at the end of `list`, creating the list if it was absent.
pub(crate) fn append<T: DeepView>(list: &mut Option<Vec<T>>, item: T)
    ensures
        final(list).deep_view() == appended(old(list).deep_view(), item.deep_view()),
{
    list.get_or_insert(Vec::new()).push(item);
}

/// Appending keeps what was there, in place, and puts the new item last. The
/// list grows by exactly one: nothing is merged with an equal item.
pub proof fn lemma_appended_extends<T>(list: Option<Seq<T>>, item: T)
    ensures
        appended(list, item) is Some,
        or_empty(appended(list, item)).len() == or_empty(list).len() + 1,
        or_empty(appended(list, item)).last() == item,
        forall|i: int|
            0 <= i < or_empty(list).len() ==> #[trigger] or_empty(appended(list, item))[i]
                == or_empty(list)[i],
{
}

/// Whether every clone of a `T` models the same value as the one it was made
/// from.
pub open spec fn clone_keeps_view<T: DeepView + Clone>() -> bool {
    forall|a: T, b: T| #[trigger] cloned::<T>(a, b) ==> b.deep_view() == a.deep_view()
}

/// A copy of `items`, in the same order.
pub(crate) fn clone_items<T: DeepView + Clone>(items: &Vec<T>) -> (res: Vec<T>)
    requires
        clone_keeps_view::<T>(),
    ensures
        res.deep_view() == items.deep_view(),
{
    let res = items.clone();
    assert(res.deep_view() =~= items.deep_view());
    res
}

/// A copy of `list`: absent if `list` is absent, else its items in the same
/// order.
pub(crate) fn clone_list<T: DeepView + Clone>(list: &Option<Vec<T>>) -> (res: Option<Vec<T>>)
    requires
        clone_keeps_view::<T>(),
    ensures
        res.deep_view() == list.deep_view(),
{
    match list {
        Some(items) => Some(clone_items(items)),
        None => None,
    }
}

} // verus!
