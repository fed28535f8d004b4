//! What a list must offer to be moved about in and searched.

use crate::model::search::{SearchState, SearchView};
use vstd::prelude::*;

verus! {

/// A list with a selected row and a first visible row.
///
/// A list is in bounds when the selected row, if there is one, is a row of
/// the list, and the first visible row is one too (row 0 in an empty list).
/// The setters take any value; `watch_oob` brings a list back in bounds.
pub trait Selector: View + Sized {
    /// The number of rows.
    spec fn len_of(v: Self::V) -> usize;

    spec fn selected_of(v: Self::V) -> Option<usize>;

    spec fn offset_of(v: Self::V) -> usize;

    /// The same list with another selection.
    spec fn put_selected(v: Self::V, s: Option<usize>) -> Self::V;

    /// The same list with another first visible row.
    spec fn put_offset(v: Self::V, o: usize) -> Self::V;

    fn len(&self) -> (n: usize)
        ensures
            n == Self::len_of(self@),
    ;

    fn selected(&self) -> (s: Option<usize>)
        ensures
            s == Self::selected_of(self@),
    ;

    fn offset(&self) -> (o: usize)
        ensures
            o == Self::offset_of(self@),
    ;

    fn set_selected(&mut self, s: Option<usize>)
        ensures
            final(self)@ == Self::put_selected(old(self)@, s),
    ;

    fn set_offset(&mut self, o: usize)
        ensures
            final(self)@ == Self::put_offset(old(self)@, o),
    ;

    /// Selecting changes the selection and nothing else that this trait reads.
    proof fn lemma_put_selected(v: Self::V, s: Option<usize>)
        ensures
            Self::selected_of(Self::put_selected(v, s)) == s,
            Self::offset_of(Self::put_selected(v, s)) == Self::offset_of(v),
            Self::len_of(Self::put_selected(v, s)) == Self::len_of(v),
    ;

    /// Scrolling changes the first visible row and nothing else that this trait reads.
    proof fn lemma_put_offset(v: Self::V, o: usize)
        ensures
            Self::offset_of(Self::put_offset(v, o)) == o,
            Self::selected_of(Self::put_offset(v, o)) == Self::selected_of(v),
            Self::len_of(Self::put_offset(v, o)) == Self::len_of(v),
    ;

    /// Brings the selection and the first visible row back among the rows.
    fn watch_oob(&mut self)
        ensures
            final(self)@ == Self::put_offset(
                Self::put_selected(
                    old(self)@,
                    clamped_selected(Self::selected_of(old(self)@), Self::len_of(old(self)@)),
                ),
                clamped_offset(Self::offset_of(old(self)@), Self::len_of(old(self)@)),
            ),
    {
        let len = self.len();
        let selected = match self.selected() {
            Some(s) => if len == 0 {
                None
            } else if s >= len {
                Some(len - 1)
            } else {
                Some(s)
            },
            None => None,
        };
        self.set_selected(selected);
        proof {
            Self::lemma_put_selected(old(self)@, selected);
        }
        let offset = self.offset();
        let offset = if len == 0 {
            0
        } else if offset >= len {
            len - 1
        } else {
            offset
        };
        self.set_offset(offset);
    }
}

/// Whether a selection and a first visible row lie among `len` rows.
pub open spec fn in_bounds(selected: Option<usize>, offset: usize, len: usize) -> bool {
    &&& selected matches Some(s) ==> s < len
    &&& offset < len || offset == 0
}

/// The selection brought back among `len` rows: the last row when it lay
/// beyond it, none when there is no row.
pub open spec fn clamped_selected(selected: Option<usize>, len: usize) -> Option<usize> {
    match selected {
        Some(s) => if len == 0 {
            None
        } else if s >= len {
            Some((len - 1) as usize)
        } else {
            Some(s)
        },
        None => None,
    }
}

/// The first visible row brought back among `len` rows.
pub open spec fn clamped_offset(offset: usize, len: usize) -> usize {
    if len == 0 {
        0
    } else if offset >= len {
        (len - 1) as usize
    } else {
        offset
    }
}

/// The list after `watch_oob`.
pub open spec fn reclamped<S: Selector>(v: S::V) -> S::V {
    S::put_offset(
        S::put_selected(v, clamped_selected(S::selected_of(v), S::len_of(v))),
        clamped_offset(S::offset_of(v), S::len_of(v)),
    )
}

/// Whether the list is in bounds.
pub open spec fn selector_in_bounds<S: Selector>(v: S::V) -> bool {
    in_bounds(S::selected_of(v), S::offset_of(v), S::len_of(v))
}

/// After `watch_oob` a list is in bounds, whatever it was before, and a list
/// that was in bounds keeps its selection and its first visible row.
pub proof fn lemma_reclamped_in_bounds<S: Selector>(v: S::V)
    ensures
        selector_in_bounds::<S>(reclamped::<S>(v)),
        S::len_of(reclamped::<S>(v)) == S::len_of(v),
        selector_in_bounds::<S>(v) ==> {
            &&& S::selected_of(reclamped::<S>(v)) == S::selected_of(v)
            &&& S::offset_of(reclamped::<S>(v)) == S::offset_of(v)
        },
{
    let s = clamped_selected(S::selected_of(v), S::len_of(v));
    let o = clamped_offset(S::offset_of(v), S::len_of(v));
    S::lemma_put_selected(v, s);
    S::lemma_put_offset(S::put_selected(v, s), o);
}

/// What a borrowed item stands for.
pub open spec fn item_view<T: View>(item: Option<&T>) -> Option<T::V> {
    match item {
        Some(t) => Some(t@),
        None => None,
    }
}

/// What borrowed items stand for.
pub open spec fn items_view<T: View>(items: Seq<&T>) -> Seq<T::V> {
    items.map_values(|t: &T| t@)
}

/// A list that can be narrowed by a text query.
///
/// The rows that are searched have each a search text; `haystacks_of` lists
/// them in the list's own order. The search state holds the query and what
/// the last search found.
pub trait Searchable<T: View>: Selector {
    spec fn search_of(v: Self::V) -> SearchView;

    /// The same list with another search state.
    spec fn put_search(v: Self::V, s: SearchView) -> Self::V;

    /// The search texts of the rows that are searched.
    spec fn haystacks_of(v: Self::V) -> Seq<Seq<char>>;

    /// The items in the rows of the list, in the order of the rows.
    spec fn contents_of(v: Self::V) -> Seq<T::V>;

    /// The item in the selected row.
    spec fn selected_item_of(v: Self::V) -> Option<T::V>;

    fn filter(&self) -> (f: &SearchState)
        ensures
            f@ == Self::search_of(self@),
    ;

    fn filter_mut(&mut self) -> (f: &mut SearchState)
        ensures
            f@ == Self::search_of(old(self)@),
            final(self)@ == Self::put_search(old(self)@, final(f)@),
    ;

    /// The number of rows that are searched.
    fn haystack_count(&self) -> (n: usize)
        ensures
            n == Self::haystacks_of(self@).len(),
    ;

    /// The search text of a row.
    fn haystack(&self, i: usize) -> (s: String)
        requires
            i < Self::haystacks_of(self@).len(),
        ensures
            s@ == Self::haystacks_of(self@)[i as int],
    ;

    fn contents(&self) -> (items: Vec<&T>)
        ensures
            items_view(items@) == Self::contents_of(self@),
    ;

    fn selected_item(&self) -> (item: Option<&T>)
        ensures
            item_view(item) == Self::selected_item_of(self@),
    ;

    /// A new search state changes neither the cursor nor the search texts.
    proof fn lemma_put_search(v: Self::V, s: SearchView)
        ensures
            Self::search_of(Self::put_search(v, s)) == s,
            Self::haystacks_of(Self::put_search(v, s)) == Self::haystacks_of(v),
            Self::selected_of(Self::put_search(v, s)) == Self::selected_of(v),
            Self::offset_of(Self::put_search(v, s)) == Self::offset_of(v),
    ;

    /// Moving the cursor changes neither the search state nor the search texts.
    proof fn lemma_cursor_keeps_search(v: Self::V, s: Option<usize>, o: usize)
        ensures
            Self::search_of(Self::put_selected(v, s)) == Self::search_of(v),
            Self::haystacks_of(Self::put_selected(v, s)) == Self::haystacks_of(v),
            Self::search_of(Self::put_offset(v, o)) == Self::search_of(v),
            Self::haystacks_of(Self::put_offset(v, o)) == Self::haystacks_of(v),
    ;
}

} // verus!
