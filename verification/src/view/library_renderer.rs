//! How the characters of a library row are styled in the results of a search.

use crate::model::search::{matches_view, MatchView};
use crate::model::selectors::{info_text, GlobalSearchState};
use crate::model::{InfoEntry, InfoView};
use vstd::prelude::*;
use vstd::string::StrSliceExecFns;

verus! {

/// The part of a row's search text that a character belongs to.
#[derive(Clone, Copy, PartialEq, Eq, Debug)]
pub enum Field {
    /// The artist, the title, and the space before the sort name.
    Plain,
    /// The name the artist is sorted by, with its brackets.
    ArtistSort,
    /// The slash before the album and before the title.
    Slash,
    /// The album.
    Album,
}

/// How one character of a row's search text is shown.
#[derive(Clone, Copy, PartialEq, Eq, Debug)]
pub struct CharStyle {
    pub field: Field,
    /// Whether the search matched this character.
    pub underlined: bool,
}

/// `n` characters of one field.
pub open spec fn run(field: Field, n: nat) -> Seq<Field> {
    Seq::new(n, |i: int| field)
}

/// The field of each character of a row's search text.
pub open spec fn fields_of(v: InfoView) -> Seq<Field> {
    let sort = match v.artist_sort {
        Some(s) => if s != v.artist {
            run(Field::Plain, 1) + run(Field::ArtistSort, s.len() + 2)
        } else {
            Seq::empty()
        },
        None => Seq::empty(),
    };
    let album = match v.album {
        Some(a) => run(Field::Slash, 1) + run(Field::Album, a.len()),
        None => Seq::empty(),
    };
    let title = match v.title {
        Some(t) => run(Field::Slash, 1) + run(Field::Plain, t.len()),
        None => Seq::empty(),
    };
    run(Field::Plain, v.artist.len()) + sort + album + title
}

/// Whether the offset `i` is among the matched offsets.
pub open spec fn is_marked(marked: Seq<u32>, i: int) -> bool {
    exists|j: int| 0 <= j < marked.len() && #[trigger] marked[j] == i
}

/// The style of each character of a row's search text, where the search
/// matched the characters at the offsets `marked`.
pub open spec fn styles_of(v: InfoView, marked: Seq<u32>) -> Seq<CharStyle> {
    Seq::new(
        fields_of(v).len(),
        |i: int| CharStyle { field: fields_of(v)[i], underlined: is_marked(marked, i) },
    )
}

/// The search text has one character for each field.
pub proof fn lemma_fields_cover_text(v: InfoView)
    ensures
        fields_of(v).len() == info_text(v).len(),
{
}

fn push_run(fields: &mut Vec<Field>, field: Field, n: usize)
    ensures
        final(fields)@ == old(fields)@ + run(field, n as nat),
{
    let mut i: usize = 0;
    while i < n
        invariant
            i <= n,
            fields@ == old(fields)@ + run(field, i as nat),
        decreases n - i,
    {
        fields.push(field);
        assert(fields@ =~= old(fields)@ + run(field, (i + 1) as nat));
        i += 1;
    }
    assert(fields@ =~= old(fields)@ + run(field, n as nat));
}

fn marks(marked: &Vec<u32>, i: usize) -> (found: bool)
    ensures
        found == is_marked(marked@, i as int),
{
    let mut j: usize = 0;
    while j < marked.len()
        invariant
            j <= marked.len(),
            forall|t: int| 0 <= t < j ==> #[trigger] marked[t] != i,
        decreases marked.len() - j,
    {
        if marked[j] as usize == i {
            return true;
        }
        j += 1;
    }
    false
}

/// Styles a row of the results of a search, character by character: the
/// sort name, the slashes and the album each in their own way, and the
/// characters that the search matched underlined.
pub fn render_search_item(ie: &InfoEntry, idx: &Vec<u32>) -> (styles: Vec<CharStyle>)
    ensures
        styles@ == styles_of(ie@, idx@),
        styles.len() == info_text(ie@).len(),
{
    let mut fields: Vec<Field> = Vec::new();
    push_run(&mut fields, Field::Plain, ie.artist.as_str().unicode_len());
    if let Some(sort) = &ie.artist_sort {
        if !(*sort == ie.artist) {
            let len = sort.as_str().unicode_len();
            push_run(&mut fields, Field::Plain, 1);
            push_run(&mut fields, Field::ArtistSort, 1);
            push_run(&mut fields, Field::ArtistSort, len);
            push_run(&mut fields, Field::ArtistSort, 1);
            assert(run(Field::ArtistSort, 1) + run(Field::ArtistSort, len as nat) + run(
                Field::ArtistSort,
                1,
            ) =~= run(Field::ArtistSort, (len + 2) as nat));
        }
    }
    if let Some(album) = &ie.album {
        push_run(&mut fields, Field::Slash, 1);
        push_run(&mut fields, Field::Album, album.as_str().unicode_len());
    }
    if let Some(title) = &ie.title {
        push_run(&mut fields, Field::Slash, 1);
        push_run(&mut fields, Field::Plain, title.as_str().unicode_len());
    }
    assert(fields@ =~= fields_of(ie@));
    let mut styles: Vec<CharStyle> = Vec::new();
    let mut i: usize = 0;
    while i < fields.len()
        invariant
            i <= fields.len(),
            fields@ == fields_of(ie@),
            styles.len() == i,
            forall|t: int|
                0 <= t < i ==> #[trigger] styles[t] == (CharStyle {
                    field: fields[t],
                    underlined: is_marked(idx@, t),
                }),
        decreases fields.len() - i,
    {
        styles.push(CharStyle { field: fields[i], underlined: marks(idx, i) });
        i += 1;
    }
    assert(styles@ =~= styles_of(ie@, idx@));
    proof {
        lemma_fields_cover_text(ie@);
    }
    styles
}

/// The styled rows of a narrowed list of library rows: for each match of the
/// cache, in its order, the row in the place that it names, with the
/// characters underlined that the match marks. A match that names no place
/// among `contents` shows nothing.
pub open spec fn styled_rows(contents: Seq<InfoView>, cache: Seq<MatchView>) -> Seq<Seq<CharStyle>>
    decreases cache.len(),
{
    if cache.len() == 0 {
        Seq::empty()
    } else if cache.last().position < contents.len() {
        styled_rows(contents, cache.drop_last()).push(
            styles_of(contents[cache.last().position as int], cache.last().offsets),
        )
    } else {
        styled_rows(contents, cache.drop_last())
    }
}

/// Styles the rows that the search over the whole library found.
pub fn render_global_search(results: &GlobalSearchState) -> (rows: Vec<Vec<CharStyle>>)
    ensures
        rows@.map_values(|r: Vec<CharStyle>| r@) == styled_rows(
            results@.contents,
            results@.search.cache,
        ),
{
    let ghost contents = results@.contents;
    let ghost cache = results@.search.cache;
    let found = &results.search.cache.matched_indices;
    let mut rows: Vec<Vec<CharStyle>> = Vec::new();
    let mut i: usize = 0;
    while i < found.len()
        invariant
            i <= found.len(),
            *found == results.search.cache.matched_indices,
            contents == results@.contents,
            cache == results@.search.cache,
            cache == matches_view(found@),
            rows@.map_values(|r: Vec<CharStyle>| r@) == styled_rows(
                contents,
                cache.subrange(0, i as int),
            ),
        decreases found.len() - i,
    {
        let ghost before = cache.subrange(0, i as int);
        let ghost after = cache.subrange(0, i + 1);
        assert(after.drop_last() =~= before);
        assert(after.last() == found[i as int]@);
        let ghost rows_before = rows@.map_values(|r: Vec<CharStyle>| r@);
        let p = found[i].position;
        if p < results.contents.len() {
            assert(contents[p as int] == results.contents[p as int]@);
            let row = render_search_item(&results.contents[p], &found[i].offsets);
            rows.push(row);
            assert(rows@.map_values(|r: Vec<CharStyle>| r@) =~= rows_before.push(row@));
        }
        i += 1;
    }
    assert(cache.subrange(0, i as int) =~= cache);
    rows
}

} // verus!
