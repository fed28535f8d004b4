//! Bounds-safe index arithmetic and small text helpers.

use crate::model::{Song, SongView, Status};
use core::time::Duration;
use vstd::prelude::*;
use vstd::string::StringExecFns;

verus! {

/// The index reached by advancing `idx` by `k` in a collection of `length`
/// rows: the last row when the sum runs past the end, `idx` itself when the
/// collection is empty.
pub open spec fn add_clamped(idx: int, k: int, length: int) -> int {
    if length == 0 {
        idx
    } else if idx + k >= length {
        length - 1
    } else {
        idx + k
    }
}

/// The index reached by retreating `k` from `idx` in a collection of `length`
/// rows: the first row when `k` reaches past it or the collection is empty.
pub open spec fn sub_clamped(idx: int, k: int, length: int) -> int {
    if k >= idx || length == 0 {
        0
    } else {
        idx - k
    }
}

/// From a row of a list, advancing and retreating lead to a row of the list.
pub proof fn lemma_clamped_stays_in_range(idx: int, k: int, length: int)
    requires
        0 <= idx < length,
        0 <= k,
    ensures
        0 <= add_clamped(idx, k, length) < length,
        0 <= sub_clamped(idx, k, length) < length,
{
}

/// In an empty list advancing leaves an index as it is.
pub proof fn lemma_add_clamped_on_empty(idx: int, k: int)
    ensures
        add_clamped(idx, k, 0) == idx,
{
}

/// In an empty list retreating from the first row leaves the index as it
/// is. From any other index it leads to the first row.
pub proof fn lemma_sub_clamped_on_empty(idx: int, k: int)
    requires
        idx == 0,
    ensures
        sub_clamped(idx, k, 0) == idx,
{
}

/// Advances an index, saturating at the last row.
pub fn safe_add(idx: usize, k: usize, length: usize) -> (r: usize)
    ensures
        r == add_clamped(idx as int, k as int, length as int),
        length == 0 ==> r == idx,
        idx < length ==> r < length,
{
    if length == 0 {
        return idx;
    }
    if k >= length || idx >= length - k {
        return length - 1;
    }
    idx + k
}

/// Retreats an index, saturating at the first row.
pub fn safe_subtract(idx: usize, k: usize, length: usize) -> (r: usize)
    ensures
        r == sub_clamped(idx as int, k as int, length as int),
        r <= idx,
        idx < length ==> r < length,
{
    if length == 0 || k >= idx {
        return 0;
    }
    idx - k
}

/// The whole seconds that a duration holds.
pub uninterp spec fn whole_seconds(d: Duration) -> u64;

/// `Duration::as_secs`: the number of whole seconds in the duration.
pub assume_specification[ Duration::as_secs ](d: &Duration) -> (secs: u64)
    ensures
        secs == whole_seconds(*d),
;

/// `String::push`: appends one character.
#[verifier::external_body]
pub(crate) fn push_char(s: &mut String, c: char)
    ensures
        final(s)@ == old(s)@.push(c),
{
    s.push(c)
}

/// `String::pop`: removes the last character and returns it, or returns
/// nothing and leaves the string as it is when it is empty.
#[verifier::external_body]
pub(crate) fn pop_char(s: &mut String) -> (c: Option<char>)
    ensures
        old(s)@.len() == 0 ==> c is None && final(s)@ == old(s)@,
        old(s)@.len() > 0 ==> c == Some(old(s)@.last()) && final(s)@ == old(s)@.drop_last(),
{
    s.pop()
}

/// The character that writes a decimal digit.
pub open spec fn digit(d: int) -> char {
    if d == 0 {
        '0'
    } else if d == 1 {
        '1'
    } else if d == 2 {
        '2'
    } else if d == 3 {
        '3'
    } else if d == 4 {
        '4'
    } else if d == 5 {
        '5'
    } else if d == 6 {
        '6'
    } else if d == 7 {
        '7'
    } else if d == 8 {
        '8'
    } else {
        '9'
    }
}

/// A number in decimal, without leading zeros.
pub open spec fn decimal(n: nat) -> Seq<char>
    decreases n,
{
    if n < 10 {
        seq![digit(n as int)]
    } else {
        decimal(n / 10).push(digit((n % 10) as int))
    }
}

/// A number below one hundred in two decimal digits.
pub open spec fn two_digits(n: nat) -> Seq<char> {
    seq![digit((n / 10) as int), digit((n % 10) as int)]
}

/// A number of seconds as `m:ss`, or as `h:mm:ss` from one hour on.
pub open spec fn time_text(total: nat) -> Seq<char> {
    let m = total / 60;
    let s = total % 60;
    if m > 59 {
        decimal(m / 60) + seq![':'] + two_digits(m % 60) + seq![':'] + two_digits(s)
    } else {
        decimal(m) + seq![':'] + two_digits(s)
    }
}

fn digit_char(d: u64) -> (c: char)
    requires
        d < 10,
    ensures
        c == digit(d as int),
{
    if d == 0 {
        '0'
    } else if d == 1 {
        '1'
    } else if d == 2 {
        '2'
    } else if d == 3 {
        '3'
    } else if d == 4 {
        '4'
    } else if d == 5 {
        '5'
    } else if d == 6 {
        '6'
    } else if d == 7 {
        '7'
    } else if d == 8 {
        '8'
    } else {
        '9'
    }
}

fn push_decimal(out: &mut String, n: u64)
    ensures
        final(out)@ == old(out)@ + decimal(n as nat),
    decreases n,
{
    if n >= 10 {
        push_decimal(out, n / 10);
    }
    push_char(out, digit_char(n % 10));
    assert(final(out)@ =~= old(out)@ + decimal(n as nat));
}

fn push_two_digits(out: &mut String, n: u64)
    requires
        n < 100,
    ensures
        final(out)@ == old(out)@ + two_digits(n as nat),
{
    push_char(out, digit_char(n / 10));
    push_char(out, digit_char(n % 10));
    assert(final(out)@ =~= old(out)@ + two_digits(n as nat));
}

/// Writes a number of seconds as a time of day would be written.
pub fn format_seconds(total: u64) -> (text: String)
    ensures
        text@ == time_text(total as nat),
{
    let m = total / 60;
    let s = total % 60;
    let mut out = String::new();
    if m > 59 {
        push_decimal(&mut out, m / 60);
        push_char(&mut out, ':');
        push_two_digits(&mut out, m % 60);
    } else {
        push_decimal(&mut out, m);
    }
    push_char(&mut out, ':');
    push_two_digits(&mut out, s);
    assert(out@ =~= time_text(total as nat));
    out
}

/// Writes a duration as `m:ss`, or as `h:mm:ss` from one hour on.
pub fn format_time(d: Duration) -> (text: String)
    ensures
        text@ == time_text(whole_seconds(d) as nat),
{
    format_seconds(d.as_secs())
}

/// The progress line of a status: elapsed time, a slash, and the length of
/// the song; empty where either is unknown.
pub open spec fn progress_text(s: Status) -> Seq<char> {
    match (s.elapsed, s.duration) {
        (Some(e), Some(d)) => time_text(whole_seconds(e) as nat) + seq!['/'] + time_text(
            whole_seconds(d) as nat,
        ),
        _ => Seq::empty(),
    }
}

pub fn format_progress(s: &Status) -> (text: String)
    ensures
        text@ == progress_text(*s),
{
    let mut out = String::new();
    match (s.elapsed, s.duration) {
        (Some(e), Some(d)) => {
            let elapsed = format_time(e);
            let total = format_time(d);
            out.append(elapsed.as_str());
            push_char(&mut out, '/');
            out.append(total.as_str());
            assert(out@ =~= progress_text(*s));
        },
        _ => {},
    }
    out
}

/// The key of the tag that names a song's album.
pub open spec fn album_key() -> Seq<char> {
    "Album"@
}

/// The value of the first tag whose key is `Album`.
pub open spec fn album_of(tags: Seq<(Seq<char>, Seq<char>)>) -> Option<Seq<char>>
    decreases tags.len(),
{
    if tags.len() == 0 {
        None
    } else if tags[0].0 == album_key() {
        Some(tags[0].1)
    } else {
        album_of(tags.drop_first())
    }
}

/// The album of a song, where a tag names it.
pub fn song_album(s: &Song) -> (album: Option<&String>)
    ensures
        match album {
            Some(a) => album_of(s@.tags) == Some(a@),
            None => album_of(s@.tags) is None,
        },
{
    let key = String::from_str("Album");
    let ghost tags = s@.tags;
    let mut i: usize = 0;
    assert(tags.skip(0) =~= tags);
    while i < s.tags.len()
        invariant
            i <= s.tags.len(),
            tags == s@.tags,
            key@ == album_key(),
            album_of(tags) == album_of(tags.skip(i as int)),
        decreases s.tags.len() - i,
    {
        let ghost rest = tags.skip(i as int);
        assert(rest[0] == tags[i as int]);
        assert(tags[i as int] == (s.tags[i as int].0@, s.tags[i as int].1@));
        if s.tags[i].0 == key {
            return Some(&s.tags[i].1);
        }
        assert(rest.drop_first() =~= tags.skip(i + 1));
        i += 1;
    }
    assert(tags.skip(i as int).len() == 0);
    None
}

/// The text by which a song is searched for: its title, then its artist and
/// its album, each after a space, as far as they are known.
pub open spec fn song_text(song: SongView) -> Seq<char> {
    let title = match song.title {
        Some(t) => t,
        None => Seq::empty(),
    };
    let artist = match song.artist {
        Some(a) => seq![' '] + a,
        None => Seq::empty(),
    };
    let album = match album_of(song.tags) {
        Some(a) => seq![' '] + a,
        None => Seq::empty(),
    };
    title + artist + album
}

pub fn song_to_str(song: &Song) -> (out: String)
    ensures
        out@ == song_text(song@),
{
    let mut out = String::new();
    if let Some(title) = &song.title {
        out.append(title.as_str());
    }
    if let Some(artist) = &song.artist {
        push_char(&mut out, ' ');
        out.append(artist.as_str());
    }
    if let Some(album) = song_album(song) {
        push_char(&mut out, ' ');
        out.append(album.as_str());
    }
    assert(out@ =~= song_text(song@));
    out
}

} // verus!
