use inori::model::proto::{Searchable, Selector};
use inori::model::search::{
    all_rows, rank_matches, score_rows, update_filter, Match, Scorer, MAX_HAYSTACK_BYTES,
    MAX_PREFIX_HAYSTACK_BYTES, MAX_QUERY_LEN,
};
use inori::model::selectors::{ArtistData, GlobalSearchState, QueueSelector};
use inori::model::{InfoEntry, KeyCode, KeyEvent, Message, QueueItem, QueuePlace, SearchMsg, Song};
use inori::update::handlers::{handle_search_k, handle_search_k_tracksel};

fn key(c: char) -> KeyEvent {
    KeyEvent { code: KeyCode::Char(c), control: false }
}

fn ctrl(c: char) -> KeyEvent {
    KeyEvent { code: KeyCode::Char(c), control: true }
}

fn plain(code: KeyCode) -> KeyEvent {
    KeyEvent { code, control: false }
}

fn queue_titled(titles: &[&str]) -> QueueSelector {
    let items = titles
        .iter()
        .enumerate()
        .map(|(i, t)| QueueItem {
            song: Song { title: Some(t.to_string()), artist: None, duration: None, tags: vec![] },
            place: Some(QueuePlace { id: i as u32, pos: i as u32, prio: 0 }),
        })
        .collect();
    QueueSelector::new(items)
}

fn entry(artist: &str, album: Option<&str>, title: Option<&str>) -> InfoEntry {
    InfoEntry {
        artist: artist.to_string(),
        artist_sort: None,
        album: album.map(|s| s.to_string()),
        title: title.map(|s| s.to_string()),
        rank: None,
    }
}

fn rows(matches: &[Match]) -> Vec<usize> {
    matches.iter().map(|m| m.position).collect()
}

#[test]
fn rank_matches_orders_by_score_then_place() {
    let results = vec![
        Some((10, vec![0])),
        None,
        Some((30, vec![1, 2])),
        Some((10, vec![3])),
        Some((30, vec![4])),
        Some((20, vec![])),
    ];
    let ranked = rank_matches(&results, None);
    assert_eq!(rows(&ranked), vec![2, 4, 5, 0, 3]);
    assert_eq!(ranked[0].offsets, vec![1, 2]);
    assert_eq!(ranked[1].offsets, vec![4]);
    assert_eq!(ranked[2].offsets, Vec::<u32>::new());
    assert_eq!(ranked[3].offsets, vec![0]);
    assert_eq!(ranked[4].offsets, vec![3]);
}

#[test]
fn rank_matches_cuts_after_top_k() {
    let results = vec![Some((1, vec![])), Some((5, vec![])), Some((3, vec![])), None];
    assert_eq!(rows(&rank_matches(&results, Some(2))), vec![1, 2]);
    assert_eq!(rows(&rank_matches(&results, Some(0))), Vec::<usize>::new());
    assert_eq!(rows(&rank_matches(&results, Some(3))), vec![1, 2, 0]);
    assert_eq!(rows(&rank_matches(&results, Some(10))), vec![1, 2, 0]);
}

#[test]
fn rank_matches_of_nothing_is_empty() {
    assert_eq!(rank_matches(&vec![], None), vec![]);
    assert_eq!(rank_matches(&vec![None, None], Some(3)), vec![]);
}

#[test]
fn all_rows_marks_nothing() {
    let rows = all_rows(3);
    assert_eq!(
        rows,
        vec![
            Match { position: 0, offsets: vec![] },
            Match { position: 1, offsets: vec![] },
            Match { position: 2, offsets: vec![] },
        ]
    );
}

#[test]
fn scorer_finds_matched_offsets() {
    let mut m = Scorer::new(false);
    assert_eq!(m.score("xyz", "hello world"), None);
    let (score, offsets) = m.score("hw", "hello world").unwrap();
    assert!(score > 0);
    assert_eq!(offsets, vec![0, 6]);
    let (_, exact) = m.score("world", "hello world").unwrap();
    assert_eq!(exact, vec![6, 7, 8, 9, 10]);
}

#[test]
fn scorer_prefers_prefix_when_asked() {
    let mut plain = Scorer::new(false);
    let mut prefix = Scorer::new(true);
    let late = plain.score("ab", "xxxxxxxx ab").unwrap().0;
    let early = plain.score("ab", "ab xxxxxxxx").unwrap().0;
    let late_p = prefix.score("ab", "xxxxxxxx ab").unwrap().0;
    let early_p = prefix.score("ab", "ab xxxxxxxx").unwrap().0;
    assert_eq!(late, early);
    assert!(early_p > late_p);
}

#[test]
fn score_rows_scores_each_row() {
    let q = queue_titled(&["alpha", "beta", "alphabet"]);
    let mut m = Scorer::new(false);
    let results = score_rows(&q, &mut m, "alp");
    assert_eq!(results.len(), 3);
    assert!(results[0].is_some());
    assert!(results[1].is_none());
    assert!(results[2].is_some());
    assert_eq!(results[0].as_ref().unwrap().1, vec![0, 1, 2]);
}

#[test]
fn empty_query_finds_every_row_in_order() {
    let mut q = queue_titled(&["b", "a", "c", "d"]);
    let mut m = Scorer::new(false);
    update_filter(&mut q, &mut m, Some(2));
    assert_eq!(q.search.cache.matched_indices, all_rows(4));
    update_filter(&mut q, &mut m, None);
    assert_eq!(q.search.cache.matched_indices, all_rows(4));
}

#[test]
fn update_filter_on_empty_list_finds_nothing() {
    let mut q = queue_titled(&[]);
    let mut m = Scorer::new(false);
    q.search.query = "abc".to_string();
    update_filter(&mut q, &mut m, Some(5));
    assert_eq!(q.search.cache.matched_indices, vec![]);
    q.search.query = String::new();
    update_filter(&mut q, &mut m, None);
    assert_eq!(q.search.cache.matched_indices, vec![]);
}

#[test]
fn update_filter_ranks_best_match_first() {
    let mut q = queue_titled(&["txxixxp", "tip", "nothing", "tip"]);
    let mut m = Scorer::new(false);
    q.search.query = "tip".to_string();
    update_filter(&mut q, &mut m, None);
    let found = &q.search.cache.matched_indices;
    assert_eq!(rows(found), vec![1, 3, 0]);
    assert_eq!(found[0].offsets, vec![0, 1, 2]);
    assert_eq!(found[2].offsets, vec![0, 3, 6]);
    update_filter(&mut q, &mut m, Some(2));
    assert_eq!(rows(&q.search.cache.matched_indices), vec![1, 3]);
    assert_eq!(q.search.query, "tip");
    assert_eq!(q.contents.len(), 4);
}

#[test]
fn update_filter_twice_gives_the_same_cache() {
    let mut q = queue_titled(&["one", "two", "three", "twenty one", "none"]);
    let mut m = Scorer::new(false);
    q.search.query = "one".to_string();
    update_filter(&mut q, &mut m, Some(3));
    let first = q.search.cache.clone();
    update_filter(&mut q, &mut m, Some(3));
    assert_eq!(q.search.cache, first);
    let mut other = Scorer::new(false);
    let _ = other.score("zzz", "some other text that was matched before");
    update_filter(&mut q, &mut other, Some(3));
    assert_eq!(q.search.cache, first);
}

#[test]
fn search_keys_edit_query_and_filter() {
    let mut q = queue_titled(&["alpha", "beta", "gamma", "alphabet"]);
    let mut m = Scorer::new(false);
    q.set_selected(Some(3));
    assert_eq!(handle_search_k(&mut q, key('a'), &mut m, 10), None);
    assert_eq!(handle_search_k(&mut q, key('l'), &mut m, 10), None);
    assert_eq!(q.search.query, "al");
    assert_eq!(rows(&q.search.cache.matched_indices), vec![0, 3]);
    assert_eq!(q.len(), 2);
    assert_eq!(q.selected(), Some(1));
    assert_eq!(handle_search_k(&mut q, plain(KeyCode::Backspace), &mut m, 10), None);
    assert_eq!(q.search.query, "a");
    assert_eq!(q.len(), 4);
    assert_eq!(handle_search_k(&mut q, ctrl('u'), &mut m, 10), None);
    assert_eq!(q.search.query, "");
    assert_eq!(q.search.cache.matched_indices, all_rows(4));
    assert_eq!(handle_search_k(&mut q, plain(KeyCode::Backspace), &mut m, 10), None);
    assert_eq!(q.search.query, "");
}

#[test]
fn search_keys_cut_to_top_k() {
    let mut q = queue_titled(&["aa", "ab", "ac", "ad"]);
    let mut m = Scorer::new(false);
    assert_eq!(handle_search_k(&mut q, key('a'), &mut m, 2), None);
    assert_eq!(rows(&q.search.cache.matched_indices), vec![0, 1]);
}

#[test]
fn search_keys_move_selection_with_control() {
    let mut q = queue_titled(&["alpha", "beta", "gamma"]);
    let mut m = Scorer::new(false);
    assert_eq!(handle_search_k(&mut q, ctrl('n'), &mut m, 10), None);
    assert_eq!(q.selected(), Some(0));
    assert_eq!(handle_search_k(&mut q, ctrl('n'), &mut m, 10), None);
    assert_eq!(q.selected(), Some(1));
    assert_eq!(handle_search_k(&mut q, ctrl('p'), &mut m, 10), None);
    assert_eq!(q.selected(), Some(0));
    assert_eq!(handle_search_k(&mut q, ctrl('x'), &mut m, 10), None);
    assert_eq!(q.selected(), Some(0));
    assert_eq!(q.search.query, "");
}

#[test]
fn search_keys_hand_back_messages() {
    let mut q = queue_titled(&["alpha", "beta"]);
    let mut m = Scorer::new(false);
    q.search.query = "be".to_string();
    assert_eq!(
        handle_search_k(&mut q, plain(KeyCode::Tab), &mut m, 10),
        Some(Message::ToggleScreen)
    );
    assert_eq!(
        handle_search_k(&mut q, plain(KeyCode::Esc), &mut m, 10),
        Some(Message::LocalSearch(SearchMsg::End))
    );
    assert_eq!(handle_search_k(&mut q, plain(KeyCode::Enter), &mut m, 10), Some(Message::Select));
    assert_eq!(q.search.query, "be");
    assert_eq!(q.search.cache.matched_indices, all_rows(2));
    assert_eq!(handle_search_k(&mut q, plain(KeyCode::Other), &mut m, 10), None);
    assert_eq!(rows(&q.search.cache.matched_indices), vec![1]);
}

#[test]
fn global_search_selected_item_follows_cache() {
    let mut g = GlobalSearchState::new(vec![
        entry("Abba", Some("Arrival"), Some("Dancing Queen")),
        entry("Beatles", Some("Help!"), None),
        entry("Cream", None, None),
    ]);
    let mut m = Scorer::new(false);
    for c in "help".chars() {
        handle_search_k(&mut g, key(c), &mut m, 24);
    }
    assert_eq!(g.len(), 1);
    g.set_selected(Some(0));
    assert_eq!(g.selected_item().map(|e| e.artist.as_str()), Some("Beatles"));
    assert_eq!(g.search.cache.matched_indices[0].offsets, vec![8, 9, 10, 11]);
    g.set_selected(Some(1));
    assert_eq!(g.selected_item(), None);
}

#[test]
fn info_entry_search_string() {
    let mut e = entry("Abba", Some("Arrival"), Some("Dancing Queen"));
    assert_eq!(e.to_search_string(), "Abba/Arrival/Dancing Queen");
    e.artist_sort = Some("Abba".to_string());
    assert_eq!(e.to_search_string(), "Abba/Arrival/Dancing Queen");
    e.artist_sort = Some("ABBA, The".to_string());
    assert_eq!(e.to_search_string(), "Abba (ABBA, The)/Arrival/Dancing Queen");
    assert_eq!(entry("Cream", None, None).to_search_string(), "Cream");
    assert_eq!(entry("Cream", None, Some("Badge")).to_search_string(), "Cream/Badge");
}

fn three_tracks() -> ArtistData {
    let mut a = ArtistData::new(
        "Abba".to_string(),
        vec![
            entry("Abba", Some("Arrival"), Some("A")),
            entry("Abba", Some("Arrival"), Some("B")),
            entry("Abba", Some("Arrival"), Some("C")),
        ],
    );
    let mut m = Scorer::new(false);
    a.update_search(&mut m);
    a
}

#[test]
fn update_search_ranks_every_track_for_empty_query() {
    let a = three_tracks();
    let ranks: Vec<Option<usize>> = a.contents.iter().map(|e| e.rank).collect();
    assert_eq!(ranks, vec![Some(0), Some(1), Some(2)]);
    assert_eq!(a.len(), 3);
}

#[test]
fn update_search_ranks_matches_only() {
    let mut a = ArtistData::new(
        "X".to_string(),
        vec![
            entry("X", Some("txxixxp"), None),
            entry("X", Some("none"), None),
            entry("X", Some("tip"), None),
        ],
    );
    let mut m = Scorer::new(false);
    a.search.query = "tip".to_string();
    a.update_search(&mut m);
    let ranks: Vec<Option<usize>> = a.contents.iter().map(|e| e.rank).collect();
    assert_eq!(ranks, vec![Some(1), None, Some(0)]);
    assert_eq!(rows(&a.search.cache.matched_indices), vec![2, 0]);
    assert_eq!(a.len(), 3);
    a.search.query = "zzz".to_string();
    a.update_search(&mut m);
    let ranks: Vec<Option<usize>> = a.contents.iter().map(|e| e.rank).collect();
    assert_eq!(ranks, vec![None, None, None]);
}

#[test]
fn rank_navigation_steps_between_matches() {
    let mut a = three_tracks();
    let mut m = Scorer::new(false);
    a.set_selected(Some(1));
    assert_eq!(handle_search_k_tracksel(&mut a, ctrl('n'), &mut m), None);
    assert_eq!(a.selected(), Some(2));
    assert_eq!(handle_search_k_tracksel(&mut a, ctrl('n'), &mut m), None);
    assert_eq!(a.selected(), Some(2));
    a.set_selected(Some(0));
    assert_eq!(handle_search_k_tracksel(&mut a, ctrl('p'), &mut m), None);
    assert_eq!(a.selected(), Some(0));
    a.set_selected(Some(2));
    assert_eq!(handle_search_k_tracksel(&mut a, ctrl('p'), &mut m), None);
    assert_eq!(a.selected(), Some(1));
}

#[test]
fn rank_navigation_follows_rank_not_place() {
    let mut a = ArtistData::new(
        "X".to_string(),
        vec![
            entry("X", Some("txxixxp"), None),
            entry("X", Some("none"), None),
            entry("X", Some("tip"), None),
        ],
    );
    let mut m = Scorer::new(false);
    for c in "tip".chars() {
        assert_eq!(handle_search_k_tracksel(&mut a, key(c), &mut m), None);
    }
    a.set_selected(Some(2));
    assert_eq!(handle_search_k_tracksel(&mut a, ctrl('n'), &mut m), None);
    assert_eq!(a.selected(), Some(0));
    assert_eq!(handle_search_k_tracksel(&mut a, ctrl('n'), &mut m), None);
    assert_eq!(a.selected(), Some(0));
    assert_eq!(handle_search_k_tracksel(&mut a, ctrl('p'), &mut m), None);
    assert_eq!(a.selected(), Some(2));
    a.set_selected(Some(1));
    assert_eq!(handle_search_k_tracksel(&mut a, ctrl('n'), &mut m), None);
    assert_eq!(a.selected(), Some(1));
}

#[test]
fn tracksel_keys_edit_query_and_hand_back_messages() {
    let mut a = three_tracks();
    let mut m = Scorer::new(false);
    assert_eq!(handle_search_k_tracksel(&mut a, key('b'), &mut m), None);
    assert_eq!(a.search.query, "b");
    assert_eq!(handle_search_k_tracksel(&mut a, plain(KeyCode::Backspace), &mut m), None);
    assert_eq!(a.search.query, "");
    assert_eq!(handle_search_k_tracksel(&mut a, key('c'), &mut m), None);
    assert_eq!(
        handle_search_k_tracksel(&mut a, plain(KeyCode::Esc), &mut m),
        Some(Message::LocalSearch(SearchMsg::End))
    );
    assert_eq!(
        handle_search_k_tracksel(&mut a, plain(KeyCode::Enter), &mut m),
        Some(Message::Select)
    );
    assert_eq!(a.search.query, "c");
    assert_eq!(handle_search_k_tracksel(&mut a, plain(KeyCode::Tab), &mut m), None);
    assert_eq!(a.search.query, "c");
    assert_eq!(handle_search_k_tracksel(&mut a, ctrl('u'), &mut m), None);
    assert_eq!(a.search.query, "");
    let ranks: Vec<Option<usize>> = a.contents.iter().map(|e| e.rank).collect();
    assert_eq!(ranks, vec![Some(0), Some(1), Some(2)]);
}

#[test]
fn query_longer_than_the_matcher_takes_matches_nothing() {
    assert_eq!(MAX_QUERY_LEN, 2048);
    let mut m = Scorer::new(false);
    let long = "a".repeat(2521);
    assert_eq!(m.score(&long, &long), None);
    let over = "a".repeat(MAX_QUERY_LEN + 1);
    assert_eq!(m.score(&over, &over), None);
    let mut p = Scorer::new(true);
    assert_eq!(p.score(&long, &long), None);
}

#[test]
fn longest_query_is_scored() {
    let mut m = Scorer::new(true);
    let most = "a".repeat(MAX_QUERY_LEN);
    let (score, offsets) = m.score(&most, &most).unwrap();
    assert!(score > 50_000);
    assert_eq!(offsets.len(), MAX_QUERY_LEN);
    let longer = "a".repeat(3 * MAX_QUERY_LEN);
    assert!(m.score(&most, &longer).is_some());
    let words = "ab ".repeat(600);
    assert!(m.score(&words, "xx ab yy").is_some());
}

#[test]
fn filter_with_too_long_query_finds_nothing() {
    let mut q = queue_titled(&["aaa", "bbb"]);
    let mut m = Scorer::new(false);
    q.search.query = "a".repeat(3000);
    update_filter(&mut q, &mut m, None);
    assert_eq!(q.search.cache.matched_indices, vec![]);
}

#[test]
fn prefix_matcher_takes_rows_up_to_its_limit() {
    assert_eq!(MAX_PREFIX_HAYSTACK_BYTES, 21_846);
    let mut p = Scorer::new(true);
    let late = "x".repeat(MAX_PREFIX_HAYSTACK_BYTES - 2) + "ab";
    assert_eq!(late.len(), MAX_PREFIX_HAYSTACK_BYTES);
    let (_, offsets) = p.score("ab", &late).unwrap();
    assert_eq!(offsets, vec![21_844, 21_845]);
    let (_, last) = p.score("b", &late).unwrap();
    assert_eq!(last, vec![21_845]);
    assert!(p.score("'ab", &late).is_some());
    assert!(p.score("ab$", &late).is_some());
}

#[test]
fn prefix_matcher_matches_no_longer_row() {
    let mut p = Scorer::new(true);
    let over = "x".repeat(MAX_PREFIX_HAYSTACK_BYTES - 1) + "ab";
    assert_eq!(p.score("ab", &over), None);
    let far = "x".repeat(21_846) + "ab";
    assert_eq!(p.score("ab", &far), None);
    assert_eq!(p.score("'ab", &far), None);
    assert_eq!(p.score("ab$", &far), None);
    let mut plain = Scorer::new(false);
    let (_, offsets) = plain.score("ab", &far).unwrap();
    assert_eq!(offsets, vec![21_846, 21_847]);
}

#[test]
fn rows_are_measured_in_bytes() {
    let mut p = Scorer::new(true);
    let marked = "x\u{301}".repeat(7_000) + "ab";
    assert_eq!(marked.len(), 21_002);
    assert!(p.score("ab", &marked).is_some());
    let longer = "x\u{301}".repeat(7_300) + "ab";
    assert_eq!(longer.chars().count(), 14_602);
    assert_eq!(p.score("ab", &longer), None);
    let wide = "\u{e9}".repeat(10_922) + "ab";
    assert_eq!(wide.len(), MAX_PREFIX_HAYSTACK_BYTES);
    assert!(p.score("ab", &wide).is_some());
}

#[test]
fn no_matcher_takes_rows_over_the_general_limit() {
    assert_eq!(MAX_HAYSTACK_BYTES, 2_097_151);
    let mut plain = Scorer::new(false);
    let most = "x".repeat(MAX_HAYSTACK_BYTES - 2) + "ab";
    assert!(plain.score("ab", &most).is_some());
    let over = "x".repeat(MAX_HAYSTACK_BYTES - 1) + "ab";
    assert_eq!(plain.score("ab", &over), None);
}
