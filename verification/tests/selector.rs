use song_resolver::model::{RawCandidate, ReleaseInfo};
use song_resolver::selector::{
    first_tagged_candidate, oldest_release, select_metadata, SelectError, Selection,
};

fn release(title: &str, date: Option<&str>) -> ReleaseInfo {
    ReleaseInfo { title: title.to_string(), date: date.map(|d| d.to_string()) }
}

fn candidate(
    title: &str,
    duration_ms: Option<i32>,
    releases: Vec<ReleaseInfo>,
    tags: &[&str],
) -> RawCandidate {
    RawCandidate {
        external_id: format!("id-{}", title),
        title: title.to_string(),
        duration_ms,
        releases,
        tags: tags.iter().map(|t| t.to_string()).collect(),
    }
}

fn chosen(candidates: Vec<RawCandidate>) -> Selection {
    select_metadata(&candidates).expect("a selection")
}

#[test]
fn no_candidates_are_refused() {
    assert_eq!(select_metadata(&Vec::new()), Err(SelectError::NoCandidates));
}

#[test]
fn the_oldest_release_wins() {
    let releases = vec![
        release("Reissue", Some("2005")),
        release("First pressing", Some("1991")),
        release("Remaster", Some("1998")),
    ];
    let selection = chosen(vec![candidate("song", None, releases, &[])]);
    assert_eq!(selection.year, Some(1991));
    assert_eq!(selection.album, "First pressing");
}

#[test]
fn the_oldest_release_wins_in_any_order() {
    let dated = [("Reissue", "2005"), ("First pressing", "1991"), ("Remaster", "1998")];
    let orders: [[usize; 3]; 6] =
        [[0, 1, 2], [0, 2, 1], [1, 0, 2], [1, 2, 0], [2, 0, 1], [2, 1, 0]];
    for order in orders {
        let releases = order.iter().map(|&i| release(dated[i].0, Some(dated[i].1))).collect();
        let selection = chosen(vec![candidate("song", None, releases, &[])]);
        assert_eq!(selection.year, Some(1991), "{:?}", order);
        assert_eq!(selection.album, "First pressing", "{:?}", order);
    }
}

#[test]
fn full_dates_are_compared_by_year() {
    let releases = vec![
        release("Later", Some("1992-01-01")),
        release("Earlier", Some("1991-12-31")),
    ];
    let selection = chosen(vec![candidate("song", None, releases, &[])]);
    assert_eq!(selection.year, Some(1991));
    assert_eq!(selection.album, "Earlier");
}

#[test]
fn of_two_releases_of_one_year_the_first_wins() {
    let releases = vec![
        release("Late", Some("1999")),
        release("First of 1991", Some("1991-09")),
        release("Second of 1991", Some("1991-01")),
    ];
    let selection = chosen(vec![candidate("song", None, releases, &[])]);
    assert_eq!(selection.year, Some(1991));
    assert_eq!(selection.album, "First of 1991");
}

#[test]
fn any_year_beats_no_year() {
    let releases = vec![
        release("Undated", None),
        release("Unreadable", Some("sometime")),
        release("Dated", Some("2010-05")),
    ];
    let selection = chosen(vec![candidate("song", None, releases, &[])]);
    assert_eq!(selection.year, Some(2010));
    assert_eq!(selection.album, "Dated");
}

#[test]
fn without_dates_the_first_release_is_taken() {
    let releases = vec![
        release("First", None),
        release("Second", Some("")),
        release("Third", Some("91")),
    ];
    let selection = chosen(vec![candidate("song", None, releases, &[])]);
    assert_eq!(selection.album, "First");
    assert_eq!(selection.year, None);
}

#[test]
fn without_releases_the_album_is_unknown() {
    let selection = chosen(vec![candidate("song", Some(1), Vec::new(), &["Rock"])]);
    assert_eq!(selection.album, "Unknown");
    assert_eq!(selection.year, None);
}

#[test]
fn album_and_year_come_from_the_first_candidate_only() {
    let first = candidate("song", None, Vec::new(), &[]);
    let second = candidate("song", None, vec![release("Elsewhere", Some("1980"))], &[]);
    let selection = chosen(vec![first, second]);
    assert_eq!(selection.album, "Unknown");
    assert_eq!(selection.year, None);
}

#[test]
fn the_duration_is_that_of_the_first_candidate() {
    let first = candidate("song", Some(301000), Vec::new(), &[]);
    let second = candidate("song", Some(5), Vec::new(), &[]);
    assert_eq!(chosen(vec![first, second]).duration_ms, Some(301000));
    let first = candidate("song", None, Vec::new(), &[]);
    let second = candidate("song", Some(5), Vec::new(), &[]);
    assert_eq!(chosen(vec![first, second]).duration_ms, None);
}

#[test]
fn the_genre_is_the_first_tag_of_the_first_candidate() {
    let first = candidate("song", None, Vec::new(), &["Grunge", "Rock"]);
    let second = candidate("song", None, Vec::new(), &["Pop"]);
    assert_eq!(chosen(vec![first, second]).genre, "Grunge");
}

#[test]
fn the_genre_falls_back_to_a_later_candidate() {
    let candidates = vec![
        candidate("song", None, Vec::new(), &[]),
        candidate("song", None, Vec::new(), &[]),
        candidate("song", None, Vec::new(), &["Grunge"]),
    ];
    assert_eq!(chosen(candidates).genre, "Grunge");
}

#[test]
fn the_genre_falls_back_to_the_first_candidate_with_a_tag() {
    let candidates = vec![
        candidate("song", None, Vec::new(), &[]),
        candidate("song", None, Vec::new(), &["Alternative", "Rock"]),
        candidate("song", None, Vec::new(), &["Grunge"]),
    ];
    assert_eq!(chosen(candidates).genre, "Alternative");
}

#[test]
fn without_tags_the_genre_is_unknown() {
    let candidates =
        vec![candidate("song", None, Vec::new(), &[]), candidate("other", None, Vec::new(), &[])];
    assert_eq!(chosen(candidates).genre, "Unknown");
}

#[test]
fn a_whole_selection() {
    let releases = vec![
        release("Nevermind (Deluxe)", Some("2011-09-26")),
        release("Nevermind", Some("1991-09-24")),
    ];
    let candidates = vec![
        candidate("Smells Like Teen Spirit", Some(301920), releases, &[]),
        candidate("Smells Like Teen Spirit", Some(1), Vec::new(), &["grunge"]),
    ];
    assert_eq!(
        select_metadata(&candidates),
        Ok(Selection {
            album: "Nevermind".to_string(),
            year: Some(1991),
            duration_ms: Some(301920),
            genre: "grunge".to_string(),
        })
    );
}

#[test]
fn the_place_of_the_oldest_release() {
    assert_eq!(oldest_release(&Vec::new()), None);
    assert_eq!(oldest_release(&vec![release("a", None), release("b", Some("x"))]), None);
    let releases = vec![
        release("a", None),
        release("b", Some("2001")),
        release("c", Some("1999-01")),
        release("d", Some("1999")),
    ];
    assert_eq!(oldest_release(&releases), Some(2));
}

#[test]
fn the_place_of_the_first_candidate_with_a_tag() {
    assert_eq!(first_tagged_candidate(&Vec::new()), None);
    let candidates = vec![
        candidate("a", None, Vec::new(), &[]),
        candidate("b", None, Vec::new(), &["x"]),
        candidate("c", None, Vec::new(), &["y"]),
    ];
    assert_eq!(first_tagged_candidate(&candidates), Some(1));
}
