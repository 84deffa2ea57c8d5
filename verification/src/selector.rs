//! Choosing one album, year, duration and genre from a catalog's candidates.
//!
//! Album, year and duration come from the first candidate. The album is the
//! title of the release with the least year, the first of them where several
//! share it; without any dated release it is the title of the first release.
//! The genre is the first tag of the first candidate that has a tag.

use vstd::prelude::*;
use vstd::string::StringExecFns;
use crate::model::{
    candidate_models, release_models, CandidateModel, RawCandidate, ReleaseInfo, ReleaseModel,
};
use crate::year::{extract_year, lemma_year_by_shape, year_of};

verus! {

/// The year that a release is dated with, if its date has one.
pub open spec fn release_year(release: ReleaseModel) -> Option<i32> {
    match release.date {
        Some(date) => year_of(date),
        None => None,
    }
}

/// Whether `i` is the place of a release with a year.
pub open spec fn is_dated(releases: Seq<ReleaseModel>, i: int) -> bool {
    0 <= i < releases.len() && release_year(releases[i]) is Some
}

/// Whether any release has a year.
pub open spec fn has_dated(releases: Seq<ReleaseModel>) -> bool {
    exists|i: int| is_dated(releases, i)
}

/// Whether `i` is the place of the oldest release: no release has a lesser
/// year, and every release before it has a greater one.
pub open spec fn is_oldest(releases: Seq<ReleaseModel>, i: int) -> bool {
    &&& is_dated(releases, i)
    &&& forall|j: int| #[trigger]
        is_dated(releases, j) ==> release_year(releases[i])->0 <= release_year(releases[j])->0
    &&& forall|j: int| #[trigger]
        is_dated(releases, j) && j < i ==> release_year(releases[i])->0 < release_year(
            releases[j],
        )->0
}

/// The place of the oldest release, where a release has a year.
pub open spec fn oldest(releases: Seq<ReleaseModel>) -> int
    recommends
        has_dated(releases),
{
    choose|i: int| is_oldest(releases, i)
}

/// The year that is chosen: that of the oldest release.
pub open spec fn chosen_year(releases: Seq<ReleaseModel>) -> Option<i32> {
    if has_dated(releases) {
        release_year(releases[oldest(releases)])
    } else {
        None
    }
}

/// The album that is chosen: the title of the oldest release, else that of the
/// first release, else `Unknown`.
pub open spec fn chosen_album(releases: Seq<ReleaseModel>) -> Seq<char> {
    if has_dated(releases) {
        releases[oldest(releases)].title
    } else if releases.len() > 0 {
        releases[0].title
    } else {
        "Unknown"@
    }
}

/// Whether `i` is the place of a candidate with a tag.
pub open spec fn is_tagged(candidates: Seq<CandidateModel>, i: int) -> bool {
    0 <= i < candidates.len() && candidates[i].tags.len() > 0
}

/// Whether any candidate has a tag.
pub open spec fn has_tagged(candidates: Seq<CandidateModel>) -> bool {
    exists|i: int| is_tagged(candidates, i)
}

/// Whether `i` is the place of the first candidate with a tag.
pub open spec fn is_first_tagged(candidates: Seq<CandidateModel>, i: int) -> bool {
    &&& is_tagged(candidates, i)
    &&& forall|j: int| #[trigger] is_tagged(candidates, j) ==> i <= j
}

/// The place of the first candidate with a tag, where there is one.
pub open spec fn first_tagged(candidates: Seq<CandidateModel>) -> int
    recommends
        has_tagged(candidates),
{
    choose|i: int| is_first_tagged(candidates, i)
}

/// The genre that is chosen: the first tag of the first candidate with a tag,
/// else `Unknown`.
pub open spec fn chosen_genre(candidates: Seq<CandidateModel>) -> Seq<char> {
    if has_tagged(candidates) {
        candidates[first_tagged(candidates)].tags[0]
    } else {
        "Unknown"@
    }
}

/// What is chosen from a list of candidates.
#[derive(Debug, PartialEq, Eq)]
pub struct Selection {
    pub album: String,
    pub year: Option<i32>,
    pub duration_ms: Option<i32>,
    pub genre: String,
}

/// The value of a [`Selection`].
pub struct SelectionModel {
    pub album: Seq<char>,
    pub year: Option<i32>,
    pub duration_ms: Option<i32>,
    pub genre: Seq<char>,
}

impl View for Selection {
    type V = SelectionModel;

    open spec fn view(&self) -> SelectionModel {
        SelectionModel {
            album: self.album@,
            year: self.year,
            duration_ms: self.duration_ms,
            genre: self.genre@,
        }
    }
}

/// What is chosen from a list of candidates that is not empty.
pub open spec fn selection_of(candidates: Seq<CandidateModel>) -> SelectionModel
    recommends
        candidates.len() > 0,
{
    SelectionModel {
        album: chosen_album(candidates[0].releases),
        year: chosen_year(candidates[0].releases),
        duration_ms: candidates[0].duration_ms,
        genre: chosen_genre(candidates),
    }
}

/// Why nothing was chosen.
#[derive(Clone, Copy, Debug, PartialEq, Eq)]
pub enum SelectError {
    /// The list of candidates was empty.
    NoCandidates,
}

/// At most one place is that of the oldest release.
pub proof fn lemma_oldest_is_unique(releases: Seq<ReleaseModel>, i: int, j: int)
    requires
        is_oldest(releases, i),
        is_oldest(releases, j),
    ensures
        i == j,
{
}

/// Where a release has a year, one of them is the oldest.
pub proof fn lemma_oldest_exists(releases: Seq<ReleaseModel>)
    requires
        has_dated(releases),
    ensures
        is_oldest(releases, oldest(releases)),
    decreases releases.len(),
{
    let last = releases.len() - 1;
    let front = releases.drop_last();
    assert(forall|j: int| is_dated(front, j) <==> is_dated(releases, j) && j < last);
    if has_dated(front) {
        lemma_oldest_exists(front);
        let i = oldest(front);
        if is_dated(releases, last) && release_year(releases[last])->0 < release_year(
            releases[i],
        )->0 {
            assert(is_oldest(releases, last));
        } else {
            assert(is_oldest(releases, i));
        }
    } else {
        assert(is_oldest(releases, last));
    }
}

/// At most one place is that of the first candidate with a tag.
pub proof fn lemma_first_tagged_is_unique(candidates: Seq<CandidateModel>, i: int, j: int)
    requires
        is_first_tagged(candidates, i),
        is_first_tagged(candidates, j),
    ensures
        i == j,
{
}

/// Where a candidate has a tag, one of them is the first.
pub proof fn lemma_first_tagged_exists(candidates: Seq<CandidateModel>)
    requires
        has_tagged(candidates),
    ensures
        is_first_tagged(candidates, first_tagged(candidates)),
    decreases candidates.len(),
{
    let last = candidates.len() - 1;
    let front = candidates.drop_last();
    assert(forall|j: int| is_tagged(front, j) <==> is_tagged(candidates, j) && j < last);
    if has_tagged(front) {
        lemma_first_tagged_exists(front);
        assert(is_first_tagged(candidates, first_tagged(front)));
    } else {
        assert(is_first_tagged(candidates, last));
    }
}

/// Oldest wins: where a release has a year, the chosen year is the least year
/// of any release, and the chosen album is the title of a release with
/// that year.
pub proof fn lemma_chosen_year_is_least(releases: Seq<ReleaseModel>)
    requires
        has_dated(releases),
    ensures
        chosen_year(releases) is Some,
        forall|j: int| #[trigger]
            is_dated(releases, j) ==> chosen_year(releases)->0 <= release_year(releases[j])->0,
        is_dated(releases, oldest(releases)),
        release_year(releases[oldest(releases)]) == chosen_year(releases),
        releases[oldest(releases)].title == chosen_album(releases),
{
    lemma_oldest_exists(releases);
}

/// A chosen year is the year of one of the releases: it is read from four
/// characters, and is never negative.
pub proof fn lemma_chosen_year_in_range(releases: Seq<ReleaseModel>)
    ensures
        chosen_year(releases) matches Some(year) ==> 0 <= year <= 9999,
{
    if has_dated(releases) {
        lemma_oldest_exists(releases);
        lemma_year_by_shape(releases[oldest(releases)].date->0);
    }
}

/// The chosen year does not depend on the order of the releases.
pub proof fn lemma_chosen_year_ignores_order(first: Seq<ReleaseModel>, second: Seq<ReleaseModel>)
    requires
        first.to_multiset() == second.to_multiset(),
    ensures
        chosen_year(first) == chosen_year(second),
{
    lemma_same_releases(first, second);
    lemma_same_releases(second, first);
    if has_dated(first) {
        let i = oldest(first);
        lemma_oldest_exists(first);
        let j = choose|j: int| 0 <= j < second.len() && second[j] == first[i];
        assert(is_dated(second, j));
        lemma_oldest_exists(second);
        let k = oldest(second);
        let l = choose|l: int| 0 <= l < first.len() && first[l] == second[k];
        assert(is_dated(first, l));
    } else if has_dated(second) {
        let k = choose|k: int| is_dated(second, k);
        let l = choose|l: int| 0 <= l < first.len() && first[l] == second[k];
        assert(is_dated(first, l));
    }
}

/// Where every release with the least year has the same title, the chosen
/// album does not depend on the order of the releases either.
pub proof fn lemma_chosen_album_ignores_order(first: Seq<ReleaseModel>, second: Seq<ReleaseModel>)
    requires
        first.to_multiset() == second.to_multiset(),
        has_dated(first),
        forall|i: int| #[trigger]
            is_dated(first, i) && release_year(first[i]) == chosen_year(first) ==> first[i].title
                == chosen_album(first),
    ensures
        chosen_album(first) == chosen_album(second),
{
    lemma_chosen_year_ignores_order(first, second);
    lemma_same_releases(second, first);
    lemma_oldest_exists(first);
    let i = oldest(first);
    lemma_same_releases(first, second);
    lemma_oldest_exists(second);
    let k = oldest(second);
    let l = choose|l: int| 0 <= l < first.len() && first[l] == second[k];
    assert(is_dated(first, l));
}

/// Two lists with the same releases, in whatever order: each release of the
/// first stands somewhere in the second.
proof fn lemma_same_releases(first: Seq<ReleaseModel>, second: Seq<ReleaseModel>)
    requires
        first.to_multiset() == second.to_multiset(),
    ensures
        forall|i: int| 0 <= i < first.len() ==> second.contains(#[trigger] first[i]),
{
    first.to_multiset_ensures();
    second.to_multiset_ensures();
    assert forall|i: int| 0 <= i < first.len() implies second.contains(#[trigger] first[i]) by {
        assert(second.to_multiset().count(first[i]) > 0);
    }
}

/// Without any dated release, the album is the title of the first release and
/// there is no year.
pub proof fn lemma_undated_takes_first(releases: Seq<ReleaseModel>)
    requires
        releases.len() > 0,
        forall|i: int| 0 <= i < releases.len() ==> release_year(#[trigger] releases[i]) is None,
    ensures
        chosen_album(releases) == releases[0].title,
        chosen_year(releases) is None,
{
}

/// Without any release, the album is `Unknown` and there is no year.
pub proof fn lemma_no_release_is_unknown(releases: Seq<ReleaseModel>)
    requires
        releases.len() == 0,
    ensures
        chosen_album(releases) == "Unknown"@,
        chosen_year(releases) is None,
{
}

/// The genre is the first tag of the candidate at `place`, where no candidate
/// before it has a tag.
pub proof fn lemma_genre_of_first_tagged(candidates: Seq<CandidateModel>, place: int)
    requires
        0 <= place < candidates.len(),
        candidates[place].tags.len() > 0,
        forall|j: int| 0 <= j < place ==> (#[trigger] candidates[j]).tags.len() == 0,
    ensures
        chosen_genre(candidates) == candidates[place].tags[0],
{
    assert(is_first_tagged(candidates, place));
    lemma_first_tagged_exists(candidates);
    lemma_first_tagged_is_unique(candidates, place, first_tagged(candidates));
}

/// Where no candidate has a tag, the genre is `Unknown`.
pub proof fn lemma_genre_without_tags(candidates: Seq<CandidateModel>)
    requires
        forall|j: int| 0 <= j < candidates.len() ==> (#[trigger] candidates[j]).tags.len() == 0,
    ensures
        chosen_genre(candidates) == "Unknown"@,
{
}

fn year_of_release(release: &ReleaseInfo) -> (year: Option<i32>)
    ensures
        year == release_year(release@),
{
    match &release.date {
        Some(date) => extract_year(date.as_str()),
        None => None,
    }
}

/// Finds the oldest release: the first of those with the least year.
pub fn oldest_release(releases: &Vec<ReleaseInfo>) -> (place: Option<usize>)
    ensures
        place is Some <==> has_dated(release_models(releases@)),
        place matches Some(i) ==> i == oldest(release_models(releases@)) && is_oldest(
            release_models(releases@),
            i as int,
        ),
{
    let ghost models = release_models(releases@);
    let mut best: Option<usize> = None;
    let mut least: i32 = 0;
    let mut i: usize = 0;
    while i < releases.len()
        invariant
            i <= releases.len(),
            models == release_models(releases@),
            best is None <==> !has_dated(models.take(i as int)),
            best matches Some(b) ==> is_oldest(models.take(i as int), b as int) && release_year(
                models[b as int],
            ) == Some(least),
        decreases releases.len() - i,
    {
        let ghost before = models.take(i as int);
        let ghost after = models.take(i + 1);
        assert(forall|j: int|
            is_dated(after, j) <==> is_dated(before, j) || (j == i && is_dated(models, j)));
        let year = year_of_release(&releases[i]);
        match year {
            Some(y) => {
                if best.is_none() || y < least {
                    best = Some(i);
                    least = y;
                }
                assert(is_dated(after, i as int));
            },
            None => {},
        }
        i += 1;
    }
    assert(models.take(i as int) =~= models);
    proof {
        if best is Some {
            lemma_oldest_exists(models);
            lemma_oldest_is_unique(models, best->0 as int, oldest(models));
        }
    }
    best
}

/// Finds the first candidate with a tag.
pub fn first_tagged_candidate(candidates: &Vec<RawCandidate>) -> (place: Option<usize>)
    ensures
        place is Some <==> has_tagged(candidate_models(candidates@)),
        place matches Some(i) ==> i == first_tagged(candidate_models(candidates@))
            && is_first_tagged(candidate_models(candidates@), i as int),
{
    let ghost models = candidate_models(candidates@);
    let mut i: usize = 0;
    while i < candidates.len()
        invariant
            i <= candidates.len(),
            models == candidate_models(candidates@),
            forall|j: int| 0 <= j < i ==> !is_tagged(models, j),
        decreases candidates.len() - i,
    {
        if candidates[i].tags.len() > 0 {
            proof {
                assert(is_first_tagged(models, i as int));
                lemma_first_tagged_exists(models);
                lemma_first_tagged_is_unique(models, i as int, first_tagged(models));
            }
            return Some(i);
        }
        i += 1;
    }
    None
}

/// Chooses album, year, duration and genre from the candidates of one
/// catalog answer. An empty list is refused.
pub fn select_metadata(candidates: &Vec<RawCandidate>) -> (chosen: Result<Selection, SelectError>)
    ensures
        candidates.len() == 0 ==> chosen == Err::<Selection, SelectError>(
            SelectError::NoCandidates,
        ),
        candidates.len() > 0 ==> chosen is Ok && chosen->Ok_0@ == selection_of(
            candidate_models(candidates@),
        ),
{
    if candidates.len() == 0 {
        return Err(SelectError::NoCandidates);
    }
    let primary = &candidates[0];
    let (album, year) = match oldest_release(&primary.releases) {
        Some(i) => (primary.releases[i].title.clone(), year_of_release(&primary.releases[i])),
        None => {
            if primary.releases.len() > 0 {
                (primary.releases[0].title.clone(), None)
            } else {
                (String::from_str("Unknown"), None)
            }
        },
    };
    let genre = match first_tagged_candidate(candidates) {
        Some(i) => candidates[i].tags[0].clone(),
        None => String::from_str("Unknown"),
    };
    Ok(Selection { album, year, duration_ms: primary.duration_ms, genre })
}

} // verus!
