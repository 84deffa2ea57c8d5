//! The records that a resolution reads and produces, each with the
//! mathematical value that the contracts speak of.

use vstd::prelude::*;

verus! {

/// One release of a recording: its title and, where the catalog knows it, a
/// date written as `YYYY`, `YYYY-MM` or `YYYY-MM-DD`.
#[derive(Debug, PartialEq, Eq)]
pub struct ReleaseInfo {
    pub title: String,
    pub date: Option<String>,
}

/// The value of a [`ReleaseInfo`].
pub struct ReleaseModel {
    pub title: Seq<char>,
    pub date: Option<Seq<char>>,
}

impl View for ReleaseInfo {
    type V = ReleaseModel;

    open spec fn view(&self) -> ReleaseModel {
        ReleaseModel {
            title: self.title@,
            date: match self.date {
                Some(d) => Some(d@),
                None => None,
            },
        }
    }
}

/// The values of a list of releases, in the order of the list.
pub open spec fn release_models(releases: Seq<ReleaseInfo>) -> Seq<ReleaseModel> {
    releases.map_values(|r: ReleaseInfo| r@)
}

/// The values of a list of strings, in the order of the list.
pub open spec fn string_models(strings: Seq<String>) -> Seq<Seq<char>> {
    strings.map_values(|t: String| t@)
}

/// One entry of a catalog's answer, as it is before anything is chosen.
#[derive(Debug, PartialEq, Eq)]
pub struct RawCandidate {
    pub external_id: String,
    pub title: String,
    pub duration_ms: Option<i32>,
    pub releases: Vec<ReleaseInfo>,
    pub tags: Vec<String>,
}

/// The value of a [`RawCandidate`].
pub struct CandidateModel {
    pub external_id: Seq<char>,
    pub title: Seq<char>,
    pub duration_ms: Option<i32>,
    pub releases: Seq<ReleaseModel>,
    pub tags: Seq<Seq<char>>,
}

impl View for RawCandidate {
    type V = CandidateModel;

    open spec fn view(&self) -> CandidateModel {
        CandidateModel {
            external_id: self.external_id@,
            title: self.title@,
            duration_ms: self.duration_ms,
            releases: release_models(self.releases@),
            tags: string_models(self.tags@),
        }
    }
}

/// The values of a list of candidates, in the order of the list.
pub open spec fn candidate_models(candidates: Seq<RawCandidate>) -> Seq<CandidateModel> {
    candidates.map_values(|c: RawCandidate| c@)
}

/// A resolved song: what is stored and what is answered.
#[derive(Debug, PartialEq, Eq)]
pub struct Song {
    pub title: String,
    pub artist: String,
    pub album: String,
    pub year: Option<i32>,
    pub duration_ms: Option<i32>,
    pub genre: String,
}

/// The value of a [`Song`].
pub struct SongModel {
    pub title: Seq<char>,
    pub artist: Seq<char>,
    pub album: Seq<char>,
    pub year: Option<i32>,
    pub duration_ms: Option<i32>,
    pub genre: Seq<char>,
}

impl View for Song {
    type V = SongModel;

    open spec fn view(&self) -> SongModel {
        SongModel {
            title: self.title@,
            artist: self.artist@,
            album: self.album@,
            year: self.year,
            duration_ms: self.duration_ms,
            genre: self.genre@,
        }
    }
}

impl Clone for Song {
    fn clone(&self) -> (copy: Song)
        ensures
            copy@ == self@,
    {
        Song {
            title: self.title.clone(),
            artist: self.artist.clone(),
            album: self.album.clone(),
            year: self.year,
            duration_ms: self.duration_ms,
            genre: self.genre.clone(),
        }
    }
}

/// The values of a list of songs, in the order of the list.
pub open spec fn song_models(songs: Seq<Song>) -> Seq<SongModel> {
    songs.map_values(|s: Song| s@)
}

} // verus!
