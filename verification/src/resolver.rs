//! The resolution of one (title, artist) pair, as a machine that is told what
//! the store and the catalog answered and says what is to be done next.
//!
//! The store is read first. A row that it holds is the answer. Without one, or
//! where the store fails, the catalog is asked; without candidates the song is
//! not found. From candidates a song is chosen and written back, and it is the
//! answer whether or not the write succeeds.

use vstd::prelude::*;
use vstd::string::StringExecFns;
use crate::catalog::CatalogError;
use crate::model::{candidate_models, song_models, CandidateModel, RawCandidate, Song, SongModel};
use crate::selector::{select_metadata, selection_of, SelectionModel};
use crate::store::StoreUnavailable;

verus! {

/// The answer of a resolution.
#[derive(Debug, PartialEq, Eq)]
pub enum ResolvedResponse {
    /// The song, from the store or from the catalog.
    Found(Song),
    /// Neither had the song that was asked for.
    NotFound { title: String, artist: String },
}

/// The value of a [`ResolvedResponse`].
pub enum ResponseModel {
    Found(SongModel),
    NotFound { title: Seq<char>, artist: Seq<char> },
}

impl View for ResolvedResponse {
    type V = ResponseModel;

    open spec fn view(&self) -> ResponseModel {
        match self {
            ResolvedResponse::Found(song) => ResponseModel::Found(song@),
            ResolvedResponse::NotFound { title, artist } => ResponseModel::NotFound {
                title: title@,
                artist: artist@,
            },
        }
    }
}

impl Clone for ResolvedResponse {
    fn clone(&self) -> (copy: ResolvedResponse)
        ensures
            copy@ == self@,
    {
        match self {
            ResolvedResponse::Found(song) => ResolvedResponse::Found(song.clone()),
            ResolvedResponse::NotFound { title, artist } => ResolvedResponse::NotFound {
                title: title.clone(),
                artist: artist.clone(),
            },
        }
    }
}

/// What is reported where a title and an artist were not found.
pub open spec fn not_found_message(title: Seq<char>, artist: Seq<char>) -> Seq<char> {
    "Song not found for title: "@ + title + ", artist: "@ + artist
}

fn not_found_text(title: &str, artist: &str) -> (message: String)
    ensures
        message@ == not_found_message(title@, artist@),
{
    let mut message = String::from_str("Song not found for title: ");
    message.append(title);
    message.append(", artist: ");
    message.append(artist);
    message
}

impl ResolvedResponse {
    /// Parts the two answers: the song, or the text of the error that is
    /// reported in its place.
    pub fn into_result(self) -> (parted: Result<Song, String>)
        ensures
            match self@ {
                ResponseModel::Found(song) => parted is Ok && parted->Ok_0@ == song,
                ResponseModel::NotFound { title, artist } => parted is Err && parted->Err_0@
                    == not_found_message(title, artist),
            },
    {
        match self {
            ResolvedResponse::Found(song) => Ok(song),
            ResolvedResponse::NotFound { title, artist } => Err(
                not_found_text(title.as_str(), artist.as_str()),
            ),
        }
    }

    /// The error that is reported in place of a song: a text that names the
    /// title and the artist that were asked for. A found song has none.
    pub fn error_message(&self) -> (message: Option<String>)
        ensures
            match self@ {
                ResponseModel::Found(_) => message is None,
                ResponseModel::NotFound { title, artist } => message is Some && message->0@
                    == not_found_message(title, artist),
            },
    {
        match self {
            ResolvedResponse::Found(_) => None,
            ResolvedResponse::NotFound { title, artist } => Some(
                not_found_text(title.as_str(), artist.as_str()),
            ),
        }
    }
}

/// What a resolution is told.
#[derive(Debug, PartialEq, Eq)]
pub enum Event {
    /// The store was read: the rows with the title and artist, or a failure.
    StoreRead(Result<Vec<Song>, StoreUnavailable>),
    /// The catalog was asked: its candidates, or a failure.
    CatalogAnswered(Result<Vec<RawCandidate>, CatalogError>),
    /// The write to the store ended.
    StoreWritten(Result<(), StoreUnavailable>),
}

/// The value of an [`Event`].
pub enum EventModel {
    StoreRead(Result<Seq<SongModel>, StoreUnavailable>),
    CatalogAnswered(Result<Seq<CandidateModel>, CatalogError>),
    StoreWritten(Result<(), StoreUnavailable>),
}

impl View for Event {
    type V = EventModel;

    open spec fn view(&self) -> EventModel {
        match self {
            Event::StoreRead(Ok(rows)) => EventModel::StoreRead(Ok(song_models(rows@))),
            Event::StoreRead(Err(failure)) => EventModel::StoreRead(Err(*failure)),
            Event::CatalogAnswered(Ok(candidates)) => EventModel::CatalogAnswered(
                Ok(candidate_models(candidates@)),
            ),
            Event::CatalogAnswered(Err(failure)) => EventModel::CatalogAnswered(Err(*failure)),
            Event::StoreWritten(outcome) => EventModel::StoreWritten(*outcome),
        }
    }
}

/// What a resolution asks to be done.
#[derive(Debug, PartialEq, Eq)]
pub enum Action {
    /// Read the store for the title and artist.
    LookupStore { title: String, artist: String },
    /// Ask the catalog for the title and artist.
    QueryCatalog { title: String, artist: String },
    /// Write the song to the store.
    Upsert(Song),
    /// Give the answer; nothing is left to do.
    Respond(ResolvedResponse),
}

/// The value of an [`Action`].
pub enum ActionModel {
    LookupStore { title: Seq<char>, artist: Seq<char> },
    QueryCatalog { title: Seq<char>, artist: Seq<char> },
    Upsert(SongModel),
    Respond(ResponseModel),
}

impl View for Action {
    type V = ActionModel;

    open spec fn view(&self) -> ActionModel {
        match self {
            Action::LookupStore { title, artist } => ActionModel::LookupStore {
                title: title@,
                artist: artist@,
            },
            Action::QueryCatalog { title, artist } => ActionModel::QueryCatalog {
                title: title@,
                artist: artist@,
            },
            Action::Upsert(song) => ActionModel::Upsert(song@),
            Action::Respond(response) => ActionModel::Respond(response@),
        }
    }
}

/// Where a resolution stands.
pub enum PhaseModel {
    /// The store is being read.
    StoreLookup,
    /// The catalog is being asked.
    CatalogLookup,
    /// The chosen song is being written to the store.
    WriteBack(SongModel),
    /// The answer is known.
    Done(ResponseModel),
}

/// The value of a [`Resolution`].
pub struct ResolutionModel {
    pub title: Seq<char>,
    pub artist: Seq<char>,
    pub phase: PhaseModel,
}

/// The song that is made of what was asked for and what was chosen.
pub open spec fn song_from(title: Seq<char>, artist: Seq<char>, chosen: SelectionModel) -> SongModel {
    SongModel {
        title,
        artist,
        album: chosen.album,
        year: chosen.year,
        duration_ms: chosen.duration_ms,
        genre: chosen.genre,
    }
}

/// A resolution as it starts.
pub open spec fn started(title: Seq<char>, artist: Seq<char>) -> ResolutionModel {
    ResolutionModel { title, artist, phase: PhaseModel::StoreLookup }
}

/// Whether the event is the one that the phase waits for.
pub open spec fn awaits(phase: PhaseModel, event: EventModel) -> bool {
    match (phase, event) {
        (PhaseModel::StoreLookup, EventModel::StoreRead(_)) => true,
        (PhaseModel::CatalogLookup, EventModel::CatalogAnswered(_)) => true,
        (PhaseModel::WriteBack(_), EventModel::StoreWritten(_)) => true,
        _ => false,
    }
}

/// The phase after an event. An event that the phase does not wait for
/// changes nothing.
pub open spec fn next_phase(
    title: Seq<char>,
    artist: Seq<char>,
    phase: PhaseModel,
    event: EventModel,
) -> PhaseModel {
    match (phase, event) {
        (PhaseModel::StoreLookup, EventModel::StoreRead(Ok(rows))) => if rows.len() > 0 {
            PhaseModel::Done(ResponseModel::Found(rows[0]))
        } else {
            PhaseModel::CatalogLookup
        },
        (PhaseModel::StoreLookup, EventModel::StoreRead(Err(_))) => PhaseModel::CatalogLookup,
        (PhaseModel::CatalogLookup, EventModel::CatalogAnswered(Ok(candidates))) => if candidates.len()
            > 0 {
            PhaseModel::WriteBack(song_from(title, artist, selection_of(candidates)))
        } else {
            PhaseModel::Done(ResponseModel::NotFound { title, artist })
        },
        (PhaseModel::CatalogLookup, EventModel::CatalogAnswered(Err(_))) => PhaseModel::Done(
            ResponseModel::NotFound { title, artist },
        ),
        (PhaseModel::WriteBack(song), EventModel::StoreWritten(_)) => PhaseModel::Done(
            ResponseModel::Found(song),
        ),
        _ => phase,
    }
}

/// The resolution after an event.
pub open spec fn stepped(state: ResolutionModel, event: EventModel) -> ResolutionModel {
    ResolutionModel {
        title: state.title,
        artist: state.artist,
        phase: next_phase(state.title, state.artist, state.phase, event),
    }
}

/// The resolution after a sequence of events.
pub open spec fn run(state: ResolutionModel, events: Seq<EventModel>) -> ResolutionModel
    decreases events.len(),
{
    if events.len() == 0 {
        state
    } else {
        run(stepped(state, events.first()), events.drop_first())
    }
}

/// What a resolution asks for in its phase.
pub open spec fn action_of(state: ResolutionModel) -> ActionModel {
    match state.phase {
        PhaseModel::StoreLookup => ActionModel::LookupStore {
            title: state.title,
            artist: state.artist,
        },
        PhaseModel::CatalogLookup => ActionModel::QueryCatalog {
            title: state.title,
            artist: state.artist,
        },
        PhaseModel::WriteBack(song) => ActionModel::Upsert(song),
        PhaseModel::Done(response) => ActionModel::Respond(response),
    }
}

/// How far a resolution has come: each event that is waited for brings it
/// further.
pub open spec fn progress(phase: PhaseModel) -> nat {
    match phase {
        PhaseModel::StoreLookup => 0,
        PhaseModel::CatalogLookup => 1,
        PhaseModel::WriteBack(_) => 2,
        PhaseModel::Done(_) => 3,
    }
}

/// Whether a store read found nothing: it held no row, or the store failed.
pub open spec fn is_miss(read: Result<Seq<SongModel>, StoreUnavailable>) -> bool {
    match read {
        Ok(rows) => rows.len() == 0,
        Err(_) => true,
    }
}

/// Whether a catalog answer has no candidate: it is empty, or the catalog
/// failed.
pub open spec fn is_empty_answer(answer: Result<Seq<CandidateModel>, CatalogError>) -> bool {
    match answer {
        Ok(candidates) => candidates.len() == 0,
        Err(_) => true,
    }
}

/// An event that is waited for brings the resolution further, and any other
/// changes nothing. So each phase is entered once at most: the store is read
/// once, the catalog is asked once at most, and one song at most is written;
/// and after three events that were waited for, at the latest, the answer is
/// known.
pub proof fn lemma_step_advances(state: ResolutionModel, event: EventModel)
    ensures
        awaits(state.phase, event) ==> progress(stepped(state, event).phase) > progress(
            state.phase,
        ),
        !awaits(state.phase, event) ==> stepped(state, event) == state,
        stepped(state, event).title == state.title,
        stepped(state, event).artist == state.artist,
        progress(state.phase) <= 3,
        progress(state.phase) == 3 <==> state.phase is Done,
        state.phase is Done ==> !awaits(state.phase, event),
{
}

/// Once the answer is known, no event changes it.
pub proof fn lemma_done_is_final(state: ResolutionModel, events: Seq<EventModel>)
    requires
        state.phase is Done,
    ensures
        run(state, events) == state,
    decreases events.len(),
{
    if events.len() > 0 {
        lemma_done_is_final(stepped(state, events.first()), events.drop_first());
    }
}

/// A row in the store is the answer, and the catalog is never asked: after
/// the store has given rows the resolution only ever asks to respond with the
/// first of them, whatever it is told later.
pub proof fn lemma_store_hit_skips_catalog(
    title: Seq<char>,
    artist: Seq<char>,
    rows: Seq<SongModel>,
    later: Seq<EventModel>,
)
    requires
        rows.len() > 0,
    ensures
        action_of(started(title, artist)) == (ActionModel::LookupStore { title, artist }),
        action_of(run(stepped(started(title, artist), EventModel::StoreRead(Ok(rows))), later))
            == ActionModel::Respond(ResponseModel::Found(rows[0])),
{
    lemma_done_is_final(stepped(started(title, artist), EventModel::StoreRead(Ok(rows))), later);
}

/// Without a row in the store the catalog is asked, and a store that fails
/// is a store without a row.
pub proof fn lemma_store_miss_asks_catalog(
    title: Seq<char>,
    artist: Seq<char>,
    read: Result<Seq<SongModel>, StoreUnavailable>,
)
    requires
        is_miss(read),
    ensures
        action_of(stepped(started(title, artist), EventModel::StoreRead(read)))
            == (ActionModel::QueryCatalog { title, artist }),
{
}

/// Without a candidate the song is not found, and nothing is written: after
/// such an answer the resolution only ever asks to respond that the title and
/// artist were not found, whatever it is told later.
pub proof fn lemma_catalog_miss_skips_write(
    title: Seq<char>,
    artist: Seq<char>,
    read: Result<Seq<SongModel>, StoreUnavailable>,
    answer: Result<Seq<CandidateModel>, CatalogError>,
    later: Seq<EventModel>,
)
    requires
        is_miss(read),
        is_empty_answer(answer),
    ensures
        action_of(
            run(
                stepped(
                    stepped(started(title, artist), EventModel::StoreRead(read)),
                    EventModel::CatalogAnswered(answer),
                ),
                later,
            ),
        ) == ActionModel::Respond(ResponseModel::NotFound { title, artist }),
{
    lemma_done_is_final(
        stepped(
            stepped(started(title, artist), EventModel::StoreRead(read)),
            EventModel::CatalogAnswered(answer),
        ),
        later,
    );
}

/// With candidates, the song that is chosen from them is written once and is
/// the answer, whether or not the write succeeds.
pub proof fn lemma_catalog_hit_is_written_and_answered(
    title: Seq<char>,
    artist: Seq<char>,
    read: Result<Seq<SongModel>, StoreUnavailable>,
    candidates: Seq<CandidateModel>,
    written: Result<(), StoreUnavailable>,
    later: Seq<EventModel>,
)
    requires
        is_miss(read),
        candidates.len() > 0,
    ensures
        ({
            let song = song_from(title, artist, selection_of(candidates));
            let asked = stepped(started(title, artist), EventModel::StoreRead(read));
            let chosen = stepped(asked, EventModel::CatalogAnswered(Ok(candidates)));
            let answered = stepped(chosen, EventModel::StoreWritten(written));
            &&& action_of(chosen) == ActionModel::Upsert(song)
            &&& action_of(run(answered, later)) == ActionModel::Respond(ResponseModel::Found(song))
        }),
{
    let asked = stepped(started(title, artist), EventModel::StoreRead(read));
    let chosen = stepped(asked, EventModel::CatalogAnswered(Ok(candidates)));
    lemma_done_is_final(stepped(chosen, EventModel::StoreWritten(written)), later);
}

#[derive(Debug)]
enum Phase {
    StoreLookup,
    CatalogLookup,
    WriteBack(Song),
    Done(ResolvedResponse),
}

impl View for Phase {
    type V = PhaseModel;

    closed spec fn view(&self) -> PhaseModel {
        match self {
            Phase::StoreLookup => PhaseModel::StoreLookup,
            Phase::CatalogLookup => PhaseModel::CatalogLookup,
            Phase::WriteBack(song) => PhaseModel::WriteBack(song@),
            Phase::Done(response) => PhaseModel::Done(response@),
        }
    }
}

/// The resolution of one (title, artist) pair.
#[derive(Debug)]
pub struct Resolution {
    title: String,
    artist: String,
    phase: Phase,
}

impl View for Resolution {
    type V = ResolutionModel;

    closed spec fn view(&self) -> ResolutionModel {
        ResolutionModel { title: self.title@, artist: self.artist@, phase: self.phase@ }
    }
}

impl Resolution {
    /// Starts the resolution of a title and an artist: the store is read
    /// first.
    pub fn start(title: &str, artist: &str) -> (resolution: Resolution)
        ensures
            resolution@ == started(title@, artist@),
    {
        Resolution {
            title: title.to_owned(),
            artist: artist.to_owned(),
            phase: Phase::StoreLookup,
        }
    }

    /// What is to be done now.
    pub fn action(&self) -> (action: Action)
        ensures
            action@ == action_of(self@),
    {
        match &self.phase {
            Phase::StoreLookup => Action::LookupStore {
                title: self.title.clone(),
                artist: self.artist.clone(),
            },
            Phase::CatalogLookup => Action::QueryCatalog {
                title: self.title.clone(),
                artist: self.artist.clone(),
            },
            Phase::WriteBack(song) => Action::Upsert(song.clone()),
            Phase::Done(response) => Action::Respond(response.clone()),
        }
    }

    /// Whether the resolution waits for this event now.
    pub fn accepts(&self, event: &Event) -> (accepted: bool)
        ensures
            accepted == awaits(self@.phase, event@),
    {
        match (&self.phase, event) {
            (Phase::StoreLookup, Event::StoreRead(_)) => true,
            (Phase::CatalogLookup, Event::CatalogAnswered(_)) => true,
            (Phase::WriteBack(_), Event::StoreWritten(_)) => true,
            _ => false,
        }
    }

    /// The answer, once it is known.
    pub fn response(&self) -> (response: Option<ResolvedResponse>)
        ensures
            match response {
                Some(answer) => self@.phase == PhaseModel::Done(answer@),
                None => !(self@.phase is Done),
            },
    {
        match &self.phase {
            Phase::Done(response) => Some(response.clone()),
            _ => None,
        }
    }

    /// Takes the resolution one event further. An event that it does not wait
    /// for leaves it as it is.
    pub fn step(self, event: Event) -> (next: Resolution)
        ensures
            next@ == stepped(self@, event@),
    {
        let Resolution { title, artist, phase } = self;
        let next_phase = match (phase, event) {
            (Phase::StoreLookup, Event::StoreRead(Ok(rows))) => {
                if rows.len() > 0 {
                    Phase::Done(ResolvedResponse::Found(rows[0].clone()))
                } else {
                    Phase::CatalogLookup
                }
            },
            (Phase::StoreLookup, Event::StoreRead(Err(_))) => Phase::CatalogLookup,
            (Phase::CatalogLookup, Event::CatalogAnswered(Ok(candidates))) => {
                match select_metadata(&candidates) {
                    Ok(chosen) => Phase::WriteBack(
                        Song {
                            title: title.clone(),
                            artist: artist.clone(),
                            album: chosen.album,
                            year: chosen.year,
                            duration_ms: chosen.duration_ms,
                            genre: chosen.genre,
                        },
                    ),
                    Err(_) => Phase::Done(
                        ResolvedResponse::NotFound { title: title.clone(), artist: artist.clone() },
                    ),
                }
            },
            (Phase::CatalogLookup, Event::CatalogAnswered(Err(_))) => Phase::Done(
                ResolvedResponse::NotFound { title: title.clone(), artist: artist.clone() },
            ),
            (Phase::WriteBack(song), Event::StoreWritten(_)) => Phase::Done(
                ResolvedResponse::Found(song),
            ),
            (phase, _) => phase,
        };
        Resolution { title, artist, phase: next_phase }
    }
}

} // verus!
