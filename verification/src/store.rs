//! The store of resolved songs: what is asked of it, what is reported of each
//! operation, and a table in memory that keeps the store's rules.
//!
//! A song is found by its title and artist, whatever their case. A write adds
//! a song only where no row has its title and artist yet, and changes no row.

use vstd::prelude::*;
use vstd::string::StringExecFns;
use crate::model::{Song, SongModel};
use crate::text::{lowercase, lowercase_of};

verus! {

/// The store could not be reached, or it refused the operation.
#[derive(Clone, Copy, Debug, PartialEq, Eq)]
pub struct StoreUnavailable;

/// What identifies a song in the store: title and artist in lower case.
pub open spec fn key_of(title: Seq<char>, artist: Seq<char>) -> (Seq<char>, Seq<char>) {
    (lowercase_of(title), lowercase_of(artist))
}

/// The key of a stored song.
pub open spec fn song_key(song: SongModel) -> (Seq<char>, Seq<char>) {
    key_of(song.title, song.artist)
}

/// Brings a title and an artist to the form in which the store is asked.
pub fn lookup_key(title: &str, artist: &str) -> (key: (String, String))
    ensures
        (key.0@, key.1@) == key_of(title@, artist@),
{
    (lowercase(title), lowercase(artist))
}

/// Whether `i` is the place of a row with the key.
pub open spec fn holds_at(rows: Seq<SongModel>, key: (Seq<char>, Seq<char>), i: int) -> bool {
    0 <= i < rows.len() && song_key(rows[i]) == key
}

/// Whether some row has the key.
pub open spec fn holds(rows: Seq<SongModel>, key: (Seq<char>, Seq<char>)) -> bool {
    exists|i: int| holds_at(rows, key, i)
}

/// Whether no two rows have the same key.
pub open spec fn unique_keys(rows: Seq<SongModel>) -> bool {
    forall|i: int, j: int|
        0 <= i < j < rows.len() ==> song_key(#[trigger] rows[i]) != song_key(#[trigger] rows[j])
}

/// The rows after a write: the song is added at the end where no row has its
/// key, and nothing changes where one has.
pub open spec fn upserted(rows: Seq<SongModel>, song: SongModel) -> Seq<SongModel> {
    if holds(rows, song_key(song)) {
        rows
    } else {
        rows.push(song)
    }
}

/// The row that a lookup gives: the one with the key, if there is one.
pub open spec fn looked_up(rows: Seq<SongModel>, key: (Seq<char>, Seq<char>)) -> Option<
    SongModel,
> {
    if holds(rows, key) {
        Some(rows[choose|i: int| holds_at(rows, key, i)])
    } else {
        None
    }
}

/// A write keeps the keys apart.
pub proof fn lemma_upsert_keeps_keys_unique(rows: Seq<SongModel>, song: SongModel)
    requires
        unique_keys(rows),
    ensures
        unique_keys(upserted(rows, song)),
{
    if !holds(rows, song_key(song)) {
        let after = rows.push(song);
        assert forall|i: int, j: int| 0 <= i < j < after.len() implies song_key(
            #[trigger] after[i],
        ) != song_key(#[trigger] after[j]) by {
            if j == rows.len() {
                assert(!holds_at(rows, song_key(song), i));
            }
        }
    }
}

/// After a write, exactly one row has the song's key.
pub proof fn lemma_upsert_leaves_one_row(rows: Seq<SongModel>, song: SongModel)
    requires
        unique_keys(rows),
    ensures
        holds(upserted(rows, song), song_key(song)),
        forall|i: int, j: int|
            holds_at(upserted(rows, song), song_key(song), i) && holds_at(
                upserted(rows, song),
                song_key(song),
                j,
            ) ==> i == j,
{
    lemma_upsert_keeps_keys_unique(rows, song);
    let after = upserted(rows, song);
    if !holds(rows, song_key(song)) {
        assert(holds_at(after, song_key(song), rows.len() as int));
    }
}

/// Writing twice under one key is writing once: the second write changes
/// nothing, whatever else its song holds, and exactly one row has the key.
pub proof fn lemma_second_upsert_changes_nothing(
    rows: Seq<SongModel>,
    first: SongModel,
    second: SongModel,
)
    requires
        unique_keys(rows),
        song_key(first) == song_key(second),
    ensures
        upserted(upserted(rows, first), second) == upserted(rows, first),
        holds(upserted(upserted(rows, first), second), song_key(first)),
        forall|i: int, j: int|
            holds_at(upserted(upserted(rows, first), second), song_key(first), i) && holds_at(
                upserted(upserted(rows, first), second),
                song_key(first),
                j,
            ) ==> i == j,
{
    lemma_upsert_leaves_one_row(rows, first);
}

/// A song that was written is found under its title and artist, in any case
/// that has the same lower-case form.
pub proof fn lemma_written_song_is_found(
    rows: Seq<SongModel>,
    song: SongModel,
    title: Seq<char>,
    artist: Seq<char>,
)
    requires
        unique_keys(rows),
        key_of(title, artist) == song_key(song),
    ensures
        looked_up(upserted(rows, song), key_of(title, artist)) is Some,
        !holds(rows, song_key(song)) ==> looked_up(upserted(rows, song), key_of(title, artist))
            == Some(song),
        holds(rows, song_key(song)) ==> looked_up(upserted(rows, song), key_of(title, artist))
            == looked_up(rows, key_of(title, artist)),
{
    lemma_upsert_leaves_one_row(rows, song);
    let after = upserted(rows, song);
    if !holds(rows, song_key(song)) {
        assert(holds_at(after, song_key(song), rows.len() as int));
    }
}

/// The two operations that are run against the store.
#[derive(Clone, Copy, Debug, PartialEq, Eq)]
pub enum StoreOperation {
    /// Reading the rows with a title and an artist.
    Select,
    /// Writing a song where none has its title and artist.
    Insert,
}

/// The statement of an operation, with its parameters numbered.
pub open spec fn statement_of(operation: StoreOperation) -> Seq<char> {
    match operation {
        StoreOperation::Select => "SELECT title, artist, album, year, duration_ms, genre FROM songs WHERE title ILIKE $1 AND artist ILIKE $2"@,
        StoreOperation::Insert => "INSERT INTO songs (title, artist, album, year, duration_ms, genre) VALUES ($1, $2, $3, $4, $5, $6) ON CONFLICT (title, artist) DO NOTHING"@,
    }
}

/// The statement that runs an operation. A select takes the title and the
/// artist; an insert takes the six fields of a song, in their order.
pub fn statement(operation: StoreOperation) -> (text: &'static str)
    ensures
        text@ == statement_of(operation),
{
    match operation {
        StoreOperation::Select => "SELECT title, artist, album, year, duration_ms, genre FROM songs WHERE title ILIKE $1 AND artist ILIKE $2",
        StoreOperation::Insert => "INSERT INTO songs (title, artist, album, year, duration_ms, genre) VALUES ($1, $2, $3, $4, $5, $6) ON CONFLICT (title, artist) DO NOTHING",
    }
}

/// What is recorded when an operation starts: the name of its span and the
/// attributes that describe the operation.
#[derive(Clone, Copy, Debug, PartialEq, Eq)]
pub struct SpanPlan {
    pub name: &'static str,
    pub system: &'static str,
    pub operation: &'static str,
    pub query_text: &'static str,
}

/// Plans the span of an operation.
pub fn span_plan(operation: StoreOperation) -> (plan: SpanPlan)
    ensures
        plan.name@ == match operation {
            StoreOperation::Select => "SELECT songs"@,
            StoreOperation::Insert => "INSERT songs"@,
        },
        plan.system@ == "postgresql"@,
        plan.operation@ == match operation {
            StoreOperation::Select => "SELECT"@,
            StoreOperation::Insert => "INSERT"@,
        },
        plan.query_text@ == statement_of(operation),
{
    match operation {
        StoreOperation::Select => SpanPlan {
            name: "SELECT songs",
            system: "postgresql",
            operation: "SELECT",
            query_text: statement(operation),
        },
        StoreOperation::Insert => SpanPlan {
            name: "INSERT songs",
            system: "postgresql",
            operation: "INSERT",
            query_text: statement(operation),
        },
    }
}

/// How an operation failed.
#[derive(Debug, PartialEq, Eq)]
pub enum StoreFailure {
    /// No connection to the store could be had.
    Connection,
    /// The store refused the statement; the text says why.
    Statement(String),
}

/// The value of a [`StoreFailure`].
pub enum StoreFailureModel {
    Connection,
    Statement(Seq<char>),
}

impl View for StoreFailure {
    type V = StoreFailureModel;

    open spec fn view(&self) -> StoreFailureModel {
        match self {
            StoreFailure::Connection => StoreFailureModel::Connection,
            StoreFailure::Statement(reason) => StoreFailureModel::Statement(reason@),
        }
    }
}

/// What is recorded when an operation ends.
#[derive(Debug, PartialEq, Eq)]
pub enum SpanEnd {
    /// A read ended: the number of rows that it fetched.
    Rows(i64),
    /// A write ended.
    Written,
    /// The operation failed: the text of the error status.
    Failed(String),
}

/// The value of a [`SpanEnd`].
pub enum SpanEndModel {
    Rows(i64),
    Written,
    Failed(Seq<char>),
}

impl View for SpanEnd {
    type V = SpanEndModel;

    open spec fn view(&self) -> SpanEndModel {
        match self {
            SpanEnd::Rows(count) => SpanEndModel::Rows(*count),
            SpanEnd::Written => SpanEndModel::Written,
            SpanEnd::Failed(status) => SpanEndModel::Failed(status@),
        }
    }
}

/// The error status of a failed operation.
pub open spec fn failure_status(
    operation: StoreOperation,
    failure: StoreFailureModel,
) -> Seq<char> {
    match failure {
        StoreFailureModel::Connection => "Failed to get DB client"@,
        StoreFailureModel::Statement(reason) => match operation {
            StoreOperation::Select => "Query failed: "@ + reason,
            StoreOperation::Insert => "Insert failed: "@ + reason,
        },
    }
}

/// A count of rows as a signed 64-bit number: a count above `i64::MAX` wraps
/// around.
pub open spec fn row_count(found: usize) -> i64 {
    if found <= i64::MAX {
        found as i64
    } else {
        (found - 0x1_0000_0000_0000_0000) as i64
    }
}

fn status_of(operation: StoreOperation, failure: &StoreFailure) -> (status: String)
    ensures
        status@ == failure_status(operation, failure@),
{
    match failure {
        StoreFailure::Connection => String::from_str("Failed to get DB client"),
        StoreFailure::Statement(reason) => {
            let mut status = match operation {
                StoreOperation::Select => String::from_str("Query failed: "),
                StoreOperation::Insert => String::from_str("Insert failed: "),
            };
            status.append(reason.as_str());
            status
        },
    }
}

/// What is recorded at the end of a read: the number of rows that it
/// fetched, or why it failed.
pub fn read_span_end(outcome: &Result<Vec<Song>, StoreFailure>) -> (end: SpanEnd)
    ensures
        end@ == match outcome {
            Ok(rows) => SpanEndModel::Rows(row_count(rows.len())),
            Err(failure) => SpanEndModel::Failed(
                failure_status(StoreOperation::Select, failure@),
            ),
        },
{
    match outcome {
        Ok(rows) => {
            let found: u64 = rows.len() as u64;
            if found <= 0x7fff_ffff_ffff_ffff {
                SpanEnd::Rows(found as i64)
            } else {
                SpanEnd::Rows((found as i128 - 0x1_0000_0000_0000_0000) as i64)
            }
        },
        Err(failure) => SpanEnd::Failed(status_of(StoreOperation::Select, failure)),
    }
}

/// What is recorded at the end of a write.
pub fn write_span_end(outcome: &Result<(), StoreFailure>) -> (end: SpanEnd)
    ensures
        end@ == match outcome {
            Ok(_) => SpanEndModel::Written,
            Err(failure) => SpanEndModel::Failed(
                failure_status(StoreOperation::Insert, failure@),
            ),
        },
{
    match outcome {
        Ok(_) => SpanEnd::Written,
        Err(failure) => SpanEnd::Failed(status_of(StoreOperation::Insert, failure)),
    }
}

/// What the resolution is told of an operation: either failure is the same
/// to it.
pub fn outcome_of<T>(outcome: Result<T, StoreFailure>) -> (told: Result<T, StoreUnavailable>)
    ensures
        outcome matches Ok(value) ==> told == Ok::<T, StoreUnavailable>(value),
        outcome is Err ==> told == Err::<T, StoreUnavailable>(StoreUnavailable),
{
    match outcome {
        Ok(value) => Ok(value),
        Err(_) => Err(StoreUnavailable),
    }
}

struct Row {
    title_key: String,
    artist_key: String,
    song: Song,
}

/// A store in memory: songs in the order in which they were written, no two
/// under one key.
pub struct SongTable {
    rows: Vec<Row>,
}

impl View for SongTable {
    type V = Seq<SongModel>;

    closed spec fn view(&self) -> Seq<SongModel> {
        self.rows@.map_values(|row: Row| row.song@)
    }
}

impl SongTable {
    #[verifier::type_invariant]
    spec fn well_formed(&self) -> bool {
        &&& unique_keys(self@)
        &&& forall|i: int|
            0 <= i < self.rows.len() ==> (
                (#[trigger] self.rows[i]).title_key@,
                self.rows[i].artist_key@,
            ) == song_key(self.rows[i].song@)
    }

    /// A table without rows.
    pub fn new() -> (table: SongTable)
        ensures
            table@ == Seq::<SongModel>::empty(),
    {
        SongTable { rows: Vec::new() }
    }

    /// The number of rows. No two of them have the same key.
    pub fn len(&self) -> (count: usize)
        ensures
            count == self@.len(),
            unique_keys(self@),
    {
        proof {
            use_type_invariant(self);
        }
        self.rows.len()
    }

    fn find(&self, title_key: &String, artist_key: &String) -> (place: Option<usize>)
        ensures
            place is Some <==> holds(self@, (title_key@, artist_key@)),
            place matches Some(i) ==> holds_at(self@, (title_key@, artist_key@), i as int),
            unique_keys(self@),
    {
        proof {
            use_type_invariant(self);
        }
        let mut i: usize = 0;
        while i < self.rows.len()
            invariant
                i <= self.rows.len(),
                unique_keys(self@),
                forall|j: int|
                    0 <= j < self.rows.len() ==> (
                        (#[trigger] self.rows[j]).title_key@,
                        self.rows[j].artist_key@,
                    ) == song_key(self.rows[j].song@),
                forall|j: int| 0 <= j < i ==> !holds_at(self@, (title_key@, artist_key@), j),
            decreases self.rows.len() - i,
        {
            let row = &self.rows[i];
            if row.title_key == *title_key && row.artist_key == *artist_key {
                assert(holds_at(self@, (title_key@, artist_key@), i as int));
                return Some(i);
            }
            i += 1;
        }
        None
    }

    /// The song that is stored under a title and an artist, whatever their
    /// case.
    pub fn lookup(&self, title: &str, artist: &str) -> (found: Option<Song>)
        ensures
            unique_keys(self@),
            found is Some <==> holds(self@, key_of(title@, artist@)),
            found matches Some(song) ==> Some(song@) == looked_up(self@, key_of(title@, artist@)),
    {
        let key = lookup_key(title, artist);
        match self.find(&key.0, &key.1) {
            Some(i) => Some(self.rows[i].song.clone()),
            None => None,
        }
    }

    /// Writes a song where no row has its key, and leaves the table as it is
    /// where one has. Says whether the song was added.
    pub fn upsert(&mut self, song: Song) -> (added: bool)
        ensures
            final(self)@ == upserted(old(self)@, song@),
            added <==> !holds(old(self)@, song_key(song@)),
            unique_keys(final(self)@),
    {
        let key = lookup_key(song.title.as_str(), song.artist.as_str());
        let place = self.find(&key.0, &key.1);
        proof {
            use_type_invariant(&*self);
            lemma_upsert_keeps_keys_unique(self@, song@);
        }
        match place {
            Some(_) => false,
            None => {
                // The rows are taken out while the new one is added, so that
                // the table is well formed whenever it can be seen.
                let ghost before = self.rows@;
                let mut rows: Vec<Row> = Vec::new();
                core::mem::swap(&mut self.rows, &mut rows);
                rows.push(Row { title_key: key.0, artist_key: key.1, song });
                assert(rows@.map_values(|row: Row| row.song@) =~= before.map_values(
                    |row: Row| row.song@,
                ).push(song@));
                core::mem::swap(&mut self.rows, &mut rows);
                true
            },
        }
    }
}

} // verus!
