use song_resolver::catalog::{duration_of_length, CatalogError};
use song_resolver::model::{RawCandidate, ReleaseInfo, Song};
use song_resolver::resolver::{Action, Event, Resolution, ResolvedResponse};
use song_resolver::store::{SongTable, StoreUnavailable};

fn stored(title: &str, artist: &str) -> Song {
    Song {
        title: title.to_string(),
        artist: artist.to_string(),
        album: "In Utero".to_string(),
        year: Some(1993),
        duration_ms: Some(281000),
        genre: "Rock".to_string(),
    }
}

fn nevermind() -> RawCandidate {
    RawCandidate {
        external_id: "5fb524f1".to_string(),
        title: "Nevermind".to_string(),
        duration_ms: duration_of_length(Some(301000)),
        releases: vec![ReleaseInfo { title: "Nevermind".to_string(), date: None }],
        tags: vec!["Grunge".to_string()],
    }
}

fn lookup(title: &str, artist: &str) -> Action {
    Action::LookupStore { title: title.to_string(), artist: artist.to_string() }
}

fn query(title: &str, artist: &str) -> Action {
    Action::QueryCatalog { title: title.to_string(), artist: artist.to_string() }
}

fn not_found(title: &str, artist: &str) -> ResolvedResponse {
    ResolvedResponse::NotFound { title: title.to_string(), artist: artist.to_string() }
}

/// Runs a resolution against a table and a catalog that answers once.
fn resolve(
    table: &mut SongTable,
    catalog: &mut Option<Result<Vec<RawCandidate>, CatalogError>>,
    title: &str,
    artist: &str,
) -> (ResolvedResponse, Vec<&'static str>) {
    let mut resolution = Resolution::start(title, artist);
    let mut asked = Vec::new();
    loop {
        let event = match resolution.action() {
            Action::LookupStore { title, artist } => {
                asked.push("lookup");
                Event::StoreRead(Ok(table.lookup(&title, &artist).into_iter().collect()))
            }
            Action::QueryCatalog { .. } => {
                asked.push("query");
                Event::CatalogAnswered(catalog.take().expect("the catalog is asked once"))
            }
            Action::Upsert(song) => {
                asked.push("upsert");
                table.upsert(song);
                Event::StoreWritten(Ok(()))
            }
            Action::Respond(response) => return (response, asked),
        };
        assert!(resolution.accepts(&event));
        resolution = resolution.step(event);
    }
}

#[test]
fn a_resolution_starts_with_the_store() {
    let resolution = Resolution::start("lithium", "nirvana");
    assert_eq!(resolution.action(), lookup("lithium", "nirvana"));
    assert_eq!(resolution.response(), None);
}

#[test]
fn a_stored_song_is_the_answer() {
    let resolution = Resolution::start("rape me", "nirvana")
        .step(Event::StoreRead(Ok(vec![stored("rape me", "nirvana")])));
    assert_eq!(resolution.response(), Some(ResolvedResponse::Found(stored("rape me", "nirvana"))));
    assert_eq!(
        resolution.action(),
        Action::Respond(ResolvedResponse::Found(stored("rape me", "nirvana")))
    );
}

#[test]
fn the_first_of_several_rows_is_the_answer() {
    let resolution = Resolution::start("rape me", "nirvana")
        .step(Event::StoreRead(Ok(vec![stored("Rape Me", "Nirvana"), stored("rape me", "nirvana")])));
    assert_eq!(resolution.response(), Some(ResolvedResponse::Found(stored("Rape Me", "Nirvana"))));
}

#[test]
fn after_a_stored_song_the_catalog_is_never_asked() {
    let mut resolution = Resolution::start("rape me", "nirvana");
    let mut actions = vec![resolution.action()];
    let events = vec![
        Event::StoreRead(Ok(vec![stored("rape me", "nirvana")])),
        Event::CatalogAnswered(Ok(vec![nevermind()])),
        Event::StoreWritten(Ok(())),
        Event::StoreRead(Ok(Vec::new())),
        Event::CatalogAnswered(Err(CatalogError::Transport)),
    ];
    for event in events {
        resolution = resolution.step(event);
        actions.push(resolution.action());
    }
    assert_eq!(actions[0], lookup("rape me", "nirvana"));
    for action in &actions[1..] {
        assert_eq!(*action, Action::Respond(ResolvedResponse::Found(stored("rape me", "nirvana"))));
    }
}

#[test]
fn an_empty_store_read_asks_the_catalog() {
    let resolution = Resolution::start("lithium", "nirvana").step(Event::StoreRead(Ok(Vec::new())));
    assert_eq!(resolution.action(), query("lithium", "nirvana"));
    assert_eq!(resolution.response(), None);
}

#[test]
fn an_unavailable_store_asks_the_catalog() {
    let resolution =
        Resolution::start("lithium", "nirvana").step(Event::StoreRead(Err(StoreUnavailable)));
    assert_eq!(resolution.action(), query("lithium", "nirvana"));
}

#[test]
fn a_catalog_hit_is_written_and_answered() {
    let expected = Song {
        title: "smells like teen spirit".to_string(),
        artist: "nirvana".to_string(),
        album: "Nevermind".to_string(),
        year: None,
        duration_ms: Some(301000),
        genre: "Grunge".to_string(),
    };
    let mut resolution = Resolution::start("smells like teen spirit", "nirvana");
    let mut upserts = 0;
    resolution = resolution.step(Event::StoreRead(Ok(Vec::new())));
    assert_eq!(resolution.action(), query("smells like teen spirit", "nirvana"));
    resolution = resolution.step(Event::CatalogAnswered(Ok(vec![nevermind()])));
    if let Action::Upsert(song) = resolution.action() {
        assert_eq!(song, expected);
        upserts += 1;
    }
    assert_eq!(resolution.response(), None);
    resolution = resolution.step(Event::StoreWritten(Ok(())));
    if let Action::Upsert(_) = resolution.action() {
        upserts += 1;
    }
    assert_eq!(upserts, 1);
    assert_eq!(resolution.response(), Some(ResolvedResponse::Found(expected)));
}

#[test]
fn a_failed_write_does_not_change_the_answer() {
    let resolution = Resolution::start("smells like teen spirit", "nirvana")
        .step(Event::StoreRead(Err(StoreUnavailable)))
        .step(Event::CatalogAnswered(Ok(vec![nevermind()])))
        .step(Event::StoreWritten(Err(StoreUnavailable)));
    match resolution.response() {
        Some(ResolvedResponse::Found(song)) => {
            assert_eq!(song.title, "smells like teen spirit");
            assert_eq!(song.artist, "nirvana");
            assert_eq!(song.album, "Nevermind");
            assert_eq!(song.year, None);
            assert_eq!(song.duration_ms, Some(301000));
            assert_eq!(song.genre, "Grunge");
        }
        other => panic!("not a found song: {:?}", other),
    }
}

#[test]
fn a_catalog_without_recordings_is_not_found_and_nothing_is_written() {
    let mut resolution = Resolution::start("no such song", "nobody");
    let mut actions = Vec::new();
    for event in [
        Event::StoreRead(Ok(Vec::new())),
        Event::CatalogAnswered(Ok(Vec::new())),
        Event::StoreWritten(Ok(())),
    ] {
        resolution = resolution.step(event);
        actions.push(resolution.action());
    }
    assert_eq!(actions[0], query("no such song", "nobody"));
    assert_eq!(actions[1], Action::Respond(not_found("no such song", "nobody")));
    assert_eq!(actions[2], Action::Respond(not_found("no such song", "nobody")));
    assert!(!actions.iter().any(|action| matches!(action, Action::Upsert(_))));
}

#[test]
fn a_catalog_that_reports_not_found_is_not_found() {
    let resolution = Resolution::start("no such song", "nobody")
        .step(Event::StoreRead(Ok(Vec::new())))
        .step(Event::CatalogAnswered(Err(CatalogError::NotFound)));
    assert_eq!(resolution.response(), Some(not_found("no such song", "nobody")));
}

#[test]
fn a_catalog_that_fails_is_not_found() {
    let resolution = Resolution::start("lithium", "nirvana")
        .step(Event::StoreRead(Err(StoreUnavailable)))
        .step(Event::CatalogAnswered(Err(CatalogError::Transport)));
    assert_eq!(resolution.response(), Some(not_found("lithium", "nirvana")));
    assert_eq!(resolution.action(), Action::Respond(not_found("lithium", "nirvana")));
}

#[test]
fn an_event_that_is_not_waited_for_changes_nothing() {
    let resolution = Resolution::start("lithium", "nirvana");
    assert!(!resolution.accepts(&Event::CatalogAnswered(Ok(vec![nevermind()]))));
    assert!(!resolution.accepts(&Event::StoreWritten(Ok(()))));
    assert!(resolution.accepts(&Event::StoreRead(Ok(Vec::new()))));
    let resolution = resolution
        .step(Event::CatalogAnswered(Ok(vec![nevermind()])))
        .step(Event::StoreWritten(Ok(())));
    assert_eq!(resolution.action(), lookup("lithium", "nirvana"));

    let resolution = resolution.step(Event::StoreRead(Ok(Vec::new())));
    assert!(!resolution.accepts(&Event::StoreRead(Ok(Vec::new()))));
    assert!(resolution.accepts(&Event::CatalogAnswered(Err(CatalogError::Transport))));
    let resolution = resolution.step(Event::StoreRead(Ok(vec![stored("lithium", "nirvana")])));
    assert_eq!(resolution.action(), query("lithium", "nirvana"));

    let resolution = resolution.step(Event::CatalogAnswered(Ok(vec![nevermind()])));
    assert!(resolution.accepts(&Event::StoreWritten(Err(StoreUnavailable))));
    let waiting = resolution.action();
    let resolution = resolution.step(Event::CatalogAnswered(Ok(Vec::new())));
    assert_eq!(resolution.action(), waiting);

    let resolution = resolution.step(Event::StoreWritten(Ok(())));
    assert!(!resolution.accepts(&Event::StoreWritten(Ok(()))));
    assert!(!resolution.accepts(&Event::StoreRead(Ok(Vec::new()))));
}

#[test]
fn the_error_names_title_and_artist() {
    assert_eq!(
        not_found("lithium", "nirvana").error_message(),
        Some("Song not found for title: lithium, artist: nirvana".to_string())
    );
    assert_eq!(
        not_found("", "").error_message(),
        Some("Song not found for title: , artist: ".to_string())
    );
}

#[test]
fn a_found_song_has_no_error() {
    assert_eq!(ResolvedResponse::Found(stored("a", "b")).error_message(), None);
}

#[test]
fn a_miss_fills_the_table_and_the_next_resolution_hits_it() {
    let mut table = SongTable::new();
    let mut catalog = Some(Ok(vec![nevermind()]));
    let (first, asked) = resolve(&mut table, &mut catalog, "smells like teen spirit", "nirvana");
    assert_eq!(asked, vec!["lookup", "query", "upsert"]);
    assert_eq!(table.len(), 1);

    let mut catalog = None;
    let (second, asked) = resolve(&mut table, &mut catalog, "Smells Like Teen Spirit", "Nirvana");
    assert_eq!(asked, vec!["lookup"]);
    assert_eq!(table.len(), 1);
    assert_eq!(first, second);
    match second {
        ResolvedResponse::Found(song) => assert_eq!(song.album, "Nevermind"),
        other => panic!("not a found song: {:?}", other),
    }
}

#[test]
fn a_song_that_the_catalog_lacks_is_not_stored() {
    let mut table = SongTable::new();
    let mut catalog = Some(Ok(Vec::new()));
    let (response, asked) = resolve(&mut table, &mut catalog, "no such song", "nobody");
    assert_eq!(response, not_found("no such song", "nobody"));
    assert_eq!(asked, vec!["lookup", "query"]);
    assert_eq!(table.len(), 0);

    let mut catalog = Some(Err(CatalogError::Transport));
    let (response, asked) = resolve(&mut table, &mut catalog, "no such song", "nobody");
    assert_eq!(response, not_found("no such song", "nobody"));
    assert_eq!(asked, vec!["lookup", "query"]);
    assert_eq!(table.len(), 0);
}

#[test]
fn two_resolutions_that_both_miss_leave_one_row() {
    let mut table = SongTable::new();
    let first = Resolution::start("polly", "nirvana").step(Event::StoreRead(Ok(Vec::new())));
    let second = Resolution::start("polly", "nirvana").step(Event::StoreRead(Ok(Vec::new())));
    let first = first.step(Event::CatalogAnswered(Ok(vec![nevermind()])));
    let second = second.step(Event::CatalogAnswered(Ok(vec![nevermind()])));
    for resolution in [&first, &second] {
        match resolution.action() {
            Action::Upsert(song) => {
                table.upsert(song);
            }
            other => panic!("not a write: {:?}", other),
        }
    }
    assert_eq!(table.len(), 1);
    let first = first.step(Event::StoreWritten(Ok(())));
    let second = second.step(Event::StoreWritten(Ok(())));
    assert_eq!(first.response(), second.response());
}
