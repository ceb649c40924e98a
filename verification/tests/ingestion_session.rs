use my_music::add_song::{
    first_disallowed, is_allowed_mime_type, propose, ClientMetadata, CloseReason, Session,
    SessionAction, SessionEvent, SessionState, MAX_MESSAGE_SIZE, MAX_WRITE_BUFFER_SIZE,
    WRITE_BUFFER_SIZE,
};
use my_music::audio::{assemble_metadata, AlbumCover, InitSongInfo, ParsedMetadata, Revision};
use my_music::persist::{
    AddSongResult, FinalMetadata, PersistAction, PersistEvent, PersistenceCoordinator,
};

fn file(name: &str, size: usize, mime: &str) -> InitSongInfo {
    InitSongInfo { name: name.to_string(), size, mime_type: mime.to_string() }
}

fn parsed(title: Option<&str>) -> ParsedMetadata {
    ParsedMetadata {
        title: title.map(|t| t.to_string()),
        album: None,
        artists: Vec::new(),
        album_cover: None,
    }
}

fn final_meta(title: &str) -> FinalMetadata {
    FinalMetadata {
        title: title.to_string(),
        album: None,
        artists: Vec::new(),
        storage_backend: "init".to_string(),
    }
}

fn nothing() -> AddSongResult {
    AddSongResult { created_album: None, added_album: None, created_artists: None, added_artists: None }
}

#[test]
fn transport_limits() {
    assert_eq!(MAX_MESSAGE_SIZE, 134_217_728);
    assert_eq!(MAX_WRITE_BUFFER_SIZE, 131_072);
    assert_eq!(WRITE_BUFFER_SIZE, 16_384);
}

#[test]
fn allowed_mime_types() {
    for mime in ["audio/flac", "audio/mp3", "audio/mpeg"] {
        assert!(is_allowed_mime_type(&mime.to_string()));
    }
    for mime in ["audio/ogg", "video/mp4", "", "audio/flac ", "AUDIO/FLAC", "image/png"] {
        assert!(!is_allowed_mime_type(&mime.to_string()));
    }
}

#[test]
fn first_disallowed_position() {
    let manifest = vec![
        file("a", 1, "audio/flac"),
        file("b", 1, "audio/ogg"),
        file("c", 1, "video/mp4"),
    ];
    assert_eq!(first_disallowed(&manifest), Some(1));
    assert_eq!(first_disallowed(&manifest[..1].to_vec()), None);
    assert_eq!(first_disallowed(&Vec::new()), None);
}

#[test]
fn proposal_defaults_title() {
    let cover = AlbumCover { data: vec![1, 2], mime_type: "image/png".to_string() };
    let (proposed, kept) = propose(ParsedMetadata {
        title: None,
        album: Some("A".to_string()),
        artists: vec!["B".to_string()],
        album_cover: Some(cover.clone()),
    });
    assert_eq!(
        proposed,
        ClientMetadata {
            title: "Unknown Title".to_string(),
            album: Some("A".to_string()),
            artists: vec!["B".to_string()],
        }
    );
    assert_eq!(kept, Some(cover));
    let (proposed, kept) = propose(parsed(Some("T")));
    assert_eq!(proposed.title, "T");
    assert_eq!(kept, None);
}

#[test]
fn new_session_awaits_manifest() {
    let session = Session::new();
    assert_eq!(session.state(), SessionState::AwaitingManifest);
    assert!(session.expects_frame());
    assert_eq!(session.current_file(), None);
    assert!(session.song_data().is_empty());
    assert_eq!(session.album_cover(), None);
}

#[test]
fn disallowed_mime_type_closes_session_after_one_error() {
    let mut session = Session::new();
    let actions = session.step(SessionEvent::Manifest(vec![
        file("a.flac", 10, "audio/flac"),
        file("b.ogg", 10, "audio/ogg"),
        file("c.wav", 10, "audio/wav"),
    ]));
    assert_eq!(
        actions,
        vec![
            SessionAction::SendError("Invalid mime type: audio/ogg".to_string()),
            SessionAction::Close,
        ]
    );
    assert_eq!(session.state(), SessionState::Closed(CloseReason::ManifestRejected));
    assert!(!session.expects_frame());
    assert_eq!(session.current_file(), None);
    assert_eq!(session.step(SessionEvent::RawBytes(vec![1, 2, 3])), Vec::new());
    assert_eq!(session.state(), SessionState::Closed(CloseReason::ManifestRejected));
    assert!(session.song_data().is_empty());
}

#[test]
fn empty_manifest_closes_cleanly() {
    let mut session = Session::new();
    assert_eq!(session.step(SessionEvent::Manifest(Vec::new())), vec![SessionAction::Close]);
    assert_eq!(session.state(), SessionState::Closed(CloseReason::Completed));
}

#[test]
fn two_files_are_taken_in_manifest_order() {
    let mut session = Session::new();
    let manifest = vec![file("one.flac", 3, "audio/flac"), file("two.mp3", 2, "audio/mpeg")];
    assert_eq!(session.step(SessionEvent::Manifest(manifest.clone())), Vec::new());
    assert_eq!(session.state(), SessionState::AwaitingRawBytes);
    assert_eq!(session.current_file(), Some(&manifest[0]));

    assert_eq!(
        session.step(SessionEvent::RawBytes(vec![1, 2, 3])),
        vec![SessionAction::ExtractMetadata]
    );
    assert_eq!(session.state(), SessionState::ExtractingMetadata);
    assert!(!session.expects_frame());
    assert_eq!(session.song_data(), &vec![1, 2, 3]);

    assert_eq!(
        session.step(SessionEvent::MetadataExtracted(parsed(Some("One")))),
        vec![SessionAction::SendMetadata(ClientMetadata {
            title: "One".to_string(),
            album: None,
            artists: Vec::new(),
        })]
    );
    assert_eq!(session.state(), SessionState::AwaitingFinalMetadata);
    assert!(session.expects_frame());

    assert_eq!(
        session.step(SessionEvent::FinalMetadata(final_meta("One"))),
        vec![SessionAction::Persist(final_meta("One"))]
    );
    assert_eq!(session.state(), SessionState::Persisting);

    assert_eq!(
        session.step(SessionEvent::Persisted(nothing())),
        vec![SessionAction::SendResult(nothing())]
    );
    assert_eq!(session.state(), SessionState::AwaitingRawBytes);
    assert_eq!(session.current_file(), Some(&manifest[1]));
    assert!(session.song_data().is_empty());

    session.step(SessionEvent::RawBytes(vec![9, 9]));
    session.step(SessionEvent::MetadataExtracted(parsed(None)));
    session.step(SessionEvent::FinalMetadata(final_meta("Two")));
    assert_eq!(
        session.step(SessionEvent::Persisted(nothing())),
        vec![SessionAction::SendResult(nothing()), SessionAction::Close]
    );
    assert_eq!(session.state(), SessionState::Closed(CloseReason::Completed));
    assert_eq!(session.step(SessionEvent::Disconnected), Vec::new());
    assert_eq!(session.state(), SessionState::Closed(CloseReason::Completed));
}

#[test]
fn failed_persist_keeps_bytes_and_awaits_metadata_again() {
    let mut session = Session::new();
    session.step(SessionEvent::Manifest(vec![file("one.flac", 3, "audio/flac")]));
    session.step(SessionEvent::RawBytes(vec![1, 2, 3]));
    let cover = AlbumCover { data: vec![7], mime_type: "image/png".to_string() };
    session.step(SessionEvent::MetadataExtracted(ParsedMetadata {
        title: Some("One".to_string()),
        album: None,
        artists: Vec::new(),
        album_cover: Some(cover.clone()),
    }));
    session.step(SessionEvent::FinalMetadata(final_meta("Wrong")));
    for attempt in 0..3 {
        assert_eq!(
            session.step(SessionEvent::PersistFailed(format!("failure {attempt}"))),
            vec![SessionAction::SendError(format!("failure {attempt}"))]
        );
        assert_eq!(session.state(), SessionState::AwaitingFinalMetadata);
        assert!(session.expects_frame());
        assert_eq!(session.song_data(), &vec![1, 2, 3]);
        assert_eq!(session.album_cover(), Some(&cover));
        assert_eq!(
            session.step(SessionEvent::FinalMetadata(final_meta("Right"))),
            vec![SessionAction::Persist(final_meta("Right"))]
        );
        assert_eq!(session.state(), SessionState::Persisting);
    }
    assert_eq!(
        session.step(SessionEvent::Persisted(nothing())),
        vec![SessionAction::SendResult(nothing()), SessionAction::Close]
    );
}

#[test]
fn upload_is_rejected_while_metadata_is_awaited() {
    let mut session = Session::new();
    session.step(SessionEvent::Manifest(vec![file("one.flac", 3, "audio/flac")]));
    session.step(SessionEvent::RawBytes(vec![1]));
    session.step(SessionEvent::MetadataExtracted(parsed(None)));
    assert_eq!(session.step(SessionEvent::RawBytes(vec![2])), Vec::new());
    assert_eq!(session.state(), SessionState::Closed(CloseReason::InvalidMessage));
}

#[test]
fn disconnect_in_any_open_state_is_a_protocol_violation() {
    let mut fresh = Session::new();
    assert_eq!(fresh.step(SessionEvent::Disconnected), Vec::new());
    assert_eq!(fresh.state(), SessionState::Closed(CloseReason::InvalidMessage));

    let mut waiting = Session::new();
    waiting.step(SessionEvent::Manifest(vec![file("one.flac", 3, "audio/flac")]));
    assert_eq!(waiting.step(SessionEvent::Disconnected), Vec::new());
    assert_eq!(waiting.state(), SessionState::Closed(CloseReason::InvalidMessage));
    assert_eq!(waiting.current_file(), None);
}

#[test]
fn malformed_message_ends_session() {
    let mut session = Session::new();
    assert_eq!(session.step(SessionEvent::Malformed), Vec::new());
    assert_eq!(session.state(), SessionState::Closed(CloseReason::MalformedMessage));
    assert_eq!(session.step(SessionEvent::Manifest(Vec::new())), Vec::new());
    assert_eq!(session.state(), SessionState::Closed(CloseReason::MalformedMessage));
}

#[test]
fn out_of_order_events_end_session() {
    let mut session = Session::new();
    assert_eq!(session.step(SessionEvent::FinalMetadata(final_meta("x"))), Vec::new());
    assert_eq!(session.state(), SessionState::Closed(CloseReason::InvalidMessage));

    let mut second = Session::new();
    second.step(SessionEvent::Manifest(vec![file("one.flac", 3, "audio/flac")]));
    assert_eq!(second.step(SessionEvent::Persisted(nothing())), Vec::new());
    assert_eq!(second.state(), SessionState::Closed(CloseReason::InvalidMessage));
}

#[test]
fn upload_of_untagged_flac_with_album_and_artist() {
    let mut session = Session::new();
    let manifest = vec![file("track.flac", 4_000_000, "audio/flac")];
    assert_eq!(session.step(SessionEvent::Manifest(manifest.clone())), Vec::new());

    let bytes = vec![0u8; 4_000_000];
    assert_eq!(
        session.step(SessionEvent::RawBytes(bytes)),
        vec![SessionAction::ExtractMetadata]
    );
    // A FLAC file without tags holds one revision of metadata, which is empty.
    let untagged = Revision { tags: Vec::new(), visuals: Vec::new() };
    let extracted = assemble_metadata(session.current_file().unwrap(), Some(&untagged), None);
    assert_eq!(extracted.title, None);
    assert_eq!(
        session.step(SessionEvent::MetadataExtracted(extracted)),
        vec![SessionAction::SendMetadata(ClientMetadata {
            title: "Unknown Title".to_string(),
            album: None,
            artists: Vec::new(),
        })]
    );

    let confirmed = FinalMetadata {
        title: "My Song".to_string(),
        album: Some("My Album".to_string()),
        artists: vec!["Jane".to_string()],
        storage_backend: "init".to_string(),
    };
    let actions = session.step(SessionEvent::FinalMetadata(confirmed.clone()));
    assert_eq!(actions, vec![SessionAction::Persist(confirmed.clone())]);
    assert_eq!(session.song_data().len(), 4_000_000);

    let (mut coordinator, first) = PersistenceCoordinator::start_at(
        confirmed,
        session.current_file().unwrap().mime_type.clone(),
        session.album_cover().map(|cover| cover.mime_type.clone()),
        1_700_000_000,
    );
    let mut performed = vec![first];
    loop {
        let event = match performed.last().unwrap() {
            PersistAction::InsertSong { .. } => PersistEvent::SongInserted(1),
            PersistAction::Done(_) | PersistAction::Fail(_) => break,
            _ => PersistEvent::Succeeded,
        };
        performed.push(coordinator.advance(event));
    }
    let result = AddSongResult {
        created_album: Some(true),
        added_album: Some(true),
        created_artists: Some(true),
        added_artists: Some(true),
    };
    assert_eq!(
        performed,
        vec![
            PersistAction::ResolveBackend { name: "init".to_string() },
            PersistAction::WriteSong { path: "songs/My Song-1700000000.flac".to_string() },
            PersistAction::InsertSong {
                title: "My Song".to_string(),
                path: "songs/My Song-1700000000.flac".to_string(),
                mime_type: "audio/flac".to_string(),
                backend: "init".to_string(),
            },
            PersistAction::InsertAlbum { title: "My Album".to_string() },
            PersistAction::AddAlbumTag { song_id: 1, tag: "My Album".to_string() },
            PersistAction::InsertArtists { names: vec!["Jane".to_string()] },
            PersistAction::AddArtistTags { song_id: 1, tags: vec!["Jane".to_string()] },
            PersistAction::Done(result),
        ]
    );
    assert_eq!(
        session.step(SessionEvent::Persisted(result)),
        vec![SessionAction::SendResult(result), SessionAction::Close]
    );
    assert_eq!(session.state(), SessionState::Closed(CloseReason::Completed));
}
