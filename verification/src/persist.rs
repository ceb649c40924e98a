//! Committing one ingested file: its bytes go to a storage backend, then its
//! song row is created, then album and artists are attached as far as they
//! can be. The coordinator decides each step from how the last one went; the
//! caller performs the steps against the backend and the relational store.

use crate::error::ApiError;
use crate::text::{
    after_first_slash, copy_strings, escape_slashes, push_signed_decimal, replace_slashes,
    signed_decimal, subtype_of,
};
use vstd::prelude::*;

verus! {

/// The metadata that the client confirms for a file.
#[derive(Debug, Clone, PartialEq, Eq)]
pub struct FinalMetadata {
    pub title: String,
    pub album: Option<String>,
    pub artists: Vec<String>,
    /// Name of the storage backend that takes the file.
    pub storage_backend: String,
}

/// The mathematical value of a [`FinalMetadata`].
pub struct FinalMetadataView {
    pub title: Seq<char>,
    pub album: Option<Seq<char>>,
    pub artists: Seq<Seq<char>>,
    pub storage_backend: Seq<char>,
}

impl View for FinalMetadata {
    type V = FinalMetadataView;

    open spec fn view(&self) -> FinalMetadataView {
        FinalMetadataView {
            title: self.title@,
            album: self.album.deep_view(),
            artists: self.artists.deep_view(),
            storage_backend: self.storage_backend@,
        }
    }
}

impl DeepView for FinalMetadata {
    type V = FinalMetadataView;

    open spec fn deep_view(&self) -> FinalMetadataView {
        self@
    }
}

/// What became of the album and the artists of a persisted file. A field is
/// absent exactly where the client asked for no album, or for no artist.
#[derive(Debug, Clone, Copy, PartialEq, Eq, Structural)]
pub struct AddSongResult {
    /// Whether the album exists now.
    pub created_album: Option<bool>,
    /// Whether the album's tag is on the song.
    pub added_album: Option<bool>,
    /// Whether the artists exist now.
    pub created_artists: Option<bool>,
    /// Whether the artists' tags are on the song.
    pub added_artists: Option<bool>,
}

/// Why a file could not be persisted. After each of these no song row exists
/// for the attempt, and the client may send its final metadata again.
#[derive(Debug, Clone, Copy, PartialEq, Eq, Structural)]
pub enum PersistFailure {
    /// The relational store failed while the backend was looked up.
    BackendLookup,
    /// No backend has the name that the client chose.
    BackendNotFound,
    /// The file's mime type has no subtype to name the stored object by.
    InvalidMimeType,
    /// The backend did not take the file's bytes.
    StorageWrite,
    /// The relational store did not take the song row.
    SongInsert,
}

/// Where the coordinator stands.
#[derive(Debug, Clone, Copy, PartialEq, Eq, Structural)]
pub enum PersistState {
    ResolvingBackend,
    WritingSong,
    InsertingSong,
    WritingCover,
    InsertingAlbum,
    LinkingAlbum,
    InsertingArtists,
    LinkingArtists,
    Finished,
    Failed(PersistFailure),
}

/// How the step that the coordinator asked for went.
#[derive(Debug, Clone, Copy, PartialEq, Eq, Structural)]
pub enum PersistEvent {
    /// The step was carried out.
    Succeeded,
    /// The song row was created, with this id.
    SongInserted(i64),
    /// What was looked up does not exist.
    NotFound,
    /// The step failed.
    Failed,
}

/// The step that the caller performs next.
#[derive(Debug, Clone, PartialEq, Eq)]
pub enum PersistAction {
    /// Look up the storage backend of this name.
    ResolveBackend { name: String },
    /// Write the file's bytes to the backend, under this path.
    WriteSong { path: String },
    /// Create the song row and its source row, in one transaction.
    InsertSong { title: String, path: String, mime_type: String, backend: String },
    /// Write the cover's bytes to the backend, under this path.
    WriteCover { path: String },
    /// Create or reuse the album and its tag.
    InsertAlbum { title: String },
    /// Create or reuse the album and its tag, with a source for the cover.
    InsertAlbumWithCover { title: String, path: String, mime_type: String, backend: String },
    /// Put the album's tag on the song.
    AddAlbumTag { song_id: i64, tag: String },
    /// Create or reuse the artists and their tags.
    InsertArtists { names: Vec<String> },
    /// Put the artists' tags on the song.
    AddArtistTags { song_id: i64, tags: Vec<String> },
    /// The file is persisted: report this to the client.
    Done(AddSongResult),
    /// The file is not persisted: report the failure to the client.
    Fail(PersistFailure),
}

/// The mathematical value of a [`PersistAction`].
pub enum PersistActionView {
    ResolveBackend { name: Seq<char> },
    WriteSong { path: Seq<char> },
    InsertSong { title: Seq<char>, path: Seq<char>, mime_type: Seq<char>, backend: Seq<char> },
    WriteCover { path: Seq<char> },
    InsertAlbum { title: Seq<char> },
    InsertAlbumWithCover {
        title: Seq<char>,
        path: Seq<char>,
        mime_type: Seq<char>,
        backend: Seq<char>,
    },
    AddAlbumTag { song_id: i64, tag: Seq<char> },
    InsertArtists { names: Seq<Seq<char>> },
    AddArtistTags { song_id: i64, tags: Seq<Seq<char>> },
    Done(AddSongResult),
    Fail(PersistFailure),
}

impl View for PersistAction {
    type V = PersistActionView;

    open spec fn view(&self) -> PersistActionView {
        match self {
            PersistAction::ResolveBackend { name } => PersistActionView::ResolveBackend {
                name: name@,
            },
            PersistAction::WriteSong { path } => PersistActionView::WriteSong { path: path@ },
            PersistAction::InsertSong {
                title,
                path,
                mime_type,
                backend,
            } => PersistActionView::InsertSong {
                title: title@,
                path: path@,
                mime_type: mime_type@,
                backend: backend@,
            },
            PersistAction::WriteCover { path } => PersistActionView::WriteCover { path: path@ },
            PersistAction::InsertAlbum { title } => PersistActionView::InsertAlbum {
                title: title@,
            },
            PersistAction::InsertAlbumWithCover {
                title,
                path,
                mime_type,
                backend,
            } => PersistActionView::InsertAlbumWithCover {
                title: title@,
                path: path@,
                mime_type: mime_type@,
                backend: backend@,
            },
            PersistAction::AddAlbumTag { song_id, tag } => PersistActionView::AddAlbumTag {
                song_id: *song_id,
                tag: tag@,
            },
            PersistAction::InsertArtists { names } => PersistActionView::InsertArtists {
                names: names.deep_view(),
            },
            PersistAction::AddArtistTags { song_id, tags } => PersistActionView::AddArtistTags {
                song_id: *song_id,
                tags: tags.deep_view(),
            },
            PersistAction::Done(result) => PersistActionView::Done(*result),
            PersistAction::Fail(failure) => PersistActionView::Fail(*failure),
        }
    }
}

/// The path under which a song is stored: `songs/{title}-{timestamp}.{subtype}`,
/// the title with its slashes replaced.
pub open spec fn song_path(title: Seq<char>, timestamp: i64, subtype: Seq<char>) -> Seq<char> {
    "songs/"@ + escape_slashes(title) + "-"@ + signed_decimal(timestamp as int) + "."@ + subtype
}

/// The path under which the cover of an album is stored:
/// `images/{album}.{subtype}`, the album's title with its slashes replaced.
pub open spec fn cover_path(album: Seq<char>, subtype: Seq<char>) -> Seq<char> {
    "images/"@ + escape_slashes(album) + "."@ + subtype
}

/// The path under which a song of this title and mime type is stored when it
/// is written at `timestamp`. There is none where the mime type has no
/// subtype.
pub fn storage_path(title: &str, timestamp: i64, mime_type: &str) -> (path: Option<String>)
    ensures
        path.deep_view() == match subtype_of(mime_type@) {
            Some(subtype) => Some(song_path(title@, timestamp, subtype)),
            None => None,
        },
{
    match after_first_slash(mime_type) {
        Some(subtype) => {
            let mut path = String::from_str("songs/");
            let escaped = replace_slashes(title);
            path.append(escaped.as_str());
            path.append("-");
            push_signed_decimal(&mut path, timestamp);
            path.append(".");
            path.append(subtype.as_str());
            Some(path)
        },
        None => None,
    }
}

/// The path under which the cover of this album is stored. There is none
/// where the cover's mime type has no subtype.
pub fn cover_storage_path(album: &str, mime_type: &str) -> (path: Option<String>)
    ensures
        path.deep_view() == match subtype_of(mime_type@) {
            Some(subtype) => Some(cover_path(album@, subtype)),
            None => None,
        },
{
    match after_first_slash(mime_type) {
        Some(subtype) => {
            let mut path = String::from_str("images/");
            let escaped = replace_slashes(album);
            path.append(escaped.as_str());
            path.append(".");
            path.append(subtype.as_str());
            Some(path)
        },
        None => None,
    }
}

/// The name of the backend that takes a file when the client names none.
pub fn default_storage_backend_name() -> (name: String)
    ensures
        name@ == "init"@,
{
    String::from_str("init")
}

/// Coordinates the persisting of one file.
#[derive(Debug)]
pub struct PersistenceCoordinator {
    state: PersistState,
    meta: FinalMetadata,
    mime_type: String,
    cover_mime_type: Option<String>,
    timestamp: i64,
    song_path: String,
    cover_path: String,
    song_id: Option<i64>,
    result: AddSongResult,
}

/// The mathematical value of a [`PersistenceCoordinator`].
pub struct CoordinatorView {
    pub state: PersistState,
    pub meta: FinalMetadataView,
    /// Mime type of the file.
    pub mime_type: Seq<char>,
    /// Mime type of the cover that was found in the file, if one was.
    pub cover_mime_type: Option<Seq<char>>,
    /// The time at which the attempt began.
    pub timestamp: i64,
    /// Where the file's bytes go; set once the backend is known.
    pub song_path: Seq<char>,
    /// Where the cover's bytes go; set once they are to be written.
    pub cover_path: Seq<char>,
    /// The id of the song row, once it exists.
    pub song_id: Option<i64>,
    /// What has become of album and artists so far.
    pub result: AddSongResult,
}

impl View for PersistenceCoordinator {
    type V = CoordinatorView;

    closed spec fn view(&self) -> CoordinatorView {
        CoordinatorView {
            state: self.state,
            meta: self.meta@,
            mime_type: self.mime_type@,
            cover_mime_type: self.cover_mime_type.deep_view(),
            timestamp: self.timestamp,
            song_path: self.song_path@,
            cover_path: self.cover_path@,
            song_id: self.song_id,
            result: self.result,
        }
    }
}

/// The result of a file for which nothing was asked yet.
pub open spec fn nothing_requested() -> AddSongResult {
    AddSongResult {
        created_album: None,
        added_album: None,
        created_artists: None,
        added_artists: None,
    }
}

impl CoordinatorView {
    /// The coordinator before its first step.
    pub open spec fn initial(
        meta: FinalMetadataView,
        mime_type: Seq<char>,
        cover_mime_type: Option<Seq<char>>,
        timestamp: i64,
    ) -> CoordinatorView {
        CoordinatorView {
            state: PersistState::ResolvingBackend,
            meta,
            mime_type,
            cover_mime_type,
            timestamp,
            song_path: Seq::empty(),
            cover_path: Seq::empty(),
            song_id: None,
            result: nothing_requested(),
        }
    }

    /// The first step: look up the backend that the client chose.
    pub open spec fn first_action(self) -> PersistActionView {
        PersistActionView::ResolveBackend { name: self.meta.storage_backend }
    }

    /// What holds of every coordinator: a song row exists exactly from the
    /// moment at which album and artists are dealt with, and album and
    /// artists are reported on only where the client asked for them.
    pub open spec fn wf(self) -> bool {
        &&& self.song_id is Some <==> (self.state is WritingCover || self.state is InsertingAlbum
            || self.state is LinkingAlbum || self.state is InsertingArtists
            || self.state is LinkingArtists || self.state is Finished)
        &&& self.result.created_album is Some ==> self.meta.album is Some
        &&& self.result.added_album is Some ==> self.meta.album is Some
        &&& self.result.created_artists is Some ==> self.meta.artists.len() > 0
        &&& self.result.added_artists is Some ==> self.meta.artists.len() > 0
        &&& self.result.created_album is Some <==> self.result.added_album is Some
        &&& self.result.created_artists is Some <==> self.result.added_artists is Some
        &&& (self.state is InsertingArtists || self.state is LinkingArtists || self.state
            is Finished) ==> (self.result.created_album is Some <==> self.meta.album is Some)
        &&& (self.state is InsertingArtists || self.state is LinkingArtists)
            ==> self.meta.artists.len() > 0 && self.result.created_artists is None
        &&& (self.state is WritingCover || self.state is InsertingAlbum || self.state
            is LinkingAlbum) ==> self.meta.album is Some
        &&& (self.state is ResolvingBackend || self.state is WritingSong || self.state
            is InsertingSong || self.state is WritingCover || self.state is InsertingAlbum
            || self.state is LinkingAlbum) ==> self.result == nothing_requested()
        &&& self.state is Finished ==> (self.result.created_artists is Some
            <==> self.meta.artists.len() > 0)
        &&& self.state is WritingCover ==> self.cover_mime_type is Some
    }

    /// The coordinator stops with a failure: the file is not persisted.
    pub open spec fn fail(self, failure: PersistFailure) -> (CoordinatorView, PersistActionView) {
        (
            CoordinatorView { state: PersistState::Failed(failure), ..self },
            PersistActionView::Fail(failure),
        )
    }

    /// The artists are dealt with: they are created where the client named
    /// any, and else the file is done.
    pub open spec fn turn_to_artists(self) -> (CoordinatorView, PersistActionView) {
        if self.meta.artists.len() > 0 {
            (
                CoordinatorView { state: PersistState::InsertingArtists, ..self },
                PersistActionView::InsertArtists { names: self.meta.artists },
            )
        } else {
            (
                CoordinatorView { state: PersistState::Finished, ..self },
                PersistActionView::Done(self.result),
            )
        }
    }

    /// The album could not be created, or its tag could not be put on the
    /// song: this is recorded, and the artists are dealt with all the same.
    pub open spec fn album_outcome(self, created: bool, added: bool) -> (
        CoordinatorView,
        PersistActionView,
    ) {
        CoordinatorView {
            result: AddSongResult {
                created_album: Some(created),
                added_album: Some(added),
                ..self.result
            },
            ..self
        }.turn_to_artists()
    }

    /// The artists' outcome is recorded, and the file is done.
    pub open spec fn artists_outcome(self, created: bool, added: bool) -> (
        CoordinatorView,
        PersistActionView,
    ) {
        let result = AddSongResult {
            created_artists: Some(created),
            added_artists: Some(added),
            ..self.result
        };
        (
            CoordinatorView { state: PersistState::Finished, result, ..self },
            PersistActionView::Done(result),
        )
    }

    /// The album is dealt with, once the song row exists: with a cover its
    /// bytes are written first, without one the album is created at once; and
    /// where the client named no album, the artists are next.
    pub open spec fn turn_to_album(self) -> (CoordinatorView, PersistActionView) {
        match self.meta.album {
            Some(album) => match self.cover_mime_type {
                Some(cover_mime_type) => match subtype_of(cover_mime_type) {
                    Some(subtype) => {
                        let path = cover_path(album, subtype);
                        (
                            CoordinatorView {
                                state: PersistState::WritingCover,
                                cover_path: path,
                                ..self
                            },
                            PersistActionView::WriteCover { path },
                        )
                    },
                    None => self.album_outcome(false, false),
                },
                None => (
                    CoordinatorView { state: PersistState::InsertingAlbum, ..self },
                    PersistActionView::InsertAlbum { title: album },
                ),
            },
            None => self.turn_to_artists(),
        }
    }

    /// The coordinator after the step that it asked for went as `event`
    /// says, and the step that it asks for next.
    pub open spec fn advance(self, event: PersistEvent) -> (CoordinatorView, PersistActionView) {
        match self.state {
            PersistState::ResolvingBackend => match event {
                PersistEvent::Succeeded => match subtype_of(self.mime_type) {
                    Some(subtype) => {
                        let path = song_path(self.meta.title, self.timestamp, subtype);
                        (
                            CoordinatorView {
                                state: PersistState::WritingSong,
                                song_path: path,
                                ..self
                            },
                            PersistActionView::WriteSong { path },
                        )
                    },
                    None => self.fail(PersistFailure::InvalidMimeType),
                },
                PersistEvent::NotFound => self.fail(PersistFailure::BackendNotFound),
                _ => self.fail(PersistFailure::BackendLookup),
            },
            PersistState::WritingSong => match event {
                PersistEvent::Succeeded => (
                    CoordinatorView { state: PersistState::InsertingSong, ..self },
                    PersistActionView::InsertSong {
                        title: self.meta.title,
                        path: self.song_path,
                        mime_type: self.mime_type,
                        backend: self.meta.storage_backend,
                    },
                ),
                _ => self.fail(PersistFailure::StorageWrite),
            },
            PersistState::InsertingSong => match event {
                PersistEvent::SongInserted(id) => CoordinatorView {
                    song_id: Some(id),
                    ..self
                }.turn_to_album(),
                _ => self.fail(PersistFailure::SongInsert),
            },
            PersistState::WritingCover => match event {
                PersistEvent::Succeeded => (
                    CoordinatorView { state: PersistState::InsertingAlbum, ..self },
                    PersistActionView::InsertAlbumWithCover {
                        title: self.meta.album.unwrap(),
                        path: self.cover_path,
                        mime_type: self.cover_mime_type.unwrap(),
                        backend: self.meta.storage_backend,
                    },
                ),
                _ => self.album_outcome(false, false),
            },
            PersistState::InsertingAlbum => match event {
                PersistEvent::Succeeded => (
                    CoordinatorView { state: PersistState::LinkingAlbum, ..self },
                    PersistActionView::AddAlbumTag {
                        song_id: self.song_id.unwrap(),
                        tag: self.meta.album.unwrap(),
                    },
                ),
                _ => self.album_outcome(false, false),
            },
            PersistState::LinkingAlbum => match event {
                PersistEvent::Succeeded => self.album_outcome(true, true),
                _ => self.album_outcome(true, false),
            },
            PersistState::InsertingArtists => match event {
                PersistEvent::Succeeded => (
                    CoordinatorView { state: PersistState::LinkingArtists, ..self },
                    PersistActionView::AddArtistTags {
                        song_id: self.song_id.unwrap(),
                        tags: self.meta.artists,
                    },
                ),
                _ => self.artists_outcome(false, false),
            },
            PersistState::LinkingArtists => match event {
                PersistEvent::Succeeded => self.artists_outcome(true, true),
                _ => self.artists_outcome(true, false),
            },
            PersistState::Finished => (self, PersistActionView::Done(self.result)),
            PersistState::Failed(failure) => (self, PersistActionView::Fail(failure)),
        }
    }

    /// The coordinator after the steps that it asked for, one after the
    /// other, went as `events` say.
    pub open spec fn run(self, events: Seq<PersistEvent>) -> CoordinatorView
        decreases events.len(),
    {
        if events.len() == 0 {
            self
        } else {
            self.advance(events[0]).0.run(events.drop_first())
        }
    }

    /// The number of song rows that come to exist while the coordinator
    /// takes in `events`: one for each insertion that it asked for and that
    /// succeeded.
    pub open spec fn song_rows(self, events: Seq<PersistEvent>) -> nat
        decreases events.len(),
    {
        if events.len() == 0 {
            0
        } else {
            let here: nat = if self.state is InsertingSong && events[0] is SongInserted {
                1
            } else {
                0
            };
            here + self.advance(events[0]).0.song_rows(events.drop_first())
        }
    }
}

/// Every step keeps the coordinator well-formed.
pub proof fn advance_keeps_wf(c: CoordinatorView, event: PersistEvent)
    requires
        c.wf(),
    ensures
        c.advance(event).0.wf(),
{
}

/// The bytes are written before any row is created: the coordinator asks for
/// the song row only when the backend has just taken the file's bytes.
pub proof fn song_row_follows_write(c: CoordinatorView, event: PersistEvent)
    requires
        c.advance(event).1 is InsertSong,
    ensures
        c.state is WritingSong,
        event is Succeeded,
{
}

/// Once the song row exists nothing makes the attempt fail: what goes wrong
/// with the album or the artists is recorded in the result, and the other of
/// the two is still attempted.
pub proof fn album_and_artists_never_abort(c: CoordinatorView, event: PersistEvent)
    requires
        c.wf(),
        c.song_id is Some,
    ensures
        !(c.advance(event).0.state is Failed),
        c.advance(event).0.song_id == c.song_id,
{
}

/// A failure with the album does not keep the artists from being attempted:
/// while the album is dealt with, every outcome leads on to the album's next
/// step, to the artists where the client named any, and to the end only
/// where it named none.
pub proof fn album_failure_leaves_artists(c: CoordinatorView, event: PersistEvent)
    requires
        c.wf(),
        c.state is WritingCover || c.state is InsertingAlbum || c.state is LinkingAlbum,
        !(event is Succeeded),
    ensures
        c.meta.artists.len() > 0 ==> c.advance(event).0.state is InsertingArtists
            && c.advance(event).1 == (PersistActionView::InsertArtists { names: c.meta.artists }),
        c.meta.artists.len() == 0 ==> c.advance(event).0.state is Finished,
        c.advance(event).0.result.added_album == Some(false),
        c.advance(event).0.result.created_album == Some(c.state is LinkingAlbum),
{
}

/// In the result of a persisted file each field is absent exactly where the
/// client asked for nothing of its kind.
pub proof fn result_reports_what_was_asked(c: CoordinatorView)
    requires
        c.wf(),
        c.state is Finished,
    ensures
        c.result.created_album is Some <==> c.meta.album is Some,
        c.result.added_album is Some <==> c.meta.album is Some,
        c.result.created_artists is Some <==> c.meta.artists.len() > 0,
        c.result.added_artists is Some <==> c.meta.artists.len() > 0,
{
}

/// However the steps go, the coordinator stays well-formed.
pub proof fn run_keeps_wf(c: CoordinatorView, events: Seq<PersistEvent>)
    requires
        c.wf(),
    ensures
        c.run(events).wf(),
    decreases events.len(),
{
    if events.len() > 0 {
        run_keeps_wf(c.advance(events[0]).0, events.drop_first());
    }
}

proof fn song_rows_follow_song_id(c: CoordinatorView, events: Seq<PersistEvent>)
    requires
        c.wf(),
    ensures
        (if c.song_id is Some {
            1nat
        } else {
            0nat
        }) + c.song_rows(events) == (if c.run(events).song_id is Some {
            1nat
        } else {
            0nat
        }),
    decreases events.len(),
{
    if events.len() > 0 {
        song_rows_follow_song_id(c.advance(events[0]).0, events.drop_first());
    }
}

/// One attempt to persist a file creates at most one song row: none where
/// the attempt fails, and exactly one where the file is persisted. So a
/// client that sends its final metadata again after a failure never ends up
/// with two song rows for the file.
pub proof fn attempt_creates_one_song_row_or_none(
    meta: FinalMetadataView,
    mime_type: Seq<char>,
    cover_mime_type: Option<Seq<char>>,
    timestamp: i64,
    events: Seq<PersistEvent>,
)
    ensures
        ({
            let start = CoordinatorView::initial(meta, mime_type, cover_mime_type, timestamp);
            let end = start.run(events);
            &&& start.song_rows(events) <= 1
            &&& end.state is Failed ==> start.song_rows(events) == 0
            &&& end.state is Finished ==> start.song_rows(events) == 1
        }),
{
    let start = CoordinatorView::initial(meta, mime_type, cover_mime_type, timestamp);
    run_keeps_wf(start, events);
    song_rows_follow_song_id(start, events);
}

/// `chrono::Utc::now().timestamp()`: the seconds since the epoch at the moment
/// of the call. Nothing is claimed of the number.
#[verifier::external_body]
fn unix_timestamp() -> i64 {
    chrono::Utc::now().timestamp()
}

impl PersistFailure {
    /// The failure as the client sees it, with `detail` for the server's log
    /// where the failure has a cause to describe.
    pub fn api_error(self, detail: String) -> (error: ApiError)
        ensures
            match self {
                PersistFailure::BackendNotFound => error == ApiError::NotFound,
                PersistFailure::InvalidMimeType => error matches ApiError::Validation(text)
                    && text@ == detail@,
                PersistFailure::StorageWrite => error matches ApiError::OpenDal(text) && text@
                    == detail@,
                PersistFailure::BackendLookup => error matches ApiError::Db(text) && text@
                    == detail@,
                PersistFailure::SongInsert => error matches ApiError::Db(text) && text@
                    == detail@,
            },
    {
        match self {
            PersistFailure::BackendNotFound => ApiError::NotFound,
            PersistFailure::InvalidMimeType => ApiError::Validation(detail),
            PersistFailure::StorageWrite => ApiError::OpenDal(detail),
            PersistFailure::BackendLookup => ApiError::Db(detail),
            PersistFailure::SongInsert => ApiError::Db(detail),
        }
    }
}

impl PersistenceCoordinator {
    /// Begins to persist a file now: as [`PersistenceCoordinator::start_at`],
    /// at the time of the call.
    pub fn start(meta: FinalMetadata, mime_type: String, cover_mime_type: Option<String>) -> (r: (
        PersistenceCoordinator,
        PersistAction,
    ))
        ensures
            exists|timestamp: i64|
                r.0@ == CoordinatorView::initial(
                    meta@,
                    mime_type@,
                    cover_mime_type.deep_view(),
                    timestamp,
                ),
            r.0@.wf(),
            r.1@ == r.0@.first_action(),
    {
        let timestamp = unix_timestamp();
        PersistenceCoordinator::start_at(meta, mime_type, cover_mime_type, timestamp)
    }

    /// Begins to persist a file of type `mime_type` under the metadata that
    /// the client confirmed, at the time `timestamp` (seconds since the
    /// epoch). `cover_mime_type` is the type of the cover that was found in
    /// the file, if one was. Returns the coordinator and its first step.
    pub fn start_at(
        meta: FinalMetadata,
        mime_type: String,
        cover_mime_type: Option<String>,
        timestamp: i64,
    ) -> (r: (PersistenceCoordinator, PersistAction))
        ensures
            r.0@ == CoordinatorView::initial(
                meta@,
                mime_type@,
                cover_mime_type.deep_view(),
                timestamp,
            ),
            r.0@.wf(),
            r.1@ == r.0@.first_action(),
    {
        let name = meta.storage_backend.clone();
        let coordinator = PersistenceCoordinator {
            state: PersistState::ResolvingBackend,
            meta,
            mime_type,
            cover_mime_type,
            timestamp,
            song_path: String::new(),
            cover_path: String::new(),
            song_id: None,
            result: AddSongResult {
                created_album: None,
                added_album: None,
                created_artists: None,
                added_artists: None,
            },
        };
        (coordinator, PersistAction::ResolveBackend { name })
    }

    /// Where the coordinator stands.
    pub fn state(&self) -> (state: PersistState)
        ensures
            state == self@.state,
    {
        self.state
    }

    /// The id of the song row, once it exists.
    pub fn song_id(&self) -> (id: Option<i64>)
        ensures
            id == self@.song_id,
    {
        self.song_id
    }

    /// What has become of album and artists so far.
    pub fn result(&self) -> (result: AddSongResult)
        ensures
            result == self@.result,
    {
        self.result
    }

    fn fail(&mut self, failure: PersistFailure) -> (action: PersistAction)
        ensures
            (final(self)@, action@) == old(self)@.fail(failure),
    {
        self.state = PersistState::Failed(failure);
        PersistAction::Fail(failure)
    }

    fn turn_to_artists(&mut self) -> (action: PersistAction)
        ensures
            (final(self)@, action@) == old(self)@.turn_to_artists(),
    {
        if self.meta.artists.len() > 0 {
            self.state = PersistState::InsertingArtists;
            PersistAction::InsertArtists { names: copy_strings(&self.meta.artists) }
        } else {
            self.state = PersistState::Finished;
            PersistAction::Done(self.result)
        }
    }

    fn album_outcome(&mut self, created: bool, added: bool) -> (action: PersistAction)
        ensures
            (final(self)@, action@) == old(self)@.album_outcome(created, added),
    {
        self.result.created_album = Some(created);
        self.result.added_album = Some(added);
        self.turn_to_artists()
    }

    fn artists_outcome(&mut self, created: bool, added: bool) -> (action: PersistAction)
        ensures
            (final(self)@, action@) == old(self)@.artists_outcome(created, added),
    {
        self.result.created_artists = Some(created);
        self.result.added_artists = Some(added);
        self.state = PersistState::Finished;
        PersistAction::Done(self.result)
    }

    fn turn_to_album(&mut self) -> (action: PersistAction)
        ensures
            (final(self)@, action@) == old(self)@.turn_to_album(),
    {
        let album = match &self.meta.album {
            Some(album) => album.clone(),
            None => {
                return self.turn_to_artists();
            },
        };
        let cover_mime_type = match &self.cover_mime_type {
            Some(cover_mime_type) => cover_mime_type.clone(),
            None => {
                self.state = PersistState::InsertingAlbum;
                return PersistAction::InsertAlbum { title: album };
            },
        };
        match cover_storage_path(album.as_str(), cover_mime_type.as_str()) {
            Some(path) => {
                self.state = PersistState::WritingCover;
                self.cover_path = path.clone();
                PersistAction::WriteCover { path }
            },
            None => self.album_outcome(false, false),
        }
    }

    /// Takes in how the step that was asked for went, and returns the step
    /// to perform next. After `Done` or `Fail` the coordinator stays as it
    /// is and repeats that answer.
    pub fn advance(&mut self, event: PersistEvent) -> (action: PersistAction)
        requires
            old(self)@.wf(),
        ensures
            (final(self)@, action@) == old(self)@.advance(event),
            final(self)@.wf(),
    {
        match self.state {
            PersistState::ResolvingBackend => match event {
                PersistEvent::Succeeded => match storage_path(
                    self.meta.title.as_str(),
                    self.timestamp,
                    self.mime_type.as_str(),
                ) {
                    Some(path) => {
                        self.state = PersistState::WritingSong;
                        self.song_path = path.clone();
                        PersistAction::WriteSong { path }
                    },
                    None => self.fail(PersistFailure::InvalidMimeType),
                },
                PersistEvent::NotFound => self.fail(PersistFailure::BackendNotFound),
                _ => self.fail(PersistFailure::BackendLookup),
            },
            PersistState::WritingSong => match event {
                PersistEvent::Succeeded => {
                    self.state = PersistState::InsertingSong;
                    PersistAction::InsertSong {
                        title: self.meta.title.clone(),
                        path: self.song_path.clone(),
                        mime_type: self.mime_type.clone(),
                        backend: self.meta.storage_backend.clone(),
                    }
                },
                _ => self.fail(PersistFailure::StorageWrite),
            },
            PersistState::InsertingSong => match event {
                PersistEvent::SongInserted(id) => {
                    self.song_id = Some(id);
                    self.turn_to_album()
                },
                _ => self.fail(PersistFailure::SongInsert),
            },
            PersistState::WritingCover => match event {
                PersistEvent::Succeeded => {
                    self.state = PersistState::InsertingAlbum;
                    let title = match &self.meta.album {
                        Some(album) => album.clone(),
                        None => String::new(),
                    };
                    let mime_type = match &self.cover_mime_type {
                        Some(cover_mime_type) => cover_mime_type.clone(),
                        None => String::new(),
                    };
                    PersistAction::InsertAlbumWithCover {
                        title,
                        path: self.cover_path.clone(),
                        mime_type,
                        backend: self.meta.storage_backend.clone(),
                    }
                },
                _ => self.album_outcome(false, false),
            },
            PersistState::InsertingAlbum => match event {
                PersistEvent::Succeeded => {
                    self.state = PersistState::LinkingAlbum;
                    let tag = match &self.meta.album {
                        Some(album) => album.clone(),
                        None => String::new(),
                    };
                    let song_id = match self.song_id {
                        Some(id) => id,
                        None => 0,
                    };
                    PersistAction::AddAlbumTag { song_id, tag }
                },
                _ => self.album_outcome(false, false),
            },
            PersistState::LinkingAlbum => match event {
                PersistEvent::Succeeded => self.album_outcome(true, true),
                _ => self.album_outcome(true, false),
            },
            PersistState::InsertingArtists => match event {
                PersistEvent::Succeeded => {
                    self.state = PersistState::LinkingArtists;
                    let song_id = match self.song_id {
                        Some(id) => id,
                        None => 0,
                    };
                    PersistAction::AddArtistTags { song_id, tags: copy_strings(&self.meta.artists) }
                },
                _ => self.artists_outcome(false, false),
            },
            PersistState::LinkingArtists => match event {
                PersistEvent::Succeeded => self.artists_outcome(true, true),
                _ => self.artists_outcome(true, false),
            },
            PersistState::Finished => PersistAction::Done(self.result),
            PersistState::Failed(failure) => PersistAction::Fail(failure),
        }
    }
}

} // verus!
