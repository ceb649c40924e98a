//! The ingestion session: one client uploads a list of files over one
//! connection, file by file and in lock-step with the server.
//!
//! 1. The client announces the files in a manifest.
//! 2. The server checks every announced mime type; one that is not allowed
//!    rejects the whole manifest.
//! 3. For each file, in the order of the manifest: the client sends the
//!    bytes; the server reads what metadata they carry and sends it back; the
//!    client sends the final metadata, again and again if need be, until the
//!    file is persisted.
//! 4. The server closes the session.
//!
//! The session is a state machine. The caller receives frames, extracts
//! metadata and persists; it hands each outcome to [`Session::step`] and
//! carries out the actions that come back, in their order.

use crate::audio::{
    AlbumCover, AlbumCoverView, InitSongInfo, InitSongInfoView, ParsedMetadata, ParsedMetadataView,
};
use crate::persist::{AddSongResult, FinalMetadata, FinalMetadataView};
use vstd::prelude::*;

verus! {

/// Largest message that a session takes, in bytes: 128 MiB.
pub const MAX_MESSAGE_SIZE: usize = 128 * 1024 * 1024;

/// Largest amount of outbound data that a session buffers, in bytes: 128 KiB.
pub const MAX_WRITE_BUFFER_SIZE: usize = 128 * 1024;

/// Amount of outbound data that a session gathers before it writes, in
/// bytes: 16 KiB.
pub const WRITE_BUFFER_SIZE: usize = 16 * 1024;

/// Whether files of this mime type may be uploaded.
pub open spec fn allowed_mime_type(mime_type: Seq<char>) -> bool {
    mime_type == "audio/flac"@ || mime_type == "audio/mp3"@ || mime_type == "audio/mpeg"@
}

/// Whether every file of the manifest has an allowed mime type.
pub open spec fn all_allowed(manifest: Seq<InitSongInfoView>) -> bool {
    forall|i: int| 0 <= i < manifest.len() ==> allowed_mime_type(#[trigger] manifest[i].mime_type)
}

/// Whether position `i` holds the first file of the manifest whose mime type
/// is not allowed.
pub open spec fn is_first_disallowed(manifest: Seq<InitSongInfoView>, i: int) -> bool {
    &&& 0 <= i < manifest.len()
    &&& !allowed_mime_type(manifest[i].mime_type)
    &&& forall|j: int| 0 <= j < i ==> allowed_mime_type(#[trigger] manifest[j].mime_type)
}

/// The text that rejects a mime type.
pub open spec fn invalid_mime_type_text(mime_type: Seq<char>) -> Seq<char> {
    "Invalid mime type: "@ + mime_type
}

/// The text that rejects a manifest: it names the first mime type that is
/// not allowed.
pub open spec fn rejection_text(manifest: Seq<InitSongInfoView>) -> Seq<char> {
    invalid_mime_type_text(
        manifest[choose|i: int| is_first_disallowed(manifest, i)].mime_type,
    )
}

/// The title that stands for a file whose metadata names none.
pub open spec fn unknown_title() -> Seq<char> {
    "Unknown Title"@
}

/// The metadata that the server proposes to the client for a file.
#[derive(Debug, Clone, PartialEq, Eq)]
pub struct ClientMetadata {
    pub title: String,
    pub album: Option<String>,
    pub artists: Vec<String>,
}

/// The mathematical value of a [`ClientMetadata`].
pub struct ClientMetadataView {
    pub title: Seq<char>,
    pub album: Option<Seq<char>>,
    pub artists: Seq<Seq<char>>,
}

impl View for ClientMetadata {
    type V = ClientMetadataView;

    open spec fn view(&self) -> ClientMetadataView {
        ClientMetadataView {
            title: self.title@,
            album: self.album.deep_view(),
            artists: self.artists.deep_view(),
        }
    }
}

/// What the server proposes for a file with the metadata `parsed`: the same
/// album and artists, and the same title where there is one.
pub open spec fn proposal(parsed: ParsedMetadataView) -> ClientMetadataView {
    ClientMetadataView {
        title: match parsed.title {
            Some(title) => title,
            None => unknown_title(),
        },
        album: parsed.album,
        artists: parsed.artists,
    }
}

/// Why a session is closed.
#[derive(Debug, Clone, Copy, PartialEq, Eq, Structural)]
pub enum CloseReason {
    /// Every announced file is persisted.
    Completed,
    /// The manifest announced a mime type that is not allowed.
    ManifestRejected,
    /// A frame was missing where one was expected, or came out of order.
    InvalidMessage,
    /// A control message could not be understood.
    MalformedMessage,
}

/// Where a session stands.
#[derive(Debug, Clone, Copy, PartialEq, Eq, Structural)]
pub enum SessionState {
    /// The manifest is awaited.
    AwaitingManifest,
    /// The bytes of the current file are awaited.
    AwaitingRawBytes,
    /// The metadata of the current file is being read from its bytes.
    ExtractingMetadata,
    /// The client's final metadata for the current file is awaited.
    AwaitingFinalMetadata,
    /// The current file is being persisted.
    Persisting,
    /// The session is over.
    Closed(CloseReason),
}

/// What happened, as the caller tells the session.
#[derive(Debug, Clone, PartialEq, Eq)]
pub enum SessionEvent {
    /// The client sent its manifest.
    Manifest(Vec<InitSongInfo>),
    /// The client sent the bytes of a file.
    RawBytes(Vec<u8>),
    /// The metadata of the current file was read from its bytes.
    MetadataExtracted(ParsedMetadata),
    /// The client sent its final metadata for the current file.
    FinalMetadata(FinalMetadata),
    /// The current file is persisted.
    Persisted(AddSongResult),
    /// The current file could not be persisted; the text says why.
    PersistFailed(String),
    /// A frame came that could not be understood.
    Malformed,
    /// The connection ended.
    Disconnected,
}

/// The mathematical value of a [`SessionEvent`].
pub enum SessionEventView {
    Manifest(Seq<InitSongInfoView>),
    RawBytes(Seq<u8>),
    MetadataExtracted(ParsedMetadataView),
    FinalMetadata(FinalMetadataView),
    Persisted(AddSongResult),
    PersistFailed(Seq<char>),
    Malformed,
    Disconnected,
}

impl View for SessionEvent {
    type V = SessionEventView;

    open spec fn view(&self) -> SessionEventView {
        match self {
            SessionEvent::Manifest(manifest) => SessionEventView::Manifest(manifest.deep_view()),
            SessionEvent::RawBytes(data) => SessionEventView::RawBytes(data@),
            SessionEvent::MetadataExtracted(parsed) => SessionEventView::MetadataExtracted(parsed@),
            SessionEvent::FinalMetadata(meta) => SessionEventView::FinalMetadata(meta@),
            SessionEvent::Persisted(result) => SessionEventView::Persisted(*result),
            SessionEvent::PersistFailed(text) => SessionEventView::PersistFailed(text@),
            SessionEvent::Malformed => SessionEventView::Malformed,
            SessionEvent::Disconnected => SessionEventView::Disconnected,
        }
    }
}

/// What the caller does for the session.
#[derive(Debug, Clone, PartialEq, Eq)]
pub enum SessionAction {
    /// Send an error payload with this text.
    SendError(String),
    /// Send the metadata that the server proposes for the current file.
    SendMetadata(ClientMetadata),
    /// Send the result of the file that was just persisted.
    SendResult(AddSongResult),
    /// Read the metadata of the current file from its bytes.
    ExtractMetadata,
    /// Persist the current file under this metadata.
    Persist(FinalMetadata),
    /// Send a close frame and end the session.
    Close,
}

/// The mathematical value of a [`SessionAction`].
pub enum SessionActionView {
    SendError(Seq<char>),
    SendMetadata(ClientMetadataView),
    SendResult(AddSongResult),
    ExtractMetadata,
    Persist(FinalMetadataView),
    Close,
}

impl View for SessionAction {
    type V = SessionActionView;

    open spec fn view(&self) -> SessionActionView {
        match self {
            SessionAction::SendError(text) => SessionActionView::SendError(text@),
            SessionAction::SendMetadata(meta) => SessionActionView::SendMetadata(meta@),
            SessionAction::SendResult(result) => SessionActionView::SendResult(*result),
            SessionAction::ExtractMetadata => SessionActionView::ExtractMetadata,
            SessionAction::Persist(meta) => SessionActionView::Persist(meta@),
            SessionAction::Close => SessionActionView::Close,
        }
    }
}

impl DeepView for SessionAction {
    type V = SessionActionView;

    open spec fn deep_view(&self) -> SessionActionView {
        self@
    }
}

/// The mathematical value of a [`Session`].
pub struct SessionView {
    pub state: SessionState,
    /// The files that the client announced.
    pub manifest: Seq<InitSongInfoView>,
    /// Position in the manifest of the file that is in progress.
    pub current: nat,
    /// The bytes of the file in progress, once they have come.
    pub song_data: Seq<u8>,
    /// The cover that was found in the file in progress, if one was.
    pub album_cover: Option<AlbumCoverView>,
}

impl SessionView {
    /// A session that has just begun.
    pub open spec fn initial() -> SessionView {
        SessionView {
            state: SessionState::AwaitingManifest,
            manifest: Seq::empty(),
            current: 0,
            song_data: Seq::empty(),
            album_cover: None,
        }
    }

    /// Whether a file is in progress.
    pub open spec fn in_file(self) -> bool {
        self.state is AwaitingRawBytes || self.state is ExtractingMetadata || self.state
            is AwaitingFinalMetadata || self.state is Persisting
    }

    /// What holds of every session: the file in progress is one of the
    /// manifest, and the manifest was accepted.
    pub open spec fn wf(self) -> bool {
        self.in_file() ==> self.current < self.manifest.len() && all_allowed(self.manifest)
    }

    /// Whether the session waits for a frame of the client.
    pub open spec fn expects_frame(self) -> bool {
        self.state is AwaitingManifest || self.state is AwaitingRawBytes || self.state
            is AwaitingFinalMetadata
    }

    /// The session ends, for this reason, with nothing sent.
    pub open spec fn end(self, reason: CloseReason) -> (SessionView, Seq<SessionActionView>) {
        (SessionView { state: SessionState::Closed(reason), ..self }, Seq::empty())
    }

    /// The session takes in the manifest.
    pub open spec fn take_manifest(self, manifest: Seq<InitSongInfoView>) -> (
        SessionView,
        Seq<SessionActionView>,
    ) {
        if !all_allowed(manifest) {
            (
                SessionView {
                    state: SessionState::Closed(CloseReason::ManifestRejected),
                    manifest,
                    ..self
                },
                seq![
                    SessionActionView::SendError(rejection_text(manifest)),
                    SessionActionView::Close,
                ],
            )
        } else if manifest.len() == 0 {
            (
                SessionView {
                    state: SessionState::Closed(CloseReason::Completed),
                    manifest,
                    ..self
                },
                seq![SessionActionView::Close],
            )
        } else {
            (
                SessionView { state: SessionState::AwaitingRawBytes, manifest, current: 0, ..self },
                Seq::empty(),
            )
        }
    }

    /// The file in progress is persisted: the session goes on to the next
    /// file, or ends after the last.
    pub open spec fn file_done(self, result: AddSongResult) -> (
        SessionView,
        Seq<SessionActionView>,
    ) {
        if self.current + 1 < self.manifest.len() {
            (
                SessionView {
                    state: SessionState::AwaitingRawBytes,
                    current: self.current + 1,
                    song_data: Seq::empty(),
                    album_cover: None,
                    ..self
                },
                seq![SessionActionView::SendResult(result)],
            )
        } else {
            (
                SessionView {
                    state: SessionState::Closed(CloseReason::Completed),
                    song_data: Seq::empty(),
                    album_cover: None,
                    ..self
                },
                seq![SessionActionView::SendResult(result), SessionActionView::Close],
            )
        }
    }

    /// The session after `event`, and what the caller does for it, in order.
    ///
    /// A closed session takes nothing in. An open one ends without a word
    /// when the connection ends, when a frame cannot be understood, and when
    /// something happens that its state does not wait for.
    pub open spec fn step(self, event: SessionEventView) -> (SessionView, Seq<SessionActionView>) {
        match (self.state, event) {
            (SessionState::Closed(_), _) => (self, Seq::empty()),
            (_, SessionEventView::Malformed) => self.end(CloseReason::MalformedMessage),
            (SessionState::AwaitingManifest, SessionEventView::Manifest(manifest)) => {
                self.take_manifest(manifest)
            },
            (SessionState::AwaitingRawBytes, SessionEventView::RawBytes(data)) => (
                SessionView { state: SessionState::ExtractingMetadata, song_data: data, ..self },
                seq![SessionActionView::ExtractMetadata],
            ),
            (SessionState::ExtractingMetadata, SessionEventView::MetadataExtracted(parsed)) => (
                SessionView {
                    state: SessionState::AwaitingFinalMetadata,
                    album_cover: parsed.album_cover,
                    ..self
                },
                seq![SessionActionView::SendMetadata(proposal(parsed))],
            ),
            (SessionState::AwaitingFinalMetadata, SessionEventView::FinalMetadata(meta)) => (
                SessionView { state: SessionState::Persisting, ..self },
                seq![SessionActionView::Persist(meta)],
            ),
            (SessionState::Persisting, SessionEventView::Persisted(result)) => self.file_done(
                result,
            ),
            (SessionState::Persisting, SessionEventView::PersistFailed(text)) => (
                SessionView { state: SessionState::AwaitingFinalMetadata, ..self },
                seq![SessionActionView::SendError(text)],
            ),
            _ => self.end(CloseReason::InvalidMessage),
        }
    }
}

/// The text that rejects a manifest names the first of its mime types that
/// is not allowed.
pub proof fn rejection_names_first_disallowed(manifest: Seq<InitSongInfoView>, i: int)
    requires
        is_first_disallowed(manifest, i),
    ensures
        !all_allowed(manifest),
        rejection_text(manifest) == invalid_mime_type_text(manifest[i].mime_type),
{
    let chosen = choose|k: int| is_first_disallowed(manifest, k);
    assert(chosen == i);
}

/// A manifest that announces a mime type that is not allowed closes the
/// session at once. Exactly one error goes out, and the close frame after it;
/// the session then waits for no frame and takes nothing in, so no upload is
/// ever received.
pub proof fn rejected_manifest_closes_session(
    manifest: Seq<InitSongInfoView>,
    later: SessionEventView,
)
    requires
        !all_allowed(manifest),
    ensures
        ({
            let (closed, actions) = SessionView::initial().step(
                SessionEventView::Manifest(manifest),
            );
            &&& actions == seq![
                SessionActionView::SendError(rejection_text(manifest)),
                SessionActionView::Close,
            ]
            &&& closed.state == SessionState::Closed(CloseReason::ManifestRejected)
            &&& !closed.expects_frame()
            &&& closed.step(later) == (closed, Seq::<SessionActionView>::empty())
        }),
{
}

/// After a failure to persist, the session tells the client and waits for
/// final metadata again: the bytes, the cover and the place in the manifest
/// stay as they were, no upload is awaited, and the metadata that comes next
/// is persisted with the same bytes.
pub proof fn failed_persist_awaits_metadata_only(
    s: SessionView,
    text: Seq<char>,
    meta: FinalMetadataView,
)
    requires
        s.wf(),
        s.state is Persisting,
    ensures
        ({
            let (waiting, told) = s.step(SessionEventView::PersistFailed(text));
            let (again, asked) = waiting.step(SessionEventView::FinalMetadata(meta));
            &&& told == seq![SessionActionView::SendError(text)]
            &&& waiting == SessionView { state: SessionState::AwaitingFinalMetadata, ..s }
            &&& asked == seq![SessionActionView::Persist(meta)]
            &&& again == s
        }),
{
}

/// The files are taken in the order of the manifest, one at a time: when a
/// file is persisted the session turns to the one that follows it, and it
/// closes after the last.
pub proof fn files_follow_manifest_order(s: SessionView, result: AddSongResult)
    requires
        s.wf(),
        s.state is Persisting,
    ensures
        ({
            let (next, actions) = s.step(SessionEventView::Persisted(result));
            &&& next.wf()
            &&& actions[0] == SessionActionView::SendResult(result)
            &&& if s.current + 1 < s.manifest.len() {
                &&& next.state is AwaitingRawBytes
                &&& next.current == s.current + 1
                &&& actions.len() == 1
            } else {
                &&& next.state == SessionState::Closed(CloseReason::Completed)
                &&& actions == seq![
                    SessionActionView::SendResult(result),
                    SessionActionView::Close,
                ]
            }
        }),
{
}

/// What happens in the round of one file in which nothing goes wrong: its
/// bytes come, its metadata is read, the client confirms, and it is
/// persisted.
pub struct FileRound {
    pub data: Seq<u8>,
    pub parsed: ParsedMetadataView,
    pub meta: FinalMetadataView,
    pub result: AddSongResult,
}

impl SessionView {
    /// The session after the round of one file.
    pub open spec fn after_round(self, round: FileRound) -> SessionView {
        self.step(SessionEventView::RawBytes(round.data)).0.step(
            SessionEventView::MetadataExtracted(round.parsed),
        ).0.step(SessionEventView::FinalMetadata(round.meta)).0.step(
            SessionEventView::Persisted(round.result),
        ).0
    }

    /// The session after the rounds of several files, one after the other.
    pub open spec fn after_rounds(self, rounds: Seq<FileRound>) -> SessionView
        decreases rounds.len(),
    {
        if rounds.len() == 0 {
            self
        } else {
            self.after_round(rounds[0]).after_rounds(rounds.drop_first())
        }
    }
}

/// A session takes every file of its manifest, in the manifest's order and
/// one at a time: after the rounds of some of the files it waits for the
/// bytes of the file that follows them, and after the round of the last it is
/// closed, with every file persisted.
pub proof fn session_takes_every_file_in_order(s: SessionView, rounds: Seq<FileRound>)
    requires
        s.wf(),
        s.state is AwaitingRawBytes,
        s.current + rounds.len() <= s.manifest.len(),
    ensures
        ({
            let end = s.after_rounds(rounds);
            &&& end.wf()
            &&& end.manifest == s.manifest
            &&& if s.current + rounds.len() < s.manifest.len() {
                end.state is AwaitingRawBytes && end.current == s.current + rounds.len()
            } else {
                end.state == SessionState::Closed(CloseReason::Completed)
            }
        }),
    decreases rounds.len(),
{
    if rounds.len() > 0 {
        let next = s.after_round(rounds[0]);
        if s.current + 1 < s.manifest.len() {
            session_takes_every_file_in_order(next, rounds.drop_first());
        } else {
            assert(rounds.drop_first().len() == 0);
        }
    }
}

/// Whether the action puts a frame on the wire.
pub open spec fn is_frame(action: SessionActionView) -> bool {
    action is SendError || action is SendMetadata || action is SendResult || action is Close
}

/// The number of frames that the actions put on the wire.
pub open spec fn frames_in(actions: Seq<SessionActionView>) -> nat
    decreases actions.len(),
{
    if actions.len() == 0 {
        0
    } else {
        let last: nat = if is_frame(actions.last()) {
            1
        } else {
            0
        };
        frames_in(actions.drop_last()) + last
    }
}

impl SessionView {
    /// The number of frames that the session sends in the round of one file.
    pub open spec fn sent_in_round(self, round: FileRound) -> nat {
        let taken = self.step(SessionEventView::RawBytes(round.data));
        let read = taken.0.step(SessionEventView::MetadataExtracted(round.parsed));
        let confirmed = read.0.step(SessionEventView::FinalMetadata(round.meta));
        let persisted = confirmed.0.step(SessionEventView::Persisted(round.result));
        frames_in(taken.1) + frames_in(read.1) + frames_in(confirmed.1) + frames_in(persisted.1)
    }

    /// The number of frames that the session sends in the rounds of several
    /// files.
    pub open spec fn sent_in_rounds(self, rounds: Seq<FileRound>) -> nat
        decreases rounds.len(),
    {
        if rounds.len() == 0 {
            0
        } else {
            self.sent_in_round(rounds[0]) + self.after_round(rounds[0]).sent_in_rounds(
                rounds.drop_first(),
            )
        }
    }
}

proof fn frames_in_short(first: SessionActionView, second: SessionActionView)
    ensures
        frames_in(Seq::empty()) == 0,
        frames_in(seq![first]) == (if is_frame(first) {
            1nat
        } else {
            0nat
        }),
        frames_in(seq![first, second]) == (if is_frame(first) {
            1nat
        } else {
            0nat
        }) + (if is_frame(second) {
            1nat
        } else {
            0nat
        }),
{
    assert(seq![first].drop_last() =~= Seq::empty());
    assert(seq![first, second].drop_last() =~= seq![first]);
    reveal_with_fuel(frames_in, 3);
}

/// Where nothing goes wrong, a session takes two frames for each file, the
/// bytes and the final metadata, and sends two, the proposed metadata and the
/// result; after the last file it sends the close frame, and nothing else.
pub proof fn session_sends_two_frames_for_each_file(s: SessionView, rounds: Seq<FileRound>)
    requires
        s.wf(),
        s.state is AwaitingRawBytes,
        s.current + rounds.len() <= s.manifest.len(),
    ensures
        s.sent_in_rounds(rounds) == 2 * rounds.len() + (if s.current + rounds.len()
            == s.manifest.len() {
            1nat
        } else {
            0nat
        }),
    decreases rounds.len(),
{
    if rounds.len() > 0 {
        let round = rounds[0];
        let taken = s.step(SessionEventView::RawBytes(round.data));
        let read = taken.0.step(SessionEventView::MetadataExtracted(round.parsed));
        let confirmed = read.0.step(SessionEventView::FinalMetadata(round.meta));
        let persisted = confirmed.0.step(SessionEventView::Persisted(round.result));
        frames_in_short(SessionActionView::ExtractMetadata, SessionActionView::Close);
        frames_in_short(
            SessionActionView::SendMetadata(proposal(round.parsed)),
            SessionActionView::Close,
        );
        frames_in_short(SessionActionView::Persist(round.meta), SessionActionView::Close);
        frames_in_short(SessionActionView::SendResult(round.result), SessionActionView::Close);
        assert(frames_in(taken.1) == 0);
        assert(frames_in(read.1) == 1);
        assert(frames_in(confirmed.1) == 0);
        let next = s.after_round(round);
        let rest = rounds.drop_first();
        assert(next == persisted.0);
        assert(s.sent_in_rounds(rounds) == s.sent_in_round(round) + next.sent_in_rounds(rest));
        if s.current + 1 < s.manifest.len() {
            assert(frames_in(persisted.1) == 1);
            assert(next.state is AwaitingRawBytes && next.current == s.current + 1);
            assert(next.manifest == s.manifest);
            session_sends_two_frames_for_each_file(next, rest);
        } else {
            assert(frames_in(persisted.1) == 2);
            assert(rest.len() == 0);
            assert(next.sent_in_rounds(rest) == 0);
        }
    } else {
        assert(s.current < s.manifest.len());
    }
}

/// A session whose connection ends while a file is unfinished ends as a
/// protocol violation; one that is closed already stays as it is.
pub proof fn disconnect_ends_session(s: SessionView)
    ensures
        ({
            let (next, actions) = s.step(SessionEventView::Disconnected);
            &&& actions.len() == 0
            &&& if s.state is Closed {
                next == s
            } else {
                next.state == SessionState::Closed(CloseReason::InvalidMessage)
            }
        }),
{
}

/// Whether files of this mime type may be uploaded.
pub fn is_allowed_mime_type(mime_type: &String) -> (r: bool)
    ensures
        r == allowed_mime_type(mime_type@),
{
    *mime_type == String::from_str("audio/flac") || *mime_type == String::from_str("audio/mp3")
        || *mime_type == String::from_str("audio/mpeg")
}

/// The position of the first file of the manifest whose mime type is not
/// allowed.
pub fn first_disallowed(manifest: &Vec<InitSongInfo>) -> (r: Option<usize>)
    ensures
        match r {
            Some(i) => is_first_disallowed(manifest.deep_view(), i as int),
            None => all_allowed(manifest.deep_view()),
        },
{
    let mut i: usize = 0;
    while i < manifest.len()
        invariant
            i <= manifest.len(),
            forall|j: int|
                0 <= j < i ==> allowed_mime_type(#[trigger] manifest.deep_view()[j].mime_type),
        decreases manifest.len() - i,
    {
        if !is_allowed_mime_type(&manifest[i].mime_type) {
            return Some(i);
        }
        i += 1;
    }
    None
}

/// The metadata that the server proposes for a file with the metadata
/// `parsed`, and the cover that was found in it.
pub fn propose(parsed: ParsedMetadata) -> (r: (ClientMetadata, Option<AlbumCover>))
    ensures
        r.0@ == proposal(parsed@),
        r.1.deep_view() == parsed@.album_cover,
{
    let title = match parsed.title {
        Some(title) => title,
        None => String::from_str("Unknown Title"),
    };
    (ClientMetadata { title, album: parsed.album, artists: parsed.artists }, parsed.album_cover)
}

/// An ingestion session.
#[derive(Debug)]
pub struct Session {
    state: SessionState,
    manifest: Vec<InitSongInfo>,
    current: usize,
    song_data: Vec<u8>,
    album_cover: Option<AlbumCover>,
}

impl View for Session {
    type V = SessionView;

    closed spec fn view(&self) -> SessionView {
        SessionView {
            state: self.state,
            manifest: self.manifest.deep_view(),
            current: self.current as nat,
            song_data: self.song_data@,
            album_cover: self.album_cover.deep_view(),
        }
    }
}

impl Session {
    /// A session that has just begun: it waits for the manifest.
    pub fn new() -> (session: Session)
        ensures
            session@ == SessionView::initial(),
            session@.wf(),
    {
        let session = Session {
            state: SessionState::AwaitingManifest,
            manifest: Vec::new(),
            current: 0,
            song_data: Vec::new(),
            album_cover: None,
        };
        assert(session.manifest.deep_view() =~= Seq::empty());
        session
    }

    /// Where the session stands.
    pub fn state(&self) -> (state: SessionState)
        ensures
            state == self@.state,
    {
        self.state
    }

    /// Whether the session waits for a frame of the client.
    pub fn expects_frame(&self) -> (r: bool)
        ensures
            r == self@.expects_frame(),
    {
        match self.state {
            SessionState::AwaitingManifest => true,
            SessionState::AwaitingRawBytes => true,
            SessionState::AwaitingFinalMetadata => true,
            _ => false,
        }
    }

    /// The file in progress, if one is.
    pub fn current_file(&self) -> (file: Option<&InitSongInfo>)
        requires
            self@.wf(),
        ensures
            match file {
                Some(info) => self@.in_file() && info@ == self@.manifest[self@.current as int],
                None => !self@.in_file(),
            },
    {
        match self.state {
            SessionState::AwaitingRawBytes
            | SessionState::ExtractingMetadata
            | SessionState::AwaitingFinalMetadata
            | SessionState::Persisting => Some(&self.manifest[self.current]),
            _ => None,
        }
    }

    /// The bytes of the file in progress, once they have come.
    pub fn song_data(&self) -> (data: &Vec<u8>)
        ensures
            data@ == self@.song_data,
    {
        &self.song_data
    }

    /// The cover that was found in the file in progress, if one was.
    pub fn album_cover(&self) -> (cover: Option<&AlbumCover>)
        ensures
            cover.deep_view() == self@.album_cover,
    {
        self.album_cover.as_ref()
    }

    fn end(&mut self, reason: CloseReason) -> (actions: Vec<SessionAction>)
        ensures
            (final(self)@, actions.deep_view()) == old(self)@.end(reason),
    {
        self.state = SessionState::Closed(reason);
        let actions: Vec<SessionAction> = Vec::new();
        assert(actions.deep_view() =~= Seq::empty());
        actions
    }

    fn take_manifest(&mut self, manifest: Vec<InitSongInfo>) -> (actions: Vec<SessionAction>)
        ensures
            (final(self)@, actions.deep_view()) == old(self)@.take_manifest(manifest.deep_view()),
    {
        let mut actions: Vec<SessionAction> = Vec::new();
        match first_disallowed(&manifest) {
            Some(i) => {
                let mut text = String::from_str("Invalid mime type: ");
                text.append(manifest[i].mime_type.as_str());
                self.state = SessionState::Closed(CloseReason::ManifestRejected);
                self.manifest = manifest;
                actions.push(SessionAction::SendError(text));
                actions.push(SessionAction::Close);
                assert(actions.deep_view() =~= seq![
                    SessionActionView::SendError(rejection_text(manifest.deep_view())),
                    SessionActionView::Close,
                ]);
            },
            None => {
                if manifest.len() == 0 {
                    self.state = SessionState::Closed(CloseReason::Completed);
                    self.manifest = manifest;
                    actions.push(SessionAction::Close);
                    assert(actions.deep_view() =~= seq![SessionActionView::Close]);
                } else {
                    self.state = SessionState::AwaitingRawBytes;
                    self.manifest = manifest;
                    self.current = 0;
                    assert(actions.deep_view() =~= Seq::empty());
                }
            },
        }
        actions
    }

    fn file_done(&mut self, result: AddSongResult) -> (actions: Vec<SessionAction>)
        requires
            old(self)@.wf(),
            old(self)@.in_file(),
        ensures
            (final(self)@, actions.deep_view()) == old(self)@.file_done(result),
    {
        assert(self.manifest.deep_view().len() == self.manifest.len());
        let mut actions: Vec<SessionAction> = Vec::new();
        actions.push(SessionAction::SendResult(result));
        self.song_data = Vec::new();
        self.album_cover = None;
        if self.current + 1 < self.manifest.len() {
            self.state = SessionState::AwaitingRawBytes;
            self.current = self.current + 1;
            assert(actions.deep_view() =~= seq![SessionActionView::SendResult(result)]);
        } else {
            self.state = SessionState::Closed(CloseReason::Completed);
            actions.push(SessionAction::Close);
            assert(actions.deep_view() =~= seq![
                SessionActionView::SendResult(result),
                SessionActionView::Close,
            ]);
        }
        actions
    }

    /// Takes in what happened, and returns what the caller does next, in
    /// order. The caller then waits for a frame of the client exactly where
    /// [`Session::expects_frame`] says so.
    pub fn step(&mut self, event: SessionEvent) -> (actions: Vec<SessionAction>)
        requires
            old(self)@.wf(),
        ensures
            (final(self)@, actions.deep_view()) == old(self)@.step(event@),
            final(self)@.wf(),
    {
        match self.state {
            SessionState::Closed(_) => {
                let actions: Vec<SessionAction> = Vec::new();
                assert(actions.deep_view() =~= Seq::empty());
                actions
            },
            SessionState::AwaitingManifest => match event {
                SessionEvent::Malformed => self.end(CloseReason::MalformedMessage),
                SessionEvent::Manifest(manifest) => self.take_manifest(manifest),
                _ => self.end(CloseReason::InvalidMessage),
            },
            SessionState::AwaitingRawBytes => match event {
                SessionEvent::Malformed => self.end(CloseReason::MalformedMessage),
                SessionEvent::RawBytes(data) => {
                    self.state = SessionState::ExtractingMetadata;
                    self.song_data = data;
                    let mut actions: Vec<SessionAction> = Vec::new();
                    actions.push(SessionAction::ExtractMetadata);
                    assert(actions.deep_view() =~= seq![SessionActionView::ExtractMetadata]);
                    actions
                },
                _ => self.end(CloseReason::InvalidMessage),
            },
            SessionState::ExtractingMetadata => match event {
                SessionEvent::Malformed => self.end(CloseReason::MalformedMessage),
                SessionEvent::MetadataExtracted(parsed) => {
                    let ghost parsed_view = parsed@;
                    let (proposed, cover) = propose(parsed);
                    self.state = SessionState::AwaitingFinalMetadata;
                    self.album_cover = cover;
                    let mut actions: Vec<SessionAction> = Vec::new();
                    actions.push(SessionAction::SendMetadata(proposed));
                    assert(actions.deep_view() =~= seq![
                        SessionActionView::SendMetadata(proposal(parsed_view)),
                    ]);
                    actions
                },
                _ => self.end(CloseReason::InvalidMessage),
            },
            SessionState::AwaitingFinalMetadata => match event {
                SessionEvent::Malformed => self.end(CloseReason::MalformedMessage),
                SessionEvent::FinalMetadata(meta) => {
                    let ghost meta_view = meta@;
                    self.state = SessionState::Persisting;
                    let mut actions: Vec<SessionAction> = Vec::new();
                    actions.push(SessionAction::Persist(meta));
                    assert(actions.deep_view() =~= seq![SessionActionView::Persist(meta_view)]);
                    actions
                },
                _ => self.end(CloseReason::InvalidMessage),
            },
            SessionState::Persisting => match event {
                SessionEvent::Malformed => self.end(CloseReason::MalformedMessage),
                SessionEvent::Persisted(result) => self.file_done(result),
                SessionEvent::PersistFailed(text) => {
                    let ghost text_view = text@;
                    self.state = SessionState::AwaitingFinalMetadata;
                    let mut actions: Vec<SessionAction> = Vec::new();
                    actions.push(SessionAction::SendError(text));
                    assert(actions.deep_view() =~= seq![SessionActionView::SendError(text_view)]);
                    actions
                },
                _ => self.end(CloseReason::InvalidMessage),
            },
        }
    }
}

} // verus!
