//! What is known of an uploaded file: the client's announcement, and the
//! metadata that the file itself carries.
//!
//! The caller decodes the file and hands over what the decoder found, as
//! plain values: the tags and images of the revisions of metadata. What the
//! server makes of them is decided here.

use crate::text::has_slash;
use vstd::prelude::*;

verus! {

/// A file that the client announces in its manifest.
#[derive(Debug, Clone, PartialEq, Eq)]
pub struct InitSongInfo {
    /// The name under which the client shows the file.
    pub name: String,
    /// Its size in bytes.
    pub size: usize,
    /// Its mime type.
    pub mime_type: String,
}

/// The mathematical value of an [`InitSongInfo`].
pub struct InitSongInfoView {
    pub name: Seq<char>,
    pub size: usize,
    pub mime_type: Seq<char>,
}

impl View for InitSongInfo {
    type V = InitSongInfoView;

    open spec fn view(&self) -> InitSongInfoView {
        InitSongInfoView { name: self.name@, size: self.size, mime_type: self.mime_type@ }
    }
}

impl DeepView for InitSongInfo {
    type V = InitSongInfoView;

    open spec fn deep_view(&self) -> InitSongInfoView {
        self@
    }
}

/// A cover image found inside an uploaded file.
#[derive(Debug, Clone, PartialEq, Eq)]
pub struct AlbumCover {
    /// The image, encoded as `mime_type` says.
    pub data: Vec<u8>,
    /// The mime type of the image.
    pub mime_type: String,
}

/// The mathematical value of an [`AlbumCover`].
pub struct AlbumCoverView {
    pub data: Seq<u8>,
    pub mime_type: Seq<char>,
}

impl View for AlbumCover {
    type V = AlbumCoverView;

    open spec fn view(&self) -> AlbumCoverView {
        AlbumCoverView { data: self.data@, mime_type: self.mime_type@ }
    }
}

impl DeepView for AlbumCover {
    type V = AlbumCoverView;

    open spec fn deep_view(&self) -> AlbumCoverView {
        self@
    }
}

/// The metadata read from an uploaded file.
#[derive(Debug, Clone, PartialEq, Eq)]
pub struct ParsedMetadata {
    pub title: Option<String>,
    pub album: Option<String>,
    pub artists: Vec<String>,
    pub album_cover: Option<AlbumCover>,
}

/// The mathematical value of a [`ParsedMetadata`].
pub struct ParsedMetadataView {
    pub title: Option<Seq<char>>,
    pub album: Option<Seq<char>>,
    pub artists: Seq<Seq<char>>,
    pub album_cover: Option<AlbumCoverView>,
}

impl View for ParsedMetadata {
    type V = ParsedMetadataView;

    open spec fn view(&self) -> ParsedMetadataView {
        ParsedMetadataView {
            title: self.title.deep_view(),
            album: self.album.deep_view(),
            artists: self.artists.deep_view(),
            album_cover: self.album_cover.deep_view(),
        }
    }
}

/// The standard meaning of a tag, as far as the library reads it.
#[derive(Debug, Clone, Copy, PartialEq, Eq, Structural)]
pub enum TagKey {
    TrackTitle,
    Album,
    Artist,
    /// Any other standard meaning.
    Other,
}

/// One tag of a file's metadata.
#[derive(Debug, Clone, PartialEq, Eq)]
pub struct TagEntry {
    /// The standard meaning of the tag, if it has one.
    pub key: Option<TagKey>,
    /// The value of the tag, if it is text.
    pub text: Option<String>,
}

/// The mathematical value of a [`TagEntry`].
pub struct TagEntryView {
    pub key: Option<TagKey>,
    pub text: Option<Seq<char>>,
}

impl View for TagEntry {
    type V = TagEntryView;

    open spec fn view(&self) -> TagEntryView {
        TagEntryView { key: self.key, text: self.text.deep_view() }
    }
}

impl DeepView for TagEntry {
    type V = TagEntryView;

    open spec fn deep_view(&self) -> TagEntryView {
        self@
    }
}

/// What an image of a file's metadata shows, as far as the library reads it.
#[derive(Debug, Clone, Copy, PartialEq, Eq, Structural)]
pub enum VisualKey {
    FrontCover,
    /// Anything else.
    Other,
}

/// One image of a file's metadata.
#[derive(Debug, Clone, PartialEq, Eq)]
pub struct Visual {
    /// What the image shows, if the file says so.
    pub usage: Option<VisualKey>,
    /// The mime type of the image.
    pub media_type: String,
    /// The encoded image.
    pub data: Vec<u8>,
}

/// The mathematical value of a [`Visual`].
pub struct VisualView {
    pub usage: Option<VisualKey>,
    pub media_type: Seq<char>,
    pub data: Seq<u8>,
}

impl View for Visual {
    type V = VisualView;

    open spec fn view(&self) -> VisualView {
        VisualView { usage: self.usage, media_type: self.media_type@, data: self.data@ }
    }
}

impl DeepView for Visual {
    type V = VisualView;

    open spec fn deep_view(&self) -> VisualView {
        self@
    }
}

/// One revision of a file's metadata: its tags and its images, in the order
/// in which the file lists them.
#[derive(Debug, Clone, PartialEq, Eq)]
pub struct Revision {
    pub tags: Vec<TagEntry>,
    pub visuals: Vec<Visual>,
}

/// The mathematical value of a [`Revision`].
pub struct RevisionView {
    pub tags: Seq<TagEntryView>,
    pub visuals: Seq<VisualView>,
}

impl View for Revision {
    type V = RevisionView;

    open spec fn view(&self) -> RevisionView {
        RevisionView { tags: self.tags.deep_view(), visuals: self.visuals.deep_view() }
    }
}

impl DeepView for Revision {
    type V = RevisionView;

    open spec fn deep_view(&self) -> RevisionView {
        self@
    }
}

/// Whether an image of this mime type can serve as a cover.
pub open spec fn allowed_cover_mime_type(mime_type: Seq<char>) -> bool {
    mime_type == "image/jpeg"@ || mime_type == "image/jpg"@ || mime_type == "image/png"@
}

/// Whether position `i` holds the first tag of `tags` with the meaning `key`.
pub open spec fn is_first_tag(tags: Seq<TagEntryView>, key: TagKey, i: int) -> bool {
    &&& 0 <= i < tags.len()
    &&& tags[i].key == Some(key)
    &&& forall|j: int| 0 <= j < i ==> tags[j].key != Some(key)
}

/// The text of the first tag with the meaning `key`. There is none where no
/// tag has that meaning, and none where the first that has it is not text.
pub open spec fn string_tag(tags: Seq<TagEntryView>, key: TagKey) -> Option<Seq<char>> {
    if exists|i: int| is_first_tag(tags, key, i) {
        tags[choose|i: int| is_first_tag(tags, key, i)].text
    } else {
        None
    }
}

/// Whether the image can serve as the cover of an album.
pub open spec fn is_cover(visual: VisualView) -> bool {
    &&& visual.usage == Some(VisualKey::FrontCover)
    &&& allowed_cover_mime_type(visual.media_type)
    &&& visual.media_type.contains('/')
}

/// Whether position `i` holds the first image of `visuals` that can serve as
/// a cover.
pub open spec fn is_first_cover(visuals: Seq<VisualView>, i: int) -> bool {
    &&& 0 <= i < visuals.len()
    &&& is_cover(visuals[i])
    &&& forall|j: int| 0 <= j < i ==> !is_cover(visuals[j])
}

/// The first image that can serve as a cover.
pub open spec fn cover_of(visuals: Seq<VisualView>) -> Option<AlbumCoverView> {
    if exists|i: int| is_first_cover(visuals, i) {
        let visual = visuals[choose|i: int| is_first_cover(visuals, i)];
        Some(AlbumCoverView { data: visual.data, mime_type: visual.media_type })
    } else {
        None
    }
}

/// What `meta` becomes when it is filled from `revision`: title, album and
/// cover are those of the revision, and its artist joins the artists.
pub open spec fn populated(
    meta: ParsedMetadataView,
    revision: RevisionView,
) -> ParsedMetadataView {
    ParsedMetadataView {
        title: string_tag(revision.tags, TagKey::TrackTitle),
        album: string_tag(revision.tags, TagKey::Album),
        artists: match string_tag(revision.tags, TagKey::Artist) {
            Some(artist) => meta.artists.push(artist),
            None => meta.artists,
        },
        album_cover: cover_of(revision.visuals),
    }
}

/// What is assumed of a file before its own metadata is read: the announced
/// name is the title, and nothing else is known.
pub open spec fn announced(info: InitSongInfoView) -> ParsedMetadataView {
    ParsedMetadataView {
        title: Some(info.name),
        album: None,
        artists: Seq::empty(),
        album_cover: None,
    }
}

/// The metadata of a file announced as `info`, whose container carries the
/// revision `container` and whose leading tags carry the revision `leading`.
/// The container's revision goes first; without any revision only the
/// announcement is known.
pub open spec fn metadata_of(
    info: InitSongInfoView,
    container: Option<RevisionView>,
    leading: Option<RevisionView>,
) -> ParsedMetadataView {
    match (container, leading) {
        (Some(revision), _) => populated(announced(info), revision),
        (None, Some(revision)) => populated(announced(info), revision),
        (None, None) => announced(info),
    }
}

fn same_key(a: Option<TagKey>, b: TagKey) -> (r: bool)
    ensures
        r == (a == Some(b)),
{
    match a {
        Some(k) => k == b,
        None => false,
    }
}

/// The text of the first tag with the meaning `key`.
pub fn get_string_tag(tags: &Vec<TagEntry>, key: TagKey) -> (r: Option<String>)
    ensures
        r.deep_view() == string_tag(tags.deep_view(), key),
{
    let mut i: usize = 0;
    while i < tags.len()
        invariant
            i <= tags.len(),
            forall|j: int| 0 <= j < i ==> tags.deep_view()[j].key != Some(key),
        decreases tags.len() - i,
    {
        if same_key(tags[i].key, key) {
            assert(is_first_tag(tags.deep_view(), key, i as int));
            return tags[i].text.clone();
        }
        i += 1;
    }
    None
}

/// Whether an image of this mime type can serve as a cover.
pub fn is_allowed_cover_mime_type(mime_type: &String) -> (r: bool)
    ensures
        r == allowed_cover_mime_type(mime_type@),
{
    *mime_type == String::from_str("image/jpeg") || *mime_type == String::from_str("image/jpg")
        || *mime_type == String::from_str("image/png")
}

/// The first image that can serve as a cover.
pub fn find_cover(visuals: &Vec<Visual>) -> (r: Option<AlbumCover>)
    ensures
        r.deep_view() == cover_of(visuals.deep_view()),
{
    let mut i: usize = 0;
    while i < visuals.len()
        invariant
            i <= visuals.len(),
            forall|j: int| 0 <= j < i ==> !is_cover(visuals.deep_view()[j]),
        decreases visuals.len() - i,
    {
        let visual = &visuals[i];
        let front_cover = match visual.usage {
            Some(VisualKey::FrontCover) => true,
            _ => false,
        };
        if front_cover && is_allowed_cover_mime_type(&visual.media_type) && has_slash(
            visual.media_type.as_str(),
        ) {
            assert(is_first_cover(visuals.deep_view(), i as int));
            let data = visual.data.clone();
            assert(data@ =~= visual.data@);
            return Some(AlbumCover { data, mime_type: visual.media_type.clone() });
        }
        i += 1;
    }
    None
}

/// Fills `meta` from a revision of the file's metadata.
pub fn populate_from_meta(meta: &mut ParsedMetadata, parsed_meta: &Revision)
    ensures
        final(meta)@ == populated(old(meta)@, parsed_meta@),
{
    meta.title = get_string_tag(&parsed_meta.tags, TagKey::TrackTitle);
    meta.album = get_string_tag(&parsed_meta.tags, TagKey::Album);
    meta.album_cover = find_cover(&parsed_meta.visuals);
    match get_string_tag(&parsed_meta.tags, TagKey::Artist) {
        Some(artist) => {
            let ghost before = meta.artists.deep_view();
            meta.artists.push(artist);
            assert(meta.artists.deep_view() =~= before.push(artist@));
        },
        None => {},
    }
}

/// The metadata of a file announced as `info`, given the revisions of
/// metadata that were found in it: that of its container, and that of the
/// tags that lead it.
pub fn assemble_metadata(
    info: &InitSongInfo,
    container: Option<&Revision>,
    leading: Option<&Revision>,
) -> (meta: ParsedMetadata)
    ensures
        meta@ == metadata_of(info@, container.deep_view(), leading.deep_view()),
{
    let mut meta = ParsedMetadata {
        title: Some(info.name.clone()),
        album: None,
        artists: Vec::new(),
        album_cover: None,
    };
    assert(meta.artists.deep_view() =~= Seq::empty());
    match container {
        Some(revision) => populate_from_meta(&mut meta, revision),
        None => match leading {
            Some(revision) => populate_from_meta(&mut meta, revision),
            None => {},
        },
    }
    meta
}

} // verus!
