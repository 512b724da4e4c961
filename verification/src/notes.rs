//! Notes, their media, and the staging structures that build them.
//!
//! A media item's byte payload can come from three places: bytes already at
//! hand, a remote URL, or a local file path.  The resolution logic here
//! decides which source wins and what must be fetched; the fetching itself
//! (an HTTP GET or a file read) is performed outside the library, which
//! hands the bytes back through [`Media::set_data`].

use crate::anki::AnkiQuery;
use crate::b64::{base64_string, spec_base64_chars};
use crate::error::{AnkiError, BuilderErrors, CustomSerdeError};
use crate::generic::{GenericRequestBuilder, spec_request_wire};
use crate::json::JsonValue;
use crate::Number;
use vstd::prelude::*;
use vstd::string::*;

verus! {

/// Relies on `std::path::Path::exists`.  The answer depends on the
/// filesystem at the moment of the call, so nothing is promised of it.
#[verifier::external_body]
fn path_exists(s: &str) -> bool {
    std::path::Path::new(s).exists()
}

/// What `url::Url::parse` makes of a string: `None` where the string is not
/// a well-formed absolute URL, otherwise its normalized serialization.  The
/// answer depends on the characters alone.
pub uninterp spec fn url_parse_of(s: Seq<char>) -> Option<Seq<char>>;

/// Relies on `url::Url::parse` and the serialization of the parsed URL.
#[verifier::external_body]
fn parse_url(s: &str) -> (r: Option<String>)
    ensures
        match r {
            Some(u) => url_parse_of(s@) == Some(u@),
            None => url_parse_of(s@) is None,
        },
{
    match url::Url::parse(s) {
        Ok(u) => Some(u.to_string()),
        Err(_) => None,
    }
}

/// Copies a byte vector.
fn copy_bytes(v: &Vec<u8>) -> (r: Vec<u8>)
    ensures
        r@ == v@,
{
    let r = v.clone();
    proof {
        assert(r@ =~= v@);
    }
    r
}

/// Ways validating a media path can fail.
#[derive(Debug)]
pub enum MediaPathError {
    /// The path does not name an existing file.
    DoesntExist(String),
    /// The string is neither a relative nor an absolute path.
    InvalidVariant(String),
}

/// A local filesystem path that named an existing file when it was
/// validated.
#[derive(Clone, Debug, PartialEq, Eq)]
pub struct MediaPath(String);

impl MediaPath {
    /// The path's text.
    pub closed spec fn spec_text(&self) -> Seq<char> {
        self.0@
    }

    /// The path's text.
    pub fn as_text(&self) -> (r: &String)
        ensures
            r@ == self.spec_text(),
    {
        &self.0
    }

    /// Validates a path: it must name an existing file.  Whether it does
    /// depends on the filesystem, so only the carried text is promised.
    pub fn from_path(buf: String) -> (r: Result<MediaPath, MediaPathError>)
        ensures
            r matches Ok(p) ==> p.spec_text() == buf@,
            r matches Err(e) ==> e matches MediaPathError::DoesntExist(t) && t == buf,
    {
        if path_exists(buf.as_str()) {
            Ok(MediaPath(buf))
        } else {
            Err(MediaPathError::DoesntExist(buf))
        }
    }
}

/// Ways building a media source can fail.
#[derive(Debug)]
pub enum MediaSourceError {
    Path(MediaPathError),
}

impl From<MediaPathError> for MediaSourceError {
    fn from(e: MediaPathError) -> (r: MediaSourceError) {
        MediaSourceError::Path(e)
    }
}

impl vstd::std_specs::convert::FromSpecImpl<MediaPathError> for MediaSourceError {
    open spec fn obeys_from_spec() -> bool {
        true
    }

    open spec fn from_spec(e: MediaPathError) -> MediaSourceError {
        MediaSourceError::Path(e)
    }
}

/// Where a media byte payload comes from: bytes already at hand, a remote
/// URL to download, or a validated local path to read.  The `_Empty` tag
/// exists only for ownership transfer and is never resolved.
#[derive(Clone, Debug, PartialEq, Eq)]
pub enum MediaSource {
    /// Raw bytes of the media file.
    Data(Vec<u8>),
    /// A URL pointing to the media file, which will be downloaded.
    Url(String),
    /// A local file system path to the media file, which will be read.
    Path(MediaPath),
    /// Internal variant used for temporary ownership transfer.
    _Empty,
}

/// The single step that obtains a media source's bytes.
#[derive(Debug, PartialEq, Eq)]
pub enum FetchPlan {
    /// The bytes are already at hand.
    Inline(Vec<u8>),
    /// Download from this URL through the transport.
    FetchUrl(String),
    /// Read this local file.
    ReadFile(String),
}

/// How a fetch plan renders a media source.
pub open spec fn spec_source_plan(s: MediaSource, p: FetchPlan) -> bool {
    match s {
        MediaSource::Data(d) => p matches FetchPlan::Inline(b) && b@ == d@,
        MediaSource::Url(u) => p matches FetchPlan::FetchUrl(t) && t@ == u@,
        MediaSource::Path(mp) => p matches FetchPlan::ReadFile(t) && t@ == mp.spec_text(),
        MediaSource::_Empty => false,
    }
}

impl MediaSource {
    /// Classifies a free-form string given the two probe outcomes, in the
    /// fixed precedence order: an existing local path first, then a
    /// well-formed URL, and raw inline bytes as the fallback.
    pub fn classify(s: &str, is_local_path: bool, url_normal: Option<String>) -> (r: MediaSource)
        ensures
            is_local_path ==> (r matches MediaSource::Path(p) && p.spec_text() == s@),
            !is_local_path ==> match url_normal {
                Some(u) => r matches MediaSource::Url(t) && t == u,
                None => r matches MediaSource::Data(d) && d@ == s.spec_bytes(),
            },
    {
        if is_local_path {
            MediaSource::Path(MediaPath(s.to_owned()))
        } else {
            match url_normal {
                Some(u) => MediaSource::Url(u),
                None => MediaSource::Data(vstd::slice::slice_to_vec(s.as_bytes())),
            }
        }
    }

    /// Coerces a free-form string into a media source: first as a local
    /// path that exists, then as a well-formed URL, and finally as raw
    /// inline bytes.  Whether the path probe succeeds depends on the
    /// filesystem; every other part of the outcome is pinned down.
    pub fn coerce(s: &str) -> (r: MediaSource)
        ensures
            ({
                ||| (r matches MediaSource::Path(p) && p.spec_text() == s@)
                ||| (url_parse_of(s@) matches Some(u) && r matches MediaSource::Url(t) && t@ == u)
                ||| (url_parse_of(s@) is None && (r matches MediaSource::Data(d) && d@
                    == s.spec_bytes()))
            }),
            !(r is _Empty),
    {
        let local = path_exists(s);
        let url_normal = if local {
            None
        } else {
            parse_url(s)
        };
        MediaSource::classify(s, local, url_normal)
    }

    /// The single step that obtains this source's bytes: inline bytes are
    /// copied, a URL is to be downloaded, a path is to be read.  The
    /// internal transfer tag must never reach this point.
    pub fn fetch_plan(&self) -> (r: FetchPlan)
        requires
            !(self is _Empty),
        ensures
            spec_source_plan(*self, r),
    {
        match self {
            MediaSource::Data(d) => FetchPlan::Inline(copy_bytes(d)),
            MediaSource::Url(u) => FetchPlan::FetchUrl(u.clone()),
            MediaSource::Path(p) => FetchPlan::ReadFile(p.as_text().clone()),
            MediaSource::_Empty => vstd::pervasive::unreached(),
        }
    }
}

/// What remains to be done for one media item before the note it belongs to
/// can be finalized.
#[derive(Debug, PartialEq, Eq)]
pub enum MediaStep {
    /// A source must be fetched first.
    Fetch(FetchPlan),
    /// The byte payload is already present.
    Ready,
    /// No source and no bytes: the item cannot be resolved.
    Missing,
}

/// A media file (audio, video, or picture) attached to a note.
#[allow(non_snake_case)]
#[derive(Debug)]
pub struct Media {
    filename: String,
    data: Vec<u8>,
    url: Option<MediaSource>,
    path: Option<MediaSource>,
    fields: Vec<String>,
    skipHash: Option<String>,
}

impl Media {
    /// Well-formed: neither source slot holds the internal transfer tag.
    pub open spec fn wf(self) -> bool {
        &&& (self.spec_url() matches Some(s) ==> !(s is _Empty))
        &&& (self.spec_path() matches Some(s) ==> !(s is _Empty))
    }

    /// The filename under which the item is stored.
    pub closed spec fn spec_filename(self) -> String {
        self.filename
    }

    /// The resolved byte payload.
    pub closed spec fn spec_data(self) -> Seq<u8> {
        self.data@
    }

    /// The staged URL source, if any.
    pub closed spec fn spec_url(self) -> Option<MediaSource> {
        self.url
    }

    /// The staged path source, if any.
    pub closed spec fn spec_path(self) -> Option<MediaSource> {
        self.path
    }

    /// The note fields the item is embedded in.
    pub closed spec fn spec_fields(self) -> Seq<String> {
        self.fields@
    }

    /// The optional duplicate-check hash marker.
    pub closed spec fn spec_skip_hash(self) -> Option<String> {
        self.skipHash
    }

    /// The source that resolution will use: the URL source takes precedence
    /// over the path source; pre-supplied inline bytes come last.
    pub open spec fn spec_pending(self) -> Option<MediaSource> {
        if self.spec_url() is Some {
            self.spec_url()
        } else {
            self.spec_path()
        }
    }

    /// Whether resolving this item needs the transport or the filesystem.
    pub open spec fn spec_needs_fetch(self) -> bool {
        match self.spec_pending() {
            Some(MediaSource::Url(_)) => true,
            Some(MediaSource::Path(_)) => true,
            _ => false,
        }
    }

    /// Resolved: no source remains staged and the payload is non-empty.
    pub open spec fn spec_resolved(self) -> bool {
        &&& self.spec_url() is None
        &&& self.spec_path() is None
        &&& self.spec_data().len() > 0
    }

    /// Whether the item can be resolved without transport or filesystem:
    /// its winning source is inline bytes, or no source is staged and a
    /// non-empty payload was pre-supplied.
    pub open spec fn spec_locally_resolvable(self) -> bool {
        match self.spec_pending() {
            Some(MediaSource::Data(d)) => d@.len() > 0,
            None => self.spec_data().len() > 0,
            _ => false,
        }
    }

    /// The filename under which the item is stored.
    pub fn filename(&self) -> (r: &String)
        ensures
            *r == self.spec_filename(),
    {
        &self.filename
    }

    /// The resolved byte payload.
    pub fn bytes(&self) -> (r: &Vec<u8>)
        ensures
            r@ == self.spec_data(),
    {
        &self.data
    }

    /// The note fields the item is embedded in.
    pub fn target_fields(&self) -> (r: &Vec<String>)
        ensures
            r@ == self.spec_fields(),
    {
        &self.fields
    }

    /// Whether resolving this item needs the transport or the filesystem.
    pub fn needs_fetch(&self) -> (r: bool)
        ensures
            r == self.spec_needs_fetch(),
    {
        match &self.url {
            Some(MediaSource::Url(_)) => true,
            Some(MediaSource::Path(_)) => true,
            Some(_) => false,
            None => match &self.path {
                Some(MediaSource::Url(_)) => true,
                Some(MediaSource::Path(_)) => true,
                _ => false,
            },
        }
    }

    /// The next step for this item, by the fixed precedence: a staged URL
    /// source wins over a staged path source, which wins over pre-supplied
    /// inline bytes; an item with none of the three cannot be resolved.
    pub fn next_step(&self) -> (r: MediaStep)
        requires
            self.wf(),
        ensures
            self.spec_pending() matches Some(s) ==> (r matches MediaStep::Fetch(p)
                && spec_source_plan(s, p)),
            self.spec_pending() is None && self.spec_data().len() > 0 ==> r == MediaStep::Ready,
            self.spec_pending() is None && self.spec_data().len() == 0 ==> r == MediaStep::Missing,
    {
        match &self.url {
            Some(s) => MediaStep::Fetch(s.fetch_plan()),
            None => match &self.path {
                Some(s) => MediaStep::Fetch(s.fetch_plan()),
                None => {
                    if self.data.len() > 0 {
                        MediaStep::Ready
                    } else {
                        MediaStep::Missing
                    }
                },
            },
        }
    }

    /// Installs the fetched byte payload; the staged sources are consumed.
    pub fn set_data(&mut self, bytes: Vec<u8>)
        ensures
            final(self).wf(),
            final(self).spec_filename() == old(self).spec_filename(),
            final(self).spec_fields() == old(self).spec_fields(),
            final(self).spec_skip_hash() == old(self).spec_skip_hash(),
            final(self).spec_data() == bytes@,
            final(self).spec_url() is None,
            final(self).spec_path() is None,
    {
        self.data = bytes;
        self.url = None;
        self.path = None;
    }

    /// Resolves the item without touching transport or filesystem.  The
    /// winning source must not be a URL or a path; those are fetched by the
    /// caller and installed through [`Media::set_data`] beforehand.  An item
    /// whose payload cannot be made non-empty fails: construction never
    /// yields a media item with an empty payload.
    pub fn resolve_local(&mut self) -> (r: Result<(), AnkiError>)
        requires
            old(self).wf(),
            !old(self).spec_needs_fetch(),
        ensures
            final(self).wf(),
            final(self).spec_filename() == old(self).spec_filename(),
            final(self).spec_fields() == old(self).spec_fields(),
            final(self).spec_skip_hash() == old(self).spec_skip_hash(),
            r is Ok <==> old(self).spec_locally_resolvable(),
            r is Ok ==> final(self).spec_resolved(),
            r is Ok ==> final(self).spec_data() == match old(self).spec_pending() {
                Some(MediaSource::Data(d)) => d@,
                _ => old(self).spec_data(),
            },
            r matches Err(e) ==> (e matches AnkiError::Builder(BuilderErrors::MissingMedia(f))
                && f == old(self).spec_filename()),
    {
        let src = match self.url.take() {
            Some(s) => Some(s),
            None => self.path.take(),
        };
        match src {
            Some(MediaSource::Data(d)) => {
                if d.len() > 0 {
                    self.data = d;
                    self.path = None;
                    Ok(())
                } else {
                    Err(
                        AnkiError::Builder(
                            BuilderErrors::MissingMedia(self.filename.clone()),
                        ),
                    )
                }
            },
            Some(_) => vstd::pervasive::unreached(),
            None => {
                if self.data.len() > 0 {
                    Ok(())
                } else {
                    Err(
                        AnkiError::Builder(
                            BuilderErrors::MissingMedia(self.filename.clone()),
                        ),
                    )
                }
            },
        }
    }
}

/// Accumulates the parts of a [`Media`] item; filename and target fields
/// are required, everything else is optional.
pub struct MediaBuilder {
    filename: Option<String>,
    url: Option<MediaSource>,
    path: Option<MediaSource>,
    fields: Option<Vec<String>>,
    skip_hash: Option<String>,
}

impl MediaBuilder {
    /// Well-formed: neither staged source holds the internal transfer tag.
    pub open spec fn wf(self) -> bool {
        &&& (self.spec_staged_url() matches Some(s) ==> !(s is _Empty))
        &&& (self.spec_staged_path() matches Some(s) ==> !(s is _Empty))
    }

    /// The staged filename, if any.
    pub closed spec fn spec_staged_filename(self) -> Option<String> {
        self.filename
    }

    /// The staged URL source, if any.
    pub closed spec fn spec_staged_url(self) -> Option<MediaSource> {
        self.url
    }

    /// The staged path source, if any.
    pub closed spec fn spec_staged_path(self) -> Option<MediaSource> {
        self.path
    }

    /// The staged target fields, if any.
    pub closed spec fn spec_staged_fields(self) -> Option<Vec<String>> {
        self.fields
    }

    /// The staged duplicate-check hash marker, if any.
    pub closed spec fn spec_staged_skip_hash(self) -> Option<String> {
        self.skip_hash
    }

    /// An empty staging structure with no part supplied.
    pub fn create_empty() -> (r: MediaBuilder)
        ensures
            r.wf(),
            r.spec_staged_filename() is None,
            r.spec_staged_url() is None,
            r.spec_staged_path() is None,
            r.spec_staged_fields() is None,
            r.spec_staged_skip_hash() is None,
    {
        MediaBuilder { filename: None, url: None, path: None, fields: None, skip_hash: None }
    }

    /// Stages the filename.
    pub fn filename(self, filename: String) -> (r: MediaBuilder)
        requires
            self.wf(),
        ensures
            r.wf(),
            r.spec_staged_filename() == Some(filename),
            r.spec_staged_url() == self.spec_staged_url(),
            r.spec_staged_path() == self.spec_staged_path(),
            r.spec_staged_fields() == self.spec_staged_fields(),
            r.spec_staged_skip_hash() == self.spec_staged_skip_hash(),
    {
        MediaBuilder { filename: Some(filename), ..self }
    }

    /// Stages the URL source, coercing a free-form string in the fixed
    /// order: existing local path, then well-formed URL, then inline bytes.
    pub fn url(self, s: &str) -> (r: MediaBuilder)
        requires
            self.wf(),
        ensures
            r.wf(),
            r.spec_staged_url() matches Some(src) && !(src is _Empty),
            r.spec_staged_filename() == self.spec_staged_filename(),
            r.spec_staged_path() == self.spec_staged_path(),
            r.spec_staged_fields() == self.spec_staged_fields(),
            r.spec_staged_skip_hash() == self.spec_staged_skip_hash(),
    {
        MediaBuilder { url: Some(MediaSource::coerce(s)), ..self }
    }

    /// Stages the path source, coercing a free-form string in the fixed
    /// order: existing local path, then well-formed URL, then inline bytes.
    pub fn path(self, s: &str) -> (r: MediaBuilder)
        requires
            self.wf(),
        ensures
            r.wf(),
            r.spec_staged_path() matches Some(src) && !(src is _Empty),
            r.spec_staged_filename() == self.spec_staged_filename(),
            r.spec_staged_url() == self.spec_staged_url(),
            r.spec_staged_fields() == self.spec_staged_fields(),
            r.spec_staged_skip_hash() == self.spec_staged_skip_hash(),
    {
        MediaBuilder { path: Some(MediaSource::coerce(s)), ..self }
    }

    /// Stages the URL source directly.  The internal transfer tag is not a
    /// source and must not be staged.
    pub fn url_source(self, src: MediaSource) -> (r: MediaBuilder)
        requires
            self.wf(),
            !(src is _Empty),
        ensures
            r.wf(),
            r.spec_staged_url() == Some(src),
            r.spec_staged_filename() == self.spec_staged_filename(),
            r.spec_staged_path() == self.spec_staged_path(),
            r.spec_staged_fields() == self.spec_staged_fields(),
            r.spec_staged_skip_hash() == self.spec_staged_skip_hash(),
    {
        MediaBuilder { url: Some(src), ..self }
    }

    /// Stages the path source directly.  The internal transfer tag is not a
    /// source and must not be staged.
    pub fn path_source(self, src: MediaSource) -> (r: MediaBuilder)
        requires
            self.wf(),
            !(src is _Empty),
        ensures
            r.wf(),
            r.spec_staged_path() == Some(src),
            r.spec_staged_filename() == self.spec_staged_filename(),
            r.spec_staged_url() == self.spec_staged_url(),
            r.spec_staged_fields() == self.spec_staged_fields(),
            r.spec_staged_skip_hash() == self.spec_staged_skip_hash(),
    {
        MediaBuilder { path: Some(src), ..self }
    }

    /// Stages the note fields the item is embedded in.
    pub fn fields(self, fields: Vec<String>) -> (r: MediaBuilder)
        requires
            self.wf(),
        ensures
            r.wf(),
            r.spec_staged_fields() == Some(fields),
            r.spec_staged_filename() == self.spec_staged_filename(),
            r.spec_staged_url() == self.spec_staged_url(),
            r.spec_staged_path() == self.spec_staged_path(),
            r.spec_staged_skip_hash() == self.spec_staged_skip_hash(),
    {
        MediaBuilder { fields: Some(fields), ..self }
    }

    /// Stages the duplicate-check hash marker.
    pub fn skip_hash(self, skip_hash: String) -> (r: MediaBuilder)
        requires
            self.wf(),
        ensures
            r.wf(),
            r.spec_staged_skip_hash() == Some(skip_hash),
            r.spec_staged_filename() == self.spec_staged_filename(),
            r.spec_staged_url() == self.spec_staged_url(),
            r.spec_staged_path() == self.spec_staged_path(),
            r.spec_staged_fields() == self.spec_staged_fields(),
    {
        MediaBuilder { skip_hash: Some(skip_hash), ..self }
    }

    /// Finalizes the media item.  Filename and target fields must have been
    /// staged; the violated one is named, filename first.  The byte payload
    /// starts empty and is filled by resolution.
    pub fn build(self) -> (r: Result<Media, AnkiError>)
        requires
            self.wf(),
        ensures
            self.spec_staged_filename() is None ==> (r matches Err(e) && e matches
                AnkiError::Builder(BuilderErrors::UninitializedField(f)) && f@ == "filename"@),
            self.spec_staged_filename() is Some && self.spec_staged_fields() is None ==> (
            r matches Err(e) && e matches AnkiError::Builder(BuilderErrors::UninitializedField(f))
                && f@ == "fields"@),
            self.spec_staged_filename() matches Some(name) ==> (self.spec_staged_fields() matches
            Some(flds) ==> (r matches Ok(m) && {
                &&& m.wf()
                &&& m.spec_filename() == name
                &&& m.spec_data().len() == 0
                &&& m.spec_url() == self.spec_staged_url()
                &&& m.spec_path() == self.spec_staged_path()
                &&& m.spec_fields() == flds@
                &&& m.spec_skip_hash() == self.spec_staged_skip_hash()
            })),
    {
        let filename = match self.filename {
            Some(f) => f,
            None => {
                return Err(
                    AnkiError::Builder(
                        BuilderErrors::UninitializedField("filename".to_owned()),
                    ),
                );
            },
        };
        let fields = match self.fields {
            Some(f) => f,
            None => {
                return Err(
                    AnkiError::Builder(
                        BuilderErrors::UninitializedField("fields".to_owned()),
                    ),
                );
            },
        };
        Ok(
            Media {
                filename,
                data: Vec::new(),
                url: self.url,
                path: self.path,
                fields,
                skipHash: self.skip_hash,
            },
        )
    }
}

/// All items of a media list are well-formed.
pub open spec fn spec_media_list_wf(l: Seq<Media>) -> bool {
    forall|i: int| 0 <= i < l.len() ==> (#[trigger] l[i]).wf()
}

/// No item of a media list still needs transport or filesystem.
pub open spec fn spec_media_list_no_fetch(l: Seq<Media>) -> bool {
    forall|i: int| 0 <= i < l.len() ==> !(#[trigger] l[i]).spec_needs_fetch()
}

/// Every item of a media list can be resolved without transport.
pub open spec fn spec_media_list_resolvable(l: Seq<Media>) -> bool {
    forall|i: int| 0 <= i < l.len() ==> (#[trigger] l[i]).spec_locally_resolvable()
}

/// How a resolved media item relates to its staged form: the identifying
/// parts are kept, the payload is the winning inline source or the
/// pre-supplied bytes, and no source remains staged.
pub open spec fn spec_media_resolved_from(new: Media, prev: Media) -> bool {
    &&& new.wf()
    &&& new.spec_resolved()
    &&& new.spec_filename() == prev.spec_filename()
    &&& new.spec_fields() == prev.spec_fields()
    &&& new.spec_skip_hash() == prev.spec_skip_hash()
    &&& new.spec_data() == match prev.spec_pending() {
        Some(MediaSource::Data(d)) => d@,
        _ => prev.spec_data(),
    }
}

/// The filename of the first item of a media list that cannot be resolved
/// without transport, if any.
pub open spec fn spec_first_unresolvable(l: Seq<Media>) -> Option<String>
    decreases l.len(),
{
    if l.len() == 0 {
        None
    } else if !l[0].spec_locally_resolvable() {
        Some(l[0].spec_filename())
    } else {
        spec_first_unresolvable(l.drop_first())
    }
}

/// Resolves every item of a media list without transport, in order,
/// stopping at the first item that cannot be resolved.
fn resolve_media_list(list: Vec<Media>) -> (r: Result<Vec<Media>, AnkiError>)
    requires
        spec_media_list_wf(list@),
        spec_media_list_no_fetch(list@),
    ensures
        r is Ok <==> spec_media_list_resolvable(list@),
        r is Ok ==> spec_first_unresolvable(list@) is None,
        r matches Ok(out) ==> out@.len() == list@.len() && forall|i: int|
            0 <= i < list@.len() ==> spec_media_resolved_from(#[trigger] out@[i], list@[i]),
        r matches Err(e) ==> (e matches AnkiError::Builder(BuilderErrors::MissingMedia(f))
            && spec_first_unresolvable(list@) == Some(f)),
{
    let ghost all = list@;
    proof {
        assert(all.skip(0) =~= all);
    }
    let mut rest = list;
    let mut out: Vec<Media> = Vec::new();
    while rest.len() > 0
        invariant
            all == list@,
            all =~= all.subrange(0, out@.len() as int) + rest@,
            out@.len() + rest@.len() == all.len(),
            spec_media_list_wf(all),
            spec_media_list_no_fetch(all),
            forall|i: int|
                0 <= i < out@.len() ==> spec_media_resolved_from(
                    #[trigger] out@[i],
                    all[i],
                ),
            forall|i: int| 0 <= i < out@.len() ==> all[i].spec_locally_resolvable(),
            spec_first_unresolvable(all) == spec_first_unresolvable(
                all.skip(out@.len() as int),
            ),
        decreases rest@.len(),
    {
        let ghost k: int = out@.len() as int;
        proof {
            assert(rest@[0] == all[k]);
            assert(all.skip(k)[0] == all[k]);
            assert(all[k].wf() && !all[k].spec_needs_fetch());
        }
        let mut m = rest.remove(0);
        match m.resolve_local() {
            Ok(()) => {
                out.push(m);
                proof {
                    assert(all.skip(k).drop_first() =~= all.skip(k + 1));
                    assert(all =~= all.subrange(0, k + 1) + rest@);
                }
            },
            Err(e) => {
                proof {
                    assert(!all[k].spec_locally_resolvable());
                    assert(!spec_media_list_resolvable(all));
                    assert(spec_first_unresolvable(all.skip(k)) == Some(
                        all[k].spec_filename(),
                    ));
                }
                return Err(e);
            },
        }
    }
    proof {
        assert(all.subrange(0, out@.len() as int) =~= all);
        assert(all.skip(out@.len() as int).len() == 0);
    }
    Ok(out)
}

/// Where duplicates of a new note are searched for.
#[derive(Clone, Copy, Debug)]
pub enum DuplicateScope {
    Deck,
    EntireCollection,
}

impl DuplicateScope {
    /// The wire text of the scope.  The service checks only the target deck
    /// for the value `deck`; any other value checks the entire collection.
    pub fn to_wire(&self) -> (r: String)
        ensures
            r@ == match *self {
                DuplicateScope::Deck => "deck"@,
                DuplicateScope::EntireCollection => "entire-collection"@,
            },
    {
        match self {
            DuplicateScope::Deck => "deck".to_owned(),
            DuplicateScope::EntireCollection => "entire-collection".to_owned(),
        }
    }
}

/// How the duplicate check is narrowed or widened.
#[derive(Clone, Debug)]
pub struct DuplicateScopeOptions {
    deck_name: Option<String>,
    check_children: bool,
    check_all_models: bool,
}

impl DuplicateScopeOptions {
    /// The deck whose notes are checked; the target deck when absent.
    pub closed spec fn spec_deck_name(self) -> Option<String> {
        self.deck_name
    }

    /// Whether child decks are checked as well.
    pub closed spec fn spec_check_children(self) -> bool {
        self.check_children
    }

    /// Whether notes of every model are checked.
    pub closed spec fn spec_check_all_models(self) -> bool {
        self.check_all_models
    }

    /// Assembles the duplicate-check options.
    pub fn new(deck_name: Option<String>, check_children: bool, check_all_models: bool) -> (r:
        DuplicateScopeOptions)
        ensures
            r.spec_deck_name() == deck_name,
            r.spec_check_children() == check_children,
            r.spec_check_all_models() == check_all_models,
    {
        DuplicateScopeOptions { deck_name, check_children, check_all_models }
    }
}

impl Default for DuplicateScopeOptions {
    /// No deck override, no child decks, only the note's own model.
    fn default() -> (r: DuplicateScopeOptions)
        ensures
            r.spec_deck_name() is None,
            !r.spec_check_children(),
            !r.spec_check_all_models(),
    {
        DuplicateScopeOptions { deck_name: None, check_children: false, check_all_models: false }
    }
}

/// Per-note options for the add operation.
#[derive(Clone, Debug)]
pub struct NoteOptions {
    allow_duplicate: bool,
    duplicate_scope: DuplicateScope,
    duplicate_scope_options: DuplicateScopeOptions,
}

impl NoteOptions {
    /// Whether a duplicate note may be added.
    pub closed spec fn spec_allow_duplicate(self) -> bool {
        self.allow_duplicate
    }

    /// Where duplicates are searched for.
    pub closed spec fn spec_duplicate_scope(self) -> DuplicateScope {
        self.duplicate_scope
    }

    /// How the duplicate check is narrowed or widened.
    pub closed spec fn spec_duplicate_scope_options(self) -> DuplicateScopeOptions {
        self.duplicate_scope_options
    }

    /// Assembles the per-note options.
    pub fn new(
        allow_duplicate: bool,
        duplicate_scope: DuplicateScope,
        duplicate_scope_options: DuplicateScopeOptions,
    ) -> (r: NoteOptions)
        ensures
            r.spec_allow_duplicate() == allow_duplicate,
            r.spec_duplicate_scope() == duplicate_scope,
            r.spec_duplicate_scope_options() == duplicate_scope_options,
    {
        NoteOptions { allow_duplicate, duplicate_scope, duplicate_scope_options }
    }
}

/// A validated, immutable note, ready to be submitted to the service.
#[derive(Debug)]
pub struct Note {
    deck_name: String,
    model_name: String,
    fields: indexmap::IndexMap<String, String>,
    options: Option<NoteOptions>,
    tags: Option<Vec<String>>,
    audios: Option<Vec<Media>>,
    videos: Option<Vec<Media>>,
    pictures: Option<Vec<Media>>,
}

/// All items of an optional media list are resolved and well-formed.
pub open spec fn spec_opt_list_resolved(l: Option<Vec<Media>>) -> bool {
    l matches Some(v) ==> forall|i: int|
        0 <= i < v@.len() ==> (#[trigger] v@[i]).wf() && v@[i].spec_resolved()
}

/// How a resolved optional media list relates to its staged form.
pub open spec fn spec_opt_list_resolved_from(
    new: Option<Vec<Media>>,
    prev: Option<Vec<Media>>,
) -> bool {
    match prev {
        None => new is None,
        Some(pl) => new matches Some(nl) && nl@.len() == pl@.len() && forall|i: int|
            0 <= i < pl@.len() ==> spec_media_resolved_from(#[trigger] nl@[i], pl@[i]),
    }
}

impl Note {
    /// Well-formed: the deck and model names are non-empty, at least one
    /// field is set with keys pairwise distinct, and every attached media
    /// item is resolved with a non-empty payload.
    pub open spec fn wf(self) -> bool {
        &&& self.spec_deck_name()@.len() > 0
        &&& self.spec_model_name()@.len() > 0
        &&& crate::fields::fields_unique(self.spec_fields_entries())
        &&& self.spec_fields_entries().len() > 0
        &&& spec_opt_list_resolved(self.spec_audios())
        &&& spec_opt_list_resolved(self.spec_videos())
        &&& spec_opt_list_resolved(self.spec_pictures())
    }

    /// The name of the deck the note is added to.
    pub closed spec fn spec_deck_name(self) -> String {
        self.deck_name
    }

    /// The name of the note's model.
    pub closed spec fn spec_model_name(self) -> String {
        self.model_name
    }

    /// The note's field entries, in insertion order.
    pub closed spec fn spec_fields_entries(self) -> Seq<(Seq<char>, Seq<char>)> {
        crate::fields::fields_entries(self.fields)
    }

    /// The per-note options, if any.
    pub closed spec fn spec_options(self) -> Option<NoteOptions> {
        self.options
    }

    /// The note's tags, if any.
    pub closed spec fn spec_tags(self) -> Option<Vec<String>> {
        self.tags
    }

    /// The attached audio items, if any.
    pub closed spec fn spec_audios(self) -> Option<Vec<Media>> {
        self.audios
    }

    /// The attached video items, if any.
    pub closed spec fn spec_videos(self) -> Option<Vec<Media>> {
        self.videos
    }

    /// The attached picture items, if any.
    pub closed spec fn spec_pictures(self) -> Option<Vec<Media>> {
        self.pictures
    }

    /// The name of the deck the note is added to.
    pub fn deck_name(&self) -> (r: &String)
        ensures
            *r == self.spec_deck_name(),
    {
        &self.deck_name
    }

    /// The name of the note's model.
    pub fn model_name(&self) -> (r: &String)
        ensures
            *r == self.spec_model_name(),
    {
        &self.model_name
    }

    /// The note's field entries, in insertion order.
    pub fn field_pairs(&self) -> (r: Vec<(String, String)>)
        ensures
            r@.len() == self.spec_fields_entries().len(),
            forall|i: int|
                0 <= i < r@.len() ==> (r@[i].0@, r@[i].1@) == self.spec_fields_entries()[i],
    {
        crate::fields::fields_pairs(&self.fields)
    }

    /// The per-note options, if any.
    pub fn options(&self) -> (r: &Option<NoteOptions>)
        ensures
            *r == self.spec_options(),
    {
        &self.options
    }

    /// The note's tags, if any.
    pub fn tags(&self) -> (r: &Option<Vec<String>>)
        ensures
            *r == self.spec_tags(),
    {
        &self.tags
    }

    /// The attached audio items, if any.
    pub fn audios(&self) -> (r: &Option<Vec<Media>>)
        ensures
            *r == self.spec_audios(),
    {
        &self.audios
    }

    /// The attached video items, if any.
    pub fn videos(&self) -> (r: &Option<Vec<Media>>)
        ensures
            *r == self.spec_videos(),
    {
        &self.videos
    }

    /// The attached picture items, if any.
    pub fn pictures(&self) -> (r: &Option<Vec<Media>>)
        ensures
            *r == self.spec_pictures(),
    {
        &self.pictures
    }
}

/// Accumulates the parts of a [`Note`]; everything is optional until the
/// note is built.
pub struct NoteBuilder {
    deck_name: Option<String>,
    model_name: Option<String>,
    fields: Option<indexmap::IndexMap<String, String>>,
    options: Option<NoteOptions>,
    tags: Option<Vec<String>>,
    audios: Option<Vec<Media>>,
    videos: Option<Vec<Media>>,
    pictures: Option<Vec<Media>>,
}

impl NoteBuilder {
    /// Well-formed: staged field keys are pairwise distinct and staged
    /// media items carry no internal transfer tag.
    pub open spec fn wf(self) -> bool {
        &&& (self.spec_staged_entries() matches Some(s) ==> crate::fields::fields_unique(s))
        &&& (self.spec_staged_audios() matches Some(l) ==> spec_media_list_wf(l@))
        &&& (self.spec_staged_videos() matches Some(l) ==> spec_media_list_wf(l@))
        &&& (self.spec_staged_pictures() matches Some(l) ==> spec_media_list_wf(l@))
    }

    /// The staged deck name, if any.
    pub closed spec fn spec_staged_deck_name(self) -> Option<String> {
        self.deck_name
    }

    /// The staged model name, if any.
    pub closed spec fn spec_staged_model_name(self) -> Option<String> {
        self.model_name
    }

    /// The staged field entries, if any.
    pub closed spec fn spec_staged_entries(self) -> Option<Seq<(Seq<char>, Seq<char>)>> {
        match self.fields {
            Some(m) => Some(crate::fields::fields_entries(m)),
            None => None,
        }
    }

    /// The staged per-note options, if any.
    pub closed spec fn spec_staged_options(self) -> Option<NoteOptions> {
        self.options
    }

    /// The staged tags, if any.
    pub closed spec fn spec_staged_tags(self) -> Option<Vec<String>> {
        self.tags
    }

    /// The staged audio items, if any.
    pub closed spec fn spec_staged_audios(self) -> Option<Vec<Media>> {
        self.audios
    }

    /// The staged video items, if any.
    pub closed spec fn spec_staged_videos(self) -> Option<Vec<Media>> {
        self.videos
    }

    /// The staged picture items, if any.
    pub closed spec fn spec_staged_pictures(self) -> Option<Vec<Media>> {
        self.pictures
    }

    /// The deck name is staged and non-empty.
    pub open spec fn spec_deck_ok(self) -> bool {
        self.spec_staged_deck_name() matches Some(d) && d@.len() > 0
    }

    /// The model name is staged and non-empty.
    pub open spec fn spec_model_ok(self) -> bool {
        self.spec_staged_model_name() matches Some(m) && m@.len() > 0
    }

    /// At least one field entry is staged.
    pub open spec fn spec_fields_ok(self) -> bool {
        self.spec_staged_entries() matches Some(s) && s.len() > 0
    }

    /// No staged media item still needs transport or filesystem.
    pub open spec fn spec_no_fetch_media(self) -> bool {
        &&& (self.spec_staged_audios() matches Some(l) ==> spec_media_list_no_fetch(l@))
        &&& (self.spec_staged_videos() matches Some(l) ==> spec_media_list_no_fetch(l@))
        &&& (self.spec_staged_pictures() matches Some(l) ==> spec_media_list_no_fetch(l@))
    }

    /// Every staged media item is resolvable without transport.
    pub open spec fn spec_media_ok(self) -> bool {
        &&& (self.spec_staged_audios() matches Some(l) ==> spec_media_list_resolvable(l@))
        &&& (self.spec_staged_videos() matches Some(l) ==> spec_media_list_resolvable(l@))
        &&& (self.spec_staged_pictures() matches Some(l) ==> spec_media_list_resolvable(l@))
    }

    /// The filename of the first staged media item that cannot be resolved,
    /// audio items first, then video, then picture items.
    pub open spec fn spec_first_missing(self) -> Option<String> {
        let a = match self.spec_staged_audios() {
            Some(l) => spec_first_unresolvable(l@),
            None => None,
        };
        let v = match self.spec_staged_videos() {
            Some(l) => spec_first_unresolvable(l@),
            None => None,
        };
        let p = match self.spec_staged_pictures() {
            Some(l) => spec_first_unresolvable(l@),
            None => None,
        };
        if a is Some {
            a
        } else if v is Some {
            v
        } else {
            p
        }
    }

    /// An empty staging structure with no part supplied.
    pub fn create_empty() -> (r: NoteBuilder)
        ensures
            r.wf(),
            r.spec_staged_deck_name() is None,
            r.spec_staged_model_name() is None,
            r.spec_staged_entries() is None,
            r.spec_staged_options() is None,
            r.spec_staged_tags() is None,
            r.spec_staged_audios() is None,
            r.spec_staged_videos() is None,
            r.spec_staged_pictures() is None,
    {
        NoteBuilder {
            deck_name: None,
            model_name: None,
            fields: None,
            options: None,
            tags: None,
            audios: None,
            videos: None,
            pictures: None,
        }
    }

    /// Stages the deck name.
    pub fn deck_name(self, deck_name: String) -> (r: NoteBuilder)
        requires
            self.wf(),
        ensures
            r.wf(),
            r.spec_staged_deck_name() == Some(deck_name),
            r.spec_staged_model_name() == self.spec_staged_model_name(),
            r.spec_staged_entries() == self.spec_staged_entries(),
            r.spec_staged_options() == self.spec_staged_options(),
            r.spec_staged_tags() == self.spec_staged_tags(),
            r.spec_staged_audios() == self.spec_staged_audios(),
            r.spec_staged_videos() == self.spec_staged_videos(),
            r.spec_staged_pictures() == self.spec_staged_pictures(),
    {
        NoteBuilder { deck_name: Some(deck_name), ..self }
    }

    /// Stages the model name.
    pub fn model_name(self, model_name: String) -> (r: NoteBuilder)
        requires
            self.wf(),
        ensures
            r.wf(),
            r.spec_staged_model_name() == Some(model_name),
            r.spec_staged_deck_name() == self.spec_staged_deck_name(),
            r.spec_staged_entries() == self.spec_staged_entries(),
            r.spec_staged_options() == self.spec_staged_options(),
            r.spec_staged_tags() == self.spec_staged_tags(),
            r.spec_staged_audios() == self.spec_staged_audios(),
            r.spec_staged_videos() == self.spec_staged_videos(),
            r.spec_staged_pictures() == self.spec_staged_pictures(),
    {
        NoteBuilder { model_name: Some(model_name), ..self }
    }

    /// Stages the per-note options.
    pub fn options(self, options: NoteOptions) -> (r: NoteBuilder)
        requires
            self.wf(),
        ensures
            r.wf(),
            r.spec_staged_options() == Some(options),
            r.spec_staged_deck_name() == self.spec_staged_deck_name(),
            r.spec_staged_model_name() == self.spec_staged_model_name(),
            r.spec_staged_entries() == self.spec_staged_entries(),
            r.spec_staged_tags() == self.spec_staged_tags(),
            r.spec_staged_audios() == self.spec_staged_audios(),
            r.spec_staged_videos() == self.spec_staged_videos(),
            r.spec_staged_pictures() == self.spec_staged_pictures(),
    {
        NoteBuilder { options: Some(options), ..self }
    }

    /// Stages the tags.
    pub fn tags(self, tags: Vec<String>) -> (r: NoteBuilder)
        requires
            self.wf(),
        ensures
            r.wf(),
            r.spec_staged_tags() == Some(tags),
            r.spec_staged_deck_name() == self.spec_staged_deck_name(),
            r.spec_staged_model_name() == self.spec_staged_model_name(),
            r.spec_staged_entries() == self.spec_staged_entries(),
            r.spec_staged_options() == self.spec_staged_options(),
            r.spec_staged_audios() == self.spec_staged_audios(),
            r.spec_staged_videos() == self.spec_staged_videos(),
            r.spec_staged_pictures() == self.spec_staged_pictures(),
    {
        NoteBuilder { tags: Some(tags), ..self }
    }

    /// Stages the audio items.
    pub fn audios(self, audios: Vec<Media>) -> (r: NoteBuilder)
        requires
            self.wf(),
            spec_media_list_wf(audios@),
        ensures
            r.wf(),
            r.spec_staged_audios() == Some(audios),
            r.spec_staged_deck_name() == self.spec_staged_deck_name(),
            r.spec_staged_model_name() == self.spec_staged_model_name(),
            r.spec_staged_entries() == self.spec_staged_entries(),
            r.spec_staged_options() == self.spec_staged_options(),
            r.spec_staged_tags() == self.spec_staged_tags(),
            r.spec_staged_videos() == self.spec_staged_videos(),
            r.spec_staged_pictures() == self.spec_staged_pictures(),
    {
        NoteBuilder { audios: Some(audios), ..self }
    }

    /// Stages the video items.
    pub fn videos(self, videos: Vec<Media>) -> (r: NoteBuilder)
        requires
            self.wf(),
            spec_media_list_wf(videos@),
        ensures
            r.wf(),
            r.spec_staged_videos() == Some(videos),
            r.spec_staged_deck_name() == self.spec_staged_deck_name(),
            r.spec_staged_model_name() == self.spec_staged_model_name(),
            r.spec_staged_entries() == self.spec_staged_entries(),
            r.spec_staged_options() == self.spec_staged_options(),
            r.spec_staged_tags() == self.spec_staged_tags(),
            r.spec_staged_audios() == self.spec_staged_audios(),
            r.spec_staged_pictures() == self.spec_staged_pictures(),
    {
        NoteBuilder { videos: Some(videos), ..self }
    }

    /// Stages the picture items.
    pub fn pictures(self, pictures: Vec<Media>) -> (r: NoteBuilder)
        requires
            self.wf(),
            spec_media_list_wf(pictures@),
        ensures
            r.wf(),
            r.spec_staged_pictures() == Some(pictures),
            r.spec_staged_deck_name() == self.spec_staged_deck_name(),
            r.spec_staged_model_name() == self.spec_staged_model_name(),
            r.spec_staged_entries() == self.spec_staged_entries(),
            r.spec_staged_options() == self.spec_staged_options(),
            r.spec_staged_tags() == self.spec_staged_tags(),
            r.spec_staged_audios() == self.spec_staged_audios(),
            r.spec_staged_videos() == self.spec_staged_videos(),
    {
        NoteBuilder { pictures: Some(pictures), ..self }
    }
}

/// One field entry inserted into the staged entries: an existing key keeps
/// its place and takes the new value; a new key is appended last.
pub open spec fn spec_insert_entry(
    s: Seq<(Seq<char>, Seq<char>)>,
    k: Seq<char>,
    v: Seq<char>,
) -> Seq<(Seq<char>, Seq<char>)> {
    if crate::fields::fields_has_key(s, k) {
        s.map(
            |i: int, e: (Seq<char>, Seq<char>)|
                if e.0 == k {
                    (k, v)
                } else {
                    e
                },
        )
    } else {
        s.push((k, v))
    }
}

/// A sequence of field entries inserted in order.
pub open spec fn spec_extend_entries(
    s: Seq<(Seq<char>, Seq<char>)>,
    ps: Seq<(String, String)>,
) -> Seq<(Seq<char>, Seq<char>)>
    decreases ps.len(),
{
    if ps.len() == 0 {
        s
    } else {
        spec_extend_entries(spec_insert_entry(s, ps[0].0@, ps[0].1@), ps.drop_first())
    }
}

impl NoteBuilder {
    /// The staged entries, or the empty sequence where none are staged yet.
    pub open spec fn spec_entries_or_empty(self) -> Seq<(Seq<char>, Seq<char>)> {
        match self.spec_staged_entries() {
            Some(s) => s,
            None => Seq::empty(),
        }
    }

    /// Stages one field entry.
    pub fn field(self, field_name: &str, value: &str) -> (r: NoteBuilder)
        requires
            self.wf(),
        ensures
            r.wf(),
            r.spec_staged_entries() == Some(
                spec_insert_entry(self.spec_entries_or_empty(), field_name@, value@),
            ),
            r.spec_staged_deck_name() == self.spec_staged_deck_name(),
            r.spec_staged_model_name() == self.spec_staged_model_name(),
            r.spec_staged_options() == self.spec_staged_options(),
            r.spec_staged_tags() == self.spec_staged_tags(),
            r.spec_staged_audios() == self.spec_staged_audios(),
            r.spec_staged_videos() == self.spec_staged_videos(),
            r.spec_staged_pictures() == self.spec_staged_pictures(),
    {
        let mut b = self;
        let mut map = match b.fields.take() {
            Some(m) => m,
            None => crate::fields::fields_new(),
        };
        let ghost olds = crate::fields::fields_entries(map);
        crate::fields::fields_insert(&mut map, field_name.to_owned(), value.to_owned());
        proof {
            assert(crate::fields::fields_entries(map) =~= spec_insert_entry(
                olds,
                field_name@,
                value@,
            ));
        }
        b.fields = Some(map);
        b
    }

    /// Stages a sequence of field entries, inserted in order.
    pub fn extend_fields(self, append: Vec<(String, String)>) -> (r: NoteBuilder)
        requires
            self.wf(),
        ensures
            r.wf(),
            r.spec_staged_entries() == Some(
                spec_extend_entries(self.spec_entries_or_empty(), append@),
            ),
            r.spec_staged_deck_name() == self.spec_staged_deck_name(),
            r.spec_staged_model_name() == self.spec_staged_model_name(),
            r.spec_staged_options() == self.spec_staged_options(),
            r.spec_staged_tags() == self.spec_staged_tags(),
            r.spec_staged_audios() == self.spec_staged_audios(),
            r.spec_staged_videos() == self.spec_staged_videos(),
            r.spec_staged_pictures() == self.spec_staged_pictures(),
    {
        let mut b = self;
        let mut map = match b.fields.take() {
            Some(m) => m,
            None => crate::fields::fields_new(),
        };
        let ghost start = crate::fields::fields_entries(map);
        proof {
            assert(append@.skip(0) =~= append@);
        }
        let mut i: usize = 0;
        while i < append.len()
            invariant
                i <= append@.len(),
                crate::fields::fields_unique(crate::fields::fields_entries(map)),
                spec_extend_entries(crate::fields::fields_entries(map), append@.skip(i as int))
                    == spec_extend_entries(start, append@),
            decreases append@.len() - i as int,
        {
            let ghost olds = crate::fields::fields_entries(map);
            proof {
                assert(append@.skip(i as int)[0] == append@[i as int]);
                assert(append@.skip(i as int).drop_first() =~= append@.skip(i as int + 1));
            }
            crate::fields::fields_insert(&mut map, append[i].0.clone(), append[i].1.clone());
            proof {
                assert(crate::fields::fields_entries(map) =~= spec_insert_entry(
                    olds,
                    append@[i as int].0@,
                    append@[i as int].1@,
                ));
            }
            i = i + 1;
        }
        proof {
            assert(append@.skip(i as int).len() == 0);
        }
        b.fields = Some(map);
        b
    }

    /// Finalizes the note.  The required parts are checked in the fixed
    /// order deck name, model name, fields: each must be present and
    /// non-empty, and the first violated one is named.  Then every staged
    /// media item is resolved; the first item with no usable source fails
    /// the whole build.  On success the staging structure is consumed and
    /// the produced note carries exactly what was staged.
    pub fn build(&mut self) -> (r: Result<Note, AnkiError>)
        requires
            old(self).wf(),
            old(self).spec_no_fetch_media(),
        ensures
            !old(self).spec_deck_ok() ==> (r matches Err(e) && e matches AnkiError::Builder(
                BuilderErrors::UninitializedField(f),
            ) && f@ == "deckName"@),
            old(self).spec_deck_ok() && !old(self).spec_model_ok() ==> (r matches Err(e)
                && e matches AnkiError::Builder(BuilderErrors::UninitializedField(f)) && f@
                == "modelName"@),
            old(self).spec_deck_ok() && old(self).spec_model_ok() && !old(self).spec_fields_ok()
                ==> (r matches Err(e) && e matches AnkiError::Builder(
                BuilderErrors::UninitializedField(f),
            ) && f@ == "fields"@),
            old(self).spec_deck_ok() && old(self).spec_model_ok() && old(self).spec_fields_ok()
                && !old(self).spec_media_ok() ==> (r matches Err(e) && e matches
            AnkiError::Builder(BuilderErrors::MissingMedia(f)) && old(self).spec_first_missing()
                == Some(f)),
            r is Ok <==> old(self).spec_deck_ok() && old(self).spec_model_ok() && old(
                self,
            ).spec_fields_ok() && old(self).spec_media_ok(),
            r matches Ok(n) ==> ({
                &&& n.wf()
                &&& old(self).spec_staged_deck_name() matches Some(d) && n.spec_deck_name() == d
                &&& old(self).spec_staged_model_name() matches Some(m) && n.spec_model_name() == m
                &&& Some(n.spec_fields_entries()) == old(self).spec_staged_entries()
                &&& n.spec_options() == old(self).spec_staged_options()
                &&& n.spec_tags() == old(self).spec_staged_tags()
                &&& spec_opt_list_resolved_from(n.spec_audios(), old(self).spec_staged_audios())
                &&& spec_opt_list_resolved_from(n.spec_videos(), old(self).spec_staged_videos())
                &&& spec_opt_list_resolved_from(
                    n.spec_pictures(),
                    old(self).spec_staged_pictures(),
                )
            }),
            r is Ok ==> ({
                &&& final(self).spec_staged_deck_name() is None
                &&& final(self).spec_staged_model_name() is None
                &&& final(self).spec_staged_entries() is None
                &&& final(self).spec_staged_options() is None
                &&& final(self).spec_staged_tags() is None
                &&& final(self).spec_staged_audios() is None
                &&& final(self).spec_staged_videos() is None
                &&& final(self).spec_staged_pictures() is None
            }),
    {
        let deck_name = match self.deck_name.take() {
            Some(d) => d,
            None => {
                return Err(
                    AnkiError::Builder(
                        BuilderErrors::UninitializedField("deckName".to_owned()),
                    ),
                );
            },
        };
        if deck_name.as_str().is_empty() {
            return Err(
                AnkiError::Builder(BuilderErrors::UninitializedField("deckName".to_owned())),
            );
        }
        let model_name = match self.model_name.take() {
            Some(m) => m,
            None => {
                return Err(
                    AnkiError::Builder(
                        BuilderErrors::UninitializedField("modelName".to_owned()),
                    ),
                );
            },
        };
        if model_name.as_str().is_empty() {
            return Err(
                AnkiError::Builder(BuilderErrors::UninitializedField("modelName".to_owned())),
            );
        }
        let fields = match self.fields.take() {
            Some(m) => m,
            None => {
                return Err(
                    AnkiError::Builder(BuilderErrors::UninitializedField("fields".to_owned())),
                );
            },
        };
        if crate::fields::fields_len(&fields) == 0 {
            return Err(
                AnkiError::Builder(BuilderErrors::UninitializedField("fields".to_owned())),
            );
        }
        let audios = match self.audios.take() {
            Some(l) => match resolve_media_list(l) {
                Ok(o) => Some(o),
                Err(e) => {
                    return Err(e);
                },
            },
            None => None,
        };
        let videos = match self.videos.take() {
            Some(l) => match resolve_media_list(l) {
                Ok(o) => Some(o),
                Err(e) => {
                    return Err(e);
                },
            },
            None => None,
        };
        let pictures = match self.pictures.take() {
            Some(l) => match resolve_media_list(l) {
                Ok(o) => Some(o),
                Err(e) => {
                    return Err(e);
                },
            },
            None => None,
        };
        let options = self.options.take();
        let tags = self.tags.take();
        Ok(
            Note {
                deck_name,
                model_name,
                fields,
                options,
                tags,
                audios,
                videos,
                pictures,
            },
        )
    }
}

/// How a media item serializes for the wire: filename, base64 data, target
/// fields, and the optional hash marker — omitted, not null, when unset.
pub open spec fn spec_media_wire(m: Media, v: JsonValue) -> bool {
    v matches JsonValue::Object(pairs) && {
        let ps = pairs@;
        &&& ps.len() == if m.spec_skip_hash() is Some {
            4int
        } else {
            3int
        }
        &&& ps[0].0@ == "filename"@
        &&& ps[0].1 == JsonValue::Text(m.spec_filename())
        &&& ps[1].0@ == "data"@
        &&& (ps[1].1 matches JsonValue::Text(t) && t@ == spec_base64_chars(m.spec_data()))
        &&& ps[2].0@ == "fields"@
        &&& (ps[2].1 matches JsonValue::Array(a) && a@.len() == m.spec_fields().len() && forall|
            i: int,
        |
            0 <= i < a@.len() ==> a@[i] == JsonValue::Text(m.spec_fields()[i]))
        &&& (m.spec_skip_hash() matches Some(h) ==> ps[3].0@ == "skipHash"@ && ps[3].1
            == JsonValue::Text(h))
    }
}

/// How a media list serializes: one wire object per item, order kept.
pub open spec fn spec_media_list_wire(l: Seq<Media>, v: JsonValue) -> bool {
    v matches JsonValue::Array(a) && a@.len() == l.len() && forall|i: int|
        0 <= i < l.len() ==> spec_media_wire(l[i], #[trigger] a@[i])
}

/// How a tag list serializes: an array of strings, order kept.
pub open spec fn spec_tags_wire(ts: Vec<String>, v: JsonValue) -> bool {
    v matches JsonValue::Array(a) && a@.len() == ts@.len() && forall|i: int|
        0 <= i < a@.len() ==> a@[i] == JsonValue::Text(ts@[i])
}

/// How the duplicate-scope options serialize; an unset deck override is
/// omitted, not null.
pub open spec fn spec_scope_options_wire(o: DuplicateScopeOptions, v: JsonValue) -> bool {
    v matches JsonValue::Object(pairs) && {
        let ps = pairs@;
        match o.spec_deck_name() {
            Some(d) => {
                &&& ps.len() == 3
                &&& ps[0].0@ == "deckName"@
                &&& ps[0].1 == JsonValue::Text(d)
                &&& ps[1].0@ == "checkChildren"@
                &&& ps[1].1 == JsonValue::Bool(o.spec_check_children())
                &&& ps[2].0@ == "checkAllModels"@
                &&& ps[2].1 == JsonValue::Bool(o.spec_check_all_models())
            },
            None => {
                &&& ps.len() == 2
                &&& ps[0].0@ == "checkChildren"@
                &&& ps[0].1 == JsonValue::Bool(o.spec_check_children())
                &&& ps[1].0@ == "checkAllModels"@
                &&& ps[1].1 == JsonValue::Bool(o.spec_check_all_models())
            },
        }
    }
}

/// How the per-note options serialize.
pub open spec fn spec_options_wire(o: NoteOptions, v: JsonValue) -> bool {
    v matches JsonValue::Object(pairs) && {
        let ps = pairs@;
        &&& ps.len() == 3
        &&& ps[0].0@ == "allowDuplicate"@
        &&& ps[0].1 == JsonValue::Bool(o.spec_allow_duplicate())
        &&& ps[1].0@ == "duplicateScope"@
        &&& (ps[1].1 matches JsonValue::Text(t) && t@ == match o.spec_duplicate_scope() {
            DuplicateScope::Deck => "deck"@,
            DuplicateScope::EntireCollection => "entire-collection"@,
        })
        &&& ps[2].0@ == "duplicateScopeOptions"@
        &&& spec_scope_options_wire(o.spec_duplicate_scope_options(), ps[2].1)
    }
}

/// How a note serializes for the wire.  The required parts come first; each
/// optional part is present exactly when it was set, under the wire keys
/// `audio`, `video`, `picture` for the media lists.
pub open spec fn spec_note_wire(n: Note, v: JsonValue) -> bool {
    v matches JsonValue::Object(pairs) && {
        let ps = pairs@;
        let io = 3int;
        let it = io + if n.spec_options() is Some {
            1int
        } else {
            0int
        };
        let ia = it + if n.spec_tags() is Some {
            1int
        } else {
            0int
        };
        let iv = ia + if n.spec_audios() is Some {
            1int
        } else {
            0int
        };
        let ip = iv + if n.spec_videos() is Some {
            1int
        } else {
            0int
        };
        let total = ip + if n.spec_pictures() is Some {
            1int
        } else {
            0int
        };
        &&& ps.len() == total
        &&& ps[0].0@ == "deckName"@
        &&& ps[0].1 == JsonValue::Text(n.spec_deck_name())
        &&& ps[1].0@ == "modelName"@
        &&& ps[1].1 == JsonValue::Text(n.spec_model_name())
        &&& ps[2].0@ == "fields"@
        &&& (ps[2].1 matches JsonValue::Object(fp) && fp@.len() == n.spec_fields_entries().len()
            && forall|i: int|
            0 <= i < fp@.len() ==> (#[trigger] fp@[i]).0@ == n.spec_fields_entries()[i].0 && (
            fp@[i].1 matches JsonValue::Text(t) && t@ == n.spec_fields_entries()[i].1))
        &&& (n.spec_options() matches Some(o) ==> ps[io].0@ == "options"@ && spec_options_wire(
            o,
            ps[io].1,
        ))
        &&& (n.spec_tags() matches Some(ts) ==> ps[it].0@ == "tags"@ && spec_tags_wire(
            ts,
            ps[it].1,
        ))
        &&& (n.spec_audios() matches Some(l) ==> ps[ia].0@ == "audio"@ && spec_media_list_wire(
            l@,
            ps[ia].1,
        ))
        &&& (n.spec_videos() matches Some(l) ==> ps[iv].0@ == "video"@ && spec_media_list_wire(
            l@,
            ps[iv].1,
        ))
        &&& (n.spec_pictures() matches Some(l) ==> ps[ip].0@ == "picture"@
            && spec_media_list_wire(l@, ps[ip].1))
    }
}

/// Serializes a list of strings.
fn strings_to_wire(ts: &Vec<String>) -> (r: JsonValue)
    ensures
        spec_tags_wire(*ts, r),
{
    let mut arr: Vec<JsonValue> = Vec::new();
    let mut i: usize = 0;
    while i < ts.len()
        invariant
            i <= ts@.len(),
            arr@.len() == i as int,
            forall|j: int| 0 <= j < i as int ==> arr@[j] == JsonValue::Text(ts@[j]),
        decreases ts@.len() - i as int,
    {
        arr.push(JsonValue::Text(ts[i].clone()));
        i = i + 1;
    }
    JsonValue::Array(arr)
}

impl Media {
    /// Serializes the item for the wire: the data bytes travel as base64
    /// text, and an unset hash marker is omitted.
    pub fn to_wire(&self) -> (r: JsonValue)
        ensures
            spec_media_wire(*self, r),
    {
        let mut pairs: Vec<(String, JsonValue)> = Vec::new();
        pairs.push(("filename".to_owned(), JsonValue::Text(self.filename.clone())));
        pairs.push(("data".to_owned(), JsonValue::Text(base64_string(&self.data))));
        pairs.push(("fields".to_owned(), strings_to_wire(&self.fields)));
        match &self.skipHash {
            Some(h) => {
                pairs.push(("skipHash".to_owned(), JsonValue::Text(h.clone())));
            },
            None => {},
        }
        JsonValue::Object(pairs)
    }
}

/// Serializes a media list.
fn media_list_to_wire(l: &Vec<Media>) -> (r: JsonValue)
    ensures
        spec_media_list_wire(l@, r),
{
    let mut arr: Vec<JsonValue> = Vec::new();
    let mut i: usize = 0;
    while i < l.len()
        invariant
            i <= l@.len(),
            arr@.len() == i as int,
            forall|j: int| 0 <= j < i as int ==> spec_media_wire(l@[j], #[trigger] arr@[j]),
        decreases l@.len() - i as int,
    {
        arr.push(l[i].to_wire());
        i = i + 1;
    }
    JsonValue::Array(arr)
}

impl DuplicateScopeOptions {
    /// Serializes the duplicate-scope options; an unset deck override is
    /// omitted, not null.
    pub fn to_wire_value(&self) -> (r: JsonValue)
        ensures
            spec_scope_options_wire(*self, r),
    {
        let mut pairs: Vec<(String, JsonValue)> = Vec::new();
        match &self.deck_name {
            Some(d) => {
                pairs.push(("deckName".to_owned(), JsonValue::Text(d.clone())));
            },
            None => {},
        }
        pairs.push(("checkChildren".to_owned(), JsonValue::Bool(self.check_children)));
        pairs.push(("checkAllModels".to_owned(), JsonValue::Bool(self.check_all_models)));
        JsonValue::Object(pairs)
    }
}

impl NoteOptions {
    /// Serializes the per-note options.
    pub fn to_wire_value(&self) -> (r: JsonValue)
        ensures
            spec_options_wire(*self, r),
    {
        let mut pairs: Vec<(String, JsonValue)> = Vec::new();
        pairs.push(("allowDuplicate".to_owned(), JsonValue::Bool(self.allow_duplicate)));
        pairs.push(("duplicateScope".to_owned(), JsonValue::Text(self.duplicate_scope.to_wire())));
        pairs.push(
            ("duplicateScopeOptions".to_owned(), self.duplicate_scope_options.to_wire_value()),
        );
        JsonValue::Object(pairs)
    }
}

impl Note {
    /// Serializes the note for the wire.  Media lists travel under the keys
    /// `audio`, `video`, and `picture`; every optional part that was never
    /// set is omitted, never serialized as an explicit null.
    pub fn to_wire(&self) -> (r: JsonValue)
        ensures
            spec_note_wire(*self, r),
    {
        let mut pairs: Vec<(String, JsonValue)> = Vec::new();
        pairs.push(("deckName".to_owned(), JsonValue::Text(self.deck_name.clone())));
        pairs.push(("modelName".to_owned(), JsonValue::Text(self.model_name.clone())));
        let entries = crate::fields::fields_pairs(&self.fields);
        let mut fp: Vec<(String, JsonValue)> = Vec::new();
        let mut i: usize = 0;
        while i < entries.len()
            invariant
                i <= entries@.len(),
                fp@.len() == i as int,
                forall|j: int|
                    0 <= j < i as int ==> (#[trigger] fp@[j]).0@ == entries@[j].0@ && (
                    fp@[j].1 matches JsonValue::Text(t) && t@ == entries@[j].1@),
            decreases entries@.len() - i as int,
        {
            fp.push((entries[i].0.clone(), JsonValue::Text(entries[i].1.clone())));
            i = i + 1;
        }
        pairs.push(("fields".to_owned(), JsonValue::Object(fp)));
        match &self.options {
            Some(o) => {
                pairs.push(("options".to_owned(), o.to_wire_value()));
            },
            None => {},
        }
        match &self.tags {
            Some(ts) => {
                pairs.push(("tags".to_owned(), strings_to_wire(ts)));
            },
            None => {},
        }
        match &self.audios {
            Some(l) => {
                pairs.push(("audio".to_owned(), media_list_to_wire(l)));
            },
            None => {},
        }
        match &self.videos {
            Some(l) => {
                pairs.push(("video".to_owned(), media_list_to_wire(l)));
            },
            None => {},
        }
        match &self.pictures {
            Some(l) => {
                pairs.push(("picture".to_owned(), media_list_to_wire(l)));
            },
            None => {},
        }
        JsonValue::Object(pairs)
    }
}

/// How a one-member parameter object with a string member serializes.
pub open spec fn spec_query_params_wire(q: Seq<char>, v: JsonValue) -> bool {
    v matches JsonValue::Object(ps) && ps@.len() == 1 && ps@[0].0@ == "query"@ && (
    ps@[0].1 matches JsonValue::Text(t) && t@ == q)
}

/// How an identifier list serializes: one integer per identifier, in order.
pub open spec fn spec_id_array_wire(ids: Seq<Number>, v: JsonValue) -> bool {
    v matches JsonValue::Array(a) && a@.len() == ids.len() && forall|i: int|
        0 <= i < a@.len() ==> ((#[trigger] a@[i]) matches JsonValue::Int(x) && x as int
            == ids[i]@)
}

/// How a `notes` identifier-list parameter object serializes.
pub open spec fn spec_ids_params_wire(ids: Seq<Number>, v: JsonValue) -> bool {
    v matches JsonValue::Object(ps) && ps@.len() == 1 && ps@[0].0@ == "notes"@
        && spec_id_array_wire(ids, ps@[0].1)
}

/// How a single-note-identifier parameter object serializes.
pub open spec fn spec_note_id_params_wire(id: Number, v: JsonValue) -> bool {
    v matches JsonValue::Object(ps) && ps@.len() == 1 && ps@[0].0@ == "note"@ && (
    ps@[0].1 matches JsonValue::Int(x) && x as int == id@)
}

/// How a `notes` note-list parameter object serializes.
pub open spec fn spec_notes_params_wire(notes: Seq<Note>, v: JsonValue) -> bool {
    v matches JsonValue::Object(ps) && ps@.len() == 1 && ps@[0].0@ == "notes"@ && (
    ps@[0].1 matches JsonValue::Array(a) && a@.len() == notes.len() && forall|i: int|
        0 <= i < a@.len() ==> spec_note_wire(notes[i], #[trigger] a@[i]))
}

/// Parameters of the find-notes action.
pub struct FindNotesParams {
    pub query: String,
}

impl FindNotesParams {
    /// Serializes the parameters.
    pub fn to_value(&self) -> (r: JsonValue)
        ensures
            spec_query_params_wire(self.query@, r),
    {
        let mut ps: Vec<(String, JsonValue)> = Vec::new();
        ps.push(("query".to_owned(), JsonValue::Text(self.query.clone())));
        JsonValue::Object(ps)
    }
}

/// Parameters of the notes-info and delete-notes actions.
pub struct NotesInfoParams {
    pub notes: Vec<Number>,
}

impl NotesInfoParams {
    /// Serializes the parameters.
    pub fn to_value(&self) -> (r: JsonValue)
        ensures
            spec_ids_params_wire(self.notes@, r),
    {
        let mut arr: Vec<JsonValue> = Vec::new();
        let mut i: usize = 0;
        while i < self.notes.len()
            invariant
                i <= self.notes@.len(),
                arr@.len() == i as int,
                forall|j: int|
                    0 <= j < i as int ==> ((#[trigger] arr@[j]) matches JsonValue::Int(x)
                        && x as int == self.notes@[j]@),
            decreases self.notes@.len() - i as int,
        {
            arr.push(JsonValue::Int(self.notes[i].value()));
            i = i + 1;
        }
        let mut ps: Vec<(String, JsonValue)> = Vec::new();
        ps.push(("notes".to_owned(), JsonValue::Array(arr)));
        JsonValue::Object(ps)
    }
}

/// Parameters of the open-note-editor action.
pub struct GuiEditNoteParams {
    pub note: Number,
}

impl GuiEditNoteParams {
    /// Serializes the parameters.
    pub fn to_value(&self) -> (r: JsonValue)
        ensures
            spec_note_id_params_wire(self.note, r),
    {
        let mut ps: Vec<(String, JsonValue)> = Vec::new();
        ps.push(("note".to_owned(), JsonValue::Int(self.note.value())));
        JsonValue::Object(ps)
    }
}

/// Parameters of the add-notes action.
pub struct AddNotesParams {
    pub notes: Vec<Note>,
}

impl AddNotesParams {
    /// Serializes the parameters.
    pub fn to_value(&self) -> (r: JsonValue)
        ensures
            spec_notes_params_wire(self.notes@, r),
    {
        let mut arr: Vec<JsonValue> = Vec::new();
        let mut i: usize = 0;
        while i < self.notes.len()
            invariant
                i <= self.notes@.len(),
                arr@.len() == i as int,
                forall|j: int|
                    0 <= j < i as int ==> spec_note_wire(self.notes@[j], #[trigger] arr@[j]),
            decreases self.notes@.len() - i as int,
        {
            arr.push(self.notes[i].to_wire());
            i = i + 1;
        }
        let mut ps: Vec<(String, JsonValue)> = Vec::new();
        ps.push(("notes".to_owned(), JsonValue::Array(arr)));
        JsonValue::Object(ps)
    }
}

/// The parameter object carried by a request envelope.
pub open spec fn spec_request_params(v: JsonValue) -> JsonValue {
    if v matches JsonValue::Object(ps) && ps@.len() >= 3 {
        v->Object_0@[2].1
    } else {
        JsonValue::Null
    }
}

/// Builds a request envelope carrying an action name and parameters.
fn action_request(action: &str, version: u8, params: JsonValue) -> (r: JsonValue)
    requires
        action@.len() > 0,
    ensures
        spec_request_wire(action@, version, Some(params), r),
        spec_request_params(r) == params,
{
    let built = GenericRequestBuilder::create_empty().action(action.to_owned()).version(
        version,
    ).params(Some(params)).build();
    match built {
        Ok(req) => {
            let r = req.into_value();
            proof {
                assert(spec_request_params(r) == params);
            }
            r
        },
        Err(_) => vstd::pervasive::unreached(),
    }
}

/// The envelope of the find-notes action.
pub fn find_notes_request(version: u8, query: &AnkiQuery) -> (r: JsonValue)
    ensures
        spec_request_wire("findNotes"@, version, Some(spec_request_params(r)), r),
        spec_query_params_wire(crate::anki::spec_query_text(*query), spec_request_params(r)),
{
    proof {
        reveal_strlit("findNotes");
    }
    let params = FindNotesParams { query: query.to_query() }.to_value();
    action_request("findNotes", version, params)
}

/// The envelope of the notes-info action.
pub fn notes_info_request(version: u8, ids: &Vec<Number>) -> (r: JsonValue)
    ensures
        spec_request_wire("notesInfo"@, version, Some(spec_request_params(r)), r),
        spec_ids_params_wire(ids@, spec_request_params(r)),
{
    proof {
        reveal_strlit("notesInfo");
    }
    let params = NotesInfoParams { notes: copy_numbers(ids) }.to_value();
    action_request("notesInfo", version, params)
}

/// The envelope of the delete-notes action.
pub fn delete_notes_request(version: u8, ids: &Vec<Number>) -> (r: JsonValue)
    ensures
        spec_request_wire("deleteNotes"@, version, Some(spec_request_params(r)), r),
        spec_ids_params_wire(ids@, spec_request_params(r)),
{
    proof {
        reveal_strlit("deleteNotes");
    }
    let params = NotesInfoParams { notes: copy_numbers(ids) }.to_value();
    action_request("deleteNotes", version, params)
}

/// The envelope of the open-note-editor action.
pub fn gui_edit_request(version: u8, id: Number) -> (r: JsonValue)
    ensures
        spec_request_wire("guiEditNote"@, version, Some(spec_request_params(r)), r),
        spec_note_id_params_wire(id, spec_request_params(r)),
{
    proof {
        reveal_strlit("guiEditNote");
    }
    let params = GuiEditNoteParams { note: id }.to_value();
    action_request("guiEditNote", version, params)
}

/// The envelope of the add-notes action.
pub fn add_notes_request(version: u8, notes: Vec<Note>) -> (r: JsonValue)
    ensures
        spec_request_wire("addNotes"@, version, Some(spec_request_params(r)), r),
        spec_notes_params_wire(notes@, spec_request_params(r)),
{
    proof {
        reveal_strlit("addNotes");
    }
    let params = AddNotesParams { notes }.to_value();
    action_request("addNotes", version, params)
}

/// Copies a list of identifiers.
fn copy_numbers(ids: &Vec<Number>) -> (r: Vec<Number>)
    ensures
        r@ == ids@,
{
    let mut out: Vec<Number> = Vec::new();
    let mut i: usize = 0;
    while i < ids.len()
        invariant
            i <= ids@.len(),
            out@.len() == i as int,
            forall|j: int| 0 <= j < i as int ==> out@[j] == ids@[j],
        decreases ids@.len() - i as int,
    {
        out.push(ids[i]);
        i = i + 1;
    }
    proof {
        assert(out@ =~= ids@);
    }
    out
}

/// A payload whose every element is an integer identifier.
pub open spec fn spec_is_id_list(v: JsonValue) -> bool {
    v matches JsonValue::Array(a) && forall|i: int| 0 <= i < a@.len() ==> (#[trigger] a@[i]) is Int
}

/// The identifiers an identifier-list payload holds, in order.
pub open spec fn spec_ids_match(v: JsonValue, ids: Seq<i64>) -> bool {
    v matches JsonValue::Array(a) && a@.len() == ids.len() && forall|i: int|
        0 <= i < a@.len() ==> #[trigger] a@[i] == JsonValue::Int(ids[i])
}

/// Decodes an identifier-list payload.  Any element that is not an integer
/// fails the whole list, keeping the raw payload for inspection.
fn decode_ids(name: &str, v: JsonValue) -> (r: Result<Vec<i64>, AnkiError>)
    ensures
        r is Ok <==> spec_is_id_list(v),
        r matches Ok(ids) ==> spec_ids_match(v, ids@),
        r matches Err(e) ==> (e matches AnkiError::CustomSerde(c) && c.spec_recv() == v
            && c.spec_exp() == name@),
{
    let mut bad = false;
    let mut out: Vec<i64> = Vec::new();
    match &v {
        JsonValue::Array(items) => {
            let mut i: usize = 0;
            while i < items.len() && !bad
                invariant
                    i <= items@.len(),
                    !bad ==> out@.len() == i as int,
                    !bad ==> forall|j: int|
                        0 <= j < i as int ==> #[trigger] items@[j] == JsonValue::Int(out@[j]),
                    bad ==> exists|j: int| 0 <= j < items@.len() && !((#[trigger] items@[j]) is Int),
                decreases items@.len() - i as int,
            {
                match &items[i] {
                    JsonValue::Int(x) => {
                        out.push(*x);
                    },
                    _ => {
                        bad = true;
                    },
                }
                i = i + 1;
            }
        },
        _ => {
            bad = true;
        },
    }
    if bad {
        Err(
            AnkiError::CustomSerde(
                CustomSerdeError::expected(
                    Some(name.to_owned()),
                    v,
                    Some("expected an array of integer identifiers".to_owned()),
                ),
            ),
        )
    } else {
        Ok(out)
    }
}

/// Envelope round trip at the typed level: an encoded identifier list is
/// left intact by the sanitization rule, and decoding it reproduces exactly
/// the identifiers that were staged.
pub proof fn lemma_ids_round_trip(ids: Seq<Number>, v: JsonValue, back: Seq<i64>)
    requires
        spec_id_array_wire(ids, v),
        spec_ids_match(v, back),
    ensures
        back.len() == ids.len(),
        forall|i: int| 0 <= i < back.len() ==> back[i] as int == ids[i]@,
        crate::json::spec_sanitize_items(v->Array_0@) == v->Array_0@,
{
    let a = v->Array_0@;
    assert forall|i: int| 0 <= i < a.len() implies !crate::json::spec_is_empty_object(
        a[i],
    ) by {
        assert(a[i] is Int);
    }
    assert forall|i: int| 0 <= i < back.len() implies back[i] as int == ids[i]@ by {
        assert(a[i] == JsonValue::Int(back[i]));
        assert(a[i] matches JsonValue::Int(x) && x as int == ids[i]@);
    }
    crate::generic::lemma_filter_all_kept(a);
}

/// Interprets the resolved payload of the find-notes action: an array of
/// note identifiers.  An empty match set is a valid outcome.
pub fn find_notes_result(payload: Option<JsonValue>) -> (r: Result<Vec<i64>, AnkiError>)
    ensures
        r is Ok <==> (payload matches Some(p) && spec_is_id_list(p)),
        payload matches Some(p) ==> (r matches Ok(ids) ==> spec_ids_match(p, ids@)),
        payload is None ==> (r matches Err(e) && e matches AnkiError::CustomSerde(c)
            && c.spec_recv() == JsonValue::Null),
        payload matches Some(p) ==> (!spec_is_id_list(p) ==> (r matches Err(e) && e matches
        AnkiError::CustomSerde(c) && c.spec_recv() == p)),
{
    match payload {
        Some(p) => decode_ids("IdList", p),
        None => Err(
            AnkiError::CustomSerde(
                CustomSerdeError::expected(
                    Some("IdList".to_owned()),
                    JsonValue::Null,
                    Some("result is missing".to_owned()),
                ),
            ),
        ),
    }
}

/// Interprets the resolved payload of the add-notes action: the array of
/// identifiers of the newly added notes.
pub fn add_notes_result(payload: Option<JsonValue>) -> (r: Result<Vec<i64>, AnkiError>)
    ensures
        r is Ok <==> (payload matches Some(p) && spec_is_id_list(p)),
        payload matches Some(p) ==> (r matches Ok(ids) ==> spec_ids_match(p, ids@)),
        r matches Err(e) ==> e matches AnkiError::CustomSerde(_),
{
    match payload {
        Some(p) => decode_ids("IdList", p),
        None => Err(
            AnkiError::CustomSerde(
                CustomSerdeError::expected(
                    Some("IdList".to_owned()),
                    JsonValue::Null,
                    Some("result is missing".to_owned()),
                ),
            ),
        ),
    }
}

/// Interprets the resolved payload of an action that returns nothing: the
/// payload must be absent or null.
pub fn unit_result(payload: Option<JsonValue>) -> (r: Result<(), AnkiError>)
    ensures
        r is Ok <==> payload is None,
        payload matches Some(p) ==> (r matches Err(e) && e matches AnkiError::CustomSerde(c)
            && c.spec_recv() == p),
{
    match payload {
        None => Ok(()),
        Some(p) => Err(
            AnkiError::CustomSerde(
                CustomSerdeError::expected(
                    Some("unit".to_owned()),
                    p,
                    Some("expected no result payload".to_owned()),
                ),
            ),
        ),
    }
}

} // verus!
