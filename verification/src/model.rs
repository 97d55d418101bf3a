//! Tracks, levels, status and buffer settings of a stream.
use crate::error::MusicStreamError;
use crate::headers::{SourceHeader, SourceHeaders};
use crate::text::{
    all_ascii_alphanumeric, ascii_lowercase, blank, chars_of, is_ascii_alphanumeric, is_blank, lower,
    same_text, spec_starts_with, starts_with,
};
use vstd::prelude::*;
use vstd::string::*;
use vstd::utf8::encode_utf8;

verus! {

#[derive(Clone, Copy, Debug, PartialEq, Eq, Structural)]
pub enum TrackKind {
    File,
    Url,
    Live,
}

/// Which network rules apply to the requests of a source.
#[derive(Clone, Copy, Debug, PartialEq, Eq, Structural)]
pub enum NetworkPolicy {
    Provider,
}

/// One playback occurrence of a track.
#[derive(Debug, PartialEq, Eq)]
pub struct TrackSource {
    /// Names this occurrence; two occurrences of one track differ here.
    pub attempt_id: String,
    pub id: String,
    pub kind: TrackKind,
    pub url: Option<String>,
    pub path: Option<String>,
    /// Optional media format hint such as `mp3`, `flac`, `ogg`, or `wav`.
    /// It describes the bytes, not the spelling of a temporary URL.
    pub format_hint: Option<String>,
    pub seekable: Option<bool>,
    /// Per-source HTTP request headers. They stay server-side and are never projected in status.
    pub headers: SourceHeaders,
    pub network_policy: NetworkPolicy,
}

pub(crate) fn copy_text(text: &Option<String>) -> (copy: Option<String>)
    ensures
        copy == *text,
{
    match text {
        Some(text) => Some(text.clone()),
        None => None,
    }
}

impl Clone for TrackSource {
    fn clone(&self) -> (copy: Self)
        ensures
            copy == *self,
    {
        TrackSource {
            attempt_id: self.attempt_id.clone(),
            id: self.id.clone(),
            kind: self.kind,
            url: copy_text(&self.url),
            path: copy_text(&self.path),
            format_hint: copy_text(&self.format_hint),
            seekable: self.seekable,
            headers: self.headers.clone(),
            network_policy: self.network_policy,
        }
    }
}

impl TrackSource {
    pub open spec fn spec_is_live(self) -> bool {
        self.kind == TrackKind::Live
    }

    pub open spec fn spec_is_seekable(self) -> bool {
        !self.spec_is_live() && self.seekable != Some(false)
    }

    pub open spec fn spec_same_attempt_as(self, other: Self) -> bool {
        self.attempt_id@ == other.attempt_id@
    }

    /// What a status shows of the source: everything but its request headers.
    pub open spec fn spec_shown(self) -> TrackSource {
        TrackSource { headers: SourceHeaders::none(), ..self }
    }

    /// A copy for a status, without the request headers.
    #[must_use]
    pub fn shown(&self) -> (copy: Self)
        ensures
            copy == self.spec_shown(),
            copy.headers@ == Seq::<SourceHeader>::empty(),
    {
        TrackSource {
            attempt_id: self.attempt_id.clone(),
            id: self.id.clone(),
            kind: self.kind,
            url: copy_text(&self.url),
            path: copy_text(&self.path),
            format_hint: copy_text(&self.format_hint),
            seekable: self.seekable,
            headers: SourceHeaders::new(),
            network_policy: self.network_policy,
        }
    }

    /// Key under which attempts at this occurrence are recognised.
    #[must_use]
    pub fn attempt_key(&self) -> (key: &String)
        ensures
            *key == self.attempt_id,
    {
        &self.attempt_id
    }

    #[must_use]
    pub fn same_attempt_as(&self, other: &Self) -> (same: bool)
        ensures
            same == self.spec_same_attempt_as(*other),
    {
        self.attempt_id == other.attempt_id
    }

    /// Key that stays the same over all occurrences of a track.
    #[must_use]
    pub fn stable_key(&self) -> (key: &str)
        ensures
            key@ == self.id@,
    {
        self.id.as_str()
    }

    #[must_use]
    pub fn same_identity_as(&self, other: &Self) -> (same: bool)
        ensures
            same == (self.id@ == other.id@),
    {
        self.id == other.id
    }

    #[must_use]
    pub fn is_live(&self) -> (live: bool)
        ensures
            live == self.spec_is_live(),
    {
        self.kind == TrackKind::Live
    }

    #[must_use]
    pub fn is_seekable(&self) -> (seekable: bool)
        ensures
            seekable == self.spec_is_seekable(),
    {
        match self.kind {
            TrackKind::Live => false,
            TrackKind::File | TrackKind::Url => match self.seekable {
                Some(seekable) => seekable,
                None => true,
            },
        }
    }
}

pub const MAX_TRACK_ID_BYTES: usize = 512;

pub const MAX_SOURCE_LOCATION_BYTES: usize = 16_384;

pub const MAX_FORMAT_HINT_BYTES: usize = 16;

pub const MAX_HEADERS: usize = 16;

pub const MAX_HEADER_BYTES: usize = 16_384;

/// How many bytes a text takes up.
pub open spec fn byte_len(text: Seq<char>) -> nat {
    encode_utf8(text).len()
}

pub(crate) fn bytes_in(text: &str) -> (len: usize)
    ensures
        len == byte_len(text@),
{
    text.as_bytes().len()
}

/// The part of a URL in front of its query and fragment.
pub open spec fn url_path(url: Seq<char>) -> Seq<char>
    decreases url.len(),
{
    if url.len() == 0 {
        url
    } else {
        let front = url_path(url.drop_last());
        if front.len() < url.len() - 1 || url.last() == '?' || url.last() == '#' {
            front
        } else {
            url
        }
    }
}

/// Whether the last segment of a path ends in `.m3u8`, in any case.
pub open spec fn names_playlist(path: Seq<char>) -> bool {
    let tail = lower(path.subrange(path.len() - 5, path.len() as int));
    path.len() >= 5 && tail == seq!['.', 'm', '3', 'u', '8']
}

/// The characters behind the last `mark`, if there is one.
pub open spec fn behind_last(text: Seq<char>, mark: char) -> Option<Seq<char>>
    decreases text.len(),
{
    if text.len() == 0 {
        None
    } else if text.last() == mark {
        Some(Seq::empty())
    } else {
        match behind_last(text.drop_last(), mark) {
            Some(front) => Some(front.push(text.last())),
            None => None,
        }
    }
}

/// The last segment of a path.
pub open spec fn last_segment(path: Seq<char>) -> Seq<char> {
    match behind_last(path, '/') {
        Some(segment) => segment,
        None => path,
    }
}

/// The format that a URL names by its extension: 1 to 8 ASCII letters or digits
/// behind the last dot of the last segment.
pub open spec fn url_extension(url: Seq<char>) -> Option<Seq<char>> {
    match behind_last(last_segment(url_path(url)), '.') {
        Some(extension) => if 1 <= extension.len() <= 8 && all_ascii_alphanumeric(extension) {
            Some(extension)
        } else {
            None
        },
        None => None,
    }
}

/// The bytes of which a header name may consist: those of an HTTP token.
pub open spec fn token_byte(b: u8) -> bool {
    ||| 48 <= b <= 57
    ||| 65 <= b <= 90
    ||| 97 <= b <= 122
    ||| b == 33 || b == 35 || b == 36 || b == 37 || b == 38 || b == 39 || b == 42 || b == 43
    ||| b == 45 || b == 46 || b == 94 || b == 95 || b == 96 || b == 124 || b == 126
}

pub open spec fn token_name(name: Seq<u8>) -> bool {
    1 <= name.len() <= 65_535 && forall|i: int| 0 <= i < name.len() ==> token_byte(#[trigger] name[i])
}

/// The bytes of which a header value may consist: no controls but the tab.
pub open spec fn value_byte(b: u8) -> bool {
    (b >= 32 && b != 127) || b == 9
}

pub open spec fn plain_value(value: Seq<u8>) -> bool {
    forall|i: int| 0 <= i < value.len() ==> value_byte(#[trigger] value[i])
}

/// `HeaderName::from_bytes` succeeds on names of 1 to 65535 token bytes, and on
/// no others.
#[verifier::external_body]
fn header_name_accepted(name: &str) -> (accepted: bool)
    ensures
        accepted == token_name(encode_utf8(name@)),
{
    reqwest::header::HeaderName::from_bytes(name.as_bytes()).is_ok()
}

/// `HeaderValue::from_str` succeeds on values without control bytes other than
/// the tab, and on no others.
#[verifier::external_body]
fn header_value_accepted(value: &str) -> (accepted: bool)
    ensures
        accepted == plain_value(encode_utf8(value@)),
{
    reqwest::header::HeaderValue::from_str(value).is_ok()
}

/// Headers that frame the transport; a source may not set them.
pub open spec fn forbidden_header(name: Seq<char>) -> bool {
    ||| name == "connection"@
    ||| name == "content-length"@
    ||| name == "host"@
    ||| name == "proxy-authenticate"@
    ||| name == "proxy-authorization"@
    ||| name == "range"@
    ||| name == "te"@
    ||| name == "trailer"@
    ||| name == "transfer-encoding"@
    ||| name == "upgrade"@
}

/// Tells whether a lower case header name is reserved for the transport.
pub fn is_forbidden_source_header(name: &str) -> (forbidden: bool)
    ensures
        forbidden == forbidden_header(name@),
{
    same_text(name, "connection") || same_text(name, "content-length") || same_text(name, "host")
        || same_text(name, "proxy-authenticate") || same_text(name, "proxy-authorization")
        || same_text(name, "range") || same_text(name, "te") || same_text(name, "trailer")
        || same_text(name, "transfer-encoding") || same_text(name, "upgrade")
}

pub open spec fn header_allowed(header: SourceHeader) -> bool {
    &&& !forbidden_header(lower(header.name@))
    &&& token_name(encode_utf8(header.name@))
    &&& plain_value(encode_utf8(header.value@))
}

pub open spec fn header_bytes(headers: Seq<SourceHeader>) -> nat
    decreases headers.len(),
{
    if headers.len() == 0 {
        0
    } else {
        header_bytes(headers.drop_last()) + byte_len(headers.last().name@) + byte_len(
            headers.last().value@,
        )
    }
}

/// The first header that may not be sent, if there is one.
pub open spec fn first_refused(headers: Seq<SourceHeader>, index: int) -> bool {
    0 <= index < headers.len() && !header_allowed(headers[index]) && forall|i: int|
        0 <= i < index ==> header_allowed(#[trigger] headers[i])
}

impl TrackSource {
    pub open spec fn id_ok(self) -> bool {
        !blank(self.id@) && byte_len(self.id@) <= MAX_TRACK_ID_BYTES
    }

    /// The complaint about where the source is, if there is one.
    pub open spec fn location_complaint(self) -> Option<Seq<char>> {
        match self.kind {
            TrackKind::File => match self.path {
                Some(path) if path@.len() > 0 && byte_len(path@) <= MAX_SOURCE_LOCATION_BYTES => None,
                _ => Some("file source requires a path no longer than 16 KiB"@),
            },
            TrackKind::Url | TrackKind::Live => match self.url {
                None => Some("URL and live sources require url"@),
                Some(url) => if byte_len(url@) <= MAX_SOURCE_LOCATION_BYTES && (spec_starts_with(
                    url@,
                    "http://"@,
                ) || spec_starts_with(url@, "https://"@)) {
                    None
                } else {
                    Some("URL and live sources require an HTTP(S) URL no longer than 16 KiB"@)
                },
            },
        }
    }

    pub open spec fn hint_ok(self) -> bool {
        self.format_hint matches Some(hint) ==> 1 <= hint@.len() <= MAX_FORMAT_HINT_BYTES
            && all_ascii_alphanumeric(hint@)
    }

    /// The complaint about the headers as a whole, if there is one.
    pub open spec fn headers_complaint(self) -> Option<Seq<char>> {
        if self.kind == TrackKind::File && self.headers@.len() > 0 {
            Some("file sources cannot contain HTTP headers"@)
        } else if self.headers@.len() > MAX_HEADERS || header_bytes(self.headers@)
            > MAX_HEADER_BYTES {
            Some("source headers exceed configured limits"@)
        } else {
            None
        }
    }

    pub open spec fn headers_ok(self) -> bool {
        self.headers_complaint() is None && forall|i: int|
            0 <= i < self.headers@.len() ==> header_allowed(#[trigger] self.headers@[i])
    }

    pub open spec fn is_valid(self) -> bool {
        self.id_ok() && self.location_complaint() is None && self.hint_ok() && self.headers_ok()
    }

    /// `text` is why the headers are refused.
    pub open spec fn headers_refused_as(self, text: Seq<char>) -> bool {
        match self.headers_complaint() {
            Some(complaint) => text == complaint,
            None => exists|i: int| #[trigger]
                first_refused(self.headers@, i) && text == "unsupported source header: "@
                    + self.headers@[i].name@,
        }
    }

    /// `text` is why the source is refused: the first complaint in the order id,
    /// location, format hint, headers.
    pub open spec fn refused_as(self, text: Seq<char>) -> bool {
        if !self.id_ok() {
            text == "track id must contain 1 to 512 bytes"@
        } else if self.location_complaint() is Some {
            text == self.location_complaint()->0
        } else if !self.hint_ok() {
            text == "format hint must contain 1 to 16 ASCII letters or digits"@
        } else {
            self.headers_refused_as(text)
        }
    }

    /// Whether the source is an HLS playlist by its hint or its URL.
    pub open spec fn spec_is_hls(self) -> bool {
        &&& self.kind != TrackKind::File
        &&& {
            ||| self.format_hint matches Some(hint) && lower(hint@) == seq!['m', '3', 'u', '8']
            ||| self.url matches Some(url) && names_playlist(url_path(url@))
        }
    }

    pub open spec fn normalized(self) -> TrackSource {
        if self.spec_is_hls() {
            TrackSource { kind: TrackKind::Live, seekable: Some(false), ..self }
        } else {
            self
        }
    }

    pub fn validate(&self) -> (result: Result<(), MusicStreamError>)
        ensures
            result is Ok <==> self.is_valid(),
            result matches Err(error) ==> (error matches MusicStreamError::InvalidSource(text)
                && self.refused_as(text@)),
    {
        if is_blank(self.id.as_str()) || bytes_in(self.id.as_str()) > MAX_TRACK_ID_BYTES {
            return Err(
                MusicStreamError::InvalidSource("track id must contain 1 to 512 bytes".to_owned()),
            );
        }
        match self.kind {
            TrackKind::File => {
                let located = match &self.path {
                    Some(path) => !path.as_str().is_empty() && bytes_in(path.as_str())
                        <= MAX_SOURCE_LOCATION_BYTES,
                    None => false,
                };
                if !located {
                    return Err(
                        MusicStreamError::InvalidSource(
                            "file source requires a path no longer than 16 KiB".to_owned(),
                        ),
                    );
                }
            },
            TrackKind::Url | TrackKind::Live => {
                match &self.url {
                    None => {
                        return Err(
                            MusicStreamError::InvalidSource(
                                "URL and live sources require url".to_owned(),
                            ),
                        );
                    },
                    Some(url) => {
                        if bytes_in(url.as_str()) > MAX_SOURCE_LOCATION_BYTES || !(starts_with(
                            url.as_str(),
                            "http://",
                        ) || starts_with(url.as_str(), "https://")) {
                            return Err(
                                MusicStreamError::InvalidSource(
                                    "URL and live sources require an HTTP(S) URL no longer than 16 KiB".to_owned(),
                                ),
                            );
                        }
                    },
                }
            },
        }
        if let Some(hint) = &self.format_hint {
            let count: usize = chars_of(hint.as_str()).len();
            if count == 0 || count > MAX_FORMAT_HINT_BYTES || !is_ascii_alphanumeric(
                hint.as_str(),
            ) {
                return Err(
                    MusicStreamError::InvalidSource(
                        "format hint must contain 1 to 16 ASCII letters or digits".to_owned(),
                    ),
                );
            }
        }
        validate_source_headers(self)
    }

    #[must_use]
    pub fn is_hls(&self) -> (hls: bool)
        ensures
            hls == self.spec_is_hls(),
    {
        if self.kind == TrackKind::File {
            return false;
        }
        if let Some(hint) = &self.format_hint {
            proof {
                reveal_strlit("m3u8");
                assert("m3u8"@ =~= seq!['m', '3', 'u', '8']);
            }
            let lowered = ascii_lowercase(hint.as_str());
            if same_text(lowered.as_str(), "m3u8") {
                return true;
            }
        }
        match &self.url {
            None => false,
            Some(url) => url_names_playlist(url.as_str()),
        }
    }

    /// The format of the media: the explicit hint, or else what the URL names.
    #[must_use]
    pub fn media_format_hint(&self) -> (hint: Option<String>)
        ensures
            match hint {
                Some(hint) => Some(hint@) == match self.format_hint {
                    Some(explicit) => Some(explicit@),
                    None => url_extension(self.url->0@),
                } && (self.format_hint is Some || self.url is Some),
                None => self.format_hint is None && (self.url matches Some(url) ==> url_extension(
                    url@,
                ) is None),
            },
    {
        match &self.format_hint {
            Some(hint) => Some(hint.clone()),
            None => match &self.url {
                Some(url) => match url_format(url.as_str()) {
                    Some(format) => Some(format.to_owned()),
                    None => None,
                },
                None => None,
            },
        }
    }

    /// The source with its kind corrected: HLS playlists count as live.
    #[must_use]
    pub fn with_detected_kind(self) -> (source: Self)
        ensures
            source == self.normalized(),
    {
        let mut source = self;
        if source.is_hls() {
            source.kind = TrackKind::Live;
            source.seekable = Some(false);
        }
        source
    }
}

/// Finds the length of the path of a URL.
fn path_len(url: &Vec<char>) -> (len: usize)
    ensures
        len <= url@.len(),
        url_path(url@) == url@.take(len as int),
{
    let mut i: usize = 0;
    while i < url.len()
        invariant
            i <= url@.len(),
            url_path(url@.take(i as int)) == url@.take(i as int),
        decreases url.len() - i,
    {
        proof {
            assert(url@.take(i + 1).drop_last() =~= url@.take(i as int));
        }
        if url[i] == '?' || url[i] == '#' {
            proof {
                assert(url_path(url@.take(i + 1)) == url@.take(i as int));
                path_is_final(url@, i + 1, i as int);
            }
            return i;
        }
        i = i + 1;
    }
    proof {
        assert(url@.take(url@.len() as int) =~= url@);
    }
    i
}

/// Once a path has ended, what follows does not change it.
proof fn path_is_final(url: Seq<char>, from: int, len: int)
    requires
        0 <= len < from <= url.len(),
        url_path(url.take(from)) == url.take(len),
    ensures
        url_path(url) == url.take(len),
    decreases url.len() - from,
{
    if from == url.len() {
        assert(url.take(from) =~= url);
    } else {
        assert(url.take(from + 1).drop_last() =~= url.take(from));
        path_is_final(url, from + 1, len);
    }
}

/// What stands behind the last mark.
proof fn mark_found(text: Seq<char>, at: int, mark: char)
    requires
        0 <= at < text.len(),
        text[at] == mark,
        forall|k: int| at < k < text.len() ==> text[k] != mark,
    ensures
        behind_last(text, mark) == Some(text.skip(at + 1)),
    decreases text.len(),
{
    if at == text.len() - 1 {
        assert(text.skip(at + 1) =~= Seq::empty());
    } else {
        mark_found(text.drop_last(), at, mark);
        assert(text.drop_last().skip(at + 1).push(text.last()) =~= text.skip(at + 1));
    }
}

proof fn mark_missing(text: Seq<char>, mark: char)
    requires
        forall|k: int| 0 <= k < text.len() ==> text[k] != mark,
    ensures
        behind_last(text, mark) is None,
    decreases text.len(),
{
    if text.len() > 0 {
        mark_missing(text.drop_last(), mark);
    }
}

/// Finds the last mark between two positions.
fn last_mark(chars: &Vec<char>, from: usize, to: usize, mark: char) -> (at: Option<usize>)
    requires
        from <= to <= chars@.len(),
    ensures
        match at {
            Some(at) => from <= at < to && behind_last(
                chars@.subrange(from as int, to as int),
                mark,
            ) == Some(chars@.subrange(at + 1, to as int)),
            None => behind_last(chars@.subrange(from as int, to as int), mark) is None,
        },
{
    let ghost text = chars@.subrange(from as int, to as int);
    let mut i: usize = to;
    while i > from
        invariant
            from <= i <= to <= chars@.len(),
            text == chars@.subrange(from as int, to as int),
            forall|k: int| i - from <= k < text.len() ==> text[k] != mark,
        decreases i,
    {
        i = i - 1;
        if chars[i] == mark {
            proof {
                mark_found(text, i - from, mark);
                assert(text.skip(i - from + 1) =~= chars@.subrange(i + 1, to as int));
            }
            return Some(i);
        }
    }
    proof {
        mark_missing(text, mark);
    }
    None
}

/// The format that a URL names by its extension.
pub(crate) fn url_format(url: &str) -> (format: Option<&str>)
    ensures
        match format {
            Some(format) => url_extension(url@) == Some(format@),
            None => url_extension(url@) is None,
        },
{
    let chars = chars_of(url);
    let end: usize = path_len(&chars);
    proof {
        assert(url_path(url@) =~= url@.subrange(0, end as int));
    }
    let start: usize = match last_mark(&chars, 0, end, '/') {
        Some(slash) => slash + 1,
        None => 0,
    };
    proof {
        assert(last_segment(url_path(url@)) =~= url@.subrange(start as int, end as int));
    }
    match last_mark(&chars, start, end, '.') {
        None => None,
        Some(dot) => {
            let extension = url.substring_char(dot + 1, end);
            let count: usize = end - dot - 1;
            if count >= 1 && count <= 8 && is_ascii_alphanumeric(extension) {
                Some(extension)
            } else {
                None
            }
        },
    }
}

fn url_names_playlist(url: &str) -> (playlist: bool)
    ensures
        playlist == names_playlist(url_path(url@)),
{
    let lowered = ascii_lowercase(url);
    let whole = chars_of(url);
    let chars = chars_of(lowered.as_str());
    let len: usize = path_len(&whole);
    if len < 5 {
        return false;
    }
    let found = chars[len - 5] == '.' && chars[len - 4] == 'm' && chars[len - 3] == '3'
        && chars[len - 2] == 'u' && chars[len - 1] == '8';
    proof {
        let path = url@.take(len as int);
        let tail = lower(path.subrange(path.len() - 5, path.len() as int));
        assert(tail =~= chars@.subrange(len - 5, len as int));
        if found {
            assert(tail =~= seq!['.', 'm', '3', 'u', '8']);
        } else if tail == seq!['.', 'm', '3', 'u', '8'] {
            assert(tail[0] == chars@[len - 5]);
            assert(tail[1] == chars@[len - 4]);
            assert(tail[2] == chars@[len - 3]);
            assert(tail[3] == chars@[len - 2]);
            assert(tail[4] == chars@[len - 1]);
        }
    }
    found
}

fn validate_source_headers(source: &TrackSource) -> (result: Result<(), MusicStreamError>)
    ensures
        result is Ok <==> source.headers_ok(),
        result matches Err(error) ==> (error matches MusicStreamError::InvalidSource(text)
            && source.headers_refused_as(text@)),
{
    let count: usize = source.headers.len();
    if source.kind == TrackKind::File && count > 0 {
        return Err(
            MusicStreamError::InvalidSource("file sources cannot contain HTTP headers".to_owned()),
        );
    }
    if count > MAX_HEADERS || total_header_bytes(&source.headers) > MAX_HEADER_BYTES as u128 {
        return Err(
            MusicStreamError::InvalidSource("source headers exceed configured limits".to_owned()),
        );
    }
    let mut i: usize = 0;
    while i < count
        invariant
            i <= count,
            count == source.headers@.len(),
            source.headers_complaint() is None,
            forall|k: int| 0 <= k < i ==> header_allowed(#[trigger] source.headers@[k]),
        decreases count - i,
    {
        let header = source.headers.at(i);
        let normalized = ascii_lowercase(header.name.as_str());
        if is_forbidden_source_header(normalized.as_str()) || !header_name_accepted(
            header.name.as_str(),
        ) || !header_value_accepted(header.value.as_str()) {
            let text = "unsupported source header: ".to_owned().concat(header.name.as_str());
            proof {
                assert(first_refused(source.headers@, i as int));
            }
            return Err(MusicStreamError::InvalidSource(text));
        }
        i = i + 1;
    }
    Ok(())
}

fn total_header_bytes(headers: &SourceHeaders) -> (total: u128)
    requires
        headers@.len() <= MAX_HEADERS,
    ensures
        total == header_bytes(headers@),
{
    let count: usize = headers.len();
    let mut total: u128 = 0;
    let mut i: usize = 0;
    while i < count
        invariant
            i <= count <= MAX_HEADERS,
            count == headers@.len(),
            total == header_bytes(headers@.take(i as int)),
            total <= i * 0x2_0000_0000_0000_0000,
        decreases count - i,
    {
        let header = headers.at(i);
        proof {
            assert(headers@.take(i + 1).drop_last() =~= headers@.take(i as int));
        }
        let name: usize = bytes_in(header.name.as_str());
        let value: usize = bytes_in(header.value.as_str());
        total = total + name as u128 + value as u128;
        i = i + 1;
    }
    proof {
        assert(headers@.take(count as int) =~= headers@);
    }
    total
}

/// A playlist source is live once its kind is corrected, and live sources are
/// never seekable, whatever they claim.
pub proof fn playlists_are_live_and_unseekable(source: TrackSource)
    ensures
        source.spec_is_hls() ==> source.normalized().spec_is_live(),
        source.normalized().spec_is_live() ==> !source.normalized().spec_is_seekable(),
        source.normalized().normalized() == source.normalized(),
{
}

/// A valid source carries few, small headers, none of which frames the
/// transport.
pub proof fn valid_headers_are_bounded(source: TrackSource, i: int)
    requires
        source.is_valid(),
    ensures
        source.headers@.len() <= MAX_HEADERS,
        header_bytes(source.headers@) <= MAX_HEADER_BYTES,
        0 <= i < source.headers@.len() ==> !forbidden_header(lower(source.headers@[i].name@)),
{
}

#[derive(Clone, Copy, Debug, PartialEq, Eq, Structural)]
pub enum PlayState {
    Idle,
    Buffering,
    Playing,
    Paused,
    Stopped,
}

/// Linear volume in ten-thousandths of full scale.
#[derive(Clone, Copy, Debug, PartialEq, Eq, Structural)]
pub struct VolumeLevel {
    units: u16,
}

impl View for VolumeLevel {
    type V = int;

    closed spec fn view(&self) -> int {
        self.units as int
    }
}

impl VolumeLevel {
    pub const SCALE: u16 = 10_000;

    #[verifier::type_invariant]
    spec fn in_range(&self) -> bool {
        self.units <= VolumeLevel::SCALE
    }

    pub fn from_units(units: u16) -> (level: Result<Self, MusicStreamError>)
        ensures
            level is Ok <==> units <= VolumeLevel::SCALE,
            level matches Ok(level) ==> level@ == units,
            level matches Err(error) ==> error matches MusicStreamError::InvalidConfig(text)
                && text@ == "volume units must be between 0 and 10000"@,
    {
        if units > VolumeLevel::SCALE {
            return Err(
                MusicStreamError::InvalidConfig(
                    "volume units must be between 0 and 10000".to_owned(),
                ),
            );
        }
        Ok(VolumeLevel { units })
    }

    #[must_use]
    pub fn units(self) -> (units: u16)
        ensures
            units == self@,
            units <= VolumeLevel::SCALE,
    {
        proof {
            use_type_invariant(&self);
        }
        self.units
    }

    #[must_use]
    pub fn is_muted(self) -> (muted: bool)
        ensures
            muted == (self@ == 0),
    {
        self.units == 0
    }
}

impl Default for VolumeLevel {
    fn default() -> (level: Self)
        ensures
            level@ == VolumeLevel::SCALE,
    {
        VolumeLevel { units: VolumeLevel::SCALE }
    }
}

/// Gain in hundredths of a decibel.
#[derive(Clone, Copy, Debug, PartialEq, Eq, Structural)]
pub struct GainLevel {
    centibels: i16,
}

impl View for GainLevel {
    type V = int;

    closed spec fn view(&self) -> int {
        self.centibels as int
    }
}

impl GainLevel {
    pub const MIN_CENTIBELS: i16 = -6_000;

    pub const MAX_CENTIBELS: i16 = 1_200;

    #[verifier::type_invariant]
    spec fn in_range(&self) -> bool {
        GainLevel::MIN_CENTIBELS <= self.centibels <= GainLevel::MAX_CENTIBELS
    }

    pub fn from_centibels(centibels: i16) -> (level: Result<Self, MusicStreamError>)
        ensures
            level is Ok <==> GainLevel::MIN_CENTIBELS <= centibels <= GainLevel::MAX_CENTIBELS,
            level matches Ok(level) ==> level@ == centibels,
            level matches Err(error) ==> error matches MusicStreamError::InvalidConfig(text)
                && text@ == "gain centibels must be between -6000 and 1200"@,
    {
        if centibels < GainLevel::MIN_CENTIBELS || centibels > GainLevel::MAX_CENTIBELS {
            return Err(
                MusicStreamError::InvalidConfig(
                    "gain centibels must be between -6000 and 1200".to_owned(),
                ),
            );
        }
        Ok(GainLevel { centibels })
    }

    #[must_use]
    pub fn centibels(self) -> (centibels: i16)
        ensures
            centibels == self@,
            GainLevel::MIN_CENTIBELS <= centibels <= GainLevel::MAX_CENTIBELS,
    {
        proof {
            use_type_invariant(&self);
        }
        self.centibels
    }
}

impl Default for GainLevel {
    fn default() -> (level: Self)
        ensures
            level@ == 0,
    {
        GainLevel { centibels: 0 }
    }
}

/// Observable state of one stream.
#[derive(Debug, PartialEq, Eq)]
pub struct StreamStatus {
    pub stream_id: String,
    pub current: Option<TrackSource>,
    pub next: Option<TrackSource>,
    pub play_state: PlayState,
    pub time_played_ms: u64,
    pub generation: u64,
    pub plan_version: u64,
    pub volume: VolumeLevel,
    pub gain: GainLevel,
}

pub(crate) fn copy_source(source: &Option<TrackSource>) -> (copy: Option<TrackSource>)
    ensures
        copy == *source,
{
    match source {
        Some(source) => Some(source.clone()),
        None => None,
    }
}

impl Clone for StreamStatus {
    fn clone(&self) -> (copy: Self)
        ensures
            copy == *self,
    {
        StreamStatus {
            stream_id: self.stream_id.clone(),
            current: copy_source(&self.current),
            next: copy_source(&self.next),
            play_state: self.play_state,
            time_played_ms: self.time_played_ms,
            generation: self.generation,
            plan_version: self.plan_version,
            volume: self.volume,
            gain: self.gain,
        }
    }
}

#[derive(Clone, Copy, Debug, PartialEq, Eq, Structural)]
pub struct MediaBufferConfig {
    pub decode_batch_ms: u64,
    pub encoded_capacity_ms: u64,
    pub prebuffer_ms: u64,
    pub next_prime_ms: u64,
    /// Maximum wall-clock delay retained by the real-time sender before stale
    /// encoded frames are discarded to catch up with the RTP timeline.
    pub max_playout_lateness_ms: u64,
}

pub const MAX_DECODE_BATCH_MS: u64 = 1_000;

pub const MAX_ENCODED_CAPACITY_MS: u64 = 10_000;

impl Default for MediaBufferConfig {
    fn default() -> (config: Self)
        ensures
            config == (MediaBufferConfig {
                decode_batch_ms: 80,
                encoded_capacity_ms: 400,
                prebuffer_ms: 100,
                next_prime_ms: 200,
                max_playout_lateness_ms: 100,
            }),
    {
        MediaBufferConfig {
            decode_batch_ms: 80,
            encoded_capacity_ms: 400,
            prebuffer_ms: 100,
            next_prime_ms: 200,
            max_playout_lateness_ms: 100,
        }
    }
}

impl MediaBufferConfig {
    pub open spec fn durations_positive(self) -> bool {
        self.decode_batch_ms > 0 && self.encoded_capacity_ms > 0 && self.prebuffer_ms > 0
    }

    pub open spec fn durations_bounded(self) -> bool {
        self.decode_batch_ms <= MAX_DECODE_BATCH_MS && self.encoded_capacity_ms
            <= MAX_ENCODED_CAPACITY_MS
    }

    pub open spec fn targets_fit(self) -> bool {
        self.prebuffer_ms <= self.encoded_capacity_ms && self.next_prime_ms
            <= self.encoded_capacity_ms && self.max_playout_lateness_ms <= self.encoded_capacity_ms
    }

    /// What is wrong with the settings, if anything is.
    pub open spec fn complaint(self) -> Option<Seq<char>> {
        if !self.durations_positive() {
            Some("media buffer durations must be greater than zero"@)
        } else if !self.durations_bounded() {
            Some(
                "decode batch must not exceed 1 second and encoded capacity must not exceed 10 seconds"@,
            )
        } else if !self.targets_fit() {
            Some("prebuffer, next prime, and maximum playout lateness must fit encoded capacity"@)
        } else {
            None
        }
    }

    pub open spec fn is_valid(self) -> bool {
        self.durations_positive() && self.durations_bounded() && self.targets_fit()
    }

    pub fn validate(&self) -> (result: Result<(), MusicStreamError>)
        ensures
            result is Ok <==> self.is_valid(),
            result is Ok <==> self.complaint() is None,
            result matches Err(error) ==> error matches MusicStreamError::InvalidConfig(text)
                && Some(text@) == self.complaint(),
    {
        if self.decode_batch_ms == 0 || self.encoded_capacity_ms == 0 || self.prebuffer_ms == 0 {
            return Err(
                MusicStreamError::InvalidConfig(
                    "media buffer durations must be greater than zero".to_owned(),
                ),
            );
        }
        if self.decode_batch_ms > MAX_DECODE_BATCH_MS || self.encoded_capacity_ms
            > MAX_ENCODED_CAPACITY_MS {
            return Err(
                MusicStreamError::InvalidConfig(
                    "decode batch must not exceed 1 second and encoded capacity must not exceed 10 seconds".to_owned(),
                ),
            );
        }
        if self.prebuffer_ms > self.encoded_capacity_ms || self.next_prime_ms
            > self.encoded_capacity_ms || self.max_playout_lateness_ms > self.encoded_capacity_ms {
            return Err(
                MusicStreamError::InvalidConfig(
                    "prebuffer, next prime, and maximum playout lateness must fit encoded capacity".to_owned(),
                ),
            );
        }
        Ok(())
    }
}

/// A valid buffer configuration never holds more than ten seconds of encoded
/// media, and every target it sets fits in that.
pub proof fn valid_media_buffers_are_bounded(config: MediaBufferConfig)
    requires
        config.is_valid(),
    ensures
        config.encoded_capacity_ms <= MAX_ENCODED_CAPACITY_MS,
        config.prebuffer_ms <= MAX_ENCODED_CAPACITY_MS,
        config.next_prime_ms <= MAX_ENCODED_CAPACITY_MS,
        config.max_playout_lateness_ms <= MAX_ENCODED_CAPACITY_MS,
        config.decode_batch_ms <= MAX_DECODE_BATCH_MS,
{
}

/// A path is what stands in front of the first question or hash mark of a URL, or
/// all of it.
pub proof fn paths_end_at_the_first_mark(url: Seq<char>)
    ensures
        url_path(url).len() <= url.len(),
        url_path(url) == url.take(url_path(url).len() as int),
        forall|i: int|
            0 <= i < url_path(url).len() ==> #[trigger] url_path(url)[i] != '?' && url_path(url)[i]
                != '#',
        url_path(url).len() < url.len() ==> url[url_path(url).len() as int] == '?'
            || url[url_path(url).len() as int] == '#',
    decreases url.len(),
{
    if url.len() > 0 {
        let front = url.drop_last();
        paths_end_at_the_first_mark(front);
        if url_path(url) == url_path(front) {
            assert(url_path(url) =~= url.take(url_path(url).len() as int));
        }
        if url_path(url) == url {
            assert(url =~= url.take(url.len() as int));
            assert(url_path(front) =~= front);
            assert forall|i: int| 0 <= i < url.len() implies #[trigger] url[i] != '?' && url[i]
                != '#' by {
                if i < front.len() {
                    assert(front[i] == url[i]);
                    assert(url_path(front)[i] == front[i]);
                }
            }
        } else {
            assert(url_path(url) == url_path(front));
            let at = url_path(front).len() as int;
            if at < front.len() {
                assert(url[at] == front[at]);
            }
        }
    }
}

/// What stands behind the last mark of a text holds no mark, and the text ends in
/// the mark and it; there is nothing behind a mark that does not occur.
pub proof fn nothing_is_marked_behind_the_last_mark(text: Seq<char>, mark: char)
    ensures
        behind_last(text, mark) is None <==> forall|i: int|
            0 <= i < text.len() ==> #[trigger] text[i] != mark,
        behind_last(text, mark) matches Some(rest) ==> {
            &&& rest.len() < text.len()
            &&& text[text.len() - rest.len() - 1] == mark
            &&& rest == text.skip(text.len() - rest.len())
            &&& forall|i: int| 0 <= i < rest.len() ==> #[trigger] rest[i] != mark
        },
    decreases text.len(),
{
    if text.len() > 0 {
        let front = text.drop_last();
        nothing_is_marked_behind_the_last_mark(front, mark);
        if text.last() == mark {
            assert(text[text.len() - 1] == mark);
            assert(Seq::<char>::empty() =~= text.skip(text.len() as int));
        } else {
            match behind_last(front, mark) {
                Some(rest) => {
                    let all = rest.push(text.last());
                    assert(all =~= text.skip(text.len() - all.len()));
                    assert(front[front.len() - rest.len() - 1] == text[front.len() - rest.len()
                        - 1]);
                    assert forall|i: int| 0 <= i < all.len() implies #[trigger] all[i] != mark by {
                        if i < rest.len() {
                            assert(all[i] == rest[i]);
                        }
                    }
                },
                None => {
                    assert forall|i: int| 0 <= i < text.len() implies #[trigger] text[i] != mark by {
                        if i < front.len() {
                            assert(front[i] == text[i]);
                        }
                    }
                },
            }
            if forall|i: int| 0 <= i < text.len() ==> #[trigger] text[i] != mark {
                assert forall|i: int| 0 <= i < front.len() implies #[trigger] front[i] != mark by {
                    assert(front[i] == text[i]);
                }
            }
        }
    }
}

/// A URL names a format by what its path ends in: a dot and one to eight letters or
/// digits, with no slash between.
pub proof fn formats_are_named_by_the_end_of_the_path(url: Seq<char>)
    ensures
        url_extension(url) matches Some(format) ==> {
            let path = url_path(url);
            &&& 1 <= format.len() <= 8
            &&& format.len() < path.len()
            &&& path[path.len() - format.len() - 1] == '.'
            &&& format == path.skip(path.len() - format.len())
            &&& forall|i: int| 0 <= i < format.len() ==> ascii_letter_or_digit(#[trigger] format[i])
        },
{
    let path = url_path(url);
    nothing_is_marked_behind_the_last_mark(path, '/');
    let segment = last_segment(path);
    nothing_is_marked_behind_the_last_mark(segment, '.');
    if let Some(format) = url_extension(url) {
        assert(path.skip(path.len() - format.len()) =~= format);
        assert forall|i: int| 0 <= i < format.len() implies ascii_letter_or_digit(
            #[trigger] format[i],
        ) by {
            assert(crate::text::ascii_alphanumeric(format[i]));
        }
    }
}

pub open spec fn ascii_letter_or_digit(c: char) -> bool {
    ('a' <= c <= 'z') || ('A' <= c <= 'Z') || ('0' <= c <= '9')
}

/// A path that ends in `.m3u8`, however it is spelled, names a playlist, and no other
/// does.
pub proof fn playlists_are_named_by_their_ending(path: Seq<char>)
    ensures
        names_playlist(path) <==> path.len() >= 5 && path[path.len() - 5] == '.' && (
        path[path.len() - 4] == 'm' || path[path.len() - 4] == 'M') && path[path.len() - 3] == '3'
            && (path[path.len() - 2] == 'u' || path[path.len() - 2] == 'U') && path[path.len() - 1]
            == '8',
{
    if path.len() >= 5 {
        let tail = lower(path.subrange(path.len() - 5, path.len() as int));
        let wanted = seq!['.', 'm', '3', 'u', '8'];
        assert(tail.len() == 5);
        assert(tail == wanted <==> tail[0] == '.' && tail[1] == 'm' && tail[2] == '3' && tail[3]
            == 'u' && tail[4] == '8') by {
            if tail[0] == '.' && tail[1] == 'm' && tail[2] == '3' && tail[3] == 'u' && tail[4]
                == '8' {
                assert(tail =~= wanted);
            }
        }
    }
}

/// A source is a playlist if it is not a file and either says so or is found under a
/// path that says so; its kind is corrected to live, which cannot be sought in.
pub proof fn playlists_are_recognised(source: TrackSource)
    ensures
        source.kind == TrackKind::File ==> !source.spec_is_hls(),
        source.kind != TrackKind::File && (source.url matches Some(url) && names_playlist(
            url_path(url@),
        )) ==> source.spec_is_hls(),
        source.kind != TrackKind::File && (source.format_hint matches Some(hint) && lower(hint@)
            == lower("m3u8"@)) ==> source.spec_is_hls(),
        source.spec_is_hls() ==> source.normalized().kind == TrackKind::Live
            && source.normalized().seekable == Some(false),
        !source.spec_is_hls() ==> source.normalized() == source,
        source.normalized().attempt_id == source.attempt_id && source.normalized().id == source.id
            && source.normalized().url == source.url && source.normalized().headers
            == source.headers,
{
    reveal_strlit("m3u8");
    assert(lower("m3u8"@) =~= seq!['m', '3', 'u', '8']);
}

/// A track can be sought in unless it is live or says otherwise.
pub proof fn tracks_are_seekable_unless_they_say_otherwise(source: TrackSource)
    ensures
        source.spec_is_seekable() <==> source.kind != TrackKind::Live && source.seekable != Some(
            false,
        ),
        source.spec_is_live() <==> source.kind == TrackKind::Live,
{
}

/// Attempts are told apart by their occurrence alone.
pub proof fn attempts_are_told_apart_by_occurrence(a: TrackSource, b: TrackSource)
    ensures
        a.spec_same_attempt_as(b) <==> a.attempt_id@ == b.attempt_id@,
        a.spec_shown().attempt_id == a.attempt_id && a.spec_shown().id == a.id
            && a.spec_shown().kind == a.kind && a.spec_shown().url == a.url && a.spec_shown().path
            == a.path && a.spec_shown().seekable == a.seekable && a.spec_shown().format_hint
            == a.format_hint,
{
}

/// Which sources are valid: named by up to 512 bytes that are not all blank; a file
/// with a path, anything else with an HTTP address, of up to 16 KiB; a format named by
/// one to sixteen letters or digits, if at all; and headers that may be sent, none
/// with a file and otherwise sixteen of 16 KiB together at the most.
pub proof fn valid_sources_can_be_fetched(source: TrackSource)
    ensures
        source.is_valid() <==> {
            &&& !blank(source.id@) && byte_len(source.id@) <= 512
            &&& source.kind == TrackKind::File ==> source.path is Some && source.path->0@.len() > 0
                && byte_len(source.path->0@) <= 16_384 && source.headers@.len() == 0
            &&& source.kind != TrackKind::File ==> source.url is Some && byte_len(source.url->0@)
                <= 16_384 && (spec_starts_with(source.url->0@, "http://"@) || spec_starts_with(
                source.url->0@,
                "https://"@,
            ))
            &&& source.format_hint matches Some(hint) ==> 1 <= hint@.len() <= 16
                && all_ascii_alphanumeric(hint@)
            &&& source.headers@.len() <= 16 && header_bytes(source.headers@) <= 16_384
            &&& forall|i: int|
                0 <= i < source.headers@.len() ==> !forbidden_header(
                    lower((#[trigger] source.headers@[i]).name@),
                ) && token_name(encode_utf8(source.headers@[i].name@)) && plain_value(
                    encode_utf8(source.headers@[i].value@),
                )
        },
{
    if source.is_valid() {
        assert forall|i: int| 0 <= i < source.headers@.len() implies !forbidden_header(
            lower((#[trigger] source.headers@[i]).name@),
        ) && token_name(encode_utf8(source.headers@[i].name@)) && plain_value(
            encode_utf8(source.headers@[i].value@),
        ) by {
            assert(header_allowed(source.headers@[i]));
        }
    }
    if source.kind == TrackKind::File && source.headers@.len() == 0 {
        assert(header_bytes(source.headers@) == 0);
    }
}

/// The size of headers is that of their names and values together.
pub proof fn header_sizes_add_up(headers: Seq<SourceHeader>, header: SourceHeader)
    ensures
        header_bytes(Seq::<SourceHeader>::empty()) == 0,
        header_bytes(headers.push(header)) == header_bytes(headers) + byte_len(header.name@)
            + byte_len(header.value@),
{
    assert(headers.push(header).drop_last() =~= headers);
}

/// Headers that frame the transport cannot be set by a source, under any spelling.
pub proof fn transport_headers_are_reserved()
    ensures
        forbidden_header("host"@),
        forbidden_header("range"@),
        forbidden_header("connection"@),
        forbidden_header("content-length"@),
        forbidden_header("transfer-encoding"@),
        forbidden_header("proxy-authenticate"@),
        forbidden_header("proxy-authorization"@),
        forbidden_header("te"@),
        forbidden_header("trailer"@),
        forbidden_header("upgrade"@),
        !forbidden_header("cookie"@),
        !forbidden_header("authorization"@),
        !forbidden_header("user-agent"@),
{
    reveal_strlit("host");
    reveal_strlit("range");
    reveal_strlit("connection");
    reveal_strlit("content-length");
    reveal_strlit("transfer-encoding");
    reveal_strlit("proxy-authenticate");
    reveal_strlit("proxy-authorization");
    reveal_strlit("te");
    reveal_strlit("trailer");
    reveal_strlit("upgrade");
    reveal_strlit("cookie");
    reveal_strlit("authorization");
    reveal_strlit("user-agent");
    assert("cookie"@[0] == 'c' && "cookie"@.len() == 6);
    assert("authorization"@[0] == 'a' && "authorization"@.len() == 13);
    assert("user-agent"@[1] == 's' && "user-agent"@.len() == 10);
    assert("connection"@[1] == 'o' && "connection"@.len() == 10);
}

/// Which buffers are sound: something is decoded, held and waited for, no more than a
/// second is decoded at once and ten seconds held, and whatever is waited for or
/// tolerated fits into what is held.
pub proof fn sound_buffers_hold_what_they_wait_for(config: MediaBufferConfig)
    ensures
        config.is_valid() <==> {
            &&& 0 < config.decode_batch_ms <= 1_000
            &&& 0 < config.encoded_capacity_ms <= 10_000
            &&& 0 < config.prebuffer_ms <= config.encoded_capacity_ms
            &&& config.next_prime_ms <= config.encoded_capacity_ms
            &&& config.max_playout_lateness_ms <= config.encoded_capacity_ms
        },
        config.is_valid() <==> config.complaint() is None,
{
}

/// A volume is set in ten thousandths of full scale and a gain in hundredths of a
/// decibel, from -60 to 12 decibels; what is accepted is what was asked for.
pub proof fn levels_are_what_was_asked_for(
    units: u16,
    volume: Result<VolumeLevel, MusicStreamError>,
    centibels: i16,
    gain: Result<GainLevel, MusicStreamError>,
)
    requires
        call_ensures(VolumeLevel::from_units, (units,), volume),
        call_ensures(GainLevel::from_centibels, (centibels,), gain),
    ensures
        volume is Ok <==> units <= 10_000,
        volume matches Ok(level) ==> level@ == units,
        gain is Ok <==> -6_000 <= centibels <= 1_200,
        gain matches Ok(level) ==> level@ == centibels,
{
}

/// The format that media is taken for is the one that its source names, and only for
/// want of that the one that its address names.
pub proof fn named_formats_come_first(source: TrackSource, hint: Option<String>)
    requires
        call_ensures(TrackSource::media_format_hint, (&source,), hint),
    ensures
        source.format_hint matches Some(named) ==> (hint matches Some(taken) && taken@ == named@),
        source.format_hint is None && source.url is Some ==> match url_extension(source.url->0@) {
            Some(extension) => hint matches Some(taken) && taken@ == extension,
            None => hint is None,
        },
        source.format_hint is None && source.url is None ==> hint is None,
{
}

} // verus!
