//! Error values and their stable codes.
use vstd::prelude::*;
use vstd::string::*;

verus! {

/// Stable failure category, independent of the wording of a message.
#[derive(Clone, Copy, Debug, PartialEq, Eq, Structural)]
pub enum ErrorCode {
    InvalidSource,
    SourceTimeout,
    SourceAuthExpired,
    NotSeekable,
    DecodeError,
    ResampleError,
    EncodeError,
    RtpSendError,
    OutputError,
    StreamClosed,
    Busy,
    Internal,
    StreamNotFound,
    StreamAlreadyExists,
    InvalidConfig,
    Unsupported,
}

impl ErrorCode {
    /// The spelling that bindings see.
    pub open spec fn text(self) -> Seq<char> {
        match self {
            ErrorCode::InvalidSource => "INVALID_SOURCE"@,
            ErrorCode::SourceTimeout => "SOURCE_TIMEOUT"@,
            ErrorCode::SourceAuthExpired => "SOURCE_AUTH_EXPIRED"@,
            ErrorCode::NotSeekable => "NOT_SEEKABLE"@,
            ErrorCode::DecodeError => "DECODE_ERROR"@,
            ErrorCode::ResampleError => "RESAMPLE_ERROR"@,
            ErrorCode::EncodeError => "ENCODE_ERROR"@,
            ErrorCode::RtpSendError => "RTP_SEND_ERROR"@,
            ErrorCode::OutputError => "OUTPUT_ERROR"@,
            ErrorCode::StreamClosed => "STREAM_CLOSED"@,
            ErrorCode::Busy => "BUSY"@,
            ErrorCode::Internal => "INTERNAL"@,
            ErrorCode::StreamNotFound => "STREAM_NOT_FOUND"@,
            ErrorCode::StreamAlreadyExists => "STREAM_ALREADY_EXISTS"@,
            ErrorCode::InvalidConfig => "INVALID_CONFIG"@,
            ErrorCode::Unsupported => "UNSUPPORTED"@,
        }
    }

    #[must_use]
    pub fn as_str(self) -> (text: &'static str)
        ensures
            text@ == self.text(),
    {
        match self {
            ErrorCode::InvalidSource => "INVALID_SOURCE",
            ErrorCode::SourceTimeout => "SOURCE_TIMEOUT",
            ErrorCode::SourceAuthExpired => "SOURCE_AUTH_EXPIRED",
            ErrorCode::NotSeekable => "NOT_SEEKABLE",
            ErrorCode::DecodeError => "DECODE_ERROR",
            ErrorCode::ResampleError => "RESAMPLE_ERROR",
            ErrorCode::EncodeError => "ENCODE_ERROR",
            ErrorCode::RtpSendError => "RTP_SEND_ERROR",
            ErrorCode::OutputError => "OUTPUT_ERROR",
            ErrorCode::StreamClosed => "STREAM_CLOSED",
            ErrorCode::Busy => "BUSY",
            ErrorCode::Internal => "INTERNAL",
            ErrorCode::StreamNotFound => "STREAM_NOT_FOUND",
            ErrorCode::StreamAlreadyExists => "STREAM_ALREADY_EXISTS",
            ErrorCode::InvalidConfig => "INVALID_CONFIG",
            ErrorCode::Unsupported => "UNSUPPORTED",
        }
    }
}

#[derive(Clone, Debug)]
pub enum MusicStreamError {
    StreamNotFound(String),
    StreamAlreadyExists(String),
    InvalidConfig(String),
    InvalidSource(String),
    /// Internal routing signal emitted before any response body is consumed.
    /// Producers must convert it into the live HTTP path rather than expose it.
    DetectedLiveSource(String),
    /// Internal routing signal: the response turned out to be an HLS playlist.
    DetectedHlsSource(String),
    SourceTimeout(String),
    SourceAuthExpired(String),
    Unsupported(String),
    Busy(String),
    StreamClosed(String),
    NotSeekable(String),
    DecodeError(String),
    ResampleError(String),
    EncodeError(String),
    RtpSendError(String),
    RtpOutputError(String),
    Internal(String),
}

impl MusicStreamError {
    pub open spec fn spec_code(self) -> ErrorCode {
        match self {
            MusicStreamError::StreamNotFound(_) => ErrorCode::StreamNotFound,
            MusicStreamError::StreamAlreadyExists(_) => ErrorCode::StreamAlreadyExists,
            MusicStreamError::InvalidConfig(_) => ErrorCode::InvalidConfig,
            MusicStreamError::InvalidSource(_) => ErrorCode::InvalidSource,
            MusicStreamError::DetectedLiveSource(_) => ErrorCode::Unsupported,
            MusicStreamError::DetectedHlsSource(_) => ErrorCode::Unsupported,
            MusicStreamError::SourceTimeout(_) => ErrorCode::SourceTimeout,
            MusicStreamError::SourceAuthExpired(_) => ErrorCode::SourceAuthExpired,
            MusicStreamError::Unsupported(_) => ErrorCode::Unsupported,
            MusicStreamError::Busy(_) => ErrorCode::Busy,
            MusicStreamError::StreamClosed(_) => ErrorCode::StreamClosed,
            MusicStreamError::NotSeekable(_) => ErrorCode::NotSeekable,
            MusicStreamError::DecodeError(_) => ErrorCode::DecodeError,
            MusicStreamError::ResampleError(_) => ErrorCode::ResampleError,
            MusicStreamError::EncodeError(_) => ErrorCode::EncodeError,
            MusicStreamError::RtpSendError(_) => ErrorCode::RtpSendError,
            MusicStreamError::RtpOutputError(_) => ErrorCode::OutputError,
            MusicStreamError::Internal(_) => ErrorCode::Internal,
        }
    }

    #[must_use]
    pub fn code(&self) -> (code: ErrorCode)
        ensures
            code == self.spec_code(),
    {
        match self {
            MusicStreamError::StreamNotFound(_) => ErrorCode::StreamNotFound,
            MusicStreamError::StreamAlreadyExists(_) => ErrorCode::StreamAlreadyExists,
            MusicStreamError::InvalidConfig(_) => ErrorCode::InvalidConfig,
            MusicStreamError::InvalidSource(_) => ErrorCode::InvalidSource,
            MusicStreamError::DetectedLiveSource(_) => ErrorCode::Unsupported,
            MusicStreamError::DetectedHlsSource(_) => ErrorCode::Unsupported,
            MusicStreamError::SourceTimeout(_) => ErrorCode::SourceTimeout,
            MusicStreamError::SourceAuthExpired(_) => ErrorCode::SourceAuthExpired,
            MusicStreamError::Unsupported(_) => ErrorCode::Unsupported,
            MusicStreamError::Busy(_) => ErrorCode::Busy,
            MusicStreamError::StreamClosed(_) => ErrorCode::StreamClosed,
            MusicStreamError::NotSeekable(_) => ErrorCode::NotSeekable,
            MusicStreamError::DecodeError(_) => ErrorCode::DecodeError,
            MusicStreamError::ResampleError(_) => ErrorCode::ResampleError,
            MusicStreamError::EncodeError(_) => ErrorCode::EncodeError,
            MusicStreamError::RtpSendError(_) => ErrorCode::RtpSendError,
            MusicStreamError::RtpOutputError(_) => ErrorCode::OutputError,
            MusicStreamError::Internal(_) => ErrorCode::Internal,
        }
    }

    /// The words in front of the detail in a rendered error.
    pub open spec fn prefix(self) -> Seq<char> {
        match self {
            MusicStreamError::StreamNotFound(_) => "stream not found: "@,
            MusicStreamError::StreamAlreadyExists(_) => "stream already exists: "@,
            MusicStreamError::InvalidConfig(_) => "invalid configuration: "@,
            MusicStreamError::InvalidSource(_) => "invalid source: "@,
            MusicStreamError::DetectedLiveSource(_) => "detected live HTTP source: "@,
            MusicStreamError::DetectedHlsSource(_) => "detected HLS source: "@,
            MusicStreamError::SourceTimeout(_) => "source timed out: "@,
            MusicStreamError::SourceAuthExpired(_) => "source auth expired: "@,
            MusicStreamError::Unsupported(_) => "operation is not supported: "@,
            MusicStreamError::Busy(_) => "operation is busy: "@,
            MusicStreamError::StreamClosed(_) => "stream is closed: "@,
            MusicStreamError::NotSeekable(_) => "track is not seekable: "@,
            MusicStreamError::DecodeError(_) => "decode error: "@,
            MusicStreamError::ResampleError(_) => "resample error: "@,
            MusicStreamError::EncodeError(_) => "encode error: "@,
            MusicStreamError::RtpSendError(_) => "rtp send error: "@,
            MusicStreamError::RtpOutputError(_) => "rtp output error: "@,
            MusicStreamError::Internal(_) => "internal error: "@,
        }
    }

    /// The detail that the error carries.
    pub open spec fn detail(self) -> Seq<char> {
        match self {
            MusicStreamError::StreamNotFound(m) => m@,
            MusicStreamError::StreamAlreadyExists(m) => m@,
            MusicStreamError::InvalidConfig(m) => m@,
            MusicStreamError::InvalidSource(m) => m@,
            MusicStreamError::DetectedLiveSource(m) => m@,
            MusicStreamError::DetectedHlsSource(m) => m@,
            MusicStreamError::SourceTimeout(m) => m@,
            MusicStreamError::SourceAuthExpired(m) => m@,
            MusicStreamError::Unsupported(m) => m@,
            MusicStreamError::Busy(m) => m@,
            MusicStreamError::StreamClosed(m) => m@,
            MusicStreamError::NotSeekable(m) => m@,
            MusicStreamError::DecodeError(m) => m@,
            MusicStreamError::ResampleError(m) => m@,
            MusicStreamError::EncodeError(m) => m@,
            MusicStreamError::RtpSendError(m) => m@,
            MusicStreamError::RtpOutputError(m) => m@,
            MusicStreamError::Internal(m) => m@,
        }
    }

    /// Renders the error as one line of text.
    #[must_use]
    pub fn message(&self) -> (text: String)
        ensures
            text@ == self.prefix() + self.detail(),
    {
        let (prefix, detail): (&str, &String) = match self {
            MusicStreamError::StreamNotFound(m) => ("stream not found: ", m),
            MusicStreamError::StreamAlreadyExists(m) => ("stream already exists: ", m),
            MusicStreamError::InvalidConfig(m) => ("invalid configuration: ", m),
            MusicStreamError::InvalidSource(m) => ("invalid source: ", m),
            MusicStreamError::DetectedLiveSource(m) => ("detected live HTTP source: ", m),
            MusicStreamError::DetectedHlsSource(m) => ("detected HLS source: ", m),
            MusicStreamError::SourceTimeout(m) => ("source timed out: ", m),
            MusicStreamError::SourceAuthExpired(m) => ("source auth expired: ", m),
            MusicStreamError::Unsupported(m) => ("operation is not supported: ", m),
            MusicStreamError::Busy(m) => ("operation is busy: ", m),
            MusicStreamError::StreamClosed(m) => ("stream is closed: ", m),
            MusicStreamError::NotSeekable(m) => ("track is not seekable: ", m),
            MusicStreamError::DecodeError(m) => ("decode error: ", m),
            MusicStreamError::ResampleError(m) => ("resample error: ", m),
            MusicStreamError::EncodeError(m) => ("encode error: ", m),
            MusicStreamError::RtpSendError(m) => ("rtp send error: ", m),
            MusicStreamError::RtpOutputError(m) => ("rtp output error: ", m),
            MusicStreamError::Internal(m) => ("internal error: ", m),
        };
        prefix.to_owned().concat(detail.as_str())
    }
}

/// No two codes share a spelling, so a binding can match on the text alone.
pub proof fn error_codes_have_distinct_texts(a: ErrorCode, b: ErrorCode)
    ensures
        a.text() == b.text() ==> a == b,
{
    reveal_strlit("INVALID_SOURCE");
    reveal_strlit("SOURCE_TIMEOUT");
    reveal_strlit("SOURCE_AUTH_EXPIRED");
    reveal_strlit("NOT_SEEKABLE");
    reveal_strlit("DECODE_ERROR");
    reveal_strlit("RESAMPLE_ERROR");
    reveal_strlit("ENCODE_ERROR");
    reveal_strlit("RTP_SEND_ERROR");
    reveal_strlit("OUTPUT_ERROR");
    reveal_strlit("STREAM_CLOSED");
    reveal_strlit("BUSY");
    reveal_strlit("INTERNAL");
    reveal_strlit("STREAM_NOT_FOUND");
    reveal_strlit("STREAM_ALREADY_EXISTS");
    reveal_strlit("INVALID_CONFIG");
    reveal_strlit("UNSUPPORTED");
    if a.text() == b.text() {
        assert(a.text().len() == b.text().len());
        assert(a.text()[0] == b.text()[0]);
        assert(a.text()[3] == b.text()[3]);
        assert(a.text().len() > 8 ==> a.text()[8] == b.text()[8]);
    }
}

/// Every error has the code of its kind; what a source was detected to be counts as
/// unsupported where it is not dealt with.
pub proof fn errors_have_the_code_of_their_kind(error: MusicStreamError)
    ensures
        error is StreamNotFound <==> error.spec_code() == ErrorCode::StreamNotFound,
        error is StreamAlreadyExists <==> error.spec_code() == ErrorCode::StreamAlreadyExists,
        error is InvalidConfig <==> error.spec_code() == ErrorCode::InvalidConfig,
        error is InvalidSource <==> error.spec_code() == ErrorCode::InvalidSource,
        error is Unsupported || error is DetectedLiveSource || error is DetectedHlsSource
            <==> error.spec_code() == ErrorCode::Unsupported,
        error is SourceTimeout <==> error.spec_code() == ErrorCode::SourceTimeout,
        error is SourceAuthExpired <==> error.spec_code() == ErrorCode::SourceAuthExpired,
        error is Busy <==> error.spec_code() == ErrorCode::Busy,
        error is StreamClosed <==> error.spec_code() == ErrorCode::StreamClosed,
        error is NotSeekable <==> error.spec_code() == ErrorCode::NotSeekable,
        error is DecodeError <==> error.spec_code() == ErrorCode::DecodeError,
        error is ResampleError <==> error.spec_code() == ErrorCode::ResampleError,
        error is EncodeError <==> error.spec_code() == ErrorCode::EncodeError,
        error is RtpSendError <==> error.spec_code() == ErrorCode::RtpSendError,
        error is RtpOutputError <==> error.spec_code() == ErrorCode::OutputError,
        error is Internal <==> error.spec_code() == ErrorCode::Internal,
{
}

} // verus!
