use vstd::prelude::*;

verus! {

#[verifier::external_type_specification]
#[verifier::external_body]
pub struct ExUtf8Error(std::str::Utf8Error);

#[verifier::external_type_specification]
#[verifier::external_body]
pub struct ExIoError(std::io::Error);

#[verifier::external_type_specification]
#[verifier::external_body]
pub struct ExRustlsError(rustls::Error);

#[verifier::external_type_specification]
#[verifier::external_body]
pub struct ExUtilitiesError(web3utilities::UtilitiesError);

#[verifier::external_type_specification]
#[verifier::external_body]
pub struct ExSerdeJsonError(serde_json::Error);

/// The variants of `minreq::Error` are read by the transport mapping below.
#[verifier::external_type_specification]
pub struct ExMinreqError(minreq::Error);

pub type AtollResult<T> = Result<T, AtollError>;

/// The unified error of every call: transport failures and decode failures alike.
#[derive(Debug, PartialEq, Eq, PartialOrd, Ord)]
pub enum AtollError {
    /// An I/O failure of the connection, as classified by `web3utilities`.
    Utilities(web3utilities::UtilitiesError),
    /// The method is not supported by this library.
    UnsupportedSolanaRpcMethod,
    /// A failure of the HTTP exchange.
    Http(Minreq),
    /// A body that matched none of the expected shapes, with the diagnostic.
    SerdeJsonDeser(String),
}

/// Transport failures of an HTTP exchange, one for each kind that `minreq` reports.
#[derive(Debug, PartialEq, Eq, PartialOrd, Ord)]
pub enum Minreq {
    /// The response body contains invalid UTF-8.
    InvalidUtf8InBody(String),
    /// The TLS layer failed while creating the connection.
    RustlsCreateConnection(String),
    /// The length of a chunk of a chunked body could not be parsed.
    MalformedChunkLength,
    /// A chunk did not end after the announced number of bytes.
    MalformedChunkEnd,
    /// The `Content-Length` header could not be parsed.
    MalformedContentLength,
    /// The headers of the response are too large.
    HeadersOverflow,
    /// The status line of the response is too long.
    StatusLineOverflow,
    /// The host name did not resolve to an address.
    AddressNotFound,
    /// A redirection came without a `Location` header.
    RedirectLocationMissing,
    /// The redirections form a loop.
    InfiniteRedirectionLoop,
    /// Too many redirections were met.
    TooManyRedirections,
    /// Part of the response that must be UTF-8 (the headers) is not.
    InvalidUtf8InResponse,
    /// A non-ASCII domain could not be converted to punycode.
    PunycodeConversionFailed,
    /// A secure request was made without HTTPS support.
    HttpsFeatureNotEnabled,
    /// A non-ASCII domain was given without punycode support.
    PunycodeFeatureNotEnabled,
    /// The proxy information is not well formed.
    BadProxy,
    /// The proxy server rejected the credentials.
    BadProxyCreds,
    /// The proxy credentials are malformed.
    ProxyConnect,
    /// The proxy server rejected the credentials.
    InvalidProxyCreds,
    /// A failure that the transport calls unreachable, with its diagnostic.
    Other(String),
    /// The exchange completed but the response has no body to decode.
    EmptyBody,
}

/// Whether `r` is the unified form of the transport failure `e`: each kind of
/// `minreq::Error` becomes the `Minreq` variant of the same name, keeping its text.
pub open spec fn transport_maps_to(e: minreq::Error, r: AtollError) -> bool {
    match e {
        minreq::Error::InvalidUtf8InBody(u) => r matches AtollError::Http(
            Minreq::InvalidUtf8InBody(t),
        ) && t@ == utf8_error_text_of(u),
        minreq::Error::RustlsCreateConnection(_) => r matches AtollError::Http(
            Minreq::RustlsCreateConnection(_),
        ),
        minreq::Error::IoError(io) => r == AtollError::Utilities(utilities_error_of_io(io)),
        minreq::Error::MalformedChunkLength => r == AtollError::Http(Minreq::MalformedChunkLength),
        minreq::Error::MalformedChunkEnd => r == AtollError::Http(Minreq::MalformedChunkEnd),
        minreq::Error::MalformedContentLength => r == AtollError::Http(
            Minreq::MalformedContentLength,
        ),
        minreq::Error::HeadersOverflow => r == AtollError::Http(Minreq::HeadersOverflow),
        minreq::Error::StatusLineOverflow => r == AtollError::Http(Minreq::StatusLineOverflow),
        minreq::Error::AddressNotFound => r == AtollError::Http(Minreq::AddressNotFound),
        minreq::Error::RedirectLocationMissing => r == AtollError::Http(
            Minreq::RedirectLocationMissing,
        ),
        minreq::Error::InfiniteRedirectionLoop => r == AtollError::Http(
            Minreq::InfiniteRedirectionLoop,
        ),
        minreq::Error::TooManyRedirections => r == AtollError::Http(Minreq::TooManyRedirections),
        minreq::Error::InvalidUtf8InResponse => r == AtollError::Http(
            Minreq::InvalidUtf8InResponse,
        ),
        minreq::Error::PunycodeConversionFailed => r == AtollError::Http(
            Minreq::PunycodeConversionFailed,
        ),
        minreq::Error::HttpsFeatureNotEnabled => r == AtollError::Http(
            Minreq::HttpsFeatureNotEnabled,
        ),
        minreq::Error::PunycodeFeatureNotEnabled => r == AtollError::Http(
            Minreq::PunycodeFeatureNotEnabled,
        ),
        minreq::Error::BadProxy => r == AtollError::Http(Minreq::BadProxy),
        minreq::Error::BadProxyCreds => r == AtollError::Http(Minreq::BadProxyCreds),
        minreq::Error::ProxyConnect => r == AtollError::Http(Minreq::ProxyConnect),
        minreq::Error::InvalidProxyCreds => r == AtollError::Http(Minreq::InvalidProxyCreds),
        minreq::Error::Other(s) => r matches AtollError::Http(Minreq::Other(t)) && t@ == s@,
    }
}

/// The name for the text that `Utf8Error`'s `Display` renders.
pub uninterp spec fn utf8_error_text_of(e: std::str::Utf8Error) -> Seq<char>;

/// The name for the classification that `web3utilities::UtilitiesError::from`
/// gives an I/O error.
pub uninterp spec fn utilities_error_of_io(e: std::io::Error) -> web3utilities::UtilitiesError;

/// Relies on `Utf8Error`'s `Display`: the text that describes the failure.
#[verifier::external_body]
fn utf8_error_text(e: &std::str::Utf8Error) -> (r: String)
    ensures
        r@ == utf8_error_text_of(*e),
{
    e.to_string()
}

/// Relies on `rustls::Error`'s `Display`: the text that describes the failure.
/// Some kinds render an inner error object of any kind, so nothing is stated of it.
#[verifier::external_body]
fn rustls_error_text(e: &rustls::Error) -> (r: String) {
    e.to_string()
}

/// Relies on `serde_json::Error`'s `Display`: the text that describes the failure,
/// with its line and column. An I/O error inside renders as the system describes
/// it, which may depend on the locale, so nothing is stated of the text.
#[verifier::external_body]
fn serde_json_error_text(e: &serde_json::Error) -> (r: String) {
    e.to_string()
}

/// Relies on `web3utilities::UtilitiesError::from`, which classifies an I/O error by its kind.
#[verifier::external_body]
fn utilities_error_of(e: std::io::Error) -> (r: web3utilities::UtilitiesError)
    ensures
        r == utilities_error_of_io(e),
{
    web3utilities::UtilitiesError::from(e)
}

impl AtollError {
    /// Maps a transport failure into the unified error, one variant for each kind.
    pub fn from_minreq(e: minreq::Error) -> (r: AtollError)
        ensures
            transport_maps_to(e, r),
    {
        match e {
            minreq::Error::InvalidUtf8InBody(u) => AtollError::Http(
                Minreq::InvalidUtf8InBody(utf8_error_text(&u)),
            ),
            minreq::Error::RustlsCreateConnection(t) => AtollError::Http(
                Minreq::RustlsCreateConnection(rustls_error_text(&t)),
            ),
            minreq::Error::IoError(io) => AtollError::Utilities(utilities_error_of(io)),
            minreq::Error::MalformedChunkLength => AtollError::Http(Minreq::MalformedChunkLength),
            minreq::Error::MalformedChunkEnd => AtollError::Http(Minreq::MalformedChunkEnd),
            minreq::Error::MalformedContentLength => AtollError::Http(
                Minreq::MalformedContentLength,
            ),
            minreq::Error::HeadersOverflow => AtollError::Http(Minreq::HeadersOverflow),
            minreq::Error::StatusLineOverflow => AtollError::Http(Minreq::StatusLineOverflow),
            minreq::Error::AddressNotFound => AtollError::Http(Minreq::AddressNotFound),
            minreq::Error::RedirectLocationMissing => AtollError::Http(
                Minreq::RedirectLocationMissing,
            ),
            minreq::Error::InfiniteRedirectionLoop => AtollError::Http(
                Minreq::InfiniteRedirectionLoop,
            ),
            minreq::Error::TooManyRedirections => AtollError::Http(Minreq::TooManyRedirections),
            minreq::Error::InvalidUtf8InResponse => AtollError::Http(
                Minreq::InvalidUtf8InResponse,
            ),
            minreq::Error::PunycodeConversionFailed => AtollError::Http(
                Minreq::PunycodeConversionFailed,
            ),
            minreq::Error::HttpsFeatureNotEnabled => AtollError::Http(
                Minreq::HttpsFeatureNotEnabled,
            ),
            minreq::Error::PunycodeFeatureNotEnabled => AtollError::Http(
                Minreq::PunycodeFeatureNotEnabled,
            ),
            minreq::Error::BadProxy => AtollError::Http(Minreq::BadProxy),
            minreq::Error::BadProxyCreds => AtollError::Http(Minreq::BadProxyCreds),
            minreq::Error::ProxyConnect => AtollError::Http(Minreq::ProxyConnect),
            minreq::Error::InvalidProxyCreds => AtollError::Http(Minreq::InvalidProxyCreds),
            minreq::Error::Other(s) => AtollError::Http(Minreq::Other(s.to_owned())),
        }
    }

    /// Maps a JSON decoding failure into the unified error, keeping its diagnostic.
    pub fn from_serde_json(e: serde_json::Error) -> (r: AtollError)
        ensures
            r is SerdeJsonDeser,
    {
        AtollError::SerdeJsonDeser(serde_json_error_text(&e))
    }
}

impl From<minreq::Error> for AtollError {
    fn from(e: minreq::Error) -> (r: AtollError)
        ensures
            transport_maps_to(e, r),
    {
        AtollError::from_minreq(e)
    }
}

impl vstd::std_specs::convert::FromSpecImpl<minreq::Error> for AtollError {
    /// Not every text that the kinds carry is stated, so the mapping is stated as
    /// the relation `transport_maps_to` on `from` instead.
    open spec fn obeys_from_spec() -> bool {
        false
    }

    open spec fn from_spec(v: minreq::Error) -> AtollError {
        AtollError::UnsupportedSolanaRpcMethod
    }
}

impl From<serde_json::Error> for AtollError {
    fn from(e: serde_json::Error) -> (r: AtollError)
        ensures
            r is SerdeJsonDeser,
    {
        AtollError::from_serde_json(e)
    }
}

impl vstd::std_specs::convert::FromSpecImpl<serde_json::Error> for AtollError {
    /// The diagnostic is not stated, so only the variant is stated, on `from`.
    open spec fn obeys_from_spec() -> bool {
        false
    }

    open spec fn from_spec(v: serde_json::Error) -> AtollError {
        AtollError::UnsupportedSolanaRpcMethod
    }
}

/// The kind of a transport failure, as a number: a distinct one for each variant.
pub open spec fn transport_kind(e: minreq::Error) -> nat {
    match e {
        minreq::Error::InvalidUtf8InBody(_) => 0,
        minreq::Error::RustlsCreateConnection(_) => 1,
        minreq::Error::IoError(_) => 2,
        minreq::Error::MalformedChunkLength => 3,
        minreq::Error::MalformedChunkEnd => 4,
        minreq::Error::MalformedContentLength => 5,
        minreq::Error::HeadersOverflow => 6,
        minreq::Error::StatusLineOverflow => 7,
        minreq::Error::AddressNotFound => 8,
        minreq::Error::RedirectLocationMissing => 9,
        minreq::Error::InfiniteRedirectionLoop => 10,
        minreq::Error::TooManyRedirections => 11,
        minreq::Error::InvalidUtf8InResponse => 12,
        minreq::Error::PunycodeConversionFailed => 13,
        minreq::Error::HttpsFeatureNotEnabled => 14,
        minreq::Error::PunycodeFeatureNotEnabled => 15,
        minreq::Error::BadProxy => 16,
        minreq::Error::BadProxyCreds => 17,
        minreq::Error::ProxyConnect => 18,
        minreq::Error::InvalidProxyCreds => 19,
        minreq::Error::Other(_) => 20,
    }
}

/// The kind of transport failure that a unified error stands for, numbered as in
/// `transport_kind`; `None` for an error that is not a transport failure.
pub open spec fn unified_kind(r: AtollError) -> Option<nat> {
    match r {
        AtollError::Utilities(_) => Some(2),
        AtollError::Http(m) => Some(
            match m {
                Minreq::InvalidUtf8InBody(_) => 0,
                Minreq::RustlsCreateConnection(_) => 1,
                Minreq::MalformedChunkLength => 3,
                Minreq::MalformedChunkEnd => 4,
                Minreq::MalformedContentLength => 5,
                Minreq::HeadersOverflow => 6,
                Minreq::StatusLineOverflow => 7,
                Minreq::AddressNotFound => 8,
                Minreq::RedirectLocationMissing => 9,
                Minreq::InfiniteRedirectionLoop => 10,
                Minreq::TooManyRedirections => 11,
                Minreq::InvalidUtf8InResponse => 12,
                Minreq::PunycodeConversionFailed => 13,
                Minreq::HttpsFeatureNotEnabled => 14,
                Minreq::PunycodeFeatureNotEnabled => 15,
                Minreq::BadProxy => 16,
                Minreq::BadProxyCreds => 17,
                Minreq::ProxyConnect => 18,
                Minreq::InvalidProxyCreds => 19,
                Minreq::Other(_) => 20,
                Minreq::EmptyBody => 21,
            },
        ),
        _ => None,
    }
}

/// The text that a transport failure carries, rendered, where that text depends on
/// the failure alone: `None` for the kinds without a text, for a TLS failure (whose
/// text may render an inner error object) and for an I/O error (which carries a
/// classification instead).
pub open spec fn transport_payload(e: minreq::Error) -> Option<Seq<char>> {
    match e {
        minreq::Error::InvalidUtf8InBody(u) => Some(utf8_error_text_of(u)),
        minreq::Error::Other(s) => Some(s@),
        _ => None,
    }
}

/// The text that a unified transport error carries, for the kinds that
/// `transport_payload` gives one.
pub open spec fn unified_payload(r: AtollError) -> Option<Seq<char>> {
    match r {
        AtollError::Http(Minreq::InvalidUtf8InBody(t)) => Some(t@),
        AtollError::Http(Minreq::Other(t)) => Some(t@),
        _ => None,
    }
}

/// The mapping of transport failures loses nothing: the kind of the failure and
/// the text it carries can be read back from the unified error, and an I/O error
/// keeps its classification.
pub proof fn lemma_transport_kind_round_trip(e: minreq::Error, r: AtollError)
    requires
        transport_maps_to(e, r),
    ensures
        unified_kind(r) == Some(transport_kind(e)),
        unified_payload(r) == transport_payload(e),
        e matches minreq::Error::IoError(io) ==> r == AtollError::Utilities(
            utilities_error_of_io(io),
        ),
{
}

/// Two transport failures become the same unified error only where they are of the
/// same kind and carry the same rendered text, where `transport_payload` gives one.
pub proof fn lemma_transport_mapping_one_to_one(
    a: minreq::Error,
    b: minreq::Error,
    ra: AtollError,
    rb: AtollError,
)
    requires
        transport_maps_to(a, ra),
        transport_maps_to(b, rb),
        ra == rb,
    ensures
        transport_kind(a) == transport_kind(b),
        transport_payload(a) == transport_payload(b),
{
    lemma_transport_kind_round_trip(a, ra);
    lemma_transport_kind_round_trip(b, rb);
}

} // verus!
