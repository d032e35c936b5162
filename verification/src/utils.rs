//! Choosing the decoders to try for a stream, by its URI scheme and by the
//! decoders that are available, and moving between file paths and `file`
//! URIs.
use vstd::prelude::*;
use fluent_uri::encoding::{encoder, EString};
use fluent_uri::{component::Scheme, Uri};

verus! {

/// The decoder backends.
#[derive(Debug, Clone, Copy, PartialEq, Eq)]
pub enum DecoderKind {
    /// The pure-Rust decoder, for local files.
    Symphonia,
    /// The ffmpeg decoder, for network streams and as a fallback.
    Ffmpeg,
    /// A decoder of silence, used when no real decoder is available.
    Dummy,
}

/// A scheme that starts with "http" (so also "https"): a network stream.
pub open spec fn is_network(scheme: Seq<char>) -> bool {
    &&& scheme.len() >= 4
    &&& scheme[0] == 'h'
    &&& scheme[1] == 't'
    &&& scheme[2] == 't'
    &&& scheme[3] == 'p'
}

/// The scheme of a local file.
pub open spec fn is_file(scheme: Seq<char>) -> bool {
    scheme =~= seq!['f', 'i', 'l', 'e']
}

/// Whether a stream with this URI scheme comes over the network.
pub fn is_network_scheme(scheme: &str) -> (b: bool)
    ensures
        b == is_network(scheme@),
{
    let n = scheme.unicode_len();
    n >= 4 && scheme.get_char(0) == 'h' && scheme.get_char(1) == 't' && scheme.get_char(2) == 't'
        && scheme.get_char(3) == 'p'
}

/// Whether this URI scheme is that of a local file.
pub fn is_file_scheme(scheme: &str) -> (b: bool)
    ensures
        b == is_file(scheme@),
{
    let n = scheme.unicode_len();
    if n != 4 {
        return false;
    }
    let b = scheme.get_char(0) == 'f' && scheme.get_char(1) == 'i' && scheme.get_char(2) == 'l'
        && scheme.get_char(3) == 'e';
    proof {
        if b {
            assert(scheme@ =~= seq!['f', 'i', 'l', 'e']);
        }
    }
    b
}

/// The decoders to try, in order, for a stream with this scheme: ffmpeg
/// first for network streams, the pure-Rust decoder for local files, then
/// ffmpeg for anything; the dummy decoder only when neither real decoder
/// is available.
pub open spec fn candidates_spec(scheme: Seq<char>, symphonia: bool, ffmpeg: bool) -> Seq<
    DecoderKind,
> {
    let first: Seq<DecoderKind> = if ffmpeg && is_network(scheme) {
        seq![DecoderKind::Ffmpeg]
    } else {
        seq![]
    };
    let second: Seq<DecoderKind> = if symphonia && is_file(scheme) {
        seq![DecoderKind::Symphonia]
    } else {
        seq![]
    };
    let third: Seq<DecoderKind> = if ffmpeg {
        seq![DecoderKind::Ffmpeg]
    } else {
        seq![]
    };
    let last: Seq<DecoderKind> = if !symphonia && !ffmpeg {
        seq![DecoderKind::Dummy]
    } else {
        seq![]
    };
    first + second + third + last
}

/// The decoders to try, in order, for a stream with URI scheme `scheme`,
/// given which real decoders are available. The first that opens the stream
/// is used; if none does, the format is unknown.
pub fn decoder_candidates(scheme: &str, symphonia: bool, ffmpeg: bool) -> (c: Vec<DecoderKind>)
    ensures
        c@ == candidates_spec(scheme@, symphonia, ffmpeg),
{
    let mut c: Vec<DecoderKind> = Vec::new();
    if ffmpeg && is_network_scheme(scheme) {
        c.push(DecoderKind::Ffmpeg);
    }
    if symphonia && is_file_scheme(scheme) {
        c.push(DecoderKind::Symphonia);
    }
    if ffmpeg {
        c.push(DecoderKind::Ffmpeg);
    }
    if !symphonia && !ffmpeg {
        c.push(DecoderKind::Dummy);
    }
    assert(c@ =~= candidates_spec(scheme@, symphonia, ffmpeg));
    c
}

/// The `file` URI that fluent-uri's builder makes of a path: the scheme
/// `file` and the percent-encoded path; `None` when the builder refuses it.
pub uninterp spec fn file_uri_of(path: Seq<char>) -> Option<Seq<char>>;

/// The path that fluent-uri reads out of a URI and percent-decodes; `None`
/// when the text is not a URI or its decoded path is not UTF-8.
pub uninterp spec fn decoded_path(uri: Seq<char>) -> Option<Seq<char>>;

/// A URI that begins with the scheme `file` and its colon.
pub open spec fn has_file_scheme(uri: Seq<char>) -> bool {
    uri.len() >= 5 && uri.take(5) == seq!['f', 'i', 'l', 'e', ':']
}

/// A path that begins with two slashes, which a URI without an authority
/// cannot hold.
pub open spec fn starts_with_two_slashes(path: Seq<char>) -> bool {
    path.len() >= 2 && path[0] == '/' && path[1] == '/'
}

/// Percent-encodes `path` with fluent-uri's path encoder and builds the URI of
/// scheme `file` with that path: the builder writes `file:` and then the
/// encoded path (no authority). The builder refuses only a path starting
/// with `//` (slashes are left unencoded), and, since every character outside
/// the path's alphabet (`%`, `?` and `#` among them) is encoded, parsing the
/// URI back and decoding its path gives `path` again.
#[verifier::external_body]
fn file_uri(path: &str) -> (r: Option<String>)
    ensures
        r is None <==> file_uri_of(path@) is None,
        r matches Some(u) ==> file_uri_of(path@) == Some(u@),
        r is None <==> starts_with_two_slashes(path@),
        r matches Some(u) ==> decoded_path(u@) == Some(path@),
        r matches Some(u) ==> has_file_scheme(u@),
{
    let mut percent_path: EString<encoder::Path> = EString::new();
    percent_path.encode::<encoder::Path>(path);
    let uri = Uri::<String>::builder().scheme(Scheme::new_or_panic("file")).path(&percent_path).build();
    Some(uri.ok()?.into_string())
}

/// Parses `uri` with fluent-uri and percent-decodes its path into a string.
#[verifier::external_body]
fn uri_path(uri: &str) -> (r: Option<String>)
    ensures
        r is None <==> decoded_path(uri@) is None,
        r matches Some(p) ==> decoded_path(uri@) == Some(p@),
{
    let parsed = Uri::parse(uri).ok()?;
    Some(parsed.path().decode().into_string().ok()?.into_owned())
}

/// Turns an absolute path into a URI with the `file` scheme. `None` when the
/// path starts with `//`, which such a URI cannot hold.
pub fn path_to_uri(path: &str) -> (r: Option<String>)
    ensures
        r is None <==> file_uri_of(path@) is None,
        r matches Some(u) ==> file_uri_of(path@) == Some(u@),
        r is None <==> starts_with_two_slashes(path@),
        r matches Some(u) ==> decoded_path(u@) == Some(path@),
        r matches Some(u) ==> has_file_scheme(u@),
{
    file_uri(path)
}

/// Turns a URI with the `file` scheme into the path it names, decoded. `None`
/// when the text is not a URI, or its path does not decode to UTF-8.
pub fn uri_to_path(uri: &str) -> (r: Option<String>)
    ensures
        r is None <==> decoded_path(uri@) is None,
        r matches Some(p) ==> decoded_path(uri@) == Some(p@),
{
    uri_path(uri)
}

} // verus!
