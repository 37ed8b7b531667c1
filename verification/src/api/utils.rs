//! Reference validation, server routes and request addresses.
use crate::api::error::Error;
use vstd::prelude::*;
use vstd::string::*;

verus! {

/// The routes of the tracking server.
pub enum OpsmlPaths {
    ListCard,
    MetadataDownload,
    Download,
    DownloadPresigned,
    Metric,
    ListFile,
}

impl OpsmlPaths {
    /// The route below the tracking address.
    pub open spec fn route(&self) -> Seq<char> {
        match self {
            OpsmlPaths::ListCard => "/opsml/cards/list"@,
            OpsmlPaths::MetadataDownload => "/opsml/models/metadata"@,
            OpsmlPaths::Download => "/opsml/files/download"@,
            OpsmlPaths::DownloadPresigned => "/opsml/files/presigned"@,
            OpsmlPaths::Metric => "/opsml/metrics"@,
            OpsmlPaths::ListFile => "/opsml/files/list"@,
        }
    }

    /// The address of the route on the server at `tracking_uri`.
    pub fn as_str(&self, tracking_uri: &str) -> (address: String)
        ensures
            address@ == tracking_uri@ + self.route(),
    {
        let route = match self {
            OpsmlPaths::ListCard => "/opsml/cards/list",
            OpsmlPaths::MetadataDownload => "/opsml/models/metadata",
            OpsmlPaths::Download => "/opsml/files/download",
            OpsmlPaths::DownloadPresigned => "/opsml/files/presigned",
            OpsmlPaths::Metric => "/opsml/metrics",
            OpsmlPaths::ListFile => "/opsml/files/list",
        };
        let mut address = String::from_str(tracking_uri);
        address.append(route);
        address
    }
}

/// The storage areas under which the server keeps its artifacts.
pub enum SaveRoot {
    Model,
}

impl SaveRoot {
    /// The prefix of every remote path in the storage area.
    pub open spec fn prefix(&self) -> Seq<char> {
        match self {
            SaveRoot::Model => "opsml-root:/OPSML_MODEL_REGISTRY"@,
        }
    }

    pub fn as_str(&self) -> (root: &'static str)
        ensures
            root@ == self.prefix(),
    {
        match self {
            SaveRoot::Model => "opsml-root:/OPSML_MODEL_REGISTRY",
        }
    }
}

/// A model is named either by its uid alone or without a uid by at least one
/// of name, repository and version.
pub open spec fn valid_reference(
    name: Option<&str>,
    repository: Option<&str>,
    version: Option<&str>,
    uid: Option<&str>,
) -> bool {
    (name is None && version is None && repository is None) != (uid is None)
}

/// Accepts the identifying fields of a model, or rejects them as an invalid
/// reference.
pub fn check_args(
    name: Option<&str>,
    repository: Option<&str>,
    version: Option<&str>,
    uid: Option<&str>,
) -> (checked: Result<(), Error>)
    ensures
        checked is Ok <==> valid_reference(name, repository, version, uid),
        checked is Err ==> checked == Err::<(), Error>(Error::InvalidReference),
{
    let has_common = name.is_none() && version.is_none() && repository.is_none();
    let has_uid = uid.is_none();
    if has_common != has_uid {
        Ok(())
    } else {
        Err(Error::InvalidReference)
    }
}

/// A uid alone and a full name, repository and version without a uid are
/// accepted; no field at all, and a uid beside any other field, are rejected.
pub proof fn lemma_reference_shapes(
    name: Option<&str>,
    repository: Option<&str>,
    version: Option<&str>,
    uid: Option<&str>,
)
    ensures
        uid is Some && name is None && repository is None && version is None ==> valid_reference(
            name,
            repository,
            version,
            uid,
        ),
        uid is None && name is Some && repository is Some && version is Some ==> valid_reference(
            name,
            repository,
            version,
            uid,
        ),
        uid is None && name is None && repository is None && version is None ==> !valid_reference(
            name,
            repository,
            version,
            uid,
        ),
        uid is Some && (name is Some || repository is Some || version is Some) ==> !valid_reference(
            name,
            repository,
            version,
            uid,
        ),
{
}

/// `s` without its last character if that is `suffix`, else `s`.
pub open spec fn without_suffix(s: Seq<char>, suffix: char) -> Seq<char> {
    if s.len() > 0 && s.last() == suffix {
        s.drop_last()
    } else {
        s
    }
}

/// Removes the suffix from a string if it exists.
pub fn remove_suffix(s: &str, suffix: char) -> (stripped: String)
    ensures
        stripped@ == without_suffix(s@, suffix),
{
    let n: usize = s.unicode_len();
    if n > 0 && s.get_char(n - 1) == suffix {
        String::from_str(s.substring_char(0, n - 1))
    } else {
        String::from_str(s)
    }
}

/// The tracking address as the routes are appended to it: the configured
/// value without one trailing slash.
pub fn tracking_uri(configured: &str) -> (uri: String)
    ensures
        uri@ == without_suffix(configured@, '/'),
{
    remove_suffix(configured, '/')
}

/// Whether a reply with this status code reports success.
pub open spec fn success_status(status: u16) -> bool {
    200 <= status < 300
}

pub fn is_success(status: u16) -> (yes: bool)
    ensures
        yes == success_status(status),
{
    200 <= status && status < 300
}

/// A URL as `reqwest` holds it once parsed. Nothing of it is seen but its
/// text.
#[verifier::external_type_specification]
#[verifier::external_body]
pub struct ExUrl(reqwest::Url);

/// The text of a parsed URL: what its `as_str` gives.
pub uninterp spec fn url_text(url: reqwest::Url) -> Seq<char>;

/// The text of the URL that `reqwest::Url::parse` reads from `input`, if it
/// reads one.
pub uninterp spec fn parsed_url(input: Seq<char>) -> Option<Seq<char>>;

/// The text of the URL with the text `url` once `append_pair` has added the
/// pair of `key` and `value` to its query.
pub uninterp spec fn url_with_pair(url: Seq<char>, key: Seq<char>, value: Seq<char>) -> Seq<char>;

/// The number of bytes that hold `text`.
pub open spec fn text_bytes(text: Seq<char>) -> nat {
    vstd::utf8::encode_utf8(text).len()
}

/// Whether the URL stays within the four gigabytes that a URL may hold when
/// the pair is added to its query. A byte of the pair takes up to three in
/// the query, and the pair up to three more to part it from what is there.
pub open spec fn pair_fits(url: Seq<char>, key: Seq<char>, value: Seq<char>) -> bool {
    text_bytes(url) + 3 * text_bytes(key) + 3 * text_bytes(value) + 3 <= u32::MAX
}

/// The query pairs as sequences of characters.
pub open spec fn pairs_view(params: Seq<(&str, &str)>) -> Seq<(Seq<char>, Seq<char>)> {
    Seq::new(params.len(), |i: int| (params[i].0@, params[i].1@))
}

/// The parameters of a request as sequences of characters.
pub open spec fn params_view(params: Option<&[(&str, &str)]>) -> Option<
    Seq<(Seq<char>, Seq<char>)>,
> {
    match params {
        Some(pairs) => Some(pairs_view(pairs@)),
        None => None,
    }
}

/// The text of the URL `url` with the first `n` pairs added to its query in
/// order. There is none where a pair does not fit.
pub open spec fn with_pairs(url: Seq<char>, pairs: Seq<(Seq<char>, Seq<char>)>, n: int) -> Option<
    Seq<char>,
>
    decreases n,
{
    if n <= 0 {
        Some(url)
    } else {
        match with_pairs(url, pairs, n - 1) {
            Some(text) => if pair_fits(text, pairs[n - 1].0, pairs[n - 1].1) {
                Some(url_with_pair(text, pairs[n - 1].0, pairs[n - 1].1))
            } else {
                None
            },
            None => None,
        }
    }
}

/// The address that a request to `url` with the query pairs `params` goes
/// to: `url` read as an absolute URL, with each pair added to its query in
/// order. Without parameters the query is left as it is. There is no address
/// where `url` is no absolute URL, or where a pair does not fit.
pub open spec fn request_url_of(
    url: Seq<char>,
    params: Option<Seq<(Seq<char>, Seq<char>)>>,
) -> Option<Seq<char>> {
    match parsed_url(url) {
        Some(text) => match params {
            Some(pairs) => with_pairs(text, pairs, pairs.len() as int),
            None => Some(text),
        },
        None => None,
    }
}

/// Calls `reqwest::Url::parse`, which returns an error, and this function
/// `None`, where `input` is no absolute URL. The URL that it returns depends
/// on `input` alone.
#[verifier::external_body]
fn parse_url(input: &str) -> (url: Option<reqwest::Url>)
    ensures
        match url {
            Some(parsed) => parsed_url(input@) == Some(url_text(parsed)),
            None => parsed_url(input@) is None,
        },
{
    match reqwest::Url::parse(input) {
        Ok(url) => Some(url),
        Err(_) => None,
    }
}

/// The length in bytes of what `as_str` gives of the URL.
#[verifier::external_body]
fn url_len(url: &reqwest::Url) -> (bytes: usize)
    ensures
        bytes == text_bytes(url_text(*url)),
{
    url.as_str().len()
}

/// Calls `query_pairs_mut` on the URL and `append_pair` on what that
/// returns, which writes the pair behind the query in the form of an HTML
/// form. The new text depends on the old text and the pair alone. The
/// outside code panics only where the text outgrows four gigabytes, which
/// `requires` rules out.
#[verifier::external_body]
fn append_pair(url: &mut reqwest::Url, key: &str, value: &str)
    requires
        pair_fits(url_text(*old(url)), key@, value@),
    ensures
        url_text(*final(url)) == url_with_pair(url_text(*old(url)), key@, value@),
{
    url.query_pairs_mut().append_pair(key, value);
}

/// Takes the text out of the URL, as `String::from` does.
#[verifier::external_body]
fn url_into_string(url: reqwest::Url) -> (text: String)
    ensures
        text@ == url_text(url),
{
    String::from(url)
}

/// Once a pair does not fit, no address comes of any longer run of pairs.
proof fn lemma_with_pairs_stays_none(
    url: Seq<char>,
    pairs: Seq<(Seq<char>, Seq<char>)>,
    n: int,
    m: int,
)
    requires
        0 <= n <= m,
        with_pairs(url, pairs, n) is None,
    ensures
        with_pairs(url, pairs, m) is None,
    decreases m,
{
    if n < m {
        lemma_with_pairs_stays_none(url, pairs, n, m - 1);
    }
}

/// Whether the URL of `bytes` bytes stays within four gigabytes when the
/// pair is added.
fn fits(bytes: usize, key: &str, value: &str) -> (yes: bool)
    ensures
        yes == (bytes + 3 * text_bytes(key@) + 3 * text_bytes(value@) + 3 <= u32::MAX),
{
    let limit: u64 = 4294967292;
    let key_bytes: usize = key.as_bytes().len();
    let value_bytes: usize = value.as_bytes().len();
    if bytes as u64 > limit {
        return false;
    }
    let room: u64 = limit - bytes as u64;
    if key_bytes as u64 > room / 3 {
        return false;
    }
    let left: u64 = room - 3 * (key_bytes as u64);
    value_bytes as u64 <= left / 3
}

/// Builds the address of a request, or refuses `url` as invalid.
pub fn request_url(url: &str, params: Option<&[(&str, &str)]>) -> (address: Result<String, Error>)
    ensures
        match address {
            Ok(text) => request_url_of(url@, params_view(params)) == Some(text@),
            Err(e) => {
                &&& request_url_of(url@, params_view(params)) is None
                &&& e matches Error::InvalidUrl { url: refused } && refused@ == url@
            },
        },
{
    let mut parsed = match parse_url(url) {
        Some(parsed) => parsed,
        None => {
            return Err(Error::InvalidUrl { url: String::from_str(url) });
        },
    };
    match params {
        Some(pairs) => {
            let ghost start = url_text(parsed);
            let ghost texts = pairs_view(pairs@);
            let mut i: usize = 0;
            while i < pairs.len()
                invariant
                    i <= pairs.len(),
                    texts == pairs_view(pairs@),
                    params == Some(pairs),
                    parsed_url(url@) == Some(start),
                    with_pairs(start, texts, i as int) == Some(url_text(parsed)),
                decreases pairs.len() - i,
            {
                let key = pairs[i].0;
                let value = pairs[i].1;
                assert(texts[i as int] == (key@, value@));
                if !fits(url_len(&parsed), key, value) {
                    proof {
                        lemma_with_pairs_stays_none(start, texts, i as int + 1, pairs.len() as int);
                    }
                    return Err(Error::InvalidUrl { url: String::from_str(url) });
                }
                append_pair(&mut parsed, key, value);
                i = i + 1;
            }
        },
        None => {},
    }
    Ok(url_into_string(parsed))
}

} // verus!
