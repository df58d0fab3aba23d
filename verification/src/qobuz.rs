//! The Qobuz API client: its models, the URLs and headers of its requests, and
//! the search of the login page and app bundle for the app's version, id and
//! secrets.
use vstd::prelude::*;

use crate::string_map::StringMap;
use crate::text::{
    capitalized, chars_of, decimal, has_prefix, push_decimal, push_str, replace, replaced,
    starts_with, str_eq, string_from_chars,
};
use crate::trusted::{
    base64_decode, base64_standard_decoded, char_uppercase_first, form_encode_byte, form_encode_bytes,
    form_urlencode, groups_view, regex_all_matches, regex_captures, regex_captures_all,
    regex_first_match, utf8_string,
};
use vstd::utf8::{decode_utf8, encode_utf8, is_char_boundary, valid_utf8};

verus! {

/// The header that carries the user's access token.
pub const AUTH_HEADER_NAME: &'static str = "x-user-auth-token";

/// The base URL of the Qobuz web player.
pub const QOBUZ_PLAY_API_BASE_URL: &'static str = "https://play.qobuz.com";

/// The base URL of the Qobuz API.
pub const QOBUZ_API_BASE_URL: &'static str = "https://www.qobuz.com/api.json/0.2";

/// Where Qobuz serves album covers and artist pictures.
pub const QOBUZ_IMAGES_BASE_URL: &'static str = "https://resources.qobuz.com/images/";

/// The kind of device that signs in.
#[derive(Debug, Clone, Copy, PartialEq, Eq, Structural)]
pub enum QobuzDeviceType {
    Browser,
}

impl QobuzDeviceType {
    /// The name the API uses for the device type (`SCREAMING_SNAKE_CASE`).
    pub fn as_str(&self) -> (r: &'static str)
        ensures
            r@ == "BROWSER"@,
    {
        match self {
            QobuzDeviceType::Browser => "BROWSER",
        }
    }

    /// The device type a name stands for.
    pub fn from_name(name: &str) -> (r: Option<Self>)
        ensures
            r == (if name@ == "BROWSER"@ { Some(QobuzDeviceType::Browser) } else { None::<QobuzDeviceType> }),
    {
        if str_eq(name, "BROWSER") { Some(QobuzDeviceType::Browser) } else { None }
    }
}

/// The order in which albums are listed.
#[derive(Debug, Clone, Copy, PartialEq, Eq, Structural)]
pub enum QobuzAlbumOrder {
    Date,
}

impl QobuzAlbumOrder {
    /// The name the API uses for the order.
    pub fn as_str(&self) -> (r: &'static str)
        ensures
            r@ == "DATE"@,
    {
        match self {
            QobuzAlbumOrder::Date => "DATE",
        }
    }

    /// The order a name stands for.
    pub fn from_name(name: &str) -> (r: Option<Self>)
        ensures
            r == (if name@ == "DATE"@ { Some(QobuzAlbumOrder::Date) } else { None::<QobuzAlbumOrder> }),
    {
        if str_eq(name, "DATE") { Some(QobuzAlbumOrder::Date) } else { None }
    }
}

/// The direction in which albums are listed.
#[derive(Debug, Clone, Copy, PartialEq, Eq, Structural)]
pub enum QobuzAlbumOrderDirection {
    Asc,
    Desc,
}

impl QobuzAlbumOrderDirection {
    /// The name the API uses for the direction.
    pub fn as_str(&self) -> (r: &'static str)
        ensures
            *self == QobuzAlbumOrderDirection::Asc ==> r@ == "ASC"@,
            *self == QobuzAlbumOrderDirection::Desc ==> r@ == "DESC"@,
    {
        match self {
            QobuzAlbumOrderDirection::Asc => "ASC",
            QobuzAlbumOrderDirection::Desc => "DESC",
        }
    }

    /// The direction a name stands for.
    pub fn from_name(name: &str) -> (r: Option<Self>)
        ensures
            r == (if name@ == "ASC"@ {
                Some(QobuzAlbumOrderDirection::Asc)
            } else if name@ == "DESC"@ {
                Some(QobuzAlbumOrderDirection::Desc)
            } else {
                None::<QobuzAlbumOrderDirection>
            }),
    {
        if str_eq(name, "ASC") {
            Some(QobuzAlbumOrderDirection::Asc)
        } else if str_eq(name, "DESC") {
            Some(QobuzAlbumOrderDirection::Desc)
        } else {
            None
        }
    }
}

/// The URLs of an image in three sizes.
#[derive(Debug, Clone, PartialEq, Default)]
pub struct QobuzImage {
    pub small: String,
    pub thumbnail: String,
    pub large: String,
}

/// A music genre.
#[derive(Debug, Clone, PartialEq, Default)]
pub struct QobuzGenre {
    pub id: u64,
    pub name: String,
    pub slug: String,
}

/// An album. The maximum sampling rate, a 32-bit float in the API, is kept
/// as its IEEE-754 bit pattern.
#[derive(Debug, Clone, PartialEq, Default)]
pub struct QobuzAlbum {
    pub id: u64,
    pub artist: String,
    pub artist_id: u64,
    pub maximum_bit_depth: u16,
    pub image: QobuzImage,
    pub title: String,
    pub qobuz_id: u64,
    pub released_at: u64,
    pub duration: u32,
    pub parental_warning: bool,
    pub popularity: u32,
    pub tracks_count: u32,
    pub genre: QobuzGenre,
    pub maximum_channel_count: u16,
    pub maximum_sampling_rate_bits: u32,
}

/// A track.
#[derive(Debug, Clone, PartialEq, Default)]
pub struct QobuzTrack {
    pub id: u64,
    pub track_number: u32,
    pub album_id: u64,
    pub artist_id: u64,
    pub audio_quality: String,
    pub copyright: Option<String>,
    pub duration: u32,
    pub parental_warning: bool,
    pub isrc: String,
    pub popularity: u32,
    pub title: String,
}

/// An artist.
#[derive(Debug, Clone, PartialEq, Default)]
pub struct QobuzArtist {
    pub id: u64,
    pub picture: Option<String>,
    pub popularity: u32,
    pub name: String,
}

/// The URL of an image at `size` by `size` pixels: the image's path, with
/// every `-` made a `/`, under the images base URL.
pub open spec fn image_url(path: Seq<char>, size: u16) -> Seq<char> {
    QOBUZ_IMAGES_BASE_URL@ + replaced(path, seq!['-'], seq!['/']) + seq!['/'] + decimal(size as nat)
        + seq!['x'] + decimal(size as nat) + ".jpg"@
}

/// Builds `image_url(path, size)`.
fn image_url_of(path: &str, size: u16) -> (r: String)
    ensures
        r@ == image_url(path@, size),
{
    let cs = chars_of(path);
    let dash: Vec<char> = vec!['-'];
    let slash: Vec<char> = vec!['/'];
    assert(dash@ == seq!['-']);
    assert(slash@ == seq!['/']);
    let p = replace(&cs, &dash, &slash);
    let mut out: Vec<char> = Vec::new();
    push_str(&mut out, QOBUZ_IMAGES_BASE_URL);
    crate::text::push_all(&mut out, &p);
    out.push('/');
    push_decimal(&mut out, size as u64);
    out.push('x');
    push_decimal(&mut out, size as u64);
    push_str(&mut out, ".jpg");
    assert(out@ == image_url(path@, size));
    string_from_chars(&out)
}

impl QobuzAlbum {
    /// The URL of the album's cover at `size` by `size` pixels.
    pub fn cover_url(&self, size: u16) -> (r: String)
        ensures
            r@ == image_url(self.image.large@, size),
    {
        image_url_of(self.image.large.as_str(), size)
    }
}

impl QobuzArtist {
    /// The URL of the artist's picture at `size` by `size` pixels, if the
    /// artist has a picture.
    pub fn picture_url(&self, size: u16) -> (r: Option<String>)
        ensures
            match self.picture {
                Some(p) => r matches Some(u) && u@ == image_url(p@, size),
                None => r is None,
            },
    {
        match &self.picture {
            Some(p) => Some(image_url_of(p.as_str(), size)),
            None => None,
        }
    }
}

/// The endpoints the client calls.
#[derive(Debug, Clone, Copy, PartialEq, Eq, Structural)]
pub enum QobuzApiEndpoint {
    Login,
    Bundle,
    FavoriteAlbums,
    AlbumTracks,
}

/// The URL of an endpoint; the bundle's URL holds the placeholder `:bundleVersion`.
pub open spec fn endpoint_url(e: QobuzApiEndpoint) -> Seq<char> {
    match e {
        QobuzApiEndpoint::Login => QOBUZ_PLAY_API_BASE_URL@ + "/login"@,
        QobuzApiEndpoint::Bundle => QOBUZ_PLAY_API_BASE_URL@ + "/resources/:bundleVersion/bundle.js"@,
        QobuzApiEndpoint::FavoriteAlbums => QOBUZ_API_BASE_URL@ + "/favorite/getUserFavorites"@,
        QobuzApiEndpoint::AlbumTracks => QOBUZ_API_BASE_URL@ + "/album/get"@,
    }
}

impl QobuzApiEndpoint {
    /// The endpoint's URL.
    pub fn to_url(&self) -> (r: String)
        ensures
            r@ == endpoint_url(*self),
    {
        let mut out: Vec<char> = Vec::new();
        match self {
            QobuzApiEndpoint::Login => {
                push_str(&mut out, QOBUZ_PLAY_API_BASE_URL);
                push_str(&mut out, "/login");
            },
            QobuzApiEndpoint::Bundle => {
                push_str(&mut out, QOBUZ_PLAY_API_BASE_URL);
                push_str(&mut out, "/resources/:bundleVersion/bundle.js");
            },
            QobuzApiEndpoint::FavoriteAlbums => {
                push_str(&mut out, QOBUZ_API_BASE_URL);
                push_str(&mut out, "/favorite/getUserFavorites");
            },
            QobuzApiEndpoint::AlbumTracks => {
                push_str(&mut out, QOBUZ_API_BASE_URL);
                push_str(&mut out, "/album/get");
            },
        }
        string_from_chars(&out)
    }
}

/// The text pairs of a slice of string-slice pairs.
pub open spec fn text_pairs(params: Seq<(&str, &str)>) -> Seq<(Seq<char>, Seq<char>)> {
    params.map_values(|p: (&str, &str)| (p.0@, p.1@))
}

/// `s` after replacing, for each `(key, value)` of `params` in turn, every
/// occurrence of `key` by `value` (`str::replace`).
pub open spec fn replaced_all(s: Seq<char>, params: Seq<(Seq<char>, Seq<char>)>) -> Seq<char>
    decreases params.len(),
{
    if params.len() == 0 {
        s
    } else {
        replaced(replaced_all(s, params.drop_last()), params.last().0, params.last().1)
    }
}

/// Replaces, for each `(key, value)` of `params` in turn, every occurrence of
/// `key` in `value` by the pair's value.
pub fn replace_all(value: &str, params: &[(&str, &str)]) -> (r: String)
    ensures
        r@ == replaced_all(value@, text_pairs(params@)),
{
    let ghost ps = text_pairs(params@);
    let mut cur = chars_of(value);
    let mut i: usize = 0;
    assert(ps.take(0) =~= Seq::<(Seq<char>, Seq<char>)>::empty());
    while i < params.len()
        invariant
            i <= params@.len(),
            ps == text_pairs(params@),
            cur@ == replaced_all(value@, ps.take(i as int)),
        decreases params@.len() - i,
    {
        let key = chars_of(params[i].0);
        let val = chars_of(params[i].1);
        cur = replace(&cur, &key, &val);
        assert(ps.take(i + 1).drop_last() == ps.take(i as int));
        i = i + 1;
    }
    assert(ps.take(params@.len() as int) == ps);
    string_from_chars(&cur)
}

/// One serialized `name=value` pair of a form-urlencoded query string.
pub open spec fn encoded_pair(p: (Seq<char>, Seq<char>)) -> Seq<char> {
    form_encode_bytes(encode_utf8(p.0)) + seq!['='] + form_encode_bytes(encode_utf8(p.1))
}

/// The form-urlencoded query string of `pairs`, joined by `&`.
pub open spec fn encoded_query(pairs: Seq<(Seq<char>, Seq<char>)>) -> Seq<char>
    decreases pairs.len(),
{
    if pairs.len() == 0 {
        Seq::empty()
    } else if pairs.len() == 1 {
        encoded_pair(pairs[0])
    } else {
        encoded_query(pairs.drop_last()) + seq!['&'] + encoded_pair(pairs.last())
    }
}

/// `url` followed by `?` and the query string of `pairs`.
pub open spec fn with_query(url: Seq<char>, pairs: Seq<(Seq<char>, Seq<char>)>) -> Seq<char> {
    url + seq!['?'] + encoded_query(pairs)
}

/// Appends to `value` a `?` and the form-urlencoded query string of `query`
/// (`url::form_urlencoded::Serializer` with `append_pair` for each pair).
pub fn attach_query_string(value: &str, query: &[(&str, &str)]) -> (r: String)
    ensures
        r@ == with_query(value@, text_pairs(query@)),
{
    let ghost ps = text_pairs(query@);
    let mut q: Vec<char> = Vec::new();
    let mut i: usize = 0;
    assert(ps.take(0) =~= Seq::<(Seq<char>, Seq<char>)>::empty());
    while i < query.len()
        invariant
            i <= query@.len(),
            ps == text_pairs(query@),
            q@ == encoded_query(ps.take(i as int)),
        decreases query@.len() - i,
    {
        if i > 0 {
            q.push('&');
        }
        let k = form_urlencode(query[i].0);
        push_str(&mut q, k.as_str());
        q.push('=');
        let v = form_urlencode(query[i].1);
        push_str(&mut q, v.as_str());
        assert(ps.take(i + 1).drop_last() == ps.take(i as int));
        assert(ps.take(i + 1).last() == ps[i as int]);
        i = i + 1;
    }
    assert(ps.take(query@.len() as int) == ps);
    let mut out = chars_of(value);
    out.push('?');
    crate::text::push_all(&mut out, &q);
    string_from_chars(&out)
}

/// Why a JSON value could not be read as a model.
#[derive(Debug, Clone, PartialEq)]
pub enum ParseError {
    /// The value could not be parsed.
    Parse(String),
    /// A field holds a value of the wrong type.
    ConvertType(String),
    /// A field is missing.
    MissingValue(String),
}

/// Why the user's favorite albums could not be fetched.
#[derive(Debug)]
pub enum QobuzFavoriteAlbumsError {
    Reqwest(reqwest::Error),
    NoAccessTokenAvailable,
    NoUserIdAvailable,
    Parse(ParseError),
}

/// Why an album's tracks could not be fetched.
#[derive(Debug)]
pub enum QobuzAlbumTracksError {
    Reqwest(reqwest::Error),
    NoAccessTokenAvailable,
    RequestFailed(String),
    Parse(ParseError),
}

/// Why the login page could not be fetched.
#[derive(Debug)]
pub enum QobuzFetchLoginSourceError {
    Reqwest(reqwest::Error),
}

/// Why the app bundle could not be fetched.
#[derive(Debug)]
pub enum QobuzFetchBundleSourceError {
    Reqwest(reqwest::Error),
}

/// Why the app's id and secrets could not be found in its bundle.
#[derive(Debug)]
pub enum QobuzFetchAppSecretsError {
    Reqwest(reqwest::Error),
    Base64Decode(base64::DecodeError),
    NoAppId,
    NoSeedAndTimezone,
    NoInfoAndExtras,
    NoMatchingInfoForTimezone,
    Utf8(std::str::Utf8Error),
}

/// An authenticated GET request to the API: its URL, and the value of the
/// `AUTH_HEADER_NAME` header.
#[derive(Debug, Clone)]
pub struct QobuzRequest {
    pub url: String,
    pub auth_header_value: String,
}

/// The value of the authentication header for an access token.
pub open spec fn bearer(token: Seq<char>) -> Seq<char> {
    "Bearer "@ + token
}

/// The page offset and size a request uses: 0 and 100 unless given.
pub open spec fn offset_or_default(offset: Option<u32>) -> nat {
    match offset {
        Some(o) => o as nat,
        None => 0,
    }
}

/// The page size a request uses: 100 unless given.
pub open spec fn limit_or_default(limit: Option<u32>) -> nat {
    match limit {
        Some(l) => l as nat,
        None => 100,
    }
}

/// The URL of a page of the user's favorite albums.
pub open spec fn favorite_albums_url(offset: Option<u32>, limit: Option<u32>) -> Seq<char> {
    with_query(
        replaced_all(endpoint_url(QobuzApiEndpoint::FavoriteAlbums), Seq::empty()),
        seq![
            ("offset"@, decimal(offset_or_default(offset))),
            ("limit"@, decimal(limit_or_default(limit))),
            ("type"@, "albums"@),
        ],
    )
}

/// The URL of a page of an album's tracks. The parameters are substituted
/// into the endpoint's URL, which has no placeholders for them.
pub open spec fn album_tracks_url(album_id: Seq<char>, offset: Option<u32>, limit: Option<u32>) -> Seq<char> {
    replaced_all(
        endpoint_url(QobuzApiEndpoint::AlbumTracks),
        seq![
            ("album_id"@, album_id),
            ("offset"@, decimal(offset_or_default(offset))),
            ("limit"@, decimal(limit_or_default(limit))),
        ],
    )
}

/// The characters that form-urlencoding leaves as they are.
pub open spec fn form_safe_char(c: char) -> bool {
    ('0' <= c <= '9') || ('A' <= c <= 'Z') || ('a' <= c <= 'z') || c == '*' || c == '-' || c == '.' || c == '_'
}

/// Text made only of characters that form-urlencoding leaves as they are.
pub open spec fn form_safe(s: Seq<char>) -> bool {
    forall|i: int| 0 <= i < s.len() ==> form_safe_char(#[trigger] s[i])
}

/// Form-urlencoding leaves text of safe characters as it is.
pub proof fn lemma_form_encode_safe(s: Seq<char>)
    requires
        form_safe(s),
    ensures
        form_encode_bytes(encode_utf8(s)) == s,
{
    assert(vstd::utf8::is_ascii_chars(s));
    vstd::utf8::is_ascii_chars_encode_utf8(s);
    lemma_form_encode_bytes_safe(s, encode_utf8(s));
}

proof fn lemma_form_encode_bytes_safe(s: Seq<char>, b: Seq<u8>)
    requires
        form_safe(s),
        b.len() == s.len(),
        forall|i: int| 0 <= i < s.len() ==> s[i] as u8 == b[i],
    ensures
        form_encode_bytes(b) == s,
    decreases s.len(),
{
    if s.len() > 0 {
        let c = s[0];
        assert(form_safe_char(c));
        assert(b[0] == c as u8);
        assert(form_encode_byte(b[0]) == seq![c]);
        assert(form_safe(s.drop_first())) by {
            assert forall|i: int| 0 <= i < s.drop_first().len() implies form_safe_char(#[trigger] s.drop_first()[i]) by {
                assert(s.drop_first()[i] == s[i + 1]);
            }
        }
        lemma_form_encode_bytes_safe(s.drop_first(), b.drop_first());
        assert(s == seq![c] + s.drop_first());
    }
}

/// Decimal text is safe from form-urlencoding.
pub proof fn lemma_decimal_form_safe(n: nat)
    ensures
        form_safe(decimal(n)),
    decreases n,
{
    if n >= 10 {
        lemma_decimal_form_safe(n / 10);
        let d = decimal(n / 10);
        assert forall|i: int| 0 <= i < decimal(n).len() implies form_safe_char(#[trigger] decimal(n)[i]) by {
            if i < d.len() {
                assert(decimal(n)[i] == d[i]);
            }
        }
    }
}

/// The URL of a page of favorite albums, with its query written out: the
/// parameters need no encoding.
pub open spec fn favorite_albums_plain_url(offset: Option<u32>, limit: Option<u32>) -> Seq<char> {
    QOBUZ_API_BASE_URL@ + "/favorite/getUserFavorites"@ + seq!['?'] + "offset"@ + seq!['='] + decimal(
        offset_or_default(offset),
    ) + seq!['&'] + "limit"@ + seq!['='] + decimal(limit_or_default(limit)) + seq!['&'] + "type"@ + seq!['=']
        + "albums"@
}

/// The favorite albums' URL is its endpoint followed by `?offset=<offset>&limit=<limit>&type=albums`.
pub proof fn lemma_favorite_albums_url_plain(offset: Option<u32>, limit: Option<u32>)
    ensures
        favorite_albums_url(offset, limit) == favorite_albums_plain_url(offset, limit),
{
    reveal_strlit("offset");
    reveal_strlit("limit");
    reveal_strlit("type");
    reveal_strlit("albums");
    let o = decimal(offset_or_default(offset));
    let l = decimal(limit_or_default(limit));
    lemma_decimal_form_safe(offset_or_default(offset));
    lemma_decimal_form_safe(limit_or_default(limit));
    lemma_form_encode_safe("offset"@);
    lemma_form_encode_safe("limit"@);
    lemma_form_encode_safe("type"@);
    lemma_form_encode_safe("albums"@);
    lemma_form_encode_safe(o);
    lemma_form_encode_safe(l);
    let pairs = seq![("offset"@, o), ("limit"@, l), ("type"@, "albums"@)];
    assert(pairs.drop_last().drop_last() =~= seq![("offset"@, o)]);
    assert(pairs.drop_last() =~= seq![("offset"@, o), ("limit"@, l)]);
    assert(encoded_query(seq![("offset"@, o)]) == "offset"@ + seq!['='] + o);
    assert(encoded_query(pairs.drop_last()) == encoded_query(seq![("offset"@, o)]) + seq!['&'] + encoded_pair(("limit"@, l)));
    assert(favorite_albums_url(offset, limit) =~= favorite_albums_plain_url(offset, limit));
}

/// The decimal text of `n`.
fn decimal_string(n: u64) -> (r: String)
    ensures
        r@ == decimal(n as nat),
{
    let mut out: Vec<char> = Vec::new();
    push_decimal(&mut out, n);
    assert(out@ == decimal(n as nat));
    string_from_chars(&out)
}

/// The header value `Bearer <token>`.
fn bearer_of(token: &str) -> (r: String)
    ensures
        r@ == bearer(token@),
{
    let mut out: Vec<char> = Vec::new();
    push_str(&mut out, "Bearer ");
    push_str(&mut out, token);
    string_from_chars(&out)
}

/// The request for a page of the user's favorite albums (`offset` 0 and
/// `limit` 100 unless given); there is none without an access token.
pub fn favorite_albums_request(
    offset: Option<u32>,
    limit: Option<u32>,
    access_token: Option<String>,
) -> (r: Result<QobuzRequest, QobuzFavoriteAlbumsError>)
    ensures
        match access_token {
            Some(t) => r matches Ok(req) && req.url@ == favorite_albums_url(offset, limit)
                && req.url@ == favorite_albums_plain_url(offset, limit)
                && req.auth_header_value@ == bearer(t@),
            None => r matches Err(QobuzFavoriteAlbumsError::NoAccessTokenAvailable),
        },
{
    let token = match access_token {
        Some(t) => t,
        None => {
            return Err(QobuzFavoriteAlbumsError::NoAccessTokenAvailable);
        },
    };
    let o = decimal_string(match offset { Some(o) => o, None => 0 } as u64);
    let l = decimal_string(match limit { Some(l) => l, None => 100 } as u64);
    let endpoint = QobuzApiEndpoint::FavoriteAlbums.to_url();
    let no_params: [(&str, &str); 0] = [];
    let base = replace_all(endpoint.as_str(), &no_params);
    let query = [("offset", o.as_str()), ("limit", l.as_str()), ("type", "albums")];
    assert(text_pairs(no_params@) =~= Seq::<(Seq<char>, Seq<char>)>::empty());
    assert(text_pairs(query@) =~= seq![
        ("offset"@, decimal(offset_or_default(offset))),
        ("limit"@, decimal(limit_or_default(limit))),
        ("type"@, "albums"@),
    ]);
    let url = attach_query_string(base.as_str(), &query);
    proof {
        lemma_favorite_albums_url_plain(offset, limit);
    }
    Ok(QobuzRequest { url, auth_header_value: bearer_of(token.as_str()) })
}

/// The request for a page of an album's tracks; there is none without an access token.
pub fn album_tracks_request(
    album_id: &str,
    offset: Option<u32>,
    limit: Option<u32>,
    access_token: Option<String>,
) -> (r: Result<QobuzRequest, QobuzAlbumTracksError>)
    ensures
        match access_token {
            Some(t) => r matches Ok(req) && req.url@ == album_tracks_url(album_id@, offset, limit)
                && req.auth_header_value@ == bearer(t@),
            None => r matches Err(QobuzAlbumTracksError::NoAccessTokenAvailable),
        },
{
    let token = match access_token {
        Some(t) => t,
        None => {
            return Err(QobuzAlbumTracksError::NoAccessTokenAvailable);
        },
    };
    let o = decimal_string(match offset { Some(o) => o, None => 0 } as u64);
    let l = decimal_string(match limit { Some(l) => l, None => 100 } as u64);
    let endpoint = QobuzApiEndpoint::AlbumTracks.to_url();
    let params = [("album_id", album_id), ("offset", o.as_str()), ("limit", l.as_str())];
    assert(text_pairs(params@) =~= seq![
        ("album_id"@, album_id@),
        ("offset"@, decimal(offset_or_default(offset))),
        ("limit"@, decimal(limit_or_default(limit))),
    ]);
    let url = replace_all(endpoint.as_str(), &params);
    Ok(QobuzRequest { url, auth_header_value: bearer_of(token.as_str()) })
}

/// The URL of the web player's login page.
pub fn login_url() -> (r: String)
    ensures
        r@ == endpoint_url(QobuzApiEndpoint::Login),
{
    QobuzApiEndpoint::Login.to_url()
}

/// The URL of the app bundle of a version of the web player.
pub fn bundle_url(bundle_version: &str) -> (r: String)
    ensures
        r@ == replaced_all(endpoint_url(QobuzApiEndpoint::Bundle), seq![(":bundleVersion"@, bundle_version@)]),
{
    let endpoint = QobuzApiEndpoint::Bundle.to_url();
    let params = [(":bundleVersion", bundle_version)];
    assert(text_pairs(params@) =~= seq![(":bundleVersion"@, bundle_version@)]);
    replace_all(endpoint.as_str(), &params)
}

/// A page of results and the total number of items, which the API sends as
/// an integer and the client keeps as its low 32 bits.
pub fn page_of<T>(items: Vec<T>, total_number_of_items: u64) -> (r: (Vec<T>, u32))
    ensures
        r.0 == items,
        r.1 == total_number_of_items as u32,
        r.1 as int == total_number_of_items as int % 0x1_0000_0000,
{
    let count = total_number_of_items as u32;
    assert(count as int == total_number_of_items as int % 0x1_0000_0000) by (bit_vector)
        requires
            count == total_number_of_items as u32,
    ;
    (items, count)
}

/// Finds the web player's version in the login page.
pub const BUNDLE_VERSION_PATTERN: &'static str = r#"<script src="/resources/(\d+\.\d+\.\d+-[a-z]\d{3})/bundle\.js"></script>"#;

/// Finds the app id in the bundle.
pub const APP_ID_PATTERN: &'static str = r#"production:\{api:\{appId:"([^"]+)""#;

/// Finds each seed and the time zone it belongs to in the bundle.
pub const SEED_AND_TIMEZONE_PATTERN: &'static str = r#"[a-z]\.initialSeed\("([\w=]+)",window\.utimezone\.(.+?)\)"#;

/// Finds each time zone's name, info and extras in the bundle.
pub const INFO_AND_EXTRAS_PATTERN: &'static str = r#"name:"\w+/([^"]+)",info:"([\w=]+)",extras:"([\w=]+)""#;

/// The text of capture group `i`, if the group exists and took part in the match.
pub open spec fn group_text(groups: Seq<Option<Seq<char>>>, i: int) -> Option<Seq<char>> {
    if 0 <= i < groups.len() {
        groups[i]
    } else {
        None
    }
}

/// The text of capture group `i` of `groups`.
fn group_of(groups: &Vec<Option<String>>, i: usize) -> (r: Option<String>)
    ensures
        match r {
            Some(t) => group_text(groups_view(*groups), i as int) == Some(t@),
            None => group_text(groups_view(*groups), i as int) is None,
        },
{
    if i < groups.len() {
        match &groups[i] {
            Some(t) => Some(t.clone()),
            None => None,
        }
    } else {
        None
    }
}

/// The web player's version as the login page names it: the first group of
/// the first match of `BUNDLE_VERSION_PATTERN`.
pub open spec fn bundle_version_in(login_source: Seq<char>) -> Option<Seq<char>> {
    match regex_first_match(BUNDLE_VERSION_PATTERN@, login_source) {
        Some(groups) => group_text(groups, 1),
        None => None,
    }
}

/// Searches the login page for the version of the web player's bundle.
pub fn search_bundle_version(login_source: &str) -> (r: Option<String>)
    ensures
        match r {
            Some(v) => bundle_version_in(login_source@) == Some(v@),
            None => bundle_version_in(login_source@) is None,
        },
{
    match regex_captures(BUNDLE_VERSION_PATTERN, login_source) {
        Some(groups) => group_of(&groups, 1),
        None => None,
    }
}

/// `value` with its first character upper-cased; `value` must not be empty.
pub fn capitalize(value: &str) -> (r: String)
    requires
        value@.len() > 0,
    ensures
        r@ == capitalized(value@),
{
    let mut v = chars_of(value);
    let c = char_uppercase_first(v[0]);
    v.set(0, c);
    string_from_chars(&v)
}

/// The app's id, and for each time zone the secret the app uses there.
#[derive(Debug)]
pub struct AppConfig {
    pub app_id: String,
    pub secrets: StringMap,
}

impl Clone for AppConfig {
    fn clone(&self) -> (r: Self)
        ensures
            r.app_id@ == self.app_id@,
            r.secrets@ == self.secrets@,
    {
        AppConfig { app_id: self.app_id.clone(), secrets: self.secrets.clone() }
    }
}

impl PartialEq for AppConfig {
    fn eq(&self, other: &Self) -> (r: bool) {
        self.app_id == other.app_id && self.secrets == other.secrets
    }
}

impl vstd::std_specs::cmp::PartialEqSpecImpl for AppConfig {
    open spec fn obeys_eq_spec() -> bool {
        true
    }

    open spec fn eq_spec(&self, other: &AppConfig) -> bool {
        self.app_id@ == other.app_id@ && self.secrets@ == other.secrets@
    }
}

/// The `(seed, time zone)` pairs of the seed matches, or `None` if a match
/// lacks either group.
pub open spec fn seed_pairs(matches: Seq<Seq<Option<Seq<char>>>>) -> Option<Seq<(Seq<char>, Seq<char>)>>
    decreases matches.len(),
{
    if matches.len() == 0 {
        Some(Seq::empty())
    } else {
        match (seed_pairs(matches.drop_last()), group_text(matches.last(), 1), group_text(matches.last(), 2)) {
            (Some(ps), Some(seed), Some(tz)) => Some(ps.push((seed, tz))),
            _ => None,
        }
    }
}

/// The `(name, info, extras)` triples of the info matches, or `None` if a
/// match lacks one of the groups.
pub open spec fn info_triples(matches: Seq<Seq<Option<Seq<char>>>>) -> Option<Seq<(Seq<char>, Seq<char>, Seq<char>)>>
    decreases matches.len(),
{
    if matches.len() == 0 {
        Some(Seq::empty())
    } else {
        match (
            info_triples(matches.drop_last()),
            group_text(matches.last(), 1),
            group_text(matches.last(), 2),
            group_text(matches.last(), 3),
        ) {
            (Some(ts), Some(name), Some(info), Some(extras)) => Some(ts.push((name, info, extras))),
            _ => None,
        }
    }
}

/// The info of the first triple whose name begins with `prefix`.
pub open spec fn info_for(infos: Seq<(Seq<char>, Seq<char>, Seq<char>)>, prefix: Seq<char>) -> Option<Seq<char>>
    decreases infos.len(),
{
    if infos.len() == 0 {
        None
    } else if has_prefix(infos[0].0, prefix) {
        Some(infos[0].1)
    } else {
        info_for(infos.drop_first(), prefix)
    }
}

/// How the search for the app's configuration ends.
pub enum AppConfigOutcome {
    NoAppId,
    NoSeedAndTimezone,
    NoInfoAndExtras,
    /// The search cannot go on: a time zone is empty, has no info, or the
    /// first 44 bytes of its seed and info are not whole characters.
    Stuck,
    Base64Failed,
    Utf8Failed,
    Found(Seq<char>, Map<Seq<char>, Seq<char>>),
}

/// The secrets of the time zones of `pairs`, added to `acc` in order: for each
/// pair, the first 44 bytes of its seed followed by the info of the first time
/// zone whose name begins with the capitalized time zone, base64-decoded, read
/// as UTF-8.
pub open spec fn secrets_from(
    pairs: Seq<(Seq<char>, Seq<char>)>,
    infos: Seq<(Seq<char>, Seq<char>, Seq<char>)>,
    app_id: Seq<char>,
    acc: Map<Seq<char>, Seq<char>>,
) -> AppConfigOutcome
    decreases pairs.len(),
{
    if pairs.len() == 0 {
        AppConfigOutcome::Found(app_id, acc)
    } else {
        let seed = pairs[0].0;
        let tz = pairs[0].1;
        if tz.len() == 0 {
            AppConfigOutcome::Stuck
        } else {
            match info_for(infos, capitalized(tz)) {
                None => AppConfigOutcome::Stuck,
                Some(info) => {
                    let b = encode_utf8(seed + info);
                    if b.len() < 44 || !is_char_boundary(b, 44) {
                        AppConfigOutcome::Stuck
                    } else {
                        match base64_standard_decoded(b.take(44)) {
                            None => AppConfigOutcome::Base64Failed,
                            Some(bytes) => if !valid_utf8(bytes) {
                                AppConfigOutcome::Utf8Failed
                            } else {
                                secrets_from(pairs.drop_first(), infos, app_id, acc.insert(tz, decode_utf8(bytes)))
                            },
                        }
                    }
                },
            }
        }
    }
}

/// How the search for the app's configuration ends, given the matches of
/// the app id, of the seeds and of the time zones' infos.
pub open spec fn app_config_outcome(
    app: Option<Seq<Option<Seq<char>>>>,
    seeds: Seq<Seq<Option<Seq<char>>>>,
    infos: Seq<Seq<Option<Seq<char>>>>,
) -> AppConfigOutcome {
    let app_id = match app {
        Some(g) => group_text(g, 1),
        None => None,
    };
    match app_id {
        None => AppConfigOutcome::NoAppId,
        Some(id) => match seed_pairs(seeds) {
            None => AppConfigOutcome::NoSeedAndTimezone,
            Some(pairs) => if pairs.len() == 0 {
                AppConfigOutcome::NoSeedAndTimezone
            } else {
                match info_triples(infos) {
                    None => AppConfigOutcome::NoInfoAndExtras,
                    Some(triples) => if triples.len() == 0 {
                        AppConfigOutcome::NoInfoAndExtras
                    } else {
                        secrets_from(pairs, triples, id, Map::empty())
                    },
                }
            },
        },
    }
}

/// Whether `r` is what a search that ends in `outcome` gives.
pub open spec fn answers(
    outcome: AppConfigOutcome,
    r: Option<Result<AppConfig, QobuzFetchAppSecretsError>>,
) -> bool {
    match outcome {
        AppConfigOutcome::NoAppId => r matches Some(Err(QobuzFetchAppSecretsError::NoAppId)),
        AppConfigOutcome::NoSeedAndTimezone => r matches Some(Err(QobuzFetchAppSecretsError::NoSeedAndTimezone)),
        AppConfigOutcome::NoInfoAndExtras => r matches Some(Err(QobuzFetchAppSecretsError::NoInfoAndExtras)),
        AppConfigOutcome::Stuck => r is None,
        AppConfigOutcome::Base64Failed => r matches Some(Err(QobuzFetchAppSecretsError::Base64Decode(_))),
        AppConfigOutcome::Utf8Failed => r matches Some(Err(QobuzFetchAppSecretsError::Utf8(_))),
        AppConfigOutcome::Found(id, secrets) => r matches Some(Ok(c)) && c.app_id@ == id && c.secrets@ == secrets,
    }
}

/// The match groups of a list of matches.
pub open spec fn matches_view(ms: Vec<Vec<Option<String>>>) -> Seq<Seq<Option<Seq<char>>>> {
    ms@.map_values(|g: Vec<Option<String>>| groups_view(g))
}

/// The match groups of an optional match.
pub open spec fn match_view(m: Option<Vec<Option<String>>>) -> Option<Seq<Option<Seq<char>>>> {
    match m {
        Some(g) => Some(groups_view(g)),
        None => None,
    }
}

/// The `(seed, time zone)` pairs of the seed matches.
fn collect_seed_pairs(seeds: &Vec<Vec<Option<String>>>) -> (r: Option<Vec<(String, String)>>)
    ensures
        match seed_pairs(matches_view(*seeds)) {
            Some(ps) => r matches Some(v) && v@.len() == ps.len() && forall|i: int| 0 <= i < ps.len() ==>
                (#[trigger] v@[i]).0@ == ps[i].0 && v@[i].1@ == ps[i].1,
            None => r is None,
        },
{
    let ghost ms = matches_view(*seeds);
    let mut out: Vec<(String, String)> = Vec::new();
    let mut i: usize = 0;
    assert(ms.take(0) =~= Seq::<Seq<Option<Seq<char>>>>::empty());
    while i < seeds.len()
        invariant
            i <= seeds@.len(),
            ms == matches_view(*seeds),
            seed_pairs(ms.take(i as int)) matches Some(ps) && out@.len() == ps.len() && forall|j: int|
                0 <= j < ps.len() ==> (#[trigger] out@[j]).0@ == ps[j].0 && out@[j].1@ == ps[j].1,
        decreases seeds@.len() - i,
    {
        let ghost prev = seed_pairs(ms.take(i as int)).unwrap();
        assert(ms.take(i + 1).drop_last() == ms.take(i as int));
        assert(ms.take(i + 1).last() == groups_view(seeds@[i as int]));
        let seed = match group_of(&seeds[i], 1) {
            Some(t) => t,
            None => {
                proof {
                    lemma_seed_pairs_none_extends(ms, i as int + 1);
                }
                return None;
            },
        };
        let tz = match group_of(&seeds[i], 2) {
            Some(t) => t,
            None => {
                proof {
                    lemma_seed_pairs_none_extends(ms, i as int + 1);
                }
                return None;
            },
        };
        let ghost sv = seed@;
        let ghost tv = tz@;
        let ghost last = ms.take(i + 1).last();
        assert(group_text(last, 1) == Some(sv));
        assert(group_text(last, 2) == Some(tv));
        assert(seed_pairs(ms.take(i + 1)) == Some(prev.push((sv, tv))));
        out.push((seed, tz));
        i = i + 1;
    }
    assert(ms.take(seeds@.len() as int) == ms);
    Some(out)
}

/// Once a prefix of the matches lacks a group, so do all the matches.
proof fn lemma_seed_pairs_none_extends(ms: Seq<Seq<Option<Seq<char>>>>, k: int)
    requires
        0 <= k <= ms.len(),
        seed_pairs(ms.take(k)) is None,
    ensures
        seed_pairs(ms) is None,
    decreases ms.len() - k,
{
    if k < ms.len() {
        assert(ms.take(k + 1).drop_last() == ms.take(k));
        lemma_seed_pairs_none_extends(ms, k + 1);
    } else {
        assert(ms.take(k) == ms);
    }
}

/// Once a prefix of the matches lacks a group, so do all the matches.
proof fn lemma_info_triples_none_extends(ms: Seq<Seq<Option<Seq<char>>>>, k: int)
    requires
        0 <= k <= ms.len(),
        info_triples(ms.take(k)) is None,
    ensures
        info_triples(ms) is None,
    decreases ms.len() - k,
{
    if k < ms.len() {
        assert(ms.take(k + 1).drop_last() == ms.take(k));
        lemma_info_triples_none_extends(ms, k + 1);
    } else {
        assert(ms.take(k) == ms);
    }
}

/// The `(name, info, extras)` triples of the info matches.
fn collect_info_triples(infos: &Vec<Vec<Option<String>>>) -> (r: Option<Vec<(String, String, String)>>)
    ensures
        match info_triples(matches_view(*infos)) {
            Some(ts) => r matches Some(v) && v@.len() == ts.len() && forall|i: int| 0 <= i < ts.len() ==>
                (#[trigger] v@[i]).0@ == ts[i].0 && v@[i].1@ == ts[i].1 && v@[i].2@ == ts[i].2,
            None => r is None,
        },
{
    let ghost ms = matches_view(*infos);
    let mut out: Vec<(String, String, String)> = Vec::new();
    let mut i: usize = 0;
    assert(ms.take(0) =~= Seq::<Seq<Option<Seq<char>>>>::empty());
    while i < infos.len()
        invariant
            i <= infos@.len(),
            ms == matches_view(*infos),
            info_triples(ms.take(i as int)) matches Some(ts) && out@.len() == ts.len() && forall|j: int|
                0 <= j < ts.len() ==> (#[trigger] out@[j]).0@ == ts[j].0 && out@[j].1@ == ts[j].1
                    && out@[j].2@ == ts[j].2,
        decreases infos@.len() - i,
    {
        let ghost prev = info_triples(ms.take(i as int)).unwrap();
        assert(ms.take(i + 1).drop_last() == ms.take(i as int));
        assert(ms.take(i + 1).last() == groups_view(infos@[i as int]));
        let name = match group_of(&infos[i], 1) {
            Some(t) => t,
            None => {
                proof {
                    lemma_info_triples_none_extends(ms, i as int + 1);
                }
                return None;
            },
        };
        let info = match group_of(&infos[i], 2) {
            Some(t) => t,
            None => {
                proof {
                    lemma_info_triples_none_extends(ms, i as int + 1);
                }
                return None;
            },
        };
        let extras = match group_of(&infos[i], 3) {
            Some(t) => t,
            None => {
                proof {
                    lemma_info_triples_none_extends(ms, i as int + 1);
                }
                return None;
            },
        };
        let ghost nv = name@;
        let ghost iv = info@;
        let ghost ev = extras@;
        let ghost last = ms.take(i + 1).last();
        assert(group_text(last, 1) == Some(nv));
        assert(group_text(last, 2) == Some(iv));
        assert(group_text(last, 3) == Some(ev));
        assert(info_triples(ms.take(i + 1)) == Some(prev.push((nv, iv, ev))));
        out.push((name, info, extras));
        i = i + 1;
    }
    assert(ms.take(infos@.len() as int) == ms);
    Some(out)
}

/// The triples as text.
pub open spec fn triples_view(v: Seq<(String, String, String)>) -> Seq<(Seq<char>, Seq<char>, Seq<char>)> {
    v.map_values(|t: (String, String, String)| (t.0@, t.1@, t.2@))
}

/// The info of the first triple whose name begins with `prefix`.
fn find_info(infos: &Vec<(String, String, String)>, prefix: &Vec<char>) -> (r: Option<String>)
    ensures
        match info_for(triples_view(infos@), prefix@) {
            Some(info) => r matches Some(t) && t@ == info,
            None => r is None,
        },
{
    let ghost ts = triples_view(infos@);
    let mut i: usize = 0;
    assert(ts.skip(0) == ts);
    while i < infos.len()
        invariant
            i <= infos@.len(),
            ts == triples_view(infos@),
            info_for(ts, prefix@) == info_for(ts.skip(i as int), prefix@),
        decreases infos@.len() - i,
    {
        let name = chars_of(infos[i].0.as_str());
        assert(ts.skip(i as int)[0] == ts[i as int]);
        if starts_with(&name, prefix) {
            return Some(infos[i].1.clone());
        }
        assert(ts.skip(i as int).drop_first() == ts.skip(i + 1));
        i = i + 1;
    }
    None
}

/// The app's configuration from the matches of the app id, of the seeds and
/// of the time zones' infos: the app id, and for each seed (in order) the
/// secret of its time zone, a later seed of the same time zone replacing an
/// earlier one. `None` where the search cannot go on (`Stuck`).
pub fn app_config_from_matches(
    app: Option<Vec<Option<String>>>,
    seeds: Vec<Vec<Option<String>>>,
    infos: Vec<Vec<Option<String>>>,
) -> (r: Option<Result<AppConfig, QobuzFetchAppSecretsError>>)
    ensures
        answers(app_config_outcome(match_view(app), matches_view(seeds), matches_view(infos)), r),
{
    let app_id = match &app {
        Some(g) => group_of(g, 1),
        None => None,
    };
    let app_id = match app_id {
        Some(id) => id,
        None => {
            return Some(Err(QobuzFetchAppSecretsError::NoAppId));
        },
    };
    let pairs = match collect_seed_pairs(&seeds) {
        Some(ps) => ps,
        None => {
            return Some(Err(QobuzFetchAppSecretsError::NoSeedAndTimezone));
        },
    };
    if pairs.len() == 0 {
        return Some(Err(QobuzFetchAppSecretsError::NoSeedAndTimezone));
    }
    let triples = match collect_info_triples(&infos) {
        Some(ts) => ts,
        None => {
            return Some(Err(QobuzFetchAppSecretsError::NoInfoAndExtras));
        },
    };
    if triples.len() == 0 {
        return Some(Err(QobuzFetchAppSecretsError::NoInfoAndExtras));
    }
    let ghost ps = seed_pairs(matches_view(seeds)).unwrap();
    let ghost ts = info_triples(matches_view(infos)).unwrap();
    assert(triples_view(triples@) =~= ts);
    assert(app_config_outcome(match_view(app), matches_view(seeds), matches_view(infos)) == secrets_from(
        ps,
        ts,
        app_id@,
        Map::empty(),
    ));
    let mut secrets = StringMap::new();
    let mut i: usize = 0;
    assert(ps.skip(0) == ps);
    while i < pairs.len()
        invariant
            i <= pairs@.len(),
            pairs@.len() == ps.len(),
            forall|j: int| 0 <= j < ps.len() ==> (#[trigger] pairs@[j]).0@ == ps[j].0 && pairs@[j].1@ == ps[j].1,
            triples_view(triples@) == ts,
            secrets_from(ps, ts, app_id@, Map::empty()) == secrets_from(ps.skip(i as int), ts, app_id@, secrets@),
            app_config_outcome(match_view(app), matches_view(seeds), matches_view(infos)) == secrets_from(
                ps,
                ts,
                app_id@,
                Map::empty(),
            ),
        decreases pairs@.len() - i,
    {
        let ghost rest = ps.skip(i as int);
        assert(rest[0] == ps[i as int]);
        assert(rest.drop_first() == ps.skip(i + 1));
        let seed = &pairs[i].0;
        let tz = &pairs[i].1;
        let tz_chars = chars_of(tz.as_str());
        if tz_chars.len() == 0 {
            return None;
        }
        let prefix = chars_of(capitalize(tz.as_str()).as_str());
        let info = match find_info(&triples, &prefix) {
            Some(info) => info,
            None => {
                return None;
            },
        };
        let mut joined = chars_of(seed.as_str());
        push_str(&mut joined, info.as_str());
        let secret_base64 = string_from_chars(&joined);
        let text = secret_base64.as_str();
        assert(text@ == seed@ + info@);
        let all_bytes = text.as_bytes();
        if all_bytes.len() < 44 {
            return None;
        }
        if !text.is_char_boundary(44) {
            return None;
        }
        let (head, _) = text.split_at(44);
        let head_bytes = head.as_bytes();
        assert(head_bytes@ == encode_utf8(seed@ + info@).take(44));
        let bytes = match base64_decode(head_bytes) {
            Ok(b) => b,
            Err(e) => {
                return Some(Err(QobuzFetchAppSecretsError::Base64Decode(e)));
            },
        };
        let secret = match utf8_string(bytes.as_slice()) {
            Ok(t) => t,
            Err(e) => {
                return Some(Err(QobuzFetchAppSecretsError::Utf8(e)));
            },
        };
        secrets.insert(tz.clone(), secret);
        i = i + 1;
    }
    Some(Ok(AppConfig { app_id, secrets }))
}

/// Searches the web player's bundle for the app's id and secrets: the app id
/// in the first match of `APP_ID_PATTERN`, the seeds and time zones in the
/// matches of `SEED_AND_TIMEZONE_PATTERN`, and the time zones' infos in those
/// of `INFO_AND_EXTRAS_PATTERN`. `None` where the search cannot go on.
pub fn search_app_config(bundle: &str) -> (r: Option<Result<AppConfig, QobuzFetchAppSecretsError>>)
    ensures
        answers(
            app_config_outcome(
                regex_first_match(APP_ID_PATTERN@, bundle@),
                regex_all_matches(SEED_AND_TIMEZONE_PATTERN@, bundle@),
                regex_all_matches(INFO_AND_EXTRAS_PATTERN@, bundle@),
            ),
            r,
        ),
{
    let app = regex_captures(APP_ID_PATTERN, bundle);
    let seeds = regex_captures_all(SEED_AND_TIMEZONE_PATTERN, bundle);
    let infos = regex_captures_all(INFO_AND_EXTRAS_PATTERN, bundle);
    assert(match_view(app) == regex_first_match(APP_ID_PATTERN@, bundle@));
    assert(matches_view(seeds) =~= regex_all_matches(SEED_AND_TIMEZONE_PATTERN@, bundle@));
    assert(matches_view(infos) =~= regex_all_matches(INFO_AND_EXTRAS_PATTERN@, bundle@));
    app_config_from_matches(app, seeds, infos)
}

} // verus!
