//! Where an artist's cover is found: in the library, or fetched from a
//! streaming service into the cache.
use vstd::prelude::*;

verus! {

/// Where a cover can be read.
#[derive(Debug, Clone, PartialEq)]
pub enum ArtistCoverSource {
    LocalFilePath(String),
}

/// An artist, in the library or on a streaming service.
#[derive(Debug, Clone, Copy, PartialEq, Eq, Structural)]
pub enum ArtistId {
    Library(u64),
    Tidal(u64),
    Qobuz(u64),
}

/// Why a cover could not be fetched from a remote URL.
#[derive(Debug)]
pub enum FetchArtistCoverError {
    Reqwest(reqwest::Error),
    Io(std::io::Error),
    FetchAndSaveBytesFromRemoteUrl(String),
}

/// Why an artist's cover could not be found.
#[derive(Debug)]
pub enum ArtistCoverError {
    NotFound(ArtistId),
    InvalidSource,
    Db(String),
    FetchArtistCover(FetchArtistCoverError),
    TidalArtist(String),
    QobuzArtist(String),
    File(String, String),
}

/// The cache directory a remote cover goes to: the service's name.
pub fn remote_source_name(artist_id: ArtistId) -> (r: Option<&'static str>)
    ensures
        artist_id is Library ==> r is None,
        artist_id is Tidal ==> (r matches Some(s) && s@ == "tidal"@),
        artist_id is Qobuz ==> (r matches Some(s) && s@ == "qobuz"@),
{
    match artist_id {
        ArtistId::Library(_) => None,
        ArtistId::Tidal(_) => Some("tidal"),
        ArtistId::Qobuz(_) => Some("qobuz"),
    }
}

/// A library artist's cover: the file the library holds, or `NotFound`.
pub fn library_cover(artist_id: ArtistId, cover: Option<String>) -> (r: Result<ArtistCoverSource, ArtistCoverError>)
    ensures
        match cover {
            Some(c) => r == Ok::<ArtistCoverSource, ArtistCoverError>(ArtistCoverSource::LocalFilePath(c)),
            None => r matches Err(ArtistCoverError::NotFound(id)) && id == artist_id,
        },
{
    match cover {
        Some(c) => Ok(ArtistCoverSource::LocalFilePath(c)),
        None => Err(ArtistCoverError::NotFound(artist_id)),
    }
}

/// The URL of a streaming artist's picture, or `NotFound` if the artist has none.
pub fn remote_cover_url(artist_id: ArtistId, picture_url: Option<String>) -> (r: Result<String, ArtistCoverError>)
    ensures
        match picture_url {
            Some(u) => r == Ok::<String, ArtistCoverError>(u),
            None => r matches Err(ArtistCoverError::NotFound(id)) && id == artist_id,
        },
{
    match picture_url {
        Some(u) => Ok(u),
        None => Err(ArtistCoverError::NotFound(artist_id)),
    }
}

} // verus!
