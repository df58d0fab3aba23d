//! The text that the native app's pages compute: URLs of artist pages,
//! covers and album lists, headers, and the split of the play queue.
use vstd::prelude::*;

use crate::text::{decimal, push_decimal, push_str, string_from_chars};

verus! {

/// The server the app talks to when `MOOSICBOX_HOST` is not set.
pub const DEFAULT_HOST: &'static str = "http://localhost:8500";

/// The server the app talks to: `MOOSICBOX_HOST`, or the default.
pub open spec fn host_or_default(host: Option<Seq<char>>) -> Seq<char> {
    match host {
        Some(h) => h,
        None => DEFAULT_HOST@,
    }
}

/// The URL of an artist's cover at `width` by `height` pixels, on the server.
pub open spec fn artist_cover_url_text(host: Option<Seq<char>>, artist_id: u64, width: u16, height: u16) -> Seq<char> {
    host_or_default(host) + "/files/artists/"@ + decimal(artist_id as nat) + seq!['/'] + decimal(width as nat)
        + seq!['x'] + decimal(height as nat) + "?moosicboxProfile=master"@
}

/// The URL of an artist's cover at `width` by `height` pixels, on `host`
/// (the default server when `host` is `None`).
pub fn artist_cover_url(host: Option<&str>, artist_id: u64, width: u16, height: u16) -> (r: String)
    ensures
        r@ == artist_cover_url_text(
            match host {
                Some(h) => Some(h@),
                None => None::<Seq<char>>,
            },
            artist_id,
            width,
            height,
        ),
{
    let mut out: Vec<char> = Vec::new();
    match host {
        Some(h) => push_str(&mut out, h),
        None => push_str(&mut out, DEFAULT_HOST),
    }
    push_str(&mut out, "/files/artists/");
    push_decimal(&mut out, artist_id);
    out.push('/');
    push_decimal(&mut out, width as u64);
    out.push('x');
    push_decimal(&mut out, height as u64);
    push_str(&mut out, "?moosicboxProfile=master");
    string_from_chars(&out)
}

/// The URL of an artist's page.
pub fn artist_page_url(artist_id: u64) -> (r: String)
    ensures
        r@ == "/artists?artistId="@ + decimal(artist_id as nat),
{
    let mut out: Vec<char> = Vec::new();
    push_str(&mut out, "/artists?artistId=");
    push_decimal(&mut out, artist_id);
    string_from_chars(&out)
}

/// The URL from which an artist's page loads one list of albums.
pub open spec fn albums_list_url_text(artist_id: Seq<char>, size: u16, source: Seq<char>, album_type: Seq<char>) -> Seq<char> {
    "/artists/albums-list?artistId="@ + artist_id + "&size="@ + decimal(size as nat) + "&source="@ + source
        + "&albumType="@ + album_type
}

/// Whatever the source, the albums-list URL names it: the URL is the artist and
/// size part, then `&source=` and the source, then `&albumType=` and the type.
pub proof fn lemma_albums_list_url_names_source(artist_id: Seq<char>, size: u16, source: Seq<char>, album_type: Seq<char>)
    ensures
        ({
            let u = albums_list_url_text(artist_id, size, source, album_type);
            let tail = "&source="@ + source + "&albumType="@ + album_type;
            &&& u.len() >= tail.len()
            &&& u.subrange(u.len() - tail.len(), u.len() as int) == tail
            &&& u.subrange(0, u.len() - tail.len()) == "/artists/albums-list?artistId="@ + artist_id + "&size="@
                + decimal(size as nat)
        }),
{
    let u = albums_list_url_text(artist_id, size, source, album_type);
    let head = "/artists/albums-list?artistId="@ + artist_id + "&size="@ + decimal(size as nat);
    let tail = "&source="@ + source + "&albumType="@ + album_type;
    assert(u =~= head + tail);
    assert((head + tail).subrange(head.len() as int, (head + tail).len() as int) =~= tail);
    assert((head + tail).subrange(0, head.len() as int) =~= head);
}

/// The URL from which an artist's page loads its albums of `album_type` from
/// `source`, with covers of `size` pixels.
pub fn albums_list_url(artist_id: &str, size: u16, source: &str, album_type: &str) -> (r: String)
    ensures
        r@ == albums_list_url_text(artist_id@, size, source@, album_type@),
        r@ == "/artists/albums-list?artistId="@ + artist_id@ + "&size="@ + decimal(size as nat) + "&source="@
            + source@ + "&albumType="@ + album_type@,
{
    let mut out: Vec<char> = Vec::new();
    push_str(&mut out, "/artists/albums-list?artistId=");
    push_str(&mut out, artist_id);
    push_str(&mut out, "&size=");
    push_decimal(&mut out, size as u64);
    push_str(&mut out, "&source=");
    push_str(&mut out, source);
    push_str(&mut out, "&albumType=");
    push_str(&mut out, album_type);
    string_from_chars(&out)
}

/// The header of a list of albums: `<type> in <source>` for the library,
/// `<type> on <source>` for a streaming service.
pub fn albums_list_header(album_type: &str, source: &str, is_library: bool) -> (r: String)
    ensures
        r@ == album_type@ + (if is_library { " in "@ } else { " on "@ }) + source@,
{
    let mut out: Vec<char> = Vec::new();
    push_str(&mut out, album_type);
    if is_library {
        push_str(&mut out, " in ");
    } else {
        push_str(&mut out, " on ");
    }
    push_str(&mut out, source);
    string_from_chars(&out)
}

/// How many tracks of a play queue of `len` tracks are history when playback
/// stands at `position`: those before it. The rest are still to play, the
/// first of them the one playing.
pub fn play_queue_history_len(len: usize, position: u16) -> (r: usize)
    ensures
        r as int == if (position as int) < len as int { position as int } else { len as int },
{
    if (position as usize) < len {
        position as usize
    } else {
        len
    }
}

/// The server's identity as the admin page shows it.
pub fn server_id_text(id: Option<String>) -> (r: String)
    ensures
        match id {
            Some(i) => r@ == i@,
            None => r@ == "(not set)"@,
        },
{
    match id {
        Some(i) => i,
        None => crate::text::to_string("(not set)"),
    }
}

} // verus!
