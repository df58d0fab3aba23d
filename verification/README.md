# moosicbox

A verified library of MoosicBox's logic, written in Verus, with the I/O and
asynchronous parts around it in `app/`.

- `src/router.rs` — navigation requests (path and query string) and the route
  table; the first route registered for a path handles it.
- `src/qobuz.rs` — the Qobuz client's models, request URLs and headers, and the
  search of the web player's login page and bundle for its version, app id and
  secrets.
- `src/download.rs` — the download queue's state and the steps by which a task
  is processed (marked started, downloaded, marked finished or failed, recorded).
- `src/ogg_stream.rs` — the packets of an Ogg Opus stream: each write is held
  back until the next, so the last packet can end the stream.
- `src/tunnel.rs`, `src/html.rs`, `src/ui.rs`, `src/artist_cover.rs` — the
  decisions and text of the tunnel setup, the vanilla-JS renderers, the native
  app's pages and the artist covers.
- `src/text.rs`, `src/string_map.rs` — text building (decimal numbers,
  `str::replace`) and a text map with distinct keys.
- `src/trusted.rs` — the calls into `qstring`, `url`, `regex`, `base64`,
  `reqwest`'s error type and parts of std, each with the contract it is trusted for.

`app/` holds the HTTP calls (reqwest), JSON reading (serde_json), the async
router and download queue (tokio, flume), Ogg file I/O, maud pages, and the
floating-point audio encoding.
