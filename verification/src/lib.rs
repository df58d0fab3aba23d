pub mod artist_cover;
pub mod download;
pub mod html;
pub mod ogg_stream;
pub mod qobuz;
pub mod router;
pub mod string_map;
pub mod text;
pub mod trusted;
pub mod tunnel;
pub mod ui;
