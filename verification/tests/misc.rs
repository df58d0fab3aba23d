use moosicbox::artist_cover::{
    library_cover, remote_cover_url, remote_source_name, ArtistCoverError, ArtistCoverSource, ArtistId,
};
use moosicbox::html::{background_style, partial_html, root_html, route_attrs, Rgb, Route, SwapTarget};
use moosicbox::ogg_stream::{packet_end_info, packet_end_name, OpusPacketBuffer, PacketEnd, OPUS_STREAM_SERIAL};
use moosicbox::string_map::StringMap;
use moosicbox::tunnel::{plan_tunnel, tunnel_host_of, tunnel_message_action, TunnelMessage, TunnelMessageAction, TunnelPlan};
use moosicbox::ui::{
    albums_list_header, albums_list_url, artist_cover_url, artist_page_url, play_queue_history_len, server_id_text,
};

#[test]
fn string_map_insert_get() {
    let mut m = StringMap::new();
    assert_eq!(m.len(), 0);
    m.insert("a".into(), "1".into());
    m.insert("b".into(), "2".into());
    m.insert("a".into(), "3".into());
    assert_eq!(m.len(), 2);
    assert_eq!(m.get("a").map(|s| s.as_str()), Some("3"));
    assert_eq!(m.get("b").map(|s| s.as_str()), Some("2"));
    assert_eq!(m.get("c"), None);
    let entries: Vec<(String, String)> = m.entries().clone();
    assert_eq!(entries, vec![("a".to_string(), "3".to_string()), ("b".to_string(), "2".to_string())]);
    let copy = m.clone();
    assert_eq!(copy.get("a").map(|s| s.as_str()), Some("3"));
    assert_eq!(copy, m);
    let mut reordered = StringMap::new();
    reordered.insert("b".into(), "2".into());
    reordered.insert("a".into(), "3".into());
    assert_eq!(reordered, m);
    reordered.insert("a".into(), "4".into());
    assert_ne!(reordered, m);
    let mut smaller = StringMap::new();
    smaller.insert("a".into(), "3".into());
    assert_ne!(smaller, m);
}

#[test]
fn ogg_stream_holds_back_last_packet() {
    let mut buf = OpusPacketBuffer::new();
    assert_eq!(buf.serial(), OPUS_STREAM_SERIAL);
    assert_eq!(OPUS_STREAM_SERIAL, 2873470314);
    let (first, n) = buf.write(&[1, 2, 3]);
    assert!(first.is_none());
    assert_eq!(n, 3);
    let (second, n) = buf.write(&[4]);
    assert_eq!(n, 1);
    let second = second.unwrap();
    assert_eq!(second.content, vec![1, 2, 3]);
    assert_eq!(second.info, PacketEnd::NormalPacket);
    assert_eq!((second.absgp, second.packet_num, second.page_num), (0, 0, 0));
    let last = buf.flush().unwrap();
    assert_eq!(last.content, vec![4]);
    assert_eq!(last.info, PacketEnd::EndStream);
    assert!(buf.flush().is_none());
}

#[test]
fn ogg_packet_end_for_read_packets() {
    assert_eq!(packet_end_info(true, true), PacketEnd::EndStream);
    assert_eq!(packet_end_info(false, true), PacketEnd::EndPage);
    assert_eq!(packet_end_info(false, false), PacketEnd::NormalPacket);
    assert_eq!(packet_end_name(PacketEnd::EndStream), "end_stream");
    assert_eq!(packet_end_name(PacketEnd::EndPage), "end_page");
    assert_eq!(packet_end_name(PacketEnd::NormalPacket), "normal");
}

#[test]
fn tunnel_host_from_ws_url() {
    assert_eq!(tunnel_host_of("wss", "tunnel.example.com", None), "https://tunnel.example.com");
    assert_eq!(tunnel_host_of("ws", "localhost", Some(8004)), "http://localhost:8004");
    assert_eq!(plan_tunnel(None), Some(TunnelPlan::Disabled));
    assert_eq!(plan_tunnel(Some("")), Some(TunnelPlan::Disabled));
    assert_eq!(
        plan_tunnel(Some("wss://tunnel.example.com/ws")),
        Some(TunnelPlan::Connect {
            host: "https://tunnel.example.com".into(),
            ws_url: "wss://tunnel.example.com/ws".into()
        })
    );
    assert_eq!(
        plan_tunnel(Some("ws://127.0.0.1:8004/ws")),
        Some(TunnelPlan::Connect { host: "http://127.0.0.1:8004".into(), ws_url: "ws://127.0.0.1:8004/ws".into() })
    );
    // The default port of a scheme is not written.
    assert_eq!(
        plan_tunnel(Some("wss://example.com:443/ws")),
        Some(TunnelPlan::Connect { host: "https://example.com".into(), ws_url: "wss://example.com:443/ws".into() })
    );
    assert_eq!(plan_tunnel(Some("not a url")), None);
    assert_eq!(plan_tunnel(Some("mailto:someone@example.com")), None);
}

#[test]
fn tunnel_message_actions() {
    assert_eq!(
        tunnel_message_action(TunnelMessage::Text("{}".into())),
        TunnelMessageAction::HandleRequest("{}".into())
    );
    assert_eq!(tunnel_message_action(TunnelMessage::Ping(vec![])), TunnelMessageAction::Ignore);
    assert_eq!(tunnel_message_action(TunnelMessage::Pong(vec![1])), TunnelMessageAction::Ignore);
    assert_eq!(tunnel_message_action(TunnelMessage::Close), TunnelMessageAction::Closed);
}

fn attrs(route: Route) -> Vec<(String, String)> {
    route_attrs(&route)
}

#[test]
fn htmx_attributes() {
    assert_eq!(
        attrs(Route::Get { route: "/x".into(), trigger: None, swap: SwapTarget::This }),
        vec![("hx-swap".to_string(), "outerHTML".to_string()), ("hx-get".to_string(), "/x".to_string())]
    );
    assert_eq!(
        attrs(Route::Post { route: "/y".into(), trigger: Some("load".into()), swap: SwapTarget::Children }),
        vec![
            ("hx-swap".to_string(), "innerHTML".to_string()),
            ("hx-swap".to_string(), "outerHTML".to_string()),
            ("hx-post".to_string(), "/y".to_string()),
            ("hx-trigger".to_string(), "load".to_string())
        ]
    );
}

#[test]
fn page_html() {
    assert_eq!(root_html(true, "<p/>".into(), None), "<p/>");
    let page = root_html(false, "<p/>".into(), Some(Rgb { r: 1, g: 20, b: 255 }));
    assert!(page.starts_with("\n                <html>"));
    assert!(page.contains("margin: 0;background:rgb(1,20,255);\n"));
    assert!(page.contains("<body><p/></body>"));
    let plain = root_html(false, "c".into(), None);
    assert!(plain.contains("margin: 0;;\n"));
    assert_eq!(background_style(None), "");
    assert_eq!(background_style(Some(Rgb { r: 0, g: 0, b: 0 })), "background:rgb(0,0,0)");
    assert_eq!(partial_html(".a{}", "<b/>"), ".a{}\n\n<b/>");
}

#[test]
fn ui_urls_and_text() {
    assert_eq!(
        artist_cover_url(None, 12, 266, 266),
        "http://localhost:8500/files/artists/12/266x266?moosicboxProfile=master"
    );
    assert_eq!(
        artist_cover_url(Some("https://h"), 1, 2, 3),
        "https://h/files/artists/1/2x3?moosicboxProfile=master"
    );
    assert_eq!(artist_page_url(42), "/artists?artistId=42");
    assert_eq!(
        albums_list_url("7", 200, "LIBRARY", "LP"),
        "/artists/albums-list?artistId=7&size=200&source=LIBRARY&albumType=LP"
    );
    assert_eq!(albums_list_header("Albums", "Library", true), "Albums in Library");
    assert_eq!(albums_list_header("Albums", "Tidal", false), "Albums on Tidal");
    assert_eq!(play_queue_history_len(5, 2), 2);
    assert_eq!(play_queue_history_len(5, 9), 5);
    assert_eq!(play_queue_history_len(0, 0), 0);
    assert_eq!(server_id_text(None), "(not set)");
    assert_eq!(server_id_text(Some("abc".into())), "abc");
}

#[test]
fn artist_cover_decisions() {
    assert_eq!(remote_source_name(ArtistId::Library(1)), None);
    assert_eq!(remote_source_name(ArtistId::Tidal(1)), Some("tidal"));
    assert_eq!(remote_source_name(ArtistId::Qobuz(1)), Some("qobuz"));
    assert_eq!(
        library_cover(ArtistId::Library(3), Some("/covers/3.jpg".into())).unwrap(),
        ArtistCoverSource::LocalFilePath("/covers/3.jpg".into())
    );
    assert!(matches!(
        library_cover(ArtistId::Library(3), None),
        Err(ArtistCoverError::NotFound(ArtistId::Library(3)))
    ));
    assert_eq!(remote_cover_url(ArtistId::Tidal(2), Some("u".into())).unwrap(), "u");
    assert!(matches!(
        remote_cover_url(ArtistId::Qobuz(2), None),
        Err(ArtistCoverError::NotFound(ArtistId::Qobuz(2)))
    ));
}
