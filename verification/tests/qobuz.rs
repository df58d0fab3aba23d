use std::collections::HashMap;

use moosicbox::string_map::StringMap;

use moosicbox::qobuz::{
    album_tracks_request, attach_query_string, bundle_url, capitalize, favorite_albums_request,
    login_url, page_of, replace_all, search_app_config, search_bundle_version, AppConfig,
    QobuzAlbum, QobuzAlbumOrder, QobuzAlbumOrderDirection, QobuzAlbumTracksError, QobuzApiEndpoint, QobuzArtist, QobuzDeviceType,
    QobuzFavoriteAlbumsError, QobuzFetchAppSecretsError, QobuzImage, AUTH_HEADER_NAME,
};

static TEST_LOGIN_SOURCE: &str = r#"</script>
        <script src="/resources/7.1.3-b011/bundle.js"></script>
        </body>"#;
static TEST_BUNDLE_SOURCE: &str = r#"s,extra:o},production:{api:{appId:"123456789",appSecret{var e=window.__ENVIRONMENT__;return"recette"===e?d.initialSeed("YjBiMGIwYmQzYWRiMzNmY2Q2YTc0MD",window.utimezone.london):"integration"===e?d.initialSeed("MjBiMGIwYmQzYWRiMzNmY2Q2YTc0MD",window.utimezone.algier):d.initialSeed("MzBiMGIwYmQzYWRiMzNmY2Q2YTc0MD",window.utimezone.berlin)},d.string{offset:"GMT",name:"Europe/Dublin",info:"XXXXX",extras:"XXXXX"},{offset:"GMT",name:"Europe/Lisbon"},{offset:"GMT",name:"Europe/London",info:"VmMjU1NTU1NTU=YjBiMGIwYmQzMzMz",extras:"MzMzMzMzMzMzMDVmMjU4OTA1NTU="},{offset:"UTC",name:"UTC"},{offset:"GMT+01:00",name:"Africa/Algiers",info:"VmMjU1NTU1NTI=YjBiMGIwYmQzMzMz",extras:"MzMzMzMzMzMzMDVmMjU4OTA1NTU="},{offset:"GMT+01:00",name:"Africa/Windhoek"},{offset:"GMT+01:00",name:"Atlantic/Azores"},{offset:"GMT+01:00",name:"Atlantic/Stanley"},{offset:"GMT+01:00",name:"Europe/Amsterdam"},{offset:"GMT+01:00",name:"Europe/Paris",info:"XXXXX",extras:"XXXXX"},{offset:"GMT+01:00",name:"Europe/Belgrade"},{offset:"GMT+01:00",name:"Europe/Brussels"},{offset:"GMT+02:00",name:"Africa/Cairo"},{offset:"GMT+02:00",name:"Africa/Blantyre"},{offset:"GMT+02:00",name:"Asia/Beirut"},{offset:"GMT+02:00",name:"Asia/Damascus"},{offset:"GMT+02:00",name:"Asia/Gaza"},{offset:"GMT+02:00",name:"Asia/Jerusalem"},{offset:"GMT+02:00",name:"Europe/Berlin",info:"VmMjU1NTU1NTM=YjBiMGIwYmQzMzMz",extras:"MzMzMzMzMzMzMDVmMjU4OTA1NTU="},{offset:"GMT+03:00",name:"Africa/Addis_Ababa"},{offset:"GMT+03:00",name:"Asia/Riyadh89"},{offset:"GMT+03:00",name:"Europe/Minsk"},{offset:"GMT+03:30""#;

fn string_map<const N: usize>(pairs: [(String, String); N]) -> StringMap {
    let mut m = StringMap::new();
    for (k, v) in pairs {
        m.insert(k, v);
    }
    m
}

fn secrets_of(config: &AppConfig) -> HashMap<String, String> {
    config.secrets.entries().iter().cloned().collect()
}

#[test]
fn test_search_bundle_version() {
    let version = search_bundle_version(TEST_LOGIN_SOURCE).expect("Failed to search_bundle_version");

    assert_eq!(version, "7.1.3-b011");
}

#[test]
fn test_search_app_config() {
    let secrets = search_app_config(TEST_BUNDLE_SOURCE)
        .expect("The search of the bundle got stuck")
        .expect("Failed to search_app_config");

    assert_eq!(
        secrets,
        AppConfig {
            app_id: "123456789".to_string(),
            secrets: string_map([
                ("london".to_string(), "b0b0b0bd3adb33fcd6a7405f25555555".to_string()),
                ("algier".to_string(), "20b0b0bd3adb33fcd6a7405f25555552".to_string()),
                ("berlin".to_string(), "30b0b0bd3adb33fcd6a7405f25555553".to_string())
            ])
        }
    );
    assert_eq!(
        secrets_of(&secrets),
        HashMap::from([
            ("london".to_string(), "b0b0b0bd3adb33fcd6a7405f25555555".to_string()),
            ("algier".to_string(), "20b0b0bd3adb33fcd6a7405f25555552".to_string()),
            ("berlin".to_string(), "30b0b0bd3adb33fcd6a7405f25555553".to_string())
        ])
    );
}

#[test]
fn bundle_version_absent_from_page() {
    assert_eq!(search_bundle_version("<html><body>nothing here</body></html>"), None);
    assert_eq!(
        search_bundle_version(r#"<script src="/resources/7.1.3-bb011/bundle.js"></script>"#),
        None
    );
}

#[test]
fn app_config_without_app_id() {
    let r = search_app_config("no configuration at all").expect("not stuck");
    assert!(matches!(r, Err(QobuzFetchAppSecretsError::NoAppId)));
}

#[test]
fn app_config_without_seeds() {
    let r = search_app_config(r#"production:{api:{appId:"42""#).expect("not stuck");
    assert!(matches!(r, Err(QobuzFetchAppSecretsError::NoSeedAndTimezone)));
}

#[test]
fn app_config_without_infos() {
    let r = search_app_config(
        r#"production:{api:{appId:"42",x:d.initialSeed("YWJj",window.utimezone.london)"#,
    )
    .expect("not stuck");
    assert!(matches!(r, Err(QobuzFetchAppSecretsError::NoInfoAndExtras)));
}

#[test]
fn app_config_stuck_without_matching_time_zone() {
    // The time zone `london` has no info entry whose name starts with `London`.
    let r = search_app_config(
        r#"production:{api:{appId:"42",x:d.initialSeed("YWJj",window.utimezone.london),name:"Europe/Paris",info:"abc",extras:"def""#,
    );
    assert!(r.is_none());
}

#[test]
fn app_config_stuck_when_secret_too_short() {
    let r = search_app_config(
        r#"production:{api:{appId:"42",x:d.initialSeed("YWJj",window.utimezone.london),name:"Europe/London",info:"abc",extras:"def""#,
    );
    assert!(r.is_none());
}

#[test]
fn app_config_base64_error() {
    // 44 characters, but `*` is not base64; \w does not match `*`, so use `=` in the middle.
    let seed = "AAAA=AAAAAAAAAAAAAAAAAAAAAAAAA";
    let info = "AAAAAAAAAAAAAAAAAAAAAAAAAAAAAAAAA";
    let bundle = format!(
        r#"production:{{api:{{appId:"42",x:d.initialSeed("{seed}",window.utimezone.london),name:"Europe/London",info:"{info}",extras:"def""#
    );
    let r = search_app_config(&bundle).expect("not stuck");
    assert!(matches!(r, Err(QobuzFetchAppSecretsError::Base64Decode(_))));
}

#[test]
fn app_config_utf8_error() {
    // "gICA" decodes to the bytes 0x80 0x80 0x80, which are not UTF-8.
    let seed = "gICAgICAgICAgICAgICAgICAgICA";
    let info = "gICAgICAgICAgICAgICA";
    let bundle = format!(
        r#"production:{{api:{{appId:"42",x:d.initialSeed("{seed}",window.utimezone.london),name:"Europe/London",info:"{info}",extras:"def""#
    );
    let r = search_app_config(&bundle).expect("not stuck");
    assert!(matches!(r, Err(QobuzFetchAppSecretsError::Utf8(_))));
}

#[test]
fn app_config_later_seed_replaces_earlier() {
    let bundle = r#"production:{api:{appId:"7",a.initialSeed("YjBiMGIwYmQzYWRiMzNmY2Q2YTc0MD",window.utimezone.london),b.initialSeed("MzBiMGIwYmQzYWRiMzNmY2Q2YTc0MD",window.utimezone.london),name:"Europe/London",info:"VmMjU1NTU1NTU=YjBiMGIwYmQzMzMz",extras:"x""#;
    let config = search_app_config(bundle).expect("not stuck").expect("found");
    assert_eq!(config.app_id, "7");
    assert_eq!(config.secrets.len(), 1);
    assert_eq!(
        config.secrets.get("london").map(|s| s.as_str()),
        Some("30b0b0bd3adb33fcd6a7405f25555555")
    );
}

#[test]
fn capitalize_first_letter() {
    assert_eq!(capitalize("london"), "London");
    assert_eq!(capitalize("Berlin"), "Berlin");
    assert_eq!(capitalize("1abc"), "1abc");
    assert_eq!(capitalize("émile"), "Émile");
}

#[test]
fn endpoint_urls() {
    assert_eq!(QobuzApiEndpoint::Login.to_url(), "https://play.qobuz.com/login");
    assert_eq!(
        QobuzApiEndpoint::Bundle.to_url(),
        "https://play.qobuz.com/resources/:bundleVersion/bundle.js"
    );
    assert_eq!(
        QobuzApiEndpoint::FavoriteAlbums.to_url(),
        "https://www.qobuz.com/api.json/0.2/favorite/getUserFavorites"
    );
    assert_eq!(QobuzApiEndpoint::AlbumTracks.to_url(), "https://www.qobuz.com/api.json/0.2/album/get");
    assert_eq!(login_url(), "https://play.qobuz.com/login");
    assert_eq!(bundle_url("7.1.3-b011"), "https://play.qobuz.com/resources/7.1.3-b011/bundle.js");
}

#[test]
fn replace_all_in_order() {
    assert_eq!(replace_all("a-b-c", &[("-", "/")]), "a/b/c");
    assert_eq!(replace_all("abc", &[("a", "b"), ("b", "c")]), "ccc");
    assert_eq!(replace_all("abc", &[]), "abc");
    assert_eq!(replace_all("ab", &[("", "x")]), "xaxbx");
    assert_eq!(replace_all("aaa", &[("aa", "b")]), "ba");
}

#[test]
fn attach_query_string_encodes() {
    assert_eq!(
        attach_query_string("https://x/y", &[("offset", "0"), ("type", "a b&c")]),
        "https://x/y?offset=0&type=a+b%26c"
    );
    assert_eq!(attach_query_string("u", &[]), "u?");
    assert_eq!(attach_query_string("u", &[("é", "*-._~")]), "u?%C3%A9=*-._%7E");
}

#[test]
fn favorite_albums_request_url_and_header() {
    let req = favorite_albums_request(None, None, Some("token".into())).unwrap();
    assert_eq!(
        req.url,
        "https://www.qobuz.com/api.json/0.2/favorite/getUserFavorites?offset=0&limit=100&type=albums"
    );
    assert_eq!(req.auth_header_value, "Bearer token");
    assert_eq!(AUTH_HEADER_NAME, "x-user-auth-token");

    let req = favorite_albums_request(Some(20), Some(5), Some("t".into())).unwrap();
    assert_eq!(
        req.url,
        "https://www.qobuz.com/api.json/0.2/favorite/getUserFavorites?offset=20&limit=5&type=albums"
    );

    assert!(matches!(
        favorite_albums_request(None, None, None),
        Err(QobuzFavoriteAlbumsError::NoAccessTokenAvailable)
    ));
}

#[test]
fn album_tracks_request_url_and_header() {
    let req = album_tracks_request("123", Some(3), Some(7), Some("abc".into())).unwrap();
    // The endpoint has no placeholders for the parameters.
    assert_eq!(req.url, "https://www.qobuz.com/api.json/0.2/album/get");
    assert_eq!(req.auth_header_value, "Bearer abc");
    assert!(matches!(
        album_tracks_request("123", None, None, None),
        Err(QobuzAlbumTracksError::NoAccessTokenAvailable)
    ));
}

#[test]
fn album_cover_and_artist_picture_urls() {
    let album = QobuzAlbum {
        image: QobuzImage {
            large: "ab-cd-ef".into(),
            ..Default::default()
        },
        ..Default::default()
    };
    assert_eq!(album.cover_url(320), "https://resources.qobuz.com/images/ab/cd/ef/320x320.jpg");

    let artist = QobuzArtist {
        picture: Some("12-34".into()),
        ..Default::default()
    };
    assert_eq!(
        artist.picture_url(0),
        Some("https://resources.qobuz.com/images/12/34/0x0.jpg".to_string())
    );
    let artist = QobuzArtist::default();
    assert_eq!(artist.picture_url(750), None);
}

#[test]
fn page_keeps_low_bits_of_total() {
    let (items, count) = page_of(vec![1, 2], 7);
    assert_eq!(items, vec![1, 2]);
    assert_eq!(count, 7);
    let (_, count) = page_of(Vec::<u8>::new(), (1u64 << 32) + 5);
    assert_eq!(count, 5);
}

#[test]
fn enum_names() {
    assert_eq!(QobuzDeviceType::Browser.as_str(), "BROWSER");
    assert_eq!(QobuzDeviceType::from_name("BROWSER"), Some(QobuzDeviceType::Browser));
    assert_eq!(QobuzDeviceType::from_name("browser"), None);
    assert_eq!(QobuzAlbumOrder::Date.as_str(), "DATE");
    assert_eq!(QobuzAlbumOrder::from_name("DATE"), Some(QobuzAlbumOrder::Date));
    assert_eq!(QobuzAlbumOrder::from_name("NAME"), None);
    assert_eq!(QobuzAlbumOrderDirection::Asc.as_str(), "ASC");
    assert_eq!(QobuzAlbumOrderDirection::Desc.as_str(), "DESC");
    assert_eq!(QobuzAlbumOrderDirection::from_name("DESC"), Some(QobuzAlbumOrderDirection::Desc));
    assert_eq!(QobuzAlbumOrderDirection::from_name("ASC"), Some(QobuzAlbumOrderDirection::Asc));
    assert_eq!(QobuzAlbumOrderDirection::from_name(""), None);
}
