use prismriver::utils::{
    decoder_candidates, is_file_scheme, is_network_scheme, path_to_uri, uri_to_path, DecoderKind,
};

#[test]
fn schemes() {
    assert!(is_network_scheme("http"));
    assert!(is_network_scheme("https"));
    assert!(!is_network_scheme("htt"));
    assert!(!is_network_scheme("file"));
    assert!(is_file_scheme("file"));
    assert!(!is_file_scheme("files"));
    assert!(!is_file_scheme("http"));
}

#[test]
fn candidates_by_scheme() {
    assert_eq!(decoder_candidates("https", true, true), vec![DecoderKind::Ffmpeg, DecoderKind::Ffmpeg]);
    assert_eq!(decoder_candidates("file", true, true), vec![DecoderKind::Symphonia, DecoderKind::Ffmpeg]);
    assert_eq!(decoder_candidates("ftp", true, true), vec![DecoderKind::Ffmpeg]);
    assert_eq!(decoder_candidates("file", true, false), vec![DecoderKind::Symphonia]);
    assert_eq!(decoder_candidates("http", true, false), Vec::<DecoderKind>::new());
    assert_eq!(decoder_candidates("file", false, false), vec![DecoderKind::Dummy]);
    assert_eq!(decoder_candidates("http", false, false), vec![DecoderKind::Dummy]);
}

#[test]
fn path_to_uri_encodes() {
    assert_eq!(path_to_uri("/music/a.flac"), Some("file:/music/a.flac".to_string()));
    assert_eq!(path_to_uri("/music/my song #1?.mp3"), Some("file:/music/my%20song%20%231%3F.mp3".to_string()));
    assert_eq!(path_to_uri("/m/100%.ogg"), Some("file:/m/100%25.ogg".to_string()));
    assert_eq!(path_to_uri("//server/share"), None);
}

#[test]
fn uri_to_path_decodes() {
    assert_eq!(uri_to_path("file:/music/my%20song.mp3"), Some("/music/my song.mp3".to_string()));
    assert_eq!(uri_to_path("file:///music/a.flac"), Some("/music/a.flac".to_string()));
    assert_eq!(uri_to_path("file:/bad%FF"), None);
    assert_eq!(uri_to_path("not a uri"), None);
}

#[test]
fn path_uri_round_trip() {
    for p in ["/music/a.flac", "/ü/日本語 #?%.wav", "relative/x", ""] {
        let u = path_to_uri(p).unwrap();
        assert_eq!(uri_to_path(&u), Some(p.to_string()));
    }
}
