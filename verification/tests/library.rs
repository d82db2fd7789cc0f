use music_player::library::{
    art_data_url, get_album_art_data, is_supported_extension, parse_metadata, select_playlist,
    song_with_id, track_id, wav_duration_ms, Picture, SongTags,
};
use music_player::models::{Playlist, Song};

fn all_tags() -> SongTags {
    SongTags {
        title: Some("Dark Red".to_string()),
        artist: Some("Steve Lacy".to_string()),
        album: Some("Dark Red".to_string()),
    }
}

#[test]
fn supported_extensions() {
    for extension in ["mp3", "flac", "wav", "m4a", "ogg"] {
        assert!(is_supported_extension(extension));
    }
}

#[test]
fn supported_extensions_in_any_case() {
    for extension in ["MP3", "Mp3", "mP3", "FLAC", "FlaC", "WAV", "M4A", "m4A", "OGG", "oGg"] {
        assert!(is_supported_extension(extension));
    }
}

#[test]
fn other_extensions_are_not_supported() {
    for extension in [
        "", "mp", "mp33", "mp4", "txt", "jpg", "wave", "flac ", ".mp3", "aac", "wma", "og", "m4",
        "mp\u{b3}", "\u{212a}mp3", "ｍｐ３",
    ] {
        assert!(!is_supported_extension(extension));
    }
}

#[test]
fn song_with_all_tags_takes_them() {
    let song = song_with_id(
        "x1".to_string(),
        "/m/dark.mp3".to_string(),
        "dark".to_string(),
        Some(all_tags()),
        173_000,
    );
    assert_eq!(
        song,
        Song {
            id: "x1".to_string(),
            path: "/m/dark.mp3".to_string(),
            title: "Dark Red".to_string(),
            artist: "Steve Lacy".to_string(),
            album: "Dark Red".to_string(),
            duration_ms: 173_000,
        }
    );
}

#[test]
fn song_with_empty_tags_is_unknown() {
    let tags = SongTags { title: None, artist: None, album: None };
    let song = song_with_id("x".to_string(), "p".to_string(), "stem".to_string(), Some(tags), 0);
    assert_eq!(song.title, "Unknown Title");
    assert_eq!(song.artist, "Unknown Artist");
    assert_eq!(song.album, "Unknown Album");
    assert_eq!(song.duration_ms, 0);
}

#[test]
fn song_with_some_tags_fills_the_rest() {
    let tags = SongTags { title: None, artist: Some("isq".to_string()), album: None };
    let song = song_with_id("x".to_string(), "p".to_string(), "stem".to_string(), Some(tags), 7);
    assert_eq!(song.title, "Unknown Title");
    assert_eq!(song.artist, "isq");
    assert_eq!(song.album, "Unknown Album");
}

#[test]
fn song_without_tags_is_titled_by_its_file_name() {
    let song = song_with_id(
        "x".to_string(),
        "/m/void (super slowed).wav".to_string(),
        "void (super slowed)".to_string(),
        None,
        240_000,
    );
    assert_eq!(song.id, "x");
    assert_eq!(song.path, "/m/void (super slowed).wav");
    assert_eq!(song.title, "void (super slowed)");
    assert_eq!(song.artist, "Unknown Artist");
    assert_eq!(song.album, "Unknown Album");
    assert_eq!(song.duration_ms, 240_000);
}

#[test]
fn track_id_is_the_hash_of_the_path() {
    assert_eq!(
        track_id(""),
        "af1349b9f5f9a1a6a0404dea36dcc9499bcb25c9adc112b7cc9a93cae41f3262"
    );
    let path = "/home/me/Music/El Paso del Gigante.mp3";
    assert_eq!(track_id(path), blake3::hash(path.as_bytes()).to_hex().to_string());
    assert_eq!(track_id(path).len(), 64);
    assert_ne!(track_id(path), path);
    assert_ne!(track_id("a"), track_id("b"));
    assert_eq!(track_id("a"), track_id("a"));
}

#[test]
fn parse_metadata_identifies_the_song_by_its_path() {
    let song = parse_metadata("/m/a.ogg".to_string(), "a".to_string(), Some(all_tags()), 5);
    assert_eq!(song.id, track_id("/m/a.ogg"));
    assert_eq!(song.path, "/m/a.ogg");
    assert_eq!(song.title, "Dark Red");
    assert_eq!(song.duration_ms, 5);
    let bare = parse_metadata("/m/b.ogg".to_string(), "b".to_string(), None, 6);
    assert_eq!(bare.id, blake3::hash(b"/m/b.ogg").to_hex().to_string());
    assert_eq!(bare.title, "b");
}

#[test]
fn wav_length_in_milliseconds() {
    assert_eq!(wav_duration_ms(44_100, 44_100), 1000);
    assert_eq!(wav_duration_ms(66_150, 44_100), 1500);
    assert_eq!(wav_duration_ms(1, 44_100), 0);
    assert_eq!(wav_duration_ms(45, 44_100), 1);
    assert_eq!(wav_duration_ms(0, 8000), 0);
    assert_eq!(wav_duration_ms(u32::MAX, 1), 4_294_967_295_000);
    assert_eq!(wav_duration_ms(u32::MAX, u32::MAX), 1000);
    assert_eq!(wav_duration_ms(1000, 0), 0);
}

#[test]
fn data_url_is_put_together() {
    assert_eq!(art_data_url("image/png", "AAEC"), "data:image/png;base64,AAEC");
    assert_eq!(art_data_url("", ""), "data:;base64,");
}

#[test]
fn album_art_is_an_inline_address() {
    let picture = Picture { mime_type: "image/jpeg".to_string(), data: b"hello".to_vec() };
    assert_eq!(
        get_album_art_data(Some(&picture)),
        Some("data:image/jpeg;base64,aGVsbG8=".to_string())
    );
    let picture = Picture { mime_type: "image/png".to_string(), data: vec![0, 1, 2, 255, 254] };
    assert_eq!(
        get_album_art_data(Some(&picture)),
        Some("data:image/png;base64,AAEC//4=".to_string())
    );
    let empty = Picture { mime_type: "image/png".to_string(), data: Vec::new() };
    assert_eq!(get_album_art_data(Some(&empty)), Some("data:image/png;base64,".to_string()));
}

#[test]
fn no_picture_no_album_art() {
    assert_eq!(get_album_art_data(None), None);
}

#[test]
fn select_playlist_takes_a_known_identifier_only() {
    let playlists = vec![
        Playlist { id: 1, name: "Default".to_string(), song_ids: vec![] },
        Playlist { id: 2, name: "YT".to_string(), song_ids: vec![1, 2, 3, 4, 5, 6, 7] },
        Playlist { id: 3, name: "Phonk".to_string(), song_ids: vec![] },
    ];
    assert_eq!(select_playlist(&playlists, 2, 3), 3);
    assert_eq!(select_playlist(&playlists, 2, 1), 1);
    assert_eq!(select_playlist(&playlists, 2, 2), 2);
    assert_eq!(select_playlist(&playlists, 2, 4), 2);
    assert_eq!(select_playlist(&playlists, 2, 0), 2);
    assert_eq!(select_playlist(&Vec::new(), 9, 1), 9);
}
