use my_music::covers::{has_tag, populated_cover_path, song_with_tag, Song, SongWTags};

fn song(id: i64, tags: &[&str]) -> SongWTags {
    SongWTags {
        song: Song { id, title: format!("song {id}") },
        tags: tags.iter().map(|tag| tag.to_string()).collect(),
    }
}

#[test]
fn tag_membership() {
    let tags = vec!["Album".to_string(), "Jane".to_string()];
    assert!(has_tag(&tags, &"Jane".to_string()));
    assert!(!has_tag(&tags, &"jane".to_string()));
    assert!(!has_tag(&Vec::new(), &"Jane".to_string()));
}

#[test]
fn first_song_with_the_album_tag_stands_for_the_album() {
    let songs = vec![
        song(1, &["Other"]),
        song(2, &[]),
        song(3, &["Jane", "My Album"]),
        song(4, &["My Album"]),
    ];
    assert_eq!(song_with_tag(&songs, "My Album"), Some(2));
    assert_eq!(song_with_tag(&songs, "Other"), Some(0));
    assert_eq!(song_with_tag(&songs, "Missing"), None);
    assert_eq!(song_with_tag(&Vec::new(), "My Album"), None);
}

#[test]
fn populated_cover_path_replaces_every_slash() {
    assert_eq!(
        populated_cover_path("My Album", "image/png"),
        Some("images~slash~My Album.png".to_string())
    );
    assert_eq!(
        populated_cover_path("AC/DC", "image/jpeg"),
        Some("images~slash~AC~slash~DC.jpeg".to_string())
    );
    assert_eq!(populated_cover_path("My Album", "png"), None);
}
