use media_toc::split_path::split_name;

#[test]
fn full_split_name() {
    assert_eq!(
        "Artist - Album - 03. Song (English).flac",
        split_name(
            Some("Artist"),
            Some("Album"),
            Some(3),
            "Song",
            Some("English"),
            "flac"
        )
    );
}

#[test]
fn numbers_have_two_digits_at_least() {
    assert_eq!("00. Intro.opus", split_name(None, None, Some(0), "Intro", None, "opus"));
    assert_eq!("12. Song.mp3", split_name(None, None, Some(12), "Song", None, "mp3"));
    assert_eq!("123. Song.mp3", split_name(None, None, Some(123), "Song", None, "mp3"));
}

#[test]
fn without_table_of_contents() {
    assert_eq!(
        "Album - . whole.wav",
        split_name(None, Some("Album"), None, "whole", None, "wav")
    );
}
