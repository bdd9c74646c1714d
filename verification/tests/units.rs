use music_catalog::date::Date;
use music_catalog::song::{Song, SongError};
use music_catalog::theme::Theme;

#[test]
fn song_new_accepts_valid_input() {
    let song = Song::new("Hymn".to_string(), 240).unwrap();
    assert_eq!(song.name, "Hymn");
    assert_eq!(song.length_secs, 240);
}

#[test]
fn song_new_rejects_empty_name() {
    match Song::new("".to_string(), 240) {
        Err(SongError::CreateError(m)) => assert_eq!(m, "Name cannot be empty"),
        Ok(_) => panic!("an empty name must be rejected"),
    }
}

#[test]
fn song_new_rejects_zero_length() {
    match Song::new("Hymn".to_string(), 0) {
        Err(SongError::CreateError(m)) => assert_eq!(m, "Length cannot be 0"),
        Ok(_) => panic!("a zero length must be rejected"),
    }
}

#[test]
fn date_ordering_is_lexicographic() {
    let base = Date { year: 2020, month: 6, day: 15 };
    assert!(Date { year: 2021, month: 1, day: 1 }.is_after(&base));
    assert!(Date { year: 2020, month: 7, day: 1 }.is_after(&base));
    assert!(Date { year: 2020, month: 6, day: 16 }.is_after(&base));
    assert!(!Date { year: 2020, month: 6, day: 15 }.is_after(&base));
    assert!(!Date { year: 2019, month: 12, day: 31 }.is_after(&base));
}

#[test]
fn themes_carry_their_palettes() {
    let dark = Theme::Dark.get_theme();
    assert_eq!(dark.primary, "#4cd9e3");
    assert_eq!(dark.background, "#191c1c");
    assert_eq!(dark.on_error, "#690005");
    let light = Theme::Light.get_theme();
    assert_eq!(light.primary, "#00696f");
    assert_eq!(light.background, "#fafdfc");
    assert_eq!(light.on_error, "#ffffff");
    assert_ne!(dark.primary, light.primary);
}
