use video_prep::settings::apply_default_languages;
use video_prep::settings::AppSettings;

fn valid_settings() -> AppSettings {
    AppSettings {
        api_key: "test-key".to_string(),
        default_output_folder: Some("/out".to_string()),
        preferred_languages: vec!["en".to_string(), "de".to_string()],
        chunk_duration_minutes: 20,
        max_retries: 3,
        source_language: "en".to_string(),
        target_language: Some("de".to_string()),
    }
}

#[test]
fn default_settings_are_usable() {
    let s = AppSettings::default();
    assert_eq!(s.api_key, "");
    assert_eq!(s.default_output_folder, None);
    assert!(s.preferred_languages.is_empty());
    assert_eq!(s.chunk_duration_minutes, 20);
    assert_eq!(s.max_retries, 3);
    assert_eq!(s.source_language, "en");
    assert_eq!(s.target_language, None);
    assert!(s.validate().is_ok());
}

#[test]
fn valid_settings_pass_validation() {
    assert!(valid_settings().validate().is_ok());
}

#[test]
fn chunk_duration_out_of_range_is_rejected() {
    let mut s = valid_settings();
    s.chunk_duration_minutes = 4;
    assert_eq!(s.validate().unwrap_err(), "Chunk duration must be between 5 and 60 minutes.");
    s.chunk_duration_minutes = 61;
    assert_eq!(s.validate().unwrap_err(), "Chunk duration must be between 5 and 60 minutes.");
}

#[test]
fn retries_out_of_range_are_rejected() {
    let mut s = valid_settings();
    s.max_retries = 0;
    assert_eq!(s.validate().unwrap_err(), "Max retries must be between 1 and 10.");
    s.max_retries = 11;
    assert_eq!(s.validate().unwrap_err(), "Max retries must be between 1 and 10.");
}

#[test]
fn blank_source_language_is_rejected() {
    let mut s = valid_settings();
    s.source_language = "   ".to_string();
    assert_eq!(s.validate().unwrap_err(), "Source language is required.");
    s.source_language = String::new();
    assert_eq!(s.validate().unwrap_err(), "Source language is required.");
}

#[test]
fn unicode_blank_source_language_is_rejected() {
    let mut s = valid_settings();
    // no-break space, ideographic space, line separator: all whitespace
    s.source_language = "\u{a0}\u{3000}\u{2028}".to_string();
    assert_eq!(s.validate().unwrap_err(), "Source language is required.");
    assert_eq!(s.source_language.trim(), "");
}

#[test]
fn empty_language_list_is_filled_with_supported_codes() {
    let supported = vec!["en".to_string(), "de".to_string(), "fr".to_string()];
    let mut s = valid_settings();
    s.preferred_languages = Vec::new();
    apply_default_languages(&mut s, &supported);
    assert_eq!(s.preferred_languages, supported);
}

#[test]
fn chosen_language_list_is_kept() {
    let supported = vec!["en".to_string(), "de".to_string(), "fr".to_string()];
    let mut s = valid_settings();
    apply_default_languages(&mut s, &supported);
    assert_eq!(s.preferred_languages, vec!["en".to_string(), "de".to_string()]);
}
