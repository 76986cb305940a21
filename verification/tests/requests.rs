use vision_ocr::request::RecognitionRequest;
use vision_ocr::request::CANDIDATES_PER_REGION;
use vision_ocr::request::DEFAULT_LANGUAGE;
use vision_ocr::request::MINIMUM_TEXT_HEIGHT_MILLIONTHS;
use vision_ocr::OcrAccuracy;

fn tags(languages: &[&str]) -> Vec<String> {
    languages.iter().map(|tag| tag.to_string()).collect()
}

#[test]
fn fixed_policy() {
    assert_eq!(DEFAULT_LANGUAGE, "en-US");
    assert_eq!(MINIMUM_TEXT_HEIGHT_MILLIONTHS, 8_000);
    assert_eq!(CANDIDATES_PER_REGION, 5);
}

#[test]
fn no_language_means_the_default() {
    let request = RecognitionRequest::new(OcrAccuracy::Accurate, Vec::new());
    assert_eq!(request.languages, tags(&["en-US"]));
}

#[test]
fn no_language_and_the_default_language_configure_alike() {
    for accuracy in [OcrAccuracy::Fast, OcrAccuracy::Accurate] {
        let implicit = RecognitionRequest::new(accuracy, Vec::new());
        let explicit = RecognitionRequest::new(accuracy, tags(&["en-US"]));
        assert_eq!(implicit.accuracy, explicit.accuracy);
        assert_eq!(implicit.languages, explicit.languages);
        assert_eq!(implicit.uses_language_correction, explicit.uses_language_correction);
        assert_eq!(
            implicit.automatically_detects_language,
            explicit.automatically_detects_language
        );
        assert_eq!(implicit.minimum_text_height, explicit.minimum_text_height);
        assert_eq!(implicit.candidates_per_region, explicit.candidates_per_region);
    }
}

#[test]
fn languages_pass_through_in_order() {
    let request = RecognitionRequest::new(OcrAccuracy::Fast, tags(&["zh-Hans", "en-US", "fr-FR"]));
    assert_eq!(request.languages, tags(&["zh-Hans", "en-US", "fr-FR"]));
    let request = RecognitionRequest::new(OcrAccuracy::Fast, tags(&["fr-FR", "en-US", "zh-Hans"]));
    assert_eq!(request.languages, tags(&["fr-FR", "en-US", "zh-Hans"]));
}

#[test]
fn repeated_and_odd_languages_are_not_touched() {
    let request = RecognitionRequest::new(OcrAccuracy::Fast, tags(&["de-DE", "de-DE", ""]));
    assert_eq!(request.languages, tags(&["de-DE", "de-DE", ""]));
}

#[test]
fn accuracy_is_kept() {
    assert_eq!(RecognitionRequest::new(OcrAccuracy::Fast, Vec::new()).accuracy, OcrAccuracy::Fast);
    assert_eq!(
        RecognitionRequest::new(OcrAccuracy::Accurate, Vec::new()).accuracy,
        OcrAccuracy::Accurate
    );
}

#[test]
fn correction_detection_and_text_height_are_fixed() {
    for languages in [Vec::new(), tags(&["ja-JP"])] {
        let request = RecognitionRequest::new(OcrAccuracy::Accurate, languages);
        assert!(request.uses_language_correction);
        assert!(request.automatically_detects_language);
        assert_eq!(request.minimum_text_height.millionths(), 8_000);
        assert_eq!(request.candidates_per_region, 5);
    }
}
