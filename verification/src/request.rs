//! How the engine's request is configured.

use crate::fraction::Fraction;
use crate::OcrAccuracy;
use vstd::prelude::*;

verus! {

/// The language asked for where the caller prefers none.
pub const DEFAULT_LANGUAGE: &'static str = "en-US";

/// The smallest text the engine is asked to look for, in millionths of the
/// image's height.
pub const MINIMUM_TEXT_HEIGHT_MILLIONTHS: u32 = 8_000;

/// How many candidates are asked of each region, best first.
pub const CANDIDATES_PER_REGION: usize = 5;

/// The mathematical content of a [`RecognitionRequest`].
pub struct RecognitionRequestView {
    pub accuracy: OcrAccuracy,
    pub languages: Seq<Seq<char>>,
    pub uses_language_correction: bool,
    pub automatically_detects_language: bool,
    /// In millionths of the image's height.
    pub minimum_text_height: nat,
    pub candidates_per_region: nat,
}

/// Everything the engine's request is set to before it runs.
#[derive(Debug, Clone)]
pub struct RecognitionRequest {
    pub accuracy: OcrAccuracy,
    /// Language tags, most preferred first; never empty.
    pub languages: Vec<String>,
    pub uses_language_correction: bool,
    pub automatically_detects_language: bool,
    pub minimum_text_height: Fraction,
    pub candidates_per_region: usize,
}

impl View for RecognitionRequest {
    type V = RecognitionRequestView;

    open spec fn view(&self) -> RecognitionRequestView {
        RecognitionRequestView {
            accuracy: self.accuracy,
            languages: self.languages.deep_view(),
            uses_language_correction: self.uses_language_correction,
            automatically_detects_language: self.automatically_detects_language,
            minimum_text_height: self.minimum_text_height@,
            candidates_per_region: self.candidates_per_region as nat,
        }
    }
}

/// The languages handed to the engine: the caller's, in the caller's order,
/// or the default language alone where the caller names none.
pub open spec fn effective_languages(preferred: Seq<Seq<char>>) -> Seq<Seq<char>> {
    if preferred.len() == 0 {
        seq![DEFAULT_LANGUAGE@]
    } else {
        preferred
    }
}

/// The request for an accuracy and a list of preferred languages. Language
/// correction, language detection, the minimum text height and the number of
/// candidates are fixed.
pub open spec fn configured(
    accuracy: OcrAccuracy,
    preferred: Seq<Seq<char>>,
) -> RecognitionRequestView {
    RecognitionRequestView {
        accuracy,
        languages: effective_languages(preferred),
        uses_language_correction: true,
        automatically_detects_language: true,
        minimum_text_height: MINIMUM_TEXT_HEIGHT_MILLIONTHS as nat,
        candidates_per_region: CANDIDATES_PER_REGION as nat,
    }
}

/// To prefer no language is to prefer the default language alone.
pub proof fn lemma_no_language_means_default(accuracy: OcrAccuracy)
    ensures
        configured(accuracy, Seq::empty()) == configured(accuracy, seq![DEFAULT_LANGUAGE@]),
{
}

impl RecognitionRequest {
    /// Configures a request.
    pub fn new(accuracy: OcrAccuracy, preferred_langs: Vec<String>) -> (request: RecognitionRequest)
        ensures
            request@ == configured(accuracy, preferred_langs.deep_view()),
    {
        let ghost preferred = preferred_langs.deep_view();
        let languages = if preferred_langs.len() == 0 {
            let mut languages: Vec<String> = Vec::new();
            languages.push(DEFAULT_LANGUAGE.to_owned());
            assert(languages.deep_view() =~= seq![DEFAULT_LANGUAGE@]);
            languages
        } else {
            preferred_langs
        };
        RecognitionRequest {
            accuracy,
            languages,
            uses_language_correction: true,
            automatically_detects_language: true,
            minimum_text_height: Fraction::from_millionths(MINIMUM_TEXT_HEIGHT_MILLIONTHS),
            candidates_per_region: CANDIDATES_PER_REGION,
        }
    }
}

} // verus!
