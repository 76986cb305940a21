//! The ways a recognition fails.

use vstd::prelude::*;

verus! {

/// Why a recognition produced no result. None of these is retried.
#[derive(Debug, Clone, PartialEq, Eq)]
pub enum OcrError {
    /// The engine could not allocate the request.
    VNRecognizeTextRequest,
    /// The engine could not initialize the request.
    VNRecognizeTextRequestInit,
    /// The engine found no region of text at all.
    NoTextRecognized,
    /// The engine failed in a way it did not name.
    UnknownVisionError,
    /// The engine failed; holds its own description, untouched.
    ErrorWithDesc(String),
    /// The engine failed and its description could not be read.
    LocalizedDescription,
    /// A recognized string could not be read from the engine.
    StringFromFirstObject,
}

impl OcrError {
    /// The text that [`OcrError::message`] gives.
    pub open spec fn message_text(self) -> Seq<char> {
        match self {
            OcrError::VNRecognizeTextRequest => "Failed to allocate VNRecognizeTextRequest"@,
            OcrError::VNRecognizeTextRequestInit => "Failed to initialize VNRecognizeTextRequest"@,
            OcrError::NoTextRecognized => "No text recognized"@,
            OcrError::UnknownVisionError => "Unknown Vision error"@,
            OcrError::ErrorWithDesc(description) => "Error "@ + description@,
            OcrError::LocalizedDescription => "Failed to get localized description"@,
            OcrError::StringFromFirstObject => "Failed to get string from first object"@,
        }
    }

    /// A sentence for the caller.
    pub fn message(&self) -> (text: String)
        ensures
            text@ == self.message_text(),
    {
        match self {
            OcrError::VNRecognizeTextRequest => "Failed to allocate VNRecognizeTextRequest".to_owned(),
            OcrError::VNRecognizeTextRequestInit => "Failed to initialize VNRecognizeTextRequest".to_owned(),
            OcrError::NoTextRecognized => "No text recognized".to_owned(),
            OcrError::UnknownVisionError => "Unknown Vision error".to_owned(),
            OcrError::ErrorWithDesc(description) => {
                let mut text = "Error ".to_owned();
                text.append(description.as_str());
                text
            },
            OcrError::LocalizedDescription => "Failed to get localized description".to_owned(),
            OcrError::StringFromFirstObject => "Failed to get string from first object".to_owned(),
        }
    }
}

} // verus!
