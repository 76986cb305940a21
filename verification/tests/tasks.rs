use vision_ocr::engine::EngineOutcome;
use vision_ocr::engine::ImageSource;
use vision_ocr::fraction::Fraction;
use vision_ocr::recognize;
use vision_ocr::region::Candidate;
use vision_ocr::region::Region;
use vision_ocr::task::TaskState;
use vision_ocr::OcrAccuracy;
use vision_ocr::OcrError;
use vision_ocr::RecognizeTask;

fn path_task() -> RecognizeTask<Vec<u8>> {
    recognize(ImageSource::Path("/tmp/page.png".to_string()), OcrAccuracy::Accurate, None)
}

fn words() -> EngineOutcome {
    EngineOutcome::Regions(vec![Region {
        origin_y: Fraction::new(500_000).unwrap(),
        candidates: vec![Candidate {
            text: "word".to_string(),
            confidence: Fraction::new(750_000).unwrap(),
        }],
    }])
}

#[test]
fn new_task_is_pending() {
    assert_eq!(path_task().state(), TaskState::Pending);
}

#[test]
fn start_hands_out_the_image_and_the_request() {
    let mut task = recognize(
        ImageSource::Bytes(vec![0x89, 0x50, 0x4e, 0x47]),
        OcrAccuracy::Fast,
        Some(vec!["de-DE".to_string(), "en-GB".to_string()]),
    );
    let job = task.start(false).unwrap();
    assert_eq!(task.state(), TaskState::Running);
    assert_eq!(job.image, ImageSource::Bytes(vec![0x89, 0x50, 0x4e, 0x47]));
    assert_eq!(job.request.accuracy, OcrAccuracy::Fast);
    assert_eq!(job.request.languages, vec!["de-DE".to_string(), "en-GB".to_string()]);
    assert!(job.request.uses_language_correction);
    assert!(job.request.automatically_detects_language);
    assert_eq!(job.request.minimum_text_height.millionths(), 8_000);
    assert_eq!(job.request.candidates_per_region, 5);
}

#[test]
fn start_without_languages_asks_for_the_default() {
    let mut task = path_task();
    let job = task.start(false).unwrap();
    assert_eq!(job.image, ImageSource::Path("/tmp/page.png".to_string()));
    assert_eq!(job.request.accuracy, OcrAccuracy::Accurate);
    assert_eq!(job.request.languages, vec!["en-US".to_string()]);
}

#[test]
fn start_with_an_empty_list_asks_for_the_default() {
    let mut task: RecognizeTask<Vec<u8>> =
        recognize(ImageSource::Path("a.png".to_string()), OcrAccuracy::Fast, Some(Vec::new()));
    assert_eq!(task.start(false).unwrap().request.languages, vec!["en-US".to_string()]);
}

#[test]
fn image_is_handed_out_once() {
    let mut task = path_task();
    assert!(task.start(false).is_some());
    assert!(task.start(false).is_none());
    assert_eq!(task.state(), TaskState::Running);
    assert!(task.start(true).is_none());
    assert_eq!(task.state(), TaskState::Running);
}

#[test]
fn completed_task_delivers_its_result() {
    let mut task = path_task();
    task.start(false).unwrap();
    let result = task.finish(words(), false).unwrap().unwrap();
    assert_eq!(result.text, " word");
    assert_eq!(result.confidence.millionths(), 750_000);
    assert_eq!(task.state(), TaskState::Completed);
}

#[test]
fn failed_task_delivers_its_error() {
    let mut task = path_task();
    task.start(false).unwrap();
    let delivered = task.finish(EngineOutcome::Failed("no such file".to_string()), false);
    assert_eq!(
        delivered.unwrap().unwrap_err(),
        OcrError::ErrorWithDesc("no such file".to_string())
    );
    assert_eq!(task.state(), TaskState::Failed);
}

#[test]
fn empty_answer_fails_the_task() {
    let mut task = path_task();
    task.start(false).unwrap();
    let delivered = task.finish(EngineOutcome::Regions(Vec::new()), false);
    assert_eq!(delivered.unwrap().unwrap_err(), OcrError::NoTextRecognized);
    assert_eq!(task.state(), TaskState::Failed);
}

#[test]
fn request_that_cannot_be_set_up_fails_the_task() {
    let mut task = path_task();
    task.start(false).unwrap();
    let delivered = task.finish(EngineOutcome::RequestNotInitialized, false);
    assert_eq!(delivered.unwrap().unwrap_err(), OcrError::VNRecognizeTextRequestInit);
    assert_eq!(task.state(), TaskState::Failed);
}

#[test]
fn abort_before_start_cancels() {
    let mut task = path_task();
    assert!(task.start(true).is_none());
    assert_eq!(task.state(), TaskState::Cancelled);
}

#[test]
fn cancelled_task_delivers_nothing() {
    let mut task = path_task();
    assert!(task.start(true).is_none());
    assert!(task.finish(words(), false).is_none());
    assert_eq!(task.state(), TaskState::Cancelled);
    assert!(task.finish(words(), true).is_none());
    assert_eq!(task.state(), TaskState::Cancelled);
}

#[test]
fn cancelled_task_does_not_start_again() {
    let mut task = path_task();
    assert!(task.start(true).is_none());
    assert!(task.start(false).is_none());
    assert_eq!(task.state(), TaskState::Cancelled);
}

#[test]
fn abort_before_delivery_cancels() {
    let mut task = path_task();
    task.start(false).unwrap();
    assert!(task.finish(words(), true).is_none());
    assert_eq!(task.state(), TaskState::Cancelled);
}

#[test]
fn abort_before_delivery_withholds_errors_too() {
    let mut task = path_task();
    task.start(false).unwrap();
    assert!(task.finish(EngineOutcome::NoResults, true).is_none());
    assert_eq!(task.state(), TaskState::Cancelled);
}

#[test]
fn pending_task_has_nothing_to_deliver() {
    let mut task = path_task();
    assert!(task.finish(words(), false).is_none());
    assert_eq!(task.state(), TaskState::Pending);
    assert!(task.start(false).is_some());
}

#[test]
fn nothing_is_delivered_twice() {
    let mut task = path_task();
    task.start(false).unwrap();
    assert!(task.finish(words(), false).is_some());
    assert!(task.finish(words(), false).is_none());
    assert_eq!(task.state(), TaskState::Completed);

    let mut task = path_task();
    task.start(false).unwrap();
    assert!(task.finish(EngineOutcome::NoResults, false).is_some());
    assert!(task.finish(words(), false).is_none());
    assert_eq!(task.state(), TaskState::Failed);
}
