//! The two ends of the engine: what it is handed, and what its answer comes to.

use crate::aggregate::aggregate;
use crate::aggregate::aggregated;
use crate::aggregate::confidence_sum;
use crate::aggregate::confidences_in_range;
use crate::aggregate::contributors;
use crate::aggregate::lemma_mean_confidence_is_exact;
use crate::aggregate::lemma_regions_without_candidates;
use crate::aggregate::qualifies;
use crate::aggregate::OcrResult;
use crate::aggregate::OcrResultView;
use crate::aggregate::MIN_CONFIDENCE_MILLIONTHS;
use crate::error::OcrError;
use crate::fraction::MILLIONTHS_PER_ONE;
use crate::region::Region;
use crate::request::RecognitionRequest;
use vstd::prelude::*;

verus! {

/// Where the engine finds the image. Nothing here reads or decodes it.
///
/// `B` is the buffer that holds an image in memory. It is only ever moved, so
/// that the engine can read the caller's own buffer in place.
#[derive(Debug, Clone, PartialEq, Eq)]
pub enum ImageSource<B> {
    /// The path of a file, which the engine opens itself.
    Path(String),
    /// The image's bytes.
    Bytes(B),
}

/// One recognition for the engine to carry out.
#[derive(Debug, Clone)]
pub struct EngineJob<B> {
    pub image: ImageSource<B>,
    pub request: RecognitionRequest,
}

/// How the engine's run ended.
#[derive(Debug, Clone)]
pub enum EngineOutcome {
    /// The engine could not allocate the request.
    RequestNotAllocated,
    /// The engine could not initialize the request.
    RequestNotInitialized,
    /// The engine reported a failure; holds its own description.
    Failed(String),
    /// The engine reported a failure whose description could not be read.
    FailedWithoutDescription,
    /// The engine finished, but the text of a candidate could not be read.
    TextUnreadable,
    /// The engine finished and left no list of results.
    NoResults,
    /// The engine finished with these regions, in its order.
    Regions(Vec<Region>),
}

/// What an outcome comes to, with candidates selected under `threshold`.
///
/// Each failure has its own error, and the engine's description of a failure
/// is kept untouched. A missing or empty list of regions is the failure to
/// recognize any text. Any other list is aggregated, even where none of its
/// regions contributes.
pub open spec fn conclusion(outcome: EngineOutcome, threshold: nat) -> Result<
    OcrResultView,
    OcrError,
> {
    match outcome {
        EngineOutcome::RequestNotAllocated => Err(OcrError::VNRecognizeTextRequest),
        EngineOutcome::RequestNotInitialized => Err(OcrError::VNRecognizeTextRequestInit),
        EngineOutcome::Failed(description) => Err(OcrError::ErrorWithDesc(description)),
        EngineOutcome::FailedWithoutDescription => Err(OcrError::LocalizedDescription),
        EngineOutcome::TextUnreadable => Err(OcrError::StringFromFirstObject),
        EngineOutcome::NoResults => Err(OcrError::NoTextRecognized),
        EngineOutcome::Regions(regions) => if regions.len() == 0 {
            Err(OcrError::NoTextRecognized)
        } else {
            Ok(aggregated(regions.deep_view(), threshold))
        },
    }
}

/// Whether `result` is what `expected` describes.
pub open spec fn matches_conclusion(
    result: Result<OcrResult, OcrError>,
    expected: Result<OcrResultView, OcrError>,
) -> bool {
    match result {
        Ok(value) => expected == Ok::<OcrResultView, OcrError>(value@),
        Err(error) => expected == Err::<OcrResultView, OcrError>(error),
    }
}

/// An empty list of regions is the failure to recognize any text, and no
/// other error.
pub proof fn lemma_empty_list_is_no_text(regions: Vec<Region>, threshold: nat)
    requires
        regions.len() == 0,
    ensures
        conclusion(EngineOutcome::Regions(regions), threshold) == Err::<OcrResultView, OcrError>(
            OcrError::NoTextRecognized,
        ),
{
}

/// A list of regions that all lack candidates is a success, with the empty
/// text and confidence zero: only the empty list is a failure.
pub proof fn lemma_regions_without_candidates_succeed(regions: Vec<Region>, threshold: nat)
    requires
        regions.len() > 0,
        forall|r: int| 0 <= r < regions.len() ==> (#[trigger] regions[r]).candidates.len() == 0,
    ensures
        conclusion(EngineOutcome::Regions(regions), threshold) == Ok::<OcrResultView, OcrError>(
            OcrResultView { text: Seq::empty(), confidence: 0 },
        ),
{
    let model = regions.deep_view();
    assert forall|r: int| 0 <= r < model.len() implies (#[trigger] model[r]).candidates.len()
        == 0 by {
        assert(model[r] == regions[r]@);
    }
    lemma_regions_without_candidates(model, threshold);
}

/// A list that is not empty, in which every region has a candidate and some
/// candidate qualifies, is a success. Its confidence is at most one and is
/// the arithmetic mean of the selected confidences, exact but for the
/// rounding down to a whole millionth.
pub proof fn lemma_qualifying_regions_succeed_with_their_mean(
    regions: Vec<Region>,
    threshold: nat,
)
    requires
        confidences_in_range(regions.deep_view()),
        regions.len() > 0,
        forall|r: int| 0 <= r < regions.len() ==> (#[trigger] regions[r]).candidates.len() >= 1,
        exists|r: int, c: int|
            0 <= r < regions.len() && 0 <= c < regions[r].candidates.len() && qualifies(
                #[trigger] regions[r].candidates[c]@,
                threshold,
            ),
    ensures
        conclusion(EngineOutcome::Regions(regions), threshold) matches Ok(result) && {
            let count = contributors(regions.deep_view(), threshold);
            let total = confidence_sum(regions.deep_view(), threshold);
            &&& count >= 1
            &&& result.confidence * count <= total < (result.confidence + 1) * count
            &&& result.confidence <= MILLIONTHS_PER_ONE
        },
{
    let model = regions.deep_view();
    assert forall|r: int| 0 <= r < model.len() implies (#[trigger] model[r]).candidates.len()
        >= 1 by {
        assert(model[r] == regions[r]@);
    }
    let (r, c) = choose|r: int, c: int|
        0 <= r < regions.len() && 0 <= c < regions[r].candidates.len() && qualifies(
            #[trigger] regions[r].candidates[c]@,
            threshold,
        );
    assert(model[r] == regions[r]@);
    assert(model[r].candidates[c] == regions[r].candidates[c]@);
    lemma_mean_confidence_is_exact(model, threshold);
}

/// Turns the engine's outcome into the caller's result, with candidates
/// selected under the minimum confidence.
pub fn conclude(outcome: EngineOutcome) -> (result: Result<OcrResult, OcrError>)
    ensures
        matches_conclusion(result, conclusion(outcome, MIN_CONFIDENCE_MILLIONTHS as nat)),
{
    match outcome {
        EngineOutcome::RequestNotAllocated => Err(OcrError::VNRecognizeTextRequest),
        EngineOutcome::RequestNotInitialized => Err(OcrError::VNRecognizeTextRequestInit),
        EngineOutcome::Failed(description) => Err(OcrError::ErrorWithDesc(description)),
        EngineOutcome::FailedWithoutDescription => Err(OcrError::LocalizedDescription),
        EngineOutcome::TextUnreadable => Err(OcrError::StringFromFirstObject),
        EngineOutcome::NoResults => Err(OcrError::NoTextRecognized),
        EngineOutcome::Regions(regions) => {
            if regions.len() == 0 {
                Err(OcrError::NoTextRecognized)
            } else {
                Ok(aggregate(&regions))
            }
        },
    }
}

} // verus!
