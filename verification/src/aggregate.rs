//! From the engine's regions to one text and one confidence.

use crate::fraction::Fraction;
use crate::fraction::MILLIONTHS_PER_ONE;
use crate::region::Candidate;
use crate::region::CandidateView;
use crate::region::Region;
use crate::region::RegionView;
use vstd::prelude::*;

verus! {

/// The confidence, in millionths, that a candidate must reach to be selected.
///
/// At zero every candidate qualifies, so the first candidate of a region is
/// the one selected.
pub const MIN_CONFIDENCE_MILLIONTHS: u32 = 0;

/// Regions whose origin lies lower than this many millionths of the image's
/// height start a new line; the others follow a space.
pub const NEW_LINE_BELOW_MILLIONTHS: u32 = 100_000;

/// Whether a candidate's confidence reaches the threshold.
pub open spec fn qualifies(candidate: CandidateView, threshold: nat) -> bool {
    candidate.confidence >= threshold
}

/// Whether `index` is the place of the first candidate that qualifies.
pub open spec fn is_first_qualifying(
    candidates: Seq<CandidateView>,
    threshold: nat,
    index: int,
) -> bool {
    &&& 0 <= index < candidates.len()
    &&& qualifies(candidates[index], threshold)
    &&& forall|earlier: int|
        0 <= earlier < index ==> !qualifies(#[trigger] candidates[earlier], threshold)
}

/// The place of the candidate that is selected: the first one that
/// qualifies, whatever the confidences of those behind it.
pub open spec fn selected_index(candidates: Seq<CandidateView>, threshold: nat) -> Option<int> {
    if exists|index: int| is_first_qualifying(candidates, threshold, index) {
        Some(choose|index: int| is_first_qualifying(candidates, threshold, index))
    } else {
        None
    }
}

/// Two places cannot both be the first that qualifies.
pub proof fn lemma_first_qualifying_is_unique(
    candidates: Seq<CandidateView>,
    threshold: nat,
    first: int,
    second: int,
)
    requires
        is_first_qualifying(candidates, threshold, first),
        is_first_qualifying(candidates, threshold, second),
    ensures
        first == second,
{
    if first < second {
        assert(!qualifies(candidates[first], threshold));
    } else if second < first {
        assert(!qualifies(candidates[second], threshold));
    }
}

/// Selection goes by order alone: once a candidate is the first to qualify,
/// it is the one selected, even where a later candidate is more confident.
pub proof fn lemma_first_qualifying_is_selected(
    candidates: Seq<CandidateView>,
    threshold: nat,
    index: int,
)
    requires
        is_first_qualifying(candidates, threshold, index),
    ensures
        selected_index(candidates, threshold) == Some(index),
{
    let chosen = choose|i: int| is_first_qualifying(candidates, threshold, i);
    lemma_first_qualifying_is_unique(candidates, threshold, index, chosen);
}

/// Under the minimum confidence every candidate qualifies, so the first
/// candidate of a region is the one selected.
pub proof fn lemma_minimum_confidence_selects_first(candidates: Seq<CandidateView>)
    requires
        candidates.len() > 0,
    ensures
        selected_index(candidates, MIN_CONFIDENCE_MILLIONTHS as nat) == Some(0int),
{
    assert(is_first_qualifying(candidates, MIN_CONFIDENCE_MILLIONTHS as nat, 0));
    lemma_first_qualifying_is_selected(candidates, MIN_CONFIDENCE_MILLIONTHS as nat, 0);
}

/// Scans the candidates in order and stops at the first that qualifies.
pub fn select_candidate(candidates: &Vec<Candidate>, threshold: Fraction) -> (chosen: Option<usize>)
    ensures
        chosen matches Some(index) ==> is_first_qualifying(
            candidates.deep_view(),
            threshold@,
            index as int,
        ),
        chosen is None ==> forall|index: int|
            0 <= index < candidates.len() ==> !qualifies(
                #[trigger] candidates.deep_view()[index],
                threshold@,
            ),
        selected_index(candidates.deep_view(), threshold@) == match chosen {
            Some(index) => Some(index as int),
            None => None,
        },
{
    let ghost model = candidates.deep_view();
    let mut index: usize = 0;
    while index < candidates.len()
        invariant
            index <= candidates.len(),
            model == candidates.deep_view(),
            forall|earlier: int|
                0 <= earlier < index ==> !qualifies(#[trigger] model[earlier], threshold@),
        decreases candidates.len() - index,
    {
        if candidates[index].confidence.millionths() >= threshold.millionths() {
            proof {
                assert(model[index as int] == candidates@[index as int]@);
                lemma_first_qualifying_is_selected(model, threshold@, index as int);
            }
            return Some(index);
        }
        assert(model[index as int] == candidates@[index as int]@);
        index = index + 1;
    }
    proof {
        assert forall|i: int| !is_first_qualifying(model, threshold@, i) by {
            if 0 <= i < model.len() {
                assert(!qualifies(model[i], threshold@));
            }
        }
    }
    None
}

/// The mathematical content of an [`OcrResult`].
pub struct OcrResultView {
    pub text: Seq<char>,
    /// In millionths.
    pub confidence: nat,
}

/// The recognized text and the confidence in it.
#[derive(Debug, Clone)]
pub struct OcrResult {
    pub text: String,
    pub confidence: Fraction,
}

impl View for OcrResult {
    type V = OcrResultView;

    open spec fn view(&self) -> OcrResultView {
        OcrResultView { text: self.text@, confidence: self.confidence@ }
    }
}

/// The character put in front of a region's text: a line break for a region
/// near the bottom of the image, a space for any other.
pub open spec fn separator(origin_y: nat) -> char {
    if origin_y < NEW_LINE_BELOW_MILLIONTHS {
        '\n'
    } else {
        ' '
    }
}

/// Whether a candidate of the region is selected, so that the region counts
/// towards the confidence.
pub open spec fn contributes(region: RegionView, threshold: nat) -> bool {
    selected_index(region.candidates, threshold) is Some
}

/// The candidate selected in a region that contributes.
pub open spec fn selected_candidate(region: RegionView, threshold: nat) -> CandidateView
    recommends
        contributes(region, threshold),
{
    region.candidates[selected_index(region.candidates, threshold).unwrap()]
}

/// What a region adds to the text: nothing where no candidate is selected or
/// the selected one is empty, else the separator and the selected text.
pub open spec fn region_text(region: RegionView, threshold: nat) -> Seq<char> {
    if contributes(region, threshold) && selected_candidate(region, threshold).text.len() > 0 {
        seq![separator(region.origin_y)] + selected_candidate(region, threshold).text
    } else {
        Seq::empty()
    }
}

/// What a region adds to the sum of confidences: the confidence of its
/// selected candidate, whether or not that candidate's text is empty.
pub open spec fn region_confidence(region: RegionView, threshold: nat) -> nat {
    if contributes(region, threshold) {
        selected_candidate(region, threshold).confidence
    } else {
        0
    }
}

/// The texts that the regions add, joined in the regions' order.
pub open spec fn joined_text(regions: Seq<RegionView>, threshold: nat) -> Seq<char>
    decreases regions.len(),
{
    if regions.len() == 0 {
        Seq::empty()
    } else {
        joined_text(regions.drop_last(), threshold) + region_text(regions.last(), threshold)
    }
}

/// The number of regions that contribute.
pub open spec fn contributors(regions: Seq<RegionView>, threshold: nat) -> nat
    decreases regions.len(),
{
    if regions.len() == 0 {
        0
    } else {
        contributors(regions.drop_last(), threshold) + if contributes(
            regions.last(),
            threshold,
        ) {
            1nat
        } else {
            0nat
        }
    }
}

/// The sum of the confidences of the selected candidates.
pub open spec fn confidence_sum(regions: Seq<RegionView>, threshold: nat) -> nat
    decreases regions.len(),
{
    if regions.len() == 0 {
        0
    } else {
        confidence_sum(regions.drop_last(), threshold) + region_confidence(
            regions.last(),
            threshold,
        )
    }
}

/// The arithmetic mean of the selected confidences, rounded down to a whole
/// millionth; zero where no region contributes.
pub open spec fn mean_confidence(regions: Seq<RegionView>, threshold: nat) -> nat {
    if contributors(regions, threshold) == 0 {
        0
    } else {
        confidence_sum(regions, threshold) / contributors(regions, threshold)
    }
}

/// What the regions come to under a threshold.
pub open spec fn aggregated(regions: Seq<RegionView>, threshold: nat) -> OcrResultView {
    OcrResultView {
        text: joined_text(regions, threshold),
        confidence: mean_confidence(regions, threshold),
    }
}

proof fn lemma_quotient_within_bound(total: nat, count: nat, bound: nat)
    by (nonlinear_arith)
    requires
        count > 0,
        total <= count * bound,
    ensures
        total / count <= bound,
{
}

/// Joins the regions' selected texts and averages the selected confidences,
/// with candidates selected under `threshold`.
pub fn aggregate_with_threshold(regions: &Vec<Region>, threshold: Fraction) -> (result: OcrResult)
    ensures
        result@ == aggregated(regions.deep_view(), threshold@),
        result@.confidence <= MILLIONTHS_PER_ONE,
{
    let ghost model = regions.deep_view();
    let mut text = String::new();
    let mut total: u128 = 0;
    let mut used: usize = 0;
    let mut index: usize = 0;
    proof {
        assert(model.take(0) =~= Seq::<RegionView>::empty());
    }
    while index < regions.len()
        invariant
            index <= regions.len(),
            model == regions.deep_view(),
            text@ == joined_text(model.take(index as int), threshold@),
            total == confidence_sum(model.take(index as int), threshold@),
            used == contributors(model.take(index as int), threshold@),
            used <= index,
            total <= used * MILLIONTHS_PER_ONE,
        decreases regions.len() - index,
    {
        let region = &regions[index];
        proof {
            let next = model.take(index + 1);
            assert(next.drop_last() =~= model.take(index as int));
            assert(next.last() == region@);
        }
        match select_candidate(&region.candidates, threshold) {
            Some(place) => {
                let candidate = &region.candidates[place];
                assert(selected_candidate(region@, threshold@) == candidate@);
                if !candidate.text.as_str().is_empty() {
                    let ghost before = text@;
                    if region.origin_y.millionths() < NEW_LINE_BELOW_MILLIONTHS {
                        proof {
                            reveal_strlit("\n");
                        }
                        text.append("\n");
                    } else {
                        proof {
                            reveal_strlit(" ");
                        }
                        text.append(" ");
                    }
                    text.append(candidate.text.as_str());
                    assert(text@ =~= before + region_text(region@, threshold@));
                }
                total = total + candidate.confidence.millionths() as u128;
                used = used + 1;
            },
            None => {},
        }
        index = index + 1;
    }
    proof {
        assert(model.take(index as int) =~= model);
    }
    let mean: u32 = if used > 0 {
        proof {
            lemma_quotient_within_bound(total as nat, used as nat, MILLIONTHS_PER_ONE as nat);
        }
        (total / used as u128) as u32
    } else {
        0
    };
    OcrResult { text, confidence: Fraction::from_millionths(mean) }
}

/// Joins the regions' selected texts and averages the selected confidences,
/// with candidates selected under the minimum confidence.
pub fn aggregate(regions: &Vec<Region>) -> (result: OcrResult)
    ensures
        result@ == aggregated(regions.deep_view(), MIN_CONFIDENCE_MILLIONTHS as nat),
        result@.confidence <= MILLIONTHS_PER_ONE,
{
    aggregate_with_threshold(regions, Fraction::from_millionths(MIN_CONFIDENCE_MILLIONTHS))
}

/// Whether every confidence in the regions is at most one.
pub open spec fn confidences_in_range(regions: Seq<RegionView>) -> bool {
    forall|r: int, c: int|
        0 <= r < regions.len() && 0 <= c < regions[r].candidates.len()
            ==> (#[trigger] regions[r].candidates[c]).confidence <= MILLIONTHS_PER_ONE
}

/// Regions are taken in the order given: a list comes to the text of its
/// front followed by the text of its back, and counts and sums add up.
pub proof fn lemma_aggregation_follows_order(
    front: Seq<RegionView>,
    back: Seq<RegionView>,
    threshold: nat,
)
    ensures
        joined_text(front + back, threshold) == joined_text(front, threshold) + joined_text(
            back,
            threshold,
        ),
        contributors(front + back, threshold) == contributors(front, threshold) + contributors(
            back,
            threshold,
        ),
        confidence_sum(front + back, threshold) == confidence_sum(front, threshold)
            + confidence_sum(back, threshold),
    decreases back.len(),
{
    if back.len() == 0 {
        assert(front + back =~= front);
        assert(joined_text(front, threshold) + joined_text(back, threshold) =~= joined_text(
            front,
            threshold,
        ));
    } else {
        lemma_aggregation_follows_order(front, back.drop_last(), threshold);
        assert((front + back).drop_last() =~= front + back.drop_last());
        assert((front + back).last() == back.last());
        assert(joined_text(front + back, threshold) =~= joined_text(front, threshold)
            + joined_text(back, threshold));
    }
}

/// If any candidate qualifies, one is selected, and it stands no later.
pub proof fn lemma_qualifying_candidate_means_selection(
    candidates: Seq<CandidateView>,
    threshold: nat,
    index: int,
)
    requires
        0 <= index < candidates.len(),
        qualifies(candidates[index], threshold),
    ensures
        selected_index(candidates, threshold) matches Some(first) && first <= index,
    decreases index,
{
    if exists|earlier: int| 0 <= earlier < index && qualifies(candidates[earlier], threshold) {
        let earlier = choose|earlier: int|
            0 <= earlier < index && qualifies(candidates[earlier], threshold);
        lemma_qualifying_candidate_means_selection(candidates, threshold, earlier);
    } else {
        assert(is_first_qualifying(candidates, threshold, index));
        lemma_first_qualifying_is_selected(candidates, threshold, index);
    }
}

proof fn lemma_sum_within_count(regions: Seq<RegionView>, threshold: nat)
    requires
        confidences_in_range(regions),
    ensures
        confidence_sum(regions, threshold) <= contributors(regions, threshold)
            * MILLIONTHS_PER_ONE,
        contributors(regions, threshold) <= regions.len(),
    decreases regions.len(),
{
    if regions.len() > 0 {
        let front = regions.drop_last();
        let region = regions.last();
        assert forall|r: int, c: int|
            0 <= r < front.len() && 0 <= c < front[r].candidates.len() implies (#[trigger] front[r]
                .candidates[c]).confidence <= MILLIONTHS_PER_ONE by {
            assert(front[r] == regions[r]);
        }
        lemma_sum_within_count(front, threshold);
        if contributes(region, threshold) {
            let place = selected_index(region.candidates, threshold).unwrap();
            assert(regions[regions.len() - 1].candidates[place].confidence
                <= MILLIONTHS_PER_ONE);
        }
    }
}

proof fn lemma_contributor_is_counted(regions: Seq<RegionView>, threshold: nat, place: int)
    requires
        0 <= place < regions.len(),
        contributes(regions[place], threshold),
    ensures
        contributors(regions, threshold) >= 1,
    decreases regions.len(),
{
    if place < regions.len() - 1 {
        let front = regions.drop_last();
        assert(front[place] == regions[place]);
        lemma_contributor_is_counted(front, threshold, place);
    }
}

proof fn lemma_quotient_is_floor(total: nat, count: nat)
    by (nonlinear_arith)
    requires
        count > 0,
    ensures
        (total / count) * count <= total < (total / count + 1) * count,
{
}

/// Where the list is not empty, every region has a candidate and some
/// candidate qualifies, at least one region contributes, and the confidence
/// is the arithmetic mean of the selected confidences, exact but for the
/// rounding down to a whole millionth, and at most one.
pub proof fn lemma_mean_confidence_is_exact(regions: Seq<RegionView>, threshold: nat)
    requires
        confidences_in_range(regions),
        regions.len() > 0,
        forall|r: int| 0 <= r < regions.len() ==> (#[trigger] regions[r]).candidates.len() >= 1,
        exists|r: int, c: int|
            0 <= r < regions.len() && 0 <= c < regions[r].candidates.len() && qualifies(
                #[trigger] regions[r].candidates[c],
                threshold,
            ),
    ensures
        contributors(regions, threshold) >= 1,
        aggregated(regions, threshold).confidence * contributors(regions, threshold)
            <= confidence_sum(regions, threshold),
        confidence_sum(regions, threshold) < (aggregated(regions, threshold).confidence + 1)
            * contributors(regions, threshold),
        aggregated(regions, threshold).confidence <= MILLIONTHS_PER_ONE,
{
    let (r, c) = choose|r: int, c: int|
        0 <= r < regions.len() && 0 <= c < regions[r].candidates.len() && qualifies(
            #[trigger] regions[r].candidates[c],
            threshold,
        );
    lemma_qualifying_candidate_means_selection(regions[r].candidates, threshold, c);
    lemma_contributor_is_counted(regions, threshold, r);
    lemma_sum_within_count(regions, threshold);
    let total = confidence_sum(regions, threshold);
    let count = contributors(regions, threshold);
    lemma_quotient_is_floor(total, count);
    lemma_quotient_within_bound(total, count, MILLIONTHS_PER_ONE as nat);
}

/// Regions without candidates come to the empty text with confidence zero,
/// however many they are.
pub proof fn lemma_regions_without_candidates(regions: Seq<RegionView>, threshold: nat)
    requires
        forall|r: int| 0 <= r < regions.len() ==> (#[trigger] regions[r]).candidates.len() == 0,
    ensures
        contributors(regions, threshold) == 0,
        aggregated(regions, threshold) == (OcrResultView { text: Seq::empty(), confidence: 0 }),
    decreases regions.len(),
{
    if regions.len() > 0 {
        let front = regions.drop_last();
        assert forall|r: int| 0 <= r < front.len() implies (#[trigger] front[r]).candidates.len()
            == 0 by {
            assert(front[r] == regions[r]);
        }
        lemma_regions_without_candidates(front, threshold);
        assert(!contributes(regions.last(), threshold));
        assert(joined_text(regions, threshold) =~= Seq::<char>::empty());
    } else {
        assert(joined_text(regions, threshold) =~= Seq::<char>::empty());
    }
}

/// A region whose selected candidate has text adds its separator and that
/// text behind what the regions before it came to.
pub proof fn lemma_text_follows_its_separator(
    regions: Seq<RegionView>,
    region: RegionView,
    threshold: nat,
)
    requires
        contributes(region, threshold),
        selected_candidate(region, threshold).text.len() > 0,
    ensures
        joined_text(regions.push(region), threshold) == joined_text(regions, threshold) + seq![
            separator(region.origin_y),
        ] + selected_candidate(region, threshold).text,
{
    assert(regions.push(region).drop_last() =~= regions);
    assert(regions.push(region).last() == region);
    assert(joined_text(regions.push(region), threshold) =~= joined_text(regions, threshold)
        + seq![separator(region.origin_y)] + selected_candidate(region, threshold).text);
}

/// A region whose selected candidate is the empty string counts towards the
/// confidence and adds nothing to the text, wherever it stands in the list.
pub proof fn lemma_empty_text_counts_for_confidence_only(
    front: Seq<RegionView>,
    region: RegionView,
    back: Seq<RegionView>,
    threshold: nat,
)
    requires
        contributes(region, threshold),
        selected_candidate(region, threshold).text.len() == 0,
    ensures
        joined_text(front.push(region) + back, threshold) == joined_text(front + back, threshold),
        contributors(front.push(region) + back, threshold) == contributors(
            front + back,
            threshold,
        ) + 1,
        confidence_sum(front.push(region) + back, threshold) == confidence_sum(
            front + back,
            threshold,
        ) + selected_candidate(region, threshold).confidence,
{
    lemma_aggregation_follows_order(front.push(region), back, threshold);
    lemma_aggregation_follows_order(front, back, threshold);
    assert(front.push(region).drop_last() =~= front);
    assert(front.push(region).last() == region);
    assert(joined_text(front.push(region), threshold) =~= joined_text(front, threshold));
}

} // verus!
