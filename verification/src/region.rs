//! What the engine hands back: regions of text, each with its candidate
//! readings, as plain values.

use crate::fraction::Fraction;
use vstd::prelude::*;

verus! {

/// The mathematical content of a [`Candidate`].
pub struct CandidateView {
    pub text: Seq<char>,
    /// In millionths.
    pub confidence: nat,
}

/// The mathematical content of a [`Region`].
pub struct RegionView {
    /// In millionths of the image's height, measured from its bottom edge.
    pub origin_y: nat,
    pub candidates: Seq<CandidateView>,
}

/// One reading of a region's text, with the engine's confidence in it.
#[derive(Debug, Clone)]
pub struct Candidate {
    pub text: String,
    pub confidence: Fraction,
}

/// One detected area of text.
///
/// Of the bounding box only the vertical coordinate of its origin is kept: it
/// is all that the joining of the text reads. The image's origin is its
/// bottom-left corner. The candidates stand in the engine's order.
#[derive(Debug, Clone)]
pub struct Region {
    pub origin_y: Fraction,
    pub candidates: Vec<Candidate>,
}

impl View for Candidate {
    type V = CandidateView;

    open spec fn view(&self) -> CandidateView {
        CandidateView { text: self.text@, confidence: self.confidence@ }
    }
}

impl DeepView for Candidate {
    type V = CandidateView;

    open spec fn deep_view(&self) -> CandidateView {
        self@
    }
}

impl View for Region {
    type V = RegionView;

    open spec fn view(&self) -> RegionView {
        RegionView { origin_y: self.origin_y@, candidates: self.candidates.deep_view() }
    }
}

impl DeepView for Region {
    type V = RegionView;

    open spec fn deep_view(&self) -> RegionView {
        self@
    }
}

} // verus!
