use vstd::prelude::*;
use crate::cart::opt_view;
use crate::config::views;

verus! {

/// How the host picks among an operation's candidates.
#[derive(Clone, Copy, Debug, PartialEq, Eq, Structural)]
pub enum SelectionStrategy {
    All,
    First,
    Maximum,
}

/// One offer: a percentage off the listed cart lines.
#[derive(Clone, Debug)]
pub struct DiscountCandidate {
    /// Identifiers of the cart lines the offer applies to.
    pub targets: Vec<String>,
    /// Percentage off, in whole percent.
    pub percentage: u64,
    pub message: String,
    pub discount_code: Option<String>,
}

/// An operation that adds a product discount.
#[derive(Clone, Debug)]
pub struct DiscountOperation {
    pub selection_strategy: SelectionStrategy,
    pub candidates: Vec<DiscountCandidate>,
}

/// What one run hands back to the host: zero or one operation.
#[derive(Clone, Debug)]
pub struct DiscountDecision {
    pub operations: Vec<DiscountOperation>,
}

pub struct CandidateView {
    pub targets: Seq<Seq<char>>,
    pub percentage: u64,
    pub message: Seq<char>,
    pub discount_code: Option<Seq<char>>,
}

pub struct OperationView {
    pub selection_strategy: SelectionStrategy,
    pub candidates: Seq<CandidateView>,
}

impl View for DiscountCandidate {
    type V = CandidateView;

    open spec fn view(&self) -> CandidateView {
        CandidateView {
            targets: views(self.targets@),
            percentage: self.percentage,
            message: self.message@,
            discount_code: opt_view(self.discount_code),
        }
    }
}

impl View for DiscountOperation {
    type V = OperationView;

    open spec fn view(&self) -> OperationView {
        OperationView {
            selection_strategy: self.selection_strategy,
            candidates: self.candidates@.map_values(|c: DiscountCandidate| c@),
        }
    }
}

impl View for DiscountDecision {
    type V = Seq<OperationView>;

    open spec fn view(&self) -> Seq<OperationView> {
        self.operations@.map_values(|o: DiscountOperation| o@)
    }
}

impl DiscountDecision {
    /// The decision that applies no discount.
    pub fn empty() -> (r: DiscountDecision)
        ensures
            r@ == Seq::<OperationView>::empty(),
    {
        let r = DiscountDecision { operations: Vec::new() };
        assert(r@ =~= Seq::<OperationView>::empty());
        r
    }
}

} // verus!
