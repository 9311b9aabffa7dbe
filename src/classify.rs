use vstd::prelude::*;
use crate::cart::{
    attribute_value, has_product_class, line_attribute, line_sku, sku_of, CartLine,
    DiscountClass, RunInput,
};
use crate::config::{views, DiscountConfig};
use crate::decision::{
    CandidateView, DiscountCandidate, DiscountDecision, DiscountOperation, OperationView,
    SelectionStrategy,
};

verus! {

/// Whether `sku` is one of the configured eligible SKUs.
pub open spec fn sku_eligible(cfg: DiscountConfig, sku: Seq<char>) -> bool {
    views(cfg.eligible_skus@).contains(sku)
}

/// Whether `line` is a parent: an eligible SKU other than the addition SKU.
pub open spec fn is_parent(cfg: DiscountConfig, line: CartLine) -> bool {
    match line_sku(line) {
        Some(s) => sku_eligible(cfg, s) && s != cfg.addition_sku@,
        None => false,
    }
}

/// The frame specification number that `line` contributes to the index:
/// present only on a parent line that carries the specification attribute.
pub open spec fn parent_spec(cfg: DiscountConfig, line: CartLine) -> Option<Seq<char>> {
    if is_parent(cfg, line) {
        attribute_value(line.attributes@, cfg.spec_attribute@)
    } else {
        None
    }
}

/// Whether some line of the cart is a parent with specification `v`.
pub open spec fn spec_in_cart(cfg: DiscountConfig, lines: Seq<CartLine>, v: Seq<char>) -> bool {
    exists|i: int| 0 <= i < lines.len() && #[trigger] parent_spec(cfg, lines[i]) == Some(v)
}

/// Whether `line`, in a cart of `lines`, receives the discount.
pub open spec fn line_qualifies(cfg: DiscountConfig, lines: Seq<CartLine>, line: CartLine) -> bool {
    match line_sku(line) {
        None => false,
        Some(s) => if s == cfg.addition_sku@ {
            match attribute_value(line.attributes@, cfg.parent_attribute@) {
                Some(p) => spec_in_cart(cfg, lines, p),
                None => false,
            }
        } else {
            sku_eligible(cfg, s)
        },
    }
}

/// Identifiers of the qualifying lines among the first `n`, in cart order.
pub open spec fn qualifying_ids_upto(cfg: DiscountConfig, lines: Seq<CartLine>, n: int) -> Seq<
    Seq<char>,
>
    decreases n,
{
    if n <= 0 || n > lines.len() {
        Seq::empty()
    } else {
        let rest = qualifying_ids_upto(cfg, lines, n - 1);
        if line_qualifies(cfg, lines, lines[n - 1]) {
            rest.push(lines[n - 1].id@)
        } else {
            rest
        }
    }
}

/// Identifiers of the qualifying lines of the cart, in cart order.
pub open spec fn qualifying_ids(cfg: DiscountConfig, lines: Seq<CartLine>) -> Seq<Seq<char>> {
    qualifying_ids_upto(cfg, lines, lines.len() as int)
}

/// The decision owed for a run: nothing unless the product class is active
/// and some line qualifies; else one operation with one candidate.
pub open spec fn expected_decision(
    cfg: DiscountConfig,
    classes: Seq<DiscountClass>,
    lines: Seq<CartLine>,
) -> Seq<OperationView> {
    let targets = qualifying_ids(cfg, lines);
    if !classes.contains(DiscountClass::Product) || targets.len() == 0 {
        Seq::empty()
    } else {
        seq![
            OperationView {
                selection_strategy: SelectionStrategy::First,
                candidates: seq![
                    CandidateView {
                        targets,
                        percentage: cfg.percentage,
                        message: cfg.message@,
                        discount_code: crate::cart::opt_view(cfg.discount_code),
                    },
                ],
            },
        ]
    }
}

/// Whether `index` holds `v`.
pub fn index_contains(index: &Vec<String>, v: &String) -> (r: bool)
    ensures
        r == views(index@).contains(v@),
{
    let mut i: usize = 0;
    while i < index.len()
        invariant
            i <= index@.len(),
            forall|j: int| 0 <= j < i ==> index@[j]@ != v@,
        decreases index@.len() - i,
    {
        if index[i] == *v {
            assert(views(index@)[i as int] == v@);
            return true;
        }
        i += 1;
    }
    proof {
        if views(index@).contains(v@) {
            let j = choose|j: int| 0 <= j < views(index@).len() && views(index@)[j] == v@;
            assert(index@[j]@ == v@);
        }
    }
    false
}

/// Whether `sku` is one of the configured eligible SKUs.
pub fn is_eligible_sku(cfg: &DiscountConfig, sku: &String) -> (r: bool)
    ensures
        r == sku_eligible(*cfg, sku@),
{
    index_contains(&cfg.eligible_skus, sku)
}

/// The frame specification numbers of the cart's parent lines: a value is
/// in the index exactly when some parent line carries it.
pub fn frame_spec_index(cfg: &DiscountConfig, lines: &Vec<CartLine>) -> (r: Vec<String>)
    ensures
        forall|v: Seq<char>| views(r@).contains(v) <==> spec_in_cart(*cfg, lines@, v),
{
    let mut index: Vec<String> = Vec::new();
    let mut i: usize = 0;
    while i < lines.len()
        invariant
            i <= lines@.len(),
            forall|v: Seq<char>|
                views(index@).contains(v) <==> exists|k: int|
                    0 <= k < i && #[trigger] parent_spec(*cfg, lines@[k]) == Some(v),
        decreases lines@.len() - i,
    {
        let line = &lines[i];
        let spec_value = match sku_of(line) {
            Some(sku) => if is_eligible_sku(cfg, sku) && *sku != cfg.addition_sku {
                line_attribute(line, &cfg.spec_attribute)
            } else {
                None
            },
            None => None,
        };
        assert(spec_value.is_some() ==> parent_spec(*cfg, lines@[i as int]) == Some(spec_value.unwrap()@));
        assert(spec_value.is_none() ==> parent_spec(*cfg, lines@[i as int]).is_none());
        let ghost old_index = index@;
        if let Some(v) = spec_value {
            index.push(v.clone());
            assert(views(index@) =~= views(old_index).push(v@));
        }
        assert forall|v: Seq<char>|
            views(index@).contains(v) <==> exists|k: int|
                0 <= k < i + 1 && #[trigger] parent_spec(*cfg, lines@[k]) == Some(v) by {
            if views(index@).contains(v) {
                if views(old_index).contains(v) {
                    let k = choose|k: int| 0 <= k < i && #[trigger] parent_spec(*cfg, lines@[k]) == Some(v);
                    assert(0 <= k < i + 1 && parent_spec(*cfg, lines@[k]) == Some(v));
                } else {
                    let j = choose|j: int| 0 <= j < views(index@).len() && views(index@)[j] == v;
                    assert(spec_value.is_some());
                    assert(views(index@) =~= views(old_index).push(spec_value.unwrap()@));
                    if j < views(old_index).len() {
                        assert(views(old_index)[j] == v);
                    }
                    assert(parent_spec(*cfg, lines@[i as int]) == Some(v));
                }
            }
            if exists|k: int| 0 <= k < i + 1 && #[trigger] parent_spec(*cfg, lines@[k]) == Some(v) {
                let k = choose|k: int| 0 <= k < i + 1 && #[trigger] parent_spec(*cfg, lines@[k]) == Some(v);
                if k < i {
                    assert(views(old_index).contains(v));
                    let j = choose|j: int| 0 <= j < views(old_index).len() && views(old_index)[j] == v;
                    if spec_value.is_some() {
                        assert(views(index@)[j] == v);
                    } else {
                        assert(views(index@) == views(old_index));
                    }
                } else {
                    assert(views(index@) =~= views(old_index).push(v));
                    assert(views(index@)[views(index@).len() - 1] == v);
                }
            }
        }
        i += 1;
    }
    index
}

/// Whether `line` receives the discount, given the index of the cart's
/// parent specifications.
pub(crate) fn qualifies(
    cfg: &DiscountConfig,
    index: &Vec<String>,
    line: &CartLine,
    Ghost(lines): Ghost<Seq<CartLine>>,
) -> (r: bool)
    requires
        forall|v: Seq<char>| views(index@).contains(v) <==> spec_in_cart(*cfg, lines, v),
    ensures
        r == line_qualifies(*cfg, lines, *line),
{
    match sku_of(line) {
        None => false,
        Some(sku) => if *sku == cfg.addition_sku {
            match line_attribute(line, &cfg.parent_attribute) {
                Some(parent) => index_contains(index, parent),
                None => false,
            }
        } else {
            is_eligible_sku(cfg, sku)
        },
    }
}

/// Identifiers of the cart's qualifying lines, in cart order.
pub fn qualifying_targets(cfg: &DiscountConfig, lines: &Vec<CartLine>) -> (r: Vec<String>)
    ensures
        views(r@) == qualifying_ids(*cfg, lines@),
{
    let index = frame_spec_index(cfg, lines);
    let mut targets: Vec<String> = Vec::new();
    let mut i: usize = 0;
    while i < lines.len()
        invariant
            i <= lines@.len(),
            forall|v: Seq<char>| views(index@).contains(v) <==> spec_in_cart(*cfg, lines@, v),
            views(targets@) == qualifying_ids_upto(*cfg, lines@, i as int),
        decreases lines@.len() - i,
    {
        let line = &lines[i];
        let ghost old_targets = targets@;
        if qualifies(cfg, &index, line, Ghost(lines@)) {
            targets.push(line.id.clone());
            assert(views(targets@) =~= views(old_targets).push(line.id@));
        }
        i += 1;
    }
    targets
}

/// Decides the discount for one run: nothing when the product class is not
/// active or no line qualifies; else one operation, strategy first, with one
/// candidate whose targets are the qualifying lines in cart order.
pub fn cart_lines_discounts_generate_run(cfg: &DiscountConfig, input: &RunInput) -> (r:
    DiscountDecision)
    ensures
        r@ == expected_decision(*cfg, input.discount_classes@, input.lines@),
{
    if !has_product_class(&input.discount_classes) {
        return DiscountDecision::empty();
    }
    let targets = qualifying_targets(cfg, &input.lines);
    if targets.len() == 0 {
        return DiscountDecision::empty();
    }
    let candidate = DiscountCandidate {
        targets,
        percentage: cfg.percentage,
        message: cfg.message.clone(),
        discount_code: match &cfg.discount_code {
            Some(code) => Some(code.clone()),
            None => None,
        },
    };
    let operation = DiscountOperation {
        selection_strategy: SelectionStrategy::First,
        candidates: vec![candidate],
    };
    let r = DiscountDecision { operations: vec![operation] };
    assert(r@ =~= expected_decision(*cfg, input.discount_classes@, input.lines@)) by {
        assert(operation@.candidates =~= seq![candidate@]);
    }
    r
}

} // verus!
