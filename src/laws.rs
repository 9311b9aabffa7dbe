use vstd::prelude::*;
use crate::cart::{attribute_value, line_sku, CartLine, DiscountClass, Merchandise, RunInput};
use crate::classify::{
    expected_decision, is_parent, line_qualifies, parent_spec, qualifying_ids,
    qualifying_ids_upto, spec_in_cart,
};
use crate::config::DiscountConfig;
use crate::decision::{DiscountDecision, SelectionStrategy};

verus! {

/// Whether `line` qualifies in the cart of `lines`, as a predicate on lines.
pub open spec fn qualifier(cfg: DiscountConfig, lines: Seq<CartLine>) -> spec_fn(CartLine) -> bool {
    |l: CartLine| line_qualifies(cfg, lines, l)
}

proof fn lemma_ids_upto_members(cfg: DiscountConfig, lines: Seq<CartLine>, n: int)
    requires
        0 <= n <= lines.len(),
    ensures
        forall|x: Seq<char>|
            qualifying_ids_upto(cfg, lines, n).contains(x) <==> exists|i: int|
                0 <= i < n && line_qualifies(cfg, lines, lines[i]) && #[trigger] lines[i].id@
                    == x,
    decreases n,
{
    if n > 0 {
        lemma_ids_upto_members(cfg, lines, n - 1);
        let rest = qualifying_ids_upto(cfg, lines, n - 1);
        assert forall|x: Seq<char>|
            qualifying_ids_upto(cfg, lines, n).contains(x) <==> exists|i: int|
                0 <= i < n && line_qualifies(cfg, lines, lines[i]) && #[trigger] lines[i].id@
                    == x by {
            if line_qualifies(cfg, lines, lines[n - 1]) {
                let s = rest.push(lines[n - 1].id@);
                if s.contains(x) {
                    let j = choose|j: int| 0 <= j < s.len() && s[j] == x;
                    if j < rest.len() {
                        assert(rest[j] == x);
                        assert(rest.contains(x));
                    } else {
                        assert(lines[n - 1].id@ == x);
                    }
                }
                if exists|i: int|
                    0 <= i < n && line_qualifies(cfg, lines, lines[i]) && #[trigger] lines[i].id@
                        == x {
                    let i = choose|i: int|
                        0 <= i < n && line_qualifies(cfg, lines, lines[i]) && #[trigger] lines[i].id@
                            == x;
                    if i < n - 1 {
                        assert(rest.contains(x));
                        let j = choose|j: int| 0 <= j < rest.len() && rest[j] == x;
                        assert(s[j] == x);
                    } else {
                        assert(s[s.len() - 1] == x);
                    }
                }
            }
        }
    }
}

proof fn lemma_ids_upto_filter(cfg: DiscountConfig, lines: Seq<CartLine>, n: int)
    requires
        0 <= n <= lines.len(),
    ensures
        qualifying_ids_upto(cfg, lines, n) == lines.take(n).filter(qualifier(cfg, lines)).map_values(
            |l: CartLine| l.id@,
        ),
    decreases n,
{
    reveal(Seq::filter);
    let f = qualifier(cfg, lines);
    if n == 0 {
        assert(lines.take(0).filter(f).map_values(|l: CartLine| l.id@) =~= Seq::empty());
    } else {
        lemma_ids_upto_filter(cfg, lines, n - 1);
        assert(lines.take(n).drop_last() =~= lines.take(n - 1));
        assert(lines.take(n).last() == lines[n - 1]);
        let sub = lines.take(n - 1).filter(f);
        if line_qualifies(cfg, lines, lines[n - 1]) {
            assert(sub.push(lines[n - 1]).map_values(|l: CartLine| l.id@) =~= sub.map_values(
                |l: CartLine| l.id@,
            ).push(lines[n - 1].id@));
        }
    }
}

/// When the product class is not active, no discount is given, whatever
/// the cart holds.
pub proof fn lemma_no_product_class_no_discount(
    cfg: DiscountConfig,
    classes: Seq<DiscountClass>,
    lines: Seq<CartLine>,
)
    requires
        !classes.contains(DiscountClass::Product),
    ensures
        expected_decision(cfg, classes, lines) == Seq::<crate::decision::OperationView>::empty(),
{
}

/// When no line of the cart qualifies, no discount is given; and no
/// decision ever holds an operation with an empty target list.
pub proof fn lemma_no_qualifying_line_no_discount(
    cfg: DiscountConfig,
    classes: Seq<DiscountClass>,
    lines: Seq<CartLine>,
)
    ensures
        (forall|i: int| 0 <= i < lines.len() ==> !line_qualifies(cfg, lines, #[trigger] lines[i]))
            ==> expected_decision(cfg, classes, lines) == Seq::<
            crate::decision::OperationView,
        >::empty(),
        forall|k: int, c: int|
            0 <= k < expected_decision(cfg, classes, lines).len() && 0 <= c
                < expected_decision(cfg, classes, lines)[k].candidates.len() ==> #[trigger] expected_decision(
                cfg,
                classes,
                lines,
            )[k].candidates[c].targets.len() > 0,
{
    lemma_ids_upto_members(cfg, lines, lines.len() as int);
    let ids = qualifying_ids(cfg, lines);
    if ids.len() > 0 {
        assert(ids.contains(ids[0]));
    }
}

/// When the product class is active and some line qualifies, exactly one
/// operation is given, with strategy first and one candidate whose targets
/// are the identifiers of the qualifying lines in cart order.
pub proof fn lemma_qualifying_lines_one_operation(
    cfg: DiscountConfig,
    classes: Seq<DiscountClass>,
    lines: Seq<CartLine>,
    i: int,
)
    requires
        classes.contains(DiscountClass::Product),
        0 <= i < lines.len(),
        line_qualifies(cfg, lines, lines[i]),
    ensures
        expected_decision(cfg, classes, lines).len() == 1,
        expected_decision(cfg, classes, lines)[0].selection_strategy == SelectionStrategy::First,
        expected_decision(cfg, classes, lines)[0].candidates.len() == 1,
        expected_decision(cfg, classes, lines)[0].candidates[0].targets == lines.filter(
            qualifier(cfg, lines),
        ).map_values(|l: CartLine| l.id@),
        expected_decision(cfg, classes, lines)[0].candidates[0].percentage == cfg.percentage,
{
    lemma_ids_upto_members(cfg, lines, lines.len() as int);
    lemma_ids_upto_filter(cfg, lines, lines.len() as int);
    assert(lines.take(lines.len() as int) =~= lines);
    assert(qualifying_ids(cfg, lines).contains(lines[i].id@));
}

/// A value is among the targets exactly when it is the identifier of a
/// qualifying line.
pub proof fn lemma_targets_are_qualifying_ids(cfg: DiscountConfig, lines: Seq<CartLine>)
    ensures
        forall|x: Seq<char>|
            qualifying_ids(cfg, lines).contains(x) <==> exists|i: int|
                0 <= i < lines.len() && line_qualifies(cfg, lines, lines[i]) && #[trigger] lines[i].id@
                    == x,
{
    lemma_ids_upto_members(cfg, lines, lines.len() as int);
}

/// Two runs on the same configuration and snapshot give the same decision.
pub proof fn lemma_run_is_deterministic(
    cfg: DiscountConfig,
    input: RunInput,
    first: DiscountDecision,
    second: DiscountDecision,
)
    requires
        first@ == expected_decision(cfg, input.discount_classes@, input.lines@),
        second@ == expected_decision(cfg, input.discount_classes@, input.lines@),
    ensures
        first@ == second@,
{
}

/// An addition line qualifies exactly when its parent design attribute names
/// the specification of some parent line of the same cart; such a parent
/// qualifies on its own. In a cart with no parent line, no addition line
/// qualifies.
pub proof fn lemma_addition_needs_parent(cfg: DiscountConfig, lines: Seq<CartLine>, i: int)
    requires
        0 <= i < lines.len(),
        line_sku(lines[i]) == Some(cfg.addition_sku@),
    ensures
        line_qualifies(cfg, lines, lines[i]) <==> {
            &&& attribute_value(lines[i].attributes@, cfg.parent_attribute@) is Some
            &&& exists|j: int|
                0 <= j < lines.len() && is_parent(cfg, lines[j]) && #[trigger] attribute_value(
                    lines[j].attributes@,
                    cfg.spec_attribute@,
                ) == attribute_value(lines[i].attributes@, cfg.parent_attribute@)
        },
        forall|j: int|
            0 <= j < lines.len() && #[trigger] is_parent(cfg, lines[j]) ==> line_qualifies(
                cfg,
                lines,
                lines[j],
            ),
        (forall|j: int| 0 <= j < lines.len() ==> !#[trigger] is_parent(cfg, lines[j]))
            ==> !line_qualifies(cfg, lines, lines[i]),
{
    let design = attribute_value(lines[i].attributes@, cfg.parent_attribute@);
    if line_qualifies(cfg, lines, lines[i]) {
        let p = design.unwrap();
        assert(spec_in_cart(cfg, lines, p));
        let j = choose|j: int| 0 <= j < lines.len() && #[trigger] parent_spec(cfg, lines[j]) == Some(p);
        assert(is_parent(cfg, lines[j]));
        assert(attribute_value(lines[j].attributes@, cfg.spec_attribute@) == design);
    }
    if design is Some && exists|j: int|
        0 <= j < lines.len() && is_parent(cfg, lines[j]) && #[trigger] attribute_value(
            lines[j].attributes@,
            cfg.spec_attribute@,
        ) == design {
        let j = choose|j: int|
            0 <= j < lines.len() && is_parent(cfg, lines[j]) && #[trigger] attribute_value(
                lines[j].attributes@,
                cfg.spec_attribute@,
            ) == design;
        assert(parent_spec(cfg, lines[j]) == design);
    }
}

/// A line whose merchandise is not a product variant never qualifies, and
/// its identifier is among the targets only if another line that qualifies
/// shares it.
pub proof fn lemma_non_variant_never_targeted(cfg: DiscountConfig, lines: Seq<CartLine>, i: int)
    requires
        0 <= i < lines.len(),
        lines[i].merchandise is Other,
    ensures
        !line_qualifies(cfg, lines, lines[i]),
        (forall|j: int| 0 <= j < lines.len() && j != i ==> #[trigger] lines[j].id@ != lines[i].id@)
            ==> !qualifying_ids(cfg, lines).contains(lines[i].id@),
{
    lemma_ids_upto_members(cfg, lines, lines.len() as int);
}

} // verus!
