use frame_discounts::cart::{
    has_product_class, line_attribute, sku_of, Attribute, CartLine, DiscountClass, Merchandise,
    RunInput,
};
use frame_discounts::classify::{
    cart_lines_discounts_generate_run, frame_spec_index, index_contains, is_eligible_sku,
    qualifying_targets,
};
use frame_discounts::config::{
    digital_frame_config, trade_config, DiscountConfig, ADDITION_SKU, DIGITAL_FRAME_SKU,
    FRAME_SPEC_ATTRIBUTE, PARENT_DESIGN_ATTRIBUTE,
};
use frame_discounts::decision::{DiscountDecision, SelectionStrategy};

fn attr(key: &str, value: &str) -> Attribute {
    Attribute { key: key.to_string(), value: Some(value.to_string()) }
}

fn variant(id: &str, sku: &str, attributes: Vec<Attribute>) -> CartLine {
    CartLine {
        id: id.to_string(),
        merchandise: Merchandise::ProductVariant { sku: Some(sku.to_string()) },
        attributes,
    }
}

fn gift_card(id: &str) -> CartLine {
    CartLine { id: id.to_string(), merchandise: Merchandise::Other, attributes: vec![] }
}

fn product_input(lines: Vec<CartLine>) -> RunInput {
    RunInput { discount_classes: vec![DiscountClass::Product], lines }
}

fn targets_of(d: &DiscountDecision) -> Vec<String> {
    assert_eq!(d.operations.len(), 1);
    assert_eq!(d.operations[0].candidates.len(), 1);
    d.operations[0].candidates[0].targets.clone()
}

#[test]
fn trade_scenario_addition_without_parent() {
    let cfg = trade_config();
    let input = product_input(vec![
        variant("A", "23-001", vec![]),
        variant("B", "CUSTOM-FRAME-ADDITION", vec![attr(PARENT_DESIGN_ATTRIBUTE, "SPEC-9")]),
    ]);
    let d = cart_lines_discounts_generate_run(&cfg, &input);
    assert_eq!(targets_of(&d), vec!["A".to_string()]);
    let op = &d.operations[0];
    assert_eq!(op.selection_strategy, SelectionStrategy::First);
    assert_eq!(op.candidates[0].percentage, 5);
    assert_eq!(op.candidates[0].message, "Additional 5% Off Digital Photo Frames");
    assert_eq!(op.candidates[0].discount_code, Some("ARTISTTRADE5".to_string()));
}

#[test]
fn digital_scenario_frame_and_addition() {
    let cfg = digital_frame_config();
    let input = product_input(vec![
        variant("C", "CUSTOM-FRAME-DIGITAL", vec![attr(FRAME_SPEC_ATTRIBUTE, "SPEC-7")]),
        variant("D", "CUSTOM-FRAME-ADDITION", vec![attr(PARENT_DESIGN_ATTRIBUTE, "SPEC-7")]),
    ]);
    let d = cart_lines_discounts_generate_run(&cfg, &input);
    assert_eq!(targets_of(&d), vec!["C".to_string(), "D".to_string()]);
    let op = &d.operations[0];
    assert_eq!(op.selection_strategy, SelectionStrategy::First);
    assert_eq!(op.candidates[0].percentage, 15);
    assert_eq!(op.candidates[0].message, "15% off digital frames");
    assert_eq!(op.candidates[0].discount_code, None);
}

#[test]
fn gift_card_is_never_a_target() {
    let cfg = trade_config();
    let input = product_input(vec![gift_card("G"), variant("A", "23-001", vec![])]);
    let d = cart_lines_discounts_generate_run(&cfg, &input);
    assert_eq!(targets_of(&d), vec!["A".to_string()]);
    let only_gift = product_input(vec![gift_card("G")]);
    assert!(cart_lines_discounts_generate_run(&cfg, &only_gift).operations.is_empty());
}

#[test]
fn no_product_class_gives_nothing() {
    let cfg = trade_config();
    let lines = vec![variant("A", "23-001", vec![]), variant("B", "10-088", vec![])];
    let input = RunInput {
        discount_classes: vec![DiscountClass::Order, DiscountClass::Shipping],
        lines: lines.clone(),
    };
    assert!(cart_lines_discounts_generate_run(&cfg, &input).operations.is_empty());
    let none = RunInput { discount_classes: vec![], lines };
    assert!(cart_lines_discounts_generate_run(&cfg, &none).operations.is_empty());
}

#[test]
fn no_qualifying_line_gives_nothing() {
    let cfg = digital_frame_config();
    let input = product_input(vec![
        variant("A", "23-001", vec![attr(FRAME_SPEC_ATTRIBUTE, "S1")]),
        variant("B", "CUSTOM-FRAME-ADDITION", vec![attr(PARENT_DESIGN_ATTRIBUTE, "S1")]),
    ]);
    assert!(cart_lines_discounts_generate_run(&cfg, &input).operations.is_empty());
    let empty_cart = product_input(vec![]);
    assert!(cart_lines_discounts_generate_run(&cfg, &empty_cart).operations.is_empty());
}

#[test]
fn same_snapshot_same_decision() {
    let cfg = trade_config();
    let input = product_input(vec![
        variant("P", "CUSTOM-FRAME-DIGITAL", vec![attr(FRAME_SPEC_ATTRIBUTE, "X")]),
        variant("Q", "CUSTOM-FRAME-ADDITION", vec![attr(PARENT_DESIGN_ATTRIBUTE, "X")]),
        variant("R", "99-999", vec![]),
    ]);
    let first = cart_lines_discounts_generate_run(&cfg, &input);
    let second = cart_lines_discounts_generate_run(&cfg, &input);
    assert_eq!(format!("{:?}", first), format!("{:?}", second));
    assert_eq!(targets_of(&first), vec!["P".to_string(), "Q".to_string()]);
}

#[test]
fn addition_follows_matching_parent_only() {
    let cfg = trade_config();
    let input = product_input(vec![
        variant("F1", "23-050", vec![attr(FRAME_SPEC_ATTRIBUTE, "S1")]),
        variant("X1", "CUSTOM-FRAME-ADDITION", vec![attr(PARENT_DESIGN_ATTRIBUTE, "S1")]),
        variant("X2", "CUSTOM-FRAME-ADDITION", vec![attr(PARENT_DESIGN_ATTRIBUTE, "S2")]),
        variant("X3", "CUSTOM-FRAME-ADDITION", vec![]),
        variant("N", "99-999", vec![attr(FRAME_SPEC_ATTRIBUTE, "S2")]),
    ]);
    let d = cart_lines_discounts_generate_run(&cfg, &input);
    assert_eq!(targets_of(&d), vec!["F1".to_string(), "X1".to_string()]);
}

#[test]
fn addition_before_its_parent_still_qualifies() {
    let cfg = digital_frame_config();
    let input = product_input(vec![
        variant("D", "CUSTOM-FRAME-ADDITION", vec![attr(PARENT_DESIGN_ATTRIBUTE, "SPEC-7")]),
        variant("C", "CUSTOM-FRAME-DIGITAL", vec![attr(FRAME_SPEC_ATTRIBUTE, "SPEC-7")]),
    ]);
    let d = cart_lines_discounts_generate_run(&cfg, &input);
    assert_eq!(targets_of(&d), vec!["D".to_string(), "C".to_string()]);
}

#[test]
fn addition_sku_listed_as_eligible_is_no_parent() {
    let cfg = DiscountConfig {
        eligible_skus: vec!["CUSTOM-FRAME-ADDITION".to_string(), "A-1".to_string()],
        addition_sku: ADDITION_SKU.to_string(),
        spec_attribute: FRAME_SPEC_ATTRIBUTE.to_string(),
        parent_attribute: PARENT_DESIGN_ATTRIBUTE.to_string(),
        percentage: 10,
        message: "ten".to_string(),
        discount_code: None,
    };
    let input = product_input(vec![
        variant("X", "CUSTOM-FRAME-ADDITION", vec![
            attr(FRAME_SPEC_ATTRIBUTE, "S"),
            attr(PARENT_DESIGN_ATTRIBUTE, "S"),
        ]),
    ]);
    assert!(cart_lines_discounts_generate_run(&cfg, &input).operations.is_empty());
}

#[test]
fn variant_without_sku_is_skipped() {
    let cfg = trade_config();
    let no_sku = CartLine {
        id: "V".to_string(),
        merchandise: Merchandise::ProductVariant { sku: None },
        attributes: vec![attr(FRAME_SPEC_ATTRIBUTE, "S")],
    };
    let input = product_input(vec![
        no_sku,
        variant("X", "CUSTOM-FRAME-ADDITION", vec![attr(PARENT_DESIGN_ATTRIBUTE, "S")]),
    ]);
    assert!(cart_lines_discounts_generate_run(&cfg, &input).operations.is_empty());
}

#[test]
fn attribute_without_value_gives_no_spec() {
    let cfg = digital_frame_config();
    let frame = variant("C", DIGITAL_FRAME_SKU, vec![Attribute {
        key: FRAME_SPEC_ATTRIBUTE.to_string(),
        value: None,
    }]);
    let lines = vec![frame];
    assert!(frame_spec_index(&cfg, &lines).is_empty());
    assert_eq!(qualifying_targets(&cfg, &lines), vec!["C".to_string()]);
}

#[test]
fn targets_keep_cart_order() {
    let cfg = trade_config();
    let input = product_input(vec![
        variant("L1", "10-260", vec![]),
        variant("L2", "99-999", vec![]),
        variant("L3", "CUSTOM-FRAME-XG-DIGITAL", vec![]),
        gift_card("L4"),
        variant("L5", "21-067", vec![]),
    ]);
    let d = cart_lines_discounts_generate_run(&cfg, &input);
    assert_eq!(targets_of(&d), vec!["L1".to_string(), "L3".to_string(), "L5".to_string()]);
}

#[test]
fn frame_spec_index_collects_parent_specs() {
    let cfg = trade_config();
    let lines = vec![
        variant("A", "23-001", vec![attr(FRAME_SPEC_ATTRIBUTE, "S1")]),
        variant("B", "99-999", vec![attr(FRAME_SPEC_ATTRIBUTE, "S2")]),
        variant("C", "23-002", vec![attr("other", "v"), attr(FRAME_SPEC_ATTRIBUTE, "S3")]),
        variant("D", "23-003", vec![attr(FRAME_SPEC_ATTRIBUTE, "S1")]),
    ];
    let index = frame_spec_index(&cfg, &lines);
    assert!(index_contains(&index, &"S1".to_string()));
    assert!(!index_contains(&index, &"S2".to_string()));
    assert!(index_contains(&index, &"S3".to_string()));
}

#[test]
fn attribute_lookup_takes_the_named_key() {
    let line = variant("A", "23-001", vec![attr("k1", "v1"), attr("k2", "v2")]);
    assert_eq!(line_attribute(&line, &"k2".to_string()), Some(&"v2".to_string()));
    assert_eq!(line_attribute(&line, &"k3".to_string()), None);
    assert_eq!(sku_of(&line), Some(&"23-001".to_string()));
    assert_eq!(sku_of(&gift_card("G")), None);
}

#[test]
fn product_class_detection() {
    assert!(has_product_class(&vec![DiscountClass::Order, DiscountClass::Product]));
    assert!(!has_product_class(&vec![DiscountClass::Order, DiscountClass::Shipping]));
    assert!(!has_product_class(&vec![]));
}

#[test]
fn configurations_hold_their_promotions() {
    let trade = trade_config();
    assert_eq!(trade.eligible_skus.len(), 134);
    assert!(is_eligible_sku(&trade, &"10-088".to_string()));
    assert!(is_eligible_sku(&trade, &"23-113".to_string()));
    assert!(is_eligible_sku(&trade, &"CUSTOM-FRAME-MG-DIGITAL".to_string()));
    assert!(!is_eligible_sku(&trade, &"23-114".to_string()));
    assert!(!is_eligible_sku(&trade, &ADDITION_SKU.to_string()));
    let digital = digital_frame_config();
    assert_eq!(digital.eligible_skus, vec![DIGITAL_FRAME_SKU.to_string()]);
    assert_eq!(digital.percentage, 15);
    assert_eq!(trade.percentage, 5);
}
