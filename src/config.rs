use vstd::prelude::*;
use crate::cart::opt_view;

verus! {

/// The SKU of the add-on line that follows a framed print.
pub const ADDITION_SKU: &'static str = "CUSTOM-FRAME-ADDITION";

/// The SKU of the digital photo frame.
pub const DIGITAL_FRAME_SKU: &'static str = "CUSTOM-FRAME-DIGITAL";

/// The attribute that carries a parent line's frame specification number.
pub const FRAME_SPEC_ATTRIBUTE: &'static str = "_frame_spec_number";

/// The attribute on an addition line that names its parent's specification.
pub const PARENT_DESIGN_ATTRIBUTE: &'static str = "_parent_design";

/// The settings that make one promotion out of the shared classifier.
#[derive(Clone, Debug)]
pub struct DiscountConfig {
    /// SKUs that qualify on their own; a listed SKU other than the
    /// addition SKU also makes its line a parent.
    pub eligible_skus: Vec<String>,
    /// The SKU of add-on lines, which qualify only through a parent.
    pub addition_sku: String,
    /// The attribute that gives a parent line's frame specification number.
    pub spec_attribute: String,
    /// The attribute that names an addition line's parent design.
    pub parent_attribute: String,
    /// Percentage off, in whole percent.
    pub percentage: u64,
    pub message: String,
    /// A discount code that the promotion is tied to, if any.
    pub discount_code: Option<String>,
}

/// The views of a list of strings.
pub open spec fn views(v: Seq<String>) -> Seq<Seq<char>> {
    v.map_values(|s: String| s@)
}

/// The SKUs of the trade promotion: the photo frames and the digital frames.
pub open spec fn trade_skus() -> Seq<Seq<char>> {
    seq![
        "10-088"@, "10-122"@, "10-123"@, "10-124"@, "10-125"@, "10-129"@,
        "10-164"@, "10-175"@, "10-182"@, "10-208"@, "10-260"@, "10-261"@,
        "21-067"@, "21-068"@, "21-069"@, "21-070"@, "22-004"@, "22-005"@,
        "23-001"@, "23-002"@, "23-003"@, "23-004"@, "23-005"@, "23-006"@,
        "23-007"@, "23-008"@, "23-009"@, "23-010"@, "23-011"@, "23-012"@,
        "23-013"@, "23-014"@, "23-015"@, "23-016"@, "23-017"@, "23-018"@,
        "23-019"@, "23-020"@, "23-021"@, "23-022"@, "23-023"@, "23-024"@,
        "23-025"@, "23-026"@, "23-027"@, "23-028"@, "23-029"@, "23-030"@,
        "23-031"@, "23-032"@, "23-033"@, "23-034"@, "23-035"@, "23-036"@,
        "23-037"@, "23-038"@, "23-039"@, "23-040"@, "23-041"@, "23-042"@,
        "23-043"@, "23-044"@, "23-045"@, "23-046"@, "23-047"@, "23-048"@,
        "23-049"@, "23-050"@, "23-051"@, "23-052"@, "23-053"@, "23-054"@,
        "23-055"@, "23-056"@, "23-057"@, "23-058"@, "23-059"@, "23-060"@,
        "23-061"@, "23-062"@, "23-063"@, "23-064"@, "23-065"@, "23-066"@,
        "23-067"@, "23-068"@, "23-069"@, "23-070"@, "23-071"@, "23-072"@,
        "23-073"@, "23-074"@, "23-075"@, "23-076"@, "23-077"@, "23-078"@,
        "23-079"@, "23-080"@, "23-081"@, "23-082"@, "23-083"@, "23-084"@,
        "23-085"@, "23-086"@, "23-087"@, "23-088"@, "23-089"@, "23-090"@,
        "23-091"@, "23-092"@, "23-093"@, "23-094"@, "23-095"@, "23-096"@,
        "23-097"@, "23-098"@, "23-099"@, "23-100"@, "23-101"@, "23-102"@,
        "23-103"@, "23-104"@, "23-105"@, "23-106"@, "23-107"@, "23-108"@,
        "23-109"@, "23-110"@, "23-111"@, "23-112"@, "23-113"@, "CUSTOM-FRAME-DIGITAL"@,
        "CUSTOM-FRAME-MG-DIGITAL"@, "CUSTOM-FRAME-XG-DIGITAL"@,
    ]
}

/// The trade promotion: 5% off every listed SKU, and off each addition
/// whose parent is a listed frame in the same cart, redeemed with a code.
pub fn trade_config() -> (r: DiscountConfig)
    ensures
        views(r.eligible_skus@) == trade_skus(),
        r.addition_sku@ == ADDITION_SKU@,
        r.spec_attribute@ == FRAME_SPEC_ATTRIBUTE@,
        r.parent_attribute@ == PARENT_DESIGN_ATTRIBUTE@,
        r.percentage == 5,
        r.message@ == "Additional 5% Off Digital Photo Frames"@,
        opt_view(r.discount_code) == Some("ARTISTTRADE5"@),
{
    let eligible_skus = vec![
        "10-088".to_owned(), "10-122".to_owned(), "10-123".to_owned(), "10-124".to_owned(),
        "10-125".to_owned(), "10-129".to_owned(), "10-164".to_owned(), "10-175".to_owned(),
        "10-182".to_owned(), "10-208".to_owned(), "10-260".to_owned(), "10-261".to_owned(),
        "21-067".to_owned(), "21-068".to_owned(), "21-069".to_owned(), "21-070".to_owned(),
        "22-004".to_owned(), "22-005".to_owned(), "23-001".to_owned(), "23-002".to_owned(),
        "23-003".to_owned(), "23-004".to_owned(), "23-005".to_owned(), "23-006".to_owned(),
        "23-007".to_owned(), "23-008".to_owned(), "23-009".to_owned(), "23-010".to_owned(),
        "23-011".to_owned(), "23-012".to_owned(), "23-013".to_owned(), "23-014".to_owned(),
        "23-015".to_owned(), "23-016".to_owned(), "23-017".to_owned(), "23-018".to_owned(),
        "23-019".to_owned(), "23-020".to_owned(), "23-021".to_owned(), "23-022".to_owned(),
        "23-023".to_owned(), "23-024".to_owned(), "23-025".to_owned(), "23-026".to_owned(),
        "23-027".to_owned(), "23-028".to_owned(), "23-029".to_owned(), "23-030".to_owned(),
        "23-031".to_owned(), "23-032".to_owned(), "23-033".to_owned(), "23-034".to_owned(),
        "23-035".to_owned(), "23-036".to_owned(), "23-037".to_owned(), "23-038".to_owned(),
        "23-039".to_owned(), "23-040".to_owned(), "23-041".to_owned(), "23-042".to_owned(),
        "23-043".to_owned(), "23-044".to_owned(), "23-045".to_owned(), "23-046".to_owned(),
        "23-047".to_owned(), "23-048".to_owned(), "23-049".to_owned(), "23-050".to_owned(),
        "23-051".to_owned(), "23-052".to_owned(), "23-053".to_owned(), "23-054".to_owned(),
        "23-055".to_owned(), "23-056".to_owned(), "23-057".to_owned(), "23-058".to_owned(),
        "23-059".to_owned(), "23-060".to_owned(), "23-061".to_owned(), "23-062".to_owned(),
        "23-063".to_owned(), "23-064".to_owned(), "23-065".to_owned(), "23-066".to_owned(),
        "23-067".to_owned(), "23-068".to_owned(), "23-069".to_owned(), "23-070".to_owned(),
        "23-071".to_owned(), "23-072".to_owned(), "23-073".to_owned(), "23-074".to_owned(),
        "23-075".to_owned(), "23-076".to_owned(), "23-077".to_owned(), "23-078".to_owned(),
        "23-079".to_owned(), "23-080".to_owned(), "23-081".to_owned(), "23-082".to_owned(),
        "23-083".to_owned(), "23-084".to_owned(), "23-085".to_owned(), "23-086".to_owned(),
        "23-087".to_owned(), "23-088".to_owned(), "23-089".to_owned(), "23-090".to_owned(),
        "23-091".to_owned(), "23-092".to_owned(), "23-093".to_owned(), "23-094".to_owned(),
        "23-095".to_owned(), "23-096".to_owned(), "23-097".to_owned(), "23-098".to_owned(),
        "23-099".to_owned(), "23-100".to_owned(), "23-101".to_owned(), "23-102".to_owned(),
        "23-103".to_owned(), "23-104".to_owned(), "23-105".to_owned(), "23-106".to_owned(),
        "23-107".to_owned(), "23-108".to_owned(), "23-109".to_owned(), "23-110".to_owned(),
        "23-111".to_owned(), "23-112".to_owned(), "23-113".to_owned(), "CUSTOM-FRAME-DIGITAL".to_owned(),
        "CUSTOM-FRAME-MG-DIGITAL".to_owned(), "CUSTOM-FRAME-XG-DIGITAL".to_owned(),
    ];
    assert(views(eligible_skus@) =~= trade_skus());
    DiscountConfig {
        eligible_skus,
        addition_sku: ADDITION_SKU.to_owned(),
        spec_attribute: FRAME_SPEC_ATTRIBUTE.to_owned(),
        parent_attribute: PARENT_DESIGN_ATTRIBUTE.to_owned(),
        percentage: 5,
        message: "Additional 5% Off Digital Photo Frames".to_owned(),
        discount_code: Some("ARTISTTRADE5".to_owned()),
    }
}

/// The digital frame promotion: 15% off digital frames, and off each
/// addition whose parent is a digital frame in the same cart; no code.
pub fn digital_frame_config() -> (r: DiscountConfig)
    ensures
        views(r.eligible_skus@) == seq![DIGITAL_FRAME_SKU@],
        r.addition_sku@ == ADDITION_SKU@,
        r.spec_attribute@ == FRAME_SPEC_ATTRIBUTE@,
        r.parent_attribute@ == PARENT_DESIGN_ATTRIBUTE@,
        r.percentage == 15,
        r.message@ == "15% off digital frames"@,
        r.discount_code.is_none(),
{
    let eligible_skus = vec![DIGITAL_FRAME_SKU.to_owned()];
    assert(views(eligible_skus@) =~= seq![DIGITAL_FRAME_SKU@]);
    DiscountConfig {
        eligible_skus,
        addition_sku: ADDITION_SKU.to_owned(),
        spec_attribute: FRAME_SPEC_ATTRIBUTE.to_owned(),
        parent_attribute: PARENT_DESIGN_ATTRIBUTE.to_owned(),
        percentage: 15,
        message: "15% off digital frames".to_owned(),
        discount_code: None,
    }
}

} // verus!
