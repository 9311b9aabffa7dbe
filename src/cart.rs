use vstd::prelude::*;

verus! {

/// A category of discount that the host says is active for this run.
#[derive(Clone, Copy, Debug, PartialEq, Eq, Structural)]
pub enum DiscountClass {
    Order,
    Product,
    Shipping,
}

/// A custom attribute on a cart line: a key and an optional value.
#[derive(Clone, Debug)]
pub struct Attribute {
    pub key: String,
    pub value: Option<String>,
}

/// What a cart line sells: a product variant, which may carry a SKU, or
/// something else (a gift card, a custom product).
#[derive(Clone, Debug)]
pub enum Merchandise {
    ProductVariant { sku: Option<String> },
    Other,
}

/// One line of the cart.
#[derive(Clone, Debug)]
pub struct CartLine {
    pub id: String,
    pub merchandise: Merchandise,
    pub attributes: Vec<Attribute>,
}

/// The snapshot handed to one run: the active discount classes and the
/// cart's lines, in cart order.
#[derive(Clone, Debug)]
pub struct RunInput {
    pub discount_classes: Vec<DiscountClass>,
    pub lines: Vec<CartLine>,
}

pub open spec fn opt_view(o: Option<String>) -> Option<Seq<char>> {
    match o {
        Some(s) => Some(s@),
        None => None,
    }
}

/// The value of the first attribute at or after position `i` whose key is
/// `key`; `None` when there is no such attribute or it has no value.
pub open spec fn attribute_value_from(attrs: Seq<Attribute>, key: Seq<char>, i: int) -> Option<
    Seq<char>,
>
    decreases attrs.len() - i,
{
    if i < 0 || i >= attrs.len() {
        None
    } else if attrs[i].key@ == key {
        opt_view(attrs[i].value)
    } else {
        attribute_value_from(attrs, key, i + 1)
    }
}

/// The value of the attribute named `key` among `attrs`.
pub open spec fn attribute_value(attrs: Seq<Attribute>, key: Seq<char>) -> Option<Seq<char>> {
    attribute_value_from(attrs, key, 0)
}

/// The SKU of a line: present only for a product variant that has one.
pub open spec fn line_sku(line: CartLine) -> Option<Seq<char>> {
    match line.merchandise {
        Merchandise::ProductVariant { sku: Some(s) } => Some(s@),
        _ => None,
    }
}

/// Whether `classes` holds the product class.
pub fn has_product_class(classes: &Vec<DiscountClass>) -> (r: bool)
    ensures
        r == classes@.contains(DiscountClass::Product),
{
    let mut i: usize = 0;
    while i < classes.len()
        invariant
            i <= classes@.len(),
            forall|j: int| 0 <= j < i ==> classes@[j] != DiscountClass::Product,
        decreases classes@.len() - i,
    {
        if classes[i] == DiscountClass::Product {
            assert(classes@[i as int] == DiscountClass::Product);
            return true;
        }
        i += 1;
    }
    false
}

/// The value of the attribute named `key` on `line`.
pub fn line_attribute<'a>(line: &'a CartLine, key: &String) -> (r: Option<&'a String>)
    ensures
        match r {
            Some(v) => attribute_value(line.attributes@, key@) == Some(v@),
            None => attribute_value(line.attributes@, key@).is_none(),
        },
{
    let attrs = &line.attributes;
    let mut i: usize = 0;
    while i < attrs.len()
        invariant
            i <= attrs@.len(),
            attrs == &line.attributes,
            attribute_value(attrs@, key@) == attribute_value_from(attrs@, key@, i as int),
        decreases attrs@.len() - i,
    {
        if attrs[i].key == *key {
            return match &attrs[i].value {
                Some(v) => Some(v),
                None => None,
            };
        }
        i += 1;
    }
    None
}

/// The SKU of `line`, when its merchandise is a product variant that has one.
pub fn sku_of(line: &CartLine) -> (r: Option<&String>)
    ensures
        match r {
            Some(s) => line_sku(*line) == Some(s@),
            None => line_sku(*line).is_none(),
        },
{
    match &line.merchandise {
        Merchandise::ProductVariant { sku: Some(s) } => Some(s),
        _ => None,
    }
}

} // verus!
