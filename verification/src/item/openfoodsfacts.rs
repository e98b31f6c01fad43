//! Plain product data as returned by the grocery-product lookup service.
//!
//! The network fetch and JSON decoding are the embedder's work; this
//! module holds the value types the verified mapping functions consume,
//! and the acceptance rule for a lookup response.

use vstd::prelude::*;

verus! {

/// The status code a successful product lookup reports.
pub const OK_STATUS: u8 = 1;

/// The product fields this application reads from a lookup response.
#[derive(Debug, Clone)]
pub struct OpenFoodFactsProduct {
    pub product_name: String,
    pub brands: String,
    pub quantity: String,
    pub image_url: String,
    pub image_thumb_url: String,
    pub packaging: String,
}

impl Default for OpenFoodFactsProduct {
    /// All fields default to the empty string.
    fn default() -> (r: OpenFoodFactsProduct)
        ensures
            r.product_name@.len() == 0,
            r.brands@.len() == 0,
            r.quantity@.len() == 0,
            r.image_url@.len() == 0,
            r.image_thumb_url@.len() == 0,
            r.packaging@.len() == 0,
    {
        OpenFoodFactsProduct {
            product_name: String::new(),
            brands: String::new(),
            quantity: String::new(),
            image_url: String::new(),
            image_thumb_url: String::new(),
            packaging: String::new(),
        }
    }
}

/// Qualitative nutrient levels of a product.
#[derive(Debug, Clone)]
pub struct NutrientLevels {
    fat: String,
    salt: String,
    saturated_fat: String,
    sugars: String,
}

impl NutrientLevels {
    /// Whether every level is the empty string.
    pub closed spec fn spec_is_empty(&self) -> bool {
        &&& self.fat@.len() == 0
        &&& self.salt@.len() == 0
        &&& self.saturated_fat@.len() == 0
        &&& self.sugars@.len() == 0
    }
}

impl Default for NutrientLevels {
    /// All levels default to the empty string.
    fn default() -> (r: NutrientLevels)
        ensures
            r.spec_is_empty(),
    {
        NutrientLevels {
            fat: String::new(),
            salt: String::new(),
            saturated_fat: String::new(),
            sugars: String::new(),
        }
    }
}

/// Whether a lookup response carries a usable product: the status must be
/// [`OK_STATUS`] and a product object must be present.
pub fn response_has_product(status: u8, has_product: bool) -> (b: bool)
    ensures
        b == (status == OK_STATUS && has_product),
{
    status == OK_STATUS && has_product
}

} // verus!
