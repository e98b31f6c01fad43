//! Item data as the UI consumes it: a flattened view of one item with its
//! primary product metadata, plus the submodules holding the stored
//! shapes, variants, and product-lookup types.

pub mod data;
pub mod openfoodsfacts;
pub mod server_functions;
pub mod variant_data;

use crate::barcode_scanner::{Barcode, OptionBarcode};
use crate::item::openfoodsfacts::OpenFoodFactsProduct;
use vstd::prelude::*;

verus! {

/// The fields of one displayed item.
#[derive(Debug, Clone)]
pub struct ItemData {
    pub name: String,
    pub amount: i64,
    pub barcode: OptionBarcode,
    pub brands: Option<String>,
    pub img_url: Option<String>,
    pub thumb_url: Option<String>,
    pub quantity: Option<String>,
}

/// One displayed item: its stored id and its data.
#[derive(Debug, Clone)]
pub struct Item {
    pub id: i64,
    pub data: ItemData,
}

impl Default for ItemData {
    /// An empty entry: amount one, no barcode, no metadata.
    fn default() -> (r: ItemData)
        ensures
            r.name@.len() == 0,
            r.amount == 1,
            r.barcode.0 is None,
            r.brands is None,
            r.img_url is None,
            r.thumb_url is None,
            r.quantity is None,
    {
        ItemData {
            name: String::new(),
            amount: 1,
            barcode: OptionBarcode::none(),
            brands: None,
            img_url: None,
            thumb_url: None,
            quantity: None,
        }
    }
}

impl ItemData {
    /// Fills item data from a fetched product description and the barcode
    /// that selected it.  This is the computing half of the product
    /// lookup; the fetch itself is the embedder's work.
    pub fn from_product(barcode: Barcode, product: OpenFoodFactsProduct) -> (r: ItemData)
        ensures
            r.name == product.product_name,
            r.amount == 1,
            r.barcode.0 == Some(barcode),
            r.brands == Some(product.brands),
            r.img_url == Some(product.image_url),
            r.thumb_url == Some(product.image_thumb_url),
            r.quantity == Some(product.quantity),
    {
        ItemData {
            name: product.product_name,
            amount: 1,
            barcode: OptionBarcode::some(barcode),
            brands: Some(product.brands),
            img_url: Some(product.image_url),
            thumb_url: Some(product.image_thumb_url),
            quantity: Some(product.quantity),
        }
    }
}

} // verus!
