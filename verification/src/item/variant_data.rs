//! Item variants: one purchasable variant of a shopping-list item, with
//! optional barcode and product metadata.

use crate::barcode_scanner::{Barcode, OptionBarcode};
use crate::item::openfoodsfacts::OpenFoodFactsProduct;
use vstd::prelude::*;

verus! {

/// One variant of an item.  `ID` is `i64` for stored variants and `()`
/// for variants not yet inserted.
#[derive(Debug, Clone)]
pub struct VariantImpl<ID> {
    pub id: ID,
    pub name: String,
    pub shop: String,
    pub barcode: OptionBarcode,
    pub brands: String,
    pub img_url: Option<String>,
    pub thumb_url: Option<String>,
    pub packaging: String,
    pub quantity: String,
}

/// A stored variant.
pub type Variant = VariantImpl<i64>;

/// A variant not yet inserted.
pub type NewVariant = VariantImpl<()>;

/// The shape of a freshly created, empty variant.
pub open spec fn is_default_new_variant(v: NewVariant) -> bool {
    &&& v.name@.len() == 0
    &&& v.shop@.len() == 0
    &&& v.barcode.0 is None
    &&& v.brands@.len() == 0
    &&& v.img_url is None
    &&& v.thumb_url is None
    &&& v.packaging@.len() == 0
    &&& v.quantity@.len() == 0
}

impl Default for NewVariant {
    /// An empty variant: no barcode, every text field empty.
    fn default() -> (r: NewVariant)
        ensures
            is_default_new_variant(r),
    {
        NewVariant {
            id: (),
            name: String::new(),
            shop: String::new(),
            barcode: OptionBarcode::none(),
            brands: String::new(),
            img_url: None,
            thumb_url: None,
            packaging: String::new(),
            quantity: String::new(),
        }
    }
}

/// The stored variant that assigning `id` to `v` yields.
pub open spec fn with_id_spec(v: NewVariant, id: i64) -> Variant {
    Variant {
        id,
        name: v.name,
        shop: v.shop,
        barcode: v.barcode,
        brands: v.brands,
        img_url: v.img_url,
        thumb_url: v.thumb_url,
        packaging: v.packaging,
        quantity: v.quantity,
    }
}

impl NewVariant {
    /// Fills a variant from a fetched product description and the barcode
    /// that selected it.  This is the computing half of the product
    /// lookup; the fetch itself is the embedder's work.
    pub fn from_product(barcode: Barcode, data: OpenFoodFactsProduct) -> (r: NewVariant)
        ensures
            r.name == data.product_name,
            r.shop@.len() == 0,
            r.barcode.0 == Some(barcode),
            r.brands == data.brands,
            r.img_url == Some(data.image_url),
            r.thumb_url == Some(data.image_thumb_url),
            r.packaging == data.packaging,
            r.quantity == data.quantity,
    {
        NewVariant {
            id: (),
            name: data.product_name,
            shop: String::new(),
            barcode: OptionBarcode::some(barcode),
            brands: data.brands,
            img_url: Some(data.image_url),
            thumb_url: Some(data.image_thumb_url),
            packaging: data.packaging,
            quantity: data.quantity,
        }
    }

    /// Turns this variant into a stored one carrying the id a database
    /// insert returned.
    pub fn with_id(self, id: i64) -> (r: Variant)
        ensures
            r == with_id_spec(self, id),
    {
        Variant {
            id,
            name: self.name,
            shop: self.shop,
            barcode: self.barcode,
            brands: self.brands,
            img_url: self.img_url,
            thumb_url: self.thumb_url,
            packaging: self.packaging,
            quantity: self.quantity,
        }
    }
}

/// A variant whose server insert is still in flight.
#[derive(Debug, Clone)]
pub struct PendingVariant(pub NewVariant);

impl From<NewVariant> for PendingVariant {
    fn from(value: NewVariant) -> (r: PendingVariant) {
        PendingVariant(value)
    }
}

impl vstd::std_specs::convert::FromSpecImpl<NewVariant> for PendingVariant {
    open spec fn obeys_from_spec() -> bool {
        true
    }

    open spec fn from_spec(v: NewVariant) -> PendingVariant {
        PendingVariant(v)
    }
}

} // verus!
