//! Shopping-list items: a counted, completable entry with a list of
//! variants.  Database reads and writes are the embedder's work; the
//! assembling and id-pairing logic is verified here.

use crate::barcode_scanner::Barcode;
use crate::item::openfoodsfacts::OpenFoodFactsProduct;
use crate::item::server_functions::ItemIds;
use crate::item::variant_data::{with_id_spec, NewVariant, Variant, VariantImpl};
use vstd::prelude::*;

verus! {

/// A shopping-list item.  `ID` is `i64` for stored items and `()` for
/// items not yet inserted.
#[derive(Debug, Clone)]
pub struct ItemImpl<ID> {
    pub id: ID,
    pub amount: u64,
    pub completed: bool,
    pub variants: Vec<VariantImpl<ID>>,
}

/// A stored item.
pub type Item = ItemImpl<i64>;

/// An item not yet inserted.
pub type NewItem = ItemImpl<()>;

impl Default for NewItem {
    /// A fresh item: amount one, not completed, no variants.
    fn default() -> (r: NewItem)
        ensures
            r.amount == 1,
            !r.completed,
            r.variants@.len() == 0,
    {
        NewItem { id: (), amount: 1, completed: false, variants: Vec::new() }
    }
}

impl NewItem {
    /// A fresh item holding one empty variant.
    pub fn with_default_variant() -> (r: NewItem)
        ensures
            r.amount == 1,
            !r.completed,
            r.variants@.len() == 1,
            crate::item::variant_data::is_default_new_variant(r.variants@[0]),
    {
        let mut variants: Vec<NewVariant> = Vec::new();
        variants.push(NewVariant::default());
        NewItem { id: (), amount: 1, completed: false, variants }
    }

    /// A fresh item holding one variant filled from a fetched product
    /// description.  This is the computing half of creating an item from
    /// a scanned barcode; the lookup itself is the embedder's work.
    pub fn from_product(barcode: Barcode, product: OpenFoodFactsProduct) -> (r: NewItem)
        ensures
            r.amount == 1,
            !r.completed,
            r.variants@.len() == 1,
            r.variants@[0].barcode.0 == Some(barcode),
            r.variants@[0].name == product.product_name,
            r.variants@[0].brands == product.brands,
            r.variants@[0].img_url == Some(product.image_url),
            r.variants@[0].thumb_url == Some(product.image_thumb_url),
            r.variants@[0].packaging == product.packaging,
            r.variants@[0].quantity == product.quantity,
    {
        let mut variants: Vec<NewVariant> = Vec::new();
        variants.push(NewVariant::from_product(barcode, product));
        NewItem { id: (), amount: 1, completed: false, variants }
    }

    /// Pairs this item with the ids a server insert returned: the item
    /// takes the new item id, and each variant takes the id at its
    /// position.  Surplus on either side is dropped.
    pub fn with_ids(self, ids: &ItemIds) -> (r: Item)
        ensures
            r.id == ids.item_id,
            r.amount == self.amount,
            r.completed == self.completed,
            r.variants@.len() == (if self.variants@.len() <= ids.variant_ids@.len() {
                self.variants@.len()
            } else {
                ids.variant_ids@.len()
            }),
            forall|i: int|
                0 <= i < r.variants@.len() ==> #[trigger] r.variants@[i] == with_id_spec(
                    self.variants@[i],
                    ids.variant_ids@[i],
                ),
    {
        let ghost orig = self.variants@;
        let n = if self.variants.len() <= ids.variant_ids.len() {
            self.variants.len()
        } else {
            ids.variant_ids.len()
        };
        let mut src = self.variants;
        let mut variants: Vec<Variant> = Vec::new();
        let mut i: usize = 0;
        while i < n
            invariant
                i <= n,
                n <= orig.len(),
                n <= ids.variant_ids@.len(),
                src@ =~= orig.skip(i as int),
                variants@.len() == i,
                forall|j: int|
                    0 <= j < i ==> #[trigger] variants@[j] == with_id_spec(
                        orig[j],
                        ids.variant_ids@[j],
                    ),
            decreases n - i,
        {
            let v = src.remove(0);
            let id = ids.variant_ids[i];
            variants.push(v.with_id(id));
            proof {
                assert(orig.skip(i as int).drop_first() =~= orig.skip(i as int + 1));
            }
            i = i + 1;
        }
        Item { id: ids.item_id, amount: self.amount, completed: self.completed, variants }
    }
}

/// An item whose server insert is still in flight.
#[derive(Debug, Clone)]
pub struct PendingItem(pub NewItem);

impl From<NewItem> for PendingItem {
    fn from(value: NewItem) -> (r: PendingItem) {
        PendingItem(value)
    }
}

impl vstd::std_specs::convert::FromSpecImpl<NewItem> for PendingItem {
    open spec fn obeys_from_spec() -> bool {
        true
    }

    open spec fn from_spec(v: NewItem) -> PendingItem {
        PendingItem(v)
    }
}

/// One stored item row, before its variants are fetched.
#[derive(Debug, Clone)]
pub struct ItemRow {
    pub id: i64,
    pub amount: i64,
    pub completed: bool,
}

impl ItemRow {
    /// Assembles the stored row and its separately fetched variants into
    /// an item; a negative stored amount is clamped to zero.
    pub fn into_item(self, variants: Vec<Variant>) -> (r: Item)
        ensures
            r.id == self.id,
            r.amount == (if self.amount >= 0 {
                self.amount as u64
            } else {
                0u64
            }),
            r.completed == self.completed,
            r.variants == variants,
    {
        let amount = saturating_as(self.amount);
        Item { id: self.id, amount, completed: self.completed, variants }
    }
}

/// Clamps a signed stored count into the unsigned domain.
pub fn saturating_as(value: i64) -> (r: u64)
    ensures
        r == (if value >= 0 {
            value as u64
        } else {
            0u64
        }),
{
    if value >= 0 {
        value as u64
    } else {
        0
    }
}

} // verus!
