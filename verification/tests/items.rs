use shopping_list::barcode_scanner::Barcode;
use shopping_list::item::data::{saturating_as, ItemRow, NewItem};
use shopping_list::item::openfoodsfacts::{response_has_product, OpenFoodFactsProduct};
use shopping_list::item::server_functions::ItemIds;
use shopping_list::item::variant_data::NewVariant;
use shopping_list::item::ItemData;

fn product() -> OpenFoodFactsProduct {
    OpenFoodFactsProduct {
        product_name: "Nutella".to_string(),
        brands: "Ferrero".to_string(),
        quantity: "450 g".to_string(),
        image_url: "https://example.org/full.jpg".to_string(),
        image_thumb_url: "https://example.org/thumb.jpg".to_string(),
        packaging: "Glass jar".to_string(),
    }
}

#[test]
fn new_item_default_has_one_count_and_no_variants() {
    let i = NewItem::default();
    assert_eq!(i.amount, 1);
    assert!(!i.completed);
    assert!(i.variants.is_empty());
}

#[test]
fn with_default_variant_holds_one_empty_variant() {
    let i = NewItem::with_default_variant();
    assert_eq!(i.variants.len(), 1);
    let v = &i.variants[0];
    assert!(v.name.is_empty());
    assert!(v.barcode.0.is_none());
    assert!(v.img_url.is_none());
}

#[test]
fn item_from_product_carries_all_fields() {
    let b = Barcode::ean13(4_006_381_333_931).unwrap();
    let i = NewItem::from_product(b, product());
    assert_eq!(i.variants.len(), 1);
    let v = &i.variants[0];
    assert_eq!(v.name, "Nutella");
    assert_eq!(v.barcode.0, Some(b));
    assert_eq!(v.brands, "Ferrero");
    assert_eq!(v.img_url.as_deref(), Some("https://example.org/full.jpg"));
    assert_eq!(v.thumb_url.as_deref(), Some("https://example.org/thumb.jpg"));
    assert_eq!(v.packaging, "Glass jar");
    assert_eq!(v.quantity, "450 g");
}

#[test]
fn item_data_from_product_carries_all_fields() {
    let b = Barcode::ean13(4_006_381_333_931).unwrap();
    let d = ItemData::from_product(b, product());
    assert_eq!(d.name, "Nutella");
    assert_eq!(d.amount, 1);
    assert_eq!(d.barcode.0, Some(b));
    assert_eq!(d.brands.as_deref(), Some("Ferrero"));
    assert_eq!(d.quantity.as_deref(), Some("450 g"));
}

#[test]
fn with_ids_pairs_variants_in_order() {
    let b = Barcode::ean8(96_385_074).unwrap();
    let mut item = NewItem::with_default_variant();
    item.variants.push(NewVariant::from_product(b, product()));
    let ids = ItemIds { item_id: 42, variant_ids: vec![7, 8] };
    let stored = item.with_ids(&ids);
    assert_eq!(stored.id, 42);
    assert_eq!(stored.variants.len(), 2);
    assert_eq!(stored.variants[0].id, 7);
    assert_eq!(stored.variants[1].id, 8);
    assert_eq!(stored.variants[1].name, "Nutella");
}

#[test]
fn with_ids_drops_surplus_on_either_side() {
    let item = NewItem::with_default_variant();
    let ids = ItemIds { item_id: 1, variant_ids: vec![5, 6, 7] };
    assert_eq!(item.with_ids(&ids).variants.len(), 1);

    let mut item = NewItem::with_default_variant();
    item.variants.push(NewVariant::default());
    let ids = ItemIds { item_id: 1, variant_ids: vec![5] };
    let stored = item.with_ids(&ids);
    assert_eq!(stored.variants.len(), 1);
    assert_eq!(stored.variants[0].id, 5);
}

#[test]
fn item_row_assembly_clamps_negative_amounts() {
    let row = ItemRow { id: 9, amount: -3, completed: true };
    let item = row.into_item(Vec::new());
    assert_eq!(item.id, 9);
    assert_eq!(item.amount, 0);
    assert!(item.completed);

    let row = ItemRow { id: 10, amount: 5, completed: false };
    assert_eq!(row.into_item(Vec::new()).amount, 5);
}

#[test]
fn saturating_as_clamps_at_zero() {
    assert_eq!(saturating_as(-1), 0);
    assert_eq!(saturating_as(0), 0);
    assert_eq!(saturating_as(i64::MAX), i64::MAX as u64);
    assert_eq!(saturating_as(i64::MIN), 0);
}

#[test]
fn lookup_response_acceptance() {
    assert!(response_has_product(1, true));
    assert!(!response_has_product(1, false));
    assert!(!response_has_product(0, true));
    assert!(!response_has_product(2, true));
}
