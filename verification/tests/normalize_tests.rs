use digikey_client::normalize::convert_product;
use digikey_client::parts::{
    CategoryInfo, DescriptionInfo, ManufacturerInfo, ParameterInfo, ProductStatus,
    ProductVariation, ProviderProduct,
};
use digikey_client::text::is_obsolete_status;

fn blank_product() -> ProviderProduct {
    ProviderProduct {
        manufacturer_part_number: None,
        manufacturer: None,
        description: None,
        product_url: None,
        datasheet_url: None,
        photo_url: None,
        quantity_available: None,
        unit_price_micros: None,
        product_status: None,
        category: None,
        parameters: None,
        product_variations: None,
    }
}

fn with_status(status: Option<&str>) -> ProviderProduct {
    let mut p = blank_product();
    p.product_status = Some(ProductStatus { status: status.map(|s| s.to_string()) });
    p
}

#[test]
fn discontinued_status_is_obsolete() {
    let part = convert_product(with_status(Some("Discontinued")));
    assert!(part.is_obsolete);
    assert_eq!(part.lifecycle_status, Some("Discontinued".to_string()));
    assert_eq!(part.product_status, Some("Discontinued".to_string()));
}

#[test]
fn active_status_is_not_obsolete() {
    let part = convert_product(with_status(Some("Active")));
    assert!(!part.is_obsolete);
    assert_eq!(part.lifecycle_status, Some("Active".to_string()));
    assert_eq!(part.product_status, Some("Active".to_string()));
}

#[test]
fn absent_status_is_not_obsolete() {
    let part = convert_product(blank_product());
    assert!(!part.is_obsolete);
    assert_eq!(part.lifecycle_status, None);
    assert_eq!(part.product_status, None);
}

#[test]
fn status_object_without_text_is_not_obsolete() {
    let part = convert_product(with_status(None));
    assert!(!part.is_obsolete);
    assert_eq!(part.lifecycle_status, None);
    assert_eq!(part.product_status, None);
}

#[test]
fn obsolescence_check_is_case_insensitive() {
    // An upper-case status only matches after real lower-casing.
    let part = convert_product(with_status(Some("OBSOLETE")));
    assert!(part.is_obsolete);
    assert_eq!(part.lifecycle_status, Some("OBSOLETE".to_string()));
    let part = convert_product(with_status(Some("Last Time Buy")));
    assert!(part.is_obsolete);
    let part = convert_product(with_status(Some("Not For New Designs")));
    assert!(part.is_obsolete);
}

#[test]
fn obsolescence_marker_inside_longer_text() {
    let part = convert_product(with_status(Some("Obsolete - contact factory")));
    assert!(part.is_obsolete);
    assert_eq!(part.lifecycle_status, Some("Obsolete - contact factory".to_string()));
}

#[test]
fn is_obsolete_status_direct() {
    assert!(is_obsolete_status("this part is DISCONTINUED now"));
    assert!(is_obsolete_status("not for new designs"));
    assert!(!is_obsolete_status("Active"));
    assert!(!is_obsolete_status(""));
    assert!(!is_obsolete_status("discontinue"));
}

#[test]
fn catalog_number_from_first_variation() {
    let mut p = blank_product();
    p.product_variations = Some(vec![
        ProductVariation { digikey_product_number: Some("296-1234-ND".to_string()) },
        ProductVariation { digikey_product_number: Some("296-5678-ND".to_string()) },
    ]);
    let part = convert_product(p);
    assert_eq!(part.digikey_part_number, Some("296-1234-ND".to_string()));
}

#[test]
fn catalog_number_absent_without_variations() {
    let mut p = blank_product();
    p.product_variations = Some(vec![]);
    assert_eq!(convert_product(p).digikey_part_number, None);
    assert_eq!(convert_product(blank_product()).digikey_part_number, None);
}

#[test]
fn descriptions_are_unpacked_independently() {
    let mut p = blank_product();
    p.description = Some(DescriptionInfo {
        product_description: Some("short".to_string()),
        detailed_description: None,
    });
    let part = convert_product(p);
    assert_eq!(part.description, Some("short".to_string()));
    assert_eq!(part.detailed_description, None);
}

#[test]
fn nested_names_are_flattened() {
    let mut p = blank_product();
    p.manufacturer_part_number = Some("MPN-1".to_string());
    p.manufacturer = Some(ManufacturerInfo { name: Some("Espressif".to_string()) });
    p.category = Some(CategoryInfo { name: Some("RF".to_string()) });
    p.quantity_available = Some(42);
    p.unit_price_micros = Some(1_250_000);
    let part = convert_product(p);
    assert_eq!(part.manufacturer_part_number, Some("MPN-1".to_string()));
    assert_eq!(part.manufacturer, Some("Espressif".to_string()));
    assert_eq!(part.category, Some("RF".to_string()));
    assert_eq!(part.quantity_available, Some(42));
    assert_eq!(part.unit_price_micros, Some(1_250_000));
}

#[test]
fn parameters_keep_named_entries_only() {
    let mut p = blank_product();
    p.parameters = Some(vec![
        ParameterInfo {
            parameter_text: Some("Voltage".to_string()),
            value_text: Some("3.3V".to_string()),
        },
        ParameterInfo { parameter_text: None, value_text: Some("dropped".to_string()) },
        ParameterInfo { parameter_text: Some("Tolerance".to_string()), value_text: None },
    ]);
    let part = convert_product(p);
    assert_eq!(part.parameters.len(), 2);
    assert_eq!(part.parameters[0].name, "Voltage".to_string());
    assert_eq!(part.parameters[0].value, "3.3V".to_string());
    assert_eq!(part.parameters[1].name, "Tolerance".to_string());
    assert_eq!(part.parameters[1].value, "".to_string());
}
