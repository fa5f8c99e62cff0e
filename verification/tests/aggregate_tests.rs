use digikey_client::aggregate::aggregate;
use digikey_client::parts::{ProviderProduct, ProviderSearchResponse};

fn product(mpn: Option<&str>) -> ProviderProduct {
    ProviderProduct {
        manufacturer_part_number: mpn.map(|s| s.to_string()),
        manufacturer: None,
        description: None,
        product_url: None,
        datasheet_url: None,
        photo_url: None,
        quantity_available: None,
        unit_price_micros: None,
        product_status: None,
        category: None,
        parameters: None,
        product_variations: None,
    }
}

fn mpns(parts: &[digikey_client::parts::DigiKeyPartInfo]) -> Vec<Option<String>> {
    parts.iter().map(|p| p.manufacturer_part_number.clone()).collect()
}

#[test]
fn merge_priority_and_dedup() {
    // Exact product P, exact manufacturer matches [A, B], keyword matches
    // [A, C, D]: the keyword A is dropped as a duplicate, order is kept.
    let resp = ProviderSearchResponse {
        exact_digikey_product: Some(product(Some("P"))),
        exact_manufacturer_products: Some(vec![product(Some("A")), product(Some("B"))]),
        products: Some(vec![product(Some("A")), product(Some("C")), product(Some("D"))]),
    };
    let parts = aggregate(resp);
    assert_eq!(
        mpns(&parts),
        vec![
            Some("P".to_string()),
            Some("A".to_string()),
            Some("B".to_string()),
            Some("C".to_string()),
            Some("D".to_string()),
        ]
    );
    assert!(parts.len() <= 10);
}

#[test]
fn cap_enforcement_exact_buckets_first() {
    // 1 exact + 4 exact-manufacturer reach the keyword threshold, so the 8
    // keyword candidates contribute nothing; the cap of 10 holds.
    let resp = ProviderSearchResponse {
        exact_digikey_product: Some(product(Some("E"))),
        exact_manufacturer_products: Some(vec![
            product(Some("M1")),
            product(Some("M2")),
            product(Some("M3")),
            product(Some("M4")),
        ]),
        products: Some((1..=8).map(|i| product(Some(&format!("K{}", i)))).collect()),
    };
    let parts = aggregate(resp);
    assert!(parts.len() <= 10);
    assert_eq!(
        mpns(&parts),
        vec![
            Some("E".to_string()),
            Some("M1".to_string()),
            Some("M2".to_string()),
            Some("M3".to_string()),
            Some("M4".to_string()),
        ]
    );
}

#[test]
fn keyword_window_fills_up_to_cap() {
    // With one exact match, at most 10 - 1 = 9 keyword candidates are even
    // considered.
    let resp = ProviderSearchResponse {
        exact_digikey_product: Some(product(Some("E"))),
        exact_manufacturer_products: None,
        products: Some((1..=12).map(|i| product(Some(&format!("K{}", i)))).collect()),
    };
    let parts = aggregate(resp);
    assert_eq!(parts.len(), 10);
    assert_eq!(parts[0].manufacturer_part_number, Some("E".to_string()));
    assert_eq!(parts[9].manufacturer_part_number, Some("K9".to_string()));
}

#[test]
fn aggregated_parts_are_normalized() {
    let mut exact = product(Some("P"));
    exact.product_status = Some(digikey_client::parts::ProductStatus {
        status: Some("Discontinued".to_string()),
    });
    exact.product_variations = Some(vec![digikey_client::parts::ProductVariation {
        digikey_product_number: Some("296-1234-ND".to_string()),
    }]);
    let resp = ProviderSearchResponse {
        exact_digikey_product: Some(exact),
        exact_manufacturer_products: None,
        products: None,
    };
    let parts = aggregate(resp);
    assert_eq!(parts.len(), 1);
    assert!(parts[0].is_obsolete);
    assert_eq!(parts[0].lifecycle_status, Some("Discontinued".to_string()));
    assert_eq!(parts[0].digikey_part_number, Some("296-1234-ND".to_string()));
}

#[test]
fn absent_buckets_yield_nothing() {
    let resp = ProviderSearchResponse {
        exact_digikey_product: None,
        exact_manufacturer_products: None,
        products: None,
    };
    assert_eq!(aggregate(resp).len(), 0);
}

#[test]
fn duplicate_among_keyword_candidates_is_dropped() {
    let resp = ProviderSearchResponse {
        exact_digikey_product: None,
        exact_manufacturer_products: None,
        products: Some(vec![product(Some("X")), product(Some("X")), product(Some("Y"))]),
    };
    let parts = aggregate(resp);
    assert_eq!(mpns(&parts), vec![Some("X".to_string()), Some("Y".to_string())]);
}

#[test]
fn records_without_part_number_are_never_duplicates() {
    let resp = ProviderSearchResponse {
        exact_digikey_product: Some(product(None)),
        exact_manufacturer_products: None,
        products: Some(vec![product(None), product(None)]),
    };
    let parts = aggregate(resp);
    assert_eq!(parts.len(), 3);
}

#[test]
fn window_is_cut_before_the_duplicate_filter() {
    // 9 keyword candidates are taken into the window after one exact match;
    // duplicates inside the window shrink the final list below the cap.
    let mut kws = vec![product(Some("E"))];
    for i in 1..=11 {
        kws.push(product(Some(&format!("K{}", i))));
    }
    let resp = ProviderSearchResponse {
        exact_digikey_product: Some(product(Some("E"))),
        exact_manufacturer_products: None,
        products: Some(kws),
    };
    let parts = aggregate(resp);
    // Window: the first 9 candidates [E, K1..K8]; E is a duplicate.
    assert_eq!(parts.len(), 9);
    assert_eq!(parts[8].manufacturer_part_number, Some("K8".to_string()));
}
