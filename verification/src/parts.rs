//! Data model: the provider's wire-shaped product records, the service's
//! internal part representation, and the mathematical views both are
//! specified over.
//!
//! The wire layer outside the library decodes the provider's JSON into
//! these plain-value structs; every contract in the library speaks of the
//! `...View` counterparts, whose text fields are `Seq<char>`.

use vstd::prelude::*;

verus! {

// ---------------------------------------------------------------------------
// Provider wire schema (already decoded into plain values).
// ---------------------------------------------------------------------------

/// Nested description object of a provider product.
#[derive(Debug, Clone)]
pub struct DescriptionInfo {
    pub product_description: Option<String>,
    pub detailed_description: Option<String>,
}

pub ghost struct DescriptionView {
    pub product_description: Option<Seq<char>>,
    pub detailed_description: Option<Seq<char>>,
}

/// One package/variation record of a product; carries the provider's own
/// catalog number for that variation.
#[derive(Debug, Clone)]
pub struct ProductVariation {
    pub digikey_product_number: Option<String>,
}

pub ghost struct VariationView {
    pub digikey_product_number: Option<Seq<char>>,
}

/// Manufacturer object of a provider product.
#[derive(Debug, Clone)]
pub struct ManufacturerInfo {
    pub name: Option<String>,
}

/// Lifecycle-status object of a provider product; the free-text status.
#[derive(Debug, Clone)]
pub struct ProductStatus {
    pub status: Option<String>,
}

/// Category object of a provider product.
#[derive(Debug, Clone)]
pub struct CategoryInfo {
    pub name: Option<String>,
}

/// One provider parameter: a name/value pair, either part possibly absent.
#[derive(Debug, Clone)]
pub struct ParameterInfo {
    pub parameter_text: Option<String>,
    pub value_text: Option<String>,
}

pub ghost struct ParameterInfoView {
    pub parameter_text: Option<Seq<char>>,
    pub value_text: Option<Seq<char>>,
}

/// One product record as the provider returns it. The unit price is carried
/// in millionths of the currency unit; the wire layer converts the
/// provider's decimal number.
#[derive(Debug, Clone)]
pub struct ProviderProduct {
    pub manufacturer_part_number: Option<String>,
    pub manufacturer: Option<ManufacturerInfo>,
    pub description: Option<DescriptionInfo>,
    pub product_url: Option<String>,
    pub datasheet_url: Option<String>,
    pub photo_url: Option<String>,
    pub quantity_available: Option<i64>,
    pub unit_price_micros: Option<u64>,
    pub product_status: Option<ProductStatus>,
    pub category: Option<CategoryInfo>,
    pub parameters: Option<Vec<ParameterInfo>>,
    pub product_variations: Option<Vec<ProductVariation>>,
}

#[verifier::ext_equal]
pub ghost struct ProductView {
    pub manufacturer_part_number: Option<Seq<char>>,
    pub manufacturer: Option<Option<Seq<char>>>,
    pub description: Option<DescriptionView>,
    pub product_url: Option<Seq<char>>,
    pub datasheet_url: Option<Seq<char>>,
    pub photo_url: Option<Seq<char>>,
    pub quantity_available: Option<i64>,
    pub unit_price_micros: Option<u64>,
    pub product_status: Option<Option<Seq<char>>>,
    pub category: Option<Option<Seq<char>>>,
    pub parameters: Option<Seq<ParameterInfoView>>,
    pub product_variations: Option<Seq<VariationView>>,
}

/// The provider's answer to one keyword search: three independent result
/// buckets, each possibly absent.
#[derive(Debug, Clone)]
pub struct ProviderSearchResponse {
    pub products: Option<Vec<ProviderProduct>>,
    pub exact_manufacturer_products: Option<Vec<ProviderProduct>>,
    pub exact_digikey_product: Option<ProviderProduct>,
}

#[verifier::ext_equal]
pub ghost struct ResponseView {
    pub products: Option<Seq<ProductView>>,
    pub exact_manufacturer_products: Option<Seq<ProductView>>,
    pub exact_digikey_product: Option<ProductView>,
}

// ---------------------------------------------------------------------------
// Internal part representation.
// ---------------------------------------------------------------------------

/// One normalized parameter: the name is always present, an absent value
/// has become the empty string.
#[derive(Debug, Clone)]
pub struct DigiKeyParameter {
    pub name: String,
    pub value: String,
}

#[verifier::ext_equal]
pub ghost struct ParamView {
    pub name: Seq<char>,
    pub value: Seq<char>,
}

/// The service's normalized representation of one catalog entry.
#[derive(Debug, Clone)]
pub struct DigiKeyPartInfo {
    pub digikey_part_number: Option<String>,
    pub manufacturer_part_number: Option<String>,
    pub manufacturer: Option<String>,
    pub description: Option<String>,
    pub detailed_description: Option<String>,
    pub product_url: Option<String>,
    pub datasheet_url: Option<String>,
    pub photo_url: Option<String>,
    pub quantity_available: Option<i64>,
    pub unit_price_micros: Option<u64>,
    pub product_status: Option<String>,
    pub is_obsolete: bool,
    pub lifecycle_status: Option<String>,
    pub category: Option<String>,
    pub parameters: Vec<DigiKeyParameter>,
}

#[verifier::ext_equal]
pub ghost struct PartView {
    pub digikey_part_number: Option<Seq<char>>,
    pub manufacturer_part_number: Option<Seq<char>>,
    pub manufacturer: Option<Seq<char>>,
    pub description: Option<Seq<char>>,
    pub detailed_description: Option<Seq<char>>,
    pub product_url: Option<Seq<char>>,
    pub datasheet_url: Option<Seq<char>>,
    pub photo_url: Option<Seq<char>>,
    pub quantity_available: Option<i64>,
    pub unit_price_micros: Option<u64>,
    pub product_status: Option<Seq<char>>,
    pub is_obsolete: bool,
    pub lifecycle_status: Option<Seq<char>>,
    pub category: Option<Seq<char>>,
    pub parameters: Seq<ParamView>,
}

// ---------------------------------------------------------------------------
// View impls.
// ---------------------------------------------------------------------------

impl View for DescriptionInfo {
    type V = DescriptionView;

    open spec fn view(&self) -> DescriptionView {
        DescriptionView {
            product_description: self.product_description.deep_view(),
            detailed_description: self.detailed_description.deep_view(),
        }
    }
}

impl DeepView for DescriptionInfo {
    type V = DescriptionView;

    open spec fn deep_view(&self) -> DescriptionView {
        self.view()
    }
}

impl View for ProductVariation {
    type V = VariationView;

    open spec fn view(&self) -> VariationView {
        VariationView { digikey_product_number: self.digikey_product_number.deep_view() }
    }
}

impl DeepView for ProductVariation {
    type V = VariationView;

    open spec fn deep_view(&self) -> VariationView {
        self.view()
    }
}

impl View for ParameterInfo {
    type V = ParameterInfoView;

    open spec fn view(&self) -> ParameterInfoView {
        ParameterInfoView {
            parameter_text: self.parameter_text.deep_view(),
            value_text: self.value_text.deep_view(),
        }
    }
}

impl DeepView for ParameterInfo {
    type V = ParameterInfoView;

    open spec fn deep_view(&self) -> ParameterInfoView {
        self.view()
    }
}

impl View for ProviderProduct {
    type V = ProductView;

    open spec fn view(&self) -> ProductView {
        ProductView {
            manufacturer_part_number: self.manufacturer_part_number.deep_view(),
            manufacturer: match self.manufacturer {
                Some(m) => Some(m.name.deep_view()),
                None => None,
            },
            description: self.description.deep_view(),
            product_url: self.product_url.deep_view(),
            datasheet_url: self.datasheet_url.deep_view(),
            photo_url: self.photo_url.deep_view(),
            quantity_available: self.quantity_available,
            unit_price_micros: self.unit_price_micros,
            product_status: match self.product_status {
                Some(s) => Some(s.status.deep_view()),
                None => None,
            },
            category: match self.category {
                Some(c) => Some(c.name.deep_view()),
                None => None,
            },
            parameters: self.parameters.deep_view(),
            product_variations: self.product_variations.deep_view(),
        }
    }
}

impl DeepView for ProviderProduct {
    type V = ProductView;

    open spec fn deep_view(&self) -> ProductView {
        self.view()
    }
}

impl View for ProviderSearchResponse {
    type V = ResponseView;

    open spec fn view(&self) -> ResponseView {
        ResponseView {
            products: self.products.deep_view(),
            exact_manufacturer_products: self.exact_manufacturer_products.deep_view(),
            exact_digikey_product: self.exact_digikey_product.deep_view(),
        }
    }
}

impl DeepView for ProviderSearchResponse {
    type V = ResponseView;

    open spec fn deep_view(&self) -> ResponseView {
        self.view()
    }
}

impl View for DigiKeyParameter {
    type V = ParamView;

    open spec fn view(&self) -> ParamView {
        ParamView { name: self.name@, value: self.value@ }
    }
}

impl DeepView for DigiKeyParameter {
    type V = ParamView;

    open spec fn deep_view(&self) -> ParamView {
        self.view()
    }
}

impl View for DigiKeyPartInfo {
    type V = PartView;

    open spec fn view(&self) -> PartView {
        PartView {
            digikey_part_number: self.digikey_part_number.deep_view(),
            manufacturer_part_number: self.manufacturer_part_number.deep_view(),
            manufacturer: self.manufacturer.deep_view(),
            description: self.description.deep_view(),
            detailed_description: self.detailed_description.deep_view(),
            product_url: self.product_url.deep_view(),
            datasheet_url: self.datasheet_url.deep_view(),
            photo_url: self.photo_url.deep_view(),
            quantity_available: self.quantity_available,
            unit_price_micros: self.unit_price_micros,
            product_status: self.product_status.deep_view(),
            is_obsolete: self.is_obsolete,
            lifecycle_status: self.lifecycle_status.deep_view(),
            category: self.category.deep_view(),
            parameters: self.parameters.deep_view(),
        }
    }
}

impl DeepView for DigiKeyPartInfo {
    type V = PartView;

    open spec fn deep_view(&self) -> PartView {
        self.view()
    }
}

// ---------------------------------------------------------------------------
// Bridges between a vector's deep view and its elements' deep views.
// ---------------------------------------------------------------------------

pub broadcast proof fn lemma_vec_deep_view_len<T: DeepView>(v: Vec<T>)
    ensures
        #[trigger] v.deep_view().len() == v@.len(),
{
}

pub broadcast proof fn lemma_vec_deep_view_index<T: DeepView>(v: Vec<T>, i: int)
    requires
        0 <= i < v@.len(),
    ensures
        #[trigger] v.deep_view()[i] == v@[i].deep_view(),
{
}

/// Pushing onto a vector pushes the element's deep view onto its deep view.
pub proof fn lemma_deep_view_push<T: DeepView>(pre: Vec<T>, post: Vec<T>, x: T)
    requires
        post@ == pre@.push(x),
    ensures
        post.deep_view() == pre.deep_view().push(x.deep_view()),
{
    broadcast use lemma_vec_deep_view_len, lemma_vec_deep_view_index;

    assert forall|j: int| 0 <= j < post@.len() implies post.deep_view()[j] == pre.deep_view().push(
        x.deep_view(),
    )[j] by {
        if j < pre@.len() {
            assert(post@[j] == pre@[j]);
        } else {
            assert(post@[j] == x);
        }
    }
    assert(post.deep_view() =~= pre.deep_view().push(x.deep_view()));
}

/// Removing a vector's first element drops the first entry of its deep view.
pub proof fn lemma_deep_view_remove_front<T: DeepView>(pre: Vec<T>, post: Vec<T>)
    requires
        pre@.len() > 0,
        post@ == pre@.remove(0),
    ensures
        post.deep_view() == pre.deep_view().skip(1),
{
    broadcast use lemma_vec_deep_view_len, lemma_vec_deep_view_index;

    pre@.remove_ensures(0);
    assert forall|j: int| 0 <= j < post@.len() implies post.deep_view()[j]
        == pre.deep_view().skip(1)[j] by {
        assert(post@[j] == pre@[j + 1]);
        assert(pre.deep_view()[j + 1] == pre@[j + 1].deep_view());
        assert(pre.deep_view().skip(1)[j] == pre.deep_view()[j + 1]);
    }
    assert(post.deep_view() =~= pre.deep_view().skip(1));
}

} // verus!
