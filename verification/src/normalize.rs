//! Part normalizer: turns one provider product record into the service's
//! internal part representation.
//!
//! The conversion is total: an absent field becomes an absent or empty
//! field, never an error. The lifecycle derivation lower-cases the raw
//! status text and looks for the obsolescence marker phrases.

use vstd::prelude::*;
use crate::parts::{
    DigiKeyParameter, DigiKeyPartInfo, ParamView, ParameterInfoView, PartView, ProductView,
    ProviderProduct,
};
use crate::text::{is_obsolete_status, spec_is_obsolete_text};

verus! {

/// The raw status text of a product, if its status object and the text are
/// both present.
pub open spec fn spec_status_of(p: ProductView) -> Option<Seq<char>> {
    match p.product_status {
        Some(s) => s,
        None => None,
    }
}

/// The provider catalog number taken from the first variation, if any.
pub open spec fn spec_first_variation(p: ProductView) -> Option<Seq<char>> {
    match p.product_variations {
        Some(vs) => if vs.len() > 0 {
            vs[0].digikey_product_number
        } else {
            None
        },
        None => None,
    }
}

/// The obsolescence rule lifted to a possibly absent status text.
pub open spec fn spec_is_obsolete_opt(status: Option<Seq<char>>) -> bool {
    match status {
        Some(s) => spec_is_obsolete_text(s),
        None => false,
    }
}

/// The derived lifecycle status: mirrors the raw status, except that an
/// obsolete part with no raw status is labelled "Obsolete".
pub open spec fn spec_lifecycle(status: Option<Seq<char>>, obsolete: bool) -> Option<Seq<char>> {
    if obsolete {
        match status {
            Some(s) => Some(s),
            None => Some("Obsolete"@),
        }
    } else {
        status
    }
}

/// What one provider parameter contributes: nothing without a name; with a
/// name, one pair whose absent value has become the empty string.
pub open spec fn spec_param_one(p: ParameterInfoView) -> Seq<ParamView> {
    match p.parameter_text {
        Some(n) => seq![
            ParamView {
                name: n,
                value: match p.value_text {
                    Some(v) => v,
                    None => Seq::empty(),
                },
            },
        ],
        None => Seq::empty(),
    }
}

/// The normalized parameter list: contributions of all parameters, in
/// order.
pub open spec fn spec_normalize_params(ps: Seq<ParameterInfoView>) -> Seq<ParamView>
    decreases ps.len(),
{
    if ps.len() == 0 {
        Seq::empty()
    } else {
        spec_param_one(ps[0]) + spec_normalize_params(ps.drop_first())
    }
}

proof fn lemma_normalize_params_push(ps: Seq<ParameterInfoView>, p: ParameterInfoView)
    ensures
        spec_normalize_params(ps.push(p)) == spec_normalize_params(ps) + spec_param_one(p),
    decreases ps.len(),
{
    if ps.len() == 0 {
        assert(ps.push(p)[0] == p);
        assert(ps.push(p).drop_first() =~= Seq::<ParameterInfoView>::empty());
        assert(spec_param_one(p) + spec_normalize_params(Seq::<ParameterInfoView>::empty())
            =~= spec_normalize_params(ps) + spec_param_one(p));
    } else {
        assert(ps.push(p)[0] == ps[0]);
        assert(ps.push(p).drop_first() =~= ps.drop_first().push(p));
        lemma_normalize_params_push(ps.drop_first(), p);
        assert(spec_param_one(ps[0]) + (spec_normalize_params(ps.drop_first())
            + spec_param_one(p)) =~= (spec_param_one(ps[0]) + spec_normalize_params(
            ps.drop_first(),
        )) + spec_param_one(p));
    }
}

/// The whole normalization of one provider product.
pub open spec fn spec_normalize(p: ProductView) -> PartView {
    let status = spec_status_of(p);
    let obsolete = spec_is_obsolete_opt(status);
    PartView {
        digikey_part_number: spec_first_variation(p),
        manufacturer_part_number: p.manufacturer_part_number,
        manufacturer: match p.manufacturer {
            Some(n) => n,
            None => None,
        },
        description: match p.description {
            Some(d) => d.product_description,
            None => None,
        },
        detailed_description: match p.description {
            Some(d) => d.detailed_description,
            None => None,
        },
        product_url: p.product_url,
        datasheet_url: p.datasheet_url,
        photo_url: p.photo_url,
        quantity_available: p.quantity_available,
        unit_price_micros: p.unit_price_micros,
        product_status: status,
        is_obsolete: obsolete,
        lifecycle_status: spec_lifecycle(status, obsolete),
        category: match p.category {
            Some(n) => n,
            None => None,
        },
        parameters: spec_normalize_params(
            match p.parameters {
                Some(ps) => ps,
                None => Seq::empty(),
            },
        ),
    }
}

fn clone_opt_string(o: &Option<String>) -> (r: Option<String>)
    ensures
        r == *o,
{
    match o {
        Some(s) => Some(s.clone()),
        None => None,
    }
}

/// Converts one provider product into the internal part representation;
/// total, and exactly the normalization the contracts are stated over.
pub fn convert_product(product: ProviderProduct) -> (r: DigiKeyPartInfo)
    ensures
        r@ == spec_normalize(product@),
{
    let ghost pv = product@;

    let digikey_part_number: Option<String> = match product.product_variations {
        Some(mut vs) => if vs.len() > 0 {
            let v = vs.remove(0);
            v.digikey_product_number
        } else {
            None
        },
        None => None,
    };

    let status: Option<String> = match product.product_status {
        Some(ps) => ps.status,
        None => None,
    };

    let is_obsolete = match &status {
        Some(s) => is_obsolete_status(s.as_str()),
        None => false,
    };

    let lifecycle_status: Option<String> = if is_obsolete {
        match &status {
            Some(s) => Some(s.clone()),
            None => Some("Obsolete".to_owned()),
        }
    } else {
        clone_opt_string(&status)
    };

    let (description, detailed_description) = match product.description {
        Some(d) => (d.product_description, d.detailed_description),
        None => (None, None),
    };

    let mut parameters: Vec<DigiKeyParameter> = Vec::new();
    let ghost pseq: Seq<ParameterInfoView> = match pv.parameters {
        Some(ps) => ps,
        None => Seq::empty(),
    };
    match product.parameters {
        Some(ps) => {
            let n = ps.len();
            let mut i: usize = 0;
            while i < n
                invariant
                    n == ps@.len(),
                    i <= n,
                    ps.deep_view() == pseq,
                    parameters.deep_view() == spec_normalize_params(pseq.take(i as int)),
                decreases n - i,
            {
                let ghost before = parameters.deep_view();
                let pi = &ps[i];
                match &pi.parameter_text {
                    Some(name) => {
                        let value = match &pi.value_text {
                            Some(v) => v.clone(),
                            None => String::new(),
                        };
                        parameters.push(DigiKeyParameter { name: name.clone(), value });
                    },
                    None => {},
                }
                proof {
                    assert(pseq.take(i + 1) =~= pseq.take(i as int).push(pseq[i as int]));
                    lemma_normalize_params_push(pseq.take(i as int), pseq[i as int]);
                    assert(parameters.deep_view() =~= before + spec_param_one(pseq[i as int]));
                }
                i += 1;
            }
            proof {
                assert(pseq.take(n as int) =~= pseq);
            }
        },
        None => {},
    }

    let r = DigiKeyPartInfo {
        digikey_part_number,
        manufacturer_part_number: product.manufacturer_part_number,
        manufacturer: match product.manufacturer {
            Some(m) => m.name,
            None => None,
        },
        description,
        detailed_description,
        product_url: product.product_url,
        datasheet_url: product.datasheet_url,
        photo_url: product.photo_url,
        quantity_available: product.quantity_available,
        unit_price_micros: product.unit_price_micros,
        product_status: status,
        is_obsolete,
        lifecycle_status,
        category: match product.category {
            Some(c) => c.name,
            None => None,
        },
        parameters,
    };
    proof {
        assert(r@ =~= spec_normalize(pv));
    }
    r
}

} // verus!
