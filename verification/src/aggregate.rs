//! Result aggregator: merges the provider's three result buckets into one
//! ranked, deduplicated list of parts.
//!
//! Priority order: the exact catalog-product match first, then every exact
//! manufacturer match in provider order, then general keyword matches in
//! provider order. Keyword matches are considered only when the higher
//! buckets together left fewer than five entries, and their window is cut
//! to ten minus the running total before the duplicate filter runs, so the
//! list never grows past ten through them (it may end shorter when the
//! filter then drops candidates). A keyword match is a duplicate when an
//! earlier entry carries the same manufacturer part number; entries
//! without one are never duplicates of each other.

use vstd::prelude::*;
use crate::normalize::{convert_product, spec_normalize};
use crate::parts::{
    lemma_deep_view_push, lemma_deep_view_remove_front, lemma_vec_deep_view_index,
    lemma_vec_deep_view_len, DigiKeyPartInfo, PartView, ProductView, ProviderSearchResponse,
    ResponseView,
};

verus! {

broadcast use lemma_vec_deep_view_len, lemma_vec_deep_view_index;

/// How many parts must already stand in the list for keyword matches to be
/// passed over entirely.
pub const KEYWORD_BUCKET_THRESHOLD: usize = 5;

/// The hard bound the keyword window is computed against.
pub const MAX_RESULTS: usize = 10;

/// Whether a candidate with manufacturer part number `mpn` duplicates one
/// of `parts`. A candidate without a part number duplicates nothing.
pub open spec fn spec_mpn_dup(parts: Seq<PartView>, mpn: Option<Seq<char>>) -> bool {
    match mpn {
        Some(m) => exists|j: int|
            0 <= j < parts.len() && #[trigger] parts[j].manufacturer_part_number == Some(m),
        None => false,
    }
}

/// The high-priority part of the merge: the exact catalog product, if
/// present, followed by every exact manufacturer match in provider order.
pub open spec fn spec_base(r: ResponseView) -> Seq<PartView> {
    (match r.exact_digikey_product {
        Some(p) => seq![spec_normalize(p)],
        None => Seq::empty(),
    }) + (match r.exact_manufacturer_products {
        Some(v) => v.map_values(|p: ProductView| spec_normalize(p)),
        None => Seq::empty(),
    })
}

/// Folds the keyword candidates into the accumulated list, skipping
/// duplicates.
pub open spec fn spec_add_keywords(acc: Seq<PartView>, prods: Seq<ProductView>) -> Seq<PartView>
    decreases prods.len(),
{
    if prods.len() == 0 {
        acc
    } else {
        let cand = spec_normalize(prods[0]);
        let acc2 = if spec_mpn_dup(acc, cand.manufacturer_part_number) {
            acc
        } else {
            acc.push(cand)
        };
        spec_add_keywords(acc2, prods.drop_first())
    }
}

/// The window of keyword candidates that is considered at all: empty once
/// the high-priority part of the merge reaches the threshold, and bounded
/// to what is left of the hard cap otherwise.
pub open spec fn spec_keyword_window(r: ResponseView, base_len: int) -> Seq<ProductView> {
    if base_len < KEYWORD_BUCKET_THRESHOLD {
        let prods = match r.products {
            Some(v) => v,
            None => Seq::empty(),
        };
        prods.take(
            if prods.len() <= MAX_RESULTS - base_len {
                prods.len() as int
            } else {
                MAX_RESULTS - base_len
            },
        )
    } else {
        Seq::empty()
    }
}

/// The whole merge.
pub open spec fn spec_aggregate(r: ResponseView) -> Seq<PartView> {
    let base = spec_base(r);
    spec_add_keywords(base, spec_keyword_window(r, base.len() as int))
}

/// Folding keywords in extends the accumulated list by at most one entry
/// per candidate.
proof fn lemma_add_keywords_len(acc: Seq<PartView>, prods: Seq<ProductView>)
    ensures
        acc.len() <= spec_add_keywords(acc, prods).len() <= acc.len() + prods.len(),
    decreases prods.len(),
{
    if prods.len() > 0 {
        let cand = spec_normalize(prods[0]);
        let acc2 = if spec_mpn_dup(acc, cand.manufacturer_part_number) {
            acc
        } else {
            acc.push(cand)
        };
        lemma_add_keywords_len(acc2, prods.drop_first());
    }
}

/// Folding keywords in never disturbs what was already merged: the
/// accumulated list stays a prefix of the result.
proof fn lemma_add_keywords_prefix(acc: Seq<PartView>, prods: Seq<ProductView>)
    ensures
        spec_add_keywords(acc, prods).take(acc.len() as int) == acc,
    decreases prods.len(),
{
    if prods.len() == 0 {
        assert(spec_add_keywords(acc, prods).take(acc.len() as int) =~= acc);
    } else {
        let cand = spec_normalize(prods[0]);
        if spec_mpn_dup(acc, cand.manufacturer_part_number) {
            lemma_add_keywords_prefix(acc, prods.drop_first());
        } else {
            lemma_add_keywords_prefix(acc.push(cand), prods.drop_first());
            lemma_add_keywords_len(acc.push(cand), prods.drop_first());
            let whole = spec_add_keywords(acc.push(cand), prods.drop_first());
            assert(whole.take(acc.push(cand).len() as int).take(acc.len() as int)
                =~= whole.take(acc.len() as int));
            assert(acc.push(cand).take(acc.len() as int) =~= acc);
        }
    }
}

/// Merge priority: the exact-product and exact-manufacturer buckets stand
/// unchanged, in order, at the front of the merged list.
pub proof fn lemma_aggregate_base_prefix(r: ResponseView)
    ensures
        spec_aggregate(r).len() >= spec_base(r).len(),
        spec_aggregate(r).take(spec_base(r).len() as int) == spec_base(r),
{
    let base = spec_base(r);
    lemma_add_keywords_len(base, spec_keyword_window(r, base.len() as int));
    lemma_add_keywords_prefix(base, spec_keyword_window(r, base.len() as int));
}

/// Cap enforcement: while the high-priority buckets leave room, the merged
/// list never exceeds the hard cap of ten; once they reach the keyword
/// threshold on their own, the keyword bucket contributes nothing at all.
pub proof fn lemma_aggregate_cap(r: ResponseView)
    ensures
        spec_base(r).len() < KEYWORD_BUCKET_THRESHOLD ==> spec_aggregate(r).len() <= MAX_RESULTS,
        spec_base(r).len() >= KEYWORD_BUCKET_THRESHOLD ==> spec_aggregate(r) == spec_base(r),
{
    let base = spec_base(r);
    let window = spec_keyword_window(r, base.len() as int);
    lemma_add_keywords_len(base, window);
}

/// Whether `mpn` duplicates a part already in `parts`.
fn mpn_already_included(parts: &Vec<DigiKeyPartInfo>, mpn: &Option<String>) -> (r: bool)
    ensures
        r == spec_mpn_dup(parts.deep_view(), mpn.deep_view()),
{
    match mpn {
        None => false,
        Some(m) => {
            let n = parts.len();
            let mut j: usize = 0;
            while j < n
                invariant
                    *mpn == Some(*m),
                    n == parts@.len(),
                    j <= n,
                    forall|j0: int|
                        0 <= j0 < j ==> #[trigger] parts.deep_view()[j0].manufacturer_part_number
                            != Some(m@),
                decreases n - j,
            {
                proof {
                    assert(parts.deep_view()[j as int] == parts@[j as int].deep_view());
                }
                match &parts[j].manufacturer_part_number {
                    Some(pm) => {
                        if pm.eq(m) {
                            proof {
                                assert(parts.deep_view()[j as int].manufacturer_part_number
                                    == Some(m@));
                                assert(mpn.deep_view() == Some(m@));
                                assert(0 <= j < parts.deep_view().len());
                                assert(spec_mpn_dup(parts.deep_view(), mpn.deep_view()));
                            }
                            return true;
                        }
                        proof {
                            assert(parts.deep_view()[j as int].manufacturer_part_number
                                == Some(pm@));
                        }
                    },
                    None => {
                        proof {
                            assert(parts.deep_view()[j as int].manufacturer_part_number is None);
                        }
                    },
                }
                j += 1;
            }
            false
        },
    }
}

/// Merges the provider's response buckets into the final ranked,
/// deduplicated list of normalized parts.
pub fn aggregate(resp: ProviderSearchResponse) -> (parts: Vec<DigiKeyPartInfo>)
    ensures
        parts.deep_view() == spec_aggregate(resp@),
{
    let ghost rv = resp@;
    let mut parts: Vec<DigiKeyPartInfo> = Vec::new();

    if let Some(exact) = resp.exact_digikey_product {
        parts.push(convert_product(exact));
    }
    proof {
        assert(parts.deep_view() =~= match rv.exact_digikey_product {
            Some(p) => seq![spec_normalize(p)],
            None => Seq::<PartView>::empty(),
        });
    }

    if let Some(mut mfr) = resp.exact_manufacturer_products {
        let ghost head = parts.deep_view();
        let ghost mseq = mfr.deep_view();
        let n = mfr.len();
        let mut i: usize = 0;
        proof {
            assert(mseq.skip(0) =~= mseq);
            assert(head + mseq.take(0).map_values(|p: ProductView| spec_normalize(p)) =~= head);
        }
        while i < n
            invariant
                n == mseq.len(),
                i <= n,
                mfr.deep_view() == mseq.skip(i as int),
                mfr@.len() == n - i,
                parts.deep_view() == head + mseq.take(i as int).map_values(
                    |p: ProductView| spec_normalize(p),
                ),
            decreases n - i,
        {
            let ghost mfr_pre = mfr;
            let p = mfr.remove(0);
            proof {
                lemma_deep_view_remove_front(mfr_pre, mfr);
                assert(mseq.skip(i as int).skip(1) =~= mseq.skip(i + 1));
                assert(p.deep_view() == mfr_pre.deep_view()[0]);
                assert(mseq.skip(i as int)[0] == mseq[i as int]);
            }
            let ghost parts_pre = parts;
            let rec = convert_product(p);
            let ghost recg = rec;
            parts.push(rec);
            proof {
                lemma_deep_view_push(parts_pre, parts, recg);
                mseq.lemma_map_take_succ(|q: ProductView| spec_normalize(q), i as int);
                Seq::push_distributes_over_add(
                    head,
                    mseq.take(i as int).map_values(|q: ProductView| spec_normalize(q)),
                    spec_normalize(mseq[i as int]),
                );
            }
            i += 1;
        }
        proof {
            assert(mseq.take(n as int) =~= mseq);
            assert(parts.deep_view() =~= spec_base(rv));
        }
    }
    proof {
        assert(parts.deep_view() =~= spec_base(rv));
    }

    let ghost base = spec_base(rv);
    let ghost window = spec_keyword_window(rv, base.len() as int);

    if parts.len() < KEYWORD_BUCKET_THRESHOLD {
        match resp.products {
            Some(mut products) => {
                let remaining = MAX_RESULTS - parts.len();
                let count = if products.len() <= remaining {
                    products.len()
                } else {
                    remaining
                };
                let ghost kseq = products.deep_view();
                proof {
                    assert(window =~= kseq.take(count as int));
                    assert(window.skip(0) =~= window);
                }
                let mut k: usize = 0;
                while k < count
                    invariant
                        count <= kseq.len(),
                        count == window.len(),
                        k <= count,
                        products.deep_view() == kseq.skip(k as int),
                        products@.len() == kseq.len() - k,
                        window == kseq.take(count as int),
                        spec_add_keywords(parts.deep_view(), window.skip(k as int))
                            == spec_add_keywords(base, window),
                    decreases count - k,
                {
                    let ghost before = parts;
                    let ghost prods_pre = products;
                    let p = products.remove(0);
                    proof {
                        lemma_deep_view_remove_front(prods_pre, products);
                        assert(kseq.skip(k as int).skip(1) =~= kseq.skip(k + 1));
                        assert(p.deep_view() == prods_pre.deep_view()[0]);
                        assert(kseq.skip(k as int)[0] == kseq[k as int]);
                        assert(window.skip(k as int).len() == count - k);
                        assert(window.skip(k as int)[0] == window[k as int]);
                        assert(window[k as int] == kseq[k as int]);
                        assert(window.skip(k as int).drop_first() =~= window.skip(k + 1));
                    }
                    let dup = mpn_already_included(&parts, &p.manufacturer_part_number);
                    if !dup {
                        let rec = convert_product(p);
                        let ghost recg = rec;
                        parts.push(rec);
                        proof {
                            lemma_deep_view_push(before, parts, recg);
                        }
                    }
                    proof {
                        assert(spec_add_keywords(before.deep_view(), window.skip(k as int))
                            == spec_add_keywords(parts.deep_view(), window.skip(k + 1)));
                    }
                    k += 1;
                }
                proof {
                    assert(window.skip(count as int) =~= Seq::<ProductView>::empty());
                    assert(spec_add_keywords(
                        parts.deep_view(),
                        Seq::<ProductView>::empty(),
                    ) == parts.deep_view());
                    assert(parts.deep_view() == spec_aggregate(rv));
                }
            },
            None => {
                proof {
                    assert(window =~= Seq::<ProductView>::empty());
                    assert(parts.deep_view() == spec_aggregate(rv));
                }
            },
        }
    } else {
        proof {
            assert(window =~= Seq::<ProductView>::empty());
            assert(parts.deep_view() == spec_aggregate(rv));
        }
    }
    parts
}

} // verus!
