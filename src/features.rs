//! Feature bits asserted in a probe's onion payload.
use vstd::prelude::*;

verus! {

/// The bit that requires the modern onion payload format.
pub const TLV_ONION_REQ: u32 = 8;

/// The optional bit of explicit channel-type negotiation.
pub const FEATURE_CHANNEL_TYPE: u32 = 45;

/// The optional bit of trusted (zero-confirmation) channel funding.
pub const FEATURE_TRUSTED_FUNDING: u32 = 51;

/// The bits left out of a probe by default: both concern opening channels,
/// not routing payments.
pub open spec fn default_excluded_spec() -> Seq<u32> {
    seq![FEATURE_CHANNEL_TYPE, FEATURE_TRUSTED_FUNDING]
}

pub fn default_excluded_features() -> (r: Vec<u32>)
    ensures
        r@ == default_excluded_spec(),
{
    let r = vec![FEATURE_CHANNEL_TYPE, FEATURE_TRUSTED_FUNDING];
    assert(r@ =~= default_excluded_spec());
    r
}

/// The bits a probe asserts: the onion bit, and every advertised bit that is
/// not excluded.
pub open spec fn probe_feature_set(advertised: Set<u32>, excluded: Set<u32>) -> Set<u32> {
    Set::new(|b: u32| b == TLV_ONION_REQ || (advertised.contains(b) && !excluded.contains(b)))
}

fn contains_bit(v: &Vec<u32>, b: u32) -> (r: bool)
    ensures
        r == v@.contains(b),
{
    let mut i: usize = 0;
    while i < v.len()
        invariant
            i <= v@.len(),
            forall|j: int| 0 <= j < i ==> v@[j] != b,
        decreases v@.len() - i,
    {
        if v[i] == b {
            return true;
        }
        i = i + 1;
    }
    false
}

/// The feature list of a probe towards a destination that advertises
/// `advertised`, leaving out the bits in `excluded`. The onion bit always
/// stands first; no bit appears twice.
pub fn get_node_features(advertised: &Vec<u32>, excluded: &Vec<u32>) -> (r: Vec<u32>)
    ensures
        r@.to_set() == probe_feature_set(advertised@.to_set(), excluded@.to_set()),
        r@.no_duplicates(),
        r@.len() > 0,
        r@[0] == TLV_ONION_REQ,
{
    let mut r: Vec<u32> = vec![TLV_ONION_REQ];
    let mut i: usize = 0;
    while i < advertised.len()
        invariant
            i <= advertised@.len(),
            r@.len() > 0,
            r@[0] == TLV_ONION_REQ,
            r@.no_duplicates(),
            forall|b: u32|
                r@.contains(b) <==> (b == TLV_ONION_REQ || (advertised@.take(i as int).contains(b)
                    && !excluded@.contains(b))),
        decreases advertised@.len() - i,
    {
        let b = advertised[i];
        let ghost before = r@;
        let ghost prefix = advertised@.take(i as int);
        proof {
            assert(advertised@.take(i + 1) =~= prefix.push(b));
        }
        if !contains_bit(excluded, b) && !contains_bit(&r, b) {
            r.push(b);
            proof {
                assert forall|x: u32| r@.contains(x) <==> (before.contains(x) || x == b) by {
                    if r@.contains(x) && x != b {
                        let j = choose|j: int| 0 <= j < r@.len() && r@[j] == x;
                        assert(before[j] == x);
                    }
                    if before.contains(x) {
                        let j = choose|j: int| 0 <= j < before.len() && before[j] == x;
                        assert(r@[j] == x);
                    }
                    if x == b {
                        assert(r@[before.len() as int] == b);
                    }
                }
            }
        }
        proof {
            assert forall|x: u32| prefix.push(b).contains(x) <==> (prefix.contains(x) || x == b) by {
                if prefix.push(b).contains(x) && x != b {
                    let j = choose|j: int| 0 <= j < prefix.len() + 1 && prefix.push(b)[j] == x;
                    assert(prefix[j] == x);
                }
                if prefix.contains(x) {
                    let j = choose|j: int| 0 <= j < prefix.len() && prefix[j] == x;
                    assert(prefix.push(b)[j] == x);
                }
                if x == b {
                    assert(prefix.push(b)[prefix.len() as int] == b);
                }
            }
            assert forall|x: u32|
                r@.contains(x) <==> (x == TLV_ONION_REQ || (advertised@.take(i + 1).contains(x)
                    && !excluded@.contains(x))) by {
                assert(before.contains(x) <==> (x == TLV_ONION_REQ || (prefix.contains(x)
                    && !excluded@.contains(x))));
            }
        }
        i = i + 1;
    }
    proof {
        assert(advertised@.take(advertised@.len() as int) =~= advertised@);
        assert(r@.to_set() =~= probe_feature_set(advertised@.to_set(), excluded@.to_set()));
    }
    r
}

/// Filtering a feature set a second time, with the same exclusions, changes
/// nothing.
pub proof fn lemma_feature_filter_idempotent(advertised: Set<u32>, excluded: Set<u32>)
    ensures
        probe_feature_set(probe_feature_set(advertised, excluded), excluded) == probe_feature_set(
            advertised,
            excluded,
        ),
{
    assert(probe_feature_set(probe_feature_set(advertised, excluded), excluded) =~= probe_feature_set(
        advertised,
        excluded,
    ));
}

/// Under the default exclusions a probe never asserts the channel-type or the
/// trusted-funding bit, whatever is advertised, and always asserts the onion
/// bit.
pub proof fn lemma_default_exclusions_complete(advertised: Set<u32>)
    ensures
        !probe_feature_set(advertised, default_excluded_spec().to_set()).contains(
            FEATURE_CHANNEL_TYPE,
        ),
        !probe_feature_set(advertised, default_excluded_spec().to_set()).contains(
            FEATURE_TRUSTED_FUNDING,
        ),
        probe_feature_set(advertised, default_excluded_spec().to_set()).contains(TLV_ONION_REQ),
{
    assert(default_excluded_spec()[0] == FEATURE_CHANNEL_TYPE);
    assert(default_excluded_spec()[1] == FEATURE_TRUSTED_FUNDING);
    assert(default_excluded_spec().contains(FEATURE_CHANNEL_TYPE));
    assert(default_excluded_spec().contains(FEATURE_TRUSTED_FUNDING));
}

} // verus!
