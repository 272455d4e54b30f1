//! Classification of a batch of submitted transactions as landed or not,
//! from the commitment status the network reports for each signature.
//!
//! A signature is landed exactly when its reported status satisfies at
//! least the confirmed commitment level of the three-tier ordering
//! processed < confirmed < finalized. The classifier never fails: an
//! absent or malformed status only means "not landed".

use vstd::prelude::*;
use solana_sdk::signature::Signature;

verus! {

#[verifier::external_type_specification]
#[verifier::external_body]
pub struct ExSignature(Signature);

// Declared only because Signature's slice conversion names this error type,
// which the verifier must then know of; nothing is claimed of it and nothing
// here uses it.
#[verifier::external_type_specification]
#[verifier::external_body]
pub struct ExTryFromSliceError(core::array::TryFromSliceError);

/// The network's durability tiers for a transaction, in increasing order.
#[derive(Clone, Copy, Debug, PartialEq, Eq, Structural)]
pub enum CommitmentTier {
    Processed,
    Confirmed,
    Finalized,
}

/// What the classifier reads of one reported transaction status: the
/// commitment tier the node reported, if it reported one, and the
/// confirmation count, `None` once a transaction is rooted.
#[derive(Clone, Copy, Debug)]
pub struct TxStatus {
    /// The reported commitment tier, absent in reports from older nodes.
    pub confirmation_status: Option<CommitmentTier>,
    /// Confirmation count; `None` means rooted.
    pub confirmations: Option<u64>,
}

/// Whether a reported status satisfies at least the confirmed tier: a
/// reported tier must be beyond processed; with no reported tier (an older
/// node), only a confirmation count that is absent (rooted) or greater than
/// one passes.
pub open spec fn spec_status_confirmed(s: TxStatus) -> bool {
    match s.confirmation_status {
        Some(tier) => tier != CommitmentTier::Processed,
        None => match s.confirmations {
            Some(c) => c > 1,
            None => true,
        },
    }
}

/// Whether a reported status satisfies at least the confirmed tier.
pub fn satisfies_confirmed(s: &TxStatus) -> (r: bool)
    ensures
        r == spec_status_confirmed(*s),
{
    match s.confirmation_status {
        Some(CommitmentTier::Processed) => false,
        Some(_) => true,
        None => match s.confirmations {
            Some(c) => c > 1,
            None => true,
        },
    }
}

/// The signatures from position `i` on whose status is present and
/// satisfies the confirmed tier, in input order.
pub open spec fn spec_landed_from(
    sigs: Seq<Signature>,
    sts: Seq<Option<TxStatus>>,
    i: int,
) -> Seq<Signature>
    decreases sigs.len() - i,
{
    if i < 0 || i >= sigs.len() || i >= sts.len() {
        Seq::empty()
    } else {
        if sts[i] is Some && spec_status_confirmed(sts[i]->0) {
            seq![sigs[i]] + spec_landed_from(sigs, sts, i + 1)
        } else {
            spec_landed_from(sigs, sts, i + 1)
        }
    }
}

/// The signatures whose status is present and satisfies the confirmed
/// tier, in input order.
pub open spec fn spec_landed(sigs: Seq<Signature>, sts: Seq<Option<TxStatus>>) -> Seq<Signature> {
    spec_landed_from(sigs, sts, 0)
}

/// The signatures of the batch that landed: position `i` of `statuses` is
/// the reported status of `signatures[i]`, and a signature is kept exactly
/// when its status is present and satisfies the confirmed tier.
pub fn find_landed_txs(signatures: &Vec<Signature>, statuses: &Vec<Option<TxStatus>>) -> (r: Vec<
    Signature,
>)
    requires
        signatures@.len() == statuses@.len(),
    ensures
        r@ == spec_landed(signatures@, statuses@),
{
    let mut landed: Vec<Signature> = Vec::new();
    let mut i: usize = 0;
    while i < signatures.len()
        invariant
            signatures@.len() == statuses@.len(),
            i <= signatures@.len(),
            landed@ + spec_landed_from(signatures@, statuses@, i as int) == spec_landed(
                signatures@,
                statuses@,
            ),
        decreases signatures@.len() - i,
    {
        let ghost pre = landed@;
        match &statuses[i] {
            Some(st) => {
                if satisfies_confirmed(st) {
                    landed.push(signatures[i]);
                }
            },
            None => {},
        }
        proof {
            let s = signatures@;
            let t = statuses@;
            let ii = i as int;
            if t[ii] is Some && spec_status_confirmed(t[ii]->0) {
                assert(landed@ =~= pre + seq![s[ii]]);
                assert((pre + seq![s[ii]]) + spec_landed_from(s, t, ii + 1) =~= pre + (seq![s[ii]]
                    + spec_landed_from(s, t, ii + 1)));
            }
        }
        i = i + 1;
    }
    proof {
        assert(spec_landed_from(signatures@, statuses@, signatures@.len() as int) =~= Seq::<
            Signature,
        >::empty());
        assert(landed@ + Seq::<Signature>::empty() =~= landed@);
    }
    landed
}

proof fn lemma_landed_from_membership(
    sigs: Seq<Signature>,
    sts: Seq<Option<TxStatus>>,
    j: int,
    s: Signature,
)
    requires
        sigs.len() == sts.len(),
        0 <= j <= sigs.len(),
    ensures
        spec_landed_from(sigs, sts, j).contains(s) <==> exists|i: int|
            j <= i < sigs.len() && sigs[i] == s && sts[i] is Some && spec_status_confirmed(
                sts[i]->0,
            ),
    decreases sigs.len() - j,
{
    if j == sigs.len() {
        assert(spec_landed_from(sigs, sts, j) =~= Seq::<Signature>::empty());
    } else {
        lemma_landed_from_membership(sigs, sts, j + 1, s);
        let rest = spec_landed_from(sigs, sts, j + 1);
        if sts[j] is Some && spec_status_confirmed(sts[j]->0) {
            let cur = seq![sigs[j]] + rest;
            assert(spec_landed_from(sigs, sts, j) == cur);
            if cur.contains(s) {
                let k = choose|k: int| 0 <= k < cur.len() && cur[k] == s;
                if k == 0 {
                    assert(sigs[j] == s);
                    assert(j <= j < sigs.len() && sigs[j] == s && sts[j] is Some
                        && spec_status_confirmed(sts[j]->0));
                } else {
                    assert(rest[k - 1] == s);
                    assert(rest.contains(s));
                    let i = choose|i: int|
                        j + 1 <= i < sigs.len() && sigs[i] == s && sts[i] is Some
                            && spec_status_confirmed(sts[i]->0);
                    assert(j <= i < sigs.len() && sigs[i] == s && sts[i] is Some
                        && spec_status_confirmed(sts[i]->0));
                }
            }
            if exists|i: int|
                j <= i < sigs.len() && sigs[i] == s && sts[i] is Some && spec_status_confirmed(
                    sts[i]->0,
                ) {
                let i = choose|i: int|
                    j <= i < sigs.len() && sigs[i] == s && sts[i] is Some && spec_status_confirmed(
                        sts[i]->0,
                    );
                if i == j {
                    assert(cur[0] == s);
                    assert(cur.contains(s));
                } else {
                    assert(rest.contains(s));
                    let k = choose|k: int| 0 <= k < rest.len() && rest[k] == s;
                    assert(cur[k + 1] == s);
                    assert(cur.contains(s));
                }
            }
        } else {
            assert(spec_landed_from(sigs, sts, j) == rest);
            if exists|i: int|
                j <= i < sigs.len() && sigs[i] == s && sts[i] is Some && spec_status_confirmed(
                    sts[i]->0,
                ) {
                let i = choose|i: int|
                    j <= i < sigs.len() && sigs[i] == s && sts[i] is Some && spec_status_confirmed(
                        sts[i]->0,
                    );
                assert(i != j);
            }
        }
    }
}

/// Landing classification, read as a set: a signature is classified as
/// landed exactly when some position pairs it with a present status that
/// satisfies the confirmed commitment level.
pub proof fn lemma_landed_membership(
    sigs: Seq<Signature>,
    sts: Seq<Option<TxStatus>>,
    s: Signature,
)
    requires
        sigs.len() == sts.len(),
    ensures
        spec_landed(sigs, sts).contains(s) <==> exists|i: int|
            0 <= i < sigs.len() && sigs[i] == s && sts[i] is Some && spec_status_confirmed(
                sts[i]->0,
            ),
{
    lemma_landed_from_membership(sigs, sts, 0, s);
}

/// Empty input: an empty batch classifies to an empty result.
pub proof fn lemma_landed_empty()
    ensures
        spec_landed(Seq::<Signature>::empty(), Seq::<Option<TxStatus>>::empty()) == Seq::<
            Signature,
        >::empty(),
{
}

} // verus!
