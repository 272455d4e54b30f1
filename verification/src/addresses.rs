//! Deterministic program-owned address derivation with a process-lifetime,
//! read-through memoization cache.
//!
//! An [`Address`] is a 32-byte public identifier. The derivation itself is
//! the platform's primitive (seed hashing with bump-seed search); this module
//! owns the seed arrangement for the per-authority proof record and the
//! global treasury token account, and the cache around the primitive.

use vstd::prelude::*;

verus! {

/// A 32-byte public identifier of an on-chain account.
pub struct Address {
    bytes: Vec<u8>,
}

impl View for Address {
    type V = Seq<u8>;

    closed spec fn view(&self) -> Seq<u8> {
        self.bytes@
    }
}

fn copy_bytes(v: &Vec<u8>) -> (r: Vec<u8>)
    ensures
        r@ == v@,
{
    let mut r: Vec<u8> = Vec::new();
    let mut i: usize = 0;
    while i < v.len()
        invariant
            i <= v@.len(),
            r@ == v@.take(i as int),
        decreases v@.len() - i,
    {
        r.push(v[i]);
        assert(v@.take(i + 1) =~= v@.take(i as int).push(v@[i as int]));
        i = i + 1;
    }
    assert(v@.take(v@.len() as int) =~= v@);
    r
}

fn bytes_eq(a: &Vec<u8>, b: &Vec<u8>) -> (r: bool)
    ensures
        r <==> a@ == b@,
{
    if a.len() != b.len() {
        return false;
    }
    let mut i: usize = 0;
    while i < a.len()
        invariant
            a@.len() == b@.len(),
            i <= a@.len(),
            forall|j: int| 0 <= j < i ==> a@[j] == b@[j],
        decreases a@.len() - i,
    {
        if a[i] != b[i] {
            return false;
        }
        i = i + 1;
    }
    assert(a@ =~= b@);
    true
}

impl Address {
    /// A well-formed address holds exactly 32 bytes.
    pub open spec fn wf(self) -> bool {
        self@.len() == 32
    }

    /// Wraps 32 bytes as an address; anything of another length is refused.
    pub fn from_bytes(bytes: Vec<u8>) -> (r: Option<Address>)
        ensures
            match r {
                Some(a) => a@ == bytes@ && a.wf(),
                None => bytes@.len() != 32,
            },
            bytes@.len() == 32 ==> r is Some,
    {
        if bytes.len() == 32 {
            Some(Address { bytes })
        } else {
            None
        }
    }

    /// The bytes of the address.
    pub fn as_bytes(&self) -> (r: &Vec<u8>)
        ensures
            r@ == self@,
    {
        &self.bytes
    }

    /// Byte-for-byte equality.
    pub fn equals(&self, other: &Address) -> (r: bool)
        ensures
            r <==> self@ == other@,
    {
        bytes_eq(&self.bytes, &other.bytes)
    }
}

impl Clone for Address {
    fn clone(&self) -> (r: Self)
        ensures
            r@ == self@,
    {
        Address { bytes: copy_bytes(&self.bytes) }
    }
}

/// The proof-record address derived for an authority: a fixed function of
/// the authority's 32 bytes.
pub uninterp spec fn proof_address_of(authority: Seq<u8>) -> Seq<u8>;

/// The associated token address derived for a wallet and a mint: a fixed
/// function of the two addresses' bytes.
pub uninterp spec fn associated_token_address_of(wallet: Seq<u8>, mint: Seq<u8>) -> Seq<u8>;

/// Relies on solana_program's Pubkey::find_program_address, applied to the
/// proof seed tag, the authority's bytes and the mining program's id: the
/// derived address is a deterministic function of the authority alone, and a
/// public key is 32 bytes. The primitive aborts in the statistically
/// improbable event (its own documentation's words) that no bump seed yields
/// a valid off-curve address.
#[verifier::external_body]
fn derive_proof_address(authority: &Address) -> (r: Address)
    requires
        authority.wf(),
    ensures
        r@ == proof_address_of(authority@),
        r@.len() == 32,
{
    let mut arr = [0u8; 32];
    arr.copy_from_slice(authority.bytes.as_slice());
    let key = solana_program::pubkey::Pubkey::new_from_array(arr);
    let derived = solana_program::pubkey::Pubkey::find_program_address(
        &[ore_api::consts::PROOF, key.as_ref()],
        &ore_api::ID,
    )
        .0;
    Address { bytes: derived.to_bytes().to_vec() }
}

/// Relies on spl_associated_token_account::get_associated_token_address: the
/// associated token address is a deterministic function of the wallet and
/// mint addresses alone, and a public key is 32 bytes. The derivation aborts
/// in the statistically improbable event that no bump seed yields a valid
/// off-curve address.
#[verifier::external_body]
fn derive_associated_token_address(wallet: &Address, mint: &Address) -> (r: Address)
    requires
        wallet.wf(),
        mint.wf(),
    ensures
        r@ == associated_token_address_of(wallet@, mint@),
        r@.len() == 32,
{
    let mut w = [0u8; 32];
    w.copy_from_slice(wallet.bytes.as_slice());
    let mut m = [0u8; 32];
    m.copy_from_slice(mint.bytes.as_slice());
    let derived = spl_associated_token_account::get_associated_token_address(
        &solana_program::pubkey::Pubkey::new_from_array(w),
        &solana_program::pubkey::Pubkey::new_from_array(m),
    );
    Address { bytes: derived.to_bytes().to_vec() }
}

/// Relies on the program's well-known treasury address constant; a public
/// key is 32 bytes.
#[verifier::external_body]
fn treasury_address() -> (r: Address)
    ensures
        r@.len() == 32,
{
    Address { bytes: ore_api::consts::TREASURY_ADDRESS.to_bytes().to_vec() }
}

/// Relies on the program's well-known mint address constant; a public key is
/// 32 bytes.
#[verifier::external_body]
fn mint_address() -> (r: Address)
    ensures
        r@.len() == 32,
{
    Address { bytes: ore_api::consts::MINT_ADDRESS.to_bytes().to_vec() }
}

/// A derivation counter incremented by one computation, held at its ceiling.
pub open spec fn bump(c: u64) -> u64 {
    if c == u64::MAX {
        u64::MAX
    } else {
        (c + 1) as u64
    }
}

/// Derives program-owned addresses and memoizes every result for the life of
/// the value: compute on miss, store, return. The cache is unbounded by
/// design; the authorities used in one process run are few.
pub struct AddressDeriver {
    proof_cache: Vec<(Address, Address)>,
    treasury: Address,
    mint: Address,
    treasury_tokens: Option<Address>,
    derivations: u64,
}

impl AddressDeriver {
    /// How many derivations have been computed (cache misses); the counter
    /// is held at its ceiling should it ever reach `u64::MAX`.
    pub closed spec fn derivation_count(self) -> u64 {
        self.derivations
    }

    /// The treasury address this deriver was built with.
    pub closed spec fn treasury_key(self) -> Seq<u8> {
        self.treasury@
    }

    /// The mint address this deriver was built with.
    pub closed spec fn mint_key(self) -> Seq<u8> {
        self.mint@
    }

    /// Whether the proof address for `authority` is already cached.
    pub closed spec fn proof_cached(self, authority: Seq<u8>) -> bool {
        exists|i: int|
            0 <= i < self.proof_cache@.len() && (#[trigger] self.proof_cache@[i]).0@ == authority
    }

    /// Whether the treasury token address is already cached.
    pub closed spec fn treasury_tokens_cached(self) -> bool {
        self.treasury_tokens is Some
    }

    /// Every cached entry holds the derivation of its key, and the two fixed
    /// inputs are well-formed addresses.
    pub closed spec fn wf(self) -> bool {
        &&& self.treasury@.len() == 32
        &&& self.mint@.len() == 32
        &&& forall|i: int|
            0 <= i < self.proof_cache@.len() ==> {
                &&& (#[trigger] self.proof_cache@[i]).0@.len() == 32
                &&& self.proof_cache@[i].1@ == proof_address_of(self.proof_cache@[i].0@)
                &&& self.proof_cache@[i].1@.len() == 32
            }
        &&& match self.treasury_tokens {
            Some(t) => t@ == associated_token_address_of(self.treasury@, self.mint@) && t@.len()
                == 32,
            None => true,
        }
    }

    /// A fresh deriver with an empty cache, fixed to the program's treasury
    /// and mint addresses.
    pub fn new() -> (r: AddressDeriver)
        ensures
            r.wf(),
            r.derivation_count() == 0,
            forall|a: Seq<u8>| !r.proof_cached(a),
            !r.treasury_tokens_cached(),
    {
        AddressDeriver {
            proof_cache: Vec::new(),
            treasury: treasury_address(),
            mint: mint_address(),
            treasury_tokens: None,
            derivations: 0,
        }
    }

    /// The derivation counter, for observing memoization.
    pub fn derivations(&self) -> (r: u64)
        ensures
            r == self.derivation_count(),
    {
        self.derivations
    }

    /// The proof-record address for `authority`: always
    /// `proof_address_of(authority@)`, read through the cache. A repeated
    /// call for a cached authority changes nothing, in particular not the
    /// derivation counter; a miss computes once, stores, and counts.
    pub fn proof_pubkey(&mut self, authority: &Address) -> (r: Address)
        requires
            old(self).wf(),
            authority.wf(),
        ensures
            final(self).wf(),
            r.wf(),
            r@ == proof_address_of(authority@),
            final(self).proof_cached(authority@),
            old(self).proof_cached(authority@) ==> *final(self) == *old(self),
            !old(self).proof_cached(authority@) ==> final(self).derivation_count() == bump(
                old(self).derivation_count(),
            ),
            forall|a: Seq<u8>| old(self).proof_cached(a) ==> final(self).proof_cached(a),
            final(self).treasury_key() == old(self).treasury_key(),
            final(self).mint_key() == old(self).mint_key(),
            final(self).treasury_tokens_cached() == old(self).treasury_tokens_cached(),
    {
        let n = self.proof_cache.len();
        let mut i: usize = 0;
        while i < n
            invariant
                *self == *old(self),
                old(self).wf(),
                authority.wf(),
                n == self.proof_cache@.len(),
                i <= n,
                forall|j: int| 0 <= j < i ==> (#[trigger] self.proof_cache@[j]).0@ != authority@,
            decreases n - i,
        {
            let entry = &self.proof_cache[i];
            if entry.0.equals(authority) {
                return entry.1.clone();
            }
            i = i + 1;
        }
        assert(!old(self).proof_cached(authority@));
        let derived = derive_proof_address(authority);
        self.proof_cache.push((authority.clone(), derived.clone()));
        self.derivations = if self.derivations == u64::MAX {
            u64::MAX
        } else {
            self.derivations + 1
        };
        proof {
            let m = self.proof_cache@.len() - 1;
            assert(self.proof_cache@[m].0@ == authority@);
            assert forall|a: Seq<u8>| old(self).proof_cached(a) implies self.proof_cached(a) by {
                let i = choose|i: int|
                    0 <= i < old(self).proof_cache@.len() && (#[trigger] old(
                        self,
                    ).proof_cache@[i]).0@ == a;
                assert(self.proof_cache@[i].0@ == a);
            }
        }
        derived
    }

    /// The treasury's associated token address against the global mint:
    /// always the derivation for the two fixed inputs, read through a
    /// single-value cache with the same memoization contract as
    /// [`Self::proof_pubkey`].
    pub fn treasury_tokens_pubkey(&mut self) -> (r: Address)
        requires
            old(self).wf(),
        ensures
            final(self).wf(),
            r.wf(),
            r@ == associated_token_address_of(old(self).treasury_key(), old(self).mint_key()),
            final(self).treasury_tokens_cached(),
            old(self).treasury_tokens_cached() ==> *final(self) == *old(self),
            !old(self).treasury_tokens_cached() ==> final(self).derivation_count() == bump(
                old(self).derivation_count(),
            ),
            forall|a: Seq<u8>| final(self).proof_cached(a) == old(self).proof_cached(a),
            final(self).treasury_key() == old(self).treasury_key(),
            final(self).mint_key() == old(self).mint_key(),
    {
        if let Some(t) = &self.treasury_tokens {
            return t.clone();
        }
        let derived = derive_associated_token_address(&self.treasury, &self.mint);
        self.treasury_tokens = Some(derived.clone());
        self.derivations = if self.derivations == u64::MAX {
            u64::MAX
        } else {
            self.derivations + 1
        };
        proof {
            assert forall|a: Seq<u8>| self.proof_cached(a) == old(self).proof_cached(a) by {
                if self.proof_cached(a) {
                    let i = choose|i: int|
                        0 <= i < self.proof_cache@.len() && (#[trigger] self.proof_cache@[i]).0@
                            == a;
                    assert(old(self).proof_cache@[i].0@ == a);
                }
                if old(self).proof_cached(a) {
                    let i = choose|i: int|
                        0 <= i < old(self).proof_cache@.len() && (#[trigger] old(
                            self,
                        ).proof_cache@[i]).0@ == a;
                    assert(self.proof_cache@[i].0@ == a);
                }
            }
        }
        derived
    }
}

/// Derivation determinism: the proof address is a function of the authority
/// alone, so any two derivation results for the same authority agree.
pub proof fn lemma_proof_address_deterministic(authority: Seq<u8>, r1: Seq<u8>, r2: Seq<u8>)
    requires
        r1 == proof_address_of(authority),
        r2 == proof_address_of(authority),
    ensures
        r1 == r2,
{
}

} // verus!
