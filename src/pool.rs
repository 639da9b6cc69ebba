use vstd::bytes::{spec_u64_to_le_bytes, u64_to_le_bytes};
use vstd::prelude::*;
use vstd::string::StringSliceAdditionalSpecFns;

use crate::address::{bytes_lt, Address};
use crate::state::lbp::Lbp;

verus! {

/// The SHA-256 digest of a byte string.
pub uninterp spec fn sha256_of(data: Seq<u8>) -> Seq<u8>;

/// Relies on `solana_program::hash::hash`, re-exported by anchor_lang: it returns the SHA-256
/// digest of its input, which depends on the input alone.
#[verifier::external_body]
fn hash(data: &[u8]) -> (r: [u8; 32])
    ensures
        r@ == sha256_of(data@),
{
    anchor_lang::solana_program::hash::hash(data).to_bytes()
}

/// The text whose digest names an instruction: `namespace:name`.
pub open spec fn sighash_preimage(namespace: Seq<u8>, name: Seq<u8>) -> Seq<u8> {
    namespace + seq![58u8] + name
}

/// The 8-byte discriminator of instruction `name` in `namespace`.
pub open spec fn sighash_of(namespace: &str, name: &str) -> Seq<u8> {
    sha256_of(sighash_preimage(namespace.spec_bytes(), name.spec_bytes())).subrange(0, 8)
}

/// The first 8 bytes of the SHA-256 digest of `namespace:name`, which the pool protocol reads as
/// the instruction to run.
pub fn sighash(namespace: &str, name: &str) -> (r: [u8; 8])
    ensures
        r@ == sighash_of(namespace, name),
{
    let ns = namespace.as_bytes();
    let nm = name.as_bytes();
    let mut preimage: Vec<u8> = Vec::new();
    let mut i: usize = 0;
    while i < ns.len()
        invariant
            i <= ns@.len(),
            preimage@ == ns@.subrange(0, i as int),
        decreases ns@.len() - i,
    {
        preimage.push(ns[i]);
        assert(ns@.subrange(0, i + 1) =~= ns@.subrange(0, i as int).push(ns@[i as int]));
        i = i + 1;
    }
    assert(ns@.subrange(0, ns@.len() as int) =~= ns@);
    preimage.push(58u8);
    let ghost head = preimage@;
    let mut j: usize = 0;
    while j < nm.len()
        invariant
            j <= nm@.len(),
            preimage@ == head + nm@.subrange(0, j as int),
        decreases nm@.len() - j,
    {
        preimage.push(nm[j]);
        assert(nm@.subrange(0, j + 1) =~= nm@.subrange(0, j as int).push(nm@[j as int]));
        j = j + 1;
    }
    assert(nm@.subrange(0, nm@.len() as int) =~= nm@);
    assert(preimage@ =~= sighash_preimage(namespace.spec_bytes(), name.spec_bytes()));
    let digest = hash(preimage.as_slice());
    let r = [
        digest[0],
        digest[1],
        digest[2],
        digest[3],
        digest[4],
        digest[5],
        digest[6],
        digest[7],
    ];
    assert(r@ =~= digest@.subrange(0, 8));
    r
}

/// The data of the pool protocol's `initialize` call: the discriminator, the two initial
/// amounts and an opening time of 0 (trading opens at once), each as 8 little-endian bytes.
pub open spec fn pool_init_data(discriminator: Seq<u8>, amount_0: u64, amount_1: u64) -> Seq<u8> {
    discriminator + spec_u64_to_le_bytes(amount_0) + spec_u64_to_le_bytes(amount_1)
        + spec_u64_to_le_bytes(0)
}

pub fn initialize_pool_data(discriminator: &[u8; 8], amount_0: u64, amount_1: u64) -> (r: Vec<u8>)
    ensures
        r@ == pool_init_data(discriminator@, amount_0, amount_1),
{
    let mut data: Vec<u8> = Vec::new();
    let mut i: usize = 0;
    while i < 8
        invariant
            i <= 8,
            discriminator@.len() == 8,
            data@ == discriminator@.subrange(0, i as int),
        decreases 8 - i,
    {
        data.push(discriminator[i]);
        assert(discriminator@.subrange(0, i + 1) =~= discriminator@.subrange(0, i as int).push(
            discriminator@[i as int],
        ));
        i = i + 1;
    }
    assert(discriminator@.subrange(0, 8) =~= discriminator@);
    let mut a0 = u64_to_le_bytes(amount_0);
    let mut a1 = u64_to_le_bytes(amount_1);
    let mut open_time = u64_to_le_bytes(0);
    data.append(&mut a0);
    data.append(&mut a1);
    data.append(&mut open_time);
    data
}

/// The single call that hands a campaign's custody to the pool protocol. It is consumed when
/// dispatched: it cannot be copied, so the authority it carries serves this call only.
#[derive(Debug)]
pub struct PoolInitRequest {
    /// The campaign whose custody authority signs the call.
    pub lbp: u64,
    /// The asset that orders first.
    pub token_0_mint: Address,
    /// The asset that orders second.
    pub token_1_mint: Address,
    /// Whether the raised asset orders first, so that token 0 comes from the raised custody.
    pub raised_token_first: bool,
    pub init_amount_0: u64,
    pub init_amount_1: u64,
    /// The call's data.
    pub data: Vec<u8>,
}

impl PoolInitRequest {
    /// The pool call for campaign `lbp`: both assets with their amounts, the lower identity first.
    pub open spec fn describes(self, lbp: Lbp) -> bool {
        let raised_first = bytes_lt(lbp.raised_token_mint@, lbp.launched_token_mint@);
        &&& self.lbp == lbp.uid
        &&& self.raised_token_first == raised_first
        &&& raised_first ==> {
            &&& self.token_0_mint == lbp.raised_token_mint
            &&& self.token_1_mint == lbp.launched_token_mint
            &&& self.init_amount_0 == lbp.raised_token_cap
            &&& self.init_amount_1 == lbp.launched_token_cap
        }
        &&& !raised_first ==> {
            &&& self.token_0_mint == lbp.launched_token_mint
            &&& self.token_1_mint == lbp.raised_token_mint
            &&& self.init_amount_0 == lbp.launched_token_cap
            &&& self.init_amount_1 == lbp.raised_token_cap
        }
        &&& self.data@ == pool_init_data(
            sighash_of("global", "initialize"),
            self.init_amount_0,
            self.init_amount_1,
        )
    }
}

/// Builds the call that creates the liquidity pool from a campaign's custody.
pub fn initialize_pool_cpi(lbp: &Lbp) -> (r: PoolInitRequest)
    ensures
        r.describes(*lbp),
{
    let raised_first = lbp.raised_token_mint.precedes(&lbp.launched_token_mint);
    let (token_0_mint, token_1_mint, init_amount_0, init_amount_1) = if raised_first {
        (lbp.raised_token_mint, lbp.launched_token_mint, lbp.raised_token_cap, lbp.launched_token_cap)
    } else {
        (lbp.launched_token_mint, lbp.raised_token_mint, lbp.launched_token_cap, lbp.raised_token_cap)
    };
    let discriminator = sighash("global", "initialize");
    let data = initialize_pool_data(&discriminator, init_amount_0, init_amount_1);
    PoolInitRequest {
        lbp: lbp.uid,
        token_0_mint,
        token_1_mint,
        raised_token_first: raised_first,
        init_amount_0,
        init_amount_1,
        data,
    }
}

} // verus!
