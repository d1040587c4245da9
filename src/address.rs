//! Derived addresses: accounts whose authority is the program itself.
use anchor_lang::prelude::Pubkey;
use vstd::prelude::*;

verus! {

broadcast use vstd::array::group_array_axioms;

/// A 32-byte account address.
#[derive(Clone, Copy, Debug, PartialEq, Eq)]
pub struct Address {
    pub bytes: [u8; 32],
}

impl View for Address {
    type V = Seq<u8>;

    open spec fn view(&self) -> Seq<u8> {
        self.bytes@
    }
}

impl Address {
    /// The address with these bytes.
    pub fn new(bytes: [u8; 32]) -> (r: Address)
        ensures
            r.bytes == bytes,
    {
        Address { bytes }
    }

    /// Byte-wise equality of two addresses.
    pub fn same(&self, other: &Address) -> (r: bool)
        ensures
            r == (*self == *other),
            r == (self@ == other@),
    {
        let mut i: usize = 0;
        while i < 32
            invariant
                0 <= i <= 32,
                forall|j: int| 0 <= j < i ==> self.bytes@[j] == other.bytes@[j],
            decreases 32 - i,
        {
            if self.bytes[i] != other.bytes[i] {
                assert(self.bytes@[i as int] != other.bytes@[i as int]);
                return false;
            }
            i = i + 1;
        }
        assert(self.bytes =~= other.bytes);
        true
    }
}

/// Seeds as byte sequences.
pub open spec fn seeds_view(seeds: Seq<Vec<u8>>) -> Seq<Seq<u8>> {
    seeds.map_values(|s: Vec<u8>| s@)
}

pub open spec fn found_view(r: Option<(Address, u8)>) -> Option<(Seq<u8>, u8)> {
    match r {
        Some((a, b)) => Some((a@, b)),
        None => None,
    }
}

pub open spec fn created_view(r: Option<Address>) -> Option<Seq<u8>> {
    match r {
        Some(a) => Some(a@),
        None => None,
    }
}

/// The program address found for `seeds` under `program`, with its bump.
pub uninterp spec fn found_program_address(seeds: Seq<Seq<u8>>, program: Seq<u8>) -> Option<(Seq<u8>, u8)>;

/// The program address created from `seeds` (the bump included) under `program`.
pub uninterp spec fn created_program_address(seeds: Seq<Seq<u8>>, program: Seq<u8>) -> Option<Seq<u8>>;

/// Relies on `Pubkey::try_find_program_address`, which tries the bumps from 255
/// downward and returns the first whose `create_program_address` succeeds.
#[verifier::external_body]
fn try_find_program_address(seeds: &Vec<Vec<u8>>, program: &Address) -> (r: Option<(Address, u8)>)
    ensures
        found_view(r) == found_program_address(seeds_view(seeds@), program@),
        r matches Some((a, b)) ==> created_program_address(
            seeds_view(seeds@).push(seq![b]),
            program@,
        ) == Some(a@),
        r matches Some((a, b)) ==> forall|c: u8|
            b < c ==> #[trigger] created_program_address(seeds_view(seeds@).push(seq![c]), program@)
                is None,
        seeds@.len() >= 16 ==> r is None,
        (exists|i: int| 0 <= i < seeds@.len() && #[trigger] seeds@[i]@.len() > 32) ==> r is None,
{
    let refs: Vec<&[u8]> = seeds.iter().map(|s| s.as_slice()).collect();
    let program = Pubkey::new_from_array(program.bytes);
    Pubkey::try_find_program_address(&refs, &program).map(|(k, b)| (Address { bytes: k.to_bytes() }, b))
}

/// Relies on `Pubkey::create_program_address`: the address for the seeds, or an
/// error where the seeds are invalid or the hash lies on the curve.
#[verifier::external_body]
fn create_program_address(seeds: &Vec<Vec<u8>>, program: &Address) -> (r: Option<Address>)
    ensures
        created_view(r) == created_program_address(seeds_view(seeds@), program@),
{
    let refs: Vec<&[u8]> = seeds.iter().map(|s| s.as_slice()).collect();
    let program = Pubkey::new_from_array(program.bytes);
    Pubkey::create_program_address(&refs, &program).ok().map(|k| Address { bytes: k.to_bytes() })
}

/// Derives the program address of `seeds` under `program_id` and its bump: the
/// highest bump under which the address can be created. `None` where there are
/// 16 seeds or more, a seed is longer than 32 bytes, or no bump works.
pub fn derive_address(seeds: &Vec<Vec<u8>>, program_id: &Address) -> (r: Option<(Address, u8)>)
    ensures
        found_view(r) == found_program_address(seeds_view(seeds@), program_id@),
        r matches Some((a, b)) ==> created_program_address(seeds_view(seeds@).push(seq![b]), program_id@)
            == Some(a@),
        r matches Some((a, b)) ==> forall|c: u8|
            b < c ==> #[trigger] created_program_address(seeds_view(seeds@).push(seq![c]), program_id@)
                is None,
        seeds@.len() >= 16 ==> r is None,
        (exists|i: int| 0 <= i < seeds@.len() && #[trigger] seeds@[i]@.len() > 32) ==> r is None,
{
    try_find_program_address(seeds, program_id)
}

/// Re-creates the program address of `seeds` followed by `bump`: the proof
/// that the program holds authority over that address.
pub fn prove_authority(seeds: Vec<Vec<u8>>, bump: u8, program_id: &Address) -> (r: Option<Address>)
    ensures
        created_view(r) == created_program_address(seeds_view(seeds@).push(seq![bump]), program_id@),
{
    let mut seeds = seeds;
    let ghost before = seeds@;
    seeds.push(single_byte(bump));
    assert(seeds_view(seeds@) =~= seeds_view(before).push(seq![bump]));
    create_program_address(&seeds, program_id)
}

/// The bump under which `key` is the program address found for `seeds`, if it is.
pub open spec fn found_bump(key: Address, seeds: Seq<Seq<u8>>, program: Address) -> Option<u8> {
    match found_program_address(seeds, program@) {
        Some((a, b)) => if a == key@ {
            Some(b)
        } else {
            None
        },
        None => None,
    }
}

/// Whether `key` is the program address created from `seeds` followed by `bump`.
pub open spec fn created_at(key: Address, seeds: Seq<Seq<u8>>, bump: u8, program: Address) -> bool {
    created_program_address(seeds.push(seq![bump]), program@) == Some(key@)
}

/// Derives the program address of `seeds` and reports the bump under which it
/// equals `key`, or `None` where `key` is another address.
pub fn check_found(key: &Address, seeds: &Vec<Vec<u8>>, program_id: &Address) -> (r: Option<u8>)
    ensures
        r == found_bump(*key, seeds_view(seeds@), *program_id),
{
    match try_find_program_address(seeds, program_id) {
        Some((a, b)) => if a.same(key) {
            Some(b)
        } else {
            None
        },
        None => None,
    }
}

/// Re-derives the program address of `seeds` with a stored `bump` and reports
/// whether it is `key`.
pub fn check_created(key: &Address, seeds: Vec<Vec<u8>>, bump: u8, program_id: &Address) -> (r: bool)
    ensures
        r == created_at(*key, seeds_view(seeds@), bump, *program_id),
{
    match prove_authority(seeds, bump, program_id) {
        Some(a) => a.same(key),
        None => false,
    }
}

fn single_byte(x: u8) -> (r: Vec<u8>)
    ensures
        r@ == seq![x],
{
    let mut r: Vec<u8> = Vec::new();
    r.push(x);
    assert(r@ =~= seq![x]);
    r
}

/// The 32 bytes of an address, as a seed.
pub fn address_bytes(a: &Address) -> (r: Vec<u8>)
    ensures
        r@ == a@,
{
    vstd::slice::slice_to_vec(a.bytes.as_slice())
}

// "escrow"
pub open spec fn escrow_tag() -> Seq<u8> {
    seq![101u8, 115u8, 99u8, 114u8, 111u8, 119u8]
}

// "config"
pub open spec fn config_tag() -> Seq<u8> {
    seq![99u8, 111u8, 110u8, 102u8, 105u8, 103u8]
}

// "mint"
pub open spec fn mint_tag() -> Seq<u8> {
    seq![109u8, 105u8, 110u8, 116u8]
}

// "minter"
pub open spec fn minter_tag() -> Seq<u8> {
    seq![109u8, 105u8, 110u8, 116u8, 101u8, 114u8]
}

// "market"
pub open spec fn market_tag() -> Seq<u8> {
    seq![109u8, 97u8, 114u8, 107u8, 101u8, 116u8]
}

// "position"
pub open spec fn position_tag() -> Seq<u8> {
    seq![112u8, 111u8, 115u8, 105u8, 116u8, 105u8, 111u8, 110u8]
}

// "collection"
pub open spec fn collection_tag() -> Seq<u8> {
    seq![99u8, 111u8, 108u8, 108u8, 101u8, 99u8, 116u8, 105u8, 111u8, 110u8]
}

// "labubu_mint"
pub open spec fn labubu_mint_tag() -> Seq<u8> {
    seq![108u8, 97u8, 98u8, 117u8, 98u8, 117u8, 95u8, 109u8, 105u8, 110u8, 116u8]
}

pub open spec fn escrow_seeds_of(maker: Address, seed: u64) -> Seq<Seq<u8>> {
    seq![escrow_tag(), maker@, vstd::bytes::spec_u64_to_le_bytes(seed)]
}

pub open spec fn config_seeds_of() -> Seq<Seq<u8>> {
    seq![config_tag()]
}

pub open spec fn mint_seeds_of() -> Seq<Seq<u8>> {
    seq![mint_tag()]
}

pub open spec fn minter_seeds_of(minter: Address) -> Seq<Seq<u8>> {
    seq![minter_tag(), minter@]
}

pub open spec fn market_seeds_of(creator: Address, market_id: u64) -> Seq<Seq<u8>> {
    seq![market_tag(), creator@, vstd::bytes::spec_u64_to_le_bytes(market_id)]
}

pub open spec fn position_seeds_of(market: Address, user: Address) -> Seq<Seq<u8>> {
    seq![position_tag(), market@, user@]
}

pub open spec fn collection_seeds_of() -> Seq<Seq<u8>> {
    seq![collection_tag()]
}

pub open spec fn labubu_mint_seeds_of(labubu_id: u8) -> Seq<Seq<u8>> {
    seq![labubu_mint_tag(), seq![labubu_id]]
}

/// Seeds `["escrow", maker, seed as little-endian bytes]`.
pub fn escrow_seeds(maker: &Address, seed: u64) -> (r: Vec<Vec<u8>>)
    ensures
        seeds_view(r@) == escrow_seeds_of(*maker, seed),
{
    let mut r: Vec<Vec<u8>> = Vec::new();
    r.push(vec![101u8, 115, 99, 114, 111, 119]);
    r.push(address_bytes(maker));
    r.push(vstd::bytes::u64_to_le_bytes(seed));
    assert(seeds_view(r@) =~= escrow_seeds_of(*maker, seed));
    r
}

/// Seeds `["config"]`.
pub fn config_seeds() -> (r: Vec<Vec<u8>>)
    ensures
        seeds_view(r@) == config_seeds_of(),
{
    let mut r: Vec<Vec<u8>> = Vec::new();
    r.push(vec![99u8, 111, 110, 102, 105, 103]);
    assert(seeds_view(r@) =~= config_seeds_of());
    r
}

/// Seeds `["mint"]`.
pub fn mint_seeds() -> (r: Vec<Vec<u8>>)
    ensures
        seeds_view(r@) == mint_seeds_of(),
{
    let mut r: Vec<Vec<u8>> = Vec::new();
    r.push(vec![109u8, 105, 110, 116]);
    assert(seeds_view(r@) =~= mint_seeds_of());
    r
}

/// Seeds `["minter", minter]`.
pub fn minter_seeds(minter: &Address) -> (r: Vec<Vec<u8>>)
    ensures
        seeds_view(r@) == minter_seeds_of(*minter),
{
    let mut r: Vec<Vec<u8>> = Vec::new();
    r.push(vec![109u8, 105, 110, 116, 101, 114]);
    r.push(address_bytes(minter));
    assert(seeds_view(r@) =~= minter_seeds_of(*minter));
    r
}

/// Seeds `["market", creator, market_id as little-endian bytes]`.
pub fn market_seeds(creator: &Address, market_id: u64) -> (r: Vec<Vec<u8>>)
    ensures
        seeds_view(r@) == market_seeds_of(*creator, market_id),
{
    let mut r: Vec<Vec<u8>> = Vec::new();
    r.push(vec![109u8, 97, 114, 107, 101, 116]);
    r.push(address_bytes(creator));
    r.push(vstd::bytes::u64_to_le_bytes(market_id));
    assert(seeds_view(r@) =~= market_seeds_of(*creator, market_id));
    r
}

/// Seeds `["position", market, user]`.
pub fn position_seeds(market: &Address, user: &Address) -> (r: Vec<Vec<u8>>)
    ensures
        seeds_view(r@) == position_seeds_of(*market, *user),
{
    let mut r: Vec<Vec<u8>> = Vec::new();
    r.push(vec![112u8, 111, 115, 105, 116, 105, 111, 110]);
    r.push(address_bytes(market));
    r.push(address_bytes(user));
    assert(seeds_view(r@) =~= position_seeds_of(*market, *user));
    r
}

/// Seeds `["collection"]`.
pub fn collection_seeds() -> (r: Vec<Vec<u8>>)
    ensures
        seeds_view(r@) == collection_seeds_of(),
{
    let mut r: Vec<Vec<u8>> = Vec::new();
    r.push(vec![99u8, 111, 108, 108, 101, 99, 116, 105, 111, 110]);
    assert(seeds_view(r@) =~= collection_seeds_of());
    r
}

/// Seeds `["labubu_mint", [labubu_id]]`.
pub fn labubu_mint_seeds(labubu_id: u8) -> (r: Vec<Vec<u8>>)
    ensures
        seeds_view(r@) == labubu_mint_seeds_of(labubu_id),
{
    let mut r: Vec<Vec<u8>> = Vec::new();
    r.push(vec![108u8, 97, 98, 117, 98, 117, 95, 109, 105, 110, 116]);
    r.push(single_byte(labubu_id));
    assert(seeds_view(r@) =~= labubu_mint_seeds_of(labubu_id));
    r
}


/// The address whose bytes are `bytes` (of length 32).
pub open spec fn address_of(bytes: Seq<u8>) -> Address {
    choose|a: Address| a@ == bytes
}

/// The token program (`TokenkegQfeZyiNwAJbNbGKPFXCWuBvf9Ss623VQ5DA`).
pub open spec fn token_program_key() -> Seq<u8> {
    seq![
        6u8, 221u8, 246u8, 225u8, 215u8, 101u8, 161u8, 147u8,
        217u8, 203u8, 225u8, 70u8, 206u8, 235u8, 121u8, 172u8,
        28u8, 180u8, 133u8, 237u8, 95u8, 91u8, 55u8, 145u8,
        58u8, 140u8, 245u8, 133u8, 126u8, 255u8, 0u8, 169u8,
    ]
}

/// The token-2022 program (`TokenzQdBNbLqP5VEhdkAS6EPFLC1PHnBqCXEpPxuEb`).
pub open spec fn token_2022_program_key() -> Seq<u8> {
    seq![
        6u8, 221u8, 246u8, 225u8, 238u8, 117u8, 143u8, 222u8,
        24u8, 66u8, 93u8, 188u8, 228u8, 108u8, 205u8, 218u8,
        182u8, 26u8, 252u8, 77u8, 131u8, 185u8, 13u8, 39u8,
        254u8, 189u8, 249u8, 40u8, 216u8, 161u8, 139u8, 252u8,
    ]
}

/// The associated-token-account program (`ATokenGPvbdGVxr1b2hvZbsiqW5xWH25efTNsLJA8knL`).
pub open spec fn associated_token_program_key() -> Seq<u8> {
    seq![
        140u8, 151u8, 37u8, 143u8, 78u8, 36u8, 137u8, 241u8,
        187u8, 61u8, 16u8, 41u8, 20u8, 142u8, 13u8, 131u8,
        11u8, 90u8, 19u8, 153u8, 218u8, 255u8, 16u8, 132u8,
        4u8, 142u8, 123u8, 216u8, 219u8, 233u8, 248u8, 89u8,
    ]
}

pub fn token_program_id() -> (r: Address)
    ensures
        r@ == token_program_key(),
        r == address_of(token_program_key()),
{
    let r = Address {
        bytes: [
            6u8, 221, 246, 225, 215, 101, 161, 147,
            217, 203, 225, 70, 206, 235, 121, 172,
            28, 180, 133, 237, 95, 91, 55, 145,
            58, 140, 245, 133, 126, 255, 0, 169,
        ],
    };
    assert(r@ =~= token_program_key());
    assert(r.bytes =~= address_of(token_program_key()).bytes);
    r
}

pub fn token_2022_program_id() -> (r: Address)
    ensures
        r@ == token_2022_program_key(),
        r == address_of(token_2022_program_key()),
{
    let r = Address {
        bytes: [
            6u8, 221, 246, 225, 238, 117, 143, 222,
            24, 66, 93, 188, 228, 108, 205, 218,
            182, 26, 252, 77, 131, 185, 13, 39,
            254, 189, 249, 40, 216, 161, 139, 252,
        ],
    };
    assert(r@ =~= token_2022_program_key());
    assert(r.bytes =~= address_of(token_2022_program_key()).bytes);
    r
}

pub fn associated_token_program_id() -> (r: Address)
    ensures
        r@ == associated_token_program_key(),
        r == address_of(associated_token_program_key()),
{
    let r = Address {
        bytes: [
            140u8, 151, 37, 143, 78, 36, 137, 241,
            187, 61, 16, 41, 20, 142, 13, 131,
            11, 90, 19, 153, 218, 255, 16, 132,
            4, 142, 123, 216, 219, 233, 248, 89,
        ],
    };
    assert(r@ =~= associated_token_program_key());
    assert(r.bytes =~= address_of(associated_token_program_key()).bytes);
    r
}

/// The associated token account of `wallet` for `mint` under `token_program`:
/// the program address of `[wallet, token_program, mint]` under the
/// associated-token-account program.
pub open spec fn associated_token_address_of(wallet: Address, mint: Address, token_program: Address) -> Option<Seq<u8>> {
    match found_program_address(seq![wallet@, token_program@, mint@], associated_token_program_key()) {
        Some((a, _)) => Some(a),
        None => None,
    }
}

/// Derives the associated token account of `wallet` for `mint`.
pub fn associated_token_address(wallet: &Address, mint: &Address, token_program: &Address) -> (r: Option<Address>)
    ensures
        created_view(r) == associated_token_address_of(*wallet, *mint, *token_program),
{
    let mut seeds: Vec<Vec<u8>> = Vec::new();
    seeds.push(address_bytes(wallet));
    seeds.push(address_bytes(token_program));
    seeds.push(address_bytes(mint));
    assert(seeds_view(seeds@) =~= seq![wallet@, token_program@, mint@]);
    match try_find_program_address(&seeds, &associated_token_program_id()) {
        Some((a, _)) => Some(a),
        None => None,
    }
}

/// Whether `key` is the associated token account of `wallet` for `mint`.
pub open spec fn is_associated_token_address(key: Address, wallet: Address, mint: Address, token_program: Address) -> bool {
    associated_token_address_of(wallet, mint, token_program) == Some(key@)
}

pub fn check_associated(key: &Address, wallet: &Address, mint: &Address, token_program: &Address) -> (r: bool)
    ensures
        r == is_associated_token_address(*key, *wallet, *mint, *token_program),
{
    match associated_token_address(wallet, mint, token_program) {
        Some(a) => a.same(key),
        None => false,
    }
}

} // verus!
