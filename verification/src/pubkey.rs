//! Account addresses and the derivation of program addresses.
use vstd::prelude::*;
use crate::bytes::{lemma_u64_le_bytes_injective, spec_u64_le_bytes, u64_le_bytes};

verus! {

/// A 32-byte account address.
pub type Pubkey = [u8; 32];

/// Whether two addresses hold the same bytes.
pub fn pubkey_eq(a: &Pubkey, b: &Pubkey) -> (r: bool)
    ensures
        r == (a@ == b@),
{
    let mut i: usize = 0;
    while i < 32
        invariant
            i <= 32,
            forall|j: int| 0 <= j < i ==> a@[j] == b@[j],
        decreases 32 - i,
    {
        if a[i] != b[i] {
            return false;
        }
        i += 1;
    }
    assert(a@ =~= b@);
    true
}

/// The bytes of an address as a vector.
pub fn pubkey_bytes(key: &Pubkey) -> (r: Vec<u8>)
    ensures
        r@ == key@,
{
    let mut out: Vec<u8> = Vec::new();
    let mut i: usize = 0;
    while i < 32
        invariant
            i <= 32,
            out@.len() == i,
            forall|j: int| 0 <= j < i ==> out@[j] == key@[j],
        decreases 32 - i,
    {
        out.push(key[i]);
        i += 1;
    }
    assert(out@ =~= key@);
    out
}

/// Appends the bytes of an address to `out`.
pub fn append_pubkey(out: &mut Vec<u8>, key: &Pubkey)
    ensures
        final(out)@ == old(out)@ + key@,
{
    let mut bytes = pubkey_bytes(key);
    out.append(&mut bytes);
}

/// The address held in 32 bytes of `bytes` starting at `start`.
pub fn pubkey_at(bytes: &[u8], start: usize) -> (r: Pubkey)
    requires
        start + 32 <= bytes@.len(),
    ensures
        r@ == bytes@.subrange(start as int, start + 32),
{
    let n = bytes.len();
    let mut out: Pubkey = [0u8; 32];
    let mut i: usize = 0;
    while i < 32
        invariant
            i <= 32,
            n == bytes@.len(),
            start + 32 <= n,
            forall|j: int| 0 <= j < i ==> out@[j] == bytes@[start + j],
        decreases 32 - i,
    {
        out[i] = bytes[start + i];
        i += 1;
    }
    assert(out@ =~= bytes@.subrange(start as int, start + 32));
    out
}

/// The seeds of a derivation, each as a sequence of bytes.
pub open spec fn seeds_view(seeds: &Vec<Vec<u8>>) -> Seq<Seq<u8>> {
    Seq::new(seeds@.len(), |i: int| seeds@[i]@)
}

/// A found program address as plain values.
pub open spec fn found_view(found: Option<(Pubkey, u8)>) -> Option<(Seq<u8>, u8)> {
    match found {
        Some((address, bump)) => Some((address@, bump)),
        None => None,
    }
}

/// The program address that the runtime derives for `program_id` from
/// `seeds`, with its bump seed, or `None` where it derives none.
pub uninterp spec fn program_address(seeds: Seq<Seq<u8>>, program_id: Seq<u8>) -> Option<
    (Seq<u8>, u8),
>;

/// Calls `pinocchio::Address::try_find_program_address`. The contract claims
/// that what it returns depends on the seeds and the program id alone, and
/// gives that result the name `program_address`; nothing is claimed of which
/// address it is.
#[verifier::external_body]
fn try_find_program_address(seeds: &Vec<Vec<u8>>, program_id: &Pubkey) -> (found: Option<
    (Pubkey, u8),
>)
    ensures
        found_view(found) == program_address(seeds_view(seeds), program_id@),
{
    let parts: Vec<&[u8]> = seeds.iter().map(|seed| seed.as_slice()).collect();
    let program = pinocchio::Address::new_from_array(*program_id);
    match pinocchio::Address::try_find_program_address(&parts, &program) {
        Some((address, bump)) => Some((address.to_bytes(), bump)),
        None => None,
    }
}

/// Calls `pinocchio_associated_token_account::id`. The contract claims that
/// it returns the 32 bytes written out in `ASSOCIATED_TOKEN_PROGRAM_ID`.
#[verifier::external_body]
pub(crate) fn associated_token_program_id() -> (id: Pubkey)
    ensures
        id@ == ASSOCIATED_TOKEN_PROGRAM_ID@,
{
    pinocchio_associated_token_account::id().to_bytes()
}

/// Calls `pinocchio_system::id`. The contract claims that it returns 32 zero
/// bytes.
#[verifier::external_body]
pub(crate) fn system_program_id() -> (id: Pubkey)
    ensures
        id@ == SYSTEM_PROGRAM_ID@,
{
    pinocchio_system::id().to_bytes()
}

/// Calls `pinocchio_token::id`. The contract claims that it returns the 32
/// bytes written out in `TOKEN_PROGRAM_ID`.
#[verifier::external_body]
pub(crate) fn token_program_id() -> (id: Pubkey)
    ensures
        id@ == TOKEN_PROGRAM_ID@,
{
    pinocchio_token::id().to_bytes()
}

/// Address of the system program.
pub const SYSTEM_PROGRAM_ID: Pubkey = [
    0, 0, 0, 0, 0, 0, 0, 0, 0, 0, 0, 0, 0, 0, 0, 0,
    0, 0, 0, 0, 0, 0, 0, 0, 0, 0, 0, 0, 0, 0, 0, 0,
];

/// Address of the token program.
pub const TOKEN_PROGRAM_ID: Pubkey = [
    6, 221, 246, 225, 215, 101, 161, 147, 217, 203, 225, 70, 206, 235, 121, 172,
    28, 180, 133, 237, 95, 91, 55, 145, 58, 140, 245, 133, 126, 255, 0, 169,
];

/// Address of the associated token account program.
pub const ASSOCIATED_TOKEN_PROGRAM_ID: Pubkey = [
    140, 151, 37, 143, 78, 36, 137, 241, 187, 61, 16, 41, 20, 142, 13, 131,
    11, 90, 19, 153, 218, 255, 16, 132, 4, 142, 123, 216, 219, 233, 248, 89,
];

/// The label `config` in ASCII.
pub open spec fn config_label() -> Seq<u8> {
    seq![99u8, 111, 110, 102, 105, 103]
}

/// The label `stake_main` in ASCII.
pub open spec fn stake_main_label() -> Seq<u8> {
    seq![115u8, 116, 97, 107, 101, 95, 109, 97, 105, 110]
}

/// The label `stake_reserve` in ASCII.
pub open spec fn stake_reserve_label() -> Seq<u8> {
    seq![115u8, 116, 97, 107, 101, 95, 114, 101, 115, 101, 114, 118, 101]
}

/// The label `split_account` in ASCII.
pub open spec fn split_account_label() -> Seq<u8> {
    seq![115u8, 112, 108, 105, 116, 95, 97, 99, 99, 111, 117, 110, 116]
}

/// Seeds of the config address: its label.
pub open spec fn spec_config_seeds() -> Seq<Seq<u8>> {
    seq![config_label()]
}

/// Seeds of the main stake address: its label.
pub open spec fn spec_stake_main_seeds() -> Seq<Seq<u8>> {
    seq![stake_main_label()]
}

/// Seeds of the reserve stake address: its label.
pub open spec fn spec_stake_reserve_seeds() -> Seq<Seq<u8>> {
    seq![stake_reserve_label()]
}

/// Seeds of a split stake address: the label, the withdrawer's address and
/// the nonce in eight little-endian bytes.
pub open spec fn spec_split_seeds(withdrawer: Seq<u8>, nonce: u64) -> Seq<Seq<u8>> {
    seq![split_account_label(), withdrawer, spec_u64_le_bytes(nonce)]
}

/// Seeds of an associated token address: wallet, token program and mint.
pub open spec fn spec_associated_token_seeds(
    wallet: Seq<u8>,
    token_program: Seq<u8>,
    mint: Seq<u8>,
) -> Seq<Seq<u8>> {
    seq![wallet, token_program, mint]
}

/// Seeds with the bump seed appended as a last seed of one byte: what signs
/// for the derived address.
pub open spec fn spec_signer_seeds(seeds: Seq<Seq<u8>>, bump: u8) -> Seq<Seq<u8>> {
    seeds.push(seq![bump])
}

/// Builds the seeds of the config address.
pub fn config_seeds() -> (seeds: Vec<Vec<u8>>)
    ensures
        seeds_view(&seeds) == spec_config_seeds(),
{
    let label: Vec<u8> = vec![99u8, 111, 110, 102, 105, 103];
    let seeds: Vec<Vec<u8>> = vec![label];
    assert(seeds@[0]@ =~= config_label());
    assert(seeds_view(&seeds) =~= spec_config_seeds());
    seeds
}

/// Builds the seeds of the main stake address.
pub fn stake_main_seeds() -> (seeds: Vec<Vec<u8>>)
    ensures
        seeds_view(&seeds) == spec_stake_main_seeds(),
{
    let label: Vec<u8> = vec![115u8, 116, 97, 107, 101, 95, 109, 97, 105, 110];
    let seeds: Vec<Vec<u8>> = vec![label];
    assert(seeds@[0]@ =~= stake_main_label());
    assert(seeds_view(&seeds) =~= spec_stake_main_seeds());
    seeds
}

/// Builds the seeds of the reserve stake address.
pub fn stake_reserve_seeds() -> (seeds: Vec<Vec<u8>>)
    ensures
        seeds_view(&seeds) == spec_stake_reserve_seeds(),
{
    let label: Vec<u8> = vec![115u8, 116, 97, 107, 101, 95, 114, 101, 115, 101, 114, 118, 101];
    let seeds: Vec<Vec<u8>> = vec![label];
    assert(seeds@[0]@ =~= stake_reserve_label());
    assert(seeds_view(&seeds) =~= spec_stake_reserve_seeds());
    seeds
}

/// Builds the seeds of the split stake address of `withdrawer` and `nonce`.
pub fn split_seeds(withdrawer: &Pubkey, nonce: u64) -> (seeds: Vec<Vec<u8>>)
    ensures
        seeds_view(&seeds) == spec_split_seeds(withdrawer@, nonce),
{
    let label: Vec<u8> = vec![115u8, 112, 108, 105, 116, 95, 97, 99, 99, 111, 117, 110, 116];
    let seeds: Vec<Vec<u8>> = vec![label, pubkey_bytes(withdrawer), u64_le_bytes(nonce)];
    assert(seeds@[0]@ =~= split_account_label());
    assert(seeds_view(&seeds) =~= spec_split_seeds(withdrawer@, nonce));
    seeds
}

/// Builds the seeds of the associated token address of `wallet` for `mint`
/// under `token_program`.
pub fn associated_token_seeds(wallet: &Pubkey, token_program: &Pubkey, mint: &Pubkey) -> (seeds:
    Vec<Vec<u8>>)
    ensures
        seeds_view(&seeds) == spec_associated_token_seeds(wallet@, token_program@, mint@),
{
    let seeds: Vec<Vec<u8>> = vec![
        pubkey_bytes(wallet),
        pubkey_bytes(token_program),
        pubkey_bytes(mint),
    ];
    assert(seeds_view(&seeds) =~= spec_associated_token_seeds(wallet@, token_program@, mint@));
    seeds
}

/// Appends the bump seed to `seeds`, giving the seeds that sign for the
/// derived address.
pub fn signer_seeds(seeds: Vec<Vec<u8>>, bump: u8) -> (signer: Vec<Vec<u8>>)
    ensures
        seeds_view(&signer) == spec_signer_seeds(seeds_view(&seeds), bump),
{
    let mut signer = seeds;
    let last: Vec<u8> = vec![bump];
    assert(last@ =~= seq![bump]);
    signer.push(last);
    assert(seeds_view(&signer) =~= spec_signer_seeds(seeds_view(&seeds), bump));
    signer
}

/// The config address of the pool program `program_id`.
pub open spec fn config_address(program_id: Seq<u8>) -> Option<(Seq<u8>, u8)> {
    program_address(spec_config_seeds(), program_id)
}

/// The main stake address of the pool program `program_id`.
pub open spec fn stake_main_address(program_id: Seq<u8>) -> Option<(Seq<u8>, u8)> {
    program_address(spec_stake_main_seeds(), program_id)
}

/// The reserve stake address of the pool program `program_id`.
pub open spec fn stake_reserve_address(program_id: Seq<u8>) -> Option<(Seq<u8>, u8)> {
    program_address(spec_stake_reserve_seeds(), program_id)
}

/// The split stake address of `withdrawer` and `nonce` under `program_id`.
pub open spec fn split_address(withdrawer: Seq<u8>, nonce: u64, program_id: Seq<u8>) -> Option<
    (Seq<u8>, u8),
> {
    program_address(spec_split_seeds(withdrawer, nonce), program_id)
}

/// The associated token address of `wallet` for `mint` under `token_program`.
pub open spec fn associated_token_address(
    wallet: Seq<u8>,
    token_program: Seq<u8>,
    mint: Seq<u8>,
) -> Option<(Seq<u8>, u8)> {
    program_address(
        spec_associated_token_seeds(wallet, token_program, mint),
        ASSOCIATED_TOKEN_PROGRAM_ID@,
    )
}

/// Derives the config address of the pool program.
pub fn find_config_address(program_id: &Pubkey) -> (found: Option<(Pubkey, u8)>)
    ensures
        found_view(found) == config_address(program_id@),
{
    let seeds = config_seeds();
    try_find_program_address(&seeds, program_id)
}

/// Derives the main stake address of the pool program.
pub fn find_stake_main_address(program_id: &Pubkey) -> (found: Option<(Pubkey, u8)>)
    ensures
        found_view(found) == stake_main_address(program_id@),
{
    let seeds = stake_main_seeds();
    try_find_program_address(&seeds, program_id)
}

/// Derives the reserve stake address of the pool program.
pub fn find_stake_reserve_address(program_id: &Pubkey) -> (found: Option<(Pubkey, u8)>)
    ensures
        found_view(found) == stake_reserve_address(program_id@),
{
    let seeds = stake_reserve_seeds();
    try_find_program_address(&seeds, program_id)
}

/// Derives the split stake address of `withdrawer` and `nonce`.
pub fn find_split_address(withdrawer: &Pubkey, nonce: u64, program_id: &Pubkey) -> (found: Option<
    (Pubkey, u8),
>)
    ensures
        found_view(found) == split_address(withdrawer@, nonce, program_id@),
{
    let seeds = split_seeds(withdrawer, nonce);
    try_find_program_address(&seeds, program_id)
}

/// Derives the associated token address of `wallet` for `mint` under
/// `token_program`.
pub fn find_associated_token_address(
    wallet: &Pubkey,
    token_program: &Pubkey,
    mint: &Pubkey,
) -> (found: Option<(Pubkey, u8)>)
    ensures
        found_view(found) == associated_token_address(wallet@, token_program@, mint@),
{
    let seeds = associated_token_seeds(wallet, token_program, mint);
    let program = associated_token_program_id();
    try_find_program_address(&seeds, &program)
}

/// The seeds joined into one sequence of bytes, one after another and
/// without any mark between them: what is hashed of them in a derivation.
pub open spec fn seed_bytes(seeds: Seq<Seq<u8>>) -> Seq<u8>
    decreases seeds.len(),
{
    if seeds.len() == 0 {
        Seq::empty()
    } else {
        seed_bytes(seeds.drop_last()) + seeds.last()
    }
}

/// The bytes hashed for a split address are the label, the withdrawer and
/// the nonce; those hashed for the other addresses are their labels.
pub proof fn lemma_seed_bytes(withdrawer: Seq<u8>, nonce: u64)
    ensures
        seed_bytes(spec_split_seeds(withdrawer, nonce)) == split_account_label() + withdrawer
            + spec_u64_le_bytes(nonce),
        seed_bytes(spec_config_seeds()) == config_label(),
        seed_bytes(spec_stake_main_seeds()) == stake_main_label(),
        seed_bytes(spec_stake_reserve_seeds()) == stake_reserve_label(),
{
    let split = spec_split_seeds(withdrawer, nonce);
    let two = split.drop_last();
    let one = two.drop_last();
    assert(one.drop_last().len() == 0);
    assert(seed_bytes(one) =~= split_account_label()) by {
        reveal_with_fuel(seed_bytes, 2);
    }
    assert(seed_bytes(two) =~= split_account_label() + withdrawer) by {
        reveal_with_fuel(seed_bytes, 2);
    }
    assert(seed_bytes(split) =~= split_account_label() + withdrawer
        + spec_u64_le_bytes(nonce)) by {
        reveal_with_fuel(seed_bytes, 2);
    }
    assert(seed_bytes(spec_config_seeds()) =~= config_label()) by {
        reveal_with_fuel(seed_bytes, 2);
    }
    assert(seed_bytes(spec_stake_main_seeds()) =~= stake_main_label()) by {
        reveal_with_fuel(seed_bytes, 2);
    }
    assert(seed_bytes(spec_stake_reserve_seeds()) =~= stake_reserve_label()) by {
        reveal_with_fuel(seed_bytes, 2);
    }
}

/// Distinct pairs of withdrawer and nonce are hashed as distinct bytes: two
/// split addresses come from the same bytes only where they stand for the same
/// withdrawer and the same nonce.
pub proof fn lemma_split_seeds_are_injective(
    first_withdrawer: Seq<u8>,
    first_nonce: u64,
    second_withdrawer: Seq<u8>,
    second_nonce: u64,
)
    requires
        first_withdrawer.len() == 32,
        second_withdrawer.len() == 32,
        seed_bytes(spec_split_seeds(first_withdrawer, first_nonce)) == seed_bytes(
            spec_split_seeds(second_withdrawer, second_nonce),
        ),
    ensures
        first_withdrawer == second_withdrawer,
        first_nonce == second_nonce,
{
    lemma_seed_bytes(first_withdrawer, first_nonce);
    lemma_seed_bytes(second_withdrawer, second_nonce);
    let first = seed_bytes(spec_split_seeds(first_withdrawer, first_nonce));
    let second = seed_bytes(spec_split_seeds(second_withdrawer, second_nonce));
    let first_bytes = spec_u64_le_bytes(first_nonce);
    let second_bytes = spec_u64_le_bytes(second_nonce);
    assert(first.subrange(13, 45) =~= first_withdrawer);
    assert(second.subrange(13, 45) =~= second_withdrawer);
    assert(first.subrange(45, 53) =~= first_bytes);
    assert(second.subrange(45, 53) =~= second_bytes);
    lemma_u64_le_bytes_injective(first_nonce, second_nonce);
}

/// The config, main stake, reserve stake and split addresses are hashed
/// from bytes that differ from one to the other, whatever the withdrawer and
/// the nonce.
pub proof fn lemma_roles_hash_distinct_bytes(withdrawer: Seq<u8>, nonce: u64)
    requires
        withdrawer.len() == 32,
    ensures
        seed_bytes(spec_config_seeds()) != seed_bytes(spec_stake_main_seeds()),
        seed_bytes(spec_config_seeds()) != seed_bytes(spec_stake_reserve_seeds()),
        seed_bytes(spec_stake_main_seeds()) != seed_bytes(spec_stake_reserve_seeds()),
        seed_bytes(spec_split_seeds(withdrawer, nonce)) != seed_bytes(spec_config_seeds()),
        seed_bytes(spec_split_seeds(withdrawer, nonce)) != seed_bytes(spec_stake_main_seeds()),
        seed_bytes(spec_split_seeds(withdrawer, nonce)) != seed_bytes(spec_stake_reserve_seeds()),
{
    lemma_seed_bytes(withdrawer, nonce);
    assert(config_label().len() == 6);
    assert(stake_main_label().len() == 10);
    assert(stake_reserve_label().len() == 13);
    assert(seed_bytes(spec_split_seeds(withdrawer, nonce)).len() == 53);
}

} // verus!
