//! The exchange rate between deposited lamports and claim tokens.
use vstd::prelude::*;
use crate::errors::ProgramError;

verus! {

/// Lamports that the pool manages before a deposit: main and reserve.
pub open spec fn spec_pool_lamports(main: u64, reserve: u64) -> int {
    main + reserve
}

/// Lamports that the pool manages after a split: main, reserve and the new
/// split position.
pub open spec fn spec_managed_lamports(main: u64, reserve: u64, split: u64) -> int {
    main + reserve + split
}

/// Claim tokens minted for a deposit of `amount` lamports into a pool that
/// holds `pool` lamports against a supply of `supply` tokens: one for one
/// while either is zero, else the deposit's share of the supply, rounded down.
pub open spec fn spec_lst_to_mint(amount: u64, supply: u64, pool: u64) -> int {
    if supply == 0 || pool == 0 {
        amount as int
    } else {
        (amount * supply) / (pool as int)
    }
}

/// Claim tokens burned for `amount` lamports split off a pool that manages
/// `managed` lamports against a supply of `supply` tokens, rounded down.
pub open spec fn spec_lst_to_burn(amount: u64, supply: u64, managed: u64) -> int
    recommends
        managed > 0,
{
    (amount * supply) / (managed as int)
}

/// `floor(a * b / c)` for 64-bit values, computed in 128 bits.
fn mul_div(a: u64, b: u64, c: u64) -> (r: Result<u64, ProgramError>)
    requires
        c > 0,
    ensures
        (a * b) / (c as int) <= u64::MAX ==> r == Ok::<u64, ProgramError>(
            ((a * b) / (c as int)) as u64,
        ),
        (a * b) / (c as int) > u64::MAX ==> r == Err::<u64, ProgramError>(
            ProgramError::ArithmeticOverflow,
        ),
{
    assert(a * b <= u64::MAX * u64::MAX) by (nonlinear_arith)
        requires
            0 <= a <= u64::MAX,
            0 <= b <= u64::MAX,
    ;
    assert(0 <= a * b) by (nonlinear_arith)
        requires
            0 <= a,
            0 <= b,
    ;
    let product: u128 = (a as u128) * (b as u128);
    let quotient: u128 = product / (c as u128);
    if quotient > u64::MAX as u128 {
        Err(ProgramError::ArithmeticOverflow)
    } else {
        Ok(quotient as u64)
    }
}

/// Adds the balances of the main and the reserve position.
pub fn pool_lamports(main: u64, reserve: u64) -> (r: Result<u64, ProgramError>)
    ensures
        spec_pool_lamports(main, reserve) <= u64::MAX ==> r == Ok::<u64, ProgramError>(
            spec_pool_lamports(main, reserve) as u64,
        ),
        spec_pool_lamports(main, reserve) > u64::MAX ==> r == Err::<u64, ProgramError>(
            ProgramError::ArithmeticOverflow,
        ),
{
    match main.checked_add(reserve) {
        Some(total) => Ok(total),
        None => Err(ProgramError::ArithmeticOverflow),
    }
}

/// Adds the balances of the main, the reserve and the new split position.
pub fn managed_lamports(main: u64, reserve: u64, split: u64) -> (r: Result<u64, ProgramError>)
    ensures
        spec_managed_lamports(main, reserve, split) <= u64::MAX ==> r == Ok::<u64, ProgramError>(
            spec_managed_lamports(main, reserve, split) as u64,
        ),
        spec_managed_lamports(main, reserve, split) > u64::MAX ==> r == Err::<u64, ProgramError>(
            ProgramError::ArithmeticOverflow,
        ),
{
    match main.checked_add(reserve) {
        Some(pool) => match pool.checked_add(split) {
            Some(total) => Ok(total),
            None => Err(ProgramError::ArithmeticOverflow),
        },
        None => Err(ProgramError::ArithmeticOverflow),
    }
}

/// Computes the claim tokens to mint for a deposit. Fails with
/// `ArithmeticOverflow` exactly where the amount does not fit in 64 bits.
pub fn lst_to_mint(amount: u64, supply: u64, pool: u64) -> (r: Result<u64, ProgramError>)
    ensures
        spec_lst_to_mint(amount, supply, pool) <= u64::MAX ==> r == Ok::<u64, ProgramError>(
            spec_lst_to_mint(amount, supply, pool) as u64,
        ),
        spec_lst_to_mint(amount, supply, pool) > u64::MAX ==> r == Err::<u64, ProgramError>(
            ProgramError::ArithmeticOverflow,
        ),
{
    if supply == 0 || pool == 0 {
        Ok(amount)
    } else {
        mul_div(amount, supply, pool)
    }
}

/// Computes the claim tokens to burn for a split. Fails with
/// `ArithmeticOverflow` exactly where the pool manages nothing or the amount
/// does not fit in 64 bits.
pub fn lst_to_burn(amount: u64, supply: u64, managed: u64) -> (r: Result<u64, ProgramError>)
    ensures
        managed > 0 && spec_lst_to_burn(amount, supply, managed) <= u64::MAX ==> r == Ok::<
            u64,
            ProgramError,
        >(spec_lst_to_burn(amount, supply, managed) as u64),
        managed == 0 || spec_lst_to_burn(amount, supply, managed) > u64::MAX ==> r == Err::<
            u64,
            ProgramError,
        >(ProgramError::ArithmeticOverflow),
{
    if managed == 0 {
        Err(ProgramError::ArithmeticOverflow)
    } else {
        mul_div(amount, supply, managed)
    }
}

/// The minted amount is the deposit itself while the supply or the pool is
/// zero, and else the rounded-down share; it is never negative.
pub proof fn lemma_mint_formula(amount: u64, supply: u64, pool: u64)
    ensures
        supply > 0 && pool > 0 ==> spec_lst_to_mint(amount, supply, pool) == (amount * supply) / (
        pool as int),
        supply == 0 || pool == 0 ==> spec_lst_to_mint(amount, supply, pool) == amount,
        spec_lst_to_mint(amount, supply, pool) >= 0,
{
    if supply > 0 && pool > 0 {
        lemma_floor(amount * supply, pool as int);
        assert(0 <= amount * supply) by (nonlinear_arith)
            requires
                0 <= amount,
                0 <= supply,
        ;
    }
}

/// `q = n / d` is the greatest integer with `q * d <= n`.
pub proof fn lemma_floor(n: int, d: int)
    requires
        0 <= n,
        0 < d,
    ensures
        0 <= n / d,
        (n / d) * d <= n < (n / d + 1) * d,
{
    vstd::arithmetic::div_mod::lemma_fundamental_div_mod(n, d);
    vstd::arithmetic::div_mod::lemma_mod_bound(n, d);
    vstd::arithmetic::div_mod::lemma_div_pos_is_pos(n, d);
    assert((n / d) * d == d * (n / d)) by (nonlinear_arith);
    assert((n / d + 1) * d == d * (n / d) + d) by (nonlinear_arith);
}

/// Minting rounds down: the minted tokens are worth no more than the
/// deposit at the rate before it, and one token more would be worth more.
pub proof fn lemma_mint_rounds_down(amount: u64, supply: u64, pool: u64)
    requires
        supply > 0,
        pool > 0,
    ensures
        spec_lst_to_mint(amount, supply, pool) * pool <= amount * supply,
        amount * supply < (spec_lst_to_mint(amount, supply, pool) + 1) * pool,
{
    assert(0 <= amount * supply) by (nonlinear_arith)
        requires
            0 <= amount,
            0 <= supply,
    ;
    lemma_floor(amount * supply, pool as int);
}

/// While the supply is no greater than the lamports in the pool, a deposit
/// mints no more tokens than it holds lamports, so that the amount fits in 64
/// bits and minting succeeds.
pub proof fn lemma_mint_within_deposit(amount: u64, supply: u64, pool: u64)
    requires
        supply <= pool,
    ensures
        0 <= spec_lst_to_mint(amount, supply, pool) <= amount,
{
    if supply > 0 && pool > 0 {
        lemma_mint_rounds_down(amount, supply, pool);
        let minted = spec_lst_to_mint(amount, supply, pool);
        lemma_floor(amount * supply, pool as int);
        assert(minted <= amount) by (nonlinear_arith)
            requires
                minted * pool <= amount * supply,
                0 < supply <= pool,
                0 <= amount,
                0 <= minted,
        ;
    }
}

/// A deposit does not lower the lamports that stand behind each token: the
/// pool after it, set against the supply after it, is worth no less than
/// before.
pub proof fn lemma_deposit_keeps_rate(amount: u64, supply: u64, pool: u64)
    requires
        supply > 0,
        pool > 0,
    ensures
        (pool + amount) * supply >= pool * (supply + spec_lst_to_mint(amount, supply, pool)),
{
    lemma_mint_rounds_down(amount, supply, pool);
    let minted = spec_lst_to_mint(amount, supply, pool);
    assert((pool + amount) * supply >= pool * (supply + minted)) by (nonlinear_arith)
        requires
            minted * pool <= amount * supply,
    ;
}

/// Burning rounds down: the burned tokens are worth no more than the
/// lamports split off at the rate after the split, and one token more would
/// be worth more.
pub proof fn lemma_burn_rounds_down(amount: u64, supply: u64, managed: u64)
    requires
        managed > 0,
    ensures
        0 <= spec_lst_to_burn(amount, supply, managed),
        spec_lst_to_burn(amount, supply, managed) * managed <= amount * supply,
        amount * supply < (spec_lst_to_burn(amount, supply, managed) + 1) * managed,
{
    assert(0 <= amount * supply) by (nonlinear_arith)
        requires
            0 <= amount,
            0 <= supply,
    ;
    lemma_floor(amount * supply, managed as int);
}

/// While the supply is no greater than the lamports that the pool manages,
/// a split burns no more tokens than it takes lamports, so that the amount
/// fits in 64 bits.
pub proof fn lemma_burn_within_split(amount: u64, supply: u64, managed: u64)
    requires
        managed > 0,
        supply <= managed,
    ensures
        0 <= spec_lst_to_burn(amount, supply, managed) <= amount,
{
    lemma_burn_rounds_down(amount, supply, managed);
    let burned = spec_lst_to_burn(amount, supply, managed);
    if supply > 0 {
        assert(burned <= amount) by (nonlinear_arith)
            requires
                burned * managed <= amount * supply,
                0 < supply <= managed,
                0 <= amount,
                0 <= burned,
        ;
    } else {
        assert(amount * supply == 0) by (nonlinear_arith)
            requires
                supply == 0,
        ;
        assert(burned <= 0) by (nonlinear_arith)
            requires
                burned * managed <= 0,
                managed > 0,
        ;
    }
}

} // verus!
