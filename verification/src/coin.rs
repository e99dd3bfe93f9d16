//! Native assets: a denomination and an amount.

use vstd::prelude::*;

verus! {

/// The mathematical reading of a [`Coin`].
pub struct CoinView {
    pub denom: Seq<char>,
    pub amount: nat,
}

/// An amount of one native asset.
#[derive(Debug, PartialEq, Eq)]
pub struct Coin {
    pub denom: String,
    pub amount: u128,
}

impl View for Coin {
    type V = CoinView;

    open spec fn view(&self) -> CoinView {
        CoinView { denom: self.denom@, amount: self.amount as nat }
    }
}

impl Clone for Coin {
    fn clone(&self) -> (res: Self)
        ensures
            res == *self,
    {
        Coin { denom: self.denom.clone(), amount: self.amount }
    }
}

impl Coin {
    /// A coin of `amount` units of `denom`.
    pub fn new(amount: u128, denom: &str) -> (res: Coin)
        ensures
            res@ == (CoinView { denom: denom@, amount: amount as nat }),
    {
        Coin { denom: denom.to_owned(), amount }
    }

    /// Whether two coins agree in denomination and in amount.
    pub fn same_as(&self, other: &Coin) -> (res: bool)
        ensures
            res == (self@ == other@),
    {
        self.amount == other.amount && self.denom == other.denom
    }
}

/// A shorthand constructor for [`Coin`].
pub fn coin(amount: u128, denom: &str) -> (res: Coin)
    ensures
        res@ == (CoinView { denom: denom@, amount: amount as nat }),
{
    Coin::new(amount, denom)
}

/// The views of a list of coins, in order.
pub open spec fn coins_view(coins: Seq<Coin>) -> Seq<CoinView> {
    coins.map_values(|c: Coin| c@)
}

/// What a list of balances holds of `denom`: the amount of the first entry in
/// that denomination, and nothing where there is none.
pub open spec fn balance_in(coins: Seq<CoinView>, denom: Seq<char>) -> nat
    decreases coins.len(),
{
    if coins.len() == 0 {
        0
    } else if coins[0].denom == denom {
        coins[0].amount
    } else {
        balance_in(coins.skip(1), denom)
    }
}

/// Looks `denom` up in a list of balances.
pub fn balance_of(coins: &Vec<Coin>, denom: &String) -> (res: u128)
    ensures
        res as nat == balance_in(coins_view(coins@), denom@),
{
    let mut i: usize = 0;
    assert(coins_view(coins@).skip(0) =~= coins_view(coins@));
    while i < coins.len()
        invariant
            i <= coins.len(),
            balance_in(coins_view(coins@), denom@) == balance_in(
                coins_view(coins@).skip(i as int),
                denom@,
            ),
        decreases coins.len() - i,
    {
        let ghost rest = coins_view(coins@).skip(i as int);
        assert(rest[0] == coins@[i as int]@);
        assert(rest.skip(1) =~= coins_view(coins@).skip(i as int + 1));
        if coins[i].denom == *denom {
            return coins[i].amount;
        }
        i = i + 1;
    }
    0
}

} // verus!
