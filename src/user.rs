use vstd::prelude::*;

use crate::error::CustomError;
use crate::key::{derive_address, program_address, program_id_bytes, AccountKey};

verus! {

/// The rating a new player starts with.
pub const STARTING_ELO: u32 = 800;

/// A player's record: the game it is in, its rating, how many games it has
/// created, and the balance it holds with the program.
#[derive(Copy, Clone, Debug)]
pub struct User {
    pub current_game: Option<AccountKey>,
    pub elo: u32,
    pub games: u64,
    pub balance: u64,
}

impl User {
    /// The user account's address and bump seed for the wallet `owner`.
    pub fn pda(owner: AccountKey) -> (r: Option<(AccountKey, u8)>)
        ensures
            match r {
                Some(found) => program_address(
                    seq![seq![117u8, 115, 101, 114], owner@],
                    program_id_bytes(),
                ) == Some((found.0@, found.1)),
                None => program_address(
                    seq![seq![117u8, 115, 101, 114], owner@],
                    program_id_bytes(),
                ) is None,
            },
    {
        // b"user"
        let seed: Vec<u8> = vec![117u8, 115, 101, 114];
        let ghost seed_view = seed@;
        assert(seed_view =~= seq![117u8, 115, 101, 114]);
        let owner_bytes = owner.to_vec();
        let seeds: Vec<Vec<u8>> = vec![seed, owner_bytes];
        assert(seeds.deep_view()[0] =~= seq![117u8, 115, 101, 114]);
        assert(seeds.deep_view()[1] =~= owner@);
        assert(seeds.deep_view() =~= seq![seq![117u8, 115, 101, 114], owner@]);
        derive_address(seeds)
    }

    pub fn set_game(&mut self, game: AccountKey)
        ensures
            *final(self) == (User { current_game: Some(game), ..*old(self) }),
    {
        self.current_game = Some(game);
    }

    pub fn increment_games(&mut self)
        requires
            old(self).games < u64::MAX,
        ensures
            *final(self) == (User { games: (old(self).games + 1) as u64, ..*old(self) }),
    {
        self.games = self.games + 1;
    }

    pub fn in_game(&self) -> (r: bool)
        ensures
            r == self.current_game is Some,
    {
        self.current_game.is_some()
    }

    pub fn not_in_game(&self) -> (r: bool)
        ensures
            r == self.current_game is None,
    {
        self.current_game.is_none()
    }

    pub fn increase_balance(&mut self, amount: u64)
        requires
            old(self).balance + amount <= u64::MAX,
        ensures
            *final(self) == (User { balance: (old(self).balance + amount) as u64, ..*old(self) }),
    {
        self.balance = self.balance + amount;
    }

    pub fn decrease_balance(&mut self, amount: u64)
        requires
            amount <= old(self).balance,
        ensures
            *final(self) == (User { balance: (old(self).balance - amount) as u64, ..*old(self) }),
    {
        self.balance = self.balance - amount;
    }

    pub fn has_sufficient(&self, amount: u64) -> (r: bool)
        ensures
            r == (amount <= self.balance),
    {
        amount <= self.balance
    }

    pub fn get_elo(&self) -> (r: u32)
        ensures
            r == self.elo,
    {
        self.elo
    }
}

/// Setting up a freshly created user account.
pub trait UserAccount {
    /// The account holds a new player's record.
    spec fn is_fresh(&self) -> bool;

    fn new(&mut self) -> (r: Result<(), CustomError>)
        ensures
            r is Ok,
            final(self).is_fresh(),
    ;
}

impl UserAccount for User {
    open spec fn is_fresh(&self) -> bool {
        *self == User { current_game: None, elo: STARTING_ELO, games: 0, balance: 0 }
    }

    /// No game, the starting rating, no games created, no balance.
    fn new(&mut self) -> (r: Result<(), CustomError>) {
        self.current_game = None;
        self.elo = STARTING_ELO;
        self.games = 0;
        self.balance = 0;
        Ok(())
    }
}

} // verus!
