//! The governance token: balances, allowances, minting and burning by the
//! admin, and the total supply.
//!
//! Every operation either succeeds and changes the state as its transition
//! states, or fails with an error and changes nothing (a failed contract call
//! leaves no trace in storage).
use vstd::prelude::*;

use crate::address::{is_zero_address, spec_is_zero_address};
use crate::gov_types::Version;

verus! {

/// All revert conditions for the token contract.
#[derive(Clone, Copy, Debug, PartialEq, Eq, Structural)]
pub enum ContractError {
    /// Admin address is not set
    AdminNotSet,
    /// Caller is not the admin
    NotAdmin,
    /// Transfer/mint amount must be positive
    InvalidAmount,
    /// Sender has insufficient balance
    InsufficientBalance,
    /// Spender allowance is insufficient
    AllowanceExceeded,
    /// New admin address is invalid (zero address)
    InvalidNewAdmin,
    /// Address parameter is the zero/default address
    InvalidAddress,
}

/// An event published by the token contract (first topic `tok`).
#[derive(Clone, Debug)]
pub enum TokenEvent {
    /// `("tok", "mint", to)`
    Minted { to: String, amount: i128 },
    /// `("tok", "transfer", from)`
    Transferred { from: String, to: String, amount: i128 },
    /// `("tok", "burn", from)`
    Burned { from: String, amount: i128 },
    /// `("tok", "admxfer")`
    AdminTransferred { old_admin: String, new_admin: String },
}

/// The balance held by one address.
#[derive(Clone, Debug)]
pub struct Holding {
    pub owner: String,
    pub amount: i128,
}

/// The amount `spender` may move out of `owner`'s balance.
#[derive(Clone, Debug)]
pub struct Allowance {
    pub owner: String,
    pub spender: String,
    pub amount: i128,
}

/// What the token contract holds.
pub struct TokenView {
    /// The address the contract is deployed at.
    pub address: String,
    pub admin: Option<String>,
    pub balances: Seq<Holding>,
    pub allowances: Seq<Allowance>,
    pub total_supply: i128,
    pub version: Version,
    pub events: Seq<TokenEvent>,
}

/// The token contract's storage.
#[derive(Debug)]
pub struct TokenContract {
    address: String,
    admin: Option<String>,
    balances: Vec<Holding>,
    allowances: Vec<Allowance>,
    total_supply: i128,
    version: Version,
    events: Vec<TokenEvent>,
}

impl View for TokenContract {
    type V = TokenView;

    closed spec fn view(&self) -> TokenView {
        TokenView {
            address: self.address,
            admin: self.admin,
            balances: self.balances@,
            allowances: self.allowances@,
            total_supply: self.total_supply,
            version: self.version,
            events: self.events@,
        }
    }
}

// ---------------------------------------------------------------------------
// The model
// ---------------------------------------------------------------------------

/// Some holding of `s` belongs to `owner`.
pub open spec fn holds(s: Seq<Holding>, owner: Seq<char>) -> bool {
    exists|i: int| 0 <= i < s.len() && s[i].owner@ == owner
}

/// The index of `owner`'s holding in `s`.
pub open spec fn holding_index(s: Seq<Holding>, owner: Seq<char>) -> int {
    choose|i: int| 0 <= i < s.len() && s[i].owner@ == owner
}

/// The balance of `owner`: 0 for an address that never held tokens.
pub open spec fn balance_in(s: Seq<Holding>, owner: Seq<char>) -> i128 {
    if holds(s, owner) {
        s[holding_index(s, owner)].amount
    } else {
        0
    }
}

/// `s` with the balance of `owner` set to `amount`.
pub open spec fn with_balance(s: Seq<Holding>, owner: String, amount: i128) -> Seq<Holding> {
    if holds(s, owner@) {
        let i = holding_index(s, owner@);
        s.update(i, Holding { amount, ..s[i] })
    } else {
        s.push(Holding { owner, amount })
    }
}

/// Some allowance of `s` is from `owner` to `spender`.
pub open spec fn approves(s: Seq<Allowance>, owner: Seq<char>, spender: Seq<char>) -> bool {
    exists|i: int| 0 <= i < s.len() && s[i].owner@ == owner && s[i].spender@ == spender
}

/// The index of the allowance from `owner` to `spender` in `s`.
pub open spec fn allowance_index(s: Seq<Allowance>, owner: Seq<char>, spender: Seq<char>) -> int {
    choose|i: int| 0 <= i < s.len() && s[i].owner@ == owner && s[i].spender@ == spender
}

/// The allowance from `owner` to `spender`: 0 when none was granted.
pub open spec fn allowance_in(s: Seq<Allowance>, owner: Seq<char>, spender: Seq<char>) -> i128 {
    if approves(s, owner, spender) {
        s[allowance_index(s, owner, spender)].amount
    } else {
        0
    }
}

/// `s` with the allowance from `owner` to `spender` set to `amount`.
pub open spec fn with_allowance(
    s: Seq<Allowance>,
    owner: String,
    spender: String,
    amount: i128,
) -> Seq<Allowance> {
    if approves(s, owner@, spender@) {
        let i = allowance_index(s, owner@, spender@);
        s.update(i, Allowance { amount, ..s[i] })
    } else {
        s.push(Allowance { owner, spender, amount })
    }
}

/// The sum of all balances.
pub open spec fn sum_balances(s: Seq<Holding>) -> int
    decreases s.len(),
{
    if s.len() == 0 {
        0
    } else {
        sum_balances(s.drop_last()) + s.last().amount
    }
}

/// `x` fits in an `i128`.
pub open spec fn fits_i128(x: int) -> bool {
    i128::MIN <= x <= i128::MAX
}

impl TokenView {
    /// Each address has at most one holding and each pair at most one allowance.
    pub open spec fn wf(self) -> bool {
        &&& forall|i: int, j: int|
            0 <= i < j < self.balances.len() ==> self.balances[i].owner@
                != self.balances[j].owner@
        &&& forall|i: int, j: int|
            0 <= i < j < self.allowances.len() ==> !(self.allowances[i].owner@
                == self.allowances[j].owner@ && self.allowances[i].spender@
                == self.allowances[j].spender@)
    }

    /// The total supply is the sum of all balances.
    pub open spec fn supply_matches(self) -> bool {
        sum_balances(self.balances) == self.total_supply
    }

    /// The balance of `owner`.
    pub open spec fn balance(self, owner: Seq<char>) -> i128 {
        balance_in(self.balances, owner)
    }

    /// The allowance from `owner` to `spender`.
    pub open spec fn allowance(self, owner: Seq<char>, spender: Seq<char>) -> i128 {
        allowance_in(self.allowances, owner, spender)
    }
}

/// The outcome of `initialize`.
pub open spec fn initialize_spec(v: TokenView, admin: String, initial_supply: i128) -> Result<
    TokenView,
    ContractError,
> {
    if spec_is_zero_address(admin@) {
        Err(ContractError::InvalidAddress)
    } else {
        Ok(
            TokenView {
                admin: Some(admin),
                balances: with_balance(v.balances, admin, initial_supply),
                total_supply: initial_supply,
                version: Version { major: 1, minor: 0, patch: 0 },
                ..v
            },
        )
    }
}

/// The outcome of `transfer`; `None` where the contract traps on an arithmetic overflow.
pub open spec fn transfer_spec(v: TokenView, from: String, to: String, amount: i128) -> Option<
    Result<TokenView, ContractError>,
> {
    if spec_is_zero_address(from@) || spec_is_zero_address(to@) {
        Some(Err(ContractError::InvalidAddress))
    } else if amount <= 0 {
        Some(Err(ContractError::InvalidAmount))
    } else if from@ == to@ {
        Some(Ok(v))
    } else if v.balance(from@) < amount {
        Some(Err(ContractError::InsufficientBalance))
    } else if !fits_i128(v.balance(to@) + amount) {
        None
    } else {
        let b1 = with_balance(v.balances, from, (v.balance(from@) - amount) as i128);
        let b2 = with_balance(b1, to, (balance_in(b1, to@) + amount) as i128);
        Some(
            Ok(
                TokenView {
                    balances: b2,
                    events: v.events.push(TokenEvent::Transferred { from, to, amount }),
                    ..v
                },
            ),
        )
    }
}

/// The outcome of `approve`.
pub open spec fn approve_spec(v: TokenView, owner: String, spender: String, amount: i128) -> Result<
    TokenView,
    ContractError,
> {
    if spec_is_zero_address(owner@) || spec_is_zero_address(spender@) {
        Err(ContractError::InvalidAddress)
    } else {
        Ok(TokenView { allowances: with_allowance(v.allowances, owner, spender, amount), ..v })
    }
}

/// The outcome of `transfer_from`; `None` where the contract traps on an arithmetic overflow.
pub open spec fn transfer_from_spec(
    v: TokenView,
    spender: String,
    from: String,
    to: String,
    amount: i128,
) -> Option<Result<TokenView, ContractError>> {
    let allowed = v.allowance(from@, spender@);
    let b = v.balance(from@);
    if spec_is_zero_address(spender@) || spec_is_zero_address(from@) || spec_is_zero_address(
        to@,
    ) {
        Some(Err(ContractError::InvalidAddress))
    } else if allowed < amount {
        Some(Err(ContractError::AllowanceExceeded))
    } else if b < amount {
        Some(Err(ContractError::InsufficientBalance))
    } else if !fits_i128(allowed - amount) || !fits_i128(b - amount) {
        None
    } else {
        let b1 = with_balance(v.balances, from, (b - amount) as i128);
        if !fits_i128(balance_in(b1, to@) + amount) {
            None
        } else {
            let b2 = with_balance(b1, to, (balance_in(b1, to@) + amount) as i128);
            Some(
                Ok(
                    TokenView {
                        allowances: with_allowance(
                            v.allowances,
                            from,
                            spender,
                            (allowed - amount) as i128,
                        ),
                        balances: b2,
                        events: v.events.push(TokenEvent::Transferred { from, to, amount }),
                        ..v
                    },
                ),
            )
        }
    }
}

/// The outcome of `mint`; `None` where the contract traps on an arithmetic overflow.
pub open spec fn mint_spec(v: TokenView, admin: String, to: String, amount: i128) -> Option<
    Result<TokenView, ContractError>,
> {
    if spec_is_zero_address(admin@) || spec_is_zero_address(to@) {
        Some(Err(ContractError::InvalidAddress))
    } else if v.admin is None {
        Some(Err(ContractError::AdminNotSet))
    } else if v.admin.unwrap()@ != admin@ {
        Some(Err(ContractError::NotAdmin))
    } else if amount <= 0 {
        Some(Err(ContractError::InvalidAmount))
    } else if !fits_i128(v.balance(to@) + amount) || !fits_i128(v.total_supply + amount) {
        None
    } else {
        Some(
            Ok(
                TokenView {
                    balances: with_balance(v.balances, to, (v.balance(to@) + amount) as i128),
                    total_supply: (v.total_supply + amount) as i128,
                    events: v.events.push(TokenEvent::Minted { to, amount }),
                    ..v
                },
            ),
        )
    }
}

/// The outcome of `burn`; `None` where the contract traps on an arithmetic overflow.
pub open spec fn burn_spec(v: TokenView, admin: String, from: String, amount: i128) -> Option<
    Result<TokenView, ContractError>,
> {
    let b = v.balance(from@);
    if spec_is_zero_address(admin@) || spec_is_zero_address(from@) {
        Some(Err(ContractError::InvalidAddress))
    } else if v.admin is None {
        Some(Err(ContractError::AdminNotSet))
    } else if v.admin.unwrap()@ != admin@ {
        Some(Err(ContractError::NotAdmin))
    } else if amount <= 0 {
        Some(Err(ContractError::InvalidAmount))
    } else if b < amount {
        Some(Err(ContractError::InsufficientBalance))
    } else if !fits_i128(b - amount) || !fits_i128(v.total_supply - amount) {
        None
    } else {
        Some(
            Ok(
                TokenView {
                    balances: with_balance(v.balances, from, (b - amount) as i128),
                    total_supply: (v.total_supply - amount) as i128,
                    events: v.events.push(TokenEvent::Burned { from, amount }),
                    ..v
                },
            ),
        )
    }
}

/// The outcome of `transfer_admin`.
pub open spec fn transfer_admin_spec(v: TokenView, admin: String, new_admin: String) -> Result<
    TokenView,
    ContractError,
> {
    if spec_is_zero_address(admin@) || spec_is_zero_address(new_admin@) {
        Err(ContractError::InvalidAddress)
    } else if v.admin is None {
        Err(ContractError::AdminNotSet)
    } else if v.admin.unwrap()@ != admin@ {
        Err(ContractError::NotAdmin)
    } else {
        Ok(
            TokenView {
                admin: Some(new_admin),
                events: v.events.push(
                    TokenEvent::AdminTransferred { old_admin: admin, new_admin },
                ),
                ..v
            },
        )
    }
}

/// A call that returned `r` left the contract in `post` exactly as `outcome` says.
pub open spec fn follows(
    outcome: Result<TokenView, ContractError>,
    pre: TokenView,
    post: TokenView,
    r: Result<(), ContractError>,
) -> bool {
    match outcome {
        Ok(v) => r is Ok && post == v,
        Err(e) => r == Err::<(), ContractError>(e) && post == pre,
    }
}

// ---------------------------------------------------------------------------
// Lemmas
// ---------------------------------------------------------------------------

/// The holding found for `owner` is the one at `k`.
proof fn lemma_holding_at(s: Seq<Holding>, k: int)
    requires
        0 <= k < s.len(),
        forall|i: int, j: int| 0 <= i < j < s.len() ==> s[i].owner@ != s[j].owner@,
    ensures
        holds(s, s[k].owner@),
        holding_index(s, s[k].owner@) == k,
{
    assert(holds(s, s[k].owner@));
    let c = holding_index(s, s[k].owner@);
    if c != k {
        if c < k {
        } else {
        }
    }
}

/// The sum of balances after changing one entry or adding one.
proof fn lemma_sum_update(s: Seq<Holding>, i: int, h: Holding)
    requires
        0 <= i < s.len(),
    ensures
        sum_balances(s.update(i, h)) == sum_balances(s) - s[i].amount + h.amount,
    decreases s.len(),
{
    if i == s.len() - 1 {
        assert(s.update(i, h).drop_last() =~= s.drop_last());
    } else {
        lemma_sum_update(s.drop_last(), i, h);
        assert(s.update(i, h).drop_last() =~= s.drop_last().update(i, h));
    }
}

/// Setting one balance keeps each address unique and moves the sum by the change.
proof fn lemma_with_balance(s: Seq<Holding>, owner: String, amount: i128)
    requires
        forall|i: int, j: int| 0 <= i < j < s.len() ==> s[i].owner@ != s[j].owner@,
    ensures
        ({
            let t = with_balance(s, owner, amount);
            &&& forall|i: int, j: int| 0 <= i < j < t.len() ==> t[i].owner@ != t[j].owner@
            &&& sum_balances(t) == sum_balances(s) - balance_in(s, owner@) + amount
            &&& balance_in(t, owner@) == amount
            &&& forall|o: Seq<char>| o != owner@ ==> balance_in(t, o) == balance_in(s, o)
        }),
{
    let t = with_balance(s, owner, amount);
    if holds(s, owner@) {
        let k = holding_index(s, owner@);
        lemma_holding_at(s, k);
        lemma_sum_update(s, k, Holding { amount, ..s[k] });
        lemma_holding_at(t, k);
        assert forall|o: Seq<char>| o != owner@ implies balance_in(t, o) == balance_in(s, o) by {
            if holds(s, o) {
                let c = holding_index(s, o);
                lemma_holding_at(s, c);
                lemma_holding_at(t, c);
            }
            if holds(t, o) {
                let c = holding_index(t, o);
                assert(s[c].owner@ == o);
            }
        }
    } else {
        assert(t.drop_last() =~= s);
        lemma_holding_at(t, s.len() as int);
        assert forall|o: Seq<char>| o != owner@ implies balance_in(t, o) == balance_in(s, o) by {
            if holds(s, o) {
                let c = holding_index(s, o);
                lemma_holding_at(s, c);
                lemma_holding_at(t, c);
            }
            if holds(t, o) {
                let c = holding_index(t, o);
                assert(s[c].owner@ == o);
            }
        }
    }
}

/// The allowance found for a pair is the one at `k`.
proof fn lemma_allowance_at(s: Seq<Allowance>, k: int)
    requires
        0 <= k < s.len(),
        forall|i: int, j: int|
            0 <= i < j < s.len() ==> !(s[i].owner@ == s[j].owner@ && s[i].spender@
                == s[j].spender@),
    ensures
        approves(s, s[k].owner@, s[k].spender@),
        allowance_index(s, s[k].owner@, s[k].spender@) == k,
{
    assert(approves(s, s[k].owner@, s[k].spender@));
    let c = allowance_index(s, s[k].owner@, s[k].spender@);
    if c != k {
        if c < k {
        } else {
        }
    }
}

/// Setting one allowance keeps each pair unique.
proof fn lemma_with_allowance(s: Seq<Allowance>, owner: String, spender: String, amount: i128)
    requires
        forall|i: int, j: int|
            0 <= i < j < s.len() ==> !(s[i].owner@ == s[j].owner@ && s[i].spender@
                == s[j].spender@),
    ensures
        ({
            let t = with_allowance(s, owner, spender, amount);
            &&& forall|i: int, j: int|
                0 <= i < j < t.len() ==> !(t[i].owner@ == t[j].owner@ && t[i].spender@
                    == t[j].spender@)
            &&& allowance_in(t, owner@, spender@) == amount
        }),
{
    let t = with_allowance(s, owner, spender, amount);
    if approves(s, owner@, spender@) {
        let k = allowance_index(s, owner@, spender@);
        lemma_allowance_at(t, k);
    } else {
        lemma_allowance_at(t, s.len() as int);
    }
}

// ---------------------------------------------------------------------------
// The contract
// ---------------------------------------------------------------------------

impl TokenContract {
    /// A token contract freshly deployed at `address`, uninitialised.
    pub fn new(address: String) -> (r: Self)
        ensures
            r@.wf(),
            r@.address == address,
            r@.admin is None,
            r@.balances.len() == 0,
            r@.allowances.len() == 0,
            r@.total_supply == 0,
            r@.version == (Version { major: 0, minor: 0, patch: 0 }),
            r@.events.len() == 0,
    {
        TokenContract {
            address,
            admin: None,
            balances: Vec::new(),
            allowances: Vec::new(),
            total_supply: 0,
            version: Version { major: 0, minor: 0, patch: 0 },
            events: Vec::new(),
        }
    }

    /// The index of `owner`'s holding, if any.
    fn find_holding(&self, owner: &String) -> (r: Option<usize>)
        requires
            self@.wf(),
        ensures
            match r {
                Some(k) => k < self@.balances.len() && holds(self@.balances, owner@)
                    && holding_index(self@.balances, owner@) == k,
                None => !holds(self@.balances, owner@),
            },
    {
        let mut i: usize = 0;
        while i < self.balances.len()
            invariant
                self@.wf(),
                i <= self@.balances.len(),
                forall|j: int| 0 <= j < i ==> self@.balances[j].owner@ != owner@,
            decreases self@.balances.len() - i,
        {
            if self.balances[i].owner == *owner {
                proof {
                    lemma_holding_at(self@.balances, i as int);
                }
                return Some(i);
            }
            i = i + 1;
        }
        None
    }

    /// The index of the allowance from `owner` to `spender`, if any.
    fn find_allowance(&self, owner: &String, spender: &String) -> (r: Option<usize>)
        requires
            self@.wf(),
        ensures
            match r {
                Some(k) => k < self@.allowances.len() && approves(
                    self@.allowances,
                    owner@,
                    spender@,
                ) && allowance_index(self@.allowances, owner@, spender@) == k,
                None => !approves(self@.allowances, owner@, spender@),
            },
    {
        let mut i: usize = 0;
        while i < self.allowances.len()
            invariant
                self@.wf(),
                i <= self@.allowances.len(),
                forall|j: int|
                    0 <= j < i ==> !(self@.allowances[j].owner@ == owner@
                        && self@.allowances[j].spender@ == spender@),
            decreases self@.allowances.len() - i,
        {
            if self.allowances[i].owner == *owner && self.allowances[i].spender == *spender {
                proof {
                    lemma_allowance_at(self@.allowances, i as int);
                }
                return Some(i);
            }
            i = i + 1;
        }
        None
    }

    /// The balance of `owner` (0 for an address that never held tokens).
    fn balance_of_addr(&self, owner: &String) -> (r: i128)
        requires
            self@.wf(),
        ensures
            r == self@.balance(owner@),
    {
        match self.find_holding(owner) {
            Some(k) => self.balances[k].amount,
            None => 0,
        }
    }

    /// Sets the balance of `owner`.
    fn set_balance(&mut self, owner: &String, amount: i128)
        requires
            old(self)@.wf(),
        ensures
            final(self)@ == (TokenView {
                balances: with_balance(old(self)@.balances, *owner, amount),
                ..old(self)@
            }),
            final(self)@.wf(),
    {
        proof {
            lemma_with_balance(self@.balances, *owner, amount);
        }
        match self.find_holding(owner) {
            Some(k) => {
                let owner_k = self.balances[k].owner.clone();
                self.balances.set(k, Holding { owner: owner_k, amount });
                assert(self@.balances =~= with_balance(old(self)@.balances, *owner, amount));
            },
            None => {
                self.balances.push(Holding { owner: owner.clone(), amount });
                assert(self@.balances =~= with_balance(old(self)@.balances, *owner, amount));
            },
        }
    }

    /// Sets the allowance from `owner` to `spender`.
    fn set_allowance(&mut self, owner: &String, spender: &String, amount: i128)
        requires
            old(self)@.wf(),
        ensures
            final(self)@ == (TokenView {
                allowances: with_allowance(old(self)@.allowances, *owner, *spender, amount),
                ..old(self)@
            }),
            final(self)@.wf(),
    {
        proof {
            lemma_with_allowance(self@.allowances, *owner, *spender, amount);
        }
        match self.find_allowance(owner, spender) {
            Some(k) => {
                let owner_k = self.allowances[k].owner.clone();
                let spender_k = self.allowances[k].spender.clone();
                self.allowances.set(k, Allowance { owner: owner_k, spender: spender_k, amount });
                assert(self@.allowances =~= with_allowance(
                    old(self)@.allowances,
                    *owner,
                    *spender,
                    amount,
                ));
            },
            None => {
                self.allowances.push(
                    Allowance { owner: owner.clone(), spender: spender.clone(), amount },
                );
                assert(self@.allowances =~= with_allowance(
                    old(self)@.allowances,
                    *owner,
                    *spender,
                    amount,
                ));
            },
        }
    }

    /// Initialises the token contract, giving `initial_supply` to `admin`,
    /// who becomes the admin, and setting the version to 1.0.0.
    pub fn initialize(&mut self, admin: String, initial_supply: i128) -> (r: Result<
        (),
        ContractError,
    >)
        requires
            old(self)@.wf(),
        ensures
            final(self)@.wf(),
            follows(
                initialize_spec(old(self)@, admin, initial_supply),
                old(self)@,
                final(self)@,
                r,
            ),
            old(self)@.balances.len() == 0 && r is Ok ==> final(self)@.supply_matches(),
    {
        if is_zero_address(&admin) {
            return Err(ContractError::InvalidAddress);
        }
        proof {
            lemma_with_balance(self@.balances, admin, initial_supply);
            if self@.balances.len() == 0 {
                assert(sum_balances(self@.balances) == 0);
            }
        }
        self.set_balance(&admin, initial_supply);
        self.admin = Some(admin);
        self.total_supply = initial_supply;
        self.version = Version::new(1, 0, 0);
        Ok(())
    }

    /// The address the contract is deployed at.
    pub fn address(&self) -> (r: &String)
        ensures
            *r == self@.address,
    {
        &self.address
    }

    /// The total token supply in circulation.
    pub fn total_supply(&self) -> (r: i128)
        ensures
            r == self@.total_supply,
    {
        self.total_supply
    }

    /// The token balance of `owner`; 0 if the address never held tokens.
    pub fn balance(&self, owner: &String) -> (r: i128)
        requires
            self@.wf(),
        ensures
            r == self@.balance(owner@),
    {
        self.balance_of_addr(owner)
    }

    /// The token balance of `owner` (alias of [`TokenContract::balance`]).
    pub fn balance_of(&self, owner: &String) -> (r: i128)
        requires
            self@.wf(),
        ensures
            r == self@.balance(owner@),
    {
        self.balance_of_addr(owner)
    }

    /// The allowance `owner` granted to `spender`; 0 if none was granted.
    pub fn allowance(&self, owner: &String, spender: &String) -> (r: i128)
        requires
            self@.wf(),
        ensures
            r == self@.allowance(owner@, spender@),
    {
        match self.find_allowance(owner, spender) {
            Some(k) => self.allowances[k].amount,
            None => 0,
        }
    }

    /// The contract version.
    pub fn get_version(&self) -> (r: Version)
        ensures
            r == self@.version,
    {
        self.version
    }

    /// The events published so far.
    pub fn events(&self) -> (r: &Vec<TokenEvent>)
        ensures
            r@ == self@.events,
    {
        &self.events
    }

    /// Moves `amount` tokens from `from` to `to`. A transfer to oneself changes
    /// nothing.
    pub fn transfer(&mut self, from: String, to: String, amount: i128) -> (r: Result<
        (),
        ContractError,
    >)
        requires
            old(self)@.wf(),
            transfer_spec(old(self)@, from, to, amount) is Some,
        ensures
            final(self)@.wf(),
            follows(transfer_spec(old(self)@, from, to, amount).unwrap(), old(self)@, final(self)@, r),
            old(self)@.supply_matches() ==> final(self)@.supply_matches(),
    {
        if is_zero_address(&from) || is_zero_address(&to) {
            return Err(ContractError::InvalidAddress);
        }
        if amount <= 0 {
            return Err(ContractError::InvalidAmount);
        }
        if from == to {
            return Ok(());
        }
        let b = self.balance_of_addr(&from);
        if b < amount {
            return Err(ContractError::InsufficientBalance);
        }
        proof {
            lemma_with_balance(self@.balances, from, (b - amount) as i128);
        }
        self.set_balance(&from, b - amount);
        let bt = self.balance_of_addr(&to);
        proof {
            lemma_with_balance(self@.balances, to, (bt + amount) as i128);
        }
        self.set_balance(&to, bt + amount);
        self.events.push(TokenEvent::Transferred { from, to, amount });
        Ok(())
    }

    /// Lets `spender` move up to `amount` of `owner`'s tokens, replacing any
    /// earlier allowance.
    pub fn approve(&mut self, owner: String, spender: String, amount: i128) -> (r: Result<
        (),
        ContractError,
    >)
        requires
            old(self)@.wf(),
        ensures
            final(self)@.wf(),
            follows(approve_spec(old(self)@, owner, spender, amount), old(self)@, final(self)@, r),
            old(self)@.supply_matches() ==> final(self)@.supply_matches(),
    {
        if is_zero_address(&owner) || is_zero_address(&spender) {
            return Err(ContractError::InvalidAddress);
        }
        self.set_allowance(&owner, &spender, amount);
        Ok(())
    }

    /// `spender` moves `amount` of `from`'s tokens to `to` out of its allowance.
    pub fn transfer_from(&mut self, spender: String, from: String, to: String, amount: i128) -> (r:
        Result<(), ContractError>)
        requires
            old(self)@.wf(),
            transfer_from_spec(old(self)@, spender, from, to, amount) is Some,
        ensures
            final(self)@.wf(),
            follows(
                transfer_from_spec(old(self)@, spender, from, to, amount).unwrap(),
                old(self)@,
                final(self)@,
                r,
            ),
            old(self)@.supply_matches() ==> final(self)@.supply_matches(),
    {
        if is_zero_address(&spender) || is_zero_address(&from) || is_zero_address(&to) {
            return Err(ContractError::InvalidAddress);
        }
        let allowed = match self.find_allowance(&from, &spender) {
            Some(k) => self.allowances[k].amount,
            None => 0,
        };
        if allowed < amount {
            return Err(ContractError::AllowanceExceeded);
        }
        let b = self.balance_of_addr(&from);
        if b < amount {
            return Err(ContractError::InsufficientBalance);
        }
        self.set_allowance(&from, &spender, allowed - amount);
        proof {
            lemma_with_balance(self@.balances, from, (b - amount) as i128);
        }
        self.set_balance(&from, b - amount);
        let bt = self.balance_of_addr(&to);
        proof {
            lemma_with_balance(self@.balances, to, (bt + amount) as i128);
        }
        self.set_balance(&to, bt + amount);
        self.events.push(TokenEvent::Transferred { from, to, amount });
        Ok(())
    }

    /// The admin mints `amount` new tokens to `to`.
    pub fn mint(&mut self, admin: String, to: String, amount: i128) -> (r: Result<
        (),
        ContractError,
    >)
        requires
            old(self)@.wf(),
            mint_spec(old(self)@, admin, to, amount) is Some,
        ensures
            final(self)@.wf(),
            follows(mint_spec(old(self)@, admin, to, amount).unwrap(), old(self)@, final(self)@, r),
            old(self)@.supply_matches() ==> final(self)@.supply_matches(),
    {
        if is_zero_address(&admin) || is_zero_address(&to) {
            return Err(ContractError::InvalidAddress);
        }
        match &self.admin {
            None => {
                return Err(ContractError::AdminNotSet);
            },
            Some(a) => {
                if *a != admin {
                    return Err(ContractError::NotAdmin);
                }
            },
        }
        if amount <= 0 {
            return Err(ContractError::InvalidAmount);
        }
        let bt = self.balance_of_addr(&to);
        proof {
            lemma_with_balance(self@.balances, to, (bt + amount) as i128);
        }
        self.set_balance(&to, bt + amount);
        self.total_supply = self.total_supply + amount;
        self.events.push(TokenEvent::Minted { to, amount });
        Ok(())
    }

    /// The admin burns a positive `amount` of `from`'s tokens.
    pub fn burn(&mut self, admin: String, from: String, amount: i128) -> (r: Result<
        (),
        ContractError,
    >)
        requires
            old(self)@.wf(),
            burn_spec(old(self)@, admin, from, amount) is Some,
        ensures
            final(self)@.wf(),
            follows(burn_spec(old(self)@, admin, from, amount).unwrap(), old(self)@, final(self)@, r),
            old(self)@.supply_matches() ==> final(self)@.supply_matches(),
    {
        if is_zero_address(&admin) || is_zero_address(&from) {
            return Err(ContractError::InvalidAddress);
        }
        match &self.admin {
            None => {
                return Err(ContractError::AdminNotSet);
            },
            Some(a) => {
                if *a != admin {
                    return Err(ContractError::NotAdmin);
                }
            },
        }
        if amount <= 0 {
            return Err(ContractError::InvalidAmount);
        }
        let b = self.balance_of_addr(&from);
        if b < amount {
            return Err(ContractError::InsufficientBalance);
        }
        proof {
            lemma_with_balance(self@.balances, from, (b - amount) as i128);
        }
        self.set_balance(&from, b - amount);
        self.total_supply = self.total_supply - amount;
        self.events.push(TokenEvent::Burned { from, amount });
        Ok(())
    }

    /// The admin hands admin rights to `new_admin`.
    pub fn transfer_admin(&mut self, admin: String, new_admin: String) -> (r: Result<
        (),
        ContractError,
    >)
        requires
            old(self)@.wf(),
        ensures
            final(self)@.wf(),
            follows(transfer_admin_spec(old(self)@, admin, new_admin), old(self)@, final(self)@, r),
            old(self)@.supply_matches() ==> final(self)@.supply_matches(),
    {
        if is_zero_address(&admin) || is_zero_address(&new_admin) {
            return Err(ContractError::InvalidAddress);
        }
        match &self.admin {
            None => {
                return Err(ContractError::AdminNotSet);
            },
            Some(a) => {
                if *a != admin {
                    return Err(ContractError::NotAdmin);
                }
            },
        }
        self.admin = Some(new_admin.clone());
        self.events.push(TokenEvent::AdminTransferred { old_admin: admin, new_admin });
        Ok(())
    }
}

// ---------------------------------------------------------------------------
// Laws
// ---------------------------------------------------------------------------

/// A transfer between two addresses moves exactly `amount` from the sender to
/// the recipient: every other balance, the sum of all balances and the total
/// supply stay as they were.
pub proof fn law_transfer_moves_amount(
    v: TokenView,
    from: String,
    to: String,
    amount: i128,
    other: Seq<char>,
)
    requires
        v.wf(),
        transfer_spec(v, from, to, amount) matches Some(Ok(_)),
        from@ != to@,
    ensures
        ({
            let v2 = transfer_spec(v, from, to, amount)->Some_0->Ok_0;
            &&& v2.balance(from@) == v.balance(from@) - amount
            &&& v2.balance(to@) == v.balance(to@) + amount
            &&& other != from@ && other != to@ ==> v2.balance(other) == v.balance(other)
            &&& sum_balances(v2.balances) == sum_balances(v.balances)
            &&& v2.total_supply == v.total_supply
        }),
{
    let b1 = with_balance(v.balances, from, (v.balance(from@) - amount) as i128);
    lemma_with_balance(v.balances, from, (v.balance(from@) - amount) as i128);
    lemma_with_balance(b1, to, (balance_in(b1, to@) + amount) as i128);
}

/// `transfer_from` spends the spender's allowance: it drops by exactly
/// `amount`, and the tokens move from `from` to `to` as in a transfer.
pub proof fn law_transfer_from_spends_allowance(
    v: TokenView,
    spender: String,
    from: String,
    to: String,
    amount: i128,
)
    requires
        v.wf(),
        transfer_from_spec(v, spender, from, to, amount) matches Some(Ok(_)),
        from@ != to@,
    ensures
        ({
            let v2 = transfer_from_spec(v, spender, from, to, amount)->Some_0->Ok_0;
            &&& v2.allowance(from@, spender@) == v.allowance(from@, spender@) - amount
            &&& v2.balance(from@) == v.balance(from@) - amount
            &&& v2.balance(to@) == v.balance(to@) + amount
            &&& sum_balances(v2.balances) == sum_balances(v.balances)
            &&& v2.total_supply == v.total_supply
        }),
{
    let b = v.balance(from@);
    let allowed = v.allowance(from@, spender@);
    let b1 = with_balance(v.balances, from, (b - amount) as i128);
    lemma_with_balance(v.balances, from, (b - amount) as i128);
    lemma_with_balance(b1, to, (balance_in(b1, to@) + amount) as i128);
    lemma_with_allowance(v.allowances, from, spender, (allowed - amount) as i128);
}

/// Minting and burning move the total supply and the holder's balance by the
/// same amount, so the supply stays the sum of all balances.
pub proof fn law_mint_burn_track_supply(
    v: TokenView,
    admin: String,
    holder: String,
    amount: i128,
)
    requires
        v.wf(),
        v.supply_matches(),
    ensures
        mint_spec(v, admin, holder, amount) matches Some(Ok(v2)) ==> {
            &&& v2.total_supply == v.total_supply + amount
            &&& v2.balance(holder@) == v.balance(holder@) + amount
            &&& v2.supply_matches()
        },
        burn_spec(v, admin, holder, amount) matches Some(Ok(v2)) ==> {
            &&& v2.total_supply == v.total_supply - amount
            &&& v2.balance(holder@) == v.balance(holder@) - amount
            &&& v2.supply_matches()
        },
{
    lemma_with_balance(v.balances, holder, (v.balance(holder@) + amount) as i128);
    lemma_with_balance(v.balances, holder, (v.balance(holder@) - amount) as i128);
}

/// An approval sets the allowance to exactly the approved amount, whatever
/// was approved before.
pub proof fn law_approve_sets_allowance(v: TokenView, owner: String, spender: String, amount: i128)
    requires
        v.wf(),
        approve_spec(v, owner, spender, amount) is Ok,
    ensures
        approve_spec(v, owner, spender, amount)->Ok_0.allowance(owner@, spender@) == amount,
        approve_spec(v, owner, spender, amount)->Ok_0.balances == v.balances,
{
    lemma_with_allowance(v.allowances, owner, spender, amount);
}

} // verus!
