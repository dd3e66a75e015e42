//! The escrow record and the rules by which a command turns one record into
//! the next.

use vstd::prelude::*;
use crate::address::Address;
use crate::errors::EscrowError;

verus! {

/// Where an escrow stands. `Completed` and `Cancelled` are final.
#[derive(Clone, Copy, Debug, PartialEq, Eq, Structural)]
pub enum EscrowStatus {
    Active,
    Completed,
    Cancelled,
}

/// The side of the swap on which a party acts.
#[derive(Clone, Copy, Debug, PartialEq, Eq, Structural)]
pub enum Role {
    A,
    B,
}

/// The record of one escrow: who swaps what for what, which side has paid
/// in, under which authority the deposits are held, and where the swap
/// stands.
#[derive(Clone, Copy, Debug, PartialEq, Eq)]
pub struct Escrow {
    /// The party that set the escrow up.
    pub user_a: Address,
    /// The other party; unset until somebody other than `user_a` deposits.
    pub user_b: Address,
    pub token_a_mint: Address,
    pub token_b_mint: Address,
    pub amount_a: u64,
    pub amount_b: u64,
    pub token_a_deposited: bool,
    pub token_b_deposited: bool,
    /// The authority under which the deposits are held.
    pub vault_pda: Address,
    pub status: EscrowStatus,
}

/// What a successful cancellation leaves to be done: which sides get their
/// deposit back.
#[derive(Clone, Copy, Debug, PartialEq, Eq, Structural)]
pub struct Refunds {
    pub to_a: bool,
    pub to_b: bool,
}

impl Escrow {
    /// What every record that the commands produce satisfies: both amounts
    /// are positive, a completed swap was fully funded, and a cancelled one
    /// holds no deposit.
    pub open spec fn wf(&self) -> bool {
        &&& self.amount_a > 0
        &&& self.amount_b > 0
        &&& (self.status == EscrowStatus::Completed ==> self.token_a_deposited
            && self.token_b_deposited)
        &&& (self.status == EscrowStatus::Cancelled ==> !self.token_a_deposited
            && !self.token_b_deposited)
    }

    /// Whether the two records agree on what no command may change: the
    /// first party, the two assets, the two amounts and the custodial
    /// authority.
    pub open spec fn same_terms(&self, other: &Escrow) -> bool {
        &&& self.user_a == other.user_a
        &&& self.token_a_mint == other.token_a_mint
        &&& self.token_b_mint == other.token_b_mint
        &&& self.amount_a == other.amount_a
        &&& self.amount_b == other.amount_b
        &&& self.vault_pda == other.vault_pda
    }

    /// Whether the swap has reached a final state.
    pub open spec fn is_terminal(&self) -> bool {
        self.status != EscrowStatus::Active
    }

    /// Whether `who` is one of the two parties of the record.
    pub open spec fn is_party(&self, who: Address) -> bool {
        who == self.user_a || who == self.user_b
    }

    /// The side on which `who` would deposit: side A for the first party;
    /// side B for the second party, or for anybody else while the second
    /// party's place is still free; none for a stranger.
    pub open spec fn deposit_role(&self, who: Address) -> Option<Role> {
        if who == self.user_a {
            Some(Role::A)
        } else if who == self.user_b || self.user_b.is_unset() {
            Some(Role::B)
        } else {
            None
        }
    }

    /// Whether the given side has paid in.
    pub open spec fn deposited(&self, role: Role) -> bool {
        match role {
            Role::A => self.token_a_deposited,
            Role::B => self.token_b_deposited,
        }
    }

    /// The amount that the given side owes.
    pub open spec fn expected_amount(&self, role: Role) -> u64 {
        match role {
            Role::A => self.amount_a,
            Role::B => self.amount_b,
        }
    }

    /// The asset in which the given side pays.
    pub open spec fn asset(&self, role: Role) -> Address {
        match role {
            Role::A => self.token_a_mint,
            Role::B => self.token_b_mint,
        }
    }

    /// The record after `who` has paid in on the given side.
    pub open spec fn with_deposit(self, role: Role, who: Address) -> Escrow {
        match role {
            Role::A => Escrow { token_a_deposited: true, ..self },
            Role::B => Escrow { user_b: who, token_b_deposited: true, ..self },
        }
    }

    /// The record that setting up an escrow writes, or the refusal.
    pub open spec fn init_spec(
        user_a: Address,
        token_a_mint: Address,
        token_b_mint: Address,
        amount_a: u64,
        amount_b: u64,
        vault_pda: Address,
    ) -> Result<Escrow, EscrowError> {
        if amount_a == 0 || amount_b == 0 {
            Err(EscrowError::InvalidAmount)
        } else {
            Ok(
                Escrow {
                    user_a,
                    user_b: Address::unset_spec(),
                    token_a_mint,
                    token_b_mint,
                    amount_a,
                    amount_b,
                    token_a_deposited: false,
                    token_b_deposited: false,
                    vault_pda,
                    status: EscrowStatus::Active,
                },
            )
        }
    }

    /// What a deposit of `amount` by `who` does: the side on which it
    /// counts and the next record, or the refusal.
    pub open spec fn deposit_spec(self, who: Address, amount: u64) -> Result<
        (Escrow, Role),
        EscrowError,
    > {
        match self.deposit_role(who) {
            None => Err(EscrowError::UnauthorizedCancel),
            Some(role) => if self.status != EscrowStatus::Active {
                Err(EscrowError::EscrowNotReady)
            } else if self.deposited(role) {
                Err(EscrowError::AlreadyDeposited)
            } else if amount != self.expected_amount(role) {
                Err(EscrowError::InvalidAmount)
            } else {
                Ok((self.with_deposit(role, who), role))
            },
        }
    }

    /// What `who` asking for the swap does: the next record, or the refusal.
    pub open spec fn complete_swap_spec(self, who: Address) -> Result<Escrow, EscrowError> {
        if !self.is_party(who) {
            Err(EscrowError::UnauthorizedCancel)
        } else if self.status != EscrowStatus::Active {
            Err(EscrowError::EscrowNotReady)
        } else if !self.token_a_deposited || !self.token_b_deposited {
            Err(EscrowError::EscrowNotReady)
        } else {
            Ok(Escrow { status: EscrowStatus::Completed, ..self })
        }
    }

    /// What `who` cancelling does: the next record and the deposits to hand
    /// back, or the refusal.
    pub open spec fn cancel_spec(self, who: Address) -> Result<(Escrow, Refunds), EscrowError> {
        if !self.is_party(who) {
            Err(EscrowError::UnauthorizedCancel)
        } else if self.token_a_deposited && self.token_b_deposited {
            Err(EscrowError::UnauthorizedCancel)
        } else if self.status != EscrowStatus::Active {
            Err(EscrowError::EscrowNotReady)
        } else {
            Ok(
                (
                    Escrow {
                        token_a_deposited: false,
                        token_b_deposited: false,
                        status: EscrowStatus::Cancelled,
                        ..self
                    },
                    Refunds { to_a: self.token_a_deposited, to_b: self.token_b_deposited },
                ),
            )
        }
    }

    /// Sets up an escrow between `user_a` and a party yet to come:
    /// `amount_a` of `token_a_mint` against `amount_b` of `token_b_mint`,
    /// the deposits to be held under `vault_pda`. Refused with
    /// `InvalidAmount` when an amount is zero.
    pub fn init(
        user_a: Address,
        token_a_mint: Address,
        token_b_mint: Address,
        amount_a: u64,
        amount_b: u64,
        vault_pda: Address,
    ) -> (r: Result<Escrow, EscrowError>)
        ensures
            r == Escrow::init_spec(
                user_a,
                token_a_mint,
                token_b_mint,
                amount_a,
                amount_b,
                vault_pda,
            ),
            r is Ok <==> amount_a > 0 && amount_b > 0,
            r is Ok ==> r->Ok_0.wf(),
    {
        if amount_a == 0 || amount_b == 0 {
            return Err(EscrowError::InvalidAmount);
        }
        Ok(
            Escrow {
                user_a,
                user_b: Address::unset(),
                token_a_mint,
                token_b_mint,
                amount_a,
                amount_b,
                token_a_deposited: false,
                token_b_deposited: false,
                vault_pda,
                status: EscrowStatus::Active,
            },
        )
    }

    /// The side on which `who` would deposit, if any.
    pub fn role_of(&self, who: &Address) -> (r: Option<Role>)
        ensures
            r == self.deposit_role(*who),
    {
        if *who == self.user_a {
            Some(Role::A)
        } else if *who == self.user_b || self.user_b.check_unset() {
            Some(Role::B)
        } else {
            None
        }
    }

    /// Whether `who` is one of the two parties.
    pub fn has_party(&self, who: &Address) -> (b: bool)
        ensures
            b == self.is_party(*who),
    {
        *who == self.user_a || *who == self.user_b
    }

    /// Records a deposit of `amount` by `who`.
    ///
    /// The depositor acts as side A if it is the first party, else as side
    /// B if it is the second party or the second party's place is free
    /// (which it then takes); a stranger is refused with
    /// `UnauthorizedCancel`. Then, in this order: an escrow that is no
    /// longer active refuses with `EscrowNotReady`, a side that has already
    /// paid with `AlreadyDeposited`, an amount other than the one owed with
    /// `InvalidAmount`.
    pub fn deposit(&self, who: &Address, amount: u64) -> (r: Result<(Escrow, Role), EscrowError>)
        ensures
            r == self.deposit_spec(*who, amount),
            r is Ok ==> r->Ok_0.0.same_terms(self),
            r is Ok && self.wf() ==> r->Ok_0.0.wf(),
    {
        match self.role_of(who) {
            None => Err(EscrowError::UnauthorizedCancel),
            Some(role) => {
                match self.status {
                    EscrowStatus::Active => {},
                    _ => {
                        return Err(EscrowError::EscrowNotReady);
                    },
                }
                match role {
                    Role::A => {
                        if self.token_a_deposited {
                            Err(EscrowError::AlreadyDeposited)
                        } else if amount != self.amount_a {
                            Err(EscrowError::InvalidAmount)
                        } else {
                            let mut next = *self;
                            next.token_a_deposited = true;
                            Ok((next, Role::A))
                        }
                    },
                    Role::B => {
                        if self.token_b_deposited {
                            Err(EscrowError::AlreadyDeposited)
                        } else if amount != self.amount_b {
                            Err(EscrowError::InvalidAmount)
                        } else {
                            let mut next = *self;
                            next.user_b = *who;
                            next.token_b_deposited = true;
                            Ok((next, Role::B))
                        }
                    },
                }
            },
        }
    }

    /// Marks the swap as done.
    ///
    /// Refused with `UnauthorizedCancel` for a caller that is no party, and
    /// with `EscrowNotReady` when the escrow is no longer active or a side
    /// has not paid in.
    pub fn complete_swap(&self, who: &Address) -> (r: Result<Escrow, EscrowError>)
        ensures
            r == self.complete_swap_spec(*who),
            r is Ok ==> r->Ok_0.same_terms(self),
            r is Ok && self.wf() ==> r->Ok_0.wf(),
    {
        if !self.has_party(who) {
            return Err(EscrowError::UnauthorizedCancel);
        }
        match self.status {
            EscrowStatus::Active => {},
            _ => {
                return Err(EscrowError::EscrowNotReady);
            },
        }
        if !self.token_a_deposited || !self.token_b_deposited {
            return Err(EscrowError::EscrowNotReady);
        }
        let mut next = *self;
        next.status = EscrowStatus::Completed;
        Ok(next)
    }

    /// Calls the swap off and says which deposits go back.
    ///
    /// Refused with `UnauthorizedCancel` for a caller that is no party, or
    /// when both sides have paid in; with `EscrowNotReady` when the escrow
    /// is no longer active.
    pub fn cancel(&self, who: &Address) -> (r: Result<(Escrow, Refunds), EscrowError>)
        ensures
            r == self.cancel_spec(*who),
            r is Ok ==> r->Ok_0.0.same_terms(self),
            r is Ok && self.wf() ==> r->Ok_0.0.wf(),
    {
        if !self.has_party(who) {
            return Err(EscrowError::UnauthorizedCancel);
        }
        if self.token_a_deposited && self.token_b_deposited {
            return Err(EscrowError::UnauthorizedCancel);
        }
        match self.status {
            EscrowStatus::Active => {},
            _ => {
                return Err(EscrowError::EscrowNotReady);
            },
        }
        let refunds = Refunds { to_a: self.token_a_deposited, to_b: self.token_b_deposited };
        let mut next = *self;
        next.token_a_deposited = false;
        next.token_b_deposited = false;
        next.status = EscrowStatus::Cancelled;
        Ok((next, refunds))
    }
}

} // verus!
