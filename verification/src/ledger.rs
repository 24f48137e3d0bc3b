//! The account ledger of one domain: spendable (`free`) and escrowed
//! (`reserved`) funds per account.
//!
//! Every operation either performs its exact documented movement of funds or
//! refuses and leaves the ledger untouched.  Apart from [`Ledger::deposit`],
//! no operation creates or destroys funds: [`conserves`] states this and is
//! part of the contract of every engine transition.

use std::collections::HashMap;
use vstd::prelude::*;

verus! {

broadcast use vstd::std_specs::hash::group_hash_axioms;

/// Funds held for one account.
#[derive(Clone, Copy, PartialEq, Eq, Structural, Debug)]
pub struct AccountData {
    pub free: u64,
    pub reserved: u64,
}

/// Why a ledger operation was refused.
#[derive(Clone, Copy, PartialEq, Eq, Structural, Debug)]
pub enum LedgerError {
    /// The paying account does not hold the required funds.
    Insufficient,
    /// The receiving account cannot take the funds without overflowing.
    Overflow,
}

/// The account ledger of one domain.  An account absent from the table
/// holds nothing.
pub struct Ledger {
    accounts: HashMap<u64, AccountData>,
}

impl Ledger {
    /// The spendable funds of `a`.
    pub closed spec fn free_of(&self, a: u64) -> u64 {
        if self.accounts@.contains_key(a) {
            self.accounts@[a].free
        } else {
            0
        }
    }

    /// The escrowed funds of `a`.
    pub closed spec fn reserved_of(&self, a: u64) -> u64 {
        if self.accounts@.contains_key(a) {
            self.accounts@[a].reserved
        } else {
            0
        }
    }

    /// Everything `a` holds, escrowed or not.
    pub open spec fn total_of(&self, a: u64) -> int {
        self.free_of(a) + self.reserved_of(a)
    }

    /// No account may hold more than `u64::MAX` in free and reserved funds
    /// together, so that moving funds between the two sides of one account
    /// can never overflow.
    pub closed spec fn wf(&self) -> bool {
        forall|a: u64| #[trigger]
            self.accounts@.contains_key(a) ==> self.accounts@[a].free
                + self.accounts@[a].reserved <= u64::MAX
    }

    /// An empty ledger: nobody holds anything.
    pub fn new() -> (r: Ledger)
        ensures
            r.wf(),
            forall|a: u64| #![trigger r.free_of(a)] #![trigger r.reserved_of(a)]
                r.free_of(a) == 0 && r.reserved_of(a) == 0,
    {
        Ledger { accounts: HashMap::new() }
    }

    /// The funds `a` holds, as one record.
    fn account(&self, a: u64) -> (r: AccountData)
        ensures
            r.free == self.free_of(a),
            r.reserved == self.reserved_of(a),
    {
        match self.accounts.get(&a) {
            Some(d) => *d,
            None => AccountData { free: 0, reserved: 0 },
        }
    }

    fn put(&mut self, a: u64, d: AccountData)
        ensures
            final(self).accounts@ == old(self).accounts@.insert(a, d),
    {
        self.accounts.insert(a, d);
    }

    /// The spendable funds of `a`.
    pub fn free_balance(&self, a: u64) -> (r: u64)
        ensures
            r == self.free_of(a),
    {
        self.account(a).free
    }

    /// The escrowed funds of `a`.
    pub fn reserved_balance(&self, a: u64) -> (r: u64)
        ensures
            r == self.reserved_of(a),
    {
        self.account(a).reserved
    }

    /// Whether `a` could escrow `amount` of its spendable funds.
    pub fn can_reserve(&self, a: u64, amount: u64) -> (r: bool)
        ensures
            r == (self.free_of(a) >= amount),
    {
        self.account(a).free >= amount
    }

    /// Put new spendable funds into `a`'s account.  Refused if the account
    /// would overflow.
    pub fn deposit(&mut self, a: u64, amount: u64) -> (r: Result<(), LedgerError>)
        requires
            old(self).wf(),
        ensures
            final(self).wf(),
            r is Ok <==> old(self).total_of(a) + amount <= u64::MAX,
            r is Err ==> *final(self) == *old(self),
            r is Ok ==> final(self).free_of(a) == old(self).free_of(a) + amount
                && final(self).reserved_of(a) == old(self).reserved_of(a),
            untouched(*old(self), *final(self), a, a),
    {
        let d = self.account(a);
        if amount <= u64::MAX - d.free && amount + d.free <= u64::MAX - d.reserved {
            self.put(a, AccountData { free: d.free + amount, reserved: d.reserved });
            Ok(())
        } else {
            Err(LedgerError::Overflow)
        }
    }

    /// Move `amount` of `a`'s spendable funds into escrow.  Refused, with
    /// nothing moved, if `a` does not hold that much spendable.
    pub fn reserve(&mut self, a: u64, amount: u64) -> (r: Result<(), LedgerError>)
        requires
            old(self).wf(),
        ensures
            final(self).wf(),
            r is Ok <==> old(self).free_of(a) >= amount,
            r is Err ==> *final(self) == *old(self),
            r is Ok ==> final(self).free_of(a) == old(self).free_of(a) - amount
                && final(self).reserved_of(a) == old(self).reserved_of(a) + amount,
            untouched(*old(self), *final(self), a, a),
            conserves(*old(self), *final(self), a, a),
    {
        let d = self.account(a);
        if d.free >= amount {
            proof {
                assert(self.accounts@.contains_key(a) ==> self.accounts@[a].free
                    + self.accounts@[a].reserved <= u64::MAX);
            }
            self.put(a, AccountData { free: d.free - amount, reserved: d.reserved + amount });
            Ok(())
        } else {
            Err(LedgerError::Insufficient)
        }
    }

    /// Release escrowed funds of `a` back to its spendable side.  Releases
    /// `amount`, or all of `a`'s escrow if that is less; never refuses.
    pub fn unreserve(&mut self, a: u64, amount: u64)
        requires
            old(self).wf(),
        ensures
            final(self).wf(),
            final(self).reserved_of(a) == if amount <= old(self).reserved_of(a) {
                (old(self).reserved_of(a) - amount) as u64
            } else {
                0u64
            },
            final(self).free_of(a) + final(self).reserved_of(a) == old(self).free_of(a)
                + old(self).reserved_of(a),
            untouched(*old(self), *final(self), a, a),
            conserves(*old(self), *final(self), a, a),
    {
        let d = self.account(a);
        let moved: u64 = if amount <= d.reserved {
            amount
        } else {
            d.reserved
        };
        proof {
            assert(self.accounts@.contains_key(a) ==> self.accounts@[a].free
                + self.accounts@[a].reserved <= u64::MAX);
        }
        self.put(a, AccountData { free: d.free + moved, reserved: d.reserved - moved });
    }

    /// Move `amount` of `from`'s escrowed funds into `to`'s spendable funds.
    /// Refused, with nothing moved, if `from`'s escrow does not hold that
    /// much or `to` cannot take it without overflowing.
    pub fn transfer_reserved(&mut self, from: u64, to: u64, amount: u64) -> (r: Result<
        (),
        LedgerError,
    >)
        requires
            old(self).wf(),
        ensures
            final(self).wf(),
            r is Ok <==> old(self).reserved_of(from) >= amount && (from == to
                || old(self).total_of(to) + amount <= u64::MAX),
            r is Err ==> *final(self) == *old(self),
            r is Ok ==> final(self).reserved_of(from) == old(self).reserved_of(from) - amount,
            r is Ok && from != to ==> final(self).free_of(from) == old(self).free_of(from)
                && final(self).free_of(to) == old(self).free_of(to) + amount
                && final(self).reserved_of(to) == old(self).reserved_of(to),
            r is Ok && from == to ==> final(self).free_of(from) == old(self).free_of(from)
                + amount,
            untouched(*old(self), *final(self), from, to),
            conserves(*old(self), *final(self), from, to),
    {
        let df = self.account(from);
        if df.reserved < amount {
            return Err(LedgerError::Insufficient);
        }
        proof {
            assert(self.accounts@.contains_key(from) ==> self.accounts@[from].free
                + self.accounts@[from].reserved <= u64::MAX);
        }
        if from == to {
            self.put(from, AccountData { free: df.free + amount, reserved: df.reserved - amount });
            return Ok(());
        }
        let dt = self.account(to);
        if amount > u64::MAX - dt.free || amount + dt.free > u64::MAX - dt.reserved {
            return Err(LedgerError::Overflow);
        }
        self.put(from, AccountData { free: df.free, reserved: df.reserved - amount });
        self.put(to, AccountData { free: dt.free + amount, reserved: dt.reserved });
        Ok(())
    }
}

impl Ledger {
    /// The escrow settlement rule of one order, applied atomically.
    ///
    /// The client's `fee` leaves escrow toward the device's spendable funds
    /// when `fee_to_device` holds (the work was done), and back to the
    /// client otherwise; releases back to the client move `fee` or all of
    /// the client's escrow, whichever is less.  The device's `penalty`
    /// leaves escrow toward the client when `penalty_to_client` holds (the
    /// settlement is late), and back to the device otherwise, again capped
    /// by what is escrowed.  Refused whole, with nothing moved, exactly
    /// when a transfer leg lacks escrowed funds or would overflow its
    /// target: see [`settle_ok`].
    pub fn settle(
        &mut self,
        client: u64,
        device: u64,
        fee: u64,
        penalty: u64,
        fee_to_device: bool,
        penalty_to_client: bool,
    ) -> (r: Result<(), LedgerError>)
        requires
            old(self).wf(),
        ensures
            final(self).wf(),
            r is Err ==> *final(self) == *old(self),
            r is Ok <==> settle_ok(
                *old(self),
                client,
                device,
                fee,
                penalty,
                fee_to_device,
                penalty_to_client,
            ),
            r is Ok ==> settled(
                *old(self),
                *final(self),
                client,
                device,
                fee,
                penalty,
                fee_to_device,
                penalty_to_client,
            ),
            untouched(*old(self), *final(self), client, device),
            conserves(*old(self), *final(self), client, device),
    {
        let fc = self.free_balance(client);
        let rc = self.reserved_balance(client);
        let fd = self.free_balance(device);
        let rd = self.reserved_balance(device);
        if fee_to_device {
            if rc < fee {
                return Err(LedgerError::Insufficient);
            }
            if client != device {
                if (fd as u128) + (rd as u128) + (fee as u128) > (u64::MAX as u128) {
                    return Err(LedgerError::Overflow);
                }
            }
        }
        let m1c: u64 = if fee_to_device {
            fee
        } else if fee <= rc {
            fee
        } else {
            rc
        };
        let r1d: u64 = if client == device {
            rc - m1c
        } else {
            rd
        };
        if penalty_to_client {
            if r1d < penalty {
                return Err(LedgerError::Insufficient);
            }
            if client != device {
                let out1: u64 = if fee_to_device {
                    fee
                } else {
                    0
                };
                if (fc as u128) + (rc as u128) - (out1 as u128) + (penalty as u128) > (
                u64::MAX as u128) {
                    return Err(LedgerError::Overflow);
                }
            }
        }
        if fee_to_device {
            let leg = self.transfer_reserved(client, device, fee);
            assert(leg is Ok);
        } else {
            self.unreserve(client, fee);
        }
        if penalty_to_client {
            let leg = self.transfer_reserved(device, client, penalty);
            assert(leg is Ok);
        } else {
            self.unreserve(device, penalty);
        }
        Ok(())
    }
}

/// The smaller of two quantities.
pub open spec fn spec_min(a: int, b: int) -> int {
    if a <= b {
        a
    } else {
        b
    }
}

/// What leaves the client's escrow in a settlement: the whole fee when it
/// is owed to the device, else at most the fee, capped by the escrow.
pub open spec fn settle_fee_out(l: Ledger, c: u64, fee: u64, fee_to_device: bool) -> int {
    if fee_to_device {
        fee as int
    } else {
        spec_min(fee as int, l.reserved_of(c) as int)
    }
}

/// The device's escrow once the fee leg has run: only a settlement of a
/// device with itself as client is affected by that leg.
pub open spec fn settle_mid_reserved(
    l: Ledger,
    c: u64,
    d: u64,
    fee: u64,
    fee_to_device: bool,
) -> int {
    if c == d {
        l.reserved_of(c) - settle_fee_out(l, c, fee, fee_to_device)
    } else {
        l.reserved_of(d) as int
    }
}

/// What leaves the device's escrow in a settlement: the whole penalty when
/// it is owed to the client, else at most the penalty, capped by the
/// escrow.
pub open spec fn settle_pen_out(
    l: Ledger,
    c: u64,
    d: u64,
    fee: u64,
    penalty: u64,
    fee_to_device: bool,
    penalty_to_client: bool,
) -> int {
    if penalty_to_client {
        penalty as int
    } else {
        spec_min(penalty as int, settle_mid_reserved(l, c, d, fee, fee_to_device))
    }
}

/// When a settlement goes through: each transfer leg must find its funds
/// escrowed, and must not overflow the account it pays.  Releases back to
/// the owner never refuse.
pub open spec fn settle_ok(
    l: Ledger,
    c: u64,
    d: u64,
    fee: u64,
    penalty: u64,
    fee_to_device: bool,
    penalty_to_client: bool,
) -> bool {
    &&& fee_to_device ==> l.reserved_of(c) >= fee
    &&& fee_to_device && c != d ==> l.total_of(d) + fee <= u64::MAX
    &&& penalty_to_client ==> settle_mid_reserved(l, c, d, fee, fee_to_device) >= penalty
    &&& penalty_to_client && c != d ==> l.total_of(c) - (
        if fee_to_device {
            fee as int
        } else {
            0
        }) + penalty <= u64::MAX
}

/// The exact funds movement of one settlement.
pub open spec fn settled(
    pre: Ledger,
    post: Ledger,
    c: u64,
    d: u64,
    fee: u64,
    penalty: u64,
    fee_to_device: bool,
    penalty_to_client: bool,
) -> bool {
    let m1 = settle_fee_out(pre, c, fee, fee_to_device);
    let m2 = settle_pen_out(pre, c, d, fee, penalty, fee_to_device, penalty_to_client);
    if c == d {
        &&& post.reserved_of(c) == pre.reserved_of(c) - m1 - m2
        &&& post.free_of(c) == pre.free_of(c) + m1 + m2
    } else {
        &&& post.reserved_of(c) == pre.reserved_of(c) - m1
        &&& post.free_of(c) == pre.free_of(c) + (
        if fee_to_device {
            0
        } else {
            m1
        }) + (
        if penalty_to_client {
            penalty as int
        } else {
            0
        })
        &&& post.reserved_of(d) == pre.reserved_of(d) - m2
        &&& post.free_of(d) == pre.free_of(d) + (
        if fee_to_device {
            fee as int
        } else {
            0
        }) + (
        if penalty_to_client {
            0
        } else {
            m2
        })
    }
}

/// Accounts other than `a` and `b` hold exactly what they held before.
pub open spec fn untouched(pre: Ledger, post: Ledger, a: u64, b: u64) -> bool {
    forall|c: u64|
        #![trigger post.free_of(c)]
        #![trigger post.reserved_of(c)]
        c != a && c != b ==> post.free_of(c) == pre.free_of(c) && post.reserved_of(c)
            == pre.reserved_of(c)
}

/// What `a` and `b` hold together, counting each account once.
pub open spec fn pair_total(l: Ledger, a: u64, b: u64) -> int {
    if a == b {
        l.total_of(a)
    } else {
        l.total_of(a) + l.total_of(b)
    }
}

/// Escrow conservation between two ledgers: funds may have moved between
/// the free and reserved sides of `a` and `b`, or between the two accounts,
/// but none were created or destroyed, and nobody else was touched.
pub open spec fn conserves(pre: Ledger, post: Ledger, a: u64, b: u64) -> bool {
    &&& pair_total(post, a, b) == pair_total(pre, a, b)
    &&& untouched(pre, post, a, b)
}

/// Escrow resolution: when an order's escrow is fully backed — the
/// client's reserve covers the fee and the device's covers the penalty —
/// a settlement resolves each reservation exactly once.  The fee leaves
/// the client's escrow in full and lands with exactly one party (the
/// device when the work was done, else back with the client); the penalty
/// leaves the device's escrow in full and lands with exactly one party
/// (the client when late, else back with the device).  Nothing is
/// abandoned, nothing released twice, nothing minted.
pub proof fn lemma_settlement_resolves_escrow(
    pre: Ledger,
    post: Ledger,
    c: u64,
    d: u64,
    fee: u64,
    penalty: u64,
    fee_to_device: bool,
    penalty_to_client: bool,
)
    requires
        c != d,
        pre.reserved_of(c) >= fee,
        pre.reserved_of(d) >= penalty,
        settled(pre, post, c, d, fee, penalty, fee_to_device, penalty_to_client),
    ensures
        post.reserved_of(c) == pre.reserved_of(c) - fee,
        post.reserved_of(d) == pre.reserved_of(d) - penalty,
        post.free_of(c) == pre.free_of(c) + (
        if fee_to_device {
            0int
        } else {
            fee as int
        }) + (
        if penalty_to_client {
            penalty as int
        } else {
            0int
        }),
        post.free_of(d) == pre.free_of(d) + (
        if fee_to_device {
            fee as int
        } else {
            0int
        }) + (
        if penalty_to_client {
            0int
        } else {
            penalty as int
        }),
        pair_total(post, c, d) == pair_total(pre, c, d),
{
}

/// Conservation composes: a sequence of conserving steps over the same two
/// accounts conserves as a whole.
pub proof fn lemma_conserves_trans(l0: Ledger, l1: Ledger, l2: Ledger, a: u64, b: u64)
    requires
        conserves(l0, l1, a, b),
        conserves(l1, l2, a, b),
    ensures
        conserves(l0, l2, a, b),
{
}

} // verus!
