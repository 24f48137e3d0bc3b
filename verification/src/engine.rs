//! The protocol engine of one domain: the device/order state machine and
//! its escrow moves.
//!
//! One [`Pallet`] holds a domain's device registry, its order book and its
//! account ledger.  Every operation is one atomic transition: it either
//! fully commits (state, escrow, and at most one outbound message) or
//! refuses with an [`Error`] and mutates nothing.

use std::collections::HashMap;
use vstd::prelude::*;

use crate::ledger::{conserves, untouched, Ledger};
use crate::types::{
    AccountId, DeviceProfile, DeviceState, DomainId, Envelope, Error, Event, Moment, Order,
    OrderBase, Outcome, XCMPMessage,
};

verus! {

broadcast use vstd::std_specs::hash::group_hash_axioms;

/// The profile `d` with its state replaced.
pub open spec fn with_state(d: DeviceProfile, s: DeviceState) -> DeviceProfile {
    DeviceProfile {
        penalty: d.penalty,
        work_duration: d.work_duration,
        home_domain: d.home_domain,
        state: s,
    }
}

/// Where a submission puts the device: `Accepted` when its autonomous
/// policy accepted on the spot, else `Busy`.
pub open spec fn decided_state(decision: Option<DeviceState>) -> DeviceState {
    if decision == Some(DeviceState::Accepted) {
        DeviceState::Accepted
    } else {
        DeviceState::Busy
    }
}

/// The escrow taken at a locally settled submission: the client's fee and
/// the device's penalty both move from spendable funds into escrow, on
/// this ledger; nothing else moves and no funds appear or vanish.
pub open spec fn escrowed_at_submit(
    pre: Ledger,
    post: Ledger,
    who: AccountId,
    device: AccountId,
    fee: u64,
    penalty: u64,
) -> bool {
    &&& untouched(pre, post, who, device)
    &&& post.total_of(who) == pre.total_of(who)
    &&& post.total_of(device) == pre.total_of(device)
    &&& if who == device {
        &&& post.free_of(who) == pre.free_of(who) - fee - penalty
        &&& post.reserved_of(who) == pre.reserved_of(who) + fee + penalty
    } else {
        &&& post.free_of(who) == pre.free_of(who) - fee
        &&& post.reserved_of(who) == pre.reserved_of(who) + fee
        &&& post.free_of(device) == pre.free_of(device) - penalty
        &&& post.reserved_of(device) == pre.reserved_of(device) + penalty
    }
}

/// The deadline rule: a settlement at or after the order's deadline is
/// late, and a late settlement forfeits the device's penalty to the
/// client.  The boundary is inclusive: `now == until` is already late.
pub open spec fn late_settlement(now: Moment, until: Moment) -> bool {
    now >= until
}

/// The deadline boundary, spelled out: one moment before the deadline the
/// settlement is timely and the penalty returns to the device; at the
/// deadline itself it is late and the penalty goes to the client.
pub proof fn lemma_deadline_boundary(until: Moment)
    requires
        until >= 1,
    ensures
        !late_settlement((until - 1) as u64, until),
        late_settlement(until, until),
{
}

/// Where a message-driven settlement leaves the device: a `Timewait`
/// device stays parked (its account is gone; it must re-register), any
/// other returns to `Ready` or `Off` as the message's resume flag says.
pub open spec fn resumed_state(s: DeviceState, resume: bool) -> DeviceState {
    if s == DeviceState::Timewait {
        DeviceState::Timewait
    } else if resume {
        DeviceState::Ready
    } else {
        DeviceState::Off
    }
}

/// A device that can be on a side of an active order: working it, having
/// accepted it, or parked after its account closed mid-order.
pub open spec fn order_holding_state(s: DeviceState) -> bool {
    s == DeviceState::Busy || s == DeviceState::Accepted || s == DeviceState::Timewait
}

/// The protocol engine of one domain.
pub struct Pallet {
    home: DomainId,
    devices: HashMap<AccountId, DeviceProfile>,
    orders: HashMap<AccountId, Order>,
    ledger: Ledger,
}

impl Pallet {
    /// The domain this engine runs.
    pub closed spec fn spec_home(&self) -> DomainId {
        self.home
    }

    /// The registered devices, by account.
    pub closed spec fn devices_map(&self) -> Map<AccountId, DeviceProfile> {
        self.devices@
    }

    /// The active orders, by device account.
    pub closed spec fn orders_map(&self) -> Map<AccountId, Order> {
        self.orders@
    }

    /// The domain's account ledger.
    pub closed spec fn spec_ledger(&self) -> Ledger {
        self.ledger
    }

    /// A well-formed engine: its ledger's accounts are within bounds.
    pub open spec fn wf(&self) -> bool {
        self.spec_ledger().wf()
    }

    /// Whether `d` is a registered device.
    pub open spec fn has_device(&self, d: AccountId) -> bool {
        self.devices_map().contains_key(d)
    }

    /// The profile of the registered device `d`.
    pub open spec fn device_of(&self, d: AccountId) -> DeviceProfile {
        self.devices_map()[d]
    }

    /// Whether `d` has an active order.
    pub open spec fn has_order(&self, d: AccountId) -> bool {
        self.orders_map().contains_key(d)
    }

    /// The active order of `d`.
    pub open spec fn order_of(&self, d: AccountId) -> Order {
        self.orders_map()[d]
    }

    /// The lifecycle state of the registered device `d`.
    pub open spec fn state_of(&self, d: AccountId) -> DeviceState {
        self.device_of(d).state
    }

    /// A fresh engine for `home`: no devices, no orders, nobody holds funds.
    pub fn new(home: DomainId) -> (r: Pallet)
        ensures
            r.wf(),
            r.spec_home() == home,
            r.devices_map() == Map::<AccountId, DeviceProfile>::empty(),
            r.orders_map() == Map::<AccountId, Order>::empty(),
            forall|a: AccountId|
                #![trigger r.spec_ledger().free_of(a)]
                #![trigger r.spec_ledger().reserved_of(a)]
                r.spec_ledger().free_of(a) == 0 && r.spec_ledger().reserved_of(a) == 0,
    {
        Pallet {
            home,
            devices: HashMap::new(),
            orders: HashMap::new(),
            ledger: Ledger::new(),
        }
    }

    /// Put new spendable funds into `a`'s account on this domain's ledger.
    pub fn deposit(&mut self, a: AccountId, amount: u64) -> (r: Result<(), Error>)
        requires
            old(self).wf(),
        ensures
            final(self).wf(),
            final(self).spec_home() == old(self).spec_home(),
            old(self).inv() ==> final(self).inv(),
            final(self).devices_map() == old(self).devices_map(),
            final(self).orders_map() == old(self).orders_map(),
            r is Err ==> *final(self) == *old(self) && r == Err::<(), Error>(Error::LedgerFailure),
            r is Ok <==> old(self).spec_ledger().total_of(a) + amount <= u64::MAX,
            r is Ok ==> final(self).spec_ledger().free_of(a) == old(self).spec_ledger().free_of(a)
                + amount && final(self).spec_ledger().reserved_of(a)
                == old(self).spec_ledger().reserved_of(a),
            crate::ledger::untouched(old(self).spec_ledger(), final(self).spec_ledger(), a, a),
    {
        let r = match self.ledger.deposit(a, amount) {
            Ok(()) => Ok(()),
            Err(_) => Err(Error::LedgerFailure),
        };
        proof {
            assert(self.orders_map() == old(self).orders_map());
            assert(self.devices_map() == old(self).devices_map());
        }
        r
    }

    /// The spendable funds of `a` on this domain's ledger.
    pub fn free_balance(&self, a: AccountId) -> (r: u64)
        ensures
            r == self.spec_ledger().free_of(a),
    {
        self.ledger.free_balance(a)
    }

    /// The escrowed funds of `a` on this domain's ledger.
    pub fn reserved_balance(&self, a: AccountId) -> (r: u64)
        ensures
            r == self.spec_ledger().reserved_of(a),
    {
        self.ledger.reserved_balance(a)
    }

    /// Register the caller `id` as a device, or re-register it with a new
    /// profile.  Refused exactly when the device still has an active order.
    /// The new profile starts `Ready` if `onoff`, else `Off`.
    pub fn register(
        &mut self,
        id: AccountId,
        home_domain: DomainId,
        penalty: u64,
        work_duration: Moment,
        onoff: bool,
    ) -> (r: Result<Event, Error>)
        requires
            old(self).wf(),
        ensures
            final(self).wf(),
            final(self).spec_home() == old(self).spec_home(),
            old(self).inv() ==> final(self).inv(),
            final(self).orders_map() == old(self).orders_map(),
            final(self).spec_ledger() == old(self).spec_ledger(),
            r is Err ==> *final(self) == *old(self),
            r is Err <==> old(self).has_order(id),
            r is Err ==> r == Err::<Event, Error>(Error::DeviceExists),
            r is Ok ==> r == Ok::<Event, Error>(Event::NewDevice(id)) && final(self).devices_map()
                == old(self).devices_map().insert(
                id,
                DeviceProfile {
                    penalty,
                    work_duration,
                    home_domain,
                    state: if onoff {
                        DeviceState::Ready
                    } else {
                        DeviceState::Off
                    },
                },
            ),
    {
        if self.orders.contains_key(&id) {
            return Err(Error::DeviceExists);
        }
        let state = if onoff {
            DeviceState::Ready
        } else {
            DeviceState::Off
        };
        self.devices.insert(id, DeviceProfile { penalty, work_duration, home_domain, state });
        proof {
            assert(self.orders_map() == old(self).orders_map());
        }
        Ok(Event::NewDevice(id))
    }

    /// Whether `set_state` may move a device from `s` to the requested
    /// side: a device can only be switched between `Ready` and `Off` while
    /// it is on neither side of an order.
    pub open spec fn set_state_legal(s: DeviceState, onoff: bool) -> bool {
        if onoff {
            s == DeviceState::Off
        } else {
            s == DeviceState::Off || s == DeviceState::Ready
        }
    }

    /// Switch the caller's device between `Ready` (`onoff`) and `Off`.
    /// Refused `IllegalState` for every other transition, `NoDevice` if the
    /// caller has no device.
    pub fn set_state(&mut self, id: AccountId, onoff: bool) -> (r: Result<(), Error>)
        requires
            old(self).wf(),
        ensures
            final(self).wf(),
            final(self).spec_home() == old(self).spec_home(),
            old(self).inv() ==> final(self).inv(),
            final(self).orders_map() == old(self).orders_map(),
            final(self).spec_ledger() == old(self).spec_ledger(),
            r is Err ==> *final(self) == *old(self),
            r is Ok <==> old(self).has_device(id) && Self::set_state_legal(
                old(self).state_of(id),
                onoff,
            ),
            !old(self).has_device(id) ==> r == Err::<(), Error>(Error::NoDevice),
            old(self).has_device(id) && !Self::set_state_legal(old(self).state_of(id), onoff)
                ==> r == Err::<(), Error>(Error::IllegalState),
            r is Ok ==> final(self).devices_map() == old(self).devices_map().insert(
                id,
                DeviceProfile {
                    penalty: old(self).device_of(id).penalty,
                    work_duration: old(self).device_of(id).work_duration,
                    home_domain: old(self).device_of(id).home_domain,
                    state: if onoff {
                        DeviceState::Ready
                    } else {
                        DeviceState::Off
                    },
                },
            ),
    {
        let dev = match self.devices.get(&id) {
            Some(d) => *d,
            None => {
                return Err(Error::NoDevice);
            },
        };
        let legal = if onoff {
            dev.state == DeviceState::Off
        } else {
            dev.state == DeviceState::Off || dev.state == DeviceState::Ready
        };
        if !legal {
            return Err(Error::IllegalState);
        }
        let state = if onoff {
            DeviceState::Ready
        } else {
            DeviceState::Off
        };
        self.devices.insert(
            id,
            DeviceProfile {
                penalty: dev.penalty,
                work_duration: dev.work_duration,
                home_domain: dev.home_domain,
                state,
            },
        );
        proof {
            assert(self.orders_map() == old(self).orders_map());
        }
        Ok(())
    }

    /// The ledger account `who` was closed.  A device profile sitting `Off`
    /// is removed; any other profile is parked `Timewait` — terminal, so
    /// that an order in flight keeps its bookkeeping until settled, and the
    /// device must re-register to resume.
    pub fn on_killed_account(&mut self, who: AccountId)
        requires
            old(self).wf(),
        ensures
            final(self).wf(),
            final(self).spec_home() == old(self).spec_home(),
            old(self).inv() ==> final(self).inv(),
            final(self).orders_map() == old(self).orders_map(),
            final(self).spec_ledger() == old(self).spec_ledger(),
            !old(self).has_device(who) ==> *final(self) == *old(self),
            old(self).has_device(who) && old(self).state_of(who) == DeviceState::Off
                ==> final(self).devices_map() == old(self).devices_map().remove(who),
            old(self).has_device(who) && old(self).state_of(who) != DeviceState::Off
                ==> final(self).devices_map() == old(self).devices_map().insert(
                who,
                DeviceProfile {
                    penalty: old(self).device_of(who).penalty,
                    work_duration: old(self).device_of(who).work_duration,
                    home_domain: old(self).device_of(who).home_domain,
                    state: DeviceState::Timewait,
                },
            ),
    {
        let dev = match self.devices.get(&who) {
            Some(d) => *d,
            None => {
                return;
            },
        };
        if dev.state == DeviceState::Off {
            self.devices.remove(&who);
        } else {
            self.devices.insert(
                who,
                DeviceProfile {
                    penalty: dev.penalty,
                    work_duration: dev.work_duration,
                    home_domain: dev.home_domain,
                    state: DeviceState::Timewait,
                },
            );
        }
        proof {
            assert(self.orders_map() == old(self).orders_map());
        }
    }

    /// Why [`Pallet::order_received`] refuses a submission with these
    /// fields, or `None` when it goes through.  The guards run in this
    /// exact sequence.
    pub open spec fn received_err_v(
        self,
        client: AccountId,
        until: Moment,
        data: Seq<u8>,
        fee: u64,
        paraid: DomainId,
        device: AccountId,
        now: Moment,
        decision: Option<DeviceState>,
    ) -> Option<Error> {
        if now >= until {
            Some(Error::Overdue)
        } else if self.has_order(device) {
            Some(Error::IllegalState)
        } else if !self.has_device(device) {
            Some(Error::NoDevice)
        } else if self.state_of(device) != DeviceState::Ready {
            Some(Error::IllegalState)
        } else if until - now < self.device_of(device).work_duration {
            Some(Error::BadOrderDetails)
        } else if data.len() > 0xFFFF_FFFF {
            Some(Error::BadOrderDetails)
        } else if !(decision == Some(DeviceState::Busy) || decision == Some(
            DeviceState::Accepted,
        )) {
            Some(Error::IllegalState)
        } else if paraid == self.spec_home() {
            let l = self.spec_ledger();
            let penalty = self.device_of(device).penalty;
            if l.free_of(client) < fee {
                Some(Error::DeviceLowBail)
            } else if l.free_of(device) < penalty {
                Some(Error::LedgerFailure)
            } else if client == device && fee + penalty > l.free_of(device) {
                Some(Error::LedgerFailure)
            } else {
                None
            }
        } else {
            None
        }
    }

    /// Why [`Pallet::order_received`] refuses `order`, or `None` when it
    /// goes through.
    pub open spec fn received_err(
        self,
        order: Order,
        device: AccountId,
        now: Moment,
        decision: Option<DeviceState>,
    ) -> Option<Error> {
        self.received_err_v(
            order.client,
            order.until,
            order.data@,
            order.fee,
            order.paraid,
            device,
            now,
            decision,
        )
    }

    /// The exact state change of a successful submission with these
    /// fields: the order is stored under `device`, the device moves to
    /// `new_state`, and — when settlement is local — fee and penalty
    /// enter escrow.
    pub open spec fn received_ok_v(
        pre: Pallet,
        post: Pallet,
        client: AccountId,
        until: Moment,
        data: Seq<u8>,
        fee: u64,
        paraid: DomainId,
        device: AccountId,
        new_state: DeviceState,
    ) -> bool {
        &&& post.spec_home() == pre.spec_home()
        &&& post.devices_map() == pre.devices_map().insert(
            device,
            with_state(pre.device_of(device), new_state),
        )
        &&& post.orders_map().dom() == pre.orders_map().dom().insert(device)
        &&& post.order_of(device).client == client
        &&& post.order_of(device).until == until
        &&& post.order_of(device).data@ == data
        &&& post.order_of(device).fee == fee
        &&& post.order_of(device).paraid == paraid
        &&& forall|k: AccountId|
            k != device && pre.has_order(k) ==> #[trigger] post.order_of(k) == pre.order_of(k)
        &&& if paraid == pre.spec_home() {
            escrowed_at_submit(
                pre.spec_ledger(),
                post.spec_ledger(),
                client,
                device,
                fee,
                pre.device_of(device).penalty,
            )
        } else {
            post.spec_ledger() == pre.spec_ledger()
        }
    }

    /// The exact state change of a successful submission of `order`.
    pub open spec fn received_ok(
        pre: Pallet,
        post: Pallet,
        order: Order,
        device: AccountId,
        new_state: DeviceState,
    ) -> bool {
        Self::received_ok_v(
            pre,
            post,
            order.client,
            order.until,
            order.data@,
            order.fee,
            order.paraid,
            device,
            new_state,
        )
    }

    /// A submission reaching the domain that runs the device: from a local
    /// client (`order.paraid` equals this domain, and fee and penalty are
    /// escrowed here) or carried by a `NewOrder` message (`order.paraid` is
    /// the sending domain, whose ledger already holds the escrow).
    ///
    /// `decision` is the device's autonomous-accept policy for this order:
    /// `Busy` queues it, `Accepted` accepts it on the spot — sending
    /// `OrderAccept` back when the client is remote — and anything else
    /// declines it.
    pub fn order_received(
        &mut self,
        order: Order,
        device: AccountId,
        now: Moment,
        decision: Option<DeviceState>,
    ) -> (r: Result<Outcome, Error>)
        requires
            old(self).wf(),
        ensures
            final(self).wf(),
            final(self).spec_home() == old(self).spec_home(),
            old(self).inv() ==> final(self).inv(),
            r is Err ==> *final(self) == *old(self),
            r is Err <==> old(self).received_err(order, device, now, decision) is Some,
            r is Err ==> r == Err::<Outcome, Error>(
                old(self).received_err(order, device, now, decision).unwrap(),
            ),
            r is Ok ==> Self::received_ok(
                *old(self),
                *final(self),
                order,
                device,
                decided_state(decision),
            ),
            r is Ok ==> conserves(
                old(self).spec_ledger(),
                final(self).spec_ledger(),
                order.client,
                device,
            ),
            r is Ok ==> r.unwrap().event == Event::NewOrder(order.client, device),
            r is Ok ==> r.unwrap().send == if decided_state(decision) == DeviceState::Accepted
                && order.paraid != old(self).spec_home() {
                Some(
                    Envelope {
                        dest: order.paraid,
                        msg: XCMPMessage::OrderAccept(order.client, device),
                    },
                )
            } else {
                None::<Envelope>
            },
    {
        if now >= order.until {
            return Err(Error::Overdue);
        }
        if self.orders.contains_key(&device) {
            return Err(Error::IllegalState);
        }
        let dev = match self.devices.get(&device) {
            Some(d) => *d,
            None => {
                return Err(Error::NoDevice);
            },
        };
        if dev.state != DeviceState::Ready {
            return Err(Error::IllegalState);
        }
        if order.until - now < dev.work_duration {
            return Err(Error::BadOrderDetails);
        }
        if order.data.len() > 0xFFFF_FFFF {
            return Err(Error::BadOrderDetails);
        }
        let new_state = match decision {
            Some(DeviceState::Busy) => DeviceState::Busy,
            Some(DeviceState::Accepted) => DeviceState::Accepted,
            _ => {
                return Err(Error::IllegalState);
            },
        };
        if order.paraid == self.home {
            let free_c = self.ledger.free_balance(order.client);
            if free_c < order.fee {
                return Err(Error::DeviceLowBail);
            }
            let free_d = self.ledger.free_balance(device);
            if free_d < dev.penalty {
                return Err(Error::LedgerFailure);
            }
            if order.client == device {
                if (order.fee as u128) + (dev.penalty as u128) > (free_d as u128) {
                    return Err(Error::LedgerFailure);
                }
            }
            let leg = self.ledger.reserve(device, dev.penalty);
            assert(leg is Ok);
            let leg2 = self.ledger.reserve(order.client, order.fee);
            assert(leg2 is Ok);
        }
        let client = order.client;
        let paraid = order.paraid;
        self.orders.insert(device, order);
        self.devices.insert(
            device,
            DeviceProfile {
                penalty: dev.penalty,
                work_duration: dev.work_duration,
                home_domain: dev.home_domain,
                state: new_state,
            },
        );
        let send = if new_state == DeviceState::Accepted && paraid != self.home {
            Some(Envelope { dest: paraid, msg: XCMPMessage::OrderAccept(client, device) })
        } else {
            None
        };
        Ok(Outcome { event: Event::NewOrder(client, device), send })
    }

    /// Why [`Pallet::order`] refuses a submission by `who`, or `None` when
    /// it goes through.
    pub open spec fn submit_err(
        self,
        who: AccountId,
        base: OrderBase,
        now: Moment,
        decision: Option<DeviceState>,
    ) -> Option<Error> {
        let device = base.device;
        if now >= base.until {
            Some(Error::Overdue)
        } else if self.has_order(device) {
            Some(Error::IllegalState)
        } else if !self.has_device(device) {
            Some(Error::NoDevice)
        } else if self.device_of(device).home_domain == self.spec_home() {
            self.received_err(base.spec_convert(who, self.spec_home()), device, now, decision)
        } else if self.state_of(device) != DeviceState::Ready {
            Some(Error::IllegalState)
        } else if base.until - now < self.device_of(device).work_duration {
            Some(Error::BadOrderDetails)
        } else if base.data@.len() > 0xFFFF_FFFF {
            Some(Error::BadOrderDetails)
        } else if self.spec_ledger().free_of(who) < base.fee {
            Some(Error::DeviceLowBail)
        } else if self.spec_ledger().free_of(device) < self.device_of(device).penalty {
            Some(Error::LedgerFailure)
        } else if who == device && base.fee + self.device_of(device).penalty
            > self.spec_ledger().free_of(device) {
            Some(Error::LedgerFailure)
        } else {
            None
        }
    }

    /// A client of this domain submits the order described by `order`
    /// (which names the device) at time `now`.
    ///
    /// The client's fee and the device's penalty are escrowed on this
    /// ledger.  When the device is registered here, `decision` — the
    /// device's autonomous-accept policy — picks `Busy` or `Accepted` and
    /// the order settles locally.  When the device's home is another
    /// domain, the device proxy here turns `Busy` and a `NewOrder` message
    /// carries the submission to that domain.
    pub fn order(
        &mut self,
        who: AccountId,
        order: OrderBase,
        now: Moment,
        decision: Option<DeviceState>,
    ) -> (r: Result<Outcome, Error>)
        requires
            old(self).wf(),
        ensures
            final(self).wf(),
            final(self).spec_home() == old(self).spec_home(),
            old(self).inv() ==> final(self).inv(),
            r is Err ==> *final(self) == *old(self),
            r is Err <==> old(self).submit_err(who, order, now, decision) is Some,
            r is Err ==> r == Err::<Outcome, Error>(
                old(self).submit_err(who, order, now, decision).unwrap(),
            ),
            r is Ok ==> Self::received_ok(
                *old(self),
                *final(self),
                order.spec_convert(who, old(self).spec_home()),
                order.device,
                if old(self).device_of(order.device).home_domain == old(self).spec_home() {
                    decided_state(decision)
                } else {
                    DeviceState::Busy
                },
            ),
            r is Ok ==> conserves(
                old(self).spec_ledger(),
                final(self).spec_ledger(),
                who,
                order.device,
            ),
            r is Ok ==> r.unwrap().event == Event::NewOrder(who, order.device),
            r is Ok && old(self).device_of(order.device).home_domain == old(self).spec_home()
                ==> r.unwrap().send is None,
            r is Ok && old(self).device_of(order.device).home_domain != old(self).spec_home() ==> {
                &&& r.unwrap().send matches Some(env)
                &&& env.dest == old(self).device_of(order.device).home_domain
                &&& env.msg matches XCMPMessage::NewOrder(c, b)
                &&& c == who
                &&& b.until == order.until
                &&& b.data@ == order.data@
                &&& b.fee == order.fee
                &&& b.device == order.device
            },
    {
        let device = order.device;
        if now >= order.until {
            return Err(Error::Overdue);
        }
        if self.orders.contains_key(&device) {
            return Err(Error::IllegalState);
        }
        let dev = match self.devices.get(&device) {
            Some(d) => *d,
            None => {
                return Err(Error::NoDevice);
            },
        };
        if dev.home_domain == self.home {
            let ord = order.convert(who, self.home);
            return self.order_received(ord, device, now, decision);
        }
        if dev.state != DeviceState::Ready {
            return Err(Error::IllegalState);
        }
        if order.until - now < dev.work_duration {
            return Err(Error::BadOrderDetails);
        }
        if order.data.len() > 0xFFFF_FFFF {
            return Err(Error::BadOrderDetails);
        }
        let free_c = self.ledger.free_balance(who);
        if free_c < order.fee {
            return Err(Error::DeviceLowBail);
        }
        let free_d = self.ledger.free_balance(device);
        if free_d < dev.penalty {
            return Err(Error::LedgerFailure);
        }
        if who == device {
            if (order.fee as u128) + (dev.penalty as u128) > (free_d as u128) {
                return Err(Error::LedgerFailure);
            }
        }
        let leg = self.ledger.reserve(device, dev.penalty);
        assert(leg is Ok);
        let leg2 = self.ledger.reserve(who, order.fee);
        assert(leg2 is Ok);
        let until = order.until;
        let fee = order.fee;
        let data2 = copy_bytes(&order.data);
        let ord = order.convert(who, self.home);
        self.orders.insert(device, ord);
        self.devices.insert(
            device,
            DeviceProfile {
                penalty: dev.penalty,
                work_duration: dev.work_duration,
                home_domain: dev.home_domain,
                state: DeviceState::Busy,
            },
        );
        let msg = XCMPMessage::NewOrder(who, OrderBase { until, data: data2, fee, device });
        Ok(
            Outcome {
                event: Event::NewOrder(who, device),
                send: Some(Envelope { dest: dev.home_domain, msg }),
            },
        )
    }
    /// The exact state change of settling and removing the order of
    /// `device`: the order leaves the book, the device moves to
    /// `new_state`, and — when settlement is local — escrow moves by the
    /// settlement rule, the fee following the outcome and the penalty
    /// following the deadline.
    pub open spec fn finished_ok(
        pre: Pallet,
        post: Pallet,
        device: AccountId,
        new_state: DeviceState,
        fee_to_device: bool,
        now: Moment,
    ) -> bool {
        let ord = pre.order_of(device);
        &&& post.spec_home() == pre.spec_home()
        &&& post.devices_map() == pre.devices_map().insert(
            device,
            with_state(pre.device_of(device), new_state),
        )
        &&& post.orders_map() == pre.orders_map().remove(device)
        &&& if ord.paraid == pre.spec_home() {
            crate::ledger::settled(
                pre.spec_ledger(),
                post.spec_ledger(),
                ord.client,
                device,
                ord.fee,
                pre.device_of(device).penalty,
                fee_to_device,
                late_settlement(now, ord.until),
            )
        } else {
            post.spec_ledger() == pre.spec_ledger()
        }
    }

    /// Whether the local settlement of `device`'s order would be refused
    /// by the ledger (a transfer leg without funds, or an overflow).
    pub open spec fn settle_refused(
        self,
        device: AccountId,
        fee_to_device: bool,
        now: Moment,
    ) -> bool {
        let ord = self.order_of(device);
        ord.paraid == self.spec_home() && !crate::ledger::settle_ok(
            self.spec_ledger(),
            ord.client,
            device,
            ord.fee,
            self.device_of(device).penalty,
            fee_to_device,
            late_settlement(now, ord.until),
        )
    }

    /// Settle and remove the active order of `device`, leaving the device
    /// in `new_state`.  Local settlement moves escrow; a remote client is
    /// told by an `OrderDone` or `OrderReject` message carrying `resume`.
    fn finish_order(
        &mut self,
        device: AccountId,
        dev: DeviceProfile,
        new_state: DeviceState,
        now: Moment,
        fee_to_device: bool,
        resume: bool,
    ) -> (r: Result<Option<Envelope>, Error>)
        requires
            old(self).wf(),
            old(self).has_order(device),
            old(self).has_device(device),
            dev == old(self).device_of(device),
        ensures
            final(self).wf(),
            r is Err ==> *final(self) == *old(self),
            r is Err <==> old(self).settle_refused(device, fee_to_device, now),
            r is Err ==> r == Err::<Option<Envelope>, Error>(Error::LedgerFailure),
            r is Ok ==> Self::finished_ok(*old(self), *final(self), device, new_state, fee_to_device, now),
            r is Ok ==> conserves(
                old(self).spec_ledger(),
                final(self).spec_ledger(),
                old(self).order_of(device).client,
                device,
            ),
            r is Ok ==> r.unwrap() == if old(self).order_of(device).paraid != old(self).spec_home() {
                Some(
                    Envelope {
                        dest: old(self).order_of(device).paraid,
                        msg: if fee_to_device {
                            XCMPMessage::OrderDone(old(self).order_of(device).client, device, resume)
                        } else {
                            XCMPMessage::OrderReject(
                                old(self).order_of(device).client,
                                device,
                                resume,
                            )
                        },
                    },
                )
            } else {
                None::<Envelope>
            },
    {
        let o = self.orders.get(&device).unwrap();
        let ord_until = o.until;
        let ord_client = o.client;
        let ord_fee = o.fee;
        let ord_paraid = o.paraid;
        let profile = DeviceProfile {
            penalty: dev.penalty,
            work_duration: dev.work_duration,
            home_domain: dev.home_domain,
            state: new_state,
        };
        if ord_paraid == self.home {
            let late = now >= ord_until;
            match self.ledger.settle(ord_client, device, ord_fee, dev.penalty, fee_to_device, late)
            {
                Ok(()) => {},
                Err(_) => {
                    return Err(Error::LedgerFailure);
                },
            }
            self.orders.remove(&device);
            self.devices.insert(device, profile);
            Ok(None)
        } else {
            self.orders.remove(&device);
            self.devices.insert(device, profile);
            let msg = if fee_to_device {
                XCMPMessage::OrderDone(ord_client, device, resume)
            } else {
                XCMPMessage::OrderReject(ord_client, device, resume)
            };
            Ok(Some(Envelope { dest: ord_paraid, msg }))
        }
    }

    /// Why [`Pallet::accept`] refuses, or `None` when it goes through.
    pub open spec fn accept_err(self, id: AccountId, reject: bool, now: Moment) -> Option<Error> {
        if !self.has_device(id) {
            Some(Error::NoDevice)
        } else if reject {
            if !(self.state_of(id) == DeviceState::Busy || self.state_of(id)
                == DeviceState::Accepted) {
                Some(Error::IllegalState)
            } else if self.has_order(id) && self.settle_refused(id, false, now) {
                Some(Error::LedgerFailure)
            } else {
                None
            }
        } else {
            if self.state_of(id) != DeviceState::Busy {
                Some(Error::IllegalState)
            } else if !self.has_order(id) {
                Some(Error::NoOrder)
            } else if now >= self.order_of(id).until {
                Some(Error::Overdue)
            } else {
                None
            }
        }
    }

    /// The device `id` answers its order: with `reject` false it accepts
    /// (`Busy` to `Accepted`, refused `Overdue` at or past the deadline),
    /// with `reject` true it rejects, settling per the deadline rule and
    /// returning to `Ready` or `Off` as `onoff` says.  A remote client is
    /// told by `OrderAccept` or `OrderReject`.
    ///
    /// A reject that finds no stored order still switches the device; its
    /// event then names the device on both sides.
    pub fn accept(&mut self, id: AccountId, reject: bool, onoff: bool, now: Moment) -> (r:
        Result<Outcome, Error>)
        requires
            old(self).wf(),
        ensures
            final(self).wf(),
            final(self).spec_home() == old(self).spec_home(),
            old(self).inv() ==> final(self).inv(),
            r is Err ==> *final(self) == *old(self),
            r is Err <==> old(self).accept_err(id, reject, now) is Some,
            r is Err ==> r == Err::<Outcome, Error>(old(self).accept_err(id, reject, now).unwrap()),
            r is Ok && reject && old(self).has_order(id) ==> Self::finished_ok(
                *old(self),
                *final(self),
                id,
                if onoff {
                    DeviceState::Ready
                } else {
                    DeviceState::Off
                },
                false,
                now,
            ) && conserves(
                old(self).spec_ledger(),
                final(self).spec_ledger(),
                old(self).order_of(id).client,
                id,
            ) && r.unwrap().event == Event::Reject(old(self).order_of(id).client, id)
                && r.unwrap().send == (if old(self).order_of(id).paraid != old(self).spec_home() {
                Some(
                    Envelope {
                        dest: old(self).order_of(id).paraid,
                        msg: XCMPMessage::OrderReject(old(self).order_of(id).client, id, onoff),
                    },
                )
            } else {
                None::<Envelope>
            }),
            r is Ok && reject && !old(self).has_order(id) ==> final(self).devices_map()
                == old(self).devices_map().insert(
                id,
                with_state(
                    old(self).device_of(id),
                    if onoff {
                        DeviceState::Ready
                    } else {
                        DeviceState::Off
                    },
                ),
            ) && final(self).orders_map() == old(self).orders_map() && final(self).spec_ledger()
                == old(self).spec_ledger() && r.unwrap() == (Outcome {
                event: Event::Reject(id, id),
                send: None,
            }),
            r is Ok && !reject ==> final(self).devices_map() == old(self).devices_map().insert(
                id,
                with_state(old(self).device_of(id), DeviceState::Accepted),
            ) && final(self).orders_map() == old(self).orders_map() && final(self).spec_ledger()
                == old(self).spec_ledger() && r.unwrap().event == Event::Accept(
                old(self).order_of(id).client,
                id,
            ) && r.unwrap().send == (if old(self).order_of(id).paraid != old(self).spec_home() {
                Some(
                    Envelope {
                        dest: old(self).order_of(id).paraid,
                        msg: XCMPMessage::OrderAccept(old(self).order_of(id).client, id),
                    },
                )
            } else {
                None::<Envelope>
            }),
    {
        let dev = match self.devices.get(&id) {
            Some(d) => *d,
            None => {
                return Err(Error::NoDevice);
            },
        };
        if reject {
            if !(dev.state == DeviceState::Busy || dev.state == DeviceState::Accepted) {
                return Err(Error::IllegalState);
            }
            let new_state = if onoff {
                DeviceState::Ready
            } else {
                DeviceState::Off
            };
            if self.orders.contains_key(&id) {
                let client = self.orders.get(&id).unwrap().client;
                let send = match self.finish_order(id, dev, new_state, now, false, onoff) {
                    Ok(s) => s,
                    Err(e) => {
                        return Err(e);
                    },
                };
                return Ok(Outcome { event: Event::Reject(client, id), send });
            } else {
                self.devices.insert(
                    id,
                    DeviceProfile {
                        penalty: dev.penalty,
                        work_duration: dev.work_duration,
                        home_domain: dev.home_domain,
                        state: new_state,
                    },
                );
                return Ok(Outcome { event: Event::Reject(id, id), send: None });
            }
        }
        if dev.state != DeviceState::Busy {
            return Err(Error::IllegalState);
        }
        if !self.orders.contains_key(&id) {
            return Err(Error::NoOrder);
        }
        let o = self.orders.get(&id).unwrap();
        let client = o.client;
        let paraid = o.paraid;
        let until = o.until;
        if now >= until {
            return Err(Error::Overdue);
        }
        self.devices.insert(
            id,
            DeviceProfile {
                penalty: dev.penalty,
                work_duration: dev.work_duration,
                home_domain: dev.home_domain,
                state: DeviceState::Accepted,
            },
        );
        let send = if paraid != self.home {
            Some(Envelope { dest: paraid, msg: XCMPMessage::OrderAccept(client, id) })
        } else {
            None
        };
        Ok(Outcome { event: Event::Accept(client, id), send })
    }

    /// Why [`Pallet::done`] refuses, or `None` when it goes through.
    pub open spec fn done_err(self, id: AccountId, now: Moment) -> Option<Error> {
        if !self.has_device(id) {
            Some(Error::NoDevice)
        } else if self.state_of(id) != DeviceState::Accepted {
            Some(Error::IllegalState)
        } else if !self.has_order(id) {
            Some(Error::NoOrder)
        } else if self.settle_refused(id, true, now) {
            Some(Error::LedgerFailure)
        } else {
            None
        }
    }

    /// The device `id` reports its accepted order completed: the fee is
    /// owed to the device; the penalty follows the deadline rule.  The
    /// device returns to `Ready` or `Off` as `onoff` says, and a remote
    /// client is told by `OrderDone`.
    pub fn done(&mut self, id: AccountId, onoff: bool, now: Moment) -> (r: Result<Outcome, Error>)
        requires
            old(self).wf(),
        ensures
            final(self).wf(),
            final(self).spec_home() == old(self).spec_home(),
            old(self).inv() ==> final(self).inv(),
            r is Err ==> *final(self) == *old(self),
            r is Err <==> old(self).done_err(id, now) is Some,
            r is Err ==> r == Err::<Outcome, Error>(old(self).done_err(id, now).unwrap()),
            r is Ok ==> Self::finished_ok(
                *old(self),
                *final(self),
                id,
                if onoff {
                    DeviceState::Ready
                } else {
                    DeviceState::Off
                },
                true,
                now,
            ) && conserves(
                old(self).spec_ledger(),
                final(self).spec_ledger(),
                old(self).order_of(id).client,
                id,
            ) && r.unwrap().event == Event::Done(old(self).order_of(id).client, id)
                && r.unwrap().send == (if old(self).order_of(id).paraid != old(self).spec_home() {
                Some(
                    Envelope {
                        dest: old(self).order_of(id).paraid,
                        msg: XCMPMessage::OrderDone(old(self).order_of(id).client, id, onoff),
                    },
                )
            } else {
                None::<Envelope>
            }),
    {
        let dev = match self.devices.get(&id) {
            Some(d) => *d,
            None => {
                return Err(Error::NoDevice);
            },
        };
        if dev.state != DeviceState::Accepted {
            return Err(Error::IllegalState);
        }
        if !self.orders.contains_key(&id) {
            return Err(Error::NoOrder);
        }
        let client = self.orders.get(&id).unwrap().client;
        let new_state = if onoff {
            DeviceState::Ready
        } else {
            DeviceState::Off
        };
        let send = match self.finish_order(id, dev, new_state, now, true, onoff) {
            Ok(s) => s,
            Err(e) => {
                return Err(e);
            },
        };
        Ok(Outcome { event: Event::Done(client, id), send })
    }

    /// Why [`Pallet::cancel`] refuses, or `None` when it goes through.
    pub open spec fn cancel_err(self, who: AccountId, device: AccountId, now: Moment)
        -> Option<Error> {
        if !self.has_order(device) {
            Some(Error::NoOrder)
        } else if now < self.order_of(device).until || self.order_of(device).client != who {
            Some(Error::Prohibited)
        } else if !self.has_device(device) {
            Some(Error::NoDevice)
        } else if !order_holding_state(self.state_of(device)) {
            Some(Error::IllegalState)
        } else if self.settle_refused(device, false, now) {
            Some(Error::LedgerFailure)
        } else {
            None
        }
    }

    /// The client `who` cancels the order it holds against `device`: legal
    /// only once the order is overdue, so the settlement is always late
    /// and the penalty goes to the client, while the fee returns.  The
    /// device turns `Off` (a `Timewait` device stays parked).
    pub fn cancel(&mut self, who: AccountId, device: AccountId, now: Moment) -> (r:
        Result<Outcome, Error>)
        requires
            old(self).wf(),
        ensures
            final(self).wf(),
            final(self).spec_home() == old(self).spec_home(),
            old(self).inv() ==> final(self).inv(),
            r is Err ==> *final(self) == *old(self),
            r is Err <==> old(self).cancel_err(who, device, now) is Some,
            r is Err ==> r == Err::<Outcome, Error>(old(self).cancel_err(who, device, now).unwrap()),
            r is Ok ==> Self::finished_ok(
                *old(self),
                *final(self),
                device,
                resumed_state(old(self).state_of(device), false),
                false,
                now,
            ) && conserves(old(self).spec_ledger(), final(self).spec_ledger(), who, device)
                && r.unwrap().event == Event::Reject(who, device) && r.unwrap().send == (if old(self).order_of(device).paraid != old(self).spec_home() {
                Some(
                    Envelope {
                        dest: old(self).order_of(device).paraid,
                        msg: XCMPMessage::OrderReject(who, device, false),
                    },
                )
            } else {
                None::<Envelope>
            }),
    {
        if !self.orders.contains_key(&device) {
            return Err(Error::NoOrder);
        }
        let o = self.orders.get(&device).unwrap();
        let client = o.client;
        let until = o.until;
        if now < until || client != who {
            return Err(Error::Prohibited);
        }
        let dev = match self.devices.get(&device) {
            Some(d) => *d,
            None => {
                return Err(Error::NoDevice);
            },
        };
        if !(dev.state == DeviceState::Busy || dev.state == DeviceState::Accepted || dev.state
            == DeviceState::Timewait) {
            return Err(Error::IllegalState);
        }
        let new_state = if dev.state == DeviceState::Timewait {
            DeviceState::Timewait
        } else {
            DeviceState::Off
        };
        let send = match self.finish_order(device, dev, new_state, now, false, false) {
            Ok(s) => s,
            Err(e) => {
                return Err(e);
            },
        };
        Ok(Outcome { event: Event::Reject(who, device), send })
    }
    /// Why a message-driven settlement of `device`'s order would be
    /// refused, or `None` when it goes through.
    pub open spec fn settle_msg_err(self, device: AccountId, fee_to_device: bool, now: Moment)
        -> Option<Error> {
        if !self.has_order(device) {
            Some(Error::NoOrder)
        } else if !self.has_device(device) {
            Some(Error::NoDevice)
        } else if !order_holding_state(self.state_of(device)) {
            Some(Error::IllegalState)
        } else if self.settle_refused(device, fee_to_device, now) {
            Some(Error::LedgerFailure)
        } else {
            None
        }
    }

    /// Why [`Pallet::apply_message`] refuses, or `None` when it goes
    /// through.
    pub open spec fn message_err(
        self,
        sender: DomainId,
        msg: XCMPMessage,
        now: Moment,
        decision: Option<DeviceState>,
    ) -> Option<Error> {
        match msg {
            XCMPMessage::NewOrder(client, base) => self.received_err(
                base.spec_convert(client, sender),
                base.device,
                now,
                decision,
            ),
            XCMPMessage::OrderAccept(client, device) => if !self.has_order(device) {
                Some(Error::NoOrder)
            } else if !self.has_device(device) {
                Some(Error::NoDevice)
            } else if self.state_of(device) != DeviceState::Busy {
                Some(Error::IllegalState)
            } else {
                None
            },
            XCMPMessage::OrderReject(client, device, resume) => self.settle_msg_err(
                device,
                false,
                now,
            ),
            XCMPMessage::OrderDone(client, device, resume) => self.settle_msg_err(
                device,
                true,
                now,
            ),
        }
    }

    /// Apply one decoded inbound message from `sender`, as if the remote
    /// party had invoked the corresponding local transition; the remote
    /// domain is trusted to have enforced its own authority checks.
    ///
    /// `NewOrder` is handled as a submission stamped with the sender's
    /// domain, whose ledger already holds the escrow; `decision` is the
    /// local device's autonomous-accept policy for it.  `OrderAccept`
    /// moves the busy device proxy to `Accepted`.  `OrderReject` and
    /// `OrderDone` settle and remove the order by the deadline rule.  A
    /// refused message mutates nothing; the caller drops it.
    pub fn apply_message(
        &mut self,
        sender: DomainId,
        msg: XCMPMessage,
        now: Moment,
        decision: Option<DeviceState>,
    ) -> (r: Result<Outcome, Error>)
        requires
            old(self).wf(),
        ensures
            final(self).wf(),
            final(self).spec_home() == old(self).spec_home(),
            old(self).inv() ==> final(self).inv(),
            r is Err ==> *final(self) == *old(self),
            r is Err <==> old(self).message_err(sender, msg, now, decision) is Some,
            r is Err ==> r == Err::<Outcome, Error>(
                old(self).message_err(sender, msg, now, decision).unwrap(),
            ),
            msg matches XCMPMessage::NewOrder(client, base) ==> r is Ok ==> Self::received_ok(
                *old(self),
                *final(self),
                base.spec_convert(client, sender),
                base.device,
                decided_state(decision),
            ) && r.unwrap().event == Event::NewOrder(client, base.device),
            msg matches XCMPMessage::OrderAccept(client, device) ==> r is Ok
                ==> final(self).devices_map() == old(self).devices_map().insert(
                device,
                with_state(old(self).device_of(device), DeviceState::Accepted),
            ) && final(self).orders_map() == old(self).orders_map() && final(self).spec_ledger()
                == old(self).spec_ledger() && r.unwrap() == (Outcome {
                event: Event::Accept(client, device),
                send: None,
            }),
            msg matches XCMPMessage::OrderReject(client, device, resume) ==> r is Ok
                ==> Self::finished_ok(
                *old(self),
                *final(self),
                device,
                resumed_state(old(self).state_of(device), resume),
                false,
                now,
            ) && conserves(
                old(self).spec_ledger(),
                final(self).spec_ledger(),
                old(self).order_of(device).client,
                device,
            ) && r.unwrap().event == Event::Reject(client, device),
            msg matches XCMPMessage::OrderDone(client, device, resume) ==> r is Ok
                ==> Self::finished_ok(
                *old(self),
                *final(self),
                device,
                resumed_state(old(self).state_of(device), resume),
                true,
                now,
            ) && conserves(
                old(self).spec_ledger(),
                final(self).spec_ledger(),
                old(self).order_of(device).client,
                device,
            ) && r.unwrap().event == Event::Done(client, device),
    {
        match msg {
            XCMPMessage::NewOrder(client, base) => {
                let device = base.device;
                let ord = base.convert(client, sender);
                self.order_received(ord, device, now, decision)
            },
            XCMPMessage::OrderAccept(client, device) => {
                if !self.orders.contains_key(&device) {
                    return Err(Error::NoOrder);
                }
                let dev = match self.devices.get(&device) {
                    Some(d) => *d,
                    None => {
                        return Err(Error::NoDevice);
                    },
                };
                if dev.state != DeviceState::Busy {
                    return Err(Error::IllegalState);
                }
                self.devices.insert(
                    device,
                    DeviceProfile {
                        penalty: dev.penalty,
                        work_duration: dev.work_duration,
                        home_domain: dev.home_domain,
                        state: DeviceState::Accepted,
                    },
                );
                Ok(Outcome { event: Event::Accept(client, device), send: None })
            },
            XCMPMessage::OrderReject(client, device, resume) => {
                let send = match self.settle_from_message(device, false, resume, now) {
                    Ok(s) => s,
                    Err(e) => {
                        return Err(e);
                    },
                };
                Ok(Outcome { event: Event::Reject(client, device), send })
            },
            XCMPMessage::OrderDone(client, device, resume) => {
                let send = match self.settle_from_message(device, true, resume, now) {
                    Ok(s) => s,
                    Err(e) => {
                        return Err(e);
                    },
                };
                Ok(Outcome { event: Event::Done(client, device), send })
            },
        }
    }

    /// The shared body of the `OrderReject` and `OrderDone` message
    /// handlers: check, then settle and remove the order.
    fn settle_from_message(
        &mut self,
        device: AccountId,
        fee_to_device: bool,
        resume: bool,
        now: Moment,
    ) -> (r: Result<Option<Envelope>, Error>)
        requires
            old(self).wf(),
        ensures
            final(self).wf(),
            final(self).spec_home() == old(self).spec_home(),
            old(self).inv() ==> final(self).inv(),
            r is Err ==> *final(self) == *old(self),
            r is Err <==> old(self).settle_msg_err(device, fee_to_device, now) is Some,
            r is Err ==> r == Err::<Option<Envelope>, Error>(
                old(self).settle_msg_err(device, fee_to_device, now).unwrap(),
            ),
            r is Ok ==> Self::finished_ok(
                *old(self),
                *final(self),
                device,
                resumed_state(old(self).state_of(device), resume),
                fee_to_device,
                now,
            ) && conserves(
                old(self).spec_ledger(),
                final(self).spec_ledger(),
                old(self).order_of(device).client,
                device,
            ),
            r is Ok ==> r.unwrap() == (if old(self).order_of(device).paraid
                != old(self).spec_home() {
                Some(
                    Envelope {
                        dest: old(self).order_of(device).paraid,
                        msg: if fee_to_device {
                            XCMPMessage::OrderDone(old(self).order_of(device).client, device, resume)
                        } else {
                            XCMPMessage::OrderReject(
                                old(self).order_of(device).client,
                                device,
                                resume,
                            )
                        },
                    },
                )
            } else {
                None::<Envelope>
            }),
    {
        if !self.orders.contains_key(&device) {
            return Err(Error::NoOrder);
        }
        let dev = match self.devices.get(&device) {
            Some(d) => *d,
            None => {
                return Err(Error::NoDevice);
            },
        };
        if !(dev.state == DeviceState::Busy || dev.state == DeviceState::Accepted || dev.state
            == DeviceState::Timewait) {
            return Err(Error::IllegalState);
        }
        let new_state = if dev.state == DeviceState::Timewait {
            DeviceState::Timewait
        } else if resume {
            DeviceState::Ready
        } else {
            DeviceState::Off
        };
        self.finish_order(device, dev, new_state, now, fee_to_device, resume)
    }
    /// The state-machine invariant tying the order book to the registry:
    /// every active order sits with a registered device that is working it
    /// (`Busy`), has accepted it (`Accepted`), or was parked `Timewait` by
    /// an account closure mid-order; and every device that is `Busy` or
    /// `Accepted` has its order.  Every operation preserves it.
    pub open spec fn inv(self) -> bool {
        &&& forall|d: AccountId| #[trigger]
            self.orders_map().contains_key(d) ==> self.devices_map().contains_key(d)
                && order_holding_state(self.devices_map()[d].state)
        &&& forall|d: AccountId|
            self.devices_map().contains_key(d) && ((#[trigger] self.devices_map()[d]).state
                == DeviceState::Busy || self.devices_map()[d].state == DeviceState::Accepted)
                ==> self.orders_map().contains_key(d)
    }

    /// At most one active order per device: a submission against a device
    /// that already holds an order is refused `IllegalState`, whatever the
    /// new order's parameters — except an already-dead deadline, which is
    /// refused `Overdue` first.
    pub proof fn lemma_one_order_per_device(
        self,
        who: AccountId,
        base: OrderBase,
        now: Moment,
        decision: Option<DeviceState>,
    )
        requires
            now < base.until,
            self.has_order(base.device),
        ensures
            self.submit_err(who, base, now, decision) == Some(Error::IllegalState),
    {
    }

    /// Handle one raw inbound message from `sender`: decode it, then
    /// apply it.  Undecodable bytes are refused `Undecodable`; any
    /// refusal leaves the engine exactly as it was, so a lost, malformed
    /// or rejected message never partially applies.
    pub fn handle_message(
        &mut self,
        sender: DomainId,
        bytes: &Vec<u8>,
        now: Moment,
        decision: Option<DeviceState>,
    ) -> (r: Result<Outcome, Error>)
        requires
            old(self).wf(),
        ensures
            final(self).wf(),
            final(self).spec_home() == old(self).spec_home(),
            old(self).inv() ==> final(self).inv(),
            r is Err ==> *final(self) == *old(self),
            crate::wire::spec_decode(bytes@) is None ==> r == Err::<Outcome, Error>(
                Error::Undecodable,
            ),
            crate::wire::spec_decode(bytes@) matches Some(
                crate::wire::MessageView::NewOrder { client, until, data, fee, device },
            ) ==> {
                &&& r is Err <==> old(self).received_err_v(
                    client,
                    until,
                    data,
                    fee,
                    sender,
                    device,
                    now,
                    decision,
                ) is Some
                &&& r is Ok ==> Self::received_ok_v(
                    *old(self),
                    *final(self),
                    client,
                    until,
                    data,
                    fee,
                    sender,
                    device,
                    decided_state(decision),
                ) && r.unwrap().event == Event::NewOrder(client, device)
            },
            crate::wire::spec_decode(bytes@) matches Some(
                crate::wire::MessageView::OrderAccept { client, device },
            ) ==> r is Ok ==> final(self).devices_map() == old(self).devices_map().insert(
                device,
                with_state(old(self).device_of(device), DeviceState::Accepted),
            ) && final(self).orders_map() == old(self).orders_map() && final(self).spec_ledger()
                == old(self).spec_ledger() && r.unwrap() == (Outcome {
                event: Event::Accept(client, device),
                send: None,
            }),
            crate::wire::spec_decode(bytes@) matches Some(
                crate::wire::MessageView::OrderReject { client, device, resume },
            ) ==> {
                &&& r is Err <==> old(self).settle_msg_err(device, false, now) is Some
                &&& r is Ok ==> Self::finished_ok(
                    *old(self),
                    *final(self),
                    device,
                    resumed_state(old(self).state_of(device), resume),
                    false,
                    now,
                ) && r.unwrap().event == Event::Reject(client, device)
            },
            crate::wire::spec_decode(bytes@) matches Some(
                crate::wire::MessageView::OrderDone { client, device, resume },
            ) ==> {
                &&& r is Err <==> old(self).settle_msg_err(device, true, now) is Some
                &&& r is Ok ==> Self::finished_ok(
                    *old(self),
                    *final(self),
                    device,
                    resumed_state(old(self).state_of(device), resume),
                    true,
                    now,
                ) && r.unwrap().event == Event::Done(client, device)
            },
    {
        let msg = match crate::wire::decode_message(bytes) {
            Some(m) => m,
            None => {
                return Err(Error::Undecodable);
            },
        };
        self.apply_message(sender, msg, now, decision)
    }

    /// The profile of `d`, if it is registered.
    pub fn devices(&self, d: AccountId) -> (r: Option<DeviceProfile>)
        ensures
            r is Some <==> self.has_device(d),
            r matches Some(p) ==> p == self.device_of(d),
    {
        match self.devices.get(&d) {
            Some(p) => Some(*p),
            None => None,
        }
    }

    /// The active order of `d`, if there is one.
    pub fn orders(&self, d: AccountId) -> (r: Option<&Order>)
        ensures
            r is Some <==> self.has_order(d),
            r matches Some(o) ==> *o == self.order_of(d),
    {
        self.orders.get(&d)
    }
}

/// A fresh vector holding the same bytes.
fn copy_bytes(v: &Vec<u8>) -> (r: Vec<u8>)
    ensures
        r@ == v@,
{
    let mut r: Vec<u8> = Vec::new();
    let mut i: usize = 0;
    while i < v.len()
        invariant
            i <= v.len(),
            r@ == v@.subrange(0, i as int),
        decreases v.len() - i,
    {
        r.push(v[i]);
        i += 1;
        proof {
            assert(r@ =~= v@.subrange(0, i as int));
        }
    }
    proof {
        assert(r@ =~= v@);
    }
    r
}

} // verus!
