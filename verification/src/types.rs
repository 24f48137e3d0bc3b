//! The data model of the protocol: device profiles, orders, cross-domain
//! messages, events, and the error taxonomy.

use vstd::prelude::*;

verus! {

/// An account, on whichever domain's ledger holds it.
pub type AccountId = u64;

/// A point of the domain's monotonically increasing time source.
pub type Moment = u64;

/// An amount of funds.
pub type Amount = u64;

/// An independent ledger/state partition; devices and clients each belong
/// to exactly one.
pub type DomainId = u32;

/// The lifecycle state of a registered device.
#[derive(Clone, Copy, PartialEq, Eq, Structural, Debug)]
pub enum DeviceState {
    /// Device is off.
    Off,
    /// Device is ready to accept orders.
    Ready,
    /// Device has an order.
    Busy,
    /// Device has accepted its order.
    Accepted,
    /// Device is abandoned: its account was closed mid-lifecycle, and it
    /// must re-register before taking further orders.
    Timewait,
}

impl Default for DeviceState {
    fn default() -> (r: Self)
        ensures
            r == DeviceState::Off,
    {
        DeviceState::Off
    }
}

/// One registered device.
#[derive(Clone, Copy, PartialEq, Eq, Structural, Debug)]
pub struct DeviceProfile {
    /// Funds the device posts as collateral per order.
    pub penalty: Amount,
    /// Minimum lead time an order's deadline must leave at submission.
    pub work_duration: Moment,
    /// The domain the device is registered in.
    pub home_domain: DomainId,
    pub state: DeviceState,
}

/// A work order as a client describes it: addressed to a device, with the
/// client still implicit.
#[derive(Clone, Debug, PartialEq, Eq)]
pub struct OrderBase {
    /// The deadline: the order must be completed before this moment.
    pub until: Moment,
    /// Domain-specific work description, never interpreted here.
    pub data: Vec<u8>,
    /// The client's payment, escrowed from the client.
    pub fee: Amount,
    /// The device the order is addressed to.
    pub device: AccountId,
}

impl OrderBase {
    /// The stored form of the order, stamped with `client` and `paraid`.
    pub open spec fn spec_convert(self, client: AccountId, paraid: DomainId) -> Order {
        Order { until: self.until, data: self.data, fee: self.fee, client, paraid }
    }

    /// The stored form of the order, stamped with the submitting client and
    /// the domain that owns the client's funds.
    pub fn convert(self, client: AccountId, paraid: DomainId) -> (r: Order)
        ensures
            r == self.spec_convert(client, paraid),
    {
        Order { until: self.until, data: self.data, fee: self.fee, client, paraid }
    }
}

/// A stored work order, keyed by the device it is addressed to.
#[derive(Clone, Debug, PartialEq, Eq)]
pub struct Order {
    /// The deadline: settlement at or after it penalizes the device.
    pub until: Moment,
    /// Domain-specific work description, never interpreted here.
    pub data: Vec<u8>,
    /// The client's payment, escrowed from the client.
    pub fee: Amount,
    pub client: AccountId,
    /// The client's domain: settlement is local exactly when it equals the
    /// domain holding the order.
    pub paraid: DomainId,
}

impl Order {
    /// The order as it would be re-submitted, addressed to `device`.
    pub open spec fn spec_convert(self, device: AccountId) -> OrderBase {
        OrderBase { until: self.until, data: self.data, fee: self.fee, device }
    }

    /// The order as it would be re-submitted: addressed to `device`, client
    /// and domain stripped.
    pub fn convert(self, device: AccountId) -> (r: OrderBase)
        ensures
            r == self.spec_convert(device),
    {
        OrderBase { until: self.until, data: self.data, fee: self.fee, device }
    }
}

/// A cross-domain protocol message.  The `bool` of the reject and done
/// variants is the `resume` flag: whether the device returns to `Ready`
/// (true) or `Off` (false) after settlement.
#[derive(Clone, Debug, PartialEq, Eq)]
pub enum XCMPMessage {
    /// A client of the sending domain submits an order to a device of the
    /// receiving domain.
    NewOrder(AccountId, OrderBase),
    /// The device accepted the client's order.
    OrderAccept(AccountId, AccountId),
    /// The device rejected the order, or the client cancelled it.
    OrderReject(AccountId, AccountId, bool),
    /// The device completed the order.
    OrderDone(AccountId, AccountId, bool),
}

/// What one successful transition reports.
#[derive(Clone, Copy, PartialEq, Eq, Structural, Debug)]
pub enum Event {
    NewDevice(AccountId),
    /// client, device
    NewOrder(AccountId, AccountId),
    /// client, device
    Accept(AccountId, AccountId),
    /// client, device
    Reject(AccountId, AccountId),
    /// client, device
    Done(AccountId, AccountId),
}

/// Why a transition was refused.  A refused transition mutates nothing.
#[derive(Clone, Copy, PartialEq, Eq, Structural, Debug)]
pub enum Error {
    /// The caller lacks the authority: for instance a cancel by someone
    /// other than the order's client, or before the order is overdue.
    Prohibited,
    /// The device still has an active order and cannot re-register.
    DeviceExists,
    /// The client cannot cover the order's fee.
    DeviceLowBail,
    /// No active order for the device.
    NoOrder,
    /// The order's deadline does not leave the device its lead time, or the
    /// order's payload is too large to put on the wire.
    BadOrderDetails,
    /// The device is not registered.
    NoDevice,
    /// The operation is not valid in the device's current state.
    IllegalState,
    /// The order's deadline has already passed.
    Overdue,
    /// The outbound channel could not deliver a message.  Never raised by
    /// the engine itself: the transport reports it, after the local
    /// transition has already committed.
    CannotReachDestination,
    /// The ledger refused a movement of funds mid-settlement.
    LedgerFailure,
    /// An inbound message could not be decoded; it is dropped whole.
    Undecodable,
}

/// An outbound message, addressed to the domain that must apply it.
#[derive(Clone, Debug, PartialEq, Eq)]
pub struct Envelope {
    pub dest: DomainId,
    pub msg: XCMPMessage,
}

/// What a successful transition hands back: the event it reports and the
/// cross-domain message it asks the channel to deliver, if any.
#[derive(Clone, Debug, PartialEq, Eq)]
pub struct Outcome {
    pub event: Event,
    pub send: Option<Envelope>,
}

} // verus!
