//! The protocol engine, exercised end to end: local settlement, the
//! deadline boundary, the state machine's refusals, and the cross-domain
//! message flow with lost messages.

use xchange::engine::Pallet;
use xchange::types::{DeviceState, Envelope, Error, Event, OrderBase, XCMPMessage};
use xchange::wire::encode_message;

const DOMAIN: u32 = 1;
const REMOTE: u32 = 2;
const D: u64 = 10;
const C: u64 = 20;

fn base(until: u64, fee: u64, device: u64) -> OrderBase {
    OrderBase { until, data: vec![1, 2, 3], fee, device }
}

/// A domain with a ready device `D` (penalty 100, lead time 10) and a
/// funded client `C`.
fn ready_domain() -> Pallet {
    let mut p = Pallet::new(DOMAIN);
    p.deposit(D, 1_000).unwrap();
    p.deposit(C, 1_000).unwrap();
    p.register(D, DOMAIN, 100, 10, true).unwrap();
    p
}

#[test]
fn register_starts_ready_or_off() {
    let mut p = Pallet::new(DOMAIN);
    assert_eq!(p.register(D, DOMAIN, 100, 10, true), Ok(Event::NewDevice(D)));
    assert_eq!(p.devices(D).unwrap().state, DeviceState::Ready);
    assert_eq!(p.register(D, DOMAIN, 7, 3, false), Ok(Event::NewDevice(D)));
    let prof = p.devices(D).unwrap();
    assert_eq!(prof.state, DeviceState::Off);
    assert_eq!(prof.penalty, 7);
    assert_eq!(prof.work_duration, 3);
}

#[test]
fn full_local_order_completed_in_time() {
    // Device registers with penalty 100, lead time 10; client submits
    // fee 50 with deadline now + 20.
    let mut p = ready_domain();
    let now = 0;
    let out = p
        .order(C, base(now + 20, 50, D), now, Some(DeviceState::Busy))
        .unwrap();
    assert_eq!(out.event, Event::NewOrder(C, D));
    assert!(out.send.is_none());
    assert_eq!(p.devices(D).unwrap().state, DeviceState::Busy);
    assert!(p.orders(D).is_some());
    assert_eq!(p.reserved_balance(D), 100);
    assert_eq!(p.reserved_balance(C), 50);
    assert_eq!(p.free_balance(D), 900);
    assert_eq!(p.free_balance(C), 950);

    let out = p.accept(D, false, true, 5).unwrap();
    assert_eq!(out.event, Event::Accept(C, D));
    assert_eq!(p.devices(D).unwrap().state, DeviceState::Accepted);

    // Completed one moment before the deadline: the fee is paid to the
    // device and the penalty returns to it.
    let out = p.done(D, true, 19).unwrap();
    assert_eq!(out.event, Event::Done(C, D));
    assert!(p.orders(D).is_none());
    assert_eq!(p.devices(D).unwrap().state, DeviceState::Ready);
    assert_eq!(p.free_balance(D), 1_050);
    assert_eq!(p.reserved_balance(D), 0);
    assert_eq!(p.free_balance(C), 950);
    assert_eq!(p.reserved_balance(C), 0);
}

#[test]
fn full_local_order_completed_at_deadline() {
    // Same setup, but completion lands exactly on the deadline: the fee
    // is still paid, and the penalty is forfeited to the client.
    let mut p = ready_domain();
    p.order(C, base(20, 50, D), 0, Some(DeviceState::Busy)).unwrap();
    p.accept(D, false, true, 5).unwrap();
    let out = p.done(D, false, 20).unwrap();
    assert_eq!(out.event, Event::Done(C, D));
    assert_eq!(p.devices(D).unwrap().state, DeviceState::Off);
    assert_eq!(p.free_balance(D), 950);
    assert_eq!(p.free_balance(C), 1_050);
    assert_eq!(p.reserved_balance(D), 0);
    assert_eq!(p.reserved_balance(C), 0);
}

#[test]
fn reject_before_deadline_returns_both_escrows() {
    let mut p = ready_domain();
    p.order(C, base(20, 50, D), 0, Some(DeviceState::Busy)).unwrap();
    let out = p.accept(D, true, true, 19).unwrap();
    assert_eq!(out.event, Event::Reject(C, D));
    assert!(p.orders(D).is_none());
    assert_eq!(p.devices(D).unwrap().state, DeviceState::Ready);
    assert_eq!(p.free_balance(D), 1_000);
    assert_eq!(p.free_balance(C), 1_000);
}

#[test]
fn reject_at_deadline_forfeits_penalty() {
    let mut p = ready_domain();
    p.order(C, base(20, 50, D), 0, Some(DeviceState::Busy)).unwrap();
    p.accept(D, true, false, 20).unwrap();
    assert_eq!(p.devices(D).unwrap().state, DeviceState::Off);
    assert_eq!(p.free_balance(D), 900);
    assert_eq!(p.free_balance(C), 1_100);
}

#[test]
fn escrow_is_conserved_through_a_full_run() {
    let mut p = ready_domain();
    let total_before = p.free_balance(D) as u128
        + p.reserved_balance(D) as u128
        + p.free_balance(C) as u128
        + p.reserved_balance(C) as u128;
    p.order(C, base(20, 50, D), 0, Some(DeviceState::Busy)).unwrap();
    p.accept(D, false, true, 5).unwrap();
    p.done(D, true, 20).unwrap();
    let total_after = p.free_balance(D) as u128
        + p.reserved_balance(D) as u128
        + p.free_balance(C) as u128
        + p.reserved_balance(C) as u128;
    assert_eq!(total_before, total_after);
    assert_eq!(p.reserved_balance(D), 0);
    assert_eq!(p.reserved_balance(C), 0);
}

#[test]
fn second_order_against_busy_device_is_refused() {
    let mut p = ready_domain();
    p.deposit(30, 1_000).unwrap();
    p.order(C, base(20, 50, D), 0, Some(DeviceState::Busy)).unwrap();
    // Whatever the parameters of the second order, it is refused.
    assert_eq!(
        p.order(30, base(500, 1, D), 0, Some(DeviceState::Busy)),
        Err(Error::IllegalState)
    );
    assert_eq!(
        p.order(C, base(20, 50, D), 0, Some(DeviceState::Accepted)),
        Err(Error::IllegalState)
    );
    assert_eq!(p.reserved_balance(C), 50);
    assert_eq!(p.free_balance(30), 1_000);
}

#[test]
fn submission_guards_fire_in_order() {
    let mut p = ready_domain();
    // Dead deadline.
    assert_eq!(
        p.order(C, base(5, 50, D), 5, Some(DeviceState::Busy)),
        Err(Error::Overdue)
    );
    // Unknown device.
    assert_eq!(
        p.order(C, base(20, 50, 99), 0, Some(DeviceState::Busy)),
        Err(Error::NoDevice)
    );
    // Not enough lead time: deadline 9 leaves less than 10.
    assert_eq!(
        p.order(C, base(9, 50, D), 0, Some(DeviceState::Busy)),
        Err(Error::BadOrderDetails)
    );
    // The policy declines.
    assert_eq!(p.order(C, base(20, 50, D), 0, None), Err(Error::IllegalState));
    // The client cannot cover the fee.
    assert_eq!(
        p.order(C, base(20, 5_000, D), 0, Some(DeviceState::Busy)),
        Err(Error::DeviceLowBail)
    );
    // The device cannot cover its penalty.
    p.register(D, DOMAIN, 100_000, 10, true).unwrap();
    assert_eq!(
        p.order(C, base(20, 50, D), 0, Some(DeviceState::Busy)),
        Err(Error::LedgerFailure)
    );
    // Nothing was escrowed by any refusal.
    assert_eq!(p.reserved_balance(C), 0);
    assert_eq!(p.reserved_balance(D), 0);
}

#[test]
fn auto_accept_policy_skips_busy() {
    let mut p = ready_domain();
    let out = p
        .order(C, base(20, 50, D), 0, Some(DeviceState::Accepted))
        .unwrap();
    assert_eq!(out.event, Event::NewOrder(C, D));
    assert!(out.send.is_none());
    assert_eq!(p.devices(D).unwrap().state, DeviceState::Accepted);
    assert_eq!(p.reserved_balance(D), 100);
    assert_eq!(p.reserved_balance(C), 50);
}

#[test]
fn state_machine_closure_refusals_leave_state_alone() {
    let mut p = ready_domain();
    // No order yet: device-side answers are refused.
    assert_eq!(p.accept(D, false, true, 0), Err(Error::IllegalState));
    assert_eq!(p.done(D, true, 0), Err(Error::IllegalState));
    assert_eq!(p.cancel(C, D, 0), Err(Error::NoOrder));
    assert_eq!(p.devices(D).unwrap().state, DeviceState::Ready);

    p.order(C, base(20, 50, D), 0, Some(DeviceState::Busy)).unwrap();
    // Busy: done needs Accepted first; switching on/off is illegal.
    assert_eq!(p.done(D, true, 5), Err(Error::IllegalState));
    assert_eq!(p.set_state(D, false), Err(Error::IllegalState));
    assert_eq!(p.set_state(D, true), Err(Error::IllegalState));
    assert_eq!(p.devices(D).unwrap().state, DeviceState::Busy);

    p.accept(D, false, true, 5).unwrap();
    // Accepted: accepting again is illegal.
    assert_eq!(p.accept(D, false, true, 6), Err(Error::IllegalState));
    assert_eq!(p.devices(D).unwrap().state, DeviceState::Accepted);
    assert!(p.orders(D).is_some());
    assert_eq!(p.reserved_balance(D), 100);
}

#[test]
fn accept_at_deadline_is_overdue() {
    let mut p = ready_domain();
    p.order(C, base(20, 50, D), 0, Some(DeviceState::Busy)).unwrap();
    assert_eq!(p.accept(D, false, true, 20), Err(Error::Overdue));
    assert_eq!(p.accept(D, false, true, 25), Err(Error::Overdue));
    assert_eq!(p.devices(D).unwrap().state, DeviceState::Busy);
    let out = p.accept(D, false, true, 19).unwrap();
    assert_eq!(out.event, Event::Accept(C, D));
}

#[test]
fn cancel_needs_overdue_and_the_order_owner() {
    let mut p = ready_domain();
    p.order(C, base(20, 50, D), 0, Some(DeviceState::Busy)).unwrap();
    // Too early.
    assert_eq!(p.cancel(C, D, 19), Err(Error::Prohibited));
    // Wrong caller.
    assert_eq!(p.cancel(30, D, 25), Err(Error::Prohibited));
    assert!(p.orders(D).is_some());
    // Overdue and owned: the fee returns, the late penalty goes to the
    // client, the device turns off.
    let out = p.cancel(C, D, 20).unwrap();
    assert_eq!(out.event, Event::Reject(C, D));
    assert!(p.orders(D).is_none());
    assert_eq!(p.devices(D).unwrap().state, DeviceState::Off);
    assert_eq!(p.free_balance(C), 1_100);
    assert_eq!(p.free_balance(D), 900);
}

#[test]
fn register_is_refused_while_an_order_is_active() {
    let mut p = ready_domain();
    p.order(C, base(20, 50, D), 0, Some(DeviceState::Busy)).unwrap();
    assert_eq!(p.register(D, DOMAIN, 1, 1, true), Err(Error::DeviceExists));
    assert_eq!(p.devices(D).unwrap().penalty, 100);
}

#[test]
fn set_state_switches_only_between_ready_and_off() {
    let mut p = Pallet::new(DOMAIN);
    assert_eq!(p.set_state(D, true), Err(Error::NoDevice));
    p.register(D, DOMAIN, 100, 10, false).unwrap();
    assert_eq!(p.set_state(D, true), Ok(()));
    assert_eq!(p.devices(D).unwrap().state, DeviceState::Ready);
    // Switching an already ready device on again is refused.
    assert_eq!(p.set_state(D, true), Err(Error::IllegalState));
    assert_eq!(p.set_state(D, false), Ok(()));
    assert_eq!(p.devices(D).unwrap().state, DeviceState::Off);
    // Off to off is allowed.
    assert_eq!(p.set_state(D, false), Ok(()));
}

#[test]
fn account_closure_removes_off_devices_and_parks_the_rest() {
    let mut p = ready_domain();
    p.register(30, DOMAIN, 1, 1, false).unwrap();
    p.on_killed_account(30);
    assert!(p.devices(30).is_none());

    p.order(C, base(20, 50, D), 0, Some(DeviceState::Busy)).unwrap();
    p.on_killed_account(D);
    assert_eq!(p.devices(D).unwrap().state, DeviceState::Timewait);
    assert!(p.orders(D).is_some());
    // The parked device's escrow can still be resolved by the client.
    p.cancel(C, D, 25).unwrap();
    assert!(p.orders(D).is_none());
    assert_eq!(p.devices(D).unwrap().state, DeviceState::Timewait);
    assert_eq!(p.reserved_balance(D), 0);
    assert_eq!(p.reserved_balance(C), 0);
}

fn send_between(out: &Envelope, to: &mut Pallet, from: u32, now: u64) {
    let bytes = encode_message(&out.msg);
    to.handle_message(from, &bytes, now, Some(DeviceState::Busy))
        .unwrap();
}

/// Client domain 1 and device domain 2, wired by encoded messages.
fn cross_domain_pair() -> (Pallet, Pallet) {
    let mut client_dom = Pallet::new(DOMAIN);
    let mut device_dom = Pallet::new(REMOTE);
    client_dom.deposit(D, 1_000).unwrap();
    client_dom.deposit(C, 1_000).unwrap();
    client_dom.register(D, REMOTE, 100, 10, true).unwrap();
    device_dom.register(D, REMOTE, 100, 10, true).unwrap();
    (client_dom, device_dom)
}

#[test]
fn cross_domain_order_completes_and_settles_at_home() {
    let (mut client_dom, mut device_dom) = cross_domain_pair();

    // Submission escrows on the client's domain and travels as NewOrder.
    let out = client_dom
        .order(C, base(30, 50, D), 0, Some(DeviceState::Busy))
        .unwrap();
    let env = out.send.expect("a NewOrder message must be sent");
    assert_eq!(env.dest, REMOTE);
    assert_eq!(client_dom.devices(D).unwrap().state, DeviceState::Busy);
    assert_eq!(client_dom.reserved_balance(D), 100);
    assert_eq!(client_dom.reserved_balance(C), 50);

    send_between(&env, &mut device_dom, DOMAIN, 1);
    assert_eq!(device_dom.devices(D).unwrap().state, DeviceState::Busy);
    assert_eq!(device_dom.orders(D).unwrap().paraid, DOMAIN);
    // The device domain holds no escrow for a remote client.
    assert_eq!(device_dom.reserved_balance(D), 0);
    assert_eq!(device_dom.reserved_balance(C), 0);

    // The device accepts; the client domain's proxy follows.
    let out = device_dom.accept(D, false, true, 2).unwrap();
    let env = out.send.expect("an OrderAccept message must be sent");
    assert_eq!(env.dest, DOMAIN);
    send_between(&env, &mut client_dom, REMOTE, 3);
    assert_eq!(client_dom.devices(D).unwrap().state, DeviceState::Accepted);

    // Done in time: the device domain commits locally and the client
    // domain settles the funds.
    let out = device_dom.done(D, true, 10).unwrap();
    assert_eq!(device_dom.devices(D).unwrap().state, DeviceState::Ready);
    assert!(device_dom.orders(D).is_none());
    let env = out.send.expect("an OrderDone message must be sent");
    assert_eq!(env.dest, DOMAIN);
    assert_eq!(env.msg, XCMPMessage::OrderDone(C, D, true));
    send_between(&env, &mut client_dom, REMOTE, 11);
    assert!(client_dom.orders(D).is_none());
    assert_eq!(client_dom.devices(D).unwrap().state, DeviceState::Ready);
    assert_eq!(client_dom.free_balance(D), 1_050);
    assert_eq!(client_dom.free_balance(C), 950);
    assert_eq!(client_dom.reserved_balance(D), 0);
    assert_eq!(client_dom.reserved_balance(C), 0);
}

#[test]
fn lost_accept_message_does_not_block_completion() {
    let (mut client_dom, mut device_dom) = cross_domain_pair();
    let out = client_dom
        .order(C, base(30, 50, D), 0, Some(DeviceState::Busy))
        .unwrap();
    send_between(&out.send.unwrap(), &mut device_dom, DOMAIN, 1);

    // The OrderAccept message is lost: the client domain never leaves
    // Busy, and nothing else changed there.
    let _dropped = device_dom.accept(D, false, true, 2).unwrap().send.unwrap();
    assert_eq!(client_dom.devices(D).unwrap().state, DeviceState::Busy);

    // Completion still settles: OrderDone applies from Busy as well.
    let out = device_dom.done(D, true, 10).unwrap();
    send_between(&out.send.unwrap(), &mut client_dom, REMOTE, 11);
    assert!(client_dom.orders(D).is_none());
    assert_eq!(client_dom.free_balance(D), 1_050);
    assert_eq!(client_dom.free_balance(C), 950);
}

#[test]
fn lost_done_message_leaves_cancel_as_the_way_out() {
    let (mut client_dom, mut device_dom) = cross_domain_pair();
    let out = client_dom
        .order(C, base(30, 50, D), 0, Some(DeviceState::Busy))
        .unwrap();
    send_between(&out.send.unwrap(), &mut device_dom, DOMAIN, 1);
    device_dom.accept(D, false, true, 2).unwrap();

    // The OrderDone message is lost: the client domain keeps the order.
    let _dropped = device_dom.done(D, true, 10).unwrap().send.unwrap();
    assert!(client_dom.orders(D).is_some());

    // Once overdue, the client cancels and the escrow resolves: the fee
    // returns, and the late penalty falls to the client.
    client_dom.cancel(C, D, 30).unwrap();
    assert!(client_dom.orders(D).is_none());
    assert_eq!(client_dom.reserved_balance(C), 0);
    assert_eq!(client_dom.reserved_balance(D), 0);
    assert_eq!(client_dom.free_balance(C), 1_100);
    assert_eq!(client_dom.free_balance(D), 900);
}

#[test]
fn lost_new_order_message_is_recovered_by_cancel() {
    let (mut client_dom, device_dom) = cross_domain_pair();
    let out = client_dom
        .order(C, base(30, 50, D), 0, Some(DeviceState::Busy))
        .unwrap();
    // The NewOrder message is lost: the device domain never hears of the
    // order and stays exactly as it was.
    let _dropped = out.send.unwrap();
    assert!(device_dom.orders(D).is_none());
    assert_eq!(device_dom.devices(D).unwrap().state, DeviceState::Ready);

    // The client's escrow is not stuck: once overdue, cancel resolves it.
    client_dom.cancel(C, D, 30).unwrap();
    assert_eq!(client_dom.reserved_balance(C), 0);
    assert_eq!(client_dom.reserved_balance(D), 0);
}

#[test]
fn undecodable_and_refused_messages_change_nothing() {
    let (mut client_dom, mut device_dom) = cross_domain_pair();
    let out = client_dom
        .order(C, base(30, 50, D), 0, Some(DeviceState::Busy))
        .unwrap();
    let env = out.send.unwrap();

    let garbage = vec![9u8, 9, 9];
    assert_eq!(
        device_dom.handle_message(DOMAIN, &garbage, 1, None),
        Err(Error::Undecodable)
    );
    assert!(device_dom.orders(D).is_none());

    // Delivered twice: the second apply is refused and mutates nothing.
    let bytes = encode_message(&env.msg);
    device_dom
        .handle_message(DOMAIN, &bytes, 1, Some(DeviceState::Busy))
        .unwrap();
    assert_eq!(
        device_dom.handle_message(DOMAIN, &bytes, 2, Some(DeviceState::Busy)),
        Err(Error::IllegalState)
    );
    assert_eq!(device_dom.devices(D).unwrap().state, DeviceState::Busy);
    assert_eq!(device_dom.reserved_balance(D), 0);

    // A Done for a device with no order is refused with nothing changed.
    let stray = encode_message(&XCMPMessage::OrderDone(C, 77, true));
    assert_eq!(
        client_dom.handle_message(REMOTE, &stray, 3, None),
        Err(Error::NoOrder)
    );
    assert_eq!(client_dom.reserved_balance(C), 50);
}

#[test]
fn order_conversions_round_trip() {
    let b = OrderBase { until: 7, data: vec![4, 5], fee: 9, device: D };
    let o = b.convert(C, 3);
    assert_eq!(o.until, 7);
    assert_eq!(o.data, vec![4, 5]);
    assert_eq!(o.fee, 9);
    assert_eq!(o.client, C);
    assert_eq!(o.paraid, 3);
    let b2 = o.convert(D);
    assert_eq!(b2, OrderBase { until: 7, data: vec![4, 5], fee: 9, device: D });
}

#[test]
fn device_state_defaults_to_off() {
    assert_eq!(DeviceState::default(), DeviceState::Off);
}
