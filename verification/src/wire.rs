//! The wire form of cross-domain messages: a deterministic binary
//! tag-plus-fields format (one tag byte; little-endian 64-bit scalars; a
//! compact-prefixed byte vector for the payload; one byte per flag).
//!
//! [`spec_encode`] and [`spec_decode`] define the format; the executable
//! [`encode_message`] and [`decode_message`] are proved to match them, and
//! [`lemma_wire_roundtrip`] proves that every well-formed message survives
//! the trip.  Unknown tags, malformed fields, non-minimal length prefixes
//! and trailing bytes are all rejected, with nothing decoded.

use vstd::prelude::*;

use crate::types::{OrderBase, XCMPMessage};

verus! {

/// A cross-domain message, abstracted for specification: the payload is a
/// byte sequence.
pub enum MessageView {
    NewOrder { client: u64, until: u64, data: Seq<u8>, fee: u64, device: u64 },
    OrderAccept { client: u64, device: u64 },
    OrderReject { client: u64, device: u64, resume: bool },
    OrderDone { client: u64, device: u64, resume: bool },
}

impl View for XCMPMessage {
    type V = MessageView;

    open spec fn view(&self) -> MessageView {
        match self {
            XCMPMessage::NewOrder(client, base) => MessageView::NewOrder {
                client: *client,
                until: base.until,
                data: base.data@,
                fee: base.fee,
                device: base.device,
            },
            XCMPMessage::OrderAccept(client, device) => MessageView::OrderAccept {
                client: *client,
                device: *device,
            },
            XCMPMessage::OrderReject(client, device, resume) => MessageView::OrderReject {
                client: *client,
                device: *device,
                resume: *resume,
            },
            XCMPMessage::OrderDone(client, device, resume) => MessageView::OrderDone {
                client: *client,
                device: *device,
                resume: *resume,
            },
        }
    }
}

/// A message that fits on the wire: the payload's length has to fit the
/// compact length prefix.
pub open spec fn msg_wf(m: MessageView) -> bool {
    match m {
        MessageView::NewOrder { client, until, data, fee, device } => data.len() <= 0xFFFF_FFFF,
        _ => true,
    }
}

/// A 64-bit scalar on the wire: eight bytes, least significant first.
pub open spec fn le_bytes_u64(n: u64) -> Seq<u8> {
    seq![
        (n & 0xff) as u8,
        ((n >> 8) & 0xff) as u8,
        ((n >> 16) & 0xff) as u8,
        ((n >> 24) & 0xff) as u8,
        ((n >> 32) & 0xff) as u8,
        ((n >> 40) & 0xff) as u8,
        ((n >> 48) & 0xff) as u8,
        ((n >> 56) & 0xff) as u8,
    ]
}

/// The 64-bit scalar held at `i`, least significant byte first.
pub open spec fn dec_u64_at(s: Seq<u8>, i: int) -> u64
    recommends
        0 <= i,
        i + 8 <= s.len(),
{
    (s[i] as u64) | ((s[i + 1] as u64) << 8) | ((s[i + 2] as u64) << 16) | ((s[i + 3] as u64)
        << 24) | ((s[i + 4] as u64) << 32) | ((s[i + 5] as u64) << 40) | ((s[i + 6] as u64) << 48)
        | ((s[i + 7] as u64) << 56)
}

/// A length prefix on the wire: the two low bits of the first byte pick
/// the width (one, two, four, or one-plus-four bytes), the rest hold the
/// value, least significant first.  Each value has exactly one form.
pub open spec fn compact_bytes(n: u32) -> Seq<u8> {
    if n < 64 {
        seq![(n << 2) as u8]
    } else if n < 16384 {
        let v = ((n << 2) | 1) as u16;
        seq![(v & 0xff) as u8, ((v >> 8) & 0xff) as u8]
    } else if n < 0x4000_0000 {
        let v = (n << 2) | 2;
        seq![
            (v & 0xff) as u8,
            ((v >> 8) & 0xff) as u8,
            ((v >> 16) & 0xff) as u8,
            ((v >> 24) & 0xff) as u8,
        ]
    } else {
        seq![
            3u8,
            (n & 0xff) as u8,
            ((n >> 8) & 0xff) as u8,
            ((n >> 16) & 0xff) as u8,
            ((n >> 24) & 0xff) as u8,
        ]
    }
}

/// The length prefix held at `i`: its value and how many bytes it took,
/// or `None` for a truncated or non-minimal prefix.
pub open spec fn dec_compact_at(s: Seq<u8>, i: int) -> Option<(u32, int)>
    recommends
        0 <= i,
{
    if i < s.len() {
        let b0 = s[i];
        let mode = b0 & 3;
        if mode == 0 {
            Some((((b0 >> 2) as u32), 1int))
        } else if mode == 1 {
            if i + 2 <= s.len() {
                let w = (s[i] as u16) | ((s[i + 1] as u16) << 8);
                let v = (w >> 2) as u32;
                if v >= 64 {
                    Some((v, 2int))
                } else {
                    None
                }
            } else {
                None
            }
        } else if mode == 2 {
            if i + 4 <= s.len() {
                let w = (s[i] as u32) | ((s[i + 1] as u32) << 8) | ((s[i + 2] as u32) << 16)
                    | ((s[i + 3] as u32) << 24);
                let v = w >> 2;
                if v >= 16384 {
                    Some((v, 4int))
                } else {
                    None
                }
            } else {
                None
            }
        } else {
            if b0 == 3 && i + 5 <= s.len() {
                let v = (s[i + 1] as u32) | ((s[i + 2] as u32) << 8) | ((s[i + 3] as u32) << 16)
                    | ((s[i + 4] as u32) << 24);
                if v >= 0x4000_0000 {
                    Some((v, 5int))
                } else {
                    None
                }
            } else {
                None
            }
        }
    } else {
        None
    }
}

/// One byte per flag: one for true, zero for false.
pub open spec fn bool_byte(b: bool) -> u8 {
    if b {
        1u8
    } else {
        0u8
    }
}

/// The bytes of `m` on the wire.
pub open spec fn spec_encode(m: MessageView) -> Seq<u8> {
    match m {
        MessageView::NewOrder { client, until, data, fee, device } => seq![0u8] + le_bytes_u64(
            client,
        ) + le_bytes_u64(until) + compact_bytes(data.len() as u32) + data + le_bytes_u64(fee)
            + le_bytes_u64(device),
        MessageView::OrderAccept { client, device } => seq![1u8] + le_bytes_u64(client)
            + le_bytes_u64(device),
        MessageView::OrderReject { client, device, resume } => seq![2u8] + le_bytes_u64(client)
            + le_bytes_u64(device) + seq![bool_byte(resume)],
        MessageView::OrderDone { client, device, resume } => seq![3u8] + le_bytes_u64(client)
            + le_bytes_u64(device) + seq![bool_byte(resume)],
    }
}

/// The message held by `s`, or `None` when `s` holds no well-formed
/// message: too short, an unknown tag, a bad length prefix, a flag byte
/// that is neither zero nor one, or trailing bytes.
pub open spec fn spec_decode(s: Seq<u8>) -> Option<MessageView> {
    if s.len() < 1 {
        None
    } else {
        let tag = s[0];
        if tag == 0 {
            if s.len() < 17 {
                None
            } else {
                let client = dec_u64_at(s, 1);
                let until = dec_u64_at(s, 9);
                match dec_compact_at(s, 17) {
                    None => None,
                    Some((len, used)) => {
                        let dstart = 17 + used;
                        if s.len() == dstart + len + 16 {
                            let data = s.subrange(dstart, dstart + len);
                            let fee = dec_u64_at(s, dstart + len);
                            let device = dec_u64_at(s, dstart + len + 8);
                            Some(MessageView::NewOrder { client, until, data, fee, device })
                        } else {
                            None
                        }
                    },
                }
            }
        } else if tag == 1 {
            if s.len() == 17 {
                Some(
                    MessageView::OrderAccept {
                        client: dec_u64_at(s, 1),
                        device: dec_u64_at(s, 9),
                    },
                )
            } else {
                None
            }
        } else if tag == 2 || tag == 3 {
            if s.len() == 18 && (s[17] == 0 || s[17] == 1) {
                let client = dec_u64_at(s, 1);
                let device = dec_u64_at(s, 9);
                let resume = s[17] == 1;
                if tag == 2 {
                    Some(MessageView::OrderReject { client, device, resume })
                } else {
                    Some(MessageView::OrderDone { client, device, resume })
                }
            } else {
                None
            }
        } else {
            None
        }
    }
}

fn push_u64_le(out: &mut Vec<u8>, n: u64)
    ensures
        final(out)@ == old(out)@ + le_bytes_u64(n),
{
    out.push((n & 0xff) as u8);
    out.push(((n >> 8) & 0xff) as u8);
    out.push(((n >> 16) & 0xff) as u8);
    out.push(((n >> 24) & 0xff) as u8);
    out.push(((n >> 32) & 0xff) as u8);
    out.push(((n >> 40) & 0xff) as u8);
    out.push(((n >> 48) & 0xff) as u8);
    out.push(((n >> 56) & 0xff) as u8);
    proof {
        assert(out@ =~= old(out)@ + le_bytes_u64(n));
    }
}

fn push_compact_u32(out: &mut Vec<u8>, n: u32)
    ensures
        final(out)@ == old(out)@ + compact_bytes(n),
{
    if n < 64 {
        out.push((n << 2) as u8);
    } else if n < 16384 {
        let v: u16 = ((n << 2) | 1) as u16;
        out.push((v & 0xff) as u8);
        out.push(((v >> 8) & 0xff) as u8);
    } else if n < 0x4000_0000 {
        let v: u32 = (n << 2) | 2;
        out.push((v & 0xff) as u8);
        out.push(((v >> 8) & 0xff) as u8);
        out.push(((v >> 16) & 0xff) as u8);
        out.push(((v >> 24) & 0xff) as u8);
    } else {
        out.push(3u8);
        out.push((n & 0xff) as u8);
        out.push(((n >> 8) & 0xff) as u8);
        out.push(((n >> 16) & 0xff) as u8);
        out.push(((n >> 24) & 0xff) as u8);
    }
    proof {
        assert(out@ =~= old(out)@ + compact_bytes(n));
    }
}

fn push_bytes(out: &mut Vec<u8>, v: &Vec<u8>)
    ensures
        final(out)@ == old(out)@ + v@,
{
    let mut i: usize = 0;
    while i < v.len()
        invariant
            i <= v.len(),
            out@ == old(out)@ + v@.subrange(0, i as int),
        decreases v.len() - i,
    {
        out.push(v[i]);
        i += 1;
        proof {
            assert(out@ =~= old(out)@ + v@.subrange(0, i as int));
        }
    }
    proof {
        assert(out@ =~= old(out)@ + v@);
    }
}

/// The bytes of `m` on the wire: exactly [`spec_encode`] of it.  The
/// payload of a `NewOrder` must fit the length prefix; the engine never
/// stores or emits a larger one.
pub fn encode_message(m: &XCMPMessage) -> (r: Vec<u8>)
    requires
        msg_wf(m@),
    ensures
        r@ == spec_encode(m@),
{
    let mut out: Vec<u8> = Vec::new();
    match m {
        XCMPMessage::NewOrder(client, base) => {
            out.push(0u8);
            push_u64_le(&mut out, *client);
            push_u64_le(&mut out, base.until);
            push_compact_u32(&mut out, base.data.len() as u32);
            push_bytes(&mut out, &base.data);
            push_u64_le(&mut out, base.fee);
            push_u64_le(&mut out, base.device);
            proof {
                assert(out@ =~= spec_encode(m@));
            }
        },
        XCMPMessage::OrderAccept(client, device) => {
            out.push(1u8);
            push_u64_le(&mut out, *client);
            push_u64_le(&mut out, *device);
            proof {
                assert(out@ =~= spec_encode(m@));
            }
        },
        XCMPMessage::OrderReject(client, device, resume) => {
            out.push(2u8);
            push_u64_le(&mut out, *client);
            push_u64_le(&mut out, *device);
            out.push(if *resume {
                1u8
            } else {
                0u8
            });
            proof {
                assert(out@ =~= spec_encode(m@));
            }
        },
        XCMPMessage::OrderDone(client, device, resume) => {
            out.push(3u8);
            push_u64_le(&mut out, *client);
            push_u64_le(&mut out, *device);
            out.push(if *resume {
                1u8
            } else {
                0u8
            });
            proof {
                assert(out@ =~= spec_encode(m@));
            }
        },
    }
    out
}

fn read_u64_le(bytes: &Vec<u8>, i: usize) -> (r: u64)
    requires
        i + 8 <= bytes@.len(),
    ensures
        r == dec_u64_at(bytes@, i as int),
{
    let blen = bytes.len();
    proof {
        assert(i + 8 <= blen);
    }
    (bytes[i] as u64) | ((bytes[i + 1] as u64) << 8) | ((bytes[i + 2] as u64) << 16) | ((bytes[i
        + 3] as u64) << 24) | ((bytes[i + 4] as u64) << 32) | ((bytes[i + 5] as u64) << 40) | ((
    bytes[i + 6] as u64) << 48) | ((bytes[i + 7] as u64) << 56)
}

fn read_compact(bytes: &Vec<u8>, i: usize) -> (r: Option<(u32, usize)>)
    requires
        i <= bytes@.len(),
    ensures
        r is None <==> dec_compact_at(bytes@, i as int) is None,
        r matches Some(p) ==> dec_compact_at(bytes@, i as int) == Some((p.0, p.1 as int)),
{
    if bytes.len() - i < 1 {
        return None;
    }
    let b0 = bytes[i];
    let mode = b0 & 3;
    if mode == 0 {
        Some(((b0 >> 2) as u32, 1))
    } else if mode == 1 {
        if bytes.len() - i < 2 {
            return None;
        }
        let w: u16 = (bytes[i] as u16) | ((bytes[i + 1] as u16) << 8);
        let v: u32 = (w >> 2) as u32;
        if v >= 64 {
            Some((v, 2))
        } else {
            None
        }
    } else if mode == 2 {
        if bytes.len() - i < 4 {
            return None;
        }
        let w: u32 = (bytes[i] as u32) | ((bytes[i + 1] as u32) << 8) | ((bytes[i + 2] as u32)
            << 16) | ((bytes[i + 3] as u32) << 24);
        let v: u32 = w >> 2;
        if v >= 16384 {
            Some((v, 4))
        } else {
            None
        }
    } else {
        if b0 == 3 && bytes.len() - i >= 5 {
            let v: u32 = (bytes[i + 1] as u32) | ((bytes[i + 2] as u32) << 8) | ((bytes[i
                + 3] as u32) << 16) | ((bytes[i + 4] as u32) << 24);
            if v >= 0x4000_0000 {
                Some((v, 5))
            } else {
                None
            }
        } else {
            None
        }
    }
}

/// The message held by `bytes`, or `None` when they hold no well-formed
/// message: exactly [`spec_decode`] of them.
pub fn decode_message(bytes: &Vec<u8>) -> (r: Option<XCMPMessage>)
    ensures
        r is None <==> spec_decode(bytes@) is None,
        r matches Some(m) ==> spec_decode(bytes@) == Some(m@),
{
    if bytes.len() < 1 {
        return None;
    }
    let tag = bytes[0];
    if tag == 0 {
        if bytes.len() < 17 {
            return None;
        }
        let client = read_u64_le(bytes, 1);
        let until = read_u64_le(bytes, 9);
        let (len, used) = match read_compact(bytes, 17) {
            Some(p) => p,
            None => {
                return None;
            },
        };
        let dstart: usize = 17 + used;
        if (bytes.len() as u128) != (dstart as u128) + (len as u128) + 16 {
            return None;
        }
        let dlen: usize = len as usize;
        let blen = bytes.len();
        proof {
            assert(dstart + dlen + 16 == blen);
        }
        let mut data: Vec<u8> = Vec::new();
        let mut j: usize = 0;
        while j < dlen
            invariant
                j <= dlen,
                blen == bytes@.len(),
                dstart + dlen <= blen,
                data@ == bytes@.subrange(dstart as int, dstart + j as int),
            decreases dlen - j,
        {
            data.push(bytes[dstart + j]);
            j += 1;
            proof {
                assert(data@ =~= bytes@.subrange(dstart as int, dstart + j as int));
            }
        }
        let fee = read_u64_le(bytes, dstart + dlen);
        let device = read_u64_le(bytes, dstart + dlen + 8);
        let base = OrderBase { until, data, fee, device };
        Some(XCMPMessage::NewOrder(client, base))
    } else if tag == 1 {
        if bytes.len() != 17 {
            return None;
        }
        let client = read_u64_le(bytes, 1);
        let device = read_u64_le(bytes, 9);
        Some(XCMPMessage::OrderAccept(client, device))
    } else if tag == 2 || tag == 3 {
        if bytes.len() != 18 {
            return None;
        }
        let flag = bytes[17];
        if !(flag == 0 || flag == 1) {
            return None;
        }
        let client = read_u64_le(bytes, 1);
        let device = read_u64_le(bytes, 9);
        let resume = flag == 1;
        if tag == 2 {
            Some(XCMPMessage::OrderReject(client, device, resume))
        } else {
            Some(XCMPMessage::OrderDone(client, device, resume))
        }
    } else {
        None
    }
}

/// Eight little-endian bytes of `n`, read back, give `n`.
proof fn lemma_le_decode(n: u64, s: Seq<u8>, i: int)
    requires
        0 <= i,
        i + 8 <= s.len(),
        forall|k: int| 0 <= k < 8 ==> s[i + k] == le_bytes_u64(n)[k],
    ensures
        dec_u64_at(s, i) == n,
{
    let b = le_bytes_u64(n);
    assert forall|k: int| 0 <= k < 8 implies s[i + k] == b[k] by {
        assert(s[i + k] == le_bytes_u64(n)[k]);
    }
    assert(s[i + 0] == b[0] && b[0] == (n & 0xff) as u8);
    assert(s[i + 1] == b[1] && b[1] == ((n >> 8) & 0xff) as u8);
    assert(s[i + 2] == b[2] && b[2] == ((n >> 16) & 0xff) as u8);
    assert(s[i + 3] == b[3] && b[3] == ((n >> 24) & 0xff) as u8);
    assert(s[i + 4] == b[4] && b[4] == ((n >> 32) & 0xff) as u8);
    assert(s[i + 5] == b[5] && b[5] == ((n >> 40) & 0xff) as u8);
    assert(s[i + 6] == b[6] && b[6] == ((n >> 48) & 0xff) as u8);
    assert(s[i + 7] == b[7] && b[7] == ((n >> 56) & 0xff) as u8);
    assert((((n & 0xff) as u8 as u64) | ((((n >> 8) & 0xff) as u8 as u64) << 8) | ((((n >> 16)
        & 0xff) as u8 as u64) << 16) | ((((n >> 24) & 0xff) as u8 as u64) << 24) | ((((n >> 32)
        & 0xff) as u8 as u64) << 32) | ((((n >> 40) & 0xff) as u8 as u64) << 40) | ((((n >> 48)
        & 0xff) as u8 as u64) << 48) | ((((n >> 56) & 0xff) as u8 as u64) << 56)) == n)
        by (bit_vector);
}

/// The length prefix of `n`, read back, gives `n` and its own width.
proof fn lemma_compact_decode(n: u32, s: Seq<u8>, i: int)
    requires
        0 <= i,
        i + compact_bytes(n).len() <= s.len(),
        forall|k: int| 0 <= k < compact_bytes(n).len() ==> s[i + k] == compact_bytes(n)[k],
    ensures
        dec_compact_at(s, i) == Some((n, compact_bytes(n).len() as int)),
{
    let b = compact_bytes(n);
    assert forall|k: int| 0 <= k < b.len() implies s[i + k] == b[k] by {
        assert(s[i + k] == compact_bytes(n)[k]);
    }
    if n < 64 {
        assert(s[i + 0] == b[0] && b[0] == (n << 2) as u8);
        assert(((n << 2) as u8) & 3 == 0 && (((n << 2) as u8) >> 2) as u32 == n) by (bit_vector)
            requires
                n < 64,
        ;
    } else if n < 16384 {
        assert(s[i + 0] == b[0] && b[0] == ((((n << 2) | 1) as u16) & 0xff) as u8);
        assert(s[i + 1] == b[1] && b[1] == (((((n << 2) | 1) as u16) >> 8) & 0xff) as u8);
        assert({
            (((((n << 2) | 1) as u16) & 0xff) as u8) & 3 == 1 && ((((((((n << 2) | 1) as u16)
                & 0xff) as u8) as u16) | ((((((((n << 2) | 1) as u16) >> 8) & 0xff) as u8) as u16)
                << 8)) >> 2) as u32 == n
        }) by (bit_vector)
            requires
                64 <= n && n < 16384,
        ;
    } else if n < 0x4000_0000 {
        assert(s[i + 0] == b[0] && b[0] == (((n << 2) | 2) & 0xff) as u8);
        assert(s[i + 1] == b[1] && b[1] == ((((n << 2) | 2) >> 8) & 0xff) as u8);
        assert(s[i + 2] == b[2] && b[2] == ((((n << 2) | 2) >> 16) & 0xff) as u8);
        assert(s[i + 3] == b[3] && b[3] == ((((n << 2) | 2) >> 24) & 0xff) as u8);
        assert({
            ((((n << 2) | 2) & 0xff) as u8) & 3 == 2 && ((((((n << 2) | 2) & 0xff) as u8 as u32)
                | ((((((n << 2) | 2) >> 8) & 0xff) as u8 as u32) << 8) | ((((((n << 2) | 2) >> 16)
                & 0xff) as u8 as u32) << 16) | ((((((n << 2) | 2) >> 24) & 0xff) as u8 as u32)
                << 24)) >> 2) == n
        }) by (bit_vector)
            requires
                16384 <= n && n < 0x4000_0000,
        ;
    } else {
        assert(s[i + 0] == b[0] && b[0] == 3u8);
        assert(s[i + 1] == b[1] && b[1] == (n & 0xff) as u8);
        assert(s[i + 2] == b[2] && b[2] == ((n >> 8) & 0xff) as u8);
        assert(s[i + 3] == b[3] && b[3] == ((n >> 16) & 0xff) as u8);
        assert(s[i + 4] == b[4] && b[4] == ((n >> 24) & 0xff) as u8);
        assert(3u8 & 3 == 3) by (bit_vector);
        assert((((n & 0xff) as u8 as u32) | ((((n >> 8) & 0xff) as u8 as u32) << 8) | ((((n >> 16)
            & 0xff) as u8 as u32) << 16) | ((((n >> 24) & 0xff) as u8 as u32) << 24)) == n)
            by (bit_vector);
    }
}

/// Round trip: every well-formed message, put on the wire, decodes back
/// to itself — so the channel's bytes lose nothing and a domain applies
/// exactly the transition its counterpart announced.
pub proof fn lemma_wire_roundtrip(m: MessageView)
    requires
        msg_wf(m),
    ensures
        spec_decode(spec_encode(m)) == Some(m),
{
    let s = spec_encode(m);
    match m {
        MessageView::NewOrder { client, until, data, fee, device } => {
            let n = data.len() as u32;
            let p = compact_bytes(n);
            let dstart: int = 17 + p.len() as int;
            assert(s.len() == dstart + data.len() + 16);
            assert(s[0] == 0);
            assert forall|k: int| 0 <= k < 8 implies s[1 + k] == le_bytes_u64(client)[k] by {}
            lemma_le_decode(client, s, 1);
            assert forall|k: int| 0 <= k < 8 implies s[9 + k] == le_bytes_u64(until)[k] by {}
            lemma_le_decode(until, s, 9);
            assert forall|k: int| 0 <= k < p.len() implies s[17 + k] == p[k] by {}
            lemma_compact_decode(n, s, 17);
            assert(dec_compact_at(s, 17) == Some((n, p.len() as int)));
            assert forall|j: int| 0 <= j < data.len() implies s[dstart + j] == data[j] by {}
            assert(s.subrange(dstart, dstart + data.len() as int) =~= data);
            assert forall|k: int|
                0 <= k < 8 implies s[dstart + data.len() + k] == le_bytes_u64(fee)[k] by {}
            lemma_le_decode(fee, s, dstart + data.len() as int);
            assert forall|k: int|
                0 <= k < 8 implies s[dstart + data.len() + 8 + k] == le_bytes_u64(device)[k] by {}
            lemma_le_decode(device, s, dstart + data.len() as int + 8);
            assert(spec_decode(s) == Some(m));
        },
        MessageView::OrderAccept { client, device } => {
            assert(s.len() == 17);
            assert(s[0] == 1);
            assert forall|k: int| 0 <= k < 8 implies s[1 + k] == le_bytes_u64(client)[k] by {}
            lemma_le_decode(client, s, 1);
            assert forall|k: int| 0 <= k < 8 implies s[9 + k] == le_bytes_u64(device)[k] by {}
            lemma_le_decode(device, s, 9);
            assert(spec_decode(s) == Some(m));
        },
        MessageView::OrderReject { client, device, resume } => {
            assert(s.len() == 18);
            assert(s[0] == 2);
            assert(s[17] == bool_byte(resume));
            assert forall|k: int| 0 <= k < 8 implies s[1 + k] == le_bytes_u64(client)[k] by {}
            lemma_le_decode(client, s, 1);
            assert forall|k: int| 0 <= k < 8 implies s[9 + k] == le_bytes_u64(device)[k] by {}
            lemma_le_decode(device, s, 9);
            assert(spec_decode(s) == Some(m));
        },
        MessageView::OrderDone { client, device, resume } => {
            assert(s.len() == 18);
            assert(s[0] == 3);
            assert(s[17] == bool_byte(resume));
            assert forall|k: int| 0 <= k < 8 implies s[1 + k] == le_bytes_u64(client)[k] by {}
            lemma_le_decode(client, s, 1);
            assert forall|k: int| 0 <= k < 8 implies s[9 + k] == le_bytes_u64(device)[k] by {}
            lemma_le_decode(device, s, 9);
            assert(spec_decode(s) == Some(m));
        },
    }
}

} // verus!
