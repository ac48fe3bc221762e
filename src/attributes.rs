use vstd::prelude::*;

verus! {

/// The three data points of the exposed service.
#[derive(Clone, Copy, Debug, PartialEq, Eq, Structural)]
pub enum DataPoint {
    /// Readable and writable; reads give a fixed greeting.
    Greeting,
    /// Write-only.
    Message,
    /// Readable, writable and notifiable; its subscription flag gates
    /// notifications.
    Alert,
}

/// Where a peer's write lands: the value of a data point, or the
/// subscription-control attribute of the notifiable one.
#[derive(Clone, Copy, Debug, PartialEq, Eq, Structural)]
pub enum WriteTarget {
    Value(DataPoint),
    AlertSubscription,
}

pub open spec fn readable(p: DataPoint) -> bool {
    p != DataPoint::Message
}

pub open spec fn notify_capable(p: DataPoint) -> bool {
    p == DataPoint::Alert
}

/// The greeting buffer of the `Greeting` data point: "Hello Bare-Metal BLE".
pub open spec fn greeting_payload() -> Seq<u8> {
    seq![72u8, 101, 108, 108, 111, 32, 66, 97, 114, 101, 45, 77, 101, 116, 97, 108, 32, 66, 76, 69]
}

/// Number of valid bytes that a read of `Greeting` at offset zero reports.
pub const GREETING_VALID: usize = 17;

/// The value of the `Alert` data point: "Hola!".
pub open spec fn alert_payload() -> Seq<u8> {
    seq![72u8, 111, 108, 97, 33]
}

/// The payload pushed to a subscribed peer when a hold is confirmed: "Notification".
pub open spec fn notification_payload() -> Seq<u8> {
    seq![78u8, 111, 116, 105, 102, 105, 99, 97, 116, 105, 111, 110]
}

/// Fixed buffer and valid-byte count of a readable data point.
pub open spec fn stored_value(p: DataPoint) -> (Seq<u8>, nat) {
    match p {
        DataPoint::Greeting => (greeting_payload(), GREETING_VALID as nat),
        _ => (alert_payload(), 5),
    }
}

/// What a read at `offset` returns from a buffer with `valid` meaningful
/// bytes: the buffer from `offset` on, and the valid bytes left from there
/// (nothing at all once the offset passes the end).
pub open spec fn window(buffer: Seq<u8>, valid: nat, offset: nat) -> (Seq<u8>, nat) {
    (
        if offset < buffer.len() {
            buffer.subrange(offset as int, buffer.len() as int)
        } else {
            Seq::empty()
        },
        if offset < valid {
            (valid - offset) as nat
        } else {
            0
        },
    )
}

/// The bytes placed in a peer's read buffer and how many of them are valid.
pub struct ReadReply {
    pub bytes: Vec<u8>,
    pub valid: usize,
}

fn greeting_buffer() -> (r: Vec<u8>)
    ensures
        r@ == greeting_payload(),
{
    let r: Vec<u8> = vec![72, 101, 108, 108, 111, 32, 66, 97, 114, 101, 45, 77, 101, 116, 97, 108, 32, 66, 76, 69];
    assert(r@ =~= greeting_payload());
    r
}

fn alert_buffer() -> (r: Vec<u8>)
    ensures
        r@ == alert_payload(),
{
    let r: Vec<u8> = vec![72, 111, 108, 97, 33];
    assert(r@ =~= alert_payload());
    r
}

/// The payload of the notification sent on a confirmed hold.
pub fn notification_bytes() -> (r: Vec<u8>)
    ensures
        r@ == notification_payload(),
{
    let r: Vec<u8> = vec![78, 111, 116, 105, 102, 105, 99, 97, 116, 105, 111, 110];
    assert(r@ =~= notification_payload());
    r
}

/// Answers a peer's read of `point` at `offset`; `None` for a data point
/// that cannot be read. Offsets past the value give zero valid bytes.
pub fn read(point: DataPoint, offset: usize) -> (r: Option<ReadReply>)
    ensures
        r.is_some() <==> readable(point),
        r matches Some(reply) ==> (reply.bytes@, reply.valid as nat) == window(
            stored_value(point).0,
            stored_value(point).1,
            offset as nat,
        ),
{
    let (buffer, valid) = match point {
        DataPoint::Greeting => (greeting_buffer(), GREETING_VALID),
        DataPoint::Alert => (alert_buffer(), 5usize),
        DataPoint::Message => {
            return None;
        },
    };
    let mut bytes: Vec<u8> = Vec::new();
    let mut i: usize = offset;
    while i < buffer.len()
        invariant
            offset <= i,
            i <= buffer@.len() || i == offset,
            bytes@.len() == i - offset,
            forall|k: int| 0 <= k < bytes@.len() ==> bytes@[k] == buffer@[offset + k],
        decreases buffer@.len() - i,
    {
        bytes.push(buffer[i]);
        i = i + 1;
    }
    assert(offset < buffer@.len() ==> bytes@ =~= buffer@.subrange(offset as int, buffer@.len() as int));
    let left: usize = if offset < valid {
        valid - offset
    } else {
        0
    };
    Some(ReadReply { bytes, valid: left })
}

/// Whether a value written to the subscription-control attribute turns
/// notifications on: byte zero must be exactly `1`.
pub open spec fn control_value_subscribes(data: Seq<u8>) -> bool {
    data.len() > 0 && data[0] == 1
}

/// Per-connection subscription state: one flag for the one notifiable data
/// point. Unset at the start of every connection.
#[derive(Clone, Copy, Debug, PartialEq, Eq, Structural)]
pub struct Subscriptions {
    pub alert: bool,
}

/// What a serviced write did, for the caller to report.
#[derive(Clone, Copy, Debug, PartialEq, Eq, Structural)]
pub enum WriteEffect {
    /// A data point's value was written; it is only observed.
    Observed(DataPoint),
    /// The subscription-control attribute was written; the new flag.
    SubscriptionSet(bool),
}

impl Subscriptions {
    pub open spec fn subscribed(self, p: DataPoint) -> bool {
        notify_capable(p) && self.alert
    }

    /// The state after a write of `data` lands on `target`.
    pub open spec fn after_write(self, target: WriteTarget, data: Seq<u8>) -> Subscriptions {
        match target {
            WriteTarget::AlertSubscription => Subscriptions { alert: control_value_subscribes(data) },
            WriteTarget::Value(_) => self,
        }
    }

    /// No data point subscribed.
    pub fn new() -> (s: Subscriptions)
        ensures
            !s.alert,
            forall|p: DataPoint| !s.subscribed(p),
    {
        Subscriptions { alert: false }
    }

    /// Whether the connected peer has opted into notifications of `point`.
    pub fn is_subscribed(&self, point: DataPoint) -> (r: bool)
        ensures
            r == self.subscribed(point),
    {
        match point {
            DataPoint::Alert => self.alert,
            _ => false,
        }
    }

    /// Services a peer's write of `data` at `offset` to `target`. Every write is
    /// accepted; only the subscription-control attribute changes state.
    pub fn write(&mut self, target: WriteTarget, offset: usize, data: &Vec<u8>) -> (r: WriteEffect)
        ensures
            *final(self) == old(self).after_write(target, data@),
            r == (match target {
                WriteTarget::Value(p) => WriteEffect::Observed(p),
                WriteTarget::AlertSubscription => WriteEffect::SubscriptionSet(
                    control_value_subscribes(data@),
                ),
            }),
    {
        match target {
            WriteTarget::Value(p) => WriteEffect::Observed(p),
            WriteTarget::AlertSubscription => {
                let on = data.len() > 0 && data[0] == 1;
                self.alert = on;
                WriteEffect::SubscriptionSet(on)
            },
        }
    }
}

/// Writing the byte `1` to the subscription-control attribute and reading the
/// flag back gives "subscribed"; a write whose first byte is anything else
/// (or an empty write) gives "not subscribed". Writes to data-point values
/// leave the flag as it was.
pub proof fn lemma_control_write_round_trip(s: Subscriptions, data: Seq<u8>, p: DataPoint)
    ensures
        s.after_write(WriteTarget::AlertSubscription, seq![1u8]).subscribed(DataPoint::Alert),
        data.len() > 0 && data[0] == 1 ==> s.after_write(
            WriteTarget::AlertSubscription,
            data,
        ).subscribed(DataPoint::Alert),
        !(data.len() > 0 && data[0] == 1) ==> !s.after_write(
            WriteTarget::AlertSubscription,
            data,
        ).subscribed(DataPoint::Alert),
        s.after_write(WriteTarget::Value(p), data) == s,
{
}

} // verus!
