use crate::error::Error;
use rusb::Error as LibusbError;
use vstd::prelude::*;

verus! {

/// Number of control transfers in the power-on handshake.
pub const HANDSHAKE_LEN: usize = 3;

/// Request type of the handshake: host to device, vendor, device recipient.
pub const VENDOR_OUT: u8 = 0x40;

/// Request code of every handshake transfer.
pub const HANDSHAKE_REQUEST: u8 = 11;

/// A vendor control transfer from host to device.
#[derive(Clone, Debug)]
pub struct ControlTransfer {
    pub request_type: u8,
    pub request: u8,
    pub value: u16,
    pub index: u16,
    pub data: Vec<u8>,
}

/// The payload of the handshake's transfer number `i`.
pub open spec fn handshake_payload(i: nat) -> Seq<u8> {
    if i == 0 {
        seq![0x03u8, 0x01]
    } else if i == 1 {
        seq![0x01u8, 0x03]
    } else {
        seq![0x00u8, 0x04, 0x01]
    }
}

/// Whether `t` is the handshake's transfer number `i`.
pub open spec fn is_handshake_transfer(t: ControlTransfer, i: nat) -> bool {
    &&& t.request_type == VENDOR_OUT
    &&& t.request == HANDSHAKE_REQUEST
    &&& t.value == 0
    &&& t.index == 0
    &&& t.data@ == handshake_payload(i)
}

/// Which transfer comes once `done` transfers have succeeded, if any.
pub open spec fn next_transfer(done: nat) -> Option<nat> {
    if done < HANDSHAKE_LEN {
        Some(done)
    } else {
        None
    }
}

/// How many transfers have succeeded after one more answered `ok`; `None`
/// when the handshake is aborted.
pub open spec fn after_transfer(done: nat, ok: bool) -> Option<nat> {
    if ok {
        Some(done + 1)
    } else {
        None
    }
}

/// The transfers, by number, that the handshake sends from `done` on when
/// the transport answers them with `outcomes` in turn (`true` for success).
pub open spec fn sent_transfers(done: nat, outcomes: Seq<bool>) -> Seq<nat>
    decreases outcomes.len(),
{
    match next_transfer(done) {
        None => Seq::empty(),
        Some(i) => if outcomes.len() == 0 {
            Seq::empty()
        } else {
            seq![i] + match after_transfer(done, outcomes[0]) {
                Some(d) => sent_transfers(d, outcomes.drop_first()),
                None => Seq::empty(),
            }
        },
    }
}

/// How many transfers are sent when `outcomes` answers them: up to and
/// including the first failure, and never more than the handshake holds.
pub open spec fn sent_count(outcomes: Seq<bool>) -> nat
    decreases outcomes.len(),
{
    if outcomes.len() == 0 {
        0
    } else if !outcomes[0] {
        1
    } else {
        1 + sent_count(outcomes.drop_first())
    }
}

/// Builds the handshake's transfer number `i`.
pub fn handshake_transfer(i: usize) -> (r: ControlTransfer)
    requires
        i < HANDSHAKE_LEN,
    ensures
        is_handshake_transfer(r, i as nat),
{
    let mut data: Vec<u8> = Vec::new();
    if i == 0 {
        data.push(0x03);
        data.push(0x01);
    } else if i == 1 {
        data.push(0x01);
        data.push(0x03);
    } else {
        data.push(0x00);
        data.push(0x04);
        data.push(0x01);
    }
    assert(data@ =~= handshake_payload(i as nat));
    ControlTransfer { request_type: VENDOR_OUT, request: HANDSHAKE_REQUEST, value: 0, index: 0, data }
}

/// The transfer to send once `done` transfers of the handshake have
/// succeeded; `None` when the handshake is complete.
pub fn handshake_next(done: usize) -> (r: Option<ControlTransfer>)
    ensures
        r is None <==> next_transfer(done as nat) is None,
        r matches Some(t) ==> is_handshake_transfer(t, done as nat),
{
    if done < HANDSHAKE_LEN {
        Some(handshake_transfer(done))
    } else {
        None
    }
}

/// Takes the transport's answer to the transfer sent after `done` successes:
/// the new count of successes, or the transport error that aborts the handshake.
pub fn handshake_answer(done: usize, answer: Result<usize, LibusbError>) -> (r: Result<
    usize,
    Error,
>)
    requires
        done < HANDSHAKE_LEN,
    ensures
        after_transfer(done as nat, answer is Ok) matches Some(d) ==> r == Ok::<usize, Error>(
            d as usize,
        ),
        answer matches Err(e) ==> r == Err::<usize, Error>(Error::UsbError(e)),
{
    match answer {
        Ok(_) => Ok(done + 1),
        Err(e) => Err(Error::UsbError(e)),
    }
}

/// The handshake sends its transfers in their fixed order, one per answer,
/// stops right after the first failure, and sends nothing more once all three
/// have succeeded.
pub proof fn lemma_handshake_order(outcomes: Seq<bool>)
    ensures
        sent_transfers(0, outcomes) == Seq::new(
            vstd::math::min(sent_count(outcomes) as int, HANDSHAKE_LEN as int) as nat,
            |i: int| i as nat,
        ),
{
    lemma_sent_from(0, outcomes);
}

proof fn lemma_sent_from(done: nat, outcomes: Seq<bool>)
    requires
        done <= HANDSHAKE_LEN,
    ensures
        sent_transfers(done, outcomes) == Seq::new(
            vstd::math::min(sent_count(outcomes) as int, HANDSHAKE_LEN - done) as nat,
            |i: int| (done + i) as nat,
        ),
    decreases outcomes.len(),
{
    let n = vstd::math::min(sent_count(outcomes) as int, HANDSHAKE_LEN - done) as nat;
    let expect = Seq::new(n, |i: int| (done + i) as nat);
    if done < HANDSHAKE_LEN && outcomes.len() > 0 {
        if outcomes[0] {
            let rest = outcomes.drop_first();
            lemma_sent_from(done + 1, rest);
            assert(sent_count(outcomes) == 1 + sent_count(rest));
            assert(sent_transfers(done, outcomes) =~= expect);
        } else {
            assert(sent_transfers(done, outcomes) =~= expect);
        }
    } else {
        assert(sent_transfers(done, outcomes) =~= expect);
    }
}

} // verus!
