use vf60::handshake::{handshake_answer, handshake_next, handshake_transfer, HANDSHAKE_LEN};
use vf60::Error;

/// Drives the handshake against a scripted transport and records what it sent.
fn drive(answers: &[Result<usize, rusb::Error>]) -> (Vec<Vec<u8>>, Result<usize, Error>) {
    let mut sent = Vec::new();
    let mut done: usize = 0;
    while let Some(t) = handshake_next(done) {
        assert_eq!((t.request_type, t.request, t.value, t.index), (0x40, 11, 0, 0));
        sent.push(t.data.clone());
        match handshake_answer(done, answers[sent.len() - 1]) {
            Ok(d) => done = d,
            Err(e) => return (sent, Err(e)),
        }
    }
    (sent, Ok(done))
}

#[test]
fn handshake_payloads() {
    assert_eq!(HANDSHAKE_LEN, 3);
    assert_eq!(handshake_transfer(0).data, vec![0x03, 0x01]);
    assert_eq!(handshake_transfer(1).data, vec![0x01, 0x03]);
    assert_eq!(handshake_transfer(2).data, vec![0x00, 0x04, 0x01]);
    assert!(handshake_next(3).is_none());
    assert!(handshake_next(7).is_none());
}

#[test]
fn handshake_sends_three_transfers_in_order() {
    let (sent, result) = drive(&[Ok(2), Ok(2), Ok(3)]);
    assert_eq!(sent, vec![vec![0x03, 0x01], vec![0x01, 0x03], vec![0x00, 0x04, 0x01]]);
    assert_eq!(result.unwrap(), 3);
}

#[test]
fn handshake_stops_at_first_failure() {
    let (sent, result) = drive(&[Err(rusb::Error::Timeout), Ok(2), Ok(3)]);
    assert_eq!(sent, vec![vec![0x03, 0x01]]);
    assert!(matches!(result, Err(Error::UsbError(rusb::Error::Timeout))));

    let (sent, result) = drive(&[Ok(2), Err(rusb::Error::Pipe), Ok(3)]);
    assert_eq!(sent, vec![vec![0x03, 0x01], vec![0x01, 0x03]]);
    assert!(matches!(result, Err(Error::UsbError(rusb::Error::Pipe))));

    let (sent, result) = drive(&[Ok(2), Ok(2), Err(rusb::Error::NoDevice)]);
    assert_eq!(sent.len(), 3);
    assert!(matches!(result, Err(Error::UsbError(rusb::Error::NoDevice))));
}

#[test]
fn transport_errors_convert() {
    assert!(matches!(Error::from(rusb::Error::Busy), Error::UsbError(rusb::Error::Busy)));
}
