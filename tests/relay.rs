use mobiledevice::relay::{ReadOutcome, Relay, RelayAction, RelayPhase};

/// Feeds the relay reads from two scripted sides and returns the bytes it
/// wrote to the device and to the client.
fn run(client: Vec<Vec<u8>>, device: Vec<Vec<u8>>) -> (Vec<u8>, Vec<u8>, Relay) {
    let mut relay = Relay::new();
    let mut client = client.into_iter();
    let mut device = device.into_iter();
    let mut to_device = vec![];
    let mut to_client = vec![];
    let mut idle = 0;
    while !relay.ended() && idle < 3 {
        let outcome = match relay.next_read() {
            RelayPhase::PollClient => match client.next() {
                Some(b) => ReadOutcome::Data(b),
                None => ReadOutcome::WouldBlock,
            },
            RelayPhase::PollDevice => match device.next() {
                Some(b) => ReadOutcome::Data(b),
                None => ReadOutcome::WouldBlock,
            },
            RelayPhase::Ended => break,
        };
        match relay.on_read(outcome) {
            RelayAction::WriteDevice(b) => to_device.extend(b),
            RelayAction::WriteClient(b) => to_client.extend(b),
            RelayAction::ReadDevice => {}
            RelayAction::Sleep => idle += 1,
            RelayAction::EndConnection => {}
        }
    }
    (to_device, to_client, relay)
}

fn payload(n: usize, seed: u8) -> Vec<u8> {
    (0..n).map(|i| (i as u8).wrapping_mul(31).wrapping_add(seed)).collect()
}

#[test]
fn relay_round_trip_multi_kilobyte() {
    let up = payload(8192, 7);
    let down = payload(6000, 3);
    let up_chunks: Vec<Vec<u8>> = up.chunks(37).map(|c| c.to_vec()).collect();
    let down_chunks: Vec<Vec<u8>> = down.chunks(53).map(|c| c.to_vec()).collect();
    let (to_device, to_client, relay) = run(up_chunks, down_chunks);
    assert_eq!(to_device, up);
    assert_eq!(to_client, down);
    assert!(!relay.ended());
}

#[test]
fn client_close_ends_connection() {
    let mut relay = Relay::new();
    assert!(matches!(relay.on_read(ReadOutcome::Data(vec![1, 2])), RelayAction::WriteDevice(_)));
    assert!(matches!(relay.on_read(ReadOutcome::Closed), RelayAction::EndConnection));
    assert!(relay.ended());
    assert!(matches!(relay.on_read(ReadOutcome::Data(vec![3])), RelayAction::EndConnection));
    let next = Relay::new();
    assert_eq!(next.next_read(), RelayPhase::PollClient);
}

#[test]
fn device_zero_read_ends_connection() {
    let mut relay = Relay::new();
    assert!(matches!(relay.on_read(ReadOutcome::WouldBlock), RelayAction::ReadDevice));
    assert_eq!(relay.next_read(), RelayPhase::PollDevice);
    assert!(matches!(relay.on_read(ReadOutcome::Data(vec![])), RelayAction::EndConnection));
    assert!(relay.ended());
}

#[test]
fn idle_sides_sleep() {
    let mut relay = Relay::new();
    assert!(matches!(relay.on_read(ReadOutcome::WouldBlock), RelayAction::ReadDevice));
    assert!(matches!(relay.on_read(ReadOutcome::WouldBlock), RelayAction::Sleep));
    assert_eq!(relay.next_read(), RelayPhase::PollClient);
}

#[test]
fn read_error_ends_connection_only() {
    let mut relay = Relay::new();
    assert!(matches!(relay.on_read(ReadOutcome::Failed), RelayAction::EndConnection));
    assert!(relay.ended());
    let mut next = Relay::new();
    assert!(matches!(next.on_read(ReadOutcome::Data(vec![9])), RelayAction::WriteDevice(b) if b == vec![9]));
}

#[test]
fn device_data_goes_to_client() {
    let mut relay = Relay::new();
    relay.on_read(ReadOutcome::WouldBlock);
    match relay.on_read(ReadOutcome::Data(vec![4, 5, 6])) {
        RelayAction::WriteClient(b) => assert_eq!(b, vec![4, 5, 6]),
        _ => panic!("expected a write to the client"),
    }
    assert_eq!(relay.next_read(), RelayPhase::PollClient);
}
