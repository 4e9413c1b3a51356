use transfer_bridge::{
    ErrorKind, Reaction, ReceivedResponse, ResponseMetadata, TransferState, TransportCommand,
};

const QUIET: Reaction = Reaction { command: TransportCommand::Nothing, wake: false };
const WAKE: Reaction = Reaction { command: TransportCommand::Nothing, wake: true };

fn http(status: i64) -> ReceivedResponse {
    ReceivedResponse::Http(ResponseMetadata { status })
}

fn bytes(from: u8, n: usize) -> Vec<u8> {
    (0..n).map(|i| from.wrapping_add(i as u8)).collect()
}

#[test]
fn new_transfer_is_empty() {
    let mut state = TransferState::new(Some(8));
    assert!(!state.is_completed());
    assert_eq!(state.buffered_len(), 0);
    assert_eq!(state.try_take_response(), Ok(None));
    assert_eq!(state.take_response_buffer(), Ok(vec![]));
}

#[test]
fn headers_then_three_chunks_then_completion() {
    let mut state = TransferState::new(Some(100));
    assert_eq!(state.on_headers_received(http(200), false), WAKE);
    let a = bytes(0, 10);
    let b = bytes(100, 20);
    let c = bytes(200, 5);
    assert_eq!(state.on_data_received(&a), QUIET);
    assert_eq!(state.on_data_received(&b), QUIET);
    assert_eq!(state.on_data_received(&c), QUIET);
    assert_eq!(state.on_completed(None), WAKE);
    assert!(state.is_completed());
    let body = state.take_response_buffer().unwrap();
    assert_eq!(body.len(), 35);
    let mut expected = a.clone();
    expected.extend_from_slice(&b);
    expected.extend_from_slice(&c);
    assert_eq!(body, expected);
    assert_eq!(state.try_take_response(), Ok(Some(ResponseMetadata { status: 200 })));
    assert_eq!(state.try_take_response(), Ok(None));
    assert_eq!(state.take_response_buffer(), Ok(vec![]));
}

#[test]
fn second_chunk_over_the_bound_is_rejected() {
    let mut state = TransferState::new(Some(15));
    let first = bytes(1, 10);
    assert_eq!(state.on_data_received(&first), QUIET);
    assert_eq!(
        state.on_data_received(&bytes(50, 10)),
        Reaction { command: TransportCommand::Cancel, wake: false }
    );
    assert_eq!(state.buffered_len(), 10);
    assert_eq!(state.try_take_response(), Err(ErrorKind::ResponseTooLarge));
    assert_eq!(state.take_response_buffer(), Ok(first));
}

#[test]
fn oversize_chunk_surfaces_on_body_poll_too() {
    let mut state = TransferState::new(Some(15));
    state.on_data_received(&bytes(1, 10));
    state.on_data_received(&bytes(50, 10));
    assert_eq!(state.take_response_buffer(), Err(ErrorKind::ResponseTooLarge));
    assert_eq!(state.take_response_buffer(), Ok(bytes(1, 10)));
}

#[test]
fn chunk_that_reaches_the_bound_exactly_is_accepted() {
    let mut state = TransferState::new(Some(15));
    assert_eq!(state.on_data_received(&bytes(0, 10)), QUIET);
    assert_eq!(state.on_data_received(&bytes(10, 5)), QUIET);
    assert_eq!(state.buffered_len(), 15);
    assert_eq!(state.take_response_buffer(), Ok(bytes(0, 15)));
}

#[test]
fn one_byte_over_the_bound_is_rejected() {
    let mut state = TransferState::new(Some(15));
    state.on_data_received(&bytes(0, 10));
    let reaction = state.on_data_received(&bytes(10, 6));
    assert_eq!(reaction.command, TransportCommand::Cancel);
    assert_eq!(state.buffered_len(), 10);
}

#[test]
fn zero_bound_takes_only_empty_chunks() {
    let mut state = TransferState::new(Some(0));
    assert_eq!(state.on_data_received(&[]), QUIET);
    assert_eq!(state.try_take_response(), Ok(None));
    assert_eq!(state.on_data_received(&[7]).command, TransportCommand::Cancel);
    assert_eq!(state.try_take_response(), Err(ErrorKind::ResponseTooLarge));
}

#[test]
fn without_a_bound_everything_is_buffered() {
    let mut state = TransferState::new(None);
    let mut expected = Vec::new();
    for round in 0..50u8 {
        let chunk = bytes(round, 1000);
        assert_eq!(state.on_data_received(&chunk), QUIET);
        expected.extend_from_slice(&chunk);
    }
    state.on_completed(None);
    assert_eq!(state.buffered_len(), 50_000);
    assert_eq!(state.take_response_buffer(), Ok(expected));
}

#[test]
fn chunks_after_a_captured_error_are_ignored_without_a_second_cancel() {
    let mut state = TransferState::new(Some(15));
    state.on_data_received(&bytes(0, 10));
    assert_eq!(state.on_data_received(&bytes(0, 10)).command, TransportCommand::Cancel);
    assert_eq!(state.on_data_received(&bytes(0, 10)), QUIET);
    assert_eq!(state.on_data_received(&bytes(0, 2)), QUIET);
    assert_eq!(state.buffered_len(), 10);
    assert_eq!(state.try_take_response(), Err(ErrorKind::ResponseTooLarge));
    assert_eq!(state.try_take_response(), Ok(None));
}

#[test]
fn response_is_drained_once() {
    let mut state = TransferState::new(None);
    state.on_headers_received(http(404), false);
    assert_eq!(state.try_take_response(), Ok(Some(ResponseMetadata { status: 404 })));
    assert_eq!(state.try_take_response(), Ok(None));
}

#[test]
fn later_headers_overwrite_earlier_ones() {
    let mut state = TransferState::new(None);
    state.on_headers_received(http(100), false);
    state.on_headers_received(http(200), false);
    assert_eq!(state.try_take_response(), Ok(Some(ResponseMetadata { status: 200 })));
    assert_eq!(state.try_take_response(), Ok(None));
}

#[test]
fn headers_resume_a_flow_controlled_transport() {
    let mut state = TransferState::new(None);
    assert_eq!(
        state.on_headers_received(http(200), true),
        Reaction { command: TransportCommand::Resume, wake: true }
    );
    assert_eq!(state.on_headers_received(http(200), false), WAKE);
}

#[test]
fn body_is_drained_once_unless_new_data_arrives() {
    let mut state = TransferState::new(Some(10));
    state.on_data_received(&[1, 2, 3]);
    assert_eq!(state.take_response_buffer(), Ok(vec![1, 2, 3]));
    assert_eq!(state.take_response_buffer(), Ok(vec![]));
    state.on_data_received(&[4, 5]);
    assert_eq!(state.take_response_buffer(), Ok(vec![4, 5]));
}

#[test]
fn draining_makes_room_under_the_bound() {
    let mut state = TransferState::new(Some(4));
    state.on_data_received(&[1, 2, 3, 4]);
    assert_eq!(state.take_response_buffer(), Ok(vec![1, 2, 3, 4]));
    assert_eq!(state.on_data_received(&[5, 6, 7, 8]), QUIET);
    assert_eq!(state.take_response_buffer(), Ok(vec![5, 6, 7, 8]));
}

#[test]
fn completion_error_surfaces_exactly_once() {
    let mut state = TransferState::new(None);
    state.on_headers_received(http(200), false);
    state.on_data_received(&[9, 9]);
    assert!(!state.is_completed());
    assert_eq!(state.on_completed(Some(ErrorKind::Transport(-1001))), WAKE);
    assert!(state.is_completed());
    assert_eq!(state.try_take_response(), Err(ErrorKind::Transport(-1001)));
    assert_eq!(state.try_take_response(), Ok(Some(ResponseMetadata { status: 200 })));
    assert_eq!(state.take_response_buffer(), Ok(vec![9, 9]));
}

#[test]
fn completion_error_surfaces_on_body_poll() {
    let mut state = TransferState::new(None);
    state.on_data_received(&[1]);
    state.on_completed(Some(ErrorKind::Transport(7)));
    assert_eq!(state.take_response_buffer(), Err(ErrorKind::Transport(7)));
    assert_eq!(state.take_response_buffer(), Ok(vec![1]));
    assert_eq!(state.try_take_response(), Ok(None));
}

#[test]
fn first_captured_error_wins() {
    let mut state = TransferState::new(Some(1));
    assert_eq!(state.on_data_received(&[1, 2]).command, TransportCommand::Cancel);
    state.on_completed(Some(ErrorKind::Transport(-999)));
    assert!(state.is_completed());
    assert_eq!(state.try_take_response(), Err(ErrorKind::ResponseTooLarge));
    assert_eq!(state.try_take_response(), Ok(None));
    assert_eq!(state.take_response_buffer(), Ok(vec![]));
}

#[test]
fn completion_stays_set() {
    let mut state = TransferState::new(None);
    state.on_completed(None);
    assert!(state.is_completed());
    state.on_data_received(&[1]);
    state.on_headers_received(http(204), false);
    let _ = state.try_take_response();
    let _ = state.take_response_buffer();
    state.on_completed(Some(ErrorKind::Transport(3)));
    assert!(state.is_completed());
}

#[test]
fn partial_body_can_be_drained_before_completion() {
    let mut state = TransferState::new(Some(100));
    state.on_data_received(&[1, 2]);
    assert_eq!(state.take_response_buffer(), Ok(vec![1, 2]));
    state.on_data_received(&[3]);
    state.on_completed(None);
    assert_eq!(state.take_response_buffer(), Ok(vec![3]));
}

#[test]
fn a_response_that_is_not_http_is_stored_and_handed_out_as_nothing() {
    let mut state = TransferState::new(None);
    assert_eq!(
        state.on_headers_received(ReceivedResponse::Other, true),
        Reaction { command: TransportCommand::Resume, wake: true }
    );
    assert_eq!(state.try_take_response(), Ok(None));
    assert_eq!(state.try_take_response(), Ok(None));
}

#[test]
fn a_response_that_is_not_http_overwrites_an_earlier_one() {
    let mut state = TransferState::new(None);
    state.on_headers_received(http(200), false);
    state.on_headers_received(ReceivedResponse::Other, false);
    assert_eq!(state.try_take_response(), Ok(None));
    state.on_headers_received(ReceivedResponse::Other, false);
    state.on_headers_received(http(301), false);
    assert_eq!(state.try_take_response(), Ok(Some(ResponseMetadata { status: 301 })));
    assert_eq!(state.try_take_response(), Ok(None));
}

#[test]
fn only_the_terminal_event_completes_the_transfer() {
    let mut state = TransferState::new(Some(4));
    state.on_headers_received(http(200), true);
    state.on_data_received(&[1, 2, 3]);
    state.on_data_received(&[4, 5, 6]);
    let _ = state.try_take_response();
    let _ = state.take_response_buffer();
    assert!(!state.is_completed());
    state.on_completed(None);
    assert!(state.is_completed());
}

#[test]
fn every_accepted_byte_comes_out_once_across_interleaved_polls() {
    let mut state = TransferState::new(Some(6));
    let mut accepted: Vec<u8> = Vec::new();
    let mut polled: Vec<u8> = Vec::new();
    for round in 0..20u8 {
        let chunk = bytes(round.wrapping_mul(7), usize::from(round % 5));
        let before = state.buffered_len();
        let reaction = state.on_data_received(&chunk);
        let grew = state.buffered_len() == before + chunk.len();
        if grew && reaction.command != TransportCommand::Cancel {
            accepted.extend_from_slice(&chunk);
        }
        if round % 3 == 0 {
            if let Ok(part) = state.take_response_buffer() {
                polled.extend_from_slice(&part);
            }
        }
        assert!(state.buffered_len() <= 6);
    }
    state.on_completed(None);
    let rest = match state.take_response_buffer() {
        Ok(rest) => rest,
        Err(error) => {
            assert_eq!(error, ErrorKind::ResponseTooLarge);
            state.take_response_buffer().unwrap()
        }
    };
    assert_eq!(accepted.len(), polled.len() + rest.len());
    polled.extend_from_slice(&rest);
    assert_eq!(polled, accepted);
    assert_eq!(state.take_response_buffer(), Ok(vec![]));
}
