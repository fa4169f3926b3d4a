use relay_capture::direction::Direction;
use relay_capture::hex::hex_of_bytes;
use relay_capture::pump::{Pump, PumpAction, PumpError, PumpStatus, ReadEvent, SourceEnd};
use relay_capture::pump::run_pump;
use relay_capture::relay::{first_failure, handle_connection};
use relay_capture::store::make_record;

/// The lowercase hex digest the `sha1` crate computes, rendered independently
/// of the library's own hex code.
fn reference_digest(data: &[u8]) -> String {
    let digest = <sha1::Sha1 as sha1::Digest>::digest(data);
    let mut s = String::new();
    for b in digest.iter() {
        s += &format!("{b:02x}");
    }
    s
}

#[test]
fn hex_rendering_is_lowercase_and_zero_padded() {
    assert_eq!(hex_of_bytes(&vec![0x00, 0x0f, 0xab, 0xff]), "000fabff");
    assert_eq!(hex_of_bytes(&vec![]), "");
    assert_eq!(hex_of_bytes(&vec![0x5a]), "5a");
}

#[test]
fn record_path_of_empty_capture() {
    // SHA-1 of the empty input.
    let rec = make_record(Vec::new(), Direction::Client);
    assert_eq!(rec.path, "client/da39a3ee5e6b4b0d3255bfef95601890afd80709");
    assert_eq!(rec.content, Vec::<u8>::new());
}

#[test]
fn record_path_of_known_content() {
    // SHA-1 of b"abc".
    let rec = make_record(b"abc".to_vec(), Direction::Server);
    assert_eq!(rec.path, "server/a9993e364706816aba3e25717850c26c9cd0d89d");
    assert_eq!(rec.content, b"abc".to_vec());
}

#[test]
fn record_path_matches_reference_digest() {
    let data = b"some captured bytes \x00\x01\xfe".to_vec();
    let rec = make_record(data.clone(), Direction::Client);
    assert_eq!(rec.path, format!("client/{}", reference_digest(&data)));
    assert_eq!(rec.content, data);
}

#[test]
fn content_addressing_is_idempotent() {
    let first = make_record(b"same payload".to_vec(), Direction::Server);
    let second = make_record(b"same payload".to_vec(), Direction::Server);
    assert_eq!(first.path, second.path);
    assert_eq!(first.content, second.content);
}

#[test]
fn directions_store_separately() {
    let c = make_record(b"payload".to_vec(), Direction::Client);
    let s = make_record(b"payload".to_vec(), Direction::Server);
    assert_ne!(c.path, s.path);
    assert!(c.path.starts_with("client/"));
    assert!(s.path.starts_with("server/"));
}

#[test]
fn pump_forwards_exactly_what_it_reads() {
    let chunks = vec![b"hello".to_vec(), b" ".to_vec(), b"world".to_vec()];
    let run = run_pump(Direction::Client, &chunks, SourceEnd::Eof);
    assert_eq!(run.forwarded, b"hello world".to_vec());
    assert_eq!(run.pump.captured, b"hello world".to_vec());
    assert_eq!(run.result, Ok(()));
}

#[test]
fn pump_propagates_half_close_on_eof() {
    let chunks = vec![b"abc".to_vec()];
    let run = run_pump(Direction::Client, &chunks, SourceEnd::Eof);
    assert!(run.half_close_propagated);
    assert_eq!(run.forwarded.len(), 3);
    assert_eq!(run.pump.status, PumpStatus::CleanClose);
}

#[test]
fn pump_reports_read_error_and_keeps_partial_capture() {
    let chunks = vec![b"par".to_vec(), b"tial".to_vec()];
    let run = run_pump(Direction::Server, &chunks, SourceEnd::ReadError);
    assert_eq!(run.result, Err(PumpError::Read));
    assert!(!run.half_close_propagated);
    assert_eq!(run.pump.captured, b"partial".to_vec());
    assert_eq!(run.forwarded, b"partial".to_vec());
    assert_eq!(run.pump.status, PumpStatus::ReadFailed);
}

#[test]
fn pump_reports_write_error_and_keeps_the_chunk() {
    let mut pump = Pump::new(Direction::Client);
    let action = pump.on_read(ReadEvent::Data(b"xy".to_vec()));
    match action {
        PumpAction::Forward(f) => assert_eq!(f, b"xy".to_vec()),
        _ => panic!("a data chunk must be forwarded"),
    }
    pump.on_write_result(false);
    assert_eq!(pump.status, PumpStatus::WriteFailed);
    assert_eq!(pump.result(), Err(PumpError::Write));
    assert_eq!(pump.captured, b"xy".to_vec());
}

#[test]
fn pump_steps_follow_the_event() {
    let mut pump = Pump::new(Direction::Server);
    let action = pump.on_read(ReadEvent::Eof);
    assert!(matches!(action, PumpAction::ShutdownPeerRead));
    assert_eq!(pump.status, PumpStatus::CleanClose);
    assert_eq!(pump.result(), Ok(()));

    let mut failing = Pump::new(Direction::Server);
    let action = failing.on_read(ReadEvent::ReadError);
    assert!(matches!(action, PumpAction::Stop));
    assert_eq!(failing.result(), Err(PumpError::Read));
}

#[test]
fn first_failure_follows_the_fixed_precedence() {
    let ok: Result<(), u32> = Ok(());
    assert_eq!(first_failure(ok, ok, ok, ok), Ok(()));
    assert_eq!(first_failure(Err(1u32), Err(2), Err(3), Err(4)), Err(1));
    assert_eq!(first_failure(ok, Err(2u32), Err(3), Err(4)), Err(2));
    assert_eq!(first_failure(ok, ok, Err(3u32), Err(4)), Err(3));
    assert_eq!(first_failure(ok, ok, ok, Err(4u32)), Err(4));
    assert_eq!(first_failure(Err(1u32), ok, ok, Err(4)), Err(1));
}

#[test]
fn connection_round_trip() {
    let client = vec![b"ping".to_vec()];
    let server = vec![b"pong".to_vec()];
    let run = handle_connection(&client, SourceEnd::Eof, &server, SourceEnd::Eof);
    assert_eq!(run.to_server, b"ping".to_vec());
    assert_eq!(run.to_client, b"pong".to_vec());
    assert_eq!(run.client_result, Ok(()));
    assert_eq!(run.server_result, Ok(()));
}

#[test]
fn connection_with_no_data_still_commits_both_captures() {
    let none: Vec<Vec<u8>> = Vec::new();
    let run = handle_connection(&none, SourceEnd::Eof, &none, SourceEnd::Eof);
    assert!(run.to_server.is_empty());
    assert!(run.to_client.is_empty());
    assert_eq!(run.client_record.path, "client/da39a3ee5e6b4b0d3255bfef95601890afd80709");
    assert_eq!(run.server_record.path, "server/da39a3ee5e6b4b0d3255bfef95601890afd80709");
}

#[test]
fn partial_failure_is_isolated() {
    let client = vec![b"par".to_vec()];
    let server = vec![b"tial reply".to_vec()];
    let run = handle_connection(&client, SourceEnd::ReadError, &server, SourceEnd::Eof);
    // The failing direction reports its error and keeps what it forwarded.
    assert_eq!(run.client_result, Err(PumpError::Read));
    assert_eq!(run.client_record.content, b"par".to_vec());
    assert_eq!(run.client_record.path, format!("client/{}", reference_digest(b"par")));
    // The other direction completes and its capture is still committed.
    assert_eq!(run.server_result, Ok(()));
    assert_eq!(run.to_client, b"tial reply".to_vec());
    assert_eq!(run.server_record.content, b"tial reply".to_vec());
    assert_eq!(run.server_record.path, format!("server/{}", reference_digest(b"tial reply")));
}

#[test]
fn http_like_scenario() {
    let request = b"GET /\r\n\r\n";
    let reply = b"HTTP/1.1 200 OK\r\n\r\n";
    let run = handle_connection(
        &vec![request.to_vec()],
        SourceEnd::Eof,
        &vec![reply.to_vec()],
        SourceEnd::Eof,
    );
    assert_eq!(run.to_server, request.to_vec());
    assert_eq!(run.to_client, reply.to_vec());
    assert_eq!(run.client_record.path, format!("client/{}", reference_digest(request)));
    assert_eq!(run.client_record.content, request.to_vec());
    assert_eq!(run.server_record.path, format!("server/{}", reference_digest(reply)));
    assert_eq!(run.server_record.content, reply.to_vec());
    // Both peers observe clean closure and the connection reports success.
    assert!(run.client_half_close);
    assert!(run.server_half_close);
    let outcome = first_failure(Ok(()), Ok(()), run.client_result, run.server_result);
    assert_eq!(outcome, Ok(()));
}

#[test]
fn direction_names_pick_the_sub_directory() {
    assert_eq!(Direction::Client.name(), "client");
    assert_eq!(Direction::Server.name(), "server");
}
