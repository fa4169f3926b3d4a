//! The connection coordinator's rules: one connection runs two pumps,
//! client→server and server→client; after both have terminated, both capture
//! buffers are committed to the store — always both, whatever failed — and
//! the four step results are combined in a fixed order of precedence.
//!
//! Opening the outbound leg, duplicating the socket handles and running the
//! two pumps in parallel are I/O and live outside the library; this module
//! holds the decisions: what is persisted, and what the connection reports.

use vstd::prelude::*;

use crate::direction::Direction;
use crate::pump::{concat_chunks, run_pump, PumpError, SourceEnd};
use crate::store::{make_record, CaptureRecord};

verus! {

/// Combine one connection's four step results in the fixed order of
/// precedence: persist-client, persist-server, pump-client, pump-server.
/// All four results exist — every step was attempted regardless of earlier
/// failures — and the first failure in that order is reported; the
/// connection succeeds if and only if every step succeeded.
pub fn first_failure<E>(
    persist_client: Result<(), E>,
    persist_server: Result<(), E>,
    pump_client: Result<(), E>,
    pump_server: Result<(), E>,
) -> (r: Result<(), E>)
    ensures
        persist_client is Err ==> r == persist_client,
        persist_client is Ok && persist_server is Err ==> r == persist_server,
        persist_client is Ok && persist_server is Ok && pump_client is Err ==> r == pump_client,
        persist_client is Ok && persist_server is Ok && pump_client is Ok ==> r == pump_server,
        r is Ok <==> (persist_client is Ok && persist_server is Ok && pump_client is Ok
            && pump_server is Ok),
{
    match persist_client {
        Err(e) => Err(e),
        Ok(()) => match persist_server {
            Err(e) => Err(e),
            Ok(()) => match pump_client {
                Err(e) => Err(e),
                Ok(()) => pump_server,
            },
        },
    }
}

/// Everything one relayed connection produced.
pub struct ConnectionRun {
    /// The bytes the outbound peer received, in order.
    pub to_server: Vec<u8>,
    /// The bytes the inbound peer received, in order.
    pub to_client: Vec<u8>,
    /// What the client→server pump reported.
    pub client_result: Result<(), PumpError>,
    /// What the server→client pump reported.
    pub server_result: Result<(), PumpError>,
    /// The persisted record of everything the inbound peer sent.
    pub client_record: CaptureRecord,
    /// The persisted record of everything the outbound peer sent.
    pub server_record: CaptureRecord,
    /// Whether the client→server pump propagated its half-close.
    pub client_half_close: bool,
    /// Whether the server→client pump propagated its half-close.
    pub server_half_close: bool,
}

/// Relay one whole connection: run the client→server pump over what the
/// inbound peer sent and the server→client pump over what the outbound peer
/// sent, then commit both captures — both are always committed, so one
/// side's failure never loses the other side's data.
///
/// The contract states the relay's guarantees for the connection: each peer
/// receives exactly the bytes the other sent, in order and unmodified; each
/// direction's record addresses exactly those bytes under that direction's
/// sub-directory; a direction that ended cleanly — and only such a
/// direction — propagated its half-close; and each pump reports success if
/// and only if its source ended cleanly, independent of the other pump's
/// outcome.
pub fn handle_connection(
    client_chunks: &Vec<Vec<u8>>,
    client_end: SourceEnd,
    server_chunks: &Vec<Vec<u8>>,
    server_end: SourceEnd,
) -> (r: ConnectionRun)
    ensures
        r.to_server@ == concat_chunks(client_chunks.deep_view()),
        r.to_client@ == concat_chunks(server_chunks.deep_view()),
        r.client_record.is_record_for(Direction::Client, concat_chunks(client_chunks.deep_view())),
        r.server_record.is_record_for(Direction::Server, concat_chunks(server_chunks.deep_view())),
        r.client_half_close == (client_end == SourceEnd::Eof),
        r.server_half_close == (server_end == SourceEnd::Eof),
        r.client_result == if client_end == SourceEnd::Eof {
            Result::<(), PumpError>::Ok(())
        } else {
            Result::<(), PumpError>::Err(PumpError::Read)
        },
        r.server_result == if server_end == SourceEnd::Eof {
            Result::<(), PumpError>::Ok(())
        } else {
            Result::<(), PumpError>::Err(PumpError::Read)
        },
{
    let client_run = run_pump(Direction::Client, client_chunks, client_end);
    let server_run = run_pump(Direction::Server, server_chunks, server_end);
    let client_record = make_record(client_run.pump.captured, Direction::Client);
    let server_record = make_record(server_run.pump.captured, Direction::Server);
    ConnectionRun {
        to_server: client_run.forwarded,
        to_client: server_run.forwarded,
        client_result: client_run.result,
        server_result: server_run.result,
        client_record,
        server_record,
        client_half_close: client_run.half_close_propagated,
        server_half_close: server_run.half_close_propagated,
    }
}

} // verus!
