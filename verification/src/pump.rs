//! The stream pump: the unidirectional copy loop that reads chunks from a
//! source stream, records every byte in a capture buffer, and forwards the
//! bytes to a sink stream, propagating a half-close when the source ends.
//!
//! The loop's I/O lives outside the library. Each read is handed in as a
//! [`ReadEvent`]; the pump answers with the [`PumpAction`] the caller must
//! perform on the sink, and its contracts state exactly what is captured and
//! forwarded. [`run_pump`] drives a whole run against an in-memory sink and
//! states the end-to-end guarantees: the sink receives exactly the source's
//! bytes in order, the capture buffer holds the same bytes, and a clean
//! end-of-stream — and only a clean end-of-stream — propagates the
//! half-close.

use vstd::prelude::*;

use crate::direction::Direction;

verus! {

/// The fixed number of bytes one read from the source may return at most.
pub const CHUNK_SIZE: usize = 1024;

/// What one read from the source stream produced.
pub enum ReadEvent {
    /// The read returned these bytes.
    Data(Vec<u8>),
    /// The read returned zero bytes: orderly end-of-stream.
    Eof,
    /// The read failed.
    ReadError,
}

/// What the caller must do with the sink stream after handing the pump a
/// read event.
pub enum PumpAction {
    /// Write all of these bytes to the sink and flush before the next read,
    /// then report back through [`Pump::on_write_result`].
    Forward(Vec<u8>),
    /// Shut down the read side of the sink's socket, so the opposite pump
    /// observes termination instead of blocking, then stop: the source
    /// reached end-of-stream and the pump ended cleanly.
    ShutdownPeerRead,
    /// Stop: the read failed and the pump ends with that error.
    Stop,
}

/// Where a pump stands.
#[derive(Clone, Copy, PartialEq, Eq, Structural, Debug)]
pub enum PumpStatus {
    /// Still relaying.
    Running,
    /// The source reached end-of-stream and the half-close was propagated.
    CleanClose,
    /// A read from the source failed.
    ReadFailed,
    /// A write to, or flush of, the sink failed.
    WriteFailed,
}

/// Why a pump ended early — what the copy loop reports upward.
#[derive(Clone, Copy, PartialEq, Eq, Structural, Debug)]
pub enum PumpError {
    /// A read from the source failed.
    Read,
    /// A write to, or flush of, the sink failed.
    Write,
}

/// One direction's copy loop state: the direction tag, every byte read so
/// far in order (the capture buffer), and whether the pump still runs.
pub struct Pump {
    /// Which peer the pumped bytes originate from.
    pub dir: Direction,
    /// Every byte read from the source so far, in the order read.
    pub captured: Vec<u8>,
    /// Where the pump stands.
    pub status: PumpStatus,
}

/// Append all of `src` to `dst`, keeping `src` intact.
pub(crate) fn append_bytes(dst: &mut Vec<u8>, src: &Vec<u8>)
    ensures
        final(dst)@ == old(dst)@ + src@,
{
    let mut i: usize = 0;
    while i < src.len()
        invariant
            i <= src@.len(),
            dst@ == old(dst)@ + src@.take(i as int),
        decreases src@.len() - i,
    {
        dst.push(src[i]);
        proof {
            assert(src@.take(i as int + 1) =~= src@.take(i as int).push(src@[i as int]));
            assert(dst@ =~= old(dst)@ + src@.take(i as int + 1));
        }
        i += 1;
    }
    proof {
        assert(src@.take(src@.len() as int) =~= src@);
    }
}

impl Pump {
    /// A fresh pump for one direction: empty capture buffer, running.
    pub fn new(dir: Direction) -> (p: Pump)
        ensures
            p.dir == dir,
            p.captured@ == Seq::<u8>::empty(),
            p.status == PumpStatus::Running,
    {
        Pump { dir, captured: Vec::new(), status: PumpStatus::Running }
    }

    /// One step of the copy loop: consume what the read produced, record it,
    /// and say what to do with the sink.
    ///
    /// Bytes are appended to the capture buffer and forwarded unmodified, in
    /// order; end-of-stream propagates the half-close and ends the pump
    /// cleanly; a failed read ends the pump with the read error. Nothing is
    /// ever captured that was not read, and nothing read is dropped.
    pub fn on_read(&mut self, ev: ReadEvent) -> (a: PumpAction)
        requires
            old(self).status == PumpStatus::Running,
        ensures
            final(self).dir == old(self).dir,
            ev matches ReadEvent::Data(d) ==> {
                &&& final(self).captured@ == old(self).captured@ + d@
                &&& final(self).status == PumpStatus::Running
                &&& a matches PumpAction::Forward(f) && f@ == d@
            },
            ev matches ReadEvent::Eof ==> {
                &&& final(self).captured@ == old(self).captured@
                &&& final(self).status == PumpStatus::CleanClose
                &&& a matches PumpAction::ShutdownPeerRead
            },
            ev matches ReadEvent::ReadError ==> {
                &&& final(self).captured@ == old(self).captured@
                &&& final(self).status == PumpStatus::ReadFailed
                &&& a matches PumpAction::Stop
            },
    {
        match ev {
            ReadEvent::Data(d) => {
                append_bytes(&mut self.captured, &d);
                PumpAction::Forward(d)
            },
            ReadEvent::Eof => {
                self.status = PumpStatus::CleanClose;
                PumpAction::ShutdownPeerRead
            },
            ReadEvent::ReadError => {
                self.status = PumpStatus::ReadFailed;
                PumpAction::Stop
            },
        }
    }

    /// Record the sink's answer to a forwarded chunk: a failed write or
    /// flush ends the pump with the write error; the capture buffer keeps
    /// the chunk either way, so a partial transfer is still captured.
    pub fn on_write_result(&mut self, ok: bool)
        requires
            old(self).status == PumpStatus::Running,
        ensures
            final(self).dir == old(self).dir,
            final(self).captured@ == old(self).captured@,
            final(self).status == if ok {
                PumpStatus::Running
            } else {
                PumpStatus::WriteFailed
            },
    {
        if !ok {
            self.status = PumpStatus::WriteFailed;
        }
    }

    /// What the copy loop reports upward once the pump has stopped.
    pub fn result(&self) -> (r: Result<(), PumpError>)
        requires
            self.status != PumpStatus::Running,
        ensures
            r == match self.status {
                PumpStatus::CleanClose => Result::<(), PumpError>::Ok(()),
                PumpStatus::ReadFailed => Result::<(), PumpError>::Err(PumpError::Read),
                _ => Result::<(), PumpError>::Err(PumpError::Write),
            },
    {
        match self.status {
            PumpStatus::CleanClose => Ok(()),
            PumpStatus::ReadFailed => Err(PumpError::Read),
            _ => Err(PumpError::Write),
        }
    }
}

/// How a simulated source stream ends after its data chunks.
#[derive(Clone, Copy, PartialEq, Eq, Structural, Debug)]
pub enum SourceEnd {
    /// Orderly end-of-stream: the source's peer closed its write side.
    Eof,
    /// The final read fails.
    ReadError,
}

/// The concatenation of a sequence of byte chunks, in order.
pub open spec fn concat_chunks(cs: Seq<Seq<u8>>) -> Seq<u8>
    decreases cs.len(),
{
    if cs.len() == 0 {
        Seq::empty()
    } else {
        concat_chunks(cs.drop_last()) + cs.last()
    }
}

/// A whole pump run's outcome.
pub struct PumpRun {
    /// Every byte written to the sink, in the order written.
    pub forwarded: Vec<u8>,
    /// The pump as it stands after the run; its buffer holds the capture.
    pub pump: Pump,
    /// Whether the run shut down the read side of the sink's peer socket.
    pub half_close_propagated: bool,
    /// What the copy loop reports upward.
    pub result: Result<(), PumpError>,
}

/// Drive one pump over a whole source stream, given as its data chunks
/// followed by how the stream ends, forwarding every chunk to an in-memory
/// sink whose writes succeed.
///
/// The contract states the pump's end-to-end guarantees: the sink receives
/// exactly the bytes the source produced, in order and unmodified; the
/// capture buffer holds exactly the same bytes; the half-close is propagated
/// if and only if the source ended cleanly, and after all its bytes were
/// forwarded; a source that fails after its chunks leaves exactly the bytes
/// forwarded so far in the capture, and the run reports the read error.
pub fn run_pump(dir: Direction, chunks: &Vec<Vec<u8>>, end: SourceEnd) -> (r: PumpRun)
    ensures
        r.pump.dir == dir,
        r.forwarded@ == concat_chunks(chunks.deep_view()),
        r.pump.captured@ == concat_chunks(chunks.deep_view()),
        r.half_close_propagated == (end == SourceEnd::Eof),
        r.pump.status == if end == SourceEnd::Eof {
            PumpStatus::CleanClose
        } else {
            PumpStatus::ReadFailed
        },
        r.result == if end == SourceEnd::Eof {
            Result::<(), PumpError>::Ok(())
        } else {
            Result::<(), PumpError>::Err(PumpError::Read)
        },
{
    let mut pump = Pump::new(dir);
    let mut forwarded: Vec<u8> = Vec::new();
    let mut i: usize = 0;
    while i < chunks.len()
        invariant
            i <= chunks@.len(),
            pump.dir == dir,
            pump.status == PumpStatus::Running,
            pump.captured@ == concat_chunks(chunks.deep_view().take(i as int)),
            forwarded@ == pump.captured@,
        decreases chunks@.len() - i,
    {
        let mut chunk: Vec<u8> = Vec::new();
        append_bytes(&mut chunk, &chunks[i]);
        let action = pump.on_read(ReadEvent::Data(chunk));
        match action {
            PumpAction::Forward(f) => {
                append_bytes(&mut forwarded, &f);
                pump.on_write_result(true);
            },
            _ => {
                proof {
                    assert(false);
                }
            },
        }
        proof {
            let taken = chunks.deep_view().take(i as int + 1);
            assert(taken.drop_last() =~= chunks.deep_view().take(i as int));
            assert(taken.last() == chunks@[i as int]@);
            assert(pump.captured@ =~= concat_chunks(taken));
        }
        i += 1;
    }
    proof {
        assert(chunks.deep_view().take(chunks@.len() as int) =~= chunks.deep_view());
    }
    let half_close_propagated: bool;
    match end {
        SourceEnd::Eof => {
            let action = pump.on_read(ReadEvent::Eof);
            half_close_propagated = match action {
                PumpAction::ShutdownPeerRead => true,
                _ => false,
            };
        },
        SourceEnd::ReadError => {
            let action = pump.on_read(ReadEvent::ReadError);
            half_close_propagated = false;
            match action {
                PumpAction::Stop => {},
                _ => {
                    proof {
                        assert(false);
                    }
                },
            }
        },
    }
    let result = pump.result();
    PumpRun { forwarded, pump, half_close_propagated, result }
}

} // verus!
