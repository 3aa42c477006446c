//! The decompressing adapter.
//!
//! A [`Decoder`] pulls compressed bytes from a [`Source`] one bounded chunk
//! at a time, feeds them to an engine session, and hands the decompressed
//! bytes to its caller.  The session is opened lazily, on the first call
//! that actually has input to feed, so a source that never yields a byte
//! never costs an engine allocation.
//!
//! The stream's first byte picks the container: the gzip magic opens the
//! crate's own header parser and the body is then inflated bare, with the
//! trailing checksum left unverified, the way the engine's checksum-ignoring
//! zlib mode treats its own; any other first byte hands the whole stream to
//! the engine as zlib-wrapped.

use crate::common::extend_from_range;
use crate::common::AllocationCounter;
use crate::common::DEFAULT_BUFFER_SIZE;
use crate::engine::inflate_step;
use crate::engine::new_inflate_session;
use crate::engine::Container;
use crate::engine::EngineStatus;
use crate::engine::FlushMode;
use crate::engine::StepRecord;
use crate::errors::classify;
use crate::errors::CodecError;
use crate::errors::ErrorKind;
use crate::errors::classify_spec;
use crate::errors::Operation;
use crate::gzip::GzipHeaderParser;
use crate::gzip::GZIP_MAGIC0;
use crate::source::Source;
use miniz_oxide::inflate::stream::InflateState;
use vstd::pervasive::unreached;
use vstd::prelude::*;

verus! {

/// The ghost image of a decoder: everything its contracts speak about.
#[verifier::ext_equal]
pub ghost struct DecoderView {
    /// Whether an engine session is currently open.
    pub initialized: bool,
    /// Whether the end of the compressed stream was reached.
    pub done: bool,
    /// Every byte pulled from the source so far.
    pub pulled: Seq<u8>,
    /// Every decompressed byte handed to the caller so far.
    pub produced: Seq<u8>,
    /// Bytes pulled but not yet consumed by the engine.
    pub pending: Seq<u8>,
    /// The internal pull buffer's capacity: how many bytes one source pull
    /// can yield at most.
    pub capacity: nat,
    /// Whether the last engine step filled the caller's whole buffer with
    /// the stream still open, so the engine may be holding decompressed
    /// bytes that the next read must drain even if the source is dry.
    pub buffered: bool,
    /// The allocation counter's reading.
    pub live_allocations: nat,
}

/// What holds of every decoder between calls: the pending chunk is exactly
/// the tail of what was pulled — no pulled byte is lost, it is either fed to
/// the engine or still waiting — and the allocation counter counts exactly
/// the open session.
pub open spec fn decoder_view_inv(v: DecoderView) -> bool {
    &&& v.pending.len() <= v.pulled.len()
    &&& v.pending == v.pulled.skip(v.pulled.len() - v.pending.len())
    &&& (v.buffered ==> v.initialized)
    &&& v.live_allocations == (if v.initialized {
        1nat
    } else {
        0nat
    })
}

/// Teardown at the ghost level: the session is gone and its resources are
/// released; everything else stays.
pub open spec fn decoder_cleaned(v: DecoderView) -> DecoderView {
    DecoderView { initialized: false, buffered: false, live_allocations: 0, ..v }
}

/// Finishing at the ghost level: teardown plus the terminal flag.
pub open spec fn decoder_finished(v: DecoderView) -> DecoderView {
    DecoderView { done: true, ..decoder_cleaned(v) }
}

/// Teardown more than once is teardown once: cleanup and finish are
/// idempotent at the ghost level, so a second release can never happen.
pub proof fn lemma_decoder_teardown_idempotent(v: DecoderView)
    ensures
        decoder_cleaned(decoder_cleaned(v)) == decoder_cleaned(v),
        decoder_finished(decoder_finished(v)) == decoder_finished(v),
        decoder_cleaned(decoder_finished(v)) == decoder_finished(v),
{
    assert(decoder_cleaned(decoder_cleaned(v)) =~= decoder_cleaned(v));
    assert(decoder_finished(decoder_finished(v)) =~= decoder_finished(v));
    assert(decoder_cleaned(decoder_finished(v)) =~= decoder_finished(v));
}

/// How far the decoder has come in recognising the container around the
/// compressed body.  The stream's first byte decides: the gzip magic opens
/// a header parse and then a bare-deflate session; anything else is handed
/// whole to a zlib session.
#[derive(Clone, Copy)]
enum Framing {
    /// No byte of the stream has been seen: the container is unknown.
    Probe,
    /// The stream announced the gzip container; its header is being read.
    Header(GzipHeaderParser),
    /// A session is open and the body is being decompressed.
    Body,
}

/// Pulls compressed bytes from a source and yields decompressed bytes.
pub struct Decoder<S: Source> {
    source: S,
    session: Option<Box<InflateState>>,
    framing: Framing,
    done: bool,
    buffered: bool,
    buffer: Vec<u8>,
    buf_fill: usize,
    buf_pos: usize,
    bytes_in: Vec<u8>,
    bytes_out: Vec<u8>,
    counter: AllocationCounter,
}

impl<S: Source> View for Decoder<S> {
    type V = DecoderView;

    closed spec fn view(&self) -> DecoderView {
        DecoderView {
            initialized: self.session is Some,
            done: self.done,
            pulled: self.bytes_in@,
            produced: self.bytes_out@,
            pending: self.buffer@.subrange(self.buf_pos as int, self.buf_fill as int),
            capacity: self.buffer@.len(),
            buffered: self.buffered,
            live_allocations: self.counter.live_spec(),
        }
    }
}

impl<S: Source> Decoder<S> {
    /// The representation invariant every public call keeps.
    pub closed spec fn wf(&self) -> bool {
        &&& self.buf_pos <= self.buf_fill
        &&& self.buf_fill <= self.buffer@.len()
        &&& self.source.inv()
        &&& (self.framing is Body) == (self.session is Some)
        &&& decoder_view_inv(self@)
    }

    /// Wrap a source, with the default pull-buffer capacity.
    pub fn new(source: S) -> (r: Decoder<S>)
        requires
            source.inv(),
        ensures
            r.wf(),
            r@ == (DecoderView {
                initialized: false,
                done: false,
                buffered: false,
                pulled: Seq::<u8>::empty(),
                produced: Seq::<u8>::empty(),
                pending: Seq::<u8>::empty(),
                capacity: DEFAULT_BUFFER_SIZE as nat,
                live_allocations: 0,
            }),
    {
        Self::new_with_size(source, DEFAULT_BUFFER_SIZE)
    }

    /// Wrap a source, pulling at most `size` bytes per call.  No engine
    /// session is opened yet: that waits for the first pull that yields
    /// bytes.
    pub fn new_with_size(source: S, size: usize) -> (r: Decoder<S>)
        requires
            source.inv(),
        ensures
            r.wf(),
            r@ == (DecoderView {
                initialized: false,
                done: false,
                buffered: false,
                pulled: Seq::<u8>::empty(),
                produced: Seq::<u8>::empty(),
                pending: Seq::<u8>::empty(),
                capacity: size as nat,
                live_allocations: 0,
            }),
    {
        let d = Decoder {
            source,
            session: None,
            framing: Framing::Probe,
            done: false,
            buffered: false,
            buffer: vec![0u8; size],
            buf_fill: 0,
            buf_pos: 0,
            bytes_in: Vec::new(),
            bytes_out: Vec::new(),
            counter: AllocationCounter::new(),
        };
        proof {
            assert(d@ =~= (DecoderView {
                initialized: false,
                done: false,
                buffered: false,
                pulled: Seq::<u8>::empty(),
                produced: Seq::<u8>::empty(),
                pending: Seq::<u8>::empty(),
                capacity: size as nat,
                live_allocations: 0,
            }));
            assert(d@.pending =~= d@.pulled.skip(d@.pulled.len() - d@.pending.len()));
        }
        d
    }

    /// Whether the end of the compressed stream was reached.  Once true it
    /// stays true for the adapter's lifetime, and reads yield nothing more.
    pub fn is_done(&self) -> (r: bool)
        ensures
            r == self@.done,
    {
        self.done
    }

    /// Every byte pulled from the source so far, in order.
    pub fn bytes_in(&self) -> (r: &Vec<u8>)
        ensures
            r@ == self@.pulled,
    {
        &self.bytes_in
    }

    /// Every decompressed byte handed to the caller so far, in order.
    pub fn bytes_out(&self) -> (r: &Vec<u8>)
        ensures
            r@ == self@.produced,
    {
        &self.bytes_out
    }

    /// Cumulative count of bytes pulled from the source.
    pub fn total_in(&self) -> (r: usize)
        ensures
            r as nat == self@.pulled.len(),
    {
        self.bytes_in.len()
    }

    /// Cumulative count of bytes handed to the caller.
    pub fn total_out(&self) -> (r: usize)
        ensures
            r as nat == self@.produced.len(),
    {
        self.bytes_out.len()
    }

    /// The allocation counter's reading: one while a session is open, zero
    /// otherwise.
    pub fn live_allocations(&self) -> (r: u64)
        ensures
            r as nat == self@.live_allocations,
    {
        self.counter.live()
    }

    /// Pull one chunk from the source, feed it to the engine, and write up
    /// to `buf.len()` decompressed bytes to the front of `buf`, returning
    /// how many.  Zero means nothing could be produced right now; the end of
    /// the stream announces itself through `is_done`.
    ///
    /// At most one source pull happens per call, and only when no earlier
    /// chunk is still pending; the engine session is opened lazily, on the
    /// first call that has input to feed.  A call that finds the source dry
    /// returns zero at once and leaves the engine untouched — unless the
    /// last step filled the caller's whole buffer, in which case the engine
    /// may still hold decompressed bytes and gets one step with no input to
    /// drain them — without that step those bytes could never be handed
    /// out, and the adapter's promise that no byte of the stream is lost
    /// would fall.  A failed step classifies the engine's status and leaves
    /// the adapter as it was; a source failure is handed through unchanged.
    pub fn read(&mut self, buf: &mut Vec<u8>) -> (r: Result<usize, CodecError>)
        requires
            old(self).wf(),
        ensures
            final(self).wf(),
            decoder_view_inv(final(self)@),
            final(buf)@.len() == old(buf)@.len(),
            old(self)@.done ==> r == Ok::<usize, CodecError>(0usize)
                && final(self)@ == old(self)@
                && final(buf)@ == old(buf)@,
            old(self)@.done ==> final(self)@.done,
            final(self)@.capacity == old(self)@.capacity,
            old(self)@.pulled.is_prefix_of(final(self)@.pulled),
            final(self)@.pulled.len() <= old(self)@.pulled.len() + old(self)@.capacity,
            old(self)@.produced.is_prefix_of(final(self)@.produced),
            final(self)@.initialized ==> old(self)@.initialized
                || final(self)@.pulled.len() > old(self)@.pulled.len()
                || old(self)@.pending.len() > 0,
            (r matches Ok(n) ==> n <= final(buf)@.len()
                && final(self)@.produced == old(self)@.produced + final(buf)@.take(n as int)
                && final(self)@.produced.len() == old(self)@.produced.len() + n),
            (!old(self)@.done && final(self)@.done) ==> r is Ok,
            (r matches Err(e) ==> final(self)@.produced == old(self)@.produced
                && final(self)@.done == old(self)@.done
                && (e matches CodecError::Source(_) ==> final(self)@ == old(self)@)),
            (r matches Ok(n) ==> ((final(self)@.pulled == old(self)@.pulled
                && old(self)@.pending.len() == 0
                && !old(self)@.done
                && !old(self)@.buffered) ==> n == 0 && final(self)@ == old(self)@)),
    {
        if self.done {
            return Ok(0);
        }
        if self.buf_pos == self.buf_fill {
            let pulled = self.source.pull(&mut self.buffer);
            match pulled {
                Ok(n) => {
                    extend_from_range(&mut self.bytes_in, &self.buffer, 0, n);
                    self.buf_fill = n;
                    self.buf_pos = 0;
                    proof {
                        assert(self@.pending =~= self@.pulled.skip(
                            self@.pulled.len() - self@.pending.len(),
                        ));
                        assert(old(self)@.pulled.is_prefix_of(self@.pulled)) by {
                            assert(old(self)@.pulled =~= self@.pulled.subrange(
                                0,
                                old(self)@.pulled.len() as int,
                            ));
                        }
                    }
                },
                Err(e) => {
                    proof {
                        assert(self@.pending =~= self@.pulled.skip(
                            self@.pulled.len() - self@.pending.len(),
                        ));
                        assert(self@ =~= old(self)@);
                    }
                    return Err(e);
                },
            }
        }
        if self.buf_pos == self.buf_fill && !self.buffered {
            proof {
                assert(self@ =~= old(self)@);
            }
            return Ok(0);
        }
        let draining = self.buf_pos == self.buf_fill;
        if !matches!(self.framing, Framing::Body) {
            // A drain step happens only with an open session, so here the
            // pending chunk is not empty.
            proof {
                assert(self.buf_pos < self.buf_fill);
            }
            if matches!(self.framing, Framing::Probe) {
                // The stream's first byte decides the container.
                let first = self.buffer[self.buf_pos];
                if first == GZIP_MAGIC0 {
                    self.framing = Framing::Header(GzipHeaderParser::new());
                } else {
                    let session = new_inflate_session(Container::Zlib);
                    self.session = Some(session);
                    self.counter.on_allocate();
                    self.framing = Framing::Body;
                }
            }
            let parser_taken = match self.framing {
                Framing::Header(p) => Some(p),
                _ => None,
            };
            match parser_taken {
                Some(mut parser) => {
                    proof {
                        assert(old(self)@.pulled.is_prefix_of(self@.pulled)) by {
                            assert(old(self)@.pulled =~= self@.pulled.subrange(
                                0,
                                old(self)@.pulled.len() as int,
                            ));
                        }
                        assert(old(self)@.pending.len() > 0 || self@.pulled.len() > old(
                            self,
                        )@.pulled.len());
                    }
                    while self.buf_pos < self.buf_fill && !parser.is_complete()
                        invariant
                            self.buf_pos <= self.buf_fill,
                            self.buf_fill <= self.buffer@.len(),
                            !old(self)@.done,
                            self.done == false,
                            self.buffered == false,
                            self.session is None,
                            self.framing is Header,
                            self.counter.live_spec() == 0,
                            self.source.inv(),
                            buf@ == old(buf)@,
                            self@.produced == old(self)@.produced,
                            old(self)@.pulled.is_prefix_of(self@.pulled),
                            self@.capacity == old(self)@.capacity,
                            self@.pulled.len() <= old(self)@.pulled.len() + old(self)@.capacity,
                            old(self)@.pending.len() > 0 || self@.pulled.len() > old(
                                self,
                            )@.pulled.len(),
                            self@.pending.len() <= self@.pulled.len(),
                            self@.pending == self@.pulled.skip(
                                self@.pulled.len() - self@.pending.len(),
                            ),
                        decreases self.buf_fill - self.buf_pos,
                    {
                        let b = self.buffer[self.buf_pos];
                        let accepted = parser.feed(b);
                        if !accepted {
                            return Err(
                                CodecError::Engine(Operation::Inflating, ErrorKind::DataCorruption),
                            );
                        }
                        let ghost pend0 = self@.pending;
                        self.buf_pos = self.buf_pos + 1;
                        proof {
                            assert(self@.pending =~= pend0.skip(1));
                            assert(self@.pending =~= self@.pulled.skip(
                                self@.pulled.len() - self@.pending.len(),
                            ));
                        }
                    }
                    if parser.is_complete() {
                        // The header is done; the body is bare deflate.
                        let session = new_inflate_session(Container::Raw);
                        self.session = Some(session);
                        self.counter.on_allocate();
                        self.framing = Framing::Body;
                        if self.buf_pos == self.buf_fill {
                            proof {
                                assert(self@.produced =~= old(self)@.produced + buf@.take(0));
                            }
                            return Ok(0);
                        }
                    } else {
                        self.framing = Framing::Header(parser);
                        proof {
                            assert(self@.produced =~= old(self)@.produced + buf@.take(0));
                        }
                        return Ok(0);
                    }
                },
                None => {},
            }
        }
        let mut session = match self.session.take() {
            Some(s) => s,
            None => unreached(),
        };
        let record = inflate_step(
            &mut session,
            &self.buffer,
            self.buf_pos,
            self.buf_fill,
            buf,
            FlushMode::Continue,
        );
        self.session = Some(session);
        let r = self.absorb_step(record, buf, draining);
        proof {
            assert(old(self)@.produced + buf@.take(0) =~= old(self)@.produced);
            assert(old(self)@.produced.is_prefix_of(self@.produced)) by {
                assert(old(self)@.produced =~= self@.produced.subrange(
                    0,
                    old(self)@.produced.len() as int,
                ));
            }
        }
        r
    }

    /// Fold one engine step report into the adapter: drop the consumed
    /// bytes from the pending chunk, append what the step wrote to the
    /// front of `buf` to the produced record, decide the terminal and drain
    /// flags from the status, and classify a failure.  The one exception: a
    /// fruitless drain step — no input given, no progress possible — is not
    /// a failure but a plain "nothing right now".
    fn absorb_step(&mut self, record: StepRecord, buf: &Vec<u8>, draining: bool) -> (r: Result<
        usize,
        CodecError,
    >)
        requires
            old(self).wf(),
            old(self)@.initialized,
            !old(self)@.done,
            record.consumed as nat <= old(self)@.pending.len(),
            record.produced as nat <= buf@.len(),
        ensures
            final(self).wf(),
            final(self)@.pulled == old(self)@.pulled,
            final(self)@.capacity == old(self)@.capacity,
            final(self)@.initialized,
            final(self)@.live_allocations == old(self)@.live_allocations,
            classify_spec(record.status) is None ==> r == Ok::<usize, CodecError>(record.produced)
                && final(self)@.pending == old(self)@.pending.skip(record.consumed as int)
                && final(self)@.produced == old(self)@.produced + buf@.take(record.produced as int)
                && final(self)@.done == (record.status is StreamEnd)
                && final(self)@.buffered == (record.produced == buf@.len()
                    && record.status is Working),
            (classify_spec(record.status) matches Some(k) ==> (!(draining
                && record.status is BufErr) ==> r == Err::<usize, CodecError>(
                CodecError::Engine(Operation::Inflating, k),
            ) && final(self)@ == old(self)@)),
            (draining && record.status is BufErr) ==> r == Ok::<usize, CodecError>(0usize)
                && final(self)@ == (DecoderView { buffered: false, ..old(self)@ }),
    {
        match classify(record.status) {
            None => {
                let ghost pre = self@;
                self.buf_pos = self.buf_pos + record.consumed;
                extend_from_range(&mut self.bytes_out, buf, 0, record.produced);
                let working = matches!(record.status, EngineStatus::Working);
                self.buffered = record.produced == buf.len() && working;
                if matches!(record.status, EngineStatus::StreamEnd) {
                    self.done = true;
                }
                proof {
                    assert(self@.pending =~= pre.pending.skip(record.consumed as int));
                    assert(self@.pending =~= self@.pulled.skip(
                        self@.pulled.len() - self@.pending.len(),
                    ));
                    assert(self@.produced =~= pre.produced + buf@.take(record.produced as int));
                }
                Ok(record.produced)
            },
            Some(kind) => {
                if draining && matches!(kind, ErrorKind::BufferExhausted) {
                    // The engine held nothing back after all.
                    self.buffered = false;
                    proof {
                        assert(self@ =~= (DecoderView { buffered: false, ..old(self)@ }));
                    }
                    Ok(0)
                } else {
                    Err(CodecError::Engine(Operation::Inflating, kind))
                }
            },
        }
    }

    /// Release the engine session, if one is open, exactly once.  Safe to
    /// call any number of times: a decoder with no open session is left as
    /// it is.
    pub fn cleanup(&mut self)
        requires
            old(self).wf(),
        ensures
            final(self).wf(),
            final(self)@ == decoder_cleaned(old(self)@),
    {
        match self.session.take() {
            Some(_session) => {
                self.counter.on_release();
            },
            None => {},
        }
        self.framing = Framing::Probe;
        self.buffered = false;
        proof {
            assert(self@ =~= decoder_cleaned(old(self)@));
        }
    }

    /// Release resources and declare the stream over: mark the adapter done
    /// and release the engine session.  Further reads return zero bytes.
    pub fn finish(&mut self) -> (r: Result<usize, CodecError>)
        requires
            old(self).wf(),
        ensures
            final(self).wf(),
            final(self)@ == decoder_finished(old(self)@),
            r == Ok::<usize, CodecError>(0usize),
    {
        self.done = true;
        self.cleanup();
        proof {
            assert(self@ =~= decoder_finished(old(self)@));
        }
        Ok(0)
    }
}

/// A decoder is itself a source: adapters compose, so decompressed output
/// can feed any consumer of the pull contract.
impl<S: Source> Source for Decoder<S> {
    open spec fn inv(&self) -> bool {
        self.wf()
    }

    fn pull(&mut self, buf: &mut Vec<u8>) -> (r: Result<usize, CodecError>) {
        self.read(buf)
    }
}

} // verus!
