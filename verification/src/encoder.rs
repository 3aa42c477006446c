//! The compressing adapter.
//!
//! An [`Encoder`] pulls plain bytes from a [`Source`] one bounded chunk at a
//! time, feeds them to an engine session, and hands the compressed bytes to
//! its caller.  The session is opened eagerly, at construction, so the
//! adapter is always ready to accept and flush input.  `finish` raises a
//! one-way flag; the caller keeps calling it until `is_done` reports that
//! the engine has flushed everything it held back.

use crate::common::extend_from_range;
use crate::common::AllocationCounter;
use crate::common::DEFAULT_BUFFER_SIZE;
use crate::engine::deflate_config_flags;
use crate::engine::deflate_step;
use crate::engine::new_deflate_session;
use crate::engine::EngineStatus;
use crate::engine::FlushMode;
use crate::engine::StepRecord;
use crate::errors::classify;
use crate::errors::classify_spec;
use crate::errors::CodecError;
use crate::errors::ErrorKind;
use crate::errors::Operation;
use crate::source::Source;
use vstd::prelude::*;

verus! {

/// The compression level every session is opened with: the lowest level
/// that still compresses.
pub const COMPRESSION_LEVEL: u8 = 1;

/// The window-bits request every session is opened with: positive, so the
/// engine wraps its output in the zlib container.
pub const WINDOW_BITS: u8 = 15;

/// The match strategy every session is opened with: the engine's default.
pub const STRATEGY: u8 = 0;

/// The ghost image of an encoder: everything its contracts speak about.
#[verifier::ext_equal]
pub ghost struct EncoderView {
    /// Whether an engine session is currently open.
    pub initialized: bool,
    /// Whether the one-way finish flag has been raised.
    pub finish: bool,
    /// Whether the engine has flushed its trailing state.
    pub done: bool,
    /// Every byte pulled from the source so far.
    pub pulled: Seq<u8>,
    /// Every compressed byte handed to the caller so far.
    pub produced: Seq<u8>,
    /// Bytes pulled but not yet consumed by the engine.
    pub pending: Seq<u8>,
    /// The internal pull buffer's capacity: how many bytes one source pull
    /// can yield at most.
    pub capacity: nat,
    /// The allocation counter's reading.
    pub live_allocations: nat,
}

/// What holds of every encoder between calls: the pending chunk is exactly
/// the tail of what was pulled — no pulled byte is lost, it is either fed to
/// the engine or still waiting — and the allocation counter counts exactly
/// the open session.
pub open spec fn encoder_view_inv(v: EncoderView) -> bool {
    &&& v.pending.len() <= v.pulled.len()
    &&& v.pending == v.pulled.skip(v.pulled.len() - v.pending.len())
    &&& v.live_allocations == (if v.initialized {
        1nat
    } else {
        0nat
    })
}

/// Teardown at the ghost level: the session is gone and its resources are
/// released; everything else stays.
pub open spec fn encoder_cleaned(v: EncoderView) -> EncoderView {
    EncoderView { initialized: false, live_allocations: 0, ..v }
}

/// Teardown more than once is teardown once: cleanup is idempotent at the
/// ghost level, so a second release can never happen.
pub proof fn lemma_encoder_teardown_idempotent(v: EncoderView)
    ensures
        encoder_cleaned(encoder_cleaned(v)) == encoder_cleaned(v),
{
    assert(encoder_cleaned(encoder_cleaned(v)) =~= encoder_cleaned(v));
}

/// Pulls plain bytes from a source and yields compressed bytes.
pub struct Encoder<S: Source> {
    source: S,
    session: Option<Box<miniz_oxide::deflate::core::CompressorOxide>>,
    finish: bool,
    done: bool,
    buffer: Vec<u8>,
    buf_fill: usize,
    buf_pos: usize,
    bytes_in: Vec<u8>,
    bytes_out: Vec<u8>,
    counter: AllocationCounter,
}

impl<S: Source> View for Encoder<S> {
    type V = EncoderView;

    closed spec fn view(&self) -> EncoderView {
        EncoderView {
            initialized: self.session is Some,
            finish: self.finish,
            done: self.done,
            pulled: self.bytes_in@,
            produced: self.bytes_out@,
            pending: self.buffer@.subrange(self.buf_pos as int, self.buf_fill as int),
            capacity: self.buffer@.len(),
            live_allocations: self.counter.live_spec(),
        }
    }
}

impl<S: Source> Encoder<S> {
    /// The representation invariant every public call keeps.
    pub closed spec fn wf(&self) -> bool {
        &&& self.buf_pos <= self.buf_fill
        &&& self.buf_fill <= self.buffer@.len()
        &&& self.source.inv()
        &&& encoder_view_inv(self@)
    }

    /// Wrap a source, with the default pull-buffer capacity.
    pub fn new(source: S) -> (r: Encoder<S>)
        requires
            source.inv(),
        ensures
            r.wf(),
            r@ == (EncoderView {
                initialized: true,
                finish: false,
                done: false,
                pulled: Seq::<u8>::empty(),
                produced: Seq::<u8>::empty(),
                pending: Seq::<u8>::empty(),
                capacity: DEFAULT_BUFFER_SIZE as nat,
                live_allocations: 1,
            }),
    {
        Self::new_with_size(source, DEFAULT_BUFFER_SIZE)
    }

    /// Wrap a source, pulling at most `size` bytes per call.  The engine
    /// session is opened here, with the crate's fixed level, window bits and
    /// strategy, so the encoder is ready to accept and flush input at once.
    pub fn new_with_size(source: S, size: usize) -> (r: Encoder<S>)
        requires
            source.inv(),
        ensures
            r.wf(),
            r@ == (EncoderView {
                initialized: true,
                finish: false,
                done: false,
                pulled: Seq::<u8>::empty(),
                produced: Seq::<u8>::empty(),
                pending: Seq::<u8>::empty(),
                capacity: size as nat,
                live_allocations: 1,
            }),
    {
        let e = Encoder {
            source,
            session: None,
            finish: false,
            done: false,
            buffer: vec![0u8; size],
            buf_fill: 0,
            buf_pos: 0,
            bytes_in: Vec::new(),
            bytes_out: Vec::new(),
            counter: AllocationCounter::new(),
        };
        proof {
            assert(e@.pending =~= e@.pulled.skip(e@.pulled.len() - e@.pending.len()));
        }
        let r = e.initialize();
        proof {
            assert(r@ =~= (EncoderView {
                initialized: true,
                finish: false,
                done: false,
                pulled: Seq::<u8>::empty(),
                produced: Seq::<u8>::empty(),
                pending: Seq::<u8>::empty(),
                capacity: size as nat,
                live_allocations: 1,
            }));
        }
        r
    }

    /// Open the engine session if none is open; an encoder that already has
    /// one is handed back unchanged.
    pub fn initialize(self) -> (r: Encoder<S>)
        requires
            self.wf(),
        ensures
            r.wf(),
            r@ == (EncoderView { initialized: true, live_allocations: 1, ..self@ }),
    {
        let mut this = self;
        if this.session.is_none() {
            let flags = deflate_config_flags(COMPRESSION_LEVEL, WINDOW_BITS, STRATEGY);
            this.session = Some(new_deflate_session(flags));
            this.counter.on_allocate();
        }
        proof {
            assert(this@ =~= (EncoderView { initialized: true, live_allocations: 1, ..self@ }));
        }
        this
    }

    /// Whether the engine has flushed its trailing state.  Once true it
    /// stays true for the adapter's lifetime, and reads yield nothing more.
    pub fn is_done(&self) -> (r: bool)
        ensures
            r == self@.done,
    {
        self.done
    }

    /// Every byte pulled from the source so far, in order.
    pub fn bytes_in(&self) -> (r: &Vec<u8>)
        ensures
            r@ == self@.pulled,
    {
        &self.bytes_in
    }

    /// Every compressed byte handed to the caller so far, in order.
    pub fn bytes_out(&self) -> (r: &Vec<u8>)
        ensures
            r@ == self@.produced,
    {
        &self.bytes_out
    }

    /// Cumulative count of bytes pulled from the source.
    pub fn total_in(&self) -> (r: usize)
        ensures
            r as nat == self@.pulled.len(),
    {
        self.bytes_in.len()
    }

    /// Cumulative count of bytes handed to the caller.
    pub fn total_out(&self) -> (r: usize)
        ensures
            r as nat == self@.produced.len(),
    {
        self.bytes_out.len()
    }

    /// The allocation counter's reading: one while a session is open, zero
    /// otherwise.
    pub fn live_allocations(&self) -> (r: u64)
        ensures
            r as nat == self@.live_allocations,
    {
        self.counter.live()
    }

    /// Pull one chunk from the source, feed it to the engine, and write up
    /// to `buf.len()` compressed bytes to the front of `buf`, returning how
    /// many.  When the source is dry and `finish` has not been requested,
    /// the engine is left untouched and zero is returned.
    ///
    /// At most one source pull happens per call, and only when no earlier
    /// chunk is still pending.  Once the finish flag is up, every step runs
    /// in `Finish` mode until the engine reports the end of the stream.  A
    /// failed step classifies the engine's status and leaves the adapter as
    /// it was; a source failure is handed through unchanged.
    pub fn read(&mut self, buf: &mut Vec<u8>) -> (r: Result<usize, CodecError>)
        requires
            old(self).wf(),
        ensures
            final(self).wf(),
            encoder_view_inv(final(self)@),
            final(buf)@.len() == old(buf)@.len(),
            old(self)@.done ==> r == Ok::<usize, CodecError>(0usize)
                && final(self)@ == old(self)@
                && final(buf)@ == old(buf)@,
            old(self)@.done ==> final(self)@.done,
            final(self)@.finish == old(self)@.finish,
            final(self)@.initialized == old(self)@.initialized,
            final(self)@.capacity == old(self)@.capacity,
            old(self)@.pulled.is_prefix_of(final(self)@.pulled),
            final(self)@.pulled.len() <= old(self)@.pulled.len() + old(self)@.capacity,
            old(self)@.produced.is_prefix_of(final(self)@.produced),
            (r matches Ok(n) ==> n <= final(buf)@.len()
                && final(self)@.produced == old(self)@.produced + final(buf)@.take(n as int)
                && final(self)@.produced.len() == old(self)@.produced.len() + n),
            (!old(self)@.done && final(self)@.done) ==> r is Ok,
            (r matches Ok(n) ==> (!old(self)@.initialized ==> n == 0 && final(self)@ == old(
                self,
            )@)),
            (!old(self)@.initialized && !old(self)@.done && old(self)@.pending.len() > 0) ==> r
                == Err::<usize, CodecError>(
                CodecError::Engine(Operation::Deflating, ErrorKind::StreamStateError),
            ) && final(self)@ == old(self)@,
            (r matches Err(e) ==> final(self)@.produced == old(self)@.produced
                && final(self)@.done == old(self)@.done
                && (e matches CodecError::Source(_) ==> final(self)@ == old(self)@)),
            (r matches Ok(n) ==> ((final(self)@.pulled == old(self)@.pulled
                && old(self)@.pending.len() == 0
                && !old(self)@.done
                && !old(self)@.finish) ==> n == 0 && final(self)@ == old(self)@)),
    {
        if self.done {
            return Ok(0);
        }
        if self.buf_pos == self.buf_fill {
            let pulled = self.source.pull(&mut self.buffer);
            match pulled {
                Ok(n) => {
                    extend_from_range(&mut self.bytes_in, &self.buffer, 0, n);
                    self.buf_fill = n;
                    self.buf_pos = 0;
                    proof {
                        assert(self@.pending =~= self@.pulled.skip(
                            self@.pulled.len() - self@.pending.len(),
                        ));
                        assert(old(self)@.pulled.is_prefix_of(self@.pulled)) by {
                            assert(old(self)@.pulled =~= self@.pulled.subrange(
                                0,
                                old(self)@.pulled.len() as int,
                            ));
                        }
                    }
                },
                Err(e) => {
                    proof {
                        assert(self@.pending =~= self@.pulled.skip(
                            self@.pulled.len() - self@.pending.len(),
                        ));
                        assert(self@ =~= old(self)@);
                    }
                    return Err(e);
                },
            }
        }
        if self.buf_pos == self.buf_fill && !self.finish {
            proof {
                assert(self@ =~= old(self)@);
            }
            return Ok(0);
        }
        let mut session = match self.session.take() {
            Some(s) => s,
            None => {
                proof {
                    if old(self)@.pending.len() > 0 {
                        assert(self@ =~= old(self)@);
                    }
                }
                return Err(CodecError::Engine(Operation::Deflating, ErrorKind::StreamStateError));
            },
        };
        let mode = if self.finish {
            FlushMode::Finish
        } else {
            FlushMode::Continue
        };
        let record = deflate_step(
            &mut session,
            &self.buffer,
            self.buf_pos,
            self.buf_fill,
            buf,
            mode,
        );
        self.session = Some(session);
        let r = self.absorb_step(record, buf);
        proof {
            assert(old(self)@.produced.is_prefix_of(self@.produced)) by {
                assert(old(self)@.produced =~= self@.produced.subrange(
                    0,
                    old(self)@.produced.len() as int,
                ));
            }
        }
        r
    }

    /// Fold one engine step report into the adapter: drop the consumed
    /// bytes from the pending chunk, append what the step wrote to the
    /// front of `buf` to the produced record, decide the terminal flag from
    /// the status, and classify a failure.
    fn absorb_step(&mut self, record: StepRecord, buf: &Vec<u8>) -> (r: Result<usize, CodecError>)
        requires
            old(self).wf(),
            old(self)@.initialized,
            !old(self)@.done,
            record.consumed as nat <= old(self)@.pending.len(),
            record.produced as nat <= buf@.len(),
        ensures
            final(self).wf(),
            final(self)@.pulled == old(self)@.pulled,
            final(self)@.capacity == old(self)@.capacity,
            final(self)@.finish == old(self)@.finish,
            final(self)@.initialized,
            final(self)@.live_allocations == old(self)@.live_allocations,
            classify_spec(record.status) is None ==> r == Ok::<usize, CodecError>(record.produced)
                && final(self)@.pending == old(self)@.pending.skip(record.consumed as int)
                && final(self)@.produced == old(self)@.produced + buf@.take(record.produced as int)
                && final(self)@.done == (record.status is StreamEnd),
            (classify_spec(record.status) matches Some(k) ==> r == Err::<usize, CodecError>(
                CodecError::Engine(Operation::Deflating, k),
            ) && final(self)@ == old(self)@),
    {
        match classify(record.status) {
            None => {
                let ghost pre = self@;
                self.buf_pos = self.buf_pos + record.consumed;
                extend_from_range(&mut self.bytes_out, buf, 0, record.produced);
                if matches!(record.status, EngineStatus::StreamEnd) {
                    self.done = true;
                }
                proof {
                    assert(self@.pending =~= pre.pending.skip(record.consumed as int));
                    assert(self@.pending =~= self@.pulled.skip(
                        self@.pulled.len() - self@.pending.len(),
                    ));
                    assert(self@.produced =~= pre.produced + buf@.take(record.produced as int));
                }
                Ok(record.produced)
            },
            Some(kind) => Err(CodecError::Engine(Operation::Deflating, kind)),
        }
    }

    /// Raise the one-way finish flag and run one step in `Finish` mode.
    /// One call drains the engine only if `buf` has room for everything it
    /// still holds: keep calling until `is_done` reports true, which the
    /// engine announces by its end-of-stream status.
    pub fn finish(&mut self, buf: &mut Vec<u8>) -> (r: Result<usize, CodecError>)
        requires
            old(self).wf(),
        ensures
            final(self).wf(),
            encoder_view_inv(final(self)@),
            final(buf)@.len() == old(buf)@.len(),
            final(self)@.finish,
            old(self)@.done ==> r == Ok::<usize, CodecError>(0usize)
                && final(self)@ == (EncoderView { finish: true, ..old(self)@ })
                && final(buf)@ == old(buf)@,
            old(self)@.done ==> final(self)@.done,
            final(self)@.initialized == old(self)@.initialized,
            final(self)@.capacity == old(self)@.capacity,
            old(self)@.pulled.is_prefix_of(final(self)@.pulled),
            final(self)@.pulled.len() <= old(self)@.pulled.len() + old(self)@.capacity,
            old(self)@.produced.is_prefix_of(final(self)@.produced),
            (!old(self)@.done && final(self)@.done) ==> r is Ok,
            (r matches Ok(n) ==> (!old(self)@.initialized ==> n == 0 && final(self)@ == (
            EncoderView { finish: true, ..old(self)@ }))),
            (!old(self)@.initialized && !old(self)@.done && old(self)@.pending.len() > 0) ==> r
                == Err::<usize, CodecError>(
                CodecError::Engine(Operation::Deflating, ErrorKind::StreamStateError),
            ) && final(self)@ == (EncoderView { finish: true, ..old(self)@ }),
            (r matches Ok(n) ==> n <= final(buf)@.len()
                && final(self)@.produced == old(self)@.produced + final(buf)@.take(n as int)
                && final(self)@.produced.len() == old(self)@.produced.len() + n),
            (r matches Err(e) ==> final(self)@.produced == old(self)@.produced
                && final(self)@.done == old(self)@.done
                && (e matches CodecError::Source(_) ==> final(self)@ == (EncoderView {
                    finish: true,
                    ..old(self)@
                }))),
    {
        self.finish = true;
        proof {
            assert(self@ =~= (EncoderView { finish: true, ..old(self)@ }));
        }
        self.read(buf)
    }

    /// Release the engine session, if one is open, exactly once.  Safe to
    /// call any number of times: an encoder with no open session is left as
    /// it is.  Reads after a cleanup fail with a stream-state error rather
    /// than reopening a session.
    pub fn cleanup(&mut self)
        requires
            old(self).wf(),
        ensures
            final(self).wf(),
            final(self)@ == encoder_cleaned(old(self)@),
    {
        match self.session.take() {
            Some(_session) => {
                self.counter.on_release();
            },
            None => {},
        }
        proof {
            assert(self@ =~= encoder_cleaned(old(self)@));
        }
    }
}

/// An encoder is itself a source: adapters compose, so compressed output can
/// feed any consumer of the pull contract.  A pull is a read; the caller who
/// wants the stream terminated still raises `finish` on the encoder itself.
impl<S: Source> Source for Encoder<S> {
    open spec fn inv(&self) -> bool {
        self.wf()
    }

    fn pull(&mut self, buf: &mut Vec<u8>) -> (r: Result<usize, CodecError>) {
        self.read(buf)
    }
}

} // verus!
