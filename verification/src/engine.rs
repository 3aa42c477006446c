//! The boundary to the compression engine.
//!
//! The engine is consumed as an opaque collaborator with three operations —
//! open a session, step it, and let it go — and a closed set of status codes.
//! Everything the rest of the crate knows about a step is what the trusted
//! items here state: how many bytes were consumed and produced, and which
//! status came back.  The bytes an individual step writes depend on the
//! session's hidden state, so no contract pins them down; the adapters are
//! verified to hand every byte through faithfully whatever the engine wrote.

use miniz_oxide::inflate::stream::InflateState;
use miniz_oxide::MZError;
use miniz_oxide::MZFlush;
use miniz_oxide::MZStatus;
use vstd::prelude::*;

verus! {

/// Flush discipline for one engine step: `Continue` while more input may
/// arrive, `Finish` once the caller has promised there is none.
#[derive(Clone, Copy, PartialEq, Eq, Structural, Debug)]
pub enum FlushMode {
    Continue,
    Finish,
}

/// Which container wrapper a decompression session expects around the
/// compressed payload.
#[derive(Clone, Copy, PartialEq, Eq, Structural, Debug)]
pub enum Container {
    /// The zlib wrapper: a two-byte header and a trailing checksum.
    Zlib,
    /// A bare stream with no wrapper.
    Raw,
}

/// The engine's closed status domain, reported by every step.
#[derive(Clone, Copy, PartialEq, Eq, Structural, Debug)]
pub enum EngineStatus {
    /// The step made what progress it could; the stream goes on.
    Working,
    /// The end of the stream was reached.
    StreamEnd,
    /// The stream asks for a preset dictionary before it can go on.
    NeedDict,
    /// The session was driven against its state discipline.
    StreamErr,
    /// The input is not a valid stream.
    DataErr,
    /// The engine could not obtain memory.
    MemErr,
    /// No progress was possible with the buffers given.
    BufErr,
    /// Any other engine code, carried as the engine's numeric value.
    OtherErr(i32),
}

/// What one engine step reported: how much input it consumed from the slice
/// it was fed, how many bytes it wrote to the front of the output buffer, and
/// its status.
pub struct StepRecord {
    pub consumed: usize,
    pub produced: usize,
    pub status: EngineStatus,
}

#[verifier::external_type_specification]
#[verifier::external_body]
pub struct ExInflateState(InflateState);

#[verifier::external_type_specification]
#[verifier::external_body]
pub struct ExCompressorOxide(miniz_oxide::deflate::core::CompressorOxide);

/// Relies on `miniz_oxide::inflate::stream::InflateState::new_boxed`: allocates
/// a fresh decompression session expecting the given container wrapper.
#[verifier::external_body]
pub(crate) fn new_inflate_session(container: Container) -> (r: Box<InflateState>) {
    let format = match container {
        Container::Zlib => miniz_oxide::DataFormat::Zlib,
        Container::Raw => miniz_oxide::DataFormat::Raw,
    };
    InflateState::new_boxed(format)
}

/// Relies on `miniz_oxide::deflate::core::create_comp_flags_from_zip_params`:
/// packs a compression level, a window-bits request (positive window bits ask
/// for the zlib container wrapper) and a match strategy into the engine's flag
/// word.
#[verifier::external_body]
pub(crate) fn deflate_config_flags(level: u8, window_bits: u8, strategy: u8) -> (r: u32) {
    miniz_oxide::deflate::core::create_comp_flags_from_zip_params(
        level as i32,
        window_bits as i32,
        strategy as i32,
    )
}

/// Relies on `miniz_oxide::deflate::core::CompressorOxide::new`: allocates a
/// fresh compression session configured by the given flag word.
#[verifier::external_body]
pub(crate) fn new_deflate_session(flags: u32) -> (r: Box<miniz_oxide::deflate::core::CompressorOxide>) {
    Box::new(miniz_oxide::deflate::core::CompressorOxide::new(flags))
}

/// Relies on `miniz_oxide::inflate::stream::inflate`: one decompression step.
/// It reads from `input[start..end]`, writes decompressed bytes to the front
/// of `output`, and reports its own counts, which by its construction never
/// exceed the slices it was given; the output buffer keeps its length.  The
/// status is the call's own, one variant each; an unrecognised failure keeps
/// its numeric engine code.
#[verifier::external_body]
pub(crate) fn inflate_step(
    session: &mut Box<InflateState>,
    input: &Vec<u8>,
    start: usize,
    end: usize,
    output: &mut Vec<u8>,
    mode: FlushMode,
) -> (r: StepRecord)
    requires
        start <= end,
        end <= input@.len(),
    ensures
        final(output)@.len() == old(output)@.len(),
        r.consumed <= end - start,
        r.produced <= old(output)@.len(),
{
    let flush = if matches!(mode, FlushMode::Finish) { MZFlush::Finish } else { MZFlush::None };
    let res = miniz_oxide::inflate::stream::inflate(
        &mut **session, &input[start..end], output.as_mut_slice(), flush);
    let status = match res.status {
        Ok(MZStatus::Ok) => EngineStatus::Working,
        Ok(MZStatus::StreamEnd) => EngineStatus::StreamEnd,
        Ok(MZStatus::NeedDict) => EngineStatus::NeedDict,
        Err(MZError::Stream) => EngineStatus::StreamErr,
        Err(MZError::Data) => EngineStatus::DataErr,
        Err(MZError::Mem) => EngineStatus::MemErr,
        Err(MZError::Buf) => EngineStatus::BufErr,
        Err(e) => EngineStatus::OtherErr(e as i32),
    };
    StepRecord { consumed: res.bytes_consumed, produced: res.bytes_written, status }
}

/// Relies on `miniz_oxide::deflate::stream::deflate`: one compression step.
/// It reads from `input[start..end]`, writes compressed bytes to the front of
/// `output`, and reports its own counts, which by its construction never
/// exceed the slices it was given; the output buffer keeps its length.  The
/// status is the call's own, one variant each; an unrecognised failure keeps
/// its numeric engine code.
#[verifier::external_body]
pub(crate) fn deflate_step(
    session: &mut Box<miniz_oxide::deflate::core::CompressorOxide>,
    input: &Vec<u8>,
    start: usize,
    end: usize,
    output: &mut Vec<u8>,
    mode: FlushMode,
) -> (r: StepRecord)
    requires
        start <= end,
        end <= input@.len(),
    ensures
        final(output)@.len() == old(output)@.len(),
        r.consumed <= end - start,
        r.produced <= old(output)@.len(),
{
    let flush = if matches!(mode, FlushMode::Finish) { MZFlush::Finish } else { MZFlush::None };
    let res = miniz_oxide::deflate::stream::deflate(
        &mut **session, &input[start..end], output.as_mut_slice(), flush);
    let status = match res.status {
        Ok(MZStatus::Ok) => EngineStatus::Working,
        Ok(MZStatus::StreamEnd) => EngineStatus::StreamEnd,
        Ok(MZStatus::NeedDict) => EngineStatus::NeedDict,
        Err(MZError::Stream) => EngineStatus::StreamErr,
        Err(MZError::Data) => EngineStatus::DataErr,
        Err(MZError::Mem) => EngineStatus::MemErr,
        Err(MZError::Buf) => EngineStatus::BufErr,
        Err(e) => EngineStatus::OtherErr(e as i32),
    };
    StepRecord { consumed: res.bytes_consumed, produced: res.bytes_written, status }
}

} // verus!
