//! Capture engine for memory-mapped V4L2 streaming cameras.
//!
//! The library holds the decisions of a capture session: which driver
//! replies are accepted during negotiation, how the buffer pool changes hands
//! between driver and application, how the capture loop reacts to readiness
//! events, and how a packed 4:2:2 frame becomes RGB. The system calls
//! themselves are made by the caller, who hands their results in as plain
//! values.

mod capture_loop;
mod convert;
mod device;
mod fdset;

pub use capture_loop::{
    classify_wait, transition, CaptureLoop, LoopAction, LoopEvent, LoopPhase, EINTR,
    WAIT_TIMEOUT_SECS,
};
pub use convert::{
    cb_term, convert_frame, cr_term, frame_rgb, g_term, group_count, rgb_group, trunc_div, wrap_u8,
    yuv422_to_rgb, COEFF_SCALE,
};
pub use device::{
    after_dequeue, capability_verdict, corrected_size, corrected_stride, dequeuable, fd_to_close,
    formatted, index_seq, lemma_format_geometry, lemma_mapping_failure_unwinds,
    lemma_negotiated_geometry, lemma_ownership_partition, lemma_release_complete,
    lemma_would_block_idempotent, pool_complete, released, unwound, BufferSetup, CropRect,
    DeviceError, DeviceView, FileKind, FrameHandle, FrameOutcome, MappedBuffer, Ownership,
    PixFormat, Release, Stage, Unwind, UvcView, DEFAULT_HEIGHT, DEFAULT_WIDTH, EAGAIN, EINVAL,
    MIN_BUFFERS, REQUESTED_BUFFERS, V4L2_CAP_STREAMING, V4L2_CAP_VIDEO_CAPTURE,
    V4L2_FIELD_INTERLACED, V4L2_PIX_FMT_YUYV,
};
pub use fdset::{FdSet, FD_SETSIZE};
