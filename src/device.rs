use vstd::prelude::*;

use crate::convert::{convert_frame, frame_rgb, group_count};
use vstd::set_lib::{lemma_int_range, lemma_len_subset, lemma_set_disjoint_lens, set_int_range};

verus! {

/// Capability bit: the device captures video.
pub const V4L2_CAP_VIDEO_CAPTURE: u32 = 0x00000001;

/// Capability bit: the device supports streaming I/O.
pub const V4L2_CAP_STREAMING: u32 = 0x04000000;

/// Packed 4:2:2 `Y0 Cb Y1 Cr` pixel format (fourcc `YUYV`).
pub const V4L2_PIX_FMT_YUYV: u32 = 0x56595559;

/// Interlaced field order, as requested from the driver.
pub const V4L2_FIELD_INTERLACED: u32 = 4;

/// `EINVAL`: the driver does not know the request.
pub const EINVAL: i32 = 22;

/// `EAGAIN`: a non-blocking call found nothing to do.
pub const EAGAIN: i32 = 11;

/// Number of buffers asked of the driver.
pub const REQUESTED_BUFFERS: u32 = 4;

/// Fewest buffers that streaming can work with.
pub const MIN_BUFFERS: u32 = 2;

/// Default requested width.
pub const DEFAULT_WIDTH: u32 = 1280;

/// Default requested height.
pub const DEFAULT_HEIGHT: u32 = 720;

/// Why a step of the capture session failed.
#[derive(Debug, Clone, Copy, PartialEq, Eq, Structural)]
pub enum DeviceError {
    /// The path exists but is not a character-special device.
    InvalidFileType,
    /// `stat` or `open` failed with this error number.
    DeviceOpenFailed(i32),
    /// The device lacks video capture or streaming I/O; holds its capability bits.
    UnsupportedDevice(u32),
    /// The device does not answer the capability query at all.
    NotAV4L2Device,
    /// The capability query failed with this error number.
    CapabilityQueryFailed(i32),
    /// The driver refused the requested format with this error number.
    FormatNegotiationFailed(i32),
    /// The geometry the driver returned does not fit in 32-bit sizes.
    GeometryOverflow,
    /// The driver does not support memory-mapped streaming.
    MemoryMappingUnsupported,
    /// The buffer request failed with this error number.
    BufferRequestFailed(i32),
    /// The driver granted only this many buffers.
    InsufficientBuffers(u32),
    /// Querying or mapping the buffer of this index failed.
    BufferMappingFailed(u32),
    /// Stream on, stream off or an enqueue failed with this error number.
    StreamControlFailed(i32),
    /// Dequeueing a buffer failed with this error number.
    FrameReadFailed(i32),
    /// The driver handed back a buffer index that is not driver-owned.
    InvalidBufferIndex(u32),
    /// No frame became ready within the wait timeout.
    DeviceStalled,
    /// Waiting for readiness failed with this error number.
    WaitFailed(i32),
}

/// What `stat` reports of the device path.
#[derive(Debug, Clone, Copy, PartialEq, Eq, Structural)]
pub enum FileKind {
    CharacterDevice,
    Other,
}

/// Lifecycle stage of a capture device.
#[derive(Debug, Clone, Copy, PartialEq, Eq, Structural)]
pub enum Stage {
    /// No descriptor held.
    Closed,
    /// Descriptor held; nothing negotiated.
    Opened,
    /// Capture and streaming capabilities confirmed.
    Capable,
    /// Format negotiated; geometry final.
    Formatted,
    /// Buffers granted; mapping them one by one.
    Mapping,
    /// Every granted buffer mapped; ready to stream.
    Negotiated,
    /// Streaming.
    Streaming,
    /// Streaming stopped; buffers still mapped.
    Stopped,
}

/// Who may touch a buffer's memory.
#[derive(Debug, Clone, Copy, PartialEq, Eq, Structural)]
pub enum Ownership {
    /// Enqueued: the driver may fill it.
    Driver,
    /// Dequeued: the application may read it.
    App,
}

/// Crop rectangle, as the driver reports it.
#[derive(Debug, Clone, Copy, PartialEq, Eq, Structural)]
pub struct CropRect {
    pub left: i32,
    pub top: i32,
    pub width: u32,
    pub height: u32,
}

/// Pixel format fields exchanged with the driver.
#[derive(Debug, Clone, Copy, PartialEq, Eq, Structural)]
pub struct PixFormat {
    pub width: u32,
    pub height: u32,
    pub pixel_format: u32,
    pub field: u32,
    pub bytes_per_line: u32,
    pub size_image: u32,
}

/// Placement of one driver buffer, as the buffer query reports it.
#[derive(Debug, Clone, Copy, PartialEq, Eq, Structural)]
pub struct MappedBuffer {
    pub offset: u32,
    pub length: u32,
}

/// Outcome of setting up one buffer: query, then map.
#[derive(Debug, Clone, Copy, PartialEq, Eq, Structural)]
pub enum BufferSetup {
    /// The buffer query failed with this error number.
    QueryFailed(i32),
    /// The query succeeded; mapping the region failed.
    MapFailed(MappedBuffer),
    /// The region is mapped.
    Mapped(MappedBuffer),
}

/// A failed negotiation step that must release the listed mappings.
#[derive(Debug, PartialEq, Eq)]
pub struct Unwind {
    pub error: DeviceError,
    pub unmap: Vec<u32>,
}

/// What to release when a device is torn down.
#[derive(Debug, PartialEq, Eq)]
pub struct Release {
    /// Buffer indices whose mappings are to be unmapped, in index order.
    pub unmap: Vec<u32>,
    /// Descriptor to close, if one is held.
    pub close_fd: Option<i32>,
}

/// Proof that the application holds the buffer of `index`. Only a
/// successful `read_frame` makes one, and `requeue` consumes it.
pub struct FrameHandle {
    index: u32,
}

impl FrameHandle {
    pub closed spec fn spec_index(&self) -> u32 {
        self.index
    }

    /// Index of the dequeued buffer.
    pub fn index(&self) -> (r: u32)
        ensures
            r == self.spec_index(),
    {
        self.index
    }
}

/// Abstract state of a capture device.
pub struct DeviceView {
    pub path: Seq<char>,
    pub stage: Stage,
    pub fd: i32,
    pub width: u32,
    pub height: u32,
    pub stride: u32,
    pub image_size: u32,
    pub granted: nat,
    pub buffers: Seq<MappedBuffer>,
    pub owners: Seq<Ownership>,
}

/// Whether the stage comes after format negotiation.
pub open spec fn formatted(s: Stage) -> bool {
    s == Stage::Formatted || s == Stage::Mapping || s == Stage::Negotiated || s
        == Stage::Streaming || s == Stage::Stopped
}

/// Whether the buffer pool is complete in this stage.
pub open spec fn pool_complete(s: Stage) -> bool {
    s == Stage::Negotiated || s == Stage::Streaming || s == Stage::Stopped
}

impl DeviceView {
    /// The consistency every reachable state keeps.
    pub open spec fn valid(&self) -> bool {
        &&& self.owners.len() == self.buffers.len()
        &&& self.buffers.len() <= self.granted <= u32::MAX
        &&& (self.stage == Stage::Closed <==> self.fd == -1)
        &&& (self.stage != Stage::Closed ==> self.fd >= 0)
        &&& (formatted(self.stage) ==> 2 * self.width <= self.stride && self.stride
            * self.height <= self.image_size)
        &&& (self.stage == Stage::Mapping ==> self.buffers.len() < self.granted
            && self.granted >= MIN_BUFFERS)
        &&& (pool_complete(self.stage) ==> self.buffers.len() == self.granted
            && self.granted >= MIN_BUFFERS)
        &&& (!pool_complete(self.stage) && self.stage != Stage::Mapping
            ==> self.buffers.len() == 0)
    }

    /// Indices owned by the driver.
    pub open spec fn driver_owned(&self) -> Set<int> {
        Set::new(|i: int| 0 <= i < self.owners.len() && self.owners[i] == Ownership::Driver)
    }

    /// Indices owned by the application.
    pub open spec fn app_owned(&self) -> Set<int> {
        Set::new(|i: int| 0 <= i < self.owners.len() && self.owners[i] == Ownership::App)
    }
}

/// Verdict on the capability query.
pub open spec fn capability_verdict(query: Result<u32, i32>) -> Result<(), DeviceError> {
    match query {
        Ok(caps) => if caps & V4L2_CAP_VIDEO_CAPTURE != 0 && caps & V4L2_CAP_STREAMING != 0 {
            Ok(())
        } else {
            Err(DeviceError::UnsupportedDevice(caps))
        },
        Err(e) => if e == EINVAL {
            Err(DeviceError::NotAV4L2Device)
        } else {
            Err(DeviceError::CapabilityQueryFailed(e))
        },
    }
}

/// Stride after correction: at least two bytes per pixel.
pub open spec fn corrected_stride(f: PixFormat) -> int {
    if f.bytes_per_line < 2 * f.width {
        2 * f.width
    } else {
        f.bytes_per_line as int
    }
}

/// Image size after correction: at least `stride * height`.
pub open spec fn corrected_size(f: PixFormat) -> int {
    if f.size_image < corrected_stride(f) * f.height {
        corrected_stride(f) * f.height
    } else {
        f.size_image as int
    }
}

/// The indices `0..n` in order.
pub open spec fn index_seq(n: nat) -> Seq<u32> {
    Seq::new(n, |i: int| i as u32)
}

/// Whether the driver may hand back the buffer of index `i`: it exists
/// and the driver owns it.
pub open spec fn dequeuable(v: DeviceView, i: u32) -> bool {
    i < v.owners.len() && v.owners[i as int] == Ownership::Driver
}

/// State after a dequeue attempt: only a dequeuable index changes hands.
pub open spec fn after_dequeue(v: DeviceView, dequeued: Result<u32, i32>) -> DeviceView {
    match dequeued {
        Ok(i) => if dequeuable(v, i) {
            DeviceView { owners: v.owners.update(i as int, Ownership::App), ..v }
        } else {
            v
        },
        Err(_) => v,
    }
}

/// State after a failed buffer setup: back to the negotiated format, with
/// an empty pool.
pub open spec fn unwound(v: DeviceView) -> DeviceView {
    DeviceView {
        stage: Stage::Formatted,
        granted: 0,
        buffers: Seq::empty(),
        owners: Seq::empty(),
        ..v
    }
}

/// State after release: closed, with an empty pool.
pub open spec fn released(v: DeviceView) -> DeviceView {
    DeviceView {
        stage: Stage::Closed,
        fd: -1i32,
        granted: 0,
        buffers: Seq::empty(),
        owners: Seq::empty(),
        ..v
    }
}

/// Descriptor that releasing `v` closes.
pub open spec fn fd_to_close(v: DeviceView) -> Option<i32> {
    if v.fd == -1 {
        None
    } else {
        Some(v.fd)
    }
}

/// The indices `0..n` in order.
fn indices(n: usize) -> (r: Vec<u32>)
    requires
        n <= u32::MAX,
    ensures
        r@ == index_seq(n as nat),
{
    let mut r: Vec<u32> = Vec::new();
    let mut i: usize = 0;
    while i < n
        invariant
            n <= u32::MAX,
            i <= n,
            r@ == index_seq(i as nat),
        decreases n - i,
    {
        r.push(i as u32);
        i = i + 1;
        proof {
            assert(r@ =~= index_seq(i as nat));
        }
    }
    r
}

/// What a dequeue found.
pub enum FrameOutcome {
    /// A filled buffer, now owned by the application.
    Ready(FrameHandle),
    /// No frame is ready yet; wait for readiness and try again.
    WouldBlock,
}

/// The stride and image size adopted from any format reply leave room for
/// two bytes per pixel on every line and for every line of the frame.
pub proof fn lemma_format_geometry(f: PixFormat)
    ensures
        2 * f.width <= corrected_stride(f),
        corrected_stride(f) * f.height <= corrected_size(f),
{
}

/// Once the format is negotiated, and for as long as the device lives, the
/// stride holds two bytes per pixel and the image size holds every line.
pub proof fn lemma_negotiated_geometry(v: DeviceView)
    requires
        v.valid(),
        formatted(v.stage),
    ensures
        2 * v.width <= v.stride,
        v.stride * v.height <= v.image_size,
{
}

/// Every buffer index is owned by exactly one of driver and application:
/// the two sets split `0..N` and their sizes add up to `N`.
pub proof fn lemma_ownership_partition(v: DeviceView)
    requires
        v.valid(),
    ensures
        v.driver_owned() + v.app_owned() == set_int_range(0, v.buffers.len() as int),
        v.driver_owned().disjoint(v.app_owned()),
        v.driver_owned().len() + v.app_owned().len() == v.buffers.len(),
{
    let n = v.buffers.len() as int;
    let all = set_int_range(0, n);
    assert(v.driver_owned() + v.app_owned() =~= all) by {
        assert forall|i: int| all.contains(i) implies (v.driver_owned()
            + v.app_owned()).contains(i) by {
            match v.owners[i] {
                Ownership::Driver => {},
                Ownership::App => {},
            }
        }
    }
    lemma_int_range(0, n);
    assert(v.driver_owned().subset_of(all));
    assert(v.app_owned().subset_of(all));
    lemma_len_subset(v.driver_owned(), all);
    lemma_len_subset(v.app_owned(), all);
    lemma_set_disjoint_lens(v.driver_owned(), v.app_owned());
}

/// A dequeue that would block changes nothing, however often it is
/// repeated.
pub proof fn lemma_would_block_idempotent(v: DeviceView)
    ensures
        after_dequeue(v, Err(EAGAIN)) == v,
        after_dequeue(after_dequeue(v, Err(EAGAIN)), Err(EAGAIN)) == v,
{
}

/// Release at any stage lists every mapped buffer once, closes the
/// descriptor exactly when one was acquired, and leaves nothing behind: a
/// second release finds nothing to release.
pub proof fn lemma_release_complete(v: DeviceView)
    requires
        v.valid(),
    ensures
        index_seq(v.buffers.len()).to_set() == Set::new(|x: u32| (x as nat) < v.buffers.len()),
        index_seq(v.buffers.len()).no_duplicates(),
        fd_to_close(v) is Some <==> v.fd != -1,
        released(v).valid(),
        released(v).buffers.len() == 0,
        fd_to_close(released(v)) is None,
        released(released(v)) == released(v),
{
    lemma_index_seq_lists(v.buffers.len());
}

/// When setting up a buffer fails, every buffer mapped before it is listed
/// for unmapping and the pool keeps none.
pub proof fn lemma_mapping_failure_unwinds(v: DeviceView)
    requires
        v.valid(),
        v.stage == Stage::Mapping,
    ensures
        index_seq(v.buffers.len()).to_set() == Set::new(|x: u32| (x as nat) < v.buffers.len()),
        index_seq(v.buffers.len()).no_duplicates(),
        unwound(v).valid(),
        unwound(v).buffers.len() == 0,
{
    lemma_index_seq_lists(v.buffers.len());
}

proof fn lemma_index_seq_lists(n: nat)
    requires
        n <= u32::MAX,
    ensures
        index_seq(n).to_set() == Set::new(|x: u32| (x as nat) < n),
        index_seq(n).no_duplicates(),
{
    let s = index_seq(n);
    assert forall|x: u32| (x as nat) < n implies s.to_set().contains(x) by {
        assert(s[x as int] == x);
    }
    assert forall|x: u32| s.to_set().contains(x) implies (x as nat) < n by {
        let k = choose|k: int| 0 <= k < s.len() && s[k] == x;
        assert(s[k] == k as u32);
    }
    assert(s.to_set() =~= Set::new(|x: u32| (x as nat) < n));
}

/// A camera device and the state of its capture session. The system calls
/// are made by the caller; each method takes what the driver answered and
/// says what comes next.
pub struct UvcView {
    device_path: String,
    stage: Stage,
    fd: i32,
    width: u32,
    height: u32,
    stride: u32,
    image_size: u32,
    granted: u32,
    buffers: Vec<MappedBuffer>,
    owners: Vec<Ownership>,
}

impl View for UvcView {
    type V = DeviceView;

    closed spec fn view(&self) -> DeviceView {
        DeviceView {
            path: self.device_path@,
            stage: self.stage,
            fd: self.fd,
            width: self.width,
            height: self.height,
            stride: self.stride,
            image_size: self.image_size,
            granted: self.granted as nat,
            buffers: self.buffers@,
            owners: self.owners@,
        }
    }
}

impl Default for UvcView {
    /// `/dev/video0` at 1280x720, closed.
    fn default() -> (r: UvcView)
        ensures
            r.wf(),
            r@.path == "/dev/video0"@,
            r@.stage == Stage::Closed,
            r@.fd == -1,
            r@.width == DEFAULT_WIDTH,
            r@.height == DEFAULT_HEIGHT,
            r@.buffers.len() == 0,
    {
        UvcView::new(String::from_str("/dev/video0"), DEFAULT_WIDTH, DEFAULT_HEIGHT)
    }
}

impl UvcView {
    /// Well-formedness: the abstract state is consistent.
    pub open spec fn wf(&self) -> bool {
        self@.valid()
    }

    /// A closed device at `device_path` that will ask for `width` x `height`.
    pub fn new(device_path: String, width: u32, height: u32) -> (r: UvcView)
        ensures
            r.wf(),
            r@.path == device_path@,
            r@.stage == Stage::Closed,
            r@.fd == -1,
            r@.width == width,
            r@.height == height,
            r@.granted == 0,
            r@.buffers.len() == 0,
    {
        UvcView {
            device_path,
            stage: Stage::Closed,
            fd: -1,
            width,
            height,
            stride: 0,
            image_size: 0,
            granted: 0,
            buffers: Vec::new(),
            owners: Vec::new(),
        }
    }
    /// Path of the device file.
    pub fn device_path(&self) -> (r: &String)
        ensures
            r@ == self@.path,
    {
        &self.device_path
    }

    /// Current lifecycle stage.
    pub fn stage(&self) -> (r: Stage)
        ensures
            r == self@.stage,
    {
        self.stage
    }

    /// The descriptor held, or -1.
    pub fn fd(&self) -> (r: i32)
        ensures
            r == self@.fd,
    {
        self.fd
    }

    /// Requested width before format negotiation, negotiated width after.
    pub fn width(&self) -> (r: u32)
        ensures
            r == self@.width,
    {
        self.width
    }

    /// Requested height before format negotiation, negotiated height after.
    pub fn height(&self) -> (r: u32)
        ensures
            r == self@.height,
    {
        self.height
    }

    /// Bytes per line of a frame, once the format is negotiated.
    pub fn stride(&self) -> (r: u32)
        ensures
            r == self@.stride,
    {
        self.stride
    }

    /// Bytes per frame, once the format is negotiated.
    pub fn image_size(&self) -> (r: u32)
        ensures
            r == self@.image_size,
    {
        self.image_size
    }

    /// Number of buffers mapped so far.
    pub fn buffer_count(&self) -> (r: usize)
        requires
            self.wf(),
        ensures
            r == self@.buffers.len(),
    {
        self.buffers.len()
    }

    /// Placement of the buffer of `index`.
    pub fn buffer(&self, index: usize) -> (r: MappedBuffer)
        requires
            index < self@.buffers.len(),
        ensures
            r == self@.buffers[index as int],
    {
        self.buffers[index]
    }

    /// Owner of the buffer of `index`.
    pub fn owner(&self, index: usize) -> (r: Ownership)
        requires
            self.wf(),
            index < self@.owners.len(),
        ensures
            r == self@.owners[index as int],
    {
        self.owners[index]
    }

    /// Sets the geometry to ask the driver for.
    pub fn set_requested_size(&mut self, width: u32, height: u32)
        requires
            old(self).wf(),
            !formatted(old(self)@.stage),
        ensures
            final(self).wf(),
            final(self)@ == (DeviceView { width, height, ..old(self)@ }),
    {
        self.width = width;
        self.height = height;
    }

    /// Decides from what `stat` reported of the path whether it may be
    /// opened: only a character-special device may.
    pub fn check_device_file(stat: Result<FileKind, i32>) -> (r: Result<(), DeviceError>)
        ensures
            r == match stat {
                Ok(FileKind::CharacterDevice) => Ok(()),
                Ok(FileKind::Other) => Err(DeviceError::InvalidFileType),
                Err(e) => Err(DeviceError::DeviceOpenFailed(e)),
            },
    {
        match stat {
            Ok(FileKind::CharacterDevice) => Ok(()),
            Ok(FileKind::Other) => Err(DeviceError::InvalidFileType),
            Err(e) => Err(DeviceError::DeviceOpenFailed(e)),
        }
    }

    /// Records the outcome of opening the device read/write and
    /// non-blocking: a descriptor, or the error number.
    pub fn open(&mut self, opened: Result<i32, i32>) -> (r: Result<(), DeviceError>)
        requires
            old(self).wf(),
            old(self)@.stage == Stage::Closed,
        ensures
            final(self).wf(),
            match opened {
                Ok(fd) if fd >= 0 => r == Ok::<(), DeviceError>(())
                    && final(self)@ == (DeviceView { stage: Stage::Opened, fd, ..old(self)@ }),
                Ok(fd) => r == Err::<(), DeviceError>(DeviceError::DeviceOpenFailed(fd))
                    && final(self)@ == old(self)@,
                Err(e) => r == Err::<(), DeviceError>(DeviceError::DeviceOpenFailed(e))
                    && final(self)@ == old(self)@,
            },
    {
        match opened {
            Ok(fd) => {
                if fd >= 0 {
                    self.fd = fd;
                    self.stage = Stage::Opened;
                    Ok(())
                } else {
                    Err(DeviceError::DeviceOpenFailed(fd))
                }
            },
            Err(e) => Err(DeviceError::DeviceOpenFailed(e)),
        }
    }

    /// Judges the capability query: its capability bits, or the error
    /// number. Both capture and streaming must be present; `EINVAL` means
    /// the device does not speak the protocol at all.
    pub fn check_capabilities(&mut self, query: Result<u32, i32>) -> (r: Result<(), DeviceError>)
        requires
            old(self).wf(),
            old(self)@.stage == Stage::Opened,
        ensures
            final(self).wf(),
            r == capability_verdict(query),
            r is Ok ==> final(self)@ == (DeviceView { stage: Stage::Capable, ..old(self)@ }),
            r is Err ==> final(self)@ == old(self)@,
    {
        let r = match query {
            Ok(caps) => {
                if caps & V4L2_CAP_VIDEO_CAPTURE != 0 && caps & V4L2_CAP_STREAMING != 0 {
                    Ok(())
                } else {
                    Err(DeviceError::UnsupportedDevice(caps))
                }
            },
            Err(e) => {
                if e == EINVAL {
                    Err(DeviceError::NotAV4L2Device)
                } else {
                    Err(DeviceError::CapabilityQueryFailed(e))
                }
            },
        };
        if r.is_ok() {
            self.stage = Stage::Capable;
        }
        r
    }

    /// The crop to set after the crop capability query: the driver's
    /// default rectangle when the query succeeded, none otherwise. Cropping
    /// is best effort: what setting it returns is ignored.
    pub fn crop_request(cropcap: Result<CropRect, i32>) -> (r: Option<CropRect>)
        ensures
            r == match cropcap {
                Ok(rect) => Some(rect),
                Err(_) => None::<CropRect>,
            },
    {
        match cropcap {
            Ok(rect) => Some(rect),
            Err(_) => None,
        }
    }

    /// The format to ask of the driver: packed 4:2:2 at the requested size.
    pub fn format_request(&self) -> (r: PixFormat)
        ensures
            r == (PixFormat {
                width: self@.width,
                height: self@.height,
                pixel_format: V4L2_PIX_FMT_YUYV,
                field: V4L2_FIELD_INTERLACED,
                bytes_per_line: 0,
                size_image: 0,
            }),
    {
        PixFormat {
            width: self.width,
            height: self.height,
            pixel_format: V4L2_PIX_FMT_YUYV,
            field: V4L2_FIELD_INTERLACED,
            bytes_per_line: 0,
            size_image: 0,
        }
    }

    /// Adopts the format the driver returned, or fails with its error
    /// number. The driver's width and height become the device's; a stride
    /// under two bytes per pixel, or an image size under `stride * height`,
    /// is raised to that minimum.
    pub fn adopt_format(&mut self, reply: Result<PixFormat, i32>) -> (r: Result<(), DeviceError>)
        requires
            old(self).wf(),
            old(self)@.stage == Stage::Capable,
        ensures
            final(self).wf(),
            match reply {
                Err(e) => r == Err::<(), DeviceError>(DeviceError::FormatNegotiationFailed(e))
                    && final(self)@ == old(self)@,
                Ok(f) => {
                    let stride = corrected_stride(f);
                    let size = corrected_size(f);
                    if stride <= u32::MAX && size <= u32::MAX {
                        r == Ok::<(), DeviceError>(()) && final(self)@ == (DeviceView {
                            stage: Stage::Formatted,
                            width: f.width,
                            height: f.height,
                            stride: stride as u32,
                            image_size: size as u32,
                            ..old(self)@
                        })
                    } else {
                        r == Err::<(), DeviceError>(DeviceError::GeometryOverflow)
                            && final(self)@ == old(self)@
                    }
                },
            },
    {
        match reply {
            Err(e) => Err(DeviceError::FormatNegotiationFailed(e)),
            Ok(f) => {
                let min_stride: u64 = 2 * f.width as u64;
                let stride: u64 = if (f.bytes_per_line as u64) < min_stride {
                    min_stride
                } else {
                    f.bytes_per_line as u64
                };
                if stride > u32::MAX as u64 {
                    return Err(DeviceError::GeometryOverflow);
                }
                proof {
                    assert(stride * f.height <= u32::MAX * u32::MAX) by (nonlinear_arith)
                        requires
                            stride <= u32::MAX,
                            f.height <= u32::MAX,
                    ;
                }
                let min_size: u64 = stride * f.height as u64;
                let size: u64 = if (f.size_image as u64) < min_size {
                    min_size
                } else {
                    f.size_image as u64
                };
                if size > u32::MAX as u64 {
                    return Err(DeviceError::GeometryOverflow);
                }
                self.width = f.width;
                self.height = f.height;
                self.stride = stride as u32;
                self.image_size = size as u32;
                self.stage = Stage::Formatted;
                Ok(())
            },
        }
    }
    /// Judges the buffer request for memory-mapped streaming: the number of
    /// buffers granted, or the error number. `EINVAL` means memory mapping
    /// is not supported; fewer than two buffers cannot stream.
    pub fn accept_buffers(&mut self, reply: Result<u32, i32>) -> (r: Result<u32, DeviceError>)
        requires
            old(self).wf(),
            old(self)@.stage == Stage::Formatted,
        ensures
            final(self).wf(),
            match reply {
                Err(e) => r == Err::<u32, DeviceError>(
                    if e == EINVAL {
                        DeviceError::MemoryMappingUnsupported
                    } else {
                        DeviceError::BufferRequestFailed(e)
                    },
                ) && final(self)@ == old(self)@,
                Ok(n) => if n < MIN_BUFFERS {
                    r == Err::<u32, DeviceError>(DeviceError::InsufficientBuffers(n))
                        && final(self)@ == old(self)@
                } else {
                    r == Ok::<u32, DeviceError>(n) && final(self)@ == (DeviceView {
                        stage: Stage::Mapping,
                        granted: n as nat,
                        ..old(self)@
                    })
                },
            },
    {
        match reply {
            Err(e) => {
                if e == EINVAL {
                    Err(DeviceError::MemoryMappingUnsupported)
                } else {
                    Err(DeviceError::BufferRequestFailed(e))
                }
            },
            Ok(n) => {
                if n < MIN_BUFFERS {
                    Err(DeviceError::InsufficientBuffers(n))
                } else {
                    self.granted = n;
                    self.stage = Stage::Mapping;
                    Ok(n)
                }
            },
        }
    }

    /// Records the setup of the next buffer, whose index is the number
    /// mapped so far. On success the buffer joins the pool, and the pool is
    /// complete once every granted buffer is in it. On failure the pool is
    /// emptied and every buffer mapped before this one is listed for
    /// unmapping, so that no mapping is left behind.
    pub fn add_buffer(&mut self, setup: BufferSetup) -> (r: Result<(), Unwind>)
        requires
            old(self).wf(),
            old(self)@.stage == Stage::Mapping,
        ensures
            final(self).wf(),
            match setup {
                BufferSetup::Mapped(b) => {
                    let buffers = old(self)@.buffers.push(b);
                    r is Ok && final(self)@ == (DeviceView {
                        stage: if buffers.len() == old(self)@.granted {
                            Stage::Negotiated
                        } else {
                            Stage::Mapping
                        },
                        buffers,
                        owners: old(self)@.owners.push(Ownership::App),
                        ..old(self)@
                    })
                },
                _ => r matches Err(u) && u.error == DeviceError::BufferMappingFailed(
                    old(self)@.buffers.len() as u32,
                ) && u.unmap@ == index_seq(old(self)@.buffers.len()) && final(self)@ == unwound(old(self)@),
            },
    {
        let index = self.buffers.len() as u32;
        match setup {
            BufferSetup::Mapped(b) => {
                self.buffers.push(b);
                self.owners.push(Ownership::App);
                if self.buffers.len() == self.granted as usize {
                    self.stage = Stage::Negotiated;
                }
                Ok(())
            },
            _ => {
                let unmap = indices(self.buffers.len());
                self.buffers = Vec::new();
                self.owners = Vec::new();
                self.granted = 0;
                self.stage = Stage::Formatted;
                proof {
                    assert(self.buffers@ =~= Seq::<MappedBuffer>::empty());
                    assert(self.owners@ =~= Seq::<Ownership>::empty());
                }
                Err(Unwind { error: DeviceError::BufferMappingFailed(index), unmap })
            },
        }
    }

    /// Starts streaming: every buffer passes to the driver. Returns the
    /// indices to enqueue, in index order, before streaming is switched on.
    pub fn start_capturing(&mut self) -> (r: Vec<u32>)
        requires
            old(self).wf(),
            old(self)@.stage == Stage::Negotiated,
        ensures
            final(self).wf(),
            r@ == index_seq(old(self)@.buffers.len()),
            final(self)@ == (DeviceView {
                stage: Stage::Streaming,
                owners: Seq::new(old(self)@.owners.len(), |i: int| Ownership::Driver),
                ..old(self)@
            }),
    {
        let n = self.owners.len();
        let mut i: usize = 0;
        while i < n
            invariant
                n == self.owners@.len(),
                n == old(self)@.owners.len(),
                i <= n,
                self.buffers@ == old(self)@.buffers,
                self.stage == old(self)@.stage,
                self.fd == old(self)@.fd,
                self.device_path@ == old(self)@.path,
                self.width == old(self)@.width,
                self.height == old(self)@.height,
                self.stride == old(self)@.stride,
                self.image_size == old(self)@.image_size,
                self.granted == old(self)@.granted,
                forall|j: int| 0 <= j < i ==> self.owners@[j] == Ownership::Driver,
            decreases n - i,
        {
            self.owners.set(i, Ownership::Driver);
            i = i + 1;
        }
        self.stage = Stage::Streaming;
        proof {
            assert(self.owners@ =~= Seq::new(old(self)@.owners.len(), |i: int| Ownership::Driver));
        }
        indices(n)
    }

    /// Stops streaming. The buffers stay mapped until the device is
    /// released.
    pub fn stop_capturing(&mut self)
        requires
            old(self).wf(),
            old(self)@.stage == Stage::Streaming,
        ensures
            final(self).wf(),
            final(self)@ == (DeviceView { stage: Stage::Stopped, ..old(self)@ }),
    {
        self.stage = Stage::Stopped;
    }

    /// Judges a non-blocking dequeue: the index of the buffer the driver
    /// handed back, or the error number. A driver-owned buffer passes to the
    /// application and a handle to it is returned; `EAGAIN` means no frame is
    /// ready yet and changes nothing.
    pub fn read_frame(&mut self, dequeued: Result<u32, i32>) -> (r: Result<FrameOutcome, DeviceError>)
        requires
            old(self).wf(),
            old(self)@.stage == Stage::Streaming,
        ensures
            final(self).wf(),
            final(self)@ == after_dequeue(old(self)@, dequeued),
            match dequeued {
                Ok(i) => if dequeuable(old(self)@, i) {
                    r matches Ok(FrameOutcome::Ready(h)) && h.spec_index() == i
                } else {
                    r matches Err(DeviceError::InvalidBufferIndex(j)) && j == i
                },
                Err(e) => if e == EAGAIN {
                    r matches Ok(FrameOutcome::WouldBlock)
                } else {
                    r matches Err(DeviceError::FrameReadFailed(x)) && x == e
                },
            },
    {
        match dequeued {
            Ok(i) => {
                if (i as usize) < self.owners.len() && self.owners[i as usize] == Ownership::Driver {
                    self.owners.set(i as usize, Ownership::App);
                    Ok(FrameOutcome::Ready(FrameHandle { index: i }))
                } else {
                    Err(DeviceError::InvalidBufferIndex(i))
                }
            },
            Err(e) => {
                if e == EAGAIN {
                    Ok(FrameOutcome::WouldBlock)
                } else {
                    Err(DeviceError::FrameReadFailed(e))
                }
            },
        }
    }

    /// Hands the buffer of `frame` back to the driver, once it has been
    /// enqueued. The handle is consumed: its memory may be overwritten from
    /// now on.
    pub fn requeue(&mut self, frame: FrameHandle)
        requires
            old(self).wf(),
            old(self)@.stage == Stage::Streaming,
            frame.spec_index() < old(self)@.owners.len(),
        ensures
            final(self).wf(),
            final(self)@ == (DeviceView {
                owners: old(self)@.owners.update(frame.spec_index() as int, Ownership::Driver),
                ..old(self)@
            }),
    {
        self.owners.set(frame.index as usize, Ownership::Driver);
    }

    /// Converts the contents of a dequeued buffer into RGB at the negotiated
    /// size. `None` when the width is odd, the data is shorter than a frame,
    /// or the result would not fit in memory.
    pub fn process_image(&self, frame: &FrameHandle, data: &[u8]) -> (r: Option<Vec<u8>>)
        requires
            self.wf(),
            self@.stage == Stage::Streaming,
            frame.spec_index() < self@.owners.len(),
            self@.owners[frame.spec_index() as int] == Ownership::App,
        ensures
            ({
                let (w, h) = (self@.width, self@.height);
                if w % 2 == 0 && 2 * (w as int) * (h as int) <= data@.len() && 3 * (w as int)
                    * (h as int) <= usize::MAX {
                    r matches Some(v) && v@ == frame_rgb(data@, group_count(w, h))
                } else {
                    r is None
                }
            }),
    {
        let w = self.width as u64;
        let h = self.height as u64;
        proof {
            assert(w * h <= u32::MAX * u32::MAX) by (nonlinear_arith)
                requires
                    w <= u32::MAX,
                    h <= u32::MAX,
            ;
        }
        let pixels: u64 = w * h;
        proof {
            assert(2 * (w as int) * (h as int) == 2 * (pixels as int) && 3 * (w as int) * (h as int)
                == 3 * (pixels as int)) by (nonlinear_arith)
                requires
                    pixels == w * h,
            ;
        }
        if self.width % 2 != 0 || pixels > (usize::MAX / 3) as u64 || 2 * pixels > data.len() as u64 {
            None
        } else {
            Some(convert_frame(data, self.width, self.height))
        }
    }

    /// Releases the device, whatever stage it reached: lists every mapped
    /// buffer for unmapping and the descriptor for closing, and leaves the
    /// device closed with an empty pool. Releasing twice releases nothing
    /// the second time.
    pub fn release(&mut self) -> (r: Release)
        requires
            old(self).wf(),
        ensures
            final(self).wf(),
            r.unmap@ == index_seq(old(self)@.buffers.len()),
            r.close_fd == fd_to_close(old(self)@),
            final(self)@ == released(old(self)@),
    {
        let unmap = indices(self.buffers.len());
        let close_fd = if self.fd == -1 {
            None
        } else {
            Some(self.fd)
        };
        self.buffers = Vec::new();
        self.owners = Vec::new();
        self.granted = 0;
        self.fd = -1;
        self.stage = Stage::Closed;
        proof {
            assert(self.buffers@ =~= Seq::<MappedBuffer>::empty());
            assert(self.owners@ =~= Seq::<Ownership>::empty());
        }
        Release { unmap, close_fd }
    }
}

} // verus!
