use vstd::prelude::*;

use crate::pixels::{convert_bgra_to_rgb, crop_applies, get_cropped_data, is_cropped, is_three_byte_pixels, remove_alpha_channel};

verus! {

/// The kind of frames a capturer delivers.
#[derive(Debug, Clone, Copy, PartialEq, Eq, Structural)]
pub enum FrameType {
    YUVFrame,
    BGR0,
    RGB,
    BGRAFrame,
}

impl Default for FrameType {
    /// Frames are YUV unless asked otherwise.
    fn default() -> (t: Self)
        ensures
            t == FrameType::YUVFrame,
    {
        FrameType::YUVFrame
    }
}

/// The pixel format a stream is configured with.
#[derive(Debug, Clone, Copy, PartialEq, Eq, Structural)]
pub enum PixelFormat {
    /// Bi-planar 4:2:0 luminance and chrominance, video range.
    YCbCr420v,
    /// Packed blue, green, red, alpha bytes.
    Bgra,
}

/// YUV frames are captured as bi-planar 4:2:0; every other kind as packed
/// BGRA, which is converted afterwards.
pub open spec fn spec_pixel_format_for(output: FrameType) -> PixelFormat {
    match output {
        FrameType::YUVFrame => PixelFormat::YCbCr420v,
        _ => PixelFormat::Bgra,
    }
}

/// The pixel format a stream must deliver for frames of kind `output`.
pub fn pixel_format_for(output: FrameType) -> (p: PixelFormat)
    ensures
        p == spec_pixel_format_for(output),
{
    match output {
        FrameType::YUVFrame => PixelFormat::YCbCr420v,
        FrameType::BGR0 | FrameType::RGB | FrameType::BGRAFrame => PixelFormat::Bgra,
    }
}

/// How a stream is configured: the size of the frames it delivers, their
/// pixel format, whether the cursor is drawn, and the shortest time between
/// two frames as the fraction `frame_interval_value / frame_interval_timescale`
/// of a second.
#[derive(Debug, Clone, Copy, PartialEq, Eq, Structural)]
pub struct StreamSettings {
    pub width: u32,
    pub height: u32,
    pub pixel_format: PixelFormat,
    pub shows_cursor: bool,
    pub frame_interval_value: i64,
    pub frame_interval_timescale: i32,
}

/// The configuration of a stream that delivers `output` frames of size
/// `size` at most `fps` times a second.
pub fn stream_settings(output: FrameType, size: [u32; 2], shows_cursor: bool, fps: u32) -> (c: StreamSettings)
    ensures
        c.width == size[0],
        c.height == size[1],
        c.pixel_format == spec_pixel_format_for(output),
        c.shows_cursor == shows_cursor,
        c.frame_interval_value == 1,
        c.frame_interval_timescale == fps as i32,
{
    StreamSettings {
        width: size[0],
        height: size[1],
        pixel_format: pixel_format_for(output),
        shows_cursor,
        frame_interval_value: 1,
        frame_interval_timescale: fps as i32,
    }
}

/// What a stream output carries.
#[derive(Debug, Clone, Copy, PartialEq, Eq, Structural)]
pub enum OutputType {
    Screen,
    Audio,
    Microphone,
}

/// The state of a captured frame, as the platform reports it.
#[derive(Debug, Clone, Copy, PartialEq, Eq, Structural)]
pub enum FrameStatus {
    Complete,
    Idle,
    Blank,
    Suspended,
    Started,
    Stopped,
    Unknown(i32),
}

/// One plane of an image buffer: its size, and its bytes when the platform
/// could hand them out.
#[derive(Debug, Clone)]
pub struct PlaneInfo {
    pub width: usize,
    pub height: usize,
    pub bytes_per_row: usize,
    pub data: Option<Vec<u8>>,
}

/// What an image buffer held while it was locked for reading: all its bytes,
/// and its planes in order.
#[derive(Debug, Clone)]
pub struct ImageContents {
    pub bytes: Vec<u8>,
    pub planes: Vec<PlaneInfo>,
}

/// The image buffer of a sample: its size, and its contents when it could be
/// locked for reading.
#[derive(Debug, Clone)]
pub struct ImageBuffer {
    pub width: usize,
    pub height: usize,
    pub bytes_per_row: usize,
    pub contents: Option<ImageContents>,
}

/// A sample delivered by a stream, as plain values: its presentation time in
/// nanoseconds, its frame status if it has one, and its image buffer if it
/// has one.
#[derive(Debug, Clone)]
pub struct Sample {
    pub display_time: u64,
    pub status: Option<FrameStatus>,
    pub image: Option<ImageBuffer>,
}

/// A frame in bi-planar YUV 4:2:0.
#[derive(Debug, Clone)]
pub struct YUVFrame {
    pub display_time: u64,
    pub width: i32,
    pub height: i32,
    pub luminance_bytes: Vec<u8>,
    pub luminance_stride: i32,
    pub chrominance_bytes: Vec<u8>,
    pub chrominance_stride: i32,
}

/// A frame of packed BGRA pixels.
#[derive(Debug, Clone)]
pub struct BGRAFrame {
    pub display_time: u64,
    pub width: i32,
    pub height: i32,
    pub data: Vec<u8>,
}


/// The YUV frame of a sample: it needs a locked image buffer of nonzero size
/// with at least two planes, the first two of which hand out their bytes.
/// The frame then holds the image size and the bytes and bytes per row of
/// the luminance (first) and chrominance (second) planes.
pub open spec fn spec_create_yuv_frame(sample: Sample, r: Option<YUVFrame>) -> bool {
    match sample.image {
        None => r is None,
        Some(image) => match image.contents {
            None => r is None,
            Some(contents) => if image.width == 0 || image.height == 0 || contents.planes.len() < 2 {
                r is None
            } else {
                match (contents.planes[0].data, contents.planes[1].data) {
                    (Some(luma), Some(chroma)) => r matches Some(f) && {
                        &&& f.display_time == sample.display_time
                        &&& f.width == image.width as i32
                        &&& f.height == image.height as i32
                        &&& f.luminance_bytes@ == luma@
                        &&& f.luminance_stride == contents.planes[0].bytes_per_row as i32
                        &&& f.chrominance_bytes@ == chroma@
                        &&& f.chrominance_stride == contents.planes[1].bytes_per_row as i32
                    },
                    _ => r is None,
                }
            },
        },
    }
}

/// The YUV frame of `sample`, if it has one.
pub fn create_yuv_frame(sample: &Sample) -> (f: Option<YUVFrame>)
    ensures
        spec_create_yuv_frame(*sample, f),
{
    let image = match &sample.image {
        Some(image) => image,
        None => return None,
    };
    let contents = match &image.contents {
        Some(contents) => contents,
        None => return None,
    };
    if image.width == 0 || image.height == 0 || contents.planes.len() < 2 {
        return None;
    }
    let luma = &contents.planes[0];
    let chroma = &contents.planes[1];
    match (&luma.data, &chroma.data) {
        (Some(luma_bytes), Some(chroma_bytes)) => Some(
            YUVFrame {
                display_time: sample.display_time,
                width: image.width as i32,
                height: image.height as i32,
                luminance_bytes: luma_bytes.clone(),
                luminance_stride: luma.bytes_per_row as i32,
                chrominance_bytes: chroma_bytes.clone(),
                chrominance_stride: chroma.bytes_per_row as i32,
            },
        ),
        _ => None,
    }
}


/// A frame of blue, green, red bytes, three a pixel.
#[derive(Debug, Clone)]
pub struct BGRFrame {
    pub display_time: u64,
    pub width: i32,
    pub height: i32,
    pub data: Vec<u8>,
}

/// A frame of red, green, blue bytes, three a pixel.
#[derive(Debug, Clone)]
pub struct RGBFrame {
    pub display_time: u64,
    pub width: i32,
    pub height: i32,
    pub data: Vec<u8>,
}

/// A captured frame.
#[derive(Debug, Clone)]
pub enum Frame {
    YUVFrame(YUVFrame),
    RGB(RGBFrame),
    BGR0(BGRFrame),
    BGRA(BGRAFrame),
}

/// The packed BGRA pixels of a sample, with each row cropped to the frame
/// width.
#[derive(Debug, Clone)]
pub struct PackedFrame {
    pub display_time: u64,
    pub width: usize,
    pub height: usize,
    pub data: Vec<u8>,
}

/// What `get_cropped_data` gives: `data` cropped row by row when it has the
/// shape of `height` rows of `cur_width` pixels, `data` itself otherwise.
pub open spec fn spec_cropped(r: Seq<u8>, data: Seq<u8>, cur_width: i32, height: i32, width: i32) -> bool {
    if crop_applies(data.len() as int, cur_width as int, height as int, width as int) {
        is_cropped(r, data, cur_width as int, height as int, width as int)
    } else {
        r == data
    }
}

/// The image buffer and its locked contents, when a sample has packed pixels
/// to hand out: a locked image buffer of nonzero size.
pub open spec fn packed_source(sample: Sample) -> Option<(ImageBuffer, ImageContents)> {
    match sample.image {
        None => None,
        Some(image) => match image.contents {
            None => None,
            Some(contents) => if image.width == 0 || image.height == 0 {
                None
            } else {
                Some((image, contents))
            },
        },
    }
}

/// `data` is the buffer's bytes cropped to the frame: rows are a quarter of
/// the buffer's bytes per row long in pixels, and are cut to the image width.
pub open spec fn cropped_from(data: Seq<u8>, image: ImageBuffer, contents: ImageContents) -> bool {
    spec_cropped(
        data,
        contents.bytes@,
        (image.bytes_per_row / 4) as i32,
        image.height as i32,
        image.width as i32,
    )
}

/// The packed pixels of a sample: there are some when it has a locked image
/// buffer of nonzero size; they carry the sample's time, the image size, and
/// the image bytes cropped to the frame.
pub open spec fn spec_packed_frame(sample: Sample, r: Option<PackedFrame>) -> bool {
    match packed_source(sample) {
        None => r is None,
        Some((image, contents)) => r matches Some(p) && {
            &&& p.display_time == sample.display_time
            &&& p.width == image.width
            &&& p.height == image.height
            &&& cropped_from(p.data@, image, contents)
        },
    }
}

/// The packed BGRA pixels of `sample`, cropped to the frame, if it has them.
pub fn packed_frame(sample: &Sample) -> (f: Option<PackedFrame>)
    ensures
        spec_packed_frame(*sample, f),
{
    let image = match &sample.image {
        Some(image) => image,
        None => return None,
    };
    let contents = match &image.contents {
        Some(contents) => contents,
        None => return None,
    };
    if image.width == 0 || image.height == 0 {
        return None;
    }
    let data = get_cropped_data(
        contents.bytes.clone(),
        (image.bytes_per_row / 4) as i32,
        image.height as i32,
        image.width as i32,
    );
    Some(PackedFrame { display_time: sample.display_time, width: image.width, height: image.height, data })
}

/// The BGRA frame of a sample: its packed pixels, cropped.
pub open spec fn spec_create_bgra_frame(sample: Sample, r: Option<BGRAFrame>) -> bool {
    match packed_source(sample) {
        None => r is None,
        Some((image, contents)) => r matches Some(f) && {
            &&& f.display_time == sample.display_time
            &&& f.width == image.width as i32
            &&& f.height == image.height as i32
            &&& cropped_from(f.data@, image, contents)
        },
    }
}

/// The BGR frame of a sample: its packed pixels, cropped, without alpha.
pub open spec fn spec_create_bgr_frame(sample: Sample, r: Option<BGRFrame>) -> bool {
    match packed_source(sample) {
        None => r is None,
        Some((image, contents)) => r matches Some(f) && {
            &&& f.display_time == sample.display_time
            &&& f.width == image.width as i32
            &&& f.height == image.height as i32
            &&& exists|c: Seq<u8>| #[trigger] cropped_from(c, image, contents) && is_three_byte_pixels(f.data@, c, 0, 2)
        },
    }
}

/// The RGB frame of a sample: its packed pixels, cropped, without alpha, red
/// first.
pub open spec fn spec_create_rgb_frame(sample: Sample, r: Option<RGBFrame>) -> bool {
    match packed_source(sample) {
        None => r is None,
        Some((image, contents)) => r matches Some(f) && {
            &&& f.display_time == sample.display_time
            &&& f.width == image.width as i32
            &&& f.height == image.height as i32
            &&& exists|c: Seq<u8>| #[trigger] cropped_from(c, image, contents) && is_three_byte_pixels(f.data@, c, 2, 0)
        },
    }
}

/// The BGRA frame of `sample`, if it has packed pixels.
pub fn create_bgra_frame(sample: &Sample) -> (f: Option<BGRAFrame>)
    ensures
        spec_create_bgra_frame(*sample, f),
{
    match packed_frame(sample) {
        Some(p) => Some(
            BGRAFrame { display_time: p.display_time, width: p.width as i32, height: p.height as i32, data: p.data },
        ),
        None => None,
    }
}

/// The BGR frame of `sample`, if it has packed pixels.
pub fn create_bgr_frame(sample: &Sample) -> (f: Option<BGRFrame>)
    ensures
        spec_create_bgr_frame(*sample, f),
{
    match packed_frame(sample) {
        Some(p) => {
            let ghost cropped = p.data@;
            let data = remove_alpha_channel(p.data);
            let f = BGRFrame { display_time: p.display_time, width: p.width as i32, height: p.height as i32, data };
            proof {
                let (image, contents) = packed_source(*sample)->0;
                assert(cropped_from(cropped, image, contents) && is_three_byte_pixels(f.data@, cropped, 0, 2));
            }
            Some(f)
        },
        None => None,
    }
}

/// The RGB frame of `sample`, if it has packed pixels.
pub fn create_rgb_frame(sample: &Sample) -> (f: Option<RGBFrame>)
    ensures
        spec_create_rgb_frame(*sample, f),
{
    match packed_frame(sample) {
        Some(p) => {
            let ghost cropped = p.data@;
            let data = convert_bgra_to_rgb(p.data);
            let f = RGBFrame { display_time: p.display_time, width: p.width as i32, height: p.height as i32, data };
            proof {
                let (image, contents) = packed_source(*sample)->0;
                assert(cropped_from(cropped, image, contents) && is_three_byte_pixels(f.data@, cropped, 2, 0));
            }
            Some(f)
        },
        None => None,
    }
}

/// Whether `f` is the empty BGRA frame sent at time `display_time`.
pub open spec fn is_empty_bgra(f: BGRAFrame, display_time: u64) -> bool {
    &&& f.display_time == display_time
    &&& f.width == 0
    &&& f.height == 0
    &&& f.data@ == Seq::<u8>::empty()
}

/// The frame of kind `output` that a sample with content turns into.
pub open spec fn spec_frame_of_kind(output: FrameType, sample: Sample, r: Option<Frame>) -> bool {
    match output {
        FrameType::YUVFrame => match r {
            None => spec_create_yuv_frame(sample, None),
            Some(Frame::YUVFrame(f)) => spec_create_yuv_frame(sample, Some(f)),
            _ => false,
        },
        FrameType::RGB => match r {
            None => spec_create_rgb_frame(sample, None),
            Some(Frame::RGB(f)) => spec_create_rgb_frame(sample, Some(f)),
            _ => false,
        },
        FrameType::BGR0 => match r {
            None => spec_create_bgr_frame(sample, None),
            Some(Frame::BGR0(f)) => spec_create_bgr_frame(sample, Some(f)),
            _ => false,
        },
        FrameType::BGRAFrame => match r {
            None => spec_create_bgra_frame(sample, None),
            Some(Frame::BGRA(f)) => spec_create_bgra_frame(sample, Some(f)),
            _ => false,
        },
    }
}

/// What a sample turns into: only screen samples whose frame has content
/// (complete or just started) give a frame, of the requested kind; an idle
/// screen gives an empty BGRA frame when BGRA frames are requested; every
/// other sample gives nothing.
pub open spec fn spec_process_sample(
    of_type: OutputType,
    output: FrameType,
    sample: Sample,
    r: Option<Frame>,
) -> bool {
    if of_type != OutputType::Screen {
        r is None
    } else {
        match sample.status {
            Some(FrameStatus::Complete) | Some(FrameStatus::Started) => spec_frame_of_kind(output, sample, r),
            Some(FrameStatus::Idle) => if output == FrameType::BGRAFrame {
                r matches Some(Frame::BGRA(f)) && is_empty_bgra(f, sample.display_time)
            } else {
                r is None
            },
            _ => r is None,
        }
    }
}

/// Turns a sample of a stream output of type `of_type` into the frame a
/// capturer of `output` frames delivers for it, if any.
pub fn process_sample_buffer(of_type: OutputType, output: FrameType, sample: &Sample) -> (r: Option<Frame>)
    ensures
        spec_process_sample(of_type, output, *sample, r),
{
    if of_type != OutputType::Screen {
        return None;
    }
    match sample.status {
        Some(FrameStatus::Complete) | Some(FrameStatus::Started) => match output {
            FrameType::YUVFrame => match create_yuv_frame(sample) {
                Some(f) => Some(Frame::YUVFrame(f)),
                None => None,
            },
            FrameType::RGB => match create_rgb_frame(sample) {
                Some(f) => Some(Frame::RGB(f)),
                None => None,
            },
            FrameType::BGR0 => match create_bgr_frame(sample) {
                Some(f) => Some(Frame::BGR0(f)),
                None => None,
            },
            FrameType::BGRAFrame => match create_bgra_frame(sample) {
                Some(f) => Some(Frame::BGRA(f)),
                None => None,
            },
        },
        Some(FrameStatus::Idle) => {
            if output == FrameType::BGRAFrame {
                Some(Frame::BGRA(BGRAFrame { display_time: sample.display_time, width: 0, height: 0, data: Vec::new() }))
            } else {
                None
            }
        },
        _ => None,
    }
}

/// Why waiting for a frame ended without one.
#[derive(Debug)]
pub enum FrameWaitError {
    /// The stream's channel was closed.
    Disconnected,
    /// The stream failed; the text says why.
    StreamFailed(String),
}

/// What waiting for the next frame observed.
pub enum FrameEvent {
    /// The stream reported a failure with this text.
    StreamFailed(String),
    /// No sample arrived in time.
    TimedOut,
    /// The stream's channel was closed.
    Disconnected,
    /// A sample arrived from an output of the given type.
    Received(OutputType, Sample),
}

/// What to do after a frame event.
pub enum FrameStep {
    /// Keep waiting.
    Wait,
    /// Give up with this error.
    Fail(FrameWaitError),
    /// Hand out this frame.
    Deliver(Frame),
}

/// A stream failure ends the wait with its text; a closed channel ends it
/// with an error; a timeout keeps it going; a sample that turns into a frame
/// ends it with that frame, and any other sample keeps it going.
pub open spec fn spec_frame_step(output: FrameType, event: FrameEvent, step: FrameStep) -> bool {
    match event {
        FrameEvent::StreamFailed(text) => step == FrameStep::Fail(FrameWaitError::StreamFailed(text)),
        FrameEvent::Disconnected => step matches FrameStep::Fail(FrameWaitError::Disconnected),
        FrameEvent::TimedOut => step is Wait,
        FrameEvent::Received(of_type, sample) => match step {
            FrameStep::Deliver(f) => spec_process_sample(of_type, output, sample, Some(f)),
            FrameStep::Wait => spec_process_sample(of_type, output, sample, None),
            FrameStep::Fail(_) => false,
        },
    }
}

/// Decides what waiting for the next frame of kind `output` does after
/// `event`.
pub fn next_frame_step(output: FrameType, event: FrameEvent) -> (step: FrameStep)
    ensures
        spec_frame_step(output, event, step),
{
    match event {
        FrameEvent::StreamFailed(text) => FrameStep::Fail(FrameWaitError::StreamFailed(text)),
        FrameEvent::Disconnected => FrameStep::Fail(FrameWaitError::Disconnected),
        FrameEvent::TimedOut => FrameStep::Wait,
        FrameEvent::Received(of_type, sample) => match process_sample_buffer(of_type, output, &sample) {
            Some(f) => FrameStep::Deliver(f),
            None => FrameStep::Wait,
        },
    }
}

/// Whether a sample can be made into a YUV frame: a locked image buffer of
/// nonzero size whose first two planes hand out their bytes.
pub open spec fn yuv_available(sample: Sample) -> bool {
    match sample.image {
        None => false,
        Some(image) => match image.contents {
            None => false,
            Some(contents) => image.width != 0 && image.height != 0 && contents.planes.len() >= 2
                && contents.planes[0].data is Some && contents.planes[1].data is Some,
        },
    }
}

/// Whether a sample of a stream output of type `of_type` turns into a frame
/// for a capturer of `output` frames.
pub open spec fn gives_frame(of_type: OutputType, output: FrameType, sample: Sample) -> bool {
    of_type == OutputType::Screen && match sample.status {
        Some(FrameStatus::Complete) | Some(FrameStatus::Started) => match output {
            FrameType::YUVFrame => yuv_available(sample),
            _ => packed_source(sample) is Some,
        },
        Some(FrameStatus::Idle) => output == FrameType::BGRAFrame,
        _ => false,
    }
}

/// Whether waiting for a frame ends at `event`: a stream failure or a closed
/// channel ends it, a timeout does not, and a sample ends it when it turns
/// into a frame.
pub open spec fn event_ends_wait(output: FrameType, event: FrameEvent) -> bool {
    match event {
        FrameEvent::StreamFailed(_) => true,
        FrameEvent::Disconnected => true,
        FrameEvent::TimedOut => false,
        FrameEvent::Received(of_type, sample) => gives_frame(of_type, output, sample),
    }
}

/// The position of the first event at which waiting for a frame ends.
pub open spec fn first_ending_event(output: FrameType, events: Seq<FrameEvent>) -> Option<int>
    decreases events.len(),
{
    if events.len() == 0 {
        None
    } else if event_ends_wait(output, events[0]) {
        Some(0)
    } else {
        match first_ending_event(output, events.drop_first()) {
            Some(k) => Some(k + 1),
            None => None,
        }
    }
}

/// A step keeps waiting exactly when its event does not end the wait.
pub proof fn lemma_frame_step_waits(output: FrameType, event: FrameEvent, step: FrameStep)
    requires
        spec_frame_step(output, event, step),
    ensures
        (step is Wait) == !event_ends_wait(output, event),
{
}

proof fn lemma_first_ending_event(output: FrameType, events: Seq<FrameEvent>)
    ensures
        match first_ending_event(output, events) {
            Some(k) => 0 <= k < events.len() && event_ends_wait(output, events[k])
                && forall|j: int| 0 <= j < k ==> !event_ends_wait(output, #[trigger] events[j]),
            None => forall|j: int| 0 <= j < events.len() ==> !event_ends_wait(output, #[trigger] events[j]),
        },
    decreases events.len(),
{
    if events.len() > 0 && !event_ends_wait(output, events[0]) {
        lemma_first_ending_event(output, events.drop_first());
        assert forall|j: int| 1 <= j < events.len() implies events[j] == events.drop_first()[j - 1] by {}
    }
}

/// Waiting for a frame over the events `events`, in the order they come,
/// with `steps[j]` the step taken at `events[j]`: every event before the first
/// one that ends the wait is passed over (samples that give no frame are
/// dropped, timeouts never end the wait); at that event the wait delivers the
/// frame of its sample, or fails on a closed channel or a stream failure; the
/// events after it are left for the next wait. When no event ends it, the
/// wait goes on.
pub proof fn lemma_frame_wait_over_events(output: FrameType, events: Seq<FrameEvent>, steps: Seq<FrameStep>)
    requires
        steps.len() == events.len(),
        forall|j: int| 0 <= j < events.len() ==> spec_frame_step(output, #[trigger] events[j], steps[j]),
    ensures
        match first_ending_event(output, events) {
            Some(k) => {
                &&& 0 <= k < events.len()
                &&& forall|j: int| 0 <= j < k ==> #[trigger] steps[j] is Wait
                &&& !(steps[k] is Wait)
                &&& (events[k] matches FrameEvent::Received(of_type, sample) ==> steps[k] matches FrameStep::Deliver(f)
                    && spec_process_sample(of_type, output, sample, Some(f)))
                &&& (events[k] is Disconnected ==> steps[k] matches FrameStep::Fail(FrameWaitError::Disconnected))
                &&& (events[k] matches FrameEvent::StreamFailed(text) ==> steps[k] == FrameStep::Fail(
                    FrameWaitError::StreamFailed(text),
                ))
            },
            None => forall|j: int| 0 <= j < events.len() ==> #[trigger] steps[j] is Wait,
        },
{
    lemma_first_ending_event(output, events);
    assert forall|j: int| 0 <= j < events.len() implies (#[trigger] steps[j] is Wait) == !event_ends_wait(
        output,
        events[j],
    ) by {
        lemma_frame_step_waits(output, events[j], steps[j]);
    }
}

/// A YUV frame exists exactly when the sample has a locked image buffer of
/// nonzero size whose first two planes hand out their bytes; it then carries
/// the sample's time and the image size, the first plane's bytes as
/// luminance with that plane's bytes per row as stride, and the second
/// plane's bytes as chrominance with its bytes per row as stride.
pub proof fn lemma_yuv_frame_reads_planes(sample: Sample, r: Option<YUVFrame>)
    requires
        spec_create_yuv_frame(sample, r),
    ensures
        (r is Some) == (sample.image matches Some(image) && image.contents matches Some(contents) && image.width
            != 0 && image.height != 0 && contents.planes.len() >= 2 && contents.planes[0].data is Some
            && contents.planes[1].data is Some),
        r matches Some(f) ==> {
            let image = sample.image->0;
            let planes = image.contents->0.planes;
            &&& f.display_time == sample.display_time
            &&& f.width == image.width as i32
            &&& f.height == image.height as i32
            &&& f.luminance_bytes@ == planes[0].data->0@
            &&& f.luminance_stride == planes[0].bytes_per_row as i32
            &&& f.chrominance_bytes@ == planes[1].data->0@
            &&& f.chrominance_stride == planes[1].bytes_per_row as i32
        },
{
}

/// A screen sample whose frame is complete gives the same frame as one whose
/// frame has just started: which of the two it is never matters.
pub proof fn lemma_complete_and_started_alike(of_type: OutputType, output: FrameType, sample: Sample, r: Option<Frame>)
    requires
        spec_process_sample(of_type, output, sample, r),
        sample.status == Some(FrameStatus::Complete) || sample.status == Some(FrameStatus::Started),
    ensures
        spec_process_sample(of_type, output, Sample { status: Some(FrameStatus::Complete), ..sample }, r),
        spec_process_sample(of_type, output, Sample { status: Some(FrameStatus::Started), ..sample }, r),
{
}

/// For YUV output, a complete or just started screen sample whose locked
/// image buffer has nonzero size and two planes with bytes gives a YUV frame
/// of those planes: luminance from the first, chrominance from the second,
/// each with its plane's bytes per row as stride; any other such sample
/// gives nothing.
pub proof fn lemma_screen_yuv_frame(sample: Sample, r: Option<Frame>)
    requires
        spec_process_sample(OutputType::Screen, FrameType::YUVFrame, sample, r),
        sample.status == Some(FrameStatus::Complete) || sample.status == Some(FrameStatus::Started),
    ensures
        (r is Some) == (sample.image matches Some(image) && image.contents matches Some(contents) && image.width
            != 0 && image.height != 0 && contents.planes.len() >= 2 && contents.planes[0].data is Some
            && contents.planes[1].data is Some),
        match r {
            Some(Frame::YUVFrame(f)) => {
                let image = sample.image->0;
                let planes = image.contents->0.planes;
                &&& f.display_time == sample.display_time
                &&& f.width == image.width as i32
                &&& f.height == image.height as i32
                &&& f.luminance_bytes@ == planes[0].data->0@
                &&& f.luminance_stride == planes[0].bytes_per_row as i32
                &&& f.chrominance_bytes@ == planes[1].data->0@
                &&& f.chrominance_stride == planes[1].bytes_per_row as i32
            },
            Some(_) => false,
            None => true,
        },
{
    match r {
        Some(Frame::YUVFrame(f)) => lemma_yuv_frame_reads_planes(sample, Some(f)),
        None => lemma_yuv_frame_reads_planes(sample, None),
        _ => {},
    }
}

/// For packed output (RGB, BGR or BGRA), a complete or just started screen
/// sample gives a frame exactly when it has a locked image buffer of nonzero
/// size, and that frame is of the requested kind, with the sample's time and
/// the image size.
pub proof fn lemma_screen_packed_frame(output: FrameType, sample: Sample, r: Option<Frame>)
    requires
        spec_process_sample(OutputType::Screen, output, sample, r),
        output != FrameType::YUVFrame,
        sample.status == Some(FrameStatus::Complete) || sample.status == Some(FrameStatus::Started),
    ensures
        (r is Some) == (sample.image matches Some(image) && image.contents is Some && image.width != 0
            && image.height != 0),
        r matches Some(frame) ==> {
            let image = sample.image->0;
            match frame {
                Frame::RGB(f) => output == FrameType::RGB && f.display_time == sample.display_time && f.width
                    == image.width as i32 && f.height == image.height as i32,
                Frame::BGR0(f) => output == FrameType::BGR0 && f.display_time == sample.display_time && f.width
                    == image.width as i32 && f.height == image.height as i32,
                Frame::BGRA(f) => output == FrameType::BGRAFrame && f.display_time == sample.display_time
                    && f.width == image.width as i32 && f.height == image.height as i32,
                Frame::YUVFrame(_) => false,
            }
        },
{
}

/// Samples that are not of the screen never give a frame, and neither do
/// screen samples whose frame is blank, suspended, stopped, of an unknown
/// status or without a status; an idle screen gives a frame only for BGRA
/// output, and then an empty one.
pub proof fn lemma_only_screen_content_gives_frames(of_type: OutputType, output: FrameType, sample: Sample, r: Option<Frame>)
    requires
        spec_process_sample(of_type, output, sample, r),
    ensures
        of_type != OutputType::Screen ==> r is None,
        !(sample.status == Some(FrameStatus::Complete) || sample.status == Some(FrameStatus::Started)
            || sample.status == Some(FrameStatus::Idle)) ==> r is None,
        sample.status == Some(FrameStatus::Idle) && of_type == OutputType::Screen ==> if output
            == FrameType::BGRAFrame {
            r matches Some(Frame::BGRA(f)) && f.width == 0 && f.height == 0 && f.data@.len() == 0
                && f.display_time == sample.display_time
        } else {
            r is None
        },
{
}

} // verus!
