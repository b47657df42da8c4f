use vstd::prelude::*;

use crate::frame::{FrameStatus, ImageBuffer, PlaneInfo, Sample};

verus! {

/// Bytes copied out of a pixel buffer or one of its planes.
pub struct PixelBufferData(Vec<u8>);

impl PixelBufferData {
    /// The bytes.
    pub closed spec fn bytes(&self) -> Seq<u8> {
        self.0@
    }

    /// The bytes, as a slice.
    pub fn as_slice(&self) -> (s: &[u8])
        ensures
            s@ == self.bytes(),
    {
        self.0.as_slice()
    }
}

impl std::ops::Deref for PixelBufferData {
    type Target = [u8];

    fn deref(&self) -> (s: &[u8])
        ensures
            s@ == self.bytes(),
    {
        self.0.as_slice()
    }
}

/// One plane of a pixel buffer, with its bytes copied out.
#[derive(Debug)]
pub struct Plane {
    width: usize,
    height: usize,
    bytes_per_row: usize,
    data: Vec<u8>,
}

impl Plane {
    /// The width of the plane in pixels.
    pub closed spec fn spec_width(&self) -> usize {
        self.width
    }

    /// The height of the plane in pixels.
    pub closed spec fn spec_height(&self) -> usize {
        self.height
    }

    /// The number of bytes a row of the plane takes.
    pub closed spec fn spec_bytes_per_row(&self) -> usize {
        self.bytes_per_row
    }

    /// The bytes of the plane.
    pub closed spec fn spec_data(&self) -> Seq<u8> {
        self.data@
    }

    pub fn width(&self) -> (w: usize)
        ensures
            w == self.spec_width(),
    {
        self.width
    }

    pub fn height(&self) -> (h: usize)
        ensures
            h == self.spec_height(),
    {
        self.height
    }

    pub fn bytes_per_row(&self) -> (b: usize)
        ensures
            b == self.spec_bytes_per_row(),
    {
        self.bytes_per_row
    }

    /// A copy of the bytes of the plane.
    pub fn data(&self) -> (d: PixelBufferData)
        ensures
            d.bytes() == self.spec_data(),
    {
        PixelBufferData(self.data.clone())
    }
}

/// Whether a plane was made from the plane description `info`: same size,
/// and the bytes that the description holds.
pub open spec fn plane_from_info(p: Plane, info: PlaneInfo) -> bool {
    &&& p.spec_width() == info.width
    &&& p.spec_height() == info.height
    &&& p.spec_bytes_per_row() == info.bytes_per_row
    &&& info.data matches Some(d) && p.spec_data() == d@
}

/// The plane descriptions among `infos` that hold bytes, in order.
pub open spec fn planes_with_data(infos: Seq<PlaneInfo>) -> Seq<PlaneInfo>
    decreases infos.len(),
{
    if infos.len() == 0 {
        Seq::empty()
    } else {
        let rest = planes_with_data(infos.drop_last());
        if infos.last().data is Some {
            rest.push(infos.last())
        } else {
            rest
        }
    }
}

/// `planes` are made, one for one and in order, from `infos`.
pub open spec fn planes_from_infos(planes: Seq<Plane>, infos: Seq<PlaneInfo>) -> bool {
    &&& planes.len() == infos.len()
    &&& forall|i: int| 0 <= i < planes.len() ==> plane_from_info(#[trigger] planes[i], infos[i])
}

/// A frame handed out by a stream, with its timing and size.
pub struct PixelBuffer {
    display_time: u64,
    width: usize,
    height: usize,
    bytes_per_row: usize,
    image: ImageBuffer,
}

/// Whether a pixel buffer is made from a sample with a frame of this status:
/// complete, just started, or idle.
pub open spec fn accepts_status(status: FrameStatus) -> bool {
    status == FrameStatus::Complete || status == FrameStatus::Started || status == FrameStatus::Idle
}

/// The pixel buffer of a sample: a sample with a complete, just started or
/// idle frame and an image buffer gives one with the sample's time and the
/// image's size; every other sample gives none.
pub open spec fn spec_pixel_buffer_of(sample: Sample, r: Option<PixelBuffer>) -> bool {
    match (sample.status, sample.image) {
        (Some(status), Some(image)) => if accepts_status(status) {
            r matches Some(p) && {
                &&& p.spec_display_time() == sample.display_time
                &&& p.spec_width() == image.width
                &&& p.spec_height() == image.height
                &&& p.spec_bytes_per_row() == image.bytes_per_row
                &&& p.spec_image() == image
            }
        } else {
            r is None
        },
        _ => r is None,
    }
}

impl PixelBuffer {
    /// The presentation time of the frame in nanoseconds.
    pub closed spec fn spec_display_time(&self) -> u64 {
        self.display_time
    }

    /// The width of the frame in pixels.
    pub closed spec fn spec_width(&self) -> usize {
        self.width
    }

    /// The height of the frame in pixels.
    pub closed spec fn spec_height(&self) -> usize {
        self.height
    }

    /// The number of bytes a row of the frame takes.
    pub closed spec fn spec_bytes_per_row(&self) -> usize {
        self.bytes_per_row
    }

    /// The image buffer the frame was made from.
    pub closed spec fn spec_image(&self) -> ImageBuffer {
        self.image
    }

    /// The pixel buffer of a sample. There is none when the sample has no
    /// frame status, when its frame is not complete, just started or idle,
    /// or when it has no image buffer.
    pub fn new(sample: Sample) -> (r: Option<PixelBuffer>)
        ensures
            spec_pixel_buffer_of(sample, r),
    {
        let status = match sample.status {
            Some(status) => status,
            None => return None,
        };
        match status {
            FrameStatus::Complete | FrameStatus::Started | FrameStatus::Idle => {},
            _ => return None,
        }
        let image = match sample.image {
            Some(image) => image,
            None => return None,
        };
        Some(
            PixelBuffer {
                display_time: sample.display_time,
                width: image.width,
                height: image.height,
                bytes_per_row: image.bytes_per_row,
                image,
            },
        )
    }

    pub fn display_time(&self) -> (t: u64)
        ensures
            t == self.spec_display_time(),
    {
        self.display_time
    }

    pub fn width(&self) -> (w: usize)
        ensures
            w == self.spec_width(),
    {
        self.width
    }

    pub fn height(&self) -> (h: usize)
        ensures
            h == self.spec_height(),
    {
        self.height
    }

    pub fn bytes_per_row(&self) -> (b: usize)
        ensures
            b == self.spec_bytes_per_row(),
    {
        self.bytes_per_row
    }

    /// A copy of all the bytes of the frame; empty when the image buffer
    /// could not be locked for reading.
    pub fn data(&self) -> (d: PixelBufferData)
        ensures
            d.bytes() == match self.spec_image().contents {
                Some(contents) => contents.bytes@,
                None => Seq::<u8>::empty(),
            },
    {
        match &self.image.contents {
            Some(contents) => PixelBufferData(contents.bytes.clone()),
            None => PixelBufferData(Vec::new()),
        }
    }

    /// The planes of the frame that hand out their bytes, in order; none when
    /// the image buffer could not be locked for reading.
    pub fn planes(&self) -> (r: Vec<Plane>)
        ensures
            planes_from_infos(
                r@,
                match self.spec_image().contents {
                    Some(contents) => planes_with_data(contents.planes@),
                    None => Seq::<PlaneInfo>::empty(),
                },
            ),
    {
        let contents = match &self.image.contents {
            Some(contents) => contents,
            None => return Vec::new(),
        };
        let infos = &contents.planes;
        let mut r: Vec<Plane> = Vec::new();
        let mut i: usize = 0;
        while i < infos.len()
            invariant
                i <= infos@.len(),
                planes_from_infos(r@, planes_with_data(infos@.take(i as int))),
            decreases infos@.len() - i,
        {
            assert(infos@.take(i + 1).drop_last() =~= infos@.take(i as int));
            let info = &infos[i];
            match &info.data {
                Some(data) => {
                    r.push(
                        Plane {
                            width: info.width,
                            height: info.height,
                            bytes_per_row: info.bytes_per_row,
                            data: data.clone(),
                        },
                    );
                },
                None => {},
            }
            i = i + 1;
        }
        assert(infos@.take(infos@.len() as int) =~= infos@);
        r
    }
}

/// What waiting for the next pixel buffer observed.
pub enum PollEvent {
    /// The stream reported an error.
    StreamFailed,
    /// No sample arrived in time.
    TimedOut,
    /// The stream's channel was closed.
    Disconnected,
    /// A sample arrived.
    Received(Sample),
}

/// What to do after a poll.
pub enum PollStep {
    /// Keep waiting.
    Wait,
    /// Give up with an error.
    Fail,
    /// Hand out this pixel buffer.
    Deliver(PixelBuffer),
}

/// A stream error or a closed channel ends the wait with an error; a timeout,
/// or a sample without a usable pixel buffer, keeps waiting; a sample with one
/// ends it with that pixel buffer.
pub open spec fn spec_poll_step(event: PollEvent, step: PollStep) -> bool {
    match event {
        PollEvent::StreamFailed => step is Fail,
        PollEvent::Disconnected => step is Fail,
        PollEvent::TimedOut => step is Wait,
        PollEvent::Received(sample) => match step {
            PollStep::Deliver(p) => spec_pixel_buffer_of(sample, Some(p)),
            PollStep::Wait => spec_pixel_buffer_of(sample, None),
            PollStep::Fail => false,
        },
    }
}

/// Decides what waiting for the next pixel buffer does after `event`.
pub fn next_pixel_buffer_step(event: PollEvent) -> (step: PollStep)
    ensures
        spec_poll_step(event, step),
{
    match event {
        PollEvent::StreamFailed => PollStep::Fail,
        PollEvent::Disconnected => PollStep::Fail,
        PollEvent::TimedOut => PollStep::Wait,
        PollEvent::Received(sample) => match PixelBuffer::new(sample) {
            Some(p) => PollStep::Deliver(p),
            None => PollStep::Wait,
        },
    }
}

/// A sample gives a pixel buffer exactly when its frame is complete, just
/// started or idle and it has an image buffer; the pixel buffer then carries
/// the sample's time and the image buffer's width, height and bytes per row,
/// each as the image buffer reports it.
pub proof fn lemma_pixel_buffer_keeps_image_layout(sample: Sample, r: Option<PixelBuffer>)
    requires
        spec_pixel_buffer_of(sample, r),
    ensures
        (r is Some) == ((sample.status == Some(FrameStatus::Complete) || sample.status == Some(
            FrameStatus::Started,
        ) || sample.status == Some(FrameStatus::Idle)) && sample.image is Some),
        r matches Some(p) ==> {
            let image = sample.image->0;
            &&& p.spec_display_time() == sample.display_time
            &&& p.spec_width() == image.width
            &&& p.spec_height() == image.height
            &&& p.spec_bytes_per_row() == image.bytes_per_row
            &&& p.spec_image() == image
        },
{
}

/// Whether waiting for a pixel buffer ends at `event`: a stream failure or a
/// closed channel ends it, a timeout does not, and a sample ends it when it
/// has a complete, just started or idle frame and an image buffer.
pub open spec fn event_ends_poll(event: PollEvent) -> bool {
    match event {
        PollEvent::StreamFailed => true,
        PollEvent::Disconnected => true,
        PollEvent::TimedOut => false,
        PollEvent::Received(sample) => sample.status matches Some(s) && accepts_status(s) && sample.image is Some,
    }
}

/// The position of the first event at which waiting for a pixel buffer ends.
pub open spec fn first_ending_poll(events: Seq<PollEvent>) -> Option<int>
    decreases events.len(),
{
    if events.len() == 0 {
        None
    } else if event_ends_poll(events[0]) {
        Some(0)
    } else {
        match first_ending_poll(events.drop_first()) {
            Some(k) => Some(k + 1),
            None => None,
        }
    }
}

/// A poll step keeps waiting exactly when its event does not end the wait.
pub proof fn lemma_poll_step_waits(event: PollEvent, step: PollStep)
    requires
        spec_poll_step(event, step),
    ensures
        (step is Wait) == !event_ends_poll(event),
{
}

proof fn lemma_first_ending_poll(events: Seq<PollEvent>)
    ensures
        match first_ending_poll(events) {
            Some(k) => 0 <= k < events.len() && event_ends_poll(events[k])
                && forall|j: int| 0 <= j < k ==> !event_ends_poll(#[trigger] events[j]),
            None => forall|j: int| 0 <= j < events.len() ==> !event_ends_poll(#[trigger] events[j]),
        },
    decreases events.len(),
{
    if events.len() > 0 && !event_ends_poll(events[0]) {
        lemma_first_ending_poll(events.drop_first());
        assert forall|j: int| 1 <= j < events.len() implies events[j] == events.drop_first()[j - 1] by {}
    }
}

/// Waiting for a pixel buffer over the events `events`, in the order they
/// come, with `steps[j]` the step taken at `events[j]`: every event before the
/// first one that ends the wait is passed over (timeouts never end it, and
/// samples without a usable pixel buffer are dropped); at that event the wait
/// hands out the sample's pixel buffer, or fails on a stream failure or a
/// closed channel; the events after it are left for the next wait. When no
/// event ends it, the wait goes on.
pub proof fn lemma_pixel_buffer_wait_over_events(events: Seq<PollEvent>, steps: Seq<PollStep>)
    requires
        steps.len() == events.len(),
        forall|j: int| 0 <= j < events.len() ==> spec_poll_step(#[trigger] events[j], steps[j]),
    ensures
        match first_ending_poll(events) {
            Some(k) => {
                &&& 0 <= k < events.len()
                &&& forall|j: int| 0 <= j < k ==> #[trigger] steps[j] is Wait
                &&& (events[k] matches PollEvent::Received(sample) ==> steps[k] matches PollStep::Deliver(p)
                    && spec_pixel_buffer_of(sample, Some(p)))
                &&& (!(events[k] is Received) ==> steps[k] is Fail)
            },
            None => forall|j: int| 0 <= j < events.len() ==> #[trigger] steps[j] is Wait,
        },
{
    lemma_first_ending_poll(events);
    assert forall|j: int| 0 <= j < events.len() implies (#[trigger] steps[j] is Wait) == !event_ends_poll(
        events[j],
    ) by {
        lemma_poll_step_waits(events[j], steps[j]);
    }
}

} // verus!
