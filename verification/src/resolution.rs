use vstd::prelude::*;

verus! {

/// Output resolutions a capture can be scaled down to.
#[derive(Debug, Clone, Copy, PartialEq, Eq, Structural)]
pub enum Resolution {
    _480p,
    _720p,
    _1080p,
    _1440p,
    _2160p,
    _4320p,
    Captured,
}

impl Default for Resolution {
    /// A capture keeps the size of the captured area unless asked otherwise.
    fn default() -> (r: Self)
        ensures
            r == Resolution::Captured,
    {
        Resolution::Captured
    }
}

/// The frame width that a resolution stands for; `None` for `Captured`,
/// which keeps the size of the captured area.
pub open spec fn spec_standard_width(r: Resolution) -> Option<u32> {
    match r {
        Resolution::_480p => Some(640u32),
        Resolution::_720p => Some(1280u32),
        Resolution::_1080p => Some(1920u32),
        Resolution::_1440p => Some(2560u32),
        Resolution::_2160p => Some(3840u32),
        Resolution::_4320p => Some(7680u32),
        Resolution::Captured => None,
    }
}

impl Resolution {
    /// The width in pixels of this resolution, or `None` for `Captured`.
    /// The matching height follows from the aspect ratio of the captured area.
    pub fn standard_width(&self) -> (w: Option<u32>)
        ensures
            w == spec_standard_width(*self),
    {
        match *self {
            Resolution::_480p => Some(640),
            Resolution::_720p => Some(1280),
            Resolution::_1080p => Some(1920),
            Resolution::_1440p => Some(2560),
            Resolution::_2160p => Some(3840),
            Resolution::_4320p => Some(7680),
            Resolution::Captured => None,
        }
    }
}

/// `x` rounded down to an even number.
pub open spec fn even_floor(x: int) -> int {
    x - x % 2
}

/// The smaller of a dimension and its optional bound.
pub open spec fn bounded(x: int, bound: Option<u32>) -> int {
    match bound {
        Some(b) => if b < x { b as int } else { x },
        None => x,
    }
}

/// Width or height of the delivered frames: the captured extent in pixels
/// (`extent * scale`), capped by the requested resolution when there is one,
/// then rounded down to an even number.
pub open spec fn spec_frame_dimension(extent: u32, scale: u32, bound: Option<u32>) -> int {
    even_floor(bounded(extent as int * scale as int, bound))
}

pub open spec fn width_bound(resolved: Option<[u32; 2]>) -> Option<u32> {
    match resolved {
        Some(r) => Some(r[0]),
        None => None,
    }
}

pub open spec fn height_bound(resolved: Option<[u32; 2]>) -> Option<u32> {
    match resolved {
        Some(r) => Some(r[1]),
        None => None,
    }
}

fn frame_dimension(extent: u32, scale: u32, bound: Option<u32>) -> (d: u32)
    requires
        extent as int * scale as int <= u32::MAX,
    ensures
        d == spec_frame_dimension(extent, scale, bound),
{
    let mut d = extent * scale;
    if let Some(b) = bound {
        if b < d {
            d = b;
        }
    }
    d - d % 2
}

/// Size `[width, height]` of the frames a capture delivers.
///
/// `source_width` and `source_height` are the captured area in points and
/// `scale` the number of pixels per point; `resolved` is the size that the
/// requested output resolution stands for, if any. Each dimension is the
/// captured extent in pixels, capped by `resolved`, rounded down to an even
/// number.
pub fn output_frame_size(
    source_width: u32,
    source_height: u32,
    scale: u32,
    resolved: Option<[u32; 2]>,
) -> (size: [u32; 2])
    requires
        source_width as int * scale as int <= u32::MAX,
        source_height as int * scale as int <= u32::MAX,
    ensures
        size[0] == spec_frame_dimension(source_width, scale, width_bound(resolved)),
        size[1] == spec_frame_dimension(source_height, scale, height_bound(resolved)),
{
    let (width_cap, height_cap) = match resolved {
        Some(r) => (Some(r[0]), Some(r[1])),
        None => (None, None),
    };
    [
        frame_dimension(source_width, scale, width_cap),
        frame_dimension(source_height, scale, height_cap),
    ]
}

/// A frame dimension is even, fits within the captured extent and within the
/// requested bound, and is the largest number with these three properties.
pub proof fn lemma_frame_dimension_is_largest_even_fit(extent: u32, scale: u32, bound: Option<u32>)
    ensures
        ({
            let d = spec_frame_dimension(extent, scale, bound);
            &&& d % 2 == 0
            &&& 0 <= d <= extent as int * scale as int
            &&& (bound matches Some(b) ==> d <= b)
            &&& forall|e: int|
                #![trigger e % 2]
                e % 2 == 0 && e <= extent as int * scale as int && (bound matches Some(b) ==> e <= b)
                    ==> e <= d
        }),
{
    assert(extent as int * scale as int >= 0) by (nonlinear_arith);
}

} // verus!
