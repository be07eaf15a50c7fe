//! Pose images: fixed-size RGBA pixel grids, and the set of poses of one
//! sprite in both facing directions.

use vstd::prelude::*;

verus! {

/// A grid of RGBA pixels, row by row, four bytes a pixel.
pub struct FrameModel {
    pub width: nat,
    pub height: nat,
    pub pixels: Seq<u8>,
}

/// The byte that lands on index `i` when every row of `width` pixels is
/// reversed: same row, same channel, column counted from the other end.
pub open spec fn mirror_index(width: nat, i: int) -> int {
    let row_bytes = 4 * (width as int);
    let row = i / row_bytes;
    let column = (i % row_bytes) / 4;
    let channel = i % 4;
    row * row_bytes + 4 * (width - 1 - column) + channel
}

/// The rows of `pixels`, each `width` pixels wide, reversed pixel by pixel.
pub open spec fn mirrored_pixels(width: nat, pixels: Seq<u8>) -> Seq<u8> {
    Seq::new(pixels.len(), |i: int| pixels[mirror_index(width, i)])
}

impl FrameModel {
    /// Number of bytes of a grid of this size.
    pub open spec fn byte_len(self) -> nat {
        4 * self.width * self.height
    }

    /// The pixel data covers the grid exactly.
    pub open spec fn wf(self) -> bool {
        self.pixels.len() == self.byte_len()
    }

    /// Index of the first byte of the pixel in column `x` of row `y`.
    pub open spec fn pixel_offset(self, x: nat, y: nat) -> int {
        4 * (y * self.width + x) as int
    }

    /// Whether both grids have the same width and height.
    pub open spec fn same_size(self, other: FrameModel) -> bool {
        self.width == other.width && self.height == other.height
    }

    /// The grid flipped horizontally.
    pub open spec fn mirrored(self) -> FrameModel {
        FrameModel {
            width: self.width,
            height: self.height,
            pixels: mirrored_pixels(self.width, self.pixels),
        }
    }
}

/// Flipping moves the pixel of column `x` to column `width - 1 - x` of the
/// same row, channel by channel.
pub proof fn lemma_mirrored_pixel(frame: FrameModel, x: nat, y: nat, channel: nat)
    requires
        frame.wf(),
        x < frame.width,
        y < frame.height,
        channel < 4,
    ensures
        0 <= frame.pixel_offset(x, y) + channel < frame.pixels.len(),
        0 <= frame.pixel_offset((frame.width - 1 - x) as nat, y) + channel < frame.pixels.len(),
        frame.mirrored().pixels[frame.pixel_offset(x, y) + channel] == frame.pixels[
            frame.pixel_offset((frame.width - 1 - x) as nat, y) + channel],
{
    let w = frame.width as int;
    let i = frame.pixel_offset(x, y) + channel;
    let row_bytes = 4 * w;
    assert(i == y * row_bytes + (4 * x + channel)) by (nonlinear_arith)
        requires
            i == 4 * (y * w + x) + channel,
            row_bytes == 4 * w,
    ;
    assert(0 <= 4 * x + channel < row_bytes);
    vstd::arithmetic::div_mod::lemma_fundamental_div_mod_converse(
        i,
        row_bytes,
        y as int,
        (4 * x + channel) as int,
    );
    assert(i / row_bytes == y);
    assert(i % row_bytes == 4 * x + channel);
    assert((4 * x + channel) / 4 == x);
    vstd::arithmetic::div_mod::lemma_fundamental_div_mod_converse(
        i,
        4,
        y * w + x,
        channel as int,
    );
    assert(i % 4 == channel);
    assert(mirror_index(frame.width, i) == y * row_bytes + 4 * (w - 1 - x) + channel);
    assert(frame.pixel_offset((frame.width - 1 - x) as nat, y) + channel == y * row_bytes + 4 * (w
        - 1 - x) + channel) by (nonlinear_arith)
        requires
            frame.pixel_offset((frame.width - 1 - x) as nat, y) == 4 * (y * w + (w - 1 - x)),
            row_bytes == 4 * w,
    ;
    assert(y * row_bytes + row_bytes <= frame.height * row_bytes) by (nonlinear_arith)
        requires
            y < frame.height,
            row_bytes >= 0,
    ;
    assert(frame.height * row_bytes == frame.byte_len()) by (nonlinear_arith)
        requires
            row_bytes == 4 * w,
            w == frame.width,
            frame.byte_len() == 4 * frame.width * frame.height,
    ;
}

/// One pose image.
pub struct Frame {
    width: u32,
    height: u32,
    pixels: Vec<u8>,
}

impl View for Frame {
    type V = FrameModel;

    closed spec fn view(&self) -> FrameModel {
        FrameModel { width: self.width as nat, height: self.height as nat, pixels: self.pixels@ }
    }
}

/// Flips a grid of RGBA pixels with `image::imageops::flip_horizontal`,
/// going through `RgbaImage::from_raw` and `into_raw`. Trusted: on a buffer
/// that covers the grid exactly the result is there, has the same length, and
/// holds each row's pixels in reverse order.
#[verifier::external_body]
fn flip_rgba(width: u32, height: u32, pixels: &Vec<u8>) -> (flipped: Option<Vec<u8>>)
    requires
        pixels.len() == 4 * width * height,
    ensures
        flipped is Some,
        flipped.unwrap()@ == mirrored_pixels(width as nat, pixels@),
{
    let image = image::RgbaImage::from_raw(width, height, pixels.clone())?;
    Some(image::imageops::flip_horizontal(&image).into_raw())
}

impl Frame {
    #[verifier::type_invariant]
    spec fn inv(self) -> bool {
        self@.wf()
    }

    /// A frame of `width` by `height` pixels over `pixels`, if the data covers
    /// the grid exactly.
    pub fn new(width: u32, height: u32, pixels: Vec<u8>) -> (frame: Option<Frame>)
        ensures
            frame is Some <==> pixels.len() == 4 * width * height,
            frame matches Some(f) ==> f@ == (FrameModel {
                width: width as nat,
                height: height as nat,
                pixels: pixels@,
            }),
    {
        assert(width * height <= 0xffff_ffff * 0xffff_ffff) by (nonlinear_arith)
            requires
                width <= 0xffff_ffff,
                height <= 0xffff_ffff,
        ;
        let cells: u64 = (width as u64) * (height as u64);
        let needed: u128 = 4 * (cells as u128);
        assert(needed == 4 * width * height) by (nonlinear_arith)
            requires
                needed == 4 * cells,
                cells == width * height,
        ;
        if pixels.len() as u128 == needed {
            Some(Frame { width, height, pixels })
        } else {
            None
        }
    }

    /// Width, in pixels.
    pub fn width(&self) -> (width: u32)
        ensures
            width == self@.width,
        no_unwind
    {
        self.width
    }

    /// Height, in pixels.
    pub fn height(&self) -> (height: u32)
        ensures
            height == self@.height,
    {
        self.height
    }

    /// The RGBA bytes, row by row.
    pub fn pixels(&self) -> (pixels: &Vec<u8>)
        ensures
            pixels@ == self@.pixels,
            self@.wf(),
    {
        proof {
            use_type_invariant(self);
        }
        &self.pixels
    }

    /// Number of bytes of the pixel data.
    pub fn byte_len(&self) -> (len: usize)
        ensures
            len == self@.byte_len(),
            self@.wf(),
    {
        proof {
            use_type_invariant(self);
        }
        self.pixels.len()
    }

    /// The frame facing the other way.
    pub fn flipped(&self) -> (flipped: Frame)
        ensures
            flipped@ == self@.mirrored(),
    {
        proof {
            use_type_invariant(self);
        }
        match flip_rgba(self.width, self.height, &self.pixels) {
            Some(pixels) => Frame { width: self.width, height: self.height, pixels },
            None => vstd::pervasive::unreached(),
        }
    }
}

/// The models of a list of frames, in order.
pub open spec fn models_of(frames: Seq<Frame>) -> Seq<FrameModel> {
    frames.map_values(|f: Frame| f@)
}

/// Whether every pose has the width and height of the first.
pub open spec fn all_same_size(poses: Seq<FrameModel>) -> bool {
    forall|i: int| 0 <= i < poses.len() ==> (#[trigger] poses[i]).same_size(poses[0])
}

/// A usable list of poses: not empty, each grid covered by its data, all of
/// one size.
pub open spec fn poses_wf(poses: Seq<FrameModel>) -> bool {
    &&& poses.len() >= 1
    &&& forall|i: int| 0 <= i < poses.len() ==> (#[trigger] poses[i]).wf()
    &&& all_same_size(poses)
}

/// Why a list of frames cannot serve as the poses of a sprite.
#[derive(Clone, Copy, Debug, PartialEq, Eq)]
pub enum FrameSetError {
    /// No pose was supplied.
    Empty,
    /// Some pose differs in width or height from the first.
    SizeMismatch,
}

/// Why a list of poses is refused, if it is.
pub open spec fn frame_set_error(poses: Seq<FrameModel>) -> Option<FrameSetError> {
    if poses.len() == 0 {
        Some(FrameSetError::Empty)
    } else if !all_same_size(poses) {
        Some(FrameSetError::SizeMismatch)
    } else {
        None
    }
}

/// The poses of one sprite, each held facing forward and facing backward.
pub struct FrameSet {
    natural: Vec<Frame>,
    mirrored: Vec<Frame>,
}

impl View for FrameSet {
    type V = Seq<FrameModel>;

    /// The poses facing forward, in order.
    closed spec fn view(&self) -> Seq<FrameModel> {
        models_of(self.natural@)
    }
}

impl FrameSet {
    #[verifier::type_invariant]
    spec fn inv(self) -> bool {
        &&& poses_wf(self@)
        &&& models_of(self.mirrored@) == self.mirrored_view()
    }

    /// The poses facing backward: each pose of the view, flipped.
    pub open spec fn mirrored_view(self) -> Seq<FrameModel> {
        self@.map_values(|m: FrameModel| m.mirrored())
    }

    /// The pose shown at `index` when facing forward or backward.
    pub open spec fn pose_model(self, index: int, forward: bool) -> FrameModel {
        if forward {
            self@[index]
        } else {
            self@[index].mirrored()
        }
    }

    /// Takes the poses of a sprite, in order, and prepares their flipped
    /// counterparts. An empty list is refused, and so is one whose frames
    /// are not all of the same size.
    pub fn new(frames: Vec<Frame>) -> (set: Result<FrameSet, FrameSetError>)
        ensures
            match set {
                Ok(s) => frame_set_error(models_of(frames@)) is None && s@ == models_of(frames@)
                    && poses_wf(s@),
                Err(e) => frame_set_error(models_of(frames@)) == Some(e),
            },
    {
        let count: usize = frames.len();
        if count == 0 {
            return Err(FrameSetError::Empty);
        }
        let width: u32 = frames[0].width();
        let height: u32 = frames[0].height();
        let ghost poses = models_of(frames@);
        let mut i: usize = 1;
        while i < count
            invariant
                1 <= i <= count,
                count == frames.len(),
                poses == models_of(frames@),
                width == poses[0].width,
                height == poses[0].height,
                forall|j: int| 0 <= j < i ==> (#[trigger] poses[j]).same_size(poses[0]),
            decreases count - i,
        {
            if frames[i].width() != width || frames[i].height() != height {
                assert(!poses[i as int].same_size(poses[0]));
                return Err(FrameSetError::SizeMismatch);
            }
            i = i + 1;
        }
        let mut mirrored: Vec<Frame> = Vec::new();
        let mut k: usize = 0;
        while k < count
            invariant
                k <= count,
                count == frames.len(),
                poses == models_of(frames@),
                mirrored.len() == k,
                forall|j: int| 0 <= j < k ==> (#[trigger] poses[j]).wf(),
                forall|j: int| 0 <= j < k ==> (#[trigger] mirrored[j])@ == poses[j].mirrored(),
            decreases count - k,
        {
            let frame = &frames[k];
            proof {
                use_type_invariant(frame);
            }
            mirrored.push(frame.flipped());
            k = k + 1;
        }
        assert(models_of(mirrored@) =~= poses.map_values(|m: FrameModel| m.mirrored()));
        Ok(FrameSet { natural: frames, mirrored })
    }

    /// Number of poses.
    pub fn len(&self) -> (count: usize)
        ensures
            count == self@.len(),
            count >= 1,
        no_unwind
    {
        proof {
            use_type_invariant(self);
        }
        self.natural.len()
    }

    /// Width of every pose, in pixels.
    pub fn width(&self) -> (width: u32)
        ensures
            width == self@[0].width,
            poses_wf(self@),
        no_unwind
    {
        proof {
            use_type_invariant(self);
        }
        self.natural[0].width()
    }

    /// Height of every pose, in pixels.
    pub fn height(&self) -> (height: u32)
        ensures
            height == self@[0].height,
            poses_wf(self@),
    {
        proof {
            use_type_invariant(self);
        }
        self.natural[0].height()
    }

    /// Number of bytes of the pixel data of every pose.
    pub fn frame_byte_len(&self) -> (len: usize)
        ensures
            len == self@[0].byte_len(),
            poses_wf(self@),
    {
        proof {
            use_type_invariant(self);
        }
        self.natural[0].byte_len()
    }

    /// The pose at `index`, facing forward or backward; nothing past the
    /// last pose.
    pub fn pose(&self, index: usize, forward: bool) -> (frame: Option<&Frame>)
        ensures
            frame is Some <==> index < self@.len(),
            frame matches Some(f) ==> f@ == self.pose_model(index as int, forward),
    {
        proof {
            use_type_invariant(self);
        }
        assert(self@.len() == self.natural.len());
        assert(models_of(self.mirrored@).len() == self.mirrored.len());
        assert(self.mirrored_view().len() == self@.len());
        if index >= self.natural.len() {
            None
        } else if forward {
            Some(&self.natural[index])
        } else {
            assert(models_of(self.mirrored@)[index as int] == self.mirrored_view()[index as int]);
            Some(&self.mirrored[index])
        }
    }
}

} // verus!
