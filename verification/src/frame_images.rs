//! Pictures made from screenshots: four sampled pixels painted into a template,
//! and screenshots reduced to black and white.

use crate::compute_shaders::{le_bytes, le_u32, push_u32, read_u32};
use crate::server::{lemma_pixel_in_bounds, ScreenshotData};
use vstd::prelude::*;

verus! {

/// A pixel position in a screenshot.
#[derive(Clone, Copy, Debug, PartialEq, Eq, Structural)]
pub struct ImagePoint {
    pub x: u32,
    pub y: u32,
}

/// A rectangle of whole pixels.
#[derive(Clone, Copy, Debug, PartialEq, Eq, Structural)]
pub struct ViewRect {
    pub x: i32,
    pub y: i32,
    pub w: i32,
    pub h: i32,
}

impl ViewRect {
    pub fn new(x: i32, y: i32, w: i32, h: i32) -> (rect: Self)
        ensures
            rect == (ViewRect { x, y, w, h }),
    {
        ViewRect { x, y, w, h }
    }

    /// Whether the rectangle lies inside a screenshot.
    pub fn is_inside(&self, screenshot: &ScreenshotData) -> (inside: bool)
        ensures
            inside == self.inside(screenshot),
    {
        0 <= self.x && 0 <= self.y && 0 <= self.w && 0 <= self.h && self.x as i64 + self.w as i64
            <= screenshot.width as i64 && self.y as i64 + self.h as i64 <= screenshot.height as i64
    }

    /// Whether the rectangle lies inside a screenshot.
    pub open spec fn inside(&self, screenshot: &ScreenshotData) -> bool {
        &&& 0 <= self.x
        &&& 0 <= self.y
        &&& 0 <= self.w
        &&& 0 <= self.h
        &&& self.x + self.w <= screenshot.width
        &&& self.y + self.h <= screenshot.height
    }
}

/// How a sampled colour is turned into the colour that is painted: one of two
/// colours gives `hit`, any other gives `miss`.
#[derive(Clone, Copy, Debug, PartialEq, Eq, Structural)]
pub struct ColorRemap {
    pub source: u32,
    pub other_source: u32,
    pub hit: u32,
    pub miss: u32,
}

impl ColorRemap {
    /// A remap that knows one colour.
    pub fn single(source: u32, hit: u32, miss: u32) -> (remap: Self)
        ensures
            remap == (ColorRemap { source, other_source: source, hit, miss }),
    {
        ColorRemap { source, other_source: source, hit, miss }
    }

    /// A remap that knows two colours.
    pub fn double(source: u32, other_source: u32, hit: u32, miss: u32) -> (remap: Self)
        ensures
            remap == (ColorRemap { source, other_source, hit, miss }),
    {
        ColorRemap { source, other_source, hit, miss }
    }

    /// The colour painted for `color`.
    pub open spec fn spec_apply(self, color: u32) -> u32 {
        if color == self.source || color == self.other_source {
            self.hit
        } else {
            self.miss
        }
    }

    /// The colour painted for `color`.
    pub fn apply(&self, color: u32) -> (painted: u32)
        ensures
            painted == self.spec_apply(color),
    {
        if color == self.source || color == self.other_source {
            self.hit
        } else {
            self.miss
        }
    }
}

/// Four pixels to sample, two in each of two screenshots, and for each the
/// template colour that it replaces and the remap of what was sampled.
#[derive(Clone, Copy, Debug, PartialEq, Eq, Structural)]
pub struct FourPixelConfig {
    pub pixel_match_color_1_1: u32,
    pub pixel_replace_color_1_1: ColorRemap,
    pub pixel_coord_1_1: ImagePoint,
    pub pixel_coord_1_1_size: u32,
    pub pixel_match_color_1_2: u32,
    pub pixel_replace_color_1_2: ColorRemap,
    pub pixel_coord_1_2: ImagePoint,
    pub pixel_coord_1_2_size: u32,
    pub pixel_match_color_2_1: u32,
    pub pixel_replace_color_2_1: ColorRemap,
    pub pixel_coord_2_1: ImagePoint,
    pub pixel_coord_2_1_size: u32,
    pub pixel_match_color_2_2: u32,
    pub pixel_replace_color_2_2: ColorRemap,
    pub pixel_coord_2_2: ImagePoint,
    pub pixel_coord_2_2_size: u32,
}

impl FourPixelConfig {
    /// Whether the squares that are sampled lie inside the two screenshots.
    pub open spec fn fits(&self, first: &ScreenshotData, second: &ScreenshotData) -> bool {
        &&& self.pixel_coord_1_1.x + self.pixel_coord_1_1_size <= first.width
        &&& self.pixel_coord_1_1.y + self.pixel_coord_1_1_size <= first.height
        &&& self.pixel_coord_1_2.x + self.pixel_coord_1_2_size <= first.width
        &&& self.pixel_coord_1_2.y + self.pixel_coord_1_2_size <= first.height
        &&& self.pixel_coord_2_1.x + self.pixel_coord_2_1_size <= second.width
        &&& self.pixel_coord_2_1.y + self.pixel_coord_2_1_size <= second.height
        &&& self.pixel_coord_2_2.x + self.pixel_coord_2_2_size <= second.width
        &&& self.pixel_coord_2_2.y + self.pixel_coord_2_2_size <= second.height
    }

    /// The exec form of `fits`.
    pub fn check_fits(&self, first: &ScreenshotData, second: &ScreenshotData) -> (fits: bool)
        ensures
            fits == self.fits(first, second),
    {
        fits_square(self.pixel_coord_1_1, self.pixel_coord_1_1_size, first) && fits_square(
            self.pixel_coord_1_2,
            self.pixel_coord_1_2_size,
            first,
        ) && fits_square(self.pixel_coord_2_1, self.pixel_coord_2_1_size, second) && fits_square(
            self.pixel_coord_2_2,
            self.pixel_coord_2_2_size,
            second,
        )
    }
}

fn fits_square(point: ImagePoint, size: u32, screenshot: &ScreenshotData) -> (fits: bool)
    ensures
        fits == (point.x + size <= screenshot.width && point.y + size <= screenshot.height),
{
    point.x as u64 + size as u64 <= screenshot.width as u64 && point.y as u64 + size as u64
        <= screenshot.height as u64
}

/// The colour painted for a template colour: where it is one of the four match
/// colours, the first of them in the order 1-1, 1-2, 2-1, 2-2 decides and its
/// painted colour is taken; any other colour stays.
pub open spec fn painted_color(
    color: u32,
    config: &FourPixelConfig,
    c11: u32,
    c12: u32,
    c21: u32,
    c22: u32,
) -> u32 {
    if color == config.pixel_match_color_1_1 {
        c11
    } else if color == config.pixel_match_color_1_2 {
        c12
    } else if color == config.pixel_match_color_2_1 {
        c21
    } else if color == config.pixel_match_color_2_2 {
        c22
    } else {
        color
    }
}

/// Whether `added` is the template `image` with its pixels painted: pixel `i` of
/// `added` is the painted colour of pixel `i` of `image`.
pub open spec fn is_painted(
    added: Seq<u8>,
    image: Seq<u8>,
    config: &FourPixelConfig,
    c11: u32,
    c12: u32,
    c21: u32,
    c22: u32,
) -> bool {
    &&& added.len() == image.len()
    &&& forall|i: int|
        0 <= i < image.len() / 4 ==> #[trigger] le_u32(added, 4 * i) == painted_color(
            le_u32(image, 4 * i),
            config,
            c11,
            c12,
            c21,
            c22,
        )
}

/// Paints the template `image` and appends the picture to `output_image`. The four
/// painted colours are the remapped brightest colours of the four sampled squares.
pub fn make_four_pixel(
    image: &Vec<u8>,
    output_image: &mut Vec<u8>,
    screenshot1_data: &ScreenshotData,
    screenshot2_data: &ScreenshotData,
    config: &FourPixelConfig,
)
    requires
        image@.len() % 4 == 0,
        screenshot1_data.wf(),
        screenshot2_data.wf(),
        config.fits(screenshot1_data, screenshot2_data),
    ensures
        final(output_image)@.len() == old(output_image)@.len() + image@.len(),
        final(output_image)@.subrange(0, old(output_image)@.len() as int) == old(output_image)@,
        exists|b11: u32, b12: u32, b21: u32, b22: u32|
            {
                &&& screenshot1_data.is_brightest(
                    config.pixel_coord_1_1.x,
                    config.pixel_coord_1_1.y,
                    config.pixel_coord_1_1_size,
                    b11,
                )
                &&& screenshot1_data.is_brightest(
                    config.pixel_coord_1_2.x,
                    config.pixel_coord_1_2.y,
                    config.pixel_coord_1_2_size,
                    b12,
                )
                &&& screenshot2_data.is_brightest(
                    config.pixel_coord_2_1.x,
                    config.pixel_coord_2_1.y,
                    config.pixel_coord_2_1_size,
                    b21,
                )
                &&& screenshot2_data.is_brightest(
                    config.pixel_coord_2_2.x,
                    config.pixel_coord_2_2.y,
                    config.pixel_coord_2_2_size,
                    b22,
                )
                &&& #[trigger] is_painted(
                    final(output_image)@.subrange(
                        old(output_image)@.len() as int,
                        final(output_image)@.len() as int,
                    ),
                    image@,
                    config,
                    config.pixel_replace_color_1_1.spec_apply(b11),
                    config.pixel_replace_color_1_2.spec_apply(b12),
                    config.pixel_replace_color_2_1.spec_apply(b21),
                    config.pixel_replace_color_2_2.spec_apply(b22),
                )
            },
{
    let b11 = screenshot1_data.get_brightest_pixel(
        config.pixel_coord_1_1.x,
        config.pixel_coord_1_1.y,
        config.pixel_coord_1_1_size,
    );
    let b12 = screenshot1_data.get_brightest_pixel(
        config.pixel_coord_1_2.x,
        config.pixel_coord_1_2.y,
        config.pixel_coord_1_2_size,
    );
    let b21 = screenshot2_data.get_brightest_pixel(
        config.pixel_coord_2_1.x,
        config.pixel_coord_2_1.y,
        config.pixel_coord_2_1_size,
    );
    let b22 = screenshot2_data.get_brightest_pixel(
        config.pixel_coord_2_2.x,
        config.pixel_coord_2_2.y,
        config.pixel_coord_2_2_size,
    );
    let pixel_color_1_1 = config.pixel_replace_color_1_1.apply(b11);
    let pixel_color_1_2 = config.pixel_replace_color_1_2.apply(b12);
    let pixel_color_2_1 = config.pixel_replace_color_2_1.apply(b21);
    let pixel_color_2_2 = config.pixel_replace_color_2_2.apply(b22);
    paint(image, output_image, config, pixel_color_1_1, pixel_color_1_2, pixel_color_2_1, pixel_color_2_2);
}

/// Appends to `output_image` the template `image` painted with the four colours.
pub fn paint(
    image: &Vec<u8>,
    output_image: &mut Vec<u8>,
    config: &FourPixelConfig,
    c11: u32,
    c12: u32,
    c21: u32,
    c22: u32,
)
    requires
        image@.len() % 4 == 0,
    ensures
        final(output_image)@.len() == old(output_image)@.len() + image@.len(),
        final(output_image)@.subrange(0, old(output_image)@.len() as int) == old(output_image)@,
        is_painted(
            final(output_image)@.subrange(
                old(output_image)@.len() as int,
                final(output_image)@.len() as int,
            ),
            image@,
            config,
            c11,
            c12,
            c21,
            c22,
        ),
{
    let ghost before = output_image@;
    let mut pos: usize = 0;
    assert(image@.len() == image.len());
    while pos < image.len()
        invariant
            image@.len() % 4 == 0,
            pos % 4 == 0,
            pos <= image@.len(),
            output_image@.len() == before.len() + pos,
            output_image@.subrange(0, before.len() as int) == before,
            forall|i: int|
                0 <= i < pos / 4 ==> #[trigger] le_u32(
                    output_image@.subrange(before.len() as int, output_image@.len() as int),
                    4 * i,
                ) == painted_color(le_u32(image@, 4 * i), config, c11, c12, c21, c22),
        decreases image@.len() - pos,
    {
        let mut curr_color = read_u32(image, pos);
        if curr_color == config.pixel_match_color_1_1 {
            curr_color = c11;
        } else if curr_color == config.pixel_match_color_1_2 {
            curr_color = c12;
        } else if curr_color == config.pixel_match_color_2_1 {
            curr_color = c21;
        } else if curr_color == config.pixel_match_color_2_2 {
            curr_color = c22;
        }
        let ghost prev = output_image@;
        push_u32(output_image, curr_color);
        proof {
            let added = output_image@.subrange(before.len() as int, output_image@.len() as int);
            let prev_added = prev.subrange(before.len() as int, prev.len() as int);
            assert(output_image@.subrange(0, before.len() as int) =~= before);
            crate::compute_shaders::lemma_le_round_trip(curr_color);
            assert forall|i: int| 0 <= i < (pos + 4) / 4 implies #[trigger] le_u32(added, 4 * i)
                == painted_color(le_u32(image@, 4 * i), config, c11, c12, c21, c22) by {
                if i < pos / 4 {
                    assert(le_u32(prev_added, 4 * i) == le_u32(added, 4 * i));
                } else {
                    assert(4 * i == pos);
                    assert(added[4 * i] == le_bytes(curr_color)[0]);
                    assert(added[4 * i + 1] == le_bytes(curr_color)[1]);
                    assert(added[4 * i + 2] == le_bytes(curr_color)[2]);
                    assert(added[4 * i + 3] == le_bytes(curr_color)[3]);
                }
            }
        }
        pos += 4;
    }
}

/// What a colour of a dust screenshot becomes: black stays black, as do green
/// and, in an early frame, the darker grey; anything else becomes white.
pub open spec fn dust_color(color: u32, is_early_frame: bool) -> u32 {
    if color == 0xFF22B14C || (is_early_frame && color == 0xFF494949) {
        0xFF000000
    } else if color != 0xFF000000 {
        0xFFFFFFFF
    } else {
        color
    }
}

/// What a colour of a snowball screenshot becomes: white stays, anything else is
/// cleared.
pub open spec fn snowball_color(color: u32) -> u32 {
    if color != 0xFFFFFFFF {
        0
    } else {
        color
    }
}

/// Whether `added` is the part `world_view` of the screenshot, row after row, with
/// every colour passed through `remap`.
pub open spec fn is_cleared_view(
    added: Seq<u8>,
    screenshot: &ScreenshotData,
    world_view: ViewRect,
    remap: spec_fn(u32) -> u32,
) -> bool {
    &&& added.len() == world_view.w * world_view.h * 4
    &&& forall|col: int, row: int|
        0 <= col < world_view.w && 0 <= row < world_view.h ==> le_u32(
            added,
            4 * (row * world_view.w + col),
        ) == remap(#[trigger] screenshot.pixel(world_view.x + col, world_view.y + row))
}

/// Which of the reductions to apply.
#[derive(Clone, Copy, Debug, PartialEq, Eq, Structural)]
pub enum ClearMode {
    Dust,
    DustEarly,
    Snowballs,
}

impl ClearMode {
    /// What a colour becomes under the mode.
    pub open spec fn remap(self, color: u32) -> u32 {
        match self {
            ClearMode::Dust => dust_color(color, false),
            ClearMode::DustEarly => dust_color(color, true),
            ClearMode::Snowballs => snowball_color(color),
        }
    }

    fn apply(&self, color: u32) -> (cleared: u32)
        ensures
            cleared == self.remap(color),
    {
        match self {
            ClearMode::Dust => {
                if color == 0xFF22B14C {
                    0xFF000000
                } else if color != 0xFF000000 {
                    0xFFFFFFFF
                } else {
                    color
                }
            },
            ClearMode::DustEarly => {
                if color == 0xFF494949 || color == 0xFF22B14C {
                    0xFF000000
                } else if color != 0xFF000000 {
                    0xFFFFFFFF
                } else {
                    color
                }
            },
            ClearMode::Snowballs => {
                if color != 0xFFFFFFFF {
                    0
                } else {
                    color
                }
            },
        }
    }
}

/// Appends to `output_image` the part `world_view` of the screenshot, reduced by
/// `mode`.
pub fn clear_unwanted_pixels(
    output_image: &mut Vec<u8>,
    screenshot_data: &ScreenshotData,
    world_view: ViewRect,
    mode: ClearMode,
)
    requires
        screenshot_data.wf(),
        world_view.inside(screenshot_data),
    ensures
        final(output_image)@.len() == old(output_image)@.len() + world_view.w * world_view.h * 4,
        final(output_image)@.subrange(0, old(output_image)@.len() as int) == old(output_image)@,
        is_cleared_view(
            final(output_image)@.subrange(
                old(output_image)@.len() as int,
                final(output_image)@.len() as int,
            ),
            screenshot_data,
            world_view,
            |color: u32| mode.remap(color),
        ),
{
    let ghost before = output_image@;
    let ghost remap = |color: u32| mode.remap(color);
    let mut row: i32 = 0;
    assert(0 * world_view.w == 0) by (nonlinear_arith);
    while row < world_view.h
        invariant
            screenshot_data.wf(),
            world_view.inside(screenshot_data),
            0 <= row <= world_view.h,
            output_image@.len() == before.len() + row * world_view.w * 4,
            output_image@.subrange(0, before.len() as int) == before,
            forall|c: int, r: int|
                0 <= c < world_view.w && 0 <= r < row ==> le_u32(
                    output_image@.subrange(before.len() as int, output_image@.len() as int),
                    4 * (r * world_view.w + c),
                ) == mode.remap(
                    #[trigger] screenshot_data.pixel(world_view.x + c, world_view.y + r),
                ),
        decreases world_view.h - row,
    {
        let mut col: i32 = 0;
        while col < world_view.w
            invariant
                screenshot_data.wf(),
                world_view.inside(screenshot_data),
                0 <= row < world_view.h,
                0 <= col <= world_view.w,
                output_image@.len() == before.len() + (row * world_view.w + col) * 4,
                output_image@.subrange(0, before.len() as int) == before,
                forall|c: int, r: int|
                    0 <= c < world_view.w && 0 <= r < row ==> le_u32(
                        output_image@.subrange(before.len() as int, output_image@.len() as int),
                        4 * (r * world_view.w + c),
                    ) == mode.remap(
                        #[trigger] screenshot_data.pixel(world_view.x + c, world_view.y + r),
                    ),
                forall|c: int|
                    0 <= c < col ==> le_u32(
                        output_image@.subrange(before.len() as int, output_image@.len() as int),
                        4 * (row * world_view.w + c),
                    ) == mode.remap(
                        #[trigger] screenshot_data.pixel(world_view.x + c, world_view.y + row),
                    ),
            decreases world_view.w - col,
        {
            let px = (world_view.x as i64 + col as i64) as u32;
            let py = (world_view.y as i64 + row as i64) as u32;
            proof {
                lemma_pixel_in_bounds(
                    screenshot_data.width,
                    screenshot_data.height,
                    screenshot_data.stride,
                    px,
                    py,
                );
            }
            let pos = ((py * screenshot_data.stride) + (px * 4)) as usize;
            let color = read_u32(&screenshot_data.data, pos);
            let cleared = mode.apply(color);
            let ghost prev = output_image@;
            push_u32(output_image, cleared);
            proof {
                let added = output_image@.subrange(before.len() as int, output_image@.len() as int);
                let prev_added = prev.subrange(before.len() as int, prev.len() as int);
                assert(output_image@.subrange(0, before.len() as int) =~= before);
                crate::compute_shaders::lemma_le_round_trip(cleared);
                let here = 4 * (row * world_view.w + col);
                assert(added[here] == le_bytes(cleared)[0]);
                assert(added[here + 1] == le_bytes(cleared)[1]);
                assert(added[here + 2] == le_bytes(cleared)[2]);
                assert(added[here + 3] == le_bytes(cleared)[3]);
                assert forall|c: int, r: int| 0 <= c < world_view.w && 0 <= r < row implies le_u32(
                    added,
                    4 * (r * world_view.w + c),
                ) == mode.remap(
                    #[trigger] screenshot_data.pixel(world_view.x + c, world_view.y + r),
                ) by {
                    lemma_cell_before(r, c, row as int, world_view.w as int);
                    assert(le_u32(prev_added, 4 * (r * world_view.w + c)) == le_u32(
                        added,
                        4 * (r * world_view.w + c),
                    ));
                }
                assert forall|c: int| 0 <= c < col + 1 implies le_u32(
                    added,
                    4 * (row * world_view.w + c),
                ) == mode.remap(
                    #[trigger] screenshot_data.pixel(world_view.x + c, world_view.y + row),
                ) by {
                    if c < col {
                        assert(le_u32(prev_added, 4 * (row * world_view.w + c)) == le_u32(
                            added,
                            4 * (row * world_view.w + c),
                        ));
                    }
                }
            }
            col += 1;
        }
        assert((row + 1) * world_view.w == row * world_view.w + world_view.w) by (nonlinear_arith);
        row += 1;
    }
    assert(output_image@.len() == before.len() + world_view.w * world_view.h * 4) by (nonlinear_arith)
        requires
            output_image@.len() == before.len() + row * world_view.w * 4,
            row == world_view.h,
    ;
}

/// A cell of an earlier row lies before the first cell of a later row.
proof fn lemma_cell_before(r: int, c: int, row: int, w: int)
    requires
        0 <= r < row,
        0 <= c < w,
    ensures
        0 <= r * w + c,
        r * w + c + 1 <= row * w,
{
    assert(r * w + w <= row * w) by (nonlinear_arith)
        requires
            r < row,
            0 <= w,
    ;
    assert(0 <= r * w) by (nonlinear_arith)
        requires
            0 <= r,
            0 <= w,
    ;
}

/// Appends to `output_image` the part `world_view` of a dust screenshot: green
/// and, in an early frame, the darker grey become black; what is not black
/// becomes white.
pub fn clear_unwanted_pixels_dust(
    output_image: &mut Vec<u8>,
    screenshot_data: &ScreenshotData,
    world_view: ViewRect,
    is_early_frame: bool,
)
    requires
        screenshot_data.wf(),
        world_view.inside(screenshot_data),
    ensures
        final(output_image)@.len() == old(output_image)@.len() + world_view.w * world_view.h * 4,
        final(output_image)@.subrange(0, old(output_image)@.len() as int) == old(output_image)@,
        is_cleared_view(
            final(output_image)@.subrange(
                old(output_image)@.len() as int,
                final(output_image)@.len() as int,
            ),
            screenshot_data,
            world_view,
            |color: u32| dust_color(color, is_early_frame),
        ),
{
    if is_early_frame {
        clear_unwanted_pixels(output_image, screenshot_data, world_view, ClearMode::DustEarly);
    } else {
        clear_unwanted_pixels(output_image, screenshot_data, world_view, ClearMode::Dust);
    }
}

/// Appends to `output_image` the part `world_view` of a snowball screenshot: what
/// is not white is cleared.
pub fn clear_unwanted_pixels_snowballs(
    output_image: &mut Vec<u8>,
    screenshot_data: &ScreenshotData,
    world_view: ViewRect,
)
    requires
        screenshot_data.wf(),
        world_view.inside(screenshot_data),
    ensures
        final(output_image)@.len() == old(output_image)@.len() + world_view.w * world_view.h * 4,
        final(output_image)@.subrange(0, old(output_image)@.len() as int) == old(output_image)@,
        is_cleared_view(
            final(output_image)@.subrange(
                old(output_image)@.len() as int,
                final(output_image)@.len() as int,
            ),
            screenshot_data,
            world_view,
            |color: u32| snowball_color(color),
        ),
{
    clear_unwanted_pixels(output_image, screenshot_data, world_view, ClearMode::Snowballs);
}

} // verus!
