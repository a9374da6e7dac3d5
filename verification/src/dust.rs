//! The dust of a defeated monster: the compact text that encodes its sprite, the
//! frames of particles read from it, and the generator draws that the animation
//! costs.

use crate::compute_dust_search::DustSearchMode;
use crate::frame_images::{FourPixelConfig, ViewRect};
use crate::rng::PrecomputedRNG;
use vstd::prelude::*;
use vstd::string::StringSliceAdditionalSpecFns;

verus! {

/// The character that ends a row.
pub const DUST_END_LINE: u8 = 125;

/// The character that ends the data.
pub const DUST_END: u8 = 126;

/// The number of ticks for which a frame of particles is animated.
pub const DUST_FRAME_TICKS: u32 = 12;

/// One particle: where it appears, how wide it is, and the two draws that set its
/// motion, once they are made.
#[derive(Clone, Copy, Debug, PartialEq, Eq, Structural)]
pub struct DustParticle {
    pub x: i64,
    pub y: i64,
    pub xscale: u32,
    pub gravity_draw: u32,
    pub hspeed_draw: u32,
}

impl DustParticle {
    pub fn get_x(&self) -> (x: i64)
        ensures
            x == self.x,
    {
        self.x
    }

    pub fn get_y(&self) -> (y: i64)
        ensures
            y == self.y,
    {
        self.y
    }
}

/// The encoded sprite of a monster and where it stands.
pub struct DustData {
    pub data: &'static str,
    pub wide: bool,
    pub search_mode: DustSearchMode,
    pub x: i32,
    pub y: i32,
}

/// All that a dust search needs to know of an encounter.
pub struct DustSearchConfig {
    pub dust_data: DustData,
    pub text_length: usize,
    pub text_length_lvup: usize,
    pub view_rect: ViewRect,
    pub four_pixel_config: FourPixelConfig,
}

/// Where the reading of an encoding stands.
pub struct ParseState {
    /// The frames that are complete.
    pub frames: Seq<Seq<DustParticle>>,
    /// The particles of the frame that is being read.
    pub frame: Seq<DustParticle>,
    /// The row of the frame that is being read, from 0 to 3.
    pub row: int,
    /// The column in the row.
    pub curr_x: int,
    /// The height of the row.
    pub curr_y: int,
    /// Whether the end of the data was read.
    pub done: bool,
}

/// Whether `c` skips columns.
pub open spec fn is_skip(c: u8) -> bool {
    86 <= c <= 121
}

/// Whether `c` emits particles.
pub open spec fn is_particle(c: u8) -> bool {
    40 <= c <= 82
}

/// The particles that `c` emits at column `curr_x` of the row at `curr_y`: in wide
/// mode one particle as wide as all of them; otherwise `c - 40` particles of width
/// two, one after the other, two pixels lower.
pub open spec fn emitted(c: u8, wide: bool, x: int, y: int, curr_x: int, curr_y: int) -> Seq<
    DustParticle,
> {
    if wide {
        seq![
            DustParticle {
                x: (x + curr_x) as i64,
                y: (y + curr_y) as i64,
                xscale: ((c - 40) * 2) as u32,
                gravity_draw: 0,
                hspeed_draw: 0,
            },
        ]
    } else {
        Seq::new(
            (c - 40) as nat,
            |k: int|
                DustParticle {
                    x: (x + curr_x + 2 * k) as i64,
                    y: (y + curr_y + 2) as i64,
                    xscale: 2,
                    gravity_draw: 0,
                    hspeed_draw: 0,
                },
        )
    }
}

/// `frames` with `frame` added, unless it is empty.
pub open spec fn with_frame(frames: Seq<Seq<DustParticle>>, frame: Seq<DustParticle>) -> Seq<
    Seq<DustParticle>,
> {
    if frame.len() > 0 {
        frames.push(frame)
    } else {
        frames
    }
}

impl ParseState {
    /// The state before anything is read.
    pub open spec fn start() -> ParseState {
        ParseState {
            frames: Seq::empty(),
            frame: Seq::empty(),
            row: 0,
            curr_x: 0,
            curr_y: 0,
            done: false,
        }
    }

    /// The state after `c` is read. A skip moves the column by twice its count, a
    /// particle character emits its particles and moves the column past them. The
    /// end of a row starts the next one, two pixels lower; every fourth row ends a
    /// frame. The end of the data ends the frame and the reading. Empty frames are
    /// dropped, and what follows the end is not read.
    pub open spec fn feed(self, c: u8, wide: bool, x: int, y: int) -> ParseState {
        if self.done {
            self
        } else if is_skip(c) {
            ParseState { curr_x: self.curr_x + (c - 85) * 2, ..self }
        } else if is_particle(c) {
            ParseState {
                frame: self.frame + emitted(c, wide, x, y, self.curr_x, self.curr_y),
                curr_x: self.curr_x + (c - 40) * 2,
                ..self
            }
        } else if c == DUST_END_LINE {
            if self.row == 3 {
                ParseState {
                    frames: with_frame(self.frames, self.frame),
                    frame: Seq::empty(),
                    row: 0,
                    curr_x: 0,
                    curr_y: self.curr_y + 2,
                    done: false,
                }
            } else {
                ParseState { row: self.row + 1, curr_x: 0, curr_y: self.curr_y + 2, ..self }
            }
        } else if c == DUST_END {
            ParseState {
                frames: with_frame(self.frames, self.frame),
                frame: Seq::empty(),
                done: true,
                ..self
            }
        } else {
            self
        }
    }
}

/// The state after the first `n` bytes of `bytes` are read.
pub open spec fn parse_prefix(bytes: Seq<u8>, n: nat, wide: bool, x: int, y: int) -> ParseState
    decreases n,
{
    if n == 0 {
        ParseState::start()
    } else {
        parse_prefix(bytes, (n - 1) as nat, wide, x, y).feed(bytes[n - 1], wide, x, y)
    }
}

/// Whether the data ends at `end`: the first end character stands there.
pub open spec fn is_end(bytes: Seq<u8>, end: int) -> bool {
    &&& 0 <= end < bytes.len()
    &&& bytes[end] == DUST_END
    &&& forall|i: int| 0 <= i < end ==> bytes[i] != DUST_END
}

/// Whether the column and the height that are reached after the first `n` bytes
/// can be counted: the column in 32 bits, the height in 31. Neither depends on how
/// the sprite is drawn or where it stands, so they are read off a narrow sprite at
/// the origin.
pub open spec fn position_fits(bytes: Seq<u8>, n: nat) -> bool {
    let reached = parse_prefix(bytes, n, false, 0, 0);
    reached.curr_x <= u32::MAX && reached.curr_y <= i32::MAX
}

/// Whether `bytes` can be read up to `end`: the data ends there, no apostrophe,
/// which would stand for less than no particle, comes before, and the column and
/// the height can be counted all the way.
pub open spec fn readable_to(bytes: Seq<u8>, end: int) -> bool {
    &&& is_end(bytes, end)
    &&& forall|i: int| 0 <= i < end ==> bytes[i] != 39
    &&& forall|n: nat| n <= end + 1 ==> #[trigger] position_fits(bytes, n)
}

/// Whether `bytes` can be read.
pub open spec fn valid_encoding(bytes: Seq<u8>) -> bool {
    exists|end: int| readable_to(bytes, end)
}

/// Where the data ends.
pub open spec fn end_of(bytes: Seq<u8>) -> int {
    choose|end: int| is_end(bytes, end)
}

/// The frames that `bytes` encodes.
pub open spec fn parsed_frames(bytes: Seq<u8>, wide: bool, x: int, y: int) -> Seq<
    Seq<DustParticle>,
> {
    parse_prefix(bytes, (end_of(bytes) + 1) as nat, wide, x, y).frames
}

/// The draws made before frame `n` starts: two for every particle of the frames
/// before it, and for the victory text, which is written meanwhile, two more with
/// every frame that has passed.
pub open spec fn rng_calls(frames: Seq<Seq<DustParticle>>, n: nat) -> nat
    decreases n,
{
    if n == 0 {
        0
    } else {
        rng_calls(frames, (n - 1) as nat) + 2 * frames[n - 1].len() + 2 * (n - 1) as nat
    }
}

/// The frames of `v` as sequences.
pub open spec fn frames_view(v: Seq<Vec<DustParticle>>) -> Seq<Seq<DustParticle>> {
    v.map_values(|f: Vec<DustParticle>| f@)
}

/// Adding a frame to the vectors adds its particles to the frames.
pub proof fn lemma_frames_view_push(earlier: Seq<Vec<DustParticle>>, frame: Vec<DustParticle>)
    ensures
        frames_view(earlier.push(frame)) == frames_view(earlier).push(frame@),
{
    assert(frames_view(earlier.push(frame)) =~= frames_view(earlier).push(frame@)) by {
        assert(frames_view(earlier.push(frame)).len() == earlier.len() + 1);
        assert forall|f: int| 0 <= f < earlier.len() + 1 implies frames_view(
            earlier.push(frame),
        )[f] == frames_view(earlier).push(frame@)[f] by {
            if f < earlier.len() {
                assert(earlier.push(frame)[f] == earlier[f]);
                assert(frames_view(earlier)[f] == earlier[f]@);
            }
        }
    }
}

/// The draws before a frame grow with the frame.
pub proof fn lemma_rng_calls_monotonic(frames: Seq<Seq<DustParticle>>, m: nat, n: nat)
    requires
        m <= n,
    ensures
        rng_calls(frames, m) <= rng_calls(frames, n),
    decreases n,
{
    if m < n {
        lemma_rng_calls_monotonic(frames, m, (n - 1) as nat);
    }
}

/// Where no frame is empty, the draws before frame `n` are at least two for each
/// frame before it.
pub proof fn lemma_rng_calls_lower(frames: Seq<Seq<DustParticle>>, n: nat)
    requires
        n <= frames.len(),
        forall|f: int| 0 <= f < frames.len() ==> (#[trigger] frames[f]).len() > 0,
    ensures
        2 * n <= rng_calls(frames, n),
    decreases n,
{
    if n > 0 {
        lemma_rng_calls_lower(frames, (n - 1) as nat);
        assert(frames[n - 1].len() > 0);
    }
}

/// The column, the height, the row and the end of the reading do not depend on how
/// the sprite is drawn or where it stands.
pub proof fn lemma_position_independent(bytes: Seq<u8>, n: nat, wide: bool, x: int, y: int)
    ensures
        parse_prefix(bytes, n, wide, x, y).curr_x == parse_prefix(bytes, n, false, 0, 0).curr_x,
        parse_prefix(bytes, n, wide, x, y).curr_y == parse_prefix(bytes, n, false, 0, 0).curr_y,
        parse_prefix(bytes, n, wide, x, y).row == parse_prefix(bytes, n, false, 0, 0).row,
        parse_prefix(bytes, n, wide, x, y).done == parse_prefix(bytes, n, false, 0, 0).done,
    decreases n,
{
    if n > 0 {
        lemma_position_independent(bytes, (n - 1) as nat, wide, x, y);
    }
}

/// Until the end of the data is read, the reading is not done; with it, it is.
pub proof fn lemma_done_at_end(bytes: Seq<u8>, n: nat, wide: bool, x: int, y: int)
    requires
        n <= bytes.len(),
        forall|i: int| 0 <= i < n ==> bytes[i] != DUST_END,
    ensures
        !parse_prefix(bytes, n, wide, x, y).done,
        n < bytes.len() && bytes[n as int] == DUST_END ==> parse_prefix(
            bytes,
            n + 1,
            wide,
            x,
            y,
        ).done,
    decreases n,
{
    if n > 0 {
        lemma_done_at_end(bytes, (n - 1) as nat, wide, x, y);
    }
    if n < bytes.len() && bytes[n as int] == DUST_END {
        assert(parse_prefix(bytes, n + 1, wide, x, y) == parse_prefix(bytes, n, wide, x, y).feed(
            bytes[n as int],
            wide,
            x,
            y,
        ));
    }
}

impl DustData {
    /// The sprite `data` at the origin.
    pub fn new(data: &'static str, wide: bool, search_mode: DustSearchMode) -> (dust: Self)
        ensures
            dust.data@ == data@,
            dust.wide == wide,
            dust.search_mode == search_mode,
            dust.x == 0,
            dust.y == 0,
    {
        DustData { data, wide, search_mode, x: 0, y: 0 }
    }

    /// The search configuration of this sprite standing at `x`, `y`.
    pub fn to_search_config(
        &self,
        x: i32,
        y: i32,
        text_length: usize,
        text_length_lvup: usize,
        view_rect: ViewRect,
        four_pixel_config: FourPixelConfig,
    ) -> (config: DustSearchConfig)
        ensures
            config.dust_data.data@ == self.data@,
            config.dust_data.wide == self.wide,
            config.dust_data.search_mode == self.search_mode,
            config.dust_data.x == x,
            config.dust_data.y == y,
            config.text_length == text_length,
            config.text_length_lvup == text_length_lvup,
            config.view_rect == view_rect,
            config.four_pixel_config == four_pixel_config,
    {
        DustSearchConfig {
            dust_data: DustData {
                data: self.data,
                wide: self.wide,
                search_mode: self.search_mode,
                x,
                y,
            },
            text_length,
            text_length_lvup,
            view_rect,
            four_pixel_config,
        }
    }

    /// The bytes of the encoding.
    pub open spec fn bytes(&self) -> Seq<u8> {
        self.data.spec_bytes()
    }

    /// Whether the encoding can be read.
    pub fn is_valid(&self) -> (valid: bool)
        ensures
            valid == valid_encoding(self.bytes()),
    {
        let bytes = self.data.as_bytes();
        let mut curr_x: u32 = 0;
        let mut curr_y: u32 = 0;
        let mut i: usize = 0;
        while i < bytes.len()
            invariant
                bytes@ == self.bytes(),
                i <= bytes@.len(),
                forall|k: int| 0 <= k < i ==> bytes@[k] != DUST_END && bytes@[k] != 39,
                forall|n: nat| n <= i ==> #[trigger] position_fits(bytes@, n),
                curr_x == parse_prefix(bytes@, i as nat, false, 0, 0).curr_x,
                curr_y == parse_prefix(bytes@, i as nat, false, 0, 0).curr_y,
                curr_y <= i32::MAX,
            decreases bytes@.len() - i,
        {
            let c = bytes[i];
            let ghost before = parse_prefix(bytes@, i as nat, false, 0, 0);
            proof {
                lemma_done_at_end(bytes@, i as nat, false, 0, 0);
                assert(parse_prefix(bytes@, (i + 1) as nat, false, 0, 0) == before.feed(
                    c,
                    false,
                    0,
                    0,
                ));
            }
            if c == DUST_END {
                assert(readable_to(bytes@, i as int)) by {
                    assert forall|n: nat| n <= i + 1 implies #[trigger] position_fits(
                        bytes@,
                        n,
                    ) by {
                        if n == i + 1 {
                            assert(position_fits(bytes@, i as nat));
                        }
                    }
                }
                return true;
            }
            let fits = if c == 39 {
                false
            } else if c >= 86 && c <= 121 {
                match curr_x.checked_add(((c - 85) as u32) * 2) {
                    Some(next) => {
                        curr_x = next;
                        true
                    },
                    None => false,
                }
            } else if c >= 40 && c <= 82 {
                match curr_x.checked_add(((c - 40) as u32) * 2) {
                    Some(next) => {
                        curr_x = next;
                        true
                    },
                    None => false,
                }
            } else if c == DUST_END_LINE {
                if curr_y > 0x7fff_fffd {
                    false
                } else {
                    curr_x = 0;
                    curr_y += 2;
                    true
                }
            } else {
                true
            };
            if !fits {
                assert forall|end: int| !readable_to(bytes@, end) by {
                    if is_end(bytes@, end) {
                        assert(end > i);
                        if c != 39 {
                            assert(!position_fits(bytes@, (i + 1) as nat));
                        }
                    }
                }
                return false;
            }
            assert(position_fits(bytes@, (i + 1) as nat));
            i += 1;
        }
        assert forall|end: int| !readable_to(bytes@, end) by {}
        false
    }

    /// Reads the encoding into the frames of an animation that has not started.
    pub fn create_animation(&self) -> (anim: DustAnimation)
        requires
            valid_encoding(self.bytes()),
        ensures
            anim.wf(),
            anim.frames() == parsed_frames(self.bytes(), self.wide, self.x as int, self.y as int),
            anim.rng_offsets().len() == 0,
            anim.frame_index() == 0,
            anim.start_process_index() == 0,
    {
        let bytes = self.data.as_bytes();
        let len = bytes.len();
        let ghost wide = self.wide;
        let ghost ox = self.x as int;
        let ghost oy = self.y as int;
        let ghost end = choose|end: int| readable_to(bytes@, end);
        let mut frames: Vec<Vec<DustParticle>> = Vec::with_capacity(32);
        let mut frame: Vec<DustParticle> = Vec::with_capacity(4);
        let mut row: u32 = 0;
        let mut curr_x: u32 = 0;
        let mut curr_y: u32 = 0;
        let mut done = false;
        let mut i: usize = 0;
        assert(frames_view(frames@) =~= Seq::<Seq<DustParticle>>::empty());
        while !done
            invariant
                bytes@ == self.bytes(),
                len == bytes@.len(),
                wide == self.wide,
                ox == self.x,
                oy == self.y,
                readable_to(bytes@, end),
                !done ==> i <= end,
                done ==> i == end + 1,
                (ParseState {
                    frames: frames_view(frames@),
                    frame: frame@,
                    row: row as int,
                    curr_x: curr_x as int,
                    curr_y: curr_y as int,
                    done,
                }) == parse_prefix(bytes@, i as nat, wide, ox, oy),
                row <= 3,
                curr_y <= i32::MAX,
                forall|f: int|
                    0 <= f < frames@.len() ==> (#[trigger] frames_view(frames@)[f]).len() > 0,
            decreases len - i + (if done { 0int } else { 1int }),
        {
            let c = bytes[i];
            let ghost before = parse_prefix(bytes@, i as nat, wide, ox, oy);
            let ghost after = before.feed(c, wide, ox, oy);
            proof {
                assert(parse_prefix(bytes@, (i + 1) as nat, wide, ox, oy) == after);
                lemma_position_independent(bytes@, (i + 1) as nat, wide, ox, oy);
                assert(position_fits(bytes@, (i + 1) as nat));
            }
            if c >= 86 && c <= 121 {
                curr_x += ((c - 85) as u32) * 2;
            } else if c >= 40 && c <= 82 {
                if self.wide {
                    frame.push(
                        DustParticle {
                            x: self.x as i64 + curr_x as i64,
                            y: self.y as i64 + curr_y as i64,
                            xscale: ((c - 40) as u32) * 2,
                            gravity_draw: 0,
                            hspeed_draw: 0,
                        },
                    );
                    assert(frame@ =~= before.frame + emitted(
                        c,
                        wide,
                        ox,
                        oy,
                        before.curr_x,
                        before.curr_y,
                    ));
                    curr_x += ((c - 40) as u32) * 2;
                } else {
                    let ghost row_frame = frame@;
                    let ghost start_x = curr_x;
                    let ghost all = emitted(c, wide, ox, oy, before.curr_x, before.curr_y);
                    let count = c - 40;
                    for k in 0..count
                        invariant
                            count == c - 40,
                            count <= 42,
                            !wide,
                            ox == self.x,
                            oy == self.y,
                            start_x + 2 * count <= u32::MAX,
                            curr_y <= i32::MAX,
                            curr_x == start_x + 2 * k,
                            all == emitted(c, wide, ox, oy, start_x as int, curr_y as int),
                            frame@ == row_frame + all.subrange(0, k as int),
                    {
                        frame.push(
                            DustParticle {
                                x: self.x as i64 + curr_x as i64,
                                y: self.y as i64 + curr_y as i64 + 2,
                                xscale: 2,
                                gravity_draw: 0,
                                hspeed_draw: 0,
                            },
                        );
                        assert(frame@ =~= row_frame + all.subrange(0, k + 1));
                        curr_x += 2;
                    }
                    assert(all.subrange(0, count as int) =~= all);
                }
            } else if c == DUST_END_LINE {
                if row == 3 {
                    if frame.len() > 0 {
                        proof {
                            lemma_frames_view_push(frames@, frame);
                        }
                        frames.push(frame);
                    }
                    frame = Vec::with_capacity(4);
                    row = 0;
                } else {
                    row += 1;
                }
                curr_x = 0;
                curr_y += 2;
            } else if c == DUST_END {
                if frame.len() > 0 {
                    proof {
                        lemma_frames_view_push(frames@, frame);
                    }
                    frames.push(frame);
                    frame = Vec::new();
                }
                assert(frame@ =~= Seq::<DustParticle>::empty());
                done = true;
            }
            i += 1;
        }
        proof {
            assert(end_of(bytes@) == end) by {
                let chosen = end_of(bytes@);
                assert(is_end(bytes@, chosen));
                if chosen < end {
                    assert(bytes@[chosen] != DUST_END);
                }
                if end < chosen {
                    assert(bytes@[end] != DUST_END);
                }
            }
        }
        DustAnimation {
            particle_frames: frames,
            particle_frame_rng_offsets: Vec::with_capacity(32),
            frame_index: 0,
            start_process_index: 0,
        }
    }
}

/// The frames of a sprite's dust and how far their animation has come.
pub struct DustAnimation {
    particle_frames: Vec<Vec<DustParticle>>,
    particle_frame_rng_offsets: Vec<usize>,
    frame_index: u32,
    start_process_index: usize,
}

/// `frames` with the draws of a precomputed sequence given to the particles: from
/// `position` on, every particle takes two values, the first for its gravity and
/// the second for its horizontal speed, at the place where its frame starts and
/// behind the particles before it.
pub open spec fn animated(frames: Seq<Seq<DustParticle>>, values: Seq<u32>, position: int) -> Seq<
    Seq<DustParticle>,
> {
    Seq::new(
        frames.len(),
        |f: int|
            Seq::new(
                frames[f].len(),
                |k: int|
                    DustParticle {
                        gravity_draw: values[position + rng_calls(frames, f as nat) + 2 * k],
                        hspeed_draw: values[position + rng_calls(frames, f as nat) + 2 * k + 1],
                        ..frames[f][k]
                    },
            ),
    )
}

/// The offsets of the first `n` frames.
pub open spec fn frame_offsets(frames: Seq<Seq<DustParticle>>, n: nat) -> Seq<usize> {
    Seq::new(n, |f: int| rng_calls(frames, f as nat) as usize)
}

/// The number of values that giving the particles their draws reads: up to the
/// second value of the last particle.
pub open spec fn values_read(frames: Seq<Seq<DustParticle>>) -> nat {
    if frames.len() == 0 {
        0
    } else {
        rng_calls(frames, (frames.len() - 1) as nat) + 2 * frames.last().len()
    }
}

/// The draws that the victory text costs once the dust is gone: from step `i` to
/// step `remaining`, each step as many as `skip` says, and two more with every
/// step but the last two.
pub open spec fn text_rng_calls(skip: nat, i: nat, remaining: nat) -> nat
    decreases remaining - i,
{
    if i >= remaining {
        0
    } else {
        skip + text_rng_calls(
            if i + 1 < remaining - 1 {
                skip + 2
            } else {
                skip
            },
            i + 1,
            remaining,
        )
    }
}

/// The draws made from the start of the animation until the victory text of
/// `text_length` steps is written out: those of the animation, and those of the
/// steps of the text that remain.
pub open spec fn after_battle_rng_calls(frames: Seq<Seq<DustParticle>>, text_length: nat) -> nat {
    rng_calls(frames, frames.len()) + text_rng_calls(
        2 * frames.len(),
        0,
        (text_length - frames.len()) as nat,
    )
}

impl Clone for DustAnimation {
    fn clone(&self) -> (copy: Self)
        ensures
            copy.frames() == self.frames(),
            copy.rng_offsets() == self.rng_offsets(),
            copy.frame_index() == self.frame_index(),
            copy.start_process_index() == self.start_process_index(),
    {
        proof {
            use_type_invariant(self);
        }
        DustAnimation {
            particle_frames: self.copy_frames(),
            particle_frame_rng_offsets: self.copy_rng_offsets(),
            frame_index: self.frame_index,
            start_process_index: self.start_process_index,
        }
    }
}

impl DustAnimation {
    /// The frames of particles.
    pub closed spec fn frames(&self) -> Seq<Seq<DustParticle>> {
        frames_view(self.particle_frames@)
    }

    /// The offsets that were computed: for each frame, the draws made before it.
    pub closed spec fn rng_offsets(&self) -> Seq<usize> {
        self.particle_frame_rng_offsets@
    }

    /// The number of ticks that the animation has run.
    pub closed spec fn frame_index(&self) -> u32 {
        self.frame_index
    }

    /// The first frame that is animated.
    pub closed spec fn start_process_index(&self) -> usize {
        self.start_process_index
    }

    /// No frame is empty.
    pub open spec fn wf(&self) -> bool {
        forall|f: int| 0 <= f < self.frames().len() ==> (#[trigger] self.frames()[f]).len() > 0
    }

    /// Whether the draws of the whole animation can be counted in a `usize`.
    pub open spec fn counts_fit(&self) -> bool {
        rng_calls(self.frames(), self.frames().len()) <= usize::MAX
    }

    #[verifier::type_invariant]
    pub open spec fn inv(&self) -> bool {
        self.wf()
    }

    /// Whether frame `index` moves in the tick that comes: it is not before the
    /// first frame that is animated, it has started, and it has not run its twelve
    /// ticks.
    pub open spec fn spec_is_frame_active(&self, index: int) -> bool {
        &&& self.start_process_index() <= index
        &&& index <= self.frame_index()
        &&& self.frame_index() - index < 12
    }

    /// Whether frame `index` moves in the tick that comes.
    pub fn is_frame_active(&self, index: usize) -> (active: bool)
        ensures
            active == self.spec_is_frame_active(index as int),
    {
        index >= self.start_process_index && index as u64 <= self.frame_index as u64
            && self.frame_index as u64 - (index as u64) < 12
    }

    /// Counts one tick.
    pub fn update(&mut self)
        requires
            old(self).frame_index() < u32::MAX,
        ensures
            final(self).frame_index() == old(self).frame_index() + 1,
            final(self).frames() == old(self).frames(),
            final(self).rng_offsets() == old(self).rng_offsets(),
            final(self).start_process_index() == old(self).start_process_index(),
    {
        proof {
            use_type_invariant(&*self);
        }
        let ghost frames = self.frames();
        self.frame_index += 1;
        assert(self.frames() == frames);
    }

    pub fn set_start_process_frame(&mut self, start_process_frame_index: usize)
        ensures
            final(self).start_process_index() == start_process_frame_index,
            final(self).frame_index() == old(self).frame_index(),
            final(self).frames() == old(self).frames(),
            final(self).rng_offsets() == old(self).rng_offsets(),
    {
        proof {
            use_type_invariant(&*self);
        }
        let ghost frames = self.frames();
        self.start_process_index = start_process_frame_index;
        assert(self.frames() == frames);
    }

    /// Whether the last frame has run its twelve ticks.
    pub fn is_finished(&self) -> (finished: bool)
        requires
            self.frames().len() > 0,
        ensures
            finished == (self.frame_index() - (self.frames().len() - 1) >= 12),
    {
        (self.frame_index as i128) - ((self.particle_frames.len() - 1) as i128) >= 12
    }

    /// The number of ticks that the animation has run.
    pub fn get_frame_index(&self) -> (index: u32)
        ensures
            index == self.frame_index(),
    {
        self.frame_index
    }

    /// The first frame that is animated.
    pub fn get_start_process_frame(&self) -> (index: usize)
        ensures
            index == self.start_process_index(),
    {
        self.start_process_index
    }

    /// The number of offsets that were computed.
    pub fn get_rng_offset_count(&self) -> (count: usize)
        ensures
            count == self.rng_offsets().len(),
    {
        self.particle_frame_rng_offsets.len()
    }

    /// The number of values that giving the particles their draws reads.
    pub fn get_values_read(&self) -> (count: usize)
        requires
            values_read(self.frames()) <= usize::MAX,
        ensures
            count == values_read(self.frames()),
    {
        proof {
            use_type_invariant(self);
        }
        let n = self.particle_frames.len();
        if n == 0 {
            return 0;
        }
        let mut count: usize = 0;
        let mut rng_skip_amount: usize = 0;
        for f in 0..(n - 1)
            invariant
                self.wf(),
                n == self.frames().len(),
                n > 0,
                values_read(self.frames()) <= usize::MAX,
                count == rng_calls(self.frames(), f as nat),
                rng_skip_amount == 2 * f,
        {
            proof {
                lemma_rng_calls_monotonic(self.frames(), (f + 1) as nat, (n - 1) as nat);
                lemma_rng_calls_lower(self.frames(), (f + 1) as nat);
                assert(frames_view(self.particle_frames@)[f as int]
                    == self.particle_frames@[f as int]@);
            }
            count += self.particle_frames[f].len() * 2;
            count += rng_skip_amount;
            rng_skip_amount += 2;
        }
        assert(frames_view(self.particle_frames@)[n - 1] == self.particle_frames@[n - 1]@);
        count + 2 * self.particle_frames[n - 1].len()
    }

    pub fn get_frame_count(&self) -> (count: usize)
        ensures
            count == self.frames().len(),
    {
        self.particle_frames.len()
    }

    /// The number of ticks of the whole animation: the last frame starts with the
    /// last tick of the frames and runs eleven more.
    pub fn get_length(&self) -> (length: usize)
        requires
            self.frames().len() + 11 <= usize::MAX,
        ensures
            length == self.frames().len() + 11,
    {
        self.particle_frames.len() + 11
    }

    pub fn get_frames(&self) -> (frames: &Vec<Vec<DustParticle>>)
        ensures
            frames_view(frames@) == self.frames(),
    {
        &self.particle_frames
    }

    pub fn get_frame_rng_offset(&self, index: usize) -> (offset: usize)
        requires
            index < self.rng_offsets().len(),
        ensures
            offset == self.rng_offsets()[index as int],
    {
        self.particle_frame_rng_offsets[index]
    }

    /// The draws that the whole animation costs.
    pub fn get_total_rng_calls(&self) -> (count: usize)
        requires
            self.counts_fit(),
        ensures
            count == rng_calls(self.frames(), self.frames().len()),
            self.wf(),
    {
        proof {
            use_type_invariant(self);
        }
        let mut count: usize = 0;
        let mut rng_skip_amount: usize = 0;
        let n = self.particle_frames.len();
        for f in 0..n
            invariant
                self.wf(),
                self.counts_fit(),
                n == self.frames().len(),
                count == rng_calls(self.frames(), f as nat),
                rng_skip_amount == 2 * f,
        {
            proof {
                lemma_rng_calls_monotonic(self.frames(), (f + 1) as nat, n as nat);
                lemma_rng_calls_lower(self.frames(), (f + 1) as nat);
                assert(frames_view(self.particle_frames@)[f as int]
                    == self.particle_frames@[f as int]@);
            }
            count += self.particle_frames[f].len() * 2;
            count += rng_skip_amount;
            rng_skip_amount += 2;
        }
        count
    }

    fn copy_frames(&self) -> (frames: Vec<Vec<DustParticle>>)
        ensures
            frames_view(frames@) == self.frames(),
    {
        let mut frames: Vec<Vec<DustParticle>> = Vec::new();
        let n = self.particle_frames.len();
        for f in 0..n
            invariant
                n == self.particle_frames@.len(),
                frames@.len() == f,
                forall|i: int| 0 <= i < f ==> (#[trigger] frames@[i])@ == self.particle_frames@[i]@,
        {
            let mut frame: Vec<DustParticle> = Vec::new();
            let count = self.particle_frames[f].len();
            for k in 0..count
                invariant
                    0 <= f < n,
                    n == self.particle_frames@.len(),
                    count == self.particle_frames@[f as int]@.len(),
                    frame@ == self.particle_frames@[f as int]@.subrange(0, k as int),
            {
                frame.push(self.particle_frames[f][k]);
                assert(frame@ =~= self.particle_frames@[f as int]@.subrange(0, k + 1));
            }
            assert(frame@ =~= self.particle_frames@[f as int]@);
            frames.push(frame);
        }
        assert(frames_view(frames@) =~= frames_view(self.particle_frames@));
        frames
    }

    fn copy_rng_offsets(&self) -> (offsets: Vec<usize>)
        ensures
            offsets@ == self.rng_offsets(),
    {
        let mut offsets: Vec<usize> = Vec::new();
        let n = self.particle_frame_rng_offsets.len();
        for i in 0..n
            invariant
                n == self.particle_frame_rng_offsets@.len(),
                offsets@ == self.particle_frame_rng_offsets@.subrange(0, i as int),
        {
            offsets.push(self.particle_frame_rng_offsets[i]);
            assert(offsets@ =~= self.particle_frame_rng_offsets@.subrange(0, i + 1));
        }
        assert(self.particle_frame_rng_offsets@.subrange(0, n as int)
            =~= self.particle_frame_rng_offsets@);
        offsets
    }

    /// Computes for every frame the draws made before it and appends them to the
    /// offsets.
    pub fn compute_frame_rng_offsets(&mut self)
        requires
            old(self).counts_fit(),
        ensures
            final(self).wf(),
            final(self).rng_offsets() == old(self).rng_offsets() + frame_offsets(
                old(self).frames(),
                old(self).frames().len(),
            ),
            final(self).frames() == old(self).frames(),
            final(self).frame_index() == old(self).frame_index(),
            final(self).start_process_index() == old(self).start_process_index(),
    {
        proof {
            use_type_invariant(&*self);
        }
        let mut rng_skip_amount: usize = 0;
        let mut rng_position: usize = 0;
        let n = self.particle_frames.len();
        let ghost before = self.particle_frame_rng_offsets@;
        let mut offsets = self.copy_rng_offsets();
        let ghost frames = self.frames();
        for f in 0..n
            invariant
                self.wf(),
                self.frames() == frames,
                self.frame_index() == old(self).frame_index(),
                self.start_process_index() == old(self).start_process_index(),
                n == frames.len(),
                rng_calls(frames, n as nat) <= usize::MAX,
                rng_position == rng_calls(frames, f as nat),
                rng_skip_amount == 2 * f,
                offsets@ == before + frame_offsets(frames, f as nat),
        {
            proof {
                lemma_rng_calls_monotonic(frames, (f + 1) as nat, n as nat);
                lemma_rng_calls_lower(frames, (f + 1) as nat);
                assert(frames_view(self.particle_frames@)[f as int]
                    == self.particle_frames@[f as int]@);
            }
            offsets.push(rng_position);
            assert(offsets@ =~= before + frame_offsets(
                frames,
                (f + 1) as nat,
            ));
            rng_position += self.particle_frames[f].len() * 2;
            rng_position += rng_skip_amount;
            rng_skip_amount += 2;
        }
        self.particle_frame_rng_offsets = offsets;
    }

    /// Gives the particles their draws from `rng`, starting at `rng_position`, and
    /// appends the offsets of the frames.
    pub fn start_animating(&mut self, rng: &PrecomputedRNG, rng_position: usize)
        requires
            old(self).counts_fit(),
            rng_position + values_read(old(self).frames()) <= rng@.len(),
        ensures
            final(self).wf(),
            final(self).counts_fit(),
            final(self).frames() == animated(old(self).frames(), rng@, rng_position as int),
            final(self).rng_offsets() == old(self).rng_offsets() + frame_offsets(
                old(self).frames(),
                old(self).frames().len(),
            ),
            final(self).frame_index() == old(self).frame_index(),
            final(self).start_process_index() == old(self).start_process_index(),
    {
        proof {
            use_type_invariant(&*self);
        }
        let n = self.particle_frames.len();
        let ghost before = self.particle_frame_rng_offsets@;
        let mut offsets = self.copy_rng_offsets();
        let ghost frames = self.frames();
        let ghost target = animated(frames, rng@, rng_position as int);
        let mut rng_skip_amount: usize = 0;
        let mut offset: usize = 0;
        let mut new_frames: Vec<Vec<DustParticle>> = Vec::new();
        let values = rng.raw();
        let values_len = values.len();
        for f in 0..n
            invariant
                values_len == rng@.len(),
                self.wf(),
                self.frames() == frames,
                self.frame_index() == old(self).frame_index(),
                self.start_process_index() == old(self).start_process_index(),
                n == frames.len(),
                rng_calls(frames, n as nat) <= usize::MAX,
                values@ == rng@,
                rng_position + values_read(frames) <= rng@.len(),
                target == animated(frames, rng@, rng_position as int),
                offset == rng_calls(frames, f as nat),
                rng_skip_amount == 2 * f,
                offsets@ == before + frame_offsets(frames, f as nat),
                frames_view(new_frames@) == target.subrange(0, f as int),
        {
            proof {
                lemma_rng_calls_monotonic(frames, (f + 1) as nat, n as nat);
                lemma_rng_calls_lower(frames, (f + 1) as nat);
                assert(frames_view(self.particle_frames@)[f as int]
                    == self.particle_frames@[f as int]@);
                if f + 1 < n {
                    lemma_rng_calls_monotonic(frames, (f + 1) as nat, (n - 1) as nat);
                }
                assert(frames[f as int].len() > 0);
            }
            offsets.push(offset);
            assert(offsets@ =~= before + frame_offsets(
                frames,
                (f + 1) as nat,
            ));
            let count = self.particle_frames[f].len();
            assert(self.particle_frames@[f as int]@ == frames[f as int]);
            assert(rng_position + offset + 2 * count <= rng@.len()) by {
                if f + 1 < n {
                    assert(rng_calls(frames, (f + 1) as nat) <= rng_calls(frames, (n - 1) as nat));
                } else {
                    assert(frames.last() == frames[f as int]);
                }
            }
            let mut new_frame: Vec<DustParticle> = Vec::new();
            for k in 0..count
                invariant
                    0 <= f < n,
                    n == frames.len(),
                    values_len == rng@.len(),
                    self.frames() == frames,
                    count == frames[f as int].len(),
                    self.particle_frames@[f as int]@ == frames[f as int],
                    values@ == rng@,
                    offset == rng_calls(frames, f as nat),
                    rng_position + offset + 2 * count <= rng@.len(),
                    target == animated(frames, rng@, rng_position as int),
                    new_frame@ == target[f as int].subrange(0, k as int),
            {
                let particle = self.particle_frames[f][k];
                let position = rng_position + offset + 2 * k;
                let moved = DustParticle {
                    x: particle.x,
                    y: particle.y,
                    xscale: particle.xscale,
                    gravity_draw: values[position],
                    hspeed_draw: values[position + 1],
                };
                new_frame.push(moved);
                assert(new_frame@ =~= target[f as int].subrange(0, k + 1));
            }
            assert(new_frame@ =~= target[f as int]);
            proof {
                lemma_frames_view_push(new_frames@, new_frame);
            }
            new_frames.push(new_frame);
            assert(frames_view(new_frames@) =~= target.subrange(0, f + 1));
            offset += count * 2;
            offset += rng_skip_amount;
            rng_skip_amount += 2;
        }
        assert(target.subrange(0, n as int) =~= target);
        proof {
            lemma_animated_calls(frames, rng@, rng_position as int, n as nat);
        }
        self.particle_frames = new_frames;
        self.particle_frame_rng_offsets = offsets;
    }

    /// The draws that the whole animation costs, where a `usize` can count them.
    pub fn checked_total_rng_calls(&self) -> (count: Option<usize>)
        ensures
            count is Some == self.counts_fit(),
            count is Some ==> count->Some_0 == rng_calls(self.frames(), self.frames().len()),
    {
        proof {
            use_type_invariant(self);
        }
        let mut count: usize = 0;
        let mut rng_skip_amount: usize = 0;
        let n = self.particle_frames.len();
        let mut f: usize = 0;
        while f < n
            invariant
                self.wf(),
                n == self.frames().len(),
                f <= n,
                count == rng_calls(self.frames(), f as nat),
                rng_skip_amount == 2 * f,
            decreases n - f,
        {
            proof {
                lemma_rng_calls_monotonic(self.frames(), (f + 1) as nat, n as nat);
                lemma_rng_calls_lower(self.frames(), (f + 1) as nat);
                assert(frames_view(self.particle_frames@)[f as int]
                    == self.particle_frames@[f as int]@);
            }
            let particle_calls = match self.particle_frames[f].len().checked_mul(2) {
                Some(calls) => calls,
                None => {
                    return None;
                },
            };
            let with_particles = match count.checked_add(particle_calls) {
                Some(sum) => sum,
                None => {
                    return None;
                },
            };
            count =
            match with_particles.checked_add(rng_skip_amount) {
                Some(sum) => sum,
                None => {
                    return None;
                },
            };
            rng_skip_amount += 2;
            f += 1;
        }
        Some(count)
    }

    /// The draws made from the start of the animation until the victory text of
    /// `text_length` steps is written out.
    pub fn get_after_battle_rng_calls(&self, text_length: usize) -> (count: usize)
        requires
            self.frames().len() <= text_length,
            after_battle_rng_calls(self.frames(), text_length as nat) <= usize::MAX,
        ensures
            count == after_battle_rng_calls(self.frames(), text_length as nat),
    {
        proof {
            use_type_invariant(self);
            lemma_rng_calls_lower(self.frames(), self.frames().len());
        }
        let total = self.get_total_rng_calls();
        let n = self.particle_frames.len();
        let mut count: usize = total;
        let mut rng_skip_amount: usize = 2 * n;
        let remaining_frames = text_length - n;
        let mut i: usize = 0;
        while i < remaining_frames
            invariant
                i <= remaining_frames,
                total + text_rng_calls((2 * n) as nat, 0, remaining_frames as nat) <= usize::MAX,
                count + text_rng_calls(rng_skip_amount as nat, i as nat, remaining_frames as nat)
                    == total + text_rng_calls((2 * n) as nat, 0, remaining_frames as nat),
            decreases remaining_frames - i,
        {
            proof {
                lemma_text_rng_calls_step(
                    rng_skip_amount as nat,
                    i as nat,
                    remaining_frames as nat,
                );
            }
            count += rng_skip_amount;
            i += 1;
            if i < remaining_frames - 1 {
                rng_skip_amount += 2;
            }
        }
        count
    }

    /// The draws made from the start of the animation until the victory text of
    /// `text_length` steps is written out, where the text is no shorter than the
    /// animation and a `usize` can count the draws.
    pub fn checked_after_battle_rng_calls(&self, text_length: usize) -> (count: Option<usize>)
        ensures
            count is Some == (self.frames().len() <= text_length && after_battle_rng_calls(
                self.frames(),
                text_length as nat,
            ) <= usize::MAX),
            count is Some ==> count->Some_0 == after_battle_rng_calls(
                self.frames(),
                text_length as nat,
            ),
    {
        proof {
            use_type_invariant(self);
            lemma_rng_calls_lower(self.frames(), self.frames().len());
        }
        let n = self.particle_frames.len();
        if text_length < n {
            return None;
        }
        let total = match self.checked_total_rng_calls() {
            Some(total) => total,
            None => {
                return None;
            },
        };
        let mut count: usize = total;
        let mut rng_skip_amount: usize = 2 * n;
        let remaining_frames = text_length - n;
        let mut i: usize = 0;
        while i < remaining_frames
            invariant
                i <= remaining_frames,
                n == self.frames().len(),
                n <= text_length,
                remaining_frames == text_length - n,
                total == rng_calls(self.frames(), n as nat),
                count + text_rng_calls(rng_skip_amount as nat, i as nat, remaining_frames as nat)
                    == total + text_rng_calls((2 * n) as nat, 0, remaining_frames as nat),
            decreases remaining_frames - i,
        {
            proof {
                lemma_text_rng_calls_step(
                    rng_skip_amount as nat,
                    i as nat,
                    remaining_frames as nat,
                );
            }
            count =
            match count.checked_add(rng_skip_amount) {
                Some(sum) => sum,
                None => {
                    return None;
                },
            };
            i += 1;
            if i < remaining_frames - 1 {
                rng_skip_amount =
                match rng_skip_amount.checked_add(2) {
                    Some(sum) => sum,
                    None => {
                        return None;
                    },
                };
            }
        }
        Some(count)
    }
}

/// One step of the text costs `skip` draws, and where two or more steps remain after it,
/// the next costs two more.
pub proof fn lemma_text_rng_calls_step(skip: nat, i: nat, remaining: nat)
    requires
        i < remaining,
    ensures
        text_rng_calls(skip, i, remaining) >= skip,
        i + 1 < remaining - 1 ==> text_rng_calls(skip, i, remaining) == skip + text_rng_calls(
            skip + 2,
            i + 1,
            remaining,
        ) && text_rng_calls(skip + 2, i + 1, remaining) >= skip + 2,
        !(i + 1 < remaining - 1) ==> text_rng_calls(skip, i, remaining) == skip + text_rng_calls(
            skip,
            i + 1,
            remaining,
        ),
{
    if i + 1 < remaining - 1 {
        assert(text_rng_calls(skip + 2, i + 1, remaining) >= skip + 2);
    }
}

/// Giving the particles their draws keeps their number in every frame, and with it
/// the draws before every frame.
pub proof fn lemma_animated_calls(
    frames: Seq<Seq<DustParticle>>,
    values: Seq<u32>,
    position: int,
    n: nat,
)
    requires
        n <= frames.len(),
    ensures
        animated(frames, values, position).len() == frames.len(),
        forall|f: int|
            0 <= f < frames.len() ==> (#[trigger] animated(frames, values, position)[f]).len()
                == frames[f].len(),
        rng_calls(animated(frames, values, position), n) == rng_calls(frames, n),
    decreases n,
{
    if n > 0 {
        lemma_animated_calls(frames, values, position, (n - 1) as nat);
    }
}

} // verus!
