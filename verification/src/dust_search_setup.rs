//! From an animation to the parameters of its search, and from the result of the
//! search to the position after the battle.

use crate::compute_dust_search::{DustSearchMode, DustSearchParameters, DustSearchResult};
use crate::compute_shaders::{point_words, PointU32};
use crate::dust::{after_battle_rng_calls, frames_view, rng_calls, DustAnimation, DustParticle};
use vstd::prelude::*;

verus! {

/// The draws that are kept free behind the searched range.
pub const SEARCH_RANGE_MARGIN: usize = 10_000;

/// `value` brought into the range of 16 bits.
pub open spec fn saturated(value: i64) -> i16 {
    if value < i16::MIN {
        i16::MIN
    } else if value > i16::MAX {
        i16::MAX
    } else {
        value as i16
    }
}

fn saturate(value: i64) -> (narrow: i16)
    ensures
        narrow == saturated(value),
{
    if value < -32768 {
        -32768
    } else if value > 32767 {
        32767
    } else {
        value as i16
    }
}

/// The packed point of a particle for a search after `num_attacks` further
/// attacks, each of which has moved the sprite one pixel to the left.
pub open spec fn search_point(particle: DustParticle, num_attacks: i16) -> u32 {
    PointU32::pack((saturated(particle.x) - num_attacks) as i16, saturated(particle.y))
}

/// The packed points of a frame.
pub open spec fn search_points(frame: Seq<DustParticle>, num_attacks: i16) -> Seq<u32> {
    Seq::new(frame.len(), |k: int| search_point(frame[k], num_attacks))
}

/// Whether every particle of the frame can be moved `num_attacks` to the left.
pub open spec fn can_shift(frame: Seq<DustParticle>, num_attacks: i16) -> bool {
    forall|k: int|
        0 <= k < frame.len() ==> i16::MIN <= saturated((#[trigger] frame[k]).x) - num_attacks
            <= i16::MAX
}

/// How many of the last frames a mode looks at.
pub open spec fn frames_used(mode: DustSearchMode) -> nat {
    if mode.is_second_to_last() {
        2
    } else {
        1
    }
}

fn push_frame_points(points: &mut Vec<PointU32>, frame: &Vec<DustParticle>, num_attacks: i16)
    requires
        can_shift(frame@, num_attacks),
    ensures
        point_words(final(points)@) == point_words(old(points)@) + search_points(frame@, num_attacks),
        final(points)@.len() == old(points)@.len() + frame@.len(),
{
    let ghost before = points@;
    for k in 0..frame.len()
        invariant
            can_shift(frame@, num_attacks),
            points@.len() == before.len() + k,
            point_words(points@) == point_words(before) + search_points(frame@, num_attacks).subrange(
                0,
                k as int,
            ),
    {
        let particle = frame[k];
        let ghost earlier = points@;
        points.push(PointU32::new(saturate(particle.x) - num_attacks, saturate(particle.y)));
        assert(point_words(points@) =~= point_words(earlier).push(
            search_point(particle, num_attacks),
        ));
        assert(point_words(points@) =~= point_words(before) + search_points(
            frame@,
            num_attacks,
        ).subrange(0, k + 1));
    }
    assert(search_points(frame@, num_attacks).subrange(0, frame@.len() as int) =~= search_points(
        frame@,
        num_attacks,
    ));
}

/// Whether the offsets of the animation's frames are computed.
pub open spec fn offsets_computed(anim: &DustAnimation) -> bool {
    &&& anim.rng_offsets().len() >= anim.frames().len()
    &&& forall|f: int|
        0 <= f < anim.frames().len() ==> #[trigger] anim.rng_offsets()[f] == rng_calls(
            anim.frames(),
            f as nat,
        )
}

/// Whether `params` are the parameters of the search for the animation: the mode,
/// the points that were seen, the range that the stream leaves, the offset of the
/// last frame, the skip before the frames that the mode looks at, and as initial
/// particles those of the last frame and, for the second-to-last frame, those of
/// the frame before it.
pub open spec fn is_search_parameters_of(
    params: &DustSearchParameters,
    anim: &DustAnimation,
    search_mode: DustSearchMode,
    num_attacks: i16,
    matching_particles: Vec<PointU32>,
    num_to_compute: usize,
) -> bool {
    let frames = anim.frames();
    &&& params.search_mode == search_mode
    &&& params.matching_particles == matching_particles
    &&& params.search_range == num_to_compute - rng_calls(frames, frames.len())
        - SEARCH_RANGE_MARGIN
    &&& params.last_frame_rng_offset == rng_calls(frames, (frames.len() - 1) as nat)
    &&& params.last_frame_particle_count == frames.last().len()
    &&& params.initial_rng_skip_amount == 2 * (frames.len() - frames_used(search_mode))
    &&& !search_mode.is_second_to_last() ==> {
        &&& params.second_last_frame_particle_count == 0
        &&& point_words(params.initial_particles@) == search_points(frames.last(), num_attacks)
    }
    &&& search_mode.is_second_to_last() ==> {
        let before_last = frames[frames.len() - 2];
        &&& params.second_last_frame_particle_count == before_last.len()
        &&& point_words(params.initial_particles@) == search_points(frames.last(), num_attacks)
            + search_points(before_last, num_attacks)
    }
}

/// The parameters of the search for an animation of which `matching_particles` were
/// seen, in a stream of `num_to_compute` precomputed values. The particles of the
/// last frame, and for the second-to-last frame those of the frame before it, go
/// in as initial particles, moved left by the attacks; the range leaves room for
/// the animation and a margin.
pub fn build_search_parameters(
    anim: &DustAnimation,
    search_mode: DustSearchMode,
    num_attacks: i16,
    matching_particles: Vec<PointU32>,
    num_to_compute: usize,
) -> (params: DustSearchParameters)
    requires
        offsets_computed(anim),
        anim.frames().len() >= frames_used(search_mode),
        forall|f: int|
            anim.frames().len() - frames_used(search_mode) <= f < anim.frames().len() ==> can_shift(
                #[trigger] anim.frames()[f],
                num_attacks,
            ),
        rng_calls(anim.frames(), anim.frames().len()) <= u32::MAX,
        rng_calls(anim.frames(), anim.frames().len()) + SEARCH_RANGE_MARGIN <= num_to_compute,
        num_to_compute - rng_calls(anim.frames(), anim.frames().len()) - SEARCH_RANGE_MARGIN
            <= u32::MAX,
    ensures
        is_search_parameters_of(
            &params,
            anim,
            search_mode,
            num_attacks,
            matching_particles,
            num_to_compute,
        ),
        params.search_mode == search_mode,
        params.matching_particles == matching_particles,
        params.search_range == num_to_compute - rng_calls(anim.frames(), anim.frames().len())
            - SEARCH_RANGE_MARGIN,
        params.last_frame_rng_offset == rng_calls(
            anim.frames(),
            (anim.frames().len() - 1) as nat,
        ),
        params.last_frame_particle_count == anim.frames().last().len(),
        params.initial_rng_skip_amount == 2 * (anim.frames().len() - frames_used(search_mode)),
        !search_mode.is_second_to_last() ==> {
            &&& params.second_last_frame_particle_count == 0
            &&& point_words(params.initial_particles@) == search_points(
                anim.frames().last(),
                num_attacks,
            )
        },
        search_mode.is_second_to_last() ==> {
            let before_last = anim.frames()[anim.frames().len() - 2];
            &&& params.second_last_frame_particle_count == before_last.len()
            &&& point_words(params.initial_particles@) == search_points(
                anim.frames().last(),
                num_attacks,
            ) + search_points(before_last, num_attacks)
            &&& params.last_frame_rng_offset - (2 * params.second_last_frame_particle_count
                + params.initial_rng_skip_amount) == rng_calls(
                anim.frames(),
                (anim.frames().len() - 2) as nat,
            )
        },
        params.last_frame_particle_count + params.second_last_frame_particle_count
            == params.initial_particles@.len(),
{
    let frames = anim.get_frames();
    let n = frames.len();
    let ghost all = anim.frames();
    proof {
        use_type_invariant(anim);
        crate::dust::lemma_rng_calls_lower(all, (n - 1) as nat);
        assert(frames_view(frames@)[n - 1] == frames@[n - 1]@);
        if n >= 2 {
            lemma_last_two_offsets(all);
        }
    }
    let mut initial_particles: Vec<PointU32> = Vec::with_capacity(32);
    assert(point_words(initial_particles@) =~= Seq::<u32>::empty());
    push_frame_points(&mut initial_particles, &frames[n - 1], num_attacks);
    let initial_particles_last_frame_count: u32 = frames[n - 1].len() as u32;
    let mut initial_particles_second_last_frame_count: u32 = 0;
    let second = match search_mode {
        DustSearchMode::SecondToLastFrame | DustSearchMode::SecondToLastFrameEarly => true,
        DustSearchMode::LastFrame | DustSearchMode::LastFrameEarly => false,
    };
    if second {
        proof {
            assert(frames_view(frames@)[n - 2] == frames@[n - 2]@);
        }
        push_frame_points(&mut initial_particles, &frames[n - 2], num_attacks);
        initial_particles_second_last_frame_count = frames[n - 2].len() as u32;
    }
    let frame_end_offset: usize = if second {
        2
    } else {
        1
    };
    let initial_rng_skip_amount: u32 = 2 * (n - frame_end_offset) as u32;
    DustSearchParameters {
        search_range: (num_to_compute - anim.get_total_rng_calls() - SEARCH_RANGE_MARGIN) as u32,
        last_frame_rng_offset: anim.get_frame_rng_offset(n - 1) as u32,
        matching_particles,
        initial_particles,
        last_frame_particle_count: initial_particles_last_frame_count,
        second_last_frame_particle_count: initial_particles_second_last_frame_count,
        initial_rng_skip_amount,
        search_mode,
    }
}

fn frame_can_shift(frame: &Vec<DustParticle>, num_attacks: i16) -> (possible: bool)
    ensures
        possible == can_shift(frame@, num_attacks),
{
    for k in 0..frame.len()
        invariant
            forall|j: int|
                0 <= j < k ==> i16::MIN <= saturated((#[trigger] frame@[j]).x) - num_attacks
                    <= i16::MAX,
    {
        let shifted = saturate(frame[k].x) as i32 - num_attacks as i32;
        if shifted < -32768 || shifted > 32767 {
            return false;
        }
    }
    true
}

/// Whether `build_search_parameters` can be called with these arguments.
pub open spec fn can_build(
    anim: &DustAnimation,
    search_mode: DustSearchMode,
    num_attacks: i16,
    num_to_compute: usize,
) -> bool {
    &&& offsets_computed(anim)
    &&& anim.frames().len() >= frames_used(search_mode)
    &&& forall|f: int|
        anim.frames().len() - frames_used(search_mode) <= f < anim.frames().len() ==> can_shift(
            #[trigger] anim.frames()[f],
            num_attacks,
        )
    &&& rng_calls(anim.frames(), anim.frames().len()) <= u32::MAX
    &&& rng_calls(anim.frames(), anim.frames().len()) + SEARCH_RANGE_MARGIN <= num_to_compute
    &&& num_to_compute - rng_calls(anim.frames(), anim.frames().len()) - SEARCH_RANGE_MARGIN
        <= u32::MAX
}

/// The parameters of the search where they can be built, and nothing where the
/// animation is too short for the mode, its offsets are not computed, a particle
/// cannot be moved left by the attacks, or the stream leaves no range to search.
pub fn try_build_search_parameters(
    anim: &DustAnimation,
    search_mode: DustSearchMode,
    num_attacks: i16,
    matching_particles: Vec<PointU32>,
    num_to_compute: usize,
) -> (params: Option<DustSearchParameters>)
    ensures
        params is Some == can_build(anim, search_mode, num_attacks, num_to_compute),
        params is Some ==> is_search_parameters_of(
            &params->Some_0,
            anim,
            search_mode,
            num_attacks,
            matching_particles,
            num_to_compute,
        ),
{
    let frames = anim.get_frames();
    let n = frames.len();
    let used: usize = match search_mode {
        DustSearchMode::SecondToLastFrame | DustSearchMode::SecondToLastFrameEarly => 2,
        DustSearchMode::LastFrame | DustSearchMode::LastFrameEarly => 1,
    };
    if n < used || anim.get_rng_offset_count() < n {
        return None;
    }
    let total = match anim.checked_total_rng_calls() {
        Some(total) => total,
        None => {
            return None;
        },
    };
    proof {
        use_type_invariant(anim);
    }
    if total > 0xffff_ffff || num_to_compute < SEARCH_RANGE_MARGIN || num_to_compute
        - SEARCH_RANGE_MARGIN < total || num_to_compute - SEARCH_RANGE_MARGIN - total > 0xffff_ffff {
        return None;
    }
    let mut count: usize = 0;
    let mut rng_skip_amount: usize = 0;
    for f in 0..n
        invariant
            anim.wf(),
            n == anim.frames().len(),
            frames_view(frames@) == anim.frames(),
            n <= anim.rng_offsets().len(),
            rng_calls(anim.frames(), n as nat) <= usize::MAX,
            count == rng_calls(anim.frames(), f as nat),
            rng_skip_amount == 2 * f,
            forall|j: int|
                0 <= j < f ==> #[trigger] anim.rng_offsets()[j] == rng_calls(
                    anim.frames(),
                    j as nat,
                ),
    {
        proof {
            crate::dust::lemma_rng_calls_monotonic(anim.frames(), (f + 1) as nat, n as nat);
            crate::dust::lemma_rng_calls_lower(anim.frames(), (f + 1) as nat);
            assert(frames_view(frames@)[f as int] == frames@[f as int]@);
        }
        if anim.get_frame_rng_offset(f) != count {
            return None;
        }
        count += frames[f].len() * 2;
        count += rng_skip_amount;
        rng_skip_amount += 2;
    }
    for f in (n - used)..n
        invariant
            used == frames_used(search_mode),
            used <= n,
            n == anim.frames().len(),
            frames_view(frames@) == anim.frames(),
            forall|j: int|
                n - used <= j < f ==> can_shift(#[trigger] anim.frames()[j], num_attacks),
    {
        assert(frames_view(frames@)[f as int] == frames@[f as int]@);
        if !frame_can_shift(&frames[f], num_attacks) {
            return None;
        }
    }
    Some(build_search_parameters(anim, search_mode, num_attacks, matching_particles, num_to_compute))
}

/// The offset of the last frame is that of the frame before it, the draws of that
/// frame's particles and the draws of the text meanwhile.
pub proof fn lemma_last_two_offsets(frames: Seq<Seq<DustParticle>>)
    requires
        frames.len() >= 2,
    ensures
        rng_calls(frames, (frames.len() - 1) as nat) == rng_calls(
            frames,
            (frames.len() - 2) as nat,
        ) + 2 * frames[frames.len() - 2].len() + 2 * (frames.len() - 2),
{
}

/// The stream position after the battle, where the search found exactly one
/// match: the matched position and the draws from there until the victory text
/// of `text_length` steps is written out.
pub fn predicted_position(anim: &DustAnimation, result: &DustSearchResult, text_length: usize) -> (predicted:
    Option<usize>)
    requires
        anim.frames().len() <= text_length,
    ensures
        result.match_count != 1 ==> predicted is None,
        result.match_count == 1 ==> {
            let position = result.single_matched_position + after_battle_rng_calls(
                anim.frames(),
                text_length as nat,
            );
            predicted == (if position <= usize::MAX {
                Some(position as usize)
            } else {
                None
            })
        },
{
    if result.match_count == 1 {
        match anim.checked_after_battle_rng_calls(text_length) {
            Some(calls) => (result.single_matched_position as usize).checked_add(calls),
            None => None,
        }
    } else {
        None
    }
}

} // verus!
