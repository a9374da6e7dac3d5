//! The dust positional search: its parameters, what is checked before any device
//! work, what is sent to the kernel and how its answer is read.

use crate::compute_shaders::{
    gpu_buffer_layout, group_count, le_bytes_of, le_u32, point_words, points_to_bytes, read_u32, zero_bytes, ComputeError, ComputePipelineInfo, GPUBufferInfo, PointU32, MATCH_POINTS_BUFFER_SIZE, RETURN_VALUE_BUFFER_SIZE,
};
use vstd::prelude::*;

verus! {

/// What a dust search found: how many candidates matched and, where it was one,
/// its stream position.
#[derive(Clone, Copy, Debug, PartialEq, Eq, Structural)]
pub struct DustSearchResult {
    pub match_count: u32,
    pub single_matched_position: u32,
}

impl DustSearchResult {
    /// The position of the match, where exactly one candidate matched.
    pub fn position(&self) -> (position: Option<u32>)
        ensures
            position == (if self.match_count == 1 {
                Some(self.single_matched_position)
            } else {
                None
            }),
    {
        if self.match_count == 1 {
            Some(self.single_matched_position)
        } else {
            None
        }
    }
}

/// Which instant of the animation is matched, and with which timing.
#[derive(Clone, Copy, Debug, PartialEq, Eq, Structural)]
pub enum DustSearchMode {
    LastFrame,
    LastFrameEarly,
    SecondToLastFrame,
    SecondToLastFrameEarly,
}

impl DustSearchMode {
    /// Whether the mode has the early timing.
    pub open spec fn is_early(self) -> bool {
        self == DustSearchMode::LastFrameEarly || self == DustSearchMode::SecondToLastFrameEarly
    }

    /// Whether the mode matches the second-to-last frame.
    pub open spec fn is_second_to_last(self) -> bool {
        self == DustSearchMode::SecondToLastFrame || self
            == DustSearchMode::SecondToLastFrameEarly
    }

    /// The same frame with the early timing.
    pub fn to_early(&self) -> (mode: Self)
        ensures
            mode.is_early(),
            mode.is_second_to_last() == self.is_second_to_last(),
    {
        match self {
            DustSearchMode::LastFrame => DustSearchMode::LastFrameEarly,
            DustSearchMode::SecondToLastFrame => DustSearchMode::SecondToLastFrameEarly,
            DustSearchMode::LastFrameEarly => DustSearchMode::LastFrameEarly,
            DustSearchMode::SecondToLastFrameEarly => DustSearchMode::SecondToLastFrameEarly,
        }
    }

    /// The same frame with the normal timing.
    pub fn to_normal(&self) -> (mode: Self)
        ensures
            !mode.is_early(),
            mode.is_second_to_last() == self.is_second_to_last(),
    {
        match self {
            DustSearchMode::LastFrameEarly => DustSearchMode::LastFrame,
            DustSearchMode::SecondToLastFrameEarly => DustSearchMode::SecondToLastFrame,
            DustSearchMode::LastFrame => DustSearchMode::LastFrame,
            DustSearchMode::SecondToLastFrame => DustSearchMode::SecondToLastFrame,
        }
    }

    /// The name of the mode's kernel.
    pub open spec fn shader_name(self) -> Seq<char> {
        match self {
            DustSearchMode::LastFrame => "dust_last_frame.comp"@,
            DustSearchMode::LastFrameEarly => "dust_last_frame_early.comp"@,
            DustSearchMode::SecondToLastFrame => "dust_second_last_frame.comp"@,
            DustSearchMode::SecondToLastFrameEarly => "dust_second_last_frame_early.comp"@,
        }
    }

    /// The mode's kernel: three buffers to read, one to write, one block of uniform
    /// data, 64 threads to the group.
    pub fn pipeline_info(&self) -> (info: ComputePipelineInfo<'static>)
        ensures
            info.shader_name@ == self.shader_name(),
            info.num_readonly_storage_buffers == 3,
            info.num_readwrite_storage_buffers == 1,
            info.num_uniform_buffers == 1,
            info.threadcount_x == 64,
            info.threadcount_y == 1,
            info.threadcount_z == 1,
    {
        let name: &'static str = match self {
            DustSearchMode::LastFrame => "dust_last_frame.comp",
            DustSearchMode::LastFrameEarly => "dust_last_frame_early.comp",
            DustSearchMode::SecondToLastFrame => "dust_second_last_frame.comp",
            DustSearchMode::SecondToLastFrameEarly => "dust_second_last_frame_early.comp",
        };
        ComputePipelineInfo::with_buffers(name, 3, 1, 1)
    }
}

/// The evidence and the range of one dust search.
#[derive(Clone)]
pub struct DustSearchParameters {
    pub search_mode: DustSearchMode,
    pub search_range: u32,
    pub last_frame_rng_offset: u32,
    pub initial_rng_skip_amount: u32,
    pub matching_particles: Vec<PointU32>,
    pub initial_particles: Vec<PointU32>,
    pub last_frame_particle_count: u32,
    pub second_last_frame_particle_count: u32,
}

/// The buffers of the dust engine.
pub struct DustBuffers {
    pub return_val_buffer: GPUBufferInfo,
    pub rng_buffer: GPUBufferInfo,
    pub match_positions_buffer: GPUBufferInfo,
    pub initial_particles_buffer: GPUBufferInfo,
}

/// The buffers of a dust engine over `rng_len` precomputed values: sixteen bytes
/// for the result, four bytes for each value, and room for 32 points in each of
/// the two point buffers. Only the result buffer is written by the kernel.
pub fn plan_buffers(rng_len: usize) -> (buffers: Result<DustBuffers, ComputeError>)
    ensures
        buffers is Ok <==> rng_len * 4 <= 0xffff_fff0,
        buffers is Err ==> buffers->Err_0 == ComputeError::BufferTooLarge,
        buffers is Ok ==> {
            let b = buffers->Ok_0;
            &&& b.return_val_buffer.wf() && b.return_val_buffer.size() == 16
            &&& !b.return_val_buffer.allow_read() && b.return_val_buffer.allow_write()
            &&& b.rng_buffer.wf() && b.rng_buffer.size() == rng_len * 4
            &&& b.rng_buffer.allow_read() && !b.rng_buffer.allow_write()
            &&& b.match_positions_buffer.wf() && b.match_positions_buffer.size() == 128
            &&& b.match_positions_buffer.allow_read() && !b.match_positions_buffer.allow_write()
            &&& b.initial_particles_buffer.wf() && b.initial_particles_buffer.size() == 128
            &&& b.initial_particles_buffer.allow_read()
                && !b.initial_particles_buffer.allow_write()
        },
{
    if rng_len > 0x3fff_fffc {
        return Err(ComputeError::BufferTooLarge);
    }
    let return_val_buffer = match gpu_buffer_layout(RETURN_VALUE_BUFFER_SIZE, false, true) {
        Ok(info) => info,
        Err(e) => { return Err(e); },
    };
    let rng_buffer = match gpu_buffer_layout(rng_len * 4, true, false) {
        Ok(info) => info,
        Err(e) => { return Err(e); },
    };
    let match_positions_buffer = match gpu_buffer_layout(MATCH_POINTS_BUFFER_SIZE, true, false) {
        Ok(info) => info,
        Err(e) => { return Err(e); },
    };
    let initial_particles_buffer = match gpu_buffer_layout(MATCH_POINTS_BUFFER_SIZE, true, false) {
        Ok(info) => info,
        Err(e) => { return Err(e); },
    };
    Ok(DustBuffers { return_val_buffer, rng_buffer, match_positions_buffer, initial_particles_buffer })
}

/// Why a request is refused before any device work, if it is.
pub open spec fn validation_error(params: &DustSearchParameters) -> Option<ComputeError> {
    if params.matching_particles@.len() == 0 {
        Some(ComputeError::NoMatchPoints)
    } else if params.matching_particles@.len() > 32 {
        Some(ComputeError::TooManyMatchPoints)
    } else if params.initial_particles@.len() == 0 {
        Some(ComputeError::NoInitialParticles)
    } else if params.initial_particles@.len() > 32 {
        Some(ComputeError::TooManyInitialParticles)
    } else if params.last_frame_particle_count + params.second_last_frame_particle_count
        != params.initial_particles@.len() {
        Some(ComputeError::FrameCountMismatch)
    } else {
        None
    }
}

/// Checks the shape of a request: between 1 and 32 candidate points, between 1 and
/// 32 initial particles, and frame counts that sum to the number of initial
/// particles.
pub fn validate(params: &DustSearchParameters) -> (checked: Result<(), ComputeError>)
    ensures
        validation_error(params) is None ==> checked == Ok::<(), ComputeError>(()),
        validation_error(params) is Some ==> checked == Err::<(), ComputeError>(
            validation_error(params)->Some_0,
        ),
{
    if params.matching_particles.len() == 0 {
        return Err(ComputeError::NoMatchPoints);
    }
    if params.matching_particles.len() > 32 {
        return Err(ComputeError::TooManyMatchPoints);
    }
    if params.initial_particles.len() == 0 {
        return Err(ComputeError::NoInitialParticles);
    }
    if params.initial_particles.len() > 32 {
        return Err(ComputeError::TooManyInitialParticles);
    }
    let sum: u64 = params.last_frame_particle_count as u64
        + params.second_last_frame_particle_count as u64;
    if sum != params.initial_particles.len() as u64 {
        return Err(ComputeError::FrameCountMismatch);
    }
    Ok(())
}

/// The uniform fields of a request, in the order in which the kernel reads them:
/// for the last frame its particle count, the number of candidate points and the
/// offset of the frame; for the second-to-last frame both particle counts, the
/// number of candidate points, the offset and the initial skip.
pub open spec fn uniform_fields(params: &DustSearchParameters) -> Seq<u32> {
    if params.search_mode.is_second_to_last() {
        seq![
            params.last_frame_particle_count,
            params.second_last_frame_particle_count,
            params.matching_particles@.len() as u32,
            params.last_frame_rng_offset,
            params.initial_rng_skip_amount,
        ]
    } else {
        seq![
            params.last_frame_particle_count,
            params.matching_particles@.len() as u32,
            params.last_frame_rng_offset,
        ]
    }
}

/// The uniform data of a request: its fields as bytes, one after the other.
pub fn uniform_data(params: &DustSearchParameters) -> (data: Vec<u8>)
    requires
        params.matching_particles@.len() <= u32::MAX,
    ensures
        data@ == le_bytes_of(uniform_fields(params)),
{
    let mut fields: Vec<u32> = Vec::new();
    let point_count = params.matching_particles.len() as u32;
    match params.search_mode {
        DustSearchMode::LastFrame | DustSearchMode::LastFrameEarly => {
            fields.push(params.last_frame_particle_count);
            fields.push(point_count);
            fields.push(params.last_frame_rng_offset);
        },
        DustSearchMode::SecondToLastFrame | DustSearchMode::SecondToLastFrameEarly => {
            fields.push(params.last_frame_particle_count);
            fields.push(params.second_last_frame_particle_count);
            fields.push(point_count);
            fields.push(params.last_frame_rng_offset);
            fields.push(params.initial_rng_skip_amount);
        },
    }
    assert(fields@ =~= uniform_fields(params));
    crate::compute_shaders::u32s_to_bytes(&fields)
}

/// All that one search hands to the device.
pub struct DustSearchPlan {
    /// The kernel to run.
    pub pipeline: DustSearchMode,
    /// The bytes for the buffer of candidate points.
    pub match_positions: Vec<u8>,
    /// The bytes for the buffer of initial particles.
    pub initial_particles: Vec<u8>,
    /// The bytes that clear the result buffer.
    pub return_value_clear: Vec<u8>,
    /// The uniform data.
    pub uniform_data: Vec<u8>,
    /// The number of thread groups in each dimension.
    pub groupcount_x: u32,
    pub groupcount_y: u32,
    pub groupcount_z: u32,
}

/// Whether `plan` is what the request `params` hands to the device.
pub open spec fn is_plan_of(plan: &DustSearchPlan, params: &DustSearchParameters) -> bool {
    &&& plan.pipeline == params.search_mode
    &&& plan.match_positions@ == le_bytes_of(point_words(params.matching_particles@))
    &&& plan.initial_particles@ == le_bytes_of(point_words(params.initial_particles@))
    &&& plan.return_value_clear@ == Seq::new(8, |i: int| 0u8)
    &&& plan.uniform_data@ == le_bytes_of(uniform_fields(params))
    &&& plan.groupcount_x == (params.search_range + 63) / 64
    &&& plan.groupcount_y == 1
    &&& plan.groupcount_z == 1
}

/// Turns a request into what the device is handed, or refuses it. A refused
/// request gives nothing to dispatch.
pub fn plan_search(params: &DustSearchParameters) -> (planned: Result<DustSearchPlan, ComputeError>)
    ensures
        validation_error(params) is None <==> planned is Ok,
        planned is Err ==> Some(planned->Err_0) == validation_error(params),
        planned is Ok ==> is_plan_of(&planned->Ok_0, params),
        planned is Ok ==> planned->Ok_0.match_positions@.len() <= 128
            && planned->Ok_0.initial_particles@.len() <= 128,
{
    match validate(params) {
        Err(e) => { return Err(e); },
        Ok(_) => {},
    }
    Ok(
        DustSearchPlan {
            pipeline: params.search_mode,
            match_positions: points_to_bytes(&params.matching_particles),
            initial_particles: points_to_bytes(&params.initial_particles),
            return_value_clear: zero_bytes(8),
            uniform_data: uniform_data(params),
            groupcount_x: group_count(params.search_range),
            groupcount_y: 1,
            groupcount_z: 1,
        },
    )
}

/// The number of result bytes that a dust search reads back.
pub const DUST_RESULT_SIZE: usize = 8;

/// Reads the kernel's answer: the match count, then the matched position.
pub fn decode_result(bytes: &Vec<u8>) -> (result: DustSearchResult)
    requires
        bytes@.len() >= 8,
    ensures
        result.match_count == le_u32(bytes@, 0),
        result.single_matched_position == le_u32(bytes@, 4),
{
    DustSearchResult {
        match_count: read_u32(bytes, 0),
        single_matched_position: read_u32(bytes, 4),
    }
}

/// The result that is published for a search: what was found, or no match at all
/// where the search failed.
pub fn conclude(outcome: Result<DustSearchResult, ComputeError>) -> (result: DustSearchResult)
    ensures
        outcome is Ok ==> result == outcome->Ok_0,
        outcome is Err ==> result == (DustSearchResult {
            match_count: 0,
            single_matched_position: 0,
        }),
{
    match outcome {
        Ok(result) => result,
        Err(_) => DustSearchResult { match_count: 0, single_matched_position: 0 },
    }
}

/// A search with no candidate point, or with more than 32, is refused, and nothing
/// is planned for the device.
pub proof fn lemma_match_points_checked(params: &DustSearchParameters)
    requires
        params.matching_particles@.len() == 0 || params.matching_particles@.len() > 32,
    ensures
        validation_error(params) == (if params.matching_particles@.len() == 0 {
            Some(ComputeError::NoMatchPoints)
        } else {
            Some(ComputeError::TooManyMatchPoints)
        }),
{
}

} // verus!
