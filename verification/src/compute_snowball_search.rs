//! The snowball positional search: its parameters, what is checked before any
//! device work, what is sent to the kernel and how its answer is read.

use crate::compute_shaders::{
    gpu_buffer_layout, group_count, le_bytes_of, le_u32, point_words, points_to_bytes, read_u32,
    u32s_to_bytes, zero_bytes, ComputeError, ComputePipelineInfo, GPUBufferInfo, PointU32,
    MATCH_POINTS_BUFFER_SIZE, RETURN_VALUE_BUFFER_SIZE,
};
use vstd::prelude::*;

verus! {

/// What a snowball search found: how many candidates matched and, where it was
/// one, its stream position.
#[derive(Clone, Copy, Debug, PartialEq, Eq, Structural)]
pub struct SnowballSearchResult {
    pub match_count: u32,
    pub single_matched_position: u32,
}

impl SnowballSearchResult {
    /// The result of no search: no match.
    pub fn new() -> (result: Self)
        ensures
            result.match_count == 0,
            result.single_matched_position == 0,
    {
        SnowballSearchResult { match_count: 0, single_matched_position: 0 }
    }

    /// The position of the match, where exactly one candidate matched.
    pub fn position(&self) -> (position: Option<u32>)
        ensures
            position == (if self.match_count == 1 {
                Some(self.single_matched_position)
            } else {
                None
            }),
    {
        if self.match_count == 1 {
            Some(self.single_matched_position)
        } else {
            None
        }
    }
}

/// The range and the evidence of one snowball search.
#[derive(Clone)]
pub struct SnowballSearchParameters {
    pub search_range: u32,
    pub matching_snowballs: Vec<PointU32>,
}

/// The buffers of the snowball engine.
pub struct SnowballBuffers {
    pub return_val_buffer: GPUBufferInfo,
    pub snowball_data_buffer: GPUBufferInfo,
    pub match_positions_buffer: GPUBufferInfo,
}

/// The kernel of the snowball search: two buffers to read, one to write, one
/// block of uniform data, 64 threads to the group.
pub fn pipeline_info() -> (info: ComputePipelineInfo<'static>)
    ensures
        info.shader_name@ == "snowballs.comp"@,
        info.num_readonly_storage_buffers == 2,
        info.num_readwrite_storage_buffers == 1,
        info.num_uniform_buffers == 1,
        info.threadcount_x == 64,
        info.threadcount_y == 1,
        info.threadcount_z == 1,
{
    ComputePipelineInfo::with_buffers("snowballs.comp", 2, 1, 1)
}

/// The buffers of a snowball engine over `data_len` bytes of simulated positions:
/// sixteen bytes for the result, which the kernel writes, the positions, and room
/// for 32 candidate points.
pub fn plan_buffers(data_len: usize) -> (buffers: Result<SnowballBuffers, ComputeError>)
    ensures
        buffers is Ok <==> data_len <= 0xffff_fff0,
        buffers is Err ==> buffers->Err_0 == ComputeError::BufferTooLarge,
        buffers is Ok ==> {
            let b = buffers->Ok_0;
            &&& b.return_val_buffer.wf() && b.return_val_buffer.size() == 16
            &&& !b.return_val_buffer.allow_read() && b.return_val_buffer.allow_write()
            &&& b.snowball_data_buffer.wf() && b.snowball_data_buffer.size() == data_len
            &&& b.snowball_data_buffer.allow_read() && !b.snowball_data_buffer.allow_write()
            &&& b.match_positions_buffer.wf() && b.match_positions_buffer.size() == 128
            &&& b.match_positions_buffer.allow_read() && !b.match_positions_buffer.allow_write()
        },
{
    let return_val_buffer = match gpu_buffer_layout(RETURN_VALUE_BUFFER_SIZE, false, true) {
        Ok(info) => info,
        Err(e) => { return Err(e); },
    };
    let snowball_data_buffer = match gpu_buffer_layout(data_len, true, false) {
        Ok(info) => info,
        Err(e) => { return Err(e); },
    };
    let match_positions_buffer = match gpu_buffer_layout(MATCH_POINTS_BUFFER_SIZE, true, false) {
        Ok(info) => info,
        Err(e) => { return Err(e); },
    };
    Ok(SnowballBuffers { return_val_buffer, snowball_data_buffer, match_positions_buffer })
}

/// Why a request is refused before any device work, if it is.
pub open spec fn validation_error(params: &SnowballSearchParameters) -> Option<ComputeError> {
    if params.matching_snowballs@.len() == 0 {
        Some(ComputeError::NoMatchPoints)
    } else if params.matching_snowballs@.len() > 32 {
        Some(ComputeError::TooManyMatchPoints)
    } else {
        None
    }
}

/// All that one snowball search hands to the device.
pub struct SnowballSearchPlan {
    /// The bytes for the buffer of candidate points.
    pub match_positions: Vec<u8>,
    /// The bytes that clear the result buffer.
    pub return_value_clear: Vec<u8>,
    /// The uniform data.
    pub uniform_data: Vec<u8>,
    /// The number of thread groups in each dimension.
    pub groupcount_x: u32,
    pub groupcount_y: u32,
    pub groupcount_z: u32,
}

/// Turns a request into what the device is handed, or refuses it: a request takes
/// between 1 and 32 candidate points. The uniform data is the number of points. A
/// refused request gives nothing to dispatch.
pub fn plan_search(params: &SnowballSearchParameters) -> (planned: Result<
    SnowballSearchPlan,
    ComputeError,
>)
    ensures
        validation_error(params) is None <==> planned is Ok,
        planned is Err ==> Some(planned->Err_0) == validation_error(params),
        planned is Ok ==> {
            let plan = planned->Ok_0;
            &&& plan.match_positions@ == le_bytes_of(point_words(params.matching_snowballs@))
            &&& plan.match_positions@.len() <= 128
            &&& plan.return_value_clear@ == Seq::new(8, |i: int| 0u8)
            &&& plan.uniform_data@ == le_bytes_of(seq![params.matching_snowballs@.len() as u32])
            &&& plan.groupcount_x == (params.search_range + 63) / 64
            &&& plan.groupcount_y == 1
            &&& plan.groupcount_z == 1
        },
{
    if params.matching_snowballs.len() == 0 {
        return Err(ComputeError::NoMatchPoints);
    }
    if params.matching_snowballs.len() > 32 {
        return Err(ComputeError::TooManyMatchPoints);
    }
    let mut fields: Vec<u32> = Vec::new();
    fields.push(params.matching_snowballs.len() as u32);
    assert(fields@ =~= seq![params.matching_snowballs@.len() as u32]);
    Ok(
        SnowballSearchPlan {
            match_positions: points_to_bytes(&params.matching_snowballs),
            return_value_clear: zero_bytes(8),
            uniform_data: u32s_to_bytes(&fields),
            groupcount_x: group_count(params.search_range),
            groupcount_y: 1,
            groupcount_z: 1,
        },
    )
}

/// The number of result bytes that a snowball search reads back.
pub const SNOWBALL_RESULT_SIZE: usize = 8;

/// Reads the kernel's answer: the match count, then the matched position.
pub fn decode_result(bytes: &Vec<u8>) -> (result: SnowballSearchResult)
    requires
        bytes@.len() >= 8,
    ensures
        result.match_count == le_u32(bytes@, 0),
        result.single_matched_position == le_u32(bytes@, 4),
{
    SnowballSearchResult {
        match_count: read_u32(bytes, 0),
        single_matched_position: read_u32(bytes, 4),
    }
}

/// The result that is published for a search: what was found, or no match at all
/// where the search failed.
pub fn conclude(outcome: Result<SnowballSearchResult, ComputeError>) -> (result:
    SnowballSearchResult)
    ensures
        outcome is Ok ==> result == outcome->Ok_0,
        outcome is Err ==> result == (SnowballSearchResult {
            match_count: 0,
            single_matched_position: 0,
        }),
{
    match outcome {
        Ok(result) => result,
        Err(_) => SnowballSearchResult::new(),
    }
}

} // verus!
