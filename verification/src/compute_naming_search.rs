//! The pixel-pattern seed search: its parameters, the evidence packed into four
//! masks, what is sent to the kernel and how its answer is read.

use crate::compute_shaders::{
    gpu_buffer_layout, group_count, le_bytes_of, le_u32, read_u32, u32s_to_bytes, zero_bytes,
    ComputeError, ComputePipelineInfo, GPUBufferInfo, RETURN_VALUE_BUFFER_SIZE,
};
use vstd::prelude::*;

verus! {

/// What a seed search found: how many seeds matched and, where it was one, the
/// seed and its stream position.
#[derive(Clone, Copy, Debug, PartialEq, Eq, Structural)]
pub struct NamingSearchResult {
    pub match_count: u32,
    pub single_matched_seed: u32,
    pub single_matched_position: u32,
}

impl NamingSearchResult {
    /// The seed and the position of the match, where exactly one seed matched.
    pub fn matched(&self) -> (found: Option<(u32, u32)>)
        ensures
            found == (if self.match_count == 1 {
                Some((self.single_matched_seed, self.single_matched_position))
            } else {
                None
            }),
    {
        if self.match_count == 1 {
            Some((self.single_matched_seed, self.single_matched_position))
        } else {
            None
        }
    }
}

/// The generator's mode, the range and the evidence of one seed search.
#[derive(Clone)]
pub struct NamingSearchParameters {
    pub rng_15bit: bool,
    pub rng_signed: bool,
    pub rng_old_poly: bool,
    pub search_range: u32,
    pub matching_pixels: Vec<bool>,
}

/// The number of pixels of evidence.
pub const NAMING_PIXEL_COUNT: usize = 104;

/// The buffers of the seed search engine.
pub struct NamingBuffers {
    pub return_val_buffer: GPUBufferInfo,
    pub rng_seeds_buffer: GPUBufferInfo,
}

/// The kernel of the seed search: one buffer to read, one to write, one block of
/// uniform data, 64 threads to the group.
pub fn pipeline_info() -> (info: ComputePipelineInfo<'static>)
    ensures
        info.shader_name@ == "naming.comp"@,
        info.num_readonly_storage_buffers == 1,
        info.num_readwrite_storage_buffers == 1,
        info.num_uniform_buffers == 1,
        info.threadcount_x == 64,
        info.threadcount_y == 1,
        info.threadcount_z == 1,
{
    ComputePipelineInfo::with_buffers("naming.comp", 1, 1, 1)
}

/// The buffers of a seed search engine over `seed_count` seeds: sixteen bytes for
/// the result, which the kernel writes, and four bytes for each seed.
pub fn plan_buffers(seed_count: usize) -> (buffers: Result<NamingBuffers, ComputeError>)
    ensures
        buffers is Ok <==> seed_count * 4 <= 0xffff_fff0,
        buffers is Err ==> buffers->Err_0 == ComputeError::BufferTooLarge,
        buffers is Ok ==> {
            let b = buffers->Ok_0;
            &&& b.return_val_buffer.wf() && b.return_val_buffer.size() == 16
            &&& !b.return_val_buffer.allow_read() && b.return_val_buffer.allow_write()
            &&& b.rng_seeds_buffer.wf() && b.rng_seeds_buffer.size() == seed_count * 4
            &&& b.rng_seeds_buffer.allow_read() && !b.rng_seeds_buffer.allow_write()
        },
{
    if seed_count > 0x3fff_fffc {
        return Err(ComputeError::BufferTooLarge);
    }
    let return_val_buffer = match gpu_buffer_layout(RETURN_VALUE_BUFFER_SIZE, false, true) {
        Ok(info) => info,
        Err(e) => { return Err(e); },
    };
    let rng_seeds_buffer = match gpu_buffer_layout(seed_count * 4, true, false) {
        Ok(info) => info,
        Err(e) => { return Err(e); },
    };
    Ok(NamingBuffers { return_val_buffer, rng_seeds_buffer })
}

/// The mask of `count` pixels from `start` on: the first of them is bit `top`, each
/// following one the next lower bit. A bit is set where the pixel is.
pub open spec fn pixel_mask(pixels: Seq<bool>, start: int, count: nat, top: nat) -> u32
    decreases count,
{
    if count == 0 {
        0
    } else {
        let rest = pixel_mask(pixels, start, (count - 1) as nat, top);
        if pixels[start + count - 1] {
            rest | (1u32 << ((top - (count - 1)) as u32))
        } else {
            rest
        }
    }
}

/// Where no pixel of a range is set, its mask is zero.
pub proof fn lemma_mask_of_unset(pixels: Seq<bool>, start: int, count: nat, top: nat)
    requires
        forall|i: int| start <= i < start + count ==> !pixels[i],
    ensures
        pixel_mask(pixels, start, count, top) == 0,
    decreases count,
{
    if count > 0 {
        lemma_mask_of_unset(pixels, start, (count - 1) as nat, top);
    }
}

/// Packs `count` pixels from `start` on into a mask whose highest used bit is `top`.
fn pack_pixels(pixels: &Vec<bool>, start: usize, count: usize, top: u32) -> (mask: u32)
    requires
        start + count <= pixels@.len(),
        count <= top + 1,
        top < 32,
    ensures
        mask == pixel_mask(pixels@, start as int, count as nat, top as nat),
{
    let mut mask: u32 = 0;
    let len = pixels.len();
    for i in 0..count
        invariant
            len == pixels@.len(),
            start + count <= pixels@.len(),
            count <= top + 1,
            top < 32,
            mask == pixel_mask(pixels@, start as int, i as nat, top as nat),
    {
        if pixels[start + i] {
            mask |= 1u32 << (top - i as u32);
        }
    }
    mask
}

/// The flags of the generator's mode: bit 0 for the 15-bit mode, bit 1 for the
/// signed mode, bit 2 for the legacy polynomial.
pub open spec fn random_flags(rng_15bit: bool, rng_signed: bool, rng_old_poly: bool) -> u32 {
    ((if rng_15bit { 1int } else { 0int }) + (if rng_signed { 2int } else { 0int }) + (if rng_old_poly {
        4int
    } else {
        0int
    })) as u32
}

/// The uniform fields of a request, in the order in which the kernel reads them:
/// the mode's flags, the range, then the masks of the pixels 72 to 103, 40 to 71,
/// 8 to 39 and 0 to 7.
pub open spec fn uniform_fields(params: &NamingSearchParameters) -> Seq<u32> {
    seq![
        random_flags(params.rng_15bit, params.rng_signed, params.rng_old_poly),
        params.search_range,
        pixel_mask(params.matching_pixels@, 72, 32, 31),
        pixel_mask(params.matching_pixels@, 40, 32, 31),
        pixel_mask(params.matching_pixels@, 8, 32, 31),
        pixel_mask(params.matching_pixels@, 0, 8, 7),
    ]
}

/// All that one seed search hands to the device.
pub struct NamingSearchPlan {
    /// The bytes that clear the result buffer.
    pub return_value_clear: Vec<u8>,
    /// The uniform data.
    pub uniform_data: Vec<u8>,
    /// The number of thread groups in each dimension.
    pub groupcount_x: u32,
    pub groupcount_y: u32,
    pub groupcount_z: u32,
}

/// Turns a request into what the device is handed: one thread for each of the
/// `seed_count` seeds. A request without exactly 104 pixels is refused, and gives
/// nothing to dispatch.
pub fn plan_search(params: &NamingSearchParameters, seed_count: u32) -> (planned: Result<
    NamingSearchPlan,
    ComputeError,
>)
    ensures
        planned is Ok <==> params.matching_pixels@.len() == 104,
        planned is Err ==> planned->Err_0 == ComputeError::WrongPixelCount,
        planned is Ok ==> {
            let plan = planned->Ok_0;
            &&& plan.return_value_clear@ == Seq::new(12, |i: int| 0u8)
            &&& plan.uniform_data@ == le_bytes_of(uniform_fields(params))
            &&& plan.groupcount_x == (seed_count + 63) / 64
            &&& plan.groupcount_y == 1
            &&& plan.groupcount_z == 1
        },
{
    if params.matching_pixels.len() != NAMING_PIXEL_COUNT {
        return Err(ComputeError::WrongPixelCount);
    }
    let match4 = pack_pixels(&params.matching_pixels, 0, 8, 7);
    let match3 = pack_pixels(&params.matching_pixels, 8, 32, 31);
    let match2 = pack_pixels(&params.matching_pixels, 40, 32, 31);
    let match1 = pack_pixels(&params.matching_pixels, 72, 32, 31);
    let mut flags: u32 = 0;
    if params.rng_15bit {
        flags = flags + 1;
    }
    if params.rng_signed {
        flags = flags + 2;
    }
    if params.rng_old_poly {
        flags = flags + 4;
    }
    let mut fields: Vec<u32> = Vec::new();
    fields.push(flags);
    fields.push(params.search_range);
    fields.push(match1);
    fields.push(match2);
    fields.push(match3);
    fields.push(match4);
    assert(fields@ =~= uniform_fields(params));
    Ok(
        NamingSearchPlan {
            return_value_clear: zero_bytes(12),
            uniform_data: u32s_to_bytes(&fields),
            groupcount_x: group_count(seed_count),
            groupcount_y: 1,
            groupcount_z: 1,
        },
    )
}

/// The number of result bytes that a seed search reads back.
pub const NAMING_RESULT_SIZE: usize = 12;

/// Reads the kernel's answer: the match count, the matched seed, the matched
/// position.
pub fn decode_result(bytes: &Vec<u8>) -> (result: NamingSearchResult)
    requires
        bytes@.len() >= 12,
    ensures
        result.match_count == le_u32(bytes@, 0),
        result.single_matched_seed == le_u32(bytes@, 4),
        result.single_matched_position == le_u32(bytes@, 8),
{
    NamingSearchResult {
        match_count: read_u32(bytes, 0),
        single_matched_seed: read_u32(bytes, 4),
        single_matched_position: read_u32(bytes, 8),
    }
}

/// The result that is published for a search: what was found, or no match at all
/// where the search failed.
pub fn conclude(outcome: Result<NamingSearchResult, ComputeError>) -> (result: NamingSearchResult)
    ensures
        outcome is Ok ==> result == outcome->Ok_0,
        outcome is Err ==> result == (NamingSearchResult {
            match_count: 0,
            single_matched_seed: 0,
            single_matched_position: 0,
        }),
{
    match outcome {
        Ok(result) => result,
        Err(_) => NamingSearchResult {
            match_count: 0,
            single_matched_seed: 0,
            single_matched_position: 0,
        },
    }
}

/// Evidence in which no pixel is set is sent as four masks of zero.
pub proof fn lemma_unset_evidence(params: &NamingSearchParameters)
    requires
        params.matching_pixels@.len() == 104,
        forall|i: int| 0 <= i < 104 ==> !params.matching_pixels@[i],
    ensures
        uniform_fields(params) == seq![
            random_flags(params.rng_15bit, params.rng_signed, params.rng_old_poly),
            params.search_range,
            0u32,
            0u32,
            0u32,
            0u32,
        ],
{
    lemma_mask_of_unset(params.matching_pixels@, 72, 32, 31);
    lemma_mask_of_unset(params.matching_pixels@, 40, 32, 31);
    lemma_mask_of_unset(params.matching_pixels@, 8, 32, 31);
    lemma_mask_of_unset(params.matching_pixels@, 0, 8, 7);
}

} // verus!
