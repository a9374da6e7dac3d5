//! What the compute backend decides before it touches a device: kernel
//! descriptions, buffer sizes, transfer checks, the byte layout of what is sent,
//! and candidate points packed into one word.

use vstd::prelude::*;
use vstd::string::StringExecFns;

verus! {

/// Why a backend operation or a search did not go through.
#[derive(Clone, Copy, Debug, PartialEq, Eq, Structural)]
pub enum ComputeError {
    DeviceCreation,
    UnknownShaderFormat,
    ShaderFileRead,
    PipelineCreation,
    CommandBufferAcquire,
    CommandBufferSubmit,
    BufferTooLarge,
    BufferCreation,
    CopyPassBegin,
    UploadTooLarge,
    TransferBufferCreation,
    TransferBufferMap,
    DownloadTooLarge,
    ComputePassBegin,
    PreloadUnsuccessful,
    SearchUnsuccessful,
    NoMatchPoints,
    TooManyMatchPoints,
    NoInitialParticles,
    TooManyInitialParticles,
    FrameCountMismatch,
    WrongPixelCount,
}

impl ComputeError {
    /// The message shown for the failure.
    pub fn message(&self) -> (text: &'static str)
        ensures
            text@ == Self::message_text(*self),
    {
        match self {
            ComputeError::DeviceCreation => "Failed to create GPU device",
            ComputeError::UnknownShaderFormat => "Unknown shader format",
            ComputeError::ShaderFileRead => "Failed to read compiled shader file",
            ComputeError::PipelineCreation => "Failed to create compute pipeline",
            ComputeError::CommandBufferAcquire => "Failed to acquire GPU command buffer",
            ComputeError::CommandBufferSubmit => "Failed to submit command buffer and acquire fence",
            ComputeError::BufferTooLarge => "Buffer size is larger than maximum 32-bit integer",
            ComputeError::BufferCreation => "Failed to create GPU buffer",
            ComputeError::CopyPassBegin => "Failed to begin copy pass",
            ComputeError::UploadTooLarge => "Too much data being uploaded to buffer",
            ComputeError::TransferBufferCreation => "Failed to create transfer buffer",
            ComputeError::TransferBufferMap => "Failed to map GPU transfer buffer to application address space",
            ComputeError::DownloadTooLarge => "Too much data being downloaded from buffer",
            ComputeError::ComputePassBegin => "Failed to begin compute pass",
            ComputeError::PreloadUnsuccessful => "Preload command buffer was unsuccessful",
            ComputeError::SearchUnsuccessful => "Search command buffer was unsuccessful",
            ComputeError::NoMatchPoints => "No match points",
            ComputeError::TooManyMatchPoints => "Too many match points (max is 32)",
            ComputeError::NoInitialParticles => "No initial particles",
            ComputeError::TooManyInitialParticles => "Too many initial particles (max is 32)",
            ComputeError::FrameCountMismatch => "Frame particle counts don't sum to total",
            ComputeError::WrongPixelCount => "Expected 104 matching pixels",
        }
    }

    /// The message of each failure.
    pub open spec fn message_text(error: ComputeError) -> Seq<char> {
        match error {
            ComputeError::DeviceCreation => "Failed to create GPU device"@,
            ComputeError::UnknownShaderFormat => "Unknown shader format"@,
            ComputeError::ShaderFileRead => "Failed to read compiled shader file"@,
            ComputeError::PipelineCreation => "Failed to create compute pipeline"@,
            ComputeError::CommandBufferAcquire => "Failed to acquire GPU command buffer"@,
            ComputeError::CommandBufferSubmit => "Failed to submit command buffer and acquire fence"@,
            ComputeError::BufferTooLarge => "Buffer size is larger than maximum 32-bit integer"@,
            ComputeError::BufferCreation => "Failed to create GPU buffer"@,
            ComputeError::CopyPassBegin => "Failed to begin copy pass"@,
            ComputeError::UploadTooLarge => "Too much data being uploaded to buffer"@,
            ComputeError::TransferBufferCreation => "Failed to create transfer buffer"@,
            ComputeError::TransferBufferMap => "Failed to map GPU transfer buffer to application address space"@,
            ComputeError::DownloadTooLarge => "Too much data being downloaded from buffer"@,
            ComputeError::ComputePassBegin => "Failed to begin compute pass"@,
            ComputeError::PreloadUnsuccessful => "Preload command buffer was unsuccessful"@,
            ComputeError::SearchUnsuccessful => "Search command buffer was unsuccessful"@,
            ComputeError::NoMatchPoints => "No match points"@,
            ComputeError::TooManyMatchPoints => "Too many match points (max is 32)"@,
            ComputeError::NoInitialParticles => "No initial particles"@,
            ComputeError::TooManyInitialParticles => "Too many initial particles (max is 32)"@,
            ComputeError::FrameCountMismatch => "Frame particle counts don't sum to total"@,
            ComputeError::WrongPixelCount => "Expected 104 matching pixels"@,
        }
    }
}

/// What a kernel declares: its name, its buffers and the shape of one thread group.
pub struct ComputePipelineInfo<'a> {
    pub shader_name: &'a str,
    pub num_readwrite_storage_buffers: u32,
    pub num_readonly_storage_buffers: u32,
    pub num_uniform_buffers: u32,
    pub threadcount_x: u32,
    pub threadcount_y: u32,
    pub threadcount_z: u32,
}

impl<'a> ComputePipelineInfo<'a> {
    /// The description of a kernel named `shader_name` with the given buffer counts
    /// and a thread group of 64 by 1 by 1.
    pub fn with_buffers(
        shader_name: &'a str,
        num_readonly_storage_buffers: u32,
        num_readwrite_storage_buffers: u32,
        num_uniform_buffers: u32,
    ) -> (info: ComputePipelineInfo<'a>)
        ensures
            info.shader_name@ == shader_name@,
            info.num_readonly_storage_buffers == num_readonly_storage_buffers,
            info.num_readwrite_storage_buffers == num_readwrite_storage_buffers,
            info.num_uniform_buffers == num_uniform_buffers,
            info.threadcount_x == 64,
            info.threadcount_y == 1,
            info.threadcount_z == 1,
    {
        ComputePipelineInfo {
            shader_name,
            num_readwrite_storage_buffers,
            num_readonly_storage_buffers,
            num_uniform_buffers,
            threadcount_x: 64,
            threadcount_y: 1,
            threadcount_z: 1,
        }
    }

    /// The number of threads in one thread group.
    pub open spec fn threads_per_group(&self) -> int {
        self.threadcount_x * self.threadcount_y * self.threadcount_z
    }
}

impl<'a> Default for ComputePipelineInfo<'a> {
    fn default() -> (info: Self)
        ensures
            info.shader_name@ == Seq::<char>::empty(),
            info.num_readwrite_storage_buffers == 0,
            info.num_readonly_storage_buffers == 0,
            info.num_uniform_buffers == 0,
            info.threadcount_x == 64,
            info.threadcount_y == 1,
            info.threadcount_z == 1,
    {
        proof {
            reveal_strlit("");
        }
        let info = ComputePipelineInfo {
            shader_name: "",
            num_readwrite_storage_buffers: 0,
            num_readonly_storage_buffers: 0,
            num_uniform_buffers: 0,
            threadcount_x: 64,
            threadcount_y: 1,
            threadcount_z: 1,
        };
        assert(info.shader_name@ =~= Seq::<char>::empty());
        info
    }
}

/// The formats in which kernels are shipped.
#[derive(Clone, Copy, Debug, PartialEq, Eq, Structural)]
pub enum ShaderFormat {
    SpirV,
    Msl,
    Dxil,
}

/// Chooses the kernel format among those that the device accepts: SPIR-V before
/// MSL before DXIL.
pub fn select_shader_format(spirv: bool, msl: bool, dxil: bool) -> (chosen: Result<
    ShaderFormat,
    ComputeError,
>)
    ensures
        spirv ==> chosen == Ok::<ShaderFormat, ComputeError>(ShaderFormat::SpirV),
        !spirv && msl ==> chosen == Ok::<ShaderFormat, ComputeError>(ShaderFormat::Msl),
        !spirv && !msl && dxil ==> chosen == Ok::<ShaderFormat, ComputeError>(ShaderFormat::Dxil),
        !spirv && !msl && !dxil ==> chosen == Err::<ShaderFormat, ComputeError>(
            ComputeError::UnknownShaderFormat,
        ),
{
    if spirv {
        Ok(ShaderFormat::SpirV)
    } else if msl {
        Ok(ShaderFormat::Msl)
    } else if dxil {
        Ok(ShaderFormat::Dxil)
    } else {
        Err(ComputeError::UnknownShaderFormat)
    }
}

impl ShaderFormat {
    /// The directory of the format's kernels.
    pub open spec fn directory(self) -> Seq<char> {
        match self {
            ShaderFormat::SpirV => "./compiled_shaders/spirv/"@,
            ShaderFormat::Msl => "./compiled_shaders/msl/"@,
            ShaderFormat::Dxil => "./compiled_shaders/dxil/"@,
        }
    }

    /// The file extension of the format's kernels.
    pub open spec fn extension(self) -> Seq<char> {
        match self {
            ShaderFormat::SpirV => ".spv"@,
            ShaderFormat::Msl => ".msl"@,
            ShaderFormat::Dxil => ".dxil"@,
        }
    }

    /// The name of the function at which a kernel of the format starts.
    pub fn entrypoint(&self) -> (name: &'static str)
        ensures
            name@ == (match *self {
                ShaderFormat::SpirV => "main"@,
                ShaderFormat::Msl => "main0"@,
                ShaderFormat::Dxil => "main"@,
            }),
    {
        match self {
            ShaderFormat::SpirV => "main",
            ShaderFormat::Msl => "main0",
            ShaderFormat::Dxil => "main",
        }
    }

    /// The path of the kernel `shader_name` in this format, relative to the program's
    /// directory: the format's directory, the name, the format's extension.
    pub fn shader_path(&self, shader_name: &str) -> (path: String)
        ensures
            path@ == self.directory() + shader_name@ + self.extension(),
    {
        let mut path = match self {
            ShaderFormat::SpirV => String::from_str("./compiled_shaders/spirv/"),
            ShaderFormat::Msl => String::from_str("./compiled_shaders/msl/"),
            ShaderFormat::Dxil => String::from_str("./compiled_shaders/dxil/"),
        };
        path.append(shader_name);
        match self {
            ShaderFormat::SpirV => path.append(".spv"),
            ShaderFormat::Msl => path.append(".msl"),
            ShaderFormat::Dxil => path.append(".dxil"),
        }
        path
    }
}

/// Whether `value` is a power of two.
pub open spec fn is_power_of_two(value: usize) -> bool {
    value > 0 && value & ((value - 1) as usize) == 0
}

/// A value without any of the bits below a power of two is a multiple of it.
pub proof fn lemma_masked_is_multiple(value: usize, multiple: usize)
    requires
        is_power_of_two(multiple),
        value & ((multiple - 1) as usize) == 0,
    ensures
        value % multiple == 0,
    decreases multiple,
{
    if multiple > 1 {
        let half: usize = multiple / 2;
        let rest: usize = value / 2;
        assert(multiple == 2 * half && half > 0 && half & ((half - 1) as usize) == 0)
            by (bit_vector)
            requires
                multiple > 1,
                multiple & ((multiple - 1) as usize) == 0,
                half == multiple / 2,
        ;
        assert(value == 2 * rest && rest & ((half - 1) as usize) == 0) by (bit_vector)
            requires
                multiple > 1,
                multiple & ((multiple - 1) as usize) == 0,
                value & ((multiple - 1) as usize) == 0,
                half == multiple / 2,
                rest == value / 2,
        ;
        lemma_masked_is_multiple(rest, half);
        let count = rest as int / half as int;
        vstd::arithmetic::div_mod::lemma_fundamental_div_mod(rest as int, half as int);
        assert(value == count * multiple) by (nonlinear_arith)
            requires
                value == 2 * rest,
                multiple == 2 * half,
                rest == half * count,
        ;
        vstd::arithmetic::div_mod::lemma_mod_multiples_basic(count, multiple as int);
    }
}

/// The smallest multiple of `multiple`, a power of two, that is not below `num`.
pub fn round_up_power_of_two(num: usize, multiple: usize) -> (rounded: usize)
    requires
        is_power_of_two(multiple),
        num + multiple - 1 <= usize::MAX,
    ensures
        num <= rounded < num + multiple,
        rounded % multiple == 0,
{
    let mask: usize = multiple - 1;
    let sum: usize = num + mask;
    let rounded = sum & !mask;
    assert(rounded <= sum && sum - rounded <= mask && rounded & mask == 0) by (bit_vector)
        requires
            rounded == sum & !mask,
    ;
    proof {
        lemma_masked_is_multiple(rounded, multiple);
    }
    rounded
}

/// The alignment of device buffers, in bytes.
pub const BUFFER_ALIGNMENT: usize = 16;

/// The sizes and the usage of one device buffer.
#[derive(Clone, Copy, Debug, PartialEq, Eq, Structural)]
pub struct GPUBufferInfo {
    size: u32,
    rounded_size: u32,
    allow_read: bool,
    allow_write: bool,
}

impl GPUBufferInfo {
    /// The size that was asked for, in bytes.
    pub closed spec fn spec_size(&self) -> u32 {
        self.size
    }

    /// The size that is allocated: `size` rounded up to the alignment.
    pub closed spec fn spec_rounded_size(&self) -> u32 {
        self.rounded_size
    }

    /// Whether kernels may read the buffer.
    pub closed spec fn spec_allow_read(&self) -> bool {
        self.allow_read
    }

    /// Whether kernels may write the buffer.
    pub closed spec fn spec_allow_write(&self) -> bool {
        self.allow_write
    }

    /// The allocated size holds the size asked for, is aligned, and wastes less than
    /// one alignment unit.
    pub open spec fn wf(&self) -> bool {
        &&& self.spec_size() <= self.spec_rounded_size() < self.spec_size() + 16
        &&& self.spec_rounded_size() % 16 == 0
    }

    #[verifier::when_used_as_spec(spec_size)]
    pub fn size(&self) -> (size: u32)
        ensures
            size == self.spec_size(),
    {
        self.size
    }

    #[verifier::when_used_as_spec(spec_rounded_size)]
    pub fn rounded_size(&self) -> (rounded_size: u32)
        ensures
            rounded_size == self.spec_rounded_size(),
    {
        self.rounded_size
    }

    #[verifier::when_used_as_spec(spec_allow_read)]
    pub fn allow_read(&self) -> (allow_read: bool)
        ensures
            allow_read == self.spec_allow_read(),
    {
        self.allow_read
    }

    #[verifier::when_used_as_spec(spec_allow_write)]
    pub fn allow_write(&self) -> (allow_write: bool)
        ensures
            allow_write == self.spec_allow_write(),
    {
        self.allow_write
    }

    /// Whether `len` bytes may be uploaded to the buffer: at most its size.
    pub fn check_upload(&self, len: usize) -> (checked: Result<(), ComputeError>)
        ensures
            len <= self.size() ==> checked == Ok::<(), ComputeError>(()),
            len > self.size() ==> checked == Err::<(), ComputeError>(ComputeError::UploadTooLarge),
    {
        if len > self.size as usize {
            Err(ComputeError::UploadTooLarge)
        } else {
            Ok(())
        }
    }

    /// Whether `count` 32-bit words may be uploaded to the buffer: at most its size
    /// in bytes.
    pub fn check_upload_u32(&self, count: usize) -> (checked: Result<(), ComputeError>)
        ensures
            count * 4 <= self.size() ==> checked == Ok::<(), ComputeError>(()),
            count * 4 > self.size() ==> checked == Err::<(), ComputeError>(
                ComputeError::UploadTooLarge,
            ),
    {
        if count > (self.size / 4) as usize {
            Err(ComputeError::UploadTooLarge)
        } else {
            Ok(())
        }
    }

    /// Whether `len` bytes may be downloaded from the buffer: at most its size.
    pub fn check_download(&self, len: usize) -> (checked: Result<(), ComputeError>)
        ensures
            len <= self.size() ==> checked == Ok::<(), ComputeError>(()),
            len > self.size() ==> checked == Err::<(), ComputeError>(
                ComputeError::DownloadTooLarge,
            ),
    {
        if len > self.size as usize {
            Err(ComputeError::DownloadTooLarge)
        } else {
            Ok(())
        }
    }
}

/// The sizes of a device buffer of `size` bytes: the size rounded up to sixteen
/// bytes is what gets allocated. A rounded size beyond 32 bits is refused.
pub fn gpu_buffer_layout(size: usize, allow_read: bool, allow_write: bool) -> (layout: Result<
    GPUBufferInfo,
    ComputeError,
>)
    ensures
        layout is Ok <==> size <= 0xffff_fff0,
        layout is Ok ==> {
            let info = layout->Ok_0;
            &&& info.wf()
            &&& info.size() == size
            &&& info.allow_read() == allow_read
            &&& info.allow_write() == allow_write
        },
        layout is Err ==> layout == Err::<GPUBufferInfo, ComputeError>(
            ComputeError::BufferTooLarge,
        ),
{
    if size > 0xffff_fff0 {
        return Err(ComputeError::BufferTooLarge);
    }
    assert(is_power_of_two(16)) by {
        assert(16usize & 15usize == 0) by (bit_vector);
    }
    let rounded_size = round_up_power_of_two(size, BUFFER_ALIGNMENT);
    Ok(
        GPUBufferInfo {
            size: size as u32,
            rounded_size: rounded_size as u32,
            allow_read,
            allow_write,
        },
    )
}

/// The number of thread groups of 64 threads that cover `search_range` candidates.
pub fn group_count(search_range: u32) -> (groups: u32)
    ensures
        groups == (search_range + 63) / 64,
        groups * 64 >= search_range,
        groups * 64 < search_range + 64,
{
    let groups = search_range / 64;
    if search_range % 64 != 0 {
        groups + 1
    } else {
        groups
    }
}

/// The four bytes of `value`, lowest first.
pub open spec fn le_bytes(value: u32) -> Seq<u8> {
    seq![
        (value % 0x100) as u8,
        ((value / 0x100) % 0x100) as u8,
        ((value / 0x1_0000) % 0x100) as u8,
        (value / 0x100_0000) as u8,
    ]
}

/// The value whose four bytes, lowest first, stand at `offset` in `bytes`.
pub open spec fn le_u32(bytes: Seq<u8>, offset: int) -> u32 {
    (bytes[offset] + bytes[offset + 1] * 0x100 + bytes[offset + 2] * 0x1_0000 + bytes[offset + 3]
        * 0x100_0000) as u32
}

/// The bytes of all of `values`, one word after the other.
pub open spec fn le_bytes_of(values: Seq<u32>) -> Seq<u8>
    decreases values.len(),
{
    if values.len() == 0 {
        Seq::empty()
    } else {
        le_bytes_of(values.drop_last()) + le_bytes(values.last())
    }
}

/// Reading back the bytes of a word gives the word.
pub proof fn lemma_le_round_trip(value: u32)
    ensures
        le_bytes(value).len() == 4,
        le_u32(le_bytes(value), 0) == value,
{
}

/// The bytes of `n` words are `4 * n` bytes, and the word at index `i` stands at
/// offset `4 * i`.
pub proof fn lemma_le_bytes_of(values: Seq<u32>)
    ensures
        le_bytes_of(values).len() == 4 * values.len(),
        forall|i: int|
            0 <= i < values.len() ==> le_u32(le_bytes_of(values), 4 * i) == #[trigger] values[i],
    decreases values.len(),
{
    if values.len() > 0 {
        lemma_le_bytes_of(values.drop_last());
        lemma_le_round_trip(values.last());
        assert forall|i: int| 0 <= i < values.len() implies le_u32(le_bytes_of(values), 4 * i)
            == #[trigger] values[i] by {
            if i < values.len() - 1 {
                assert(values.drop_last()[i] == values[i]);
            }
        }
    }
}

/// Appends the four bytes of `value` to `out`, lowest first.
pub fn push_u32(out: &mut Vec<u8>, value: u32)
    ensures
        final(out)@ == old(out)@ + le_bytes(value),
{
    let b0 = (value & 0xff) as u8;
    let b1 = ((value >> 8) & 0xff) as u8;
    let b2 = ((value >> 16) & 0xff) as u8;
    let b3 = ((value >> 24) & 0xff) as u8;
    assert(value & 0xff == value % 0x100 && (value >> 8u32) & 0xff == (value / 0x100) % 0x100 && (
    value >> 16u32) & 0xff == (value / 0x1_0000) % 0x100 && (value >> 24u32) & 0xff == value
        / 0x100_0000) by (bit_vector);
    out.push(b0);
    out.push(b1);
    out.push(b2);
    out.push(b3);
    assert(out@ =~= old(out)@ + le_bytes(value));
}

/// The bytes of `values`, one word after the other, lowest byte first.
pub fn u32s_to_bytes(values: &Vec<u32>) -> (bytes: Vec<u8>)
    ensures
        bytes@ == le_bytes_of(values@),
{
    let mut bytes: Vec<u8> = Vec::new();
    for i in 0..values.len()
        invariant
            bytes@ == le_bytes_of(values@.subrange(0, i as int)),
    {
        push_u32(&mut bytes, values[i]);
        assert(values@.subrange(0, i + 1).drop_last() =~= values@.subrange(0, i as int));
    }
    assert(values@.subrange(0, values.len() as int) =~= values@);
    bytes
}

/// Reads the word whose bytes stand at `offset` in `bytes`, lowest first.
pub fn read_u32(bytes: &Vec<u8>, offset: usize) -> (value: u32)
    requires
        offset + 4 <= bytes@.len(),
    ensures
        value == le_u32(bytes@, offset as int),
{
    assert(bytes@.len() == bytes.len());
    let b0 = bytes[offset] as u32;
    let b1 = bytes[offset + 1] as u32;
    let b2 = bytes[offset + 2] as u32;
    let b3 = bytes[offset + 3] as u32;
    let value = b0 | (b1 << 8) | (b2 << 16) | (b3 << 24);
    assert(value == b0 + b1 * 0x100 + b2 * 0x1_0000 + b3 * 0x100_0000) by (bit_vector)
        requires
            value == b0 | (b1 << 8u32) | (b2 << 16u32) | (b3 << 24u32),
            b0 < 0x100,
            b1 < 0x100,
            b2 < 0x100,
            b3 < 0x100,
    ;
    value
}

/// A signed 16-bit point packed into one word: `x` in the upper half, `y` in the
/// lower.
#[derive(Clone, Copy, Debug, PartialEq, Eq, Structural)]
pub struct PointU32 {
    value: u32,
}

impl View for PointU32 {
    type V = u32;

    closed spec fn view(&self) -> u32 {
        self.value
    }
}

impl PointU32 {
    /// The word that holds the 16 bits of `x` above the 16 bits of `y`.
    pub open spec fn pack(x: i16, y: i16) -> u32 {
        (((x as u32) & 0xffff) << 16u32) | ((y as u32) & 0xffff)
    }

    /// The upper half of `value`, read as a signed number.
    pub open spec fn unpack_x(value: u32) -> i16 {
        ((value & 0xffff_0000) >> 16u32) as i16
    }

    /// The lower half of `value`, read as a signed number.
    pub open spec fn unpack_y(value: u32) -> i16 {
        (value & 0xffff) as i16
    }

    pub fn new(x: i16, y: i16) -> (point: Self)
        ensures
            point@ == Self::pack(x, y),
            Self::unpack_x(point@) == x,
            Self::unpack_y(point@) == y,
    {
        proof {
            lemma_pack_round_trip(x, y);
        }
        PointU32 {
            value: (((#[verifier::truncate] (x as u32)) & 0xffff) << 16) | ((
            #[verifier::truncate] (y as u32)) & 0xffff),
        }
    }

    pub fn x(&self) -> (x: i16)
        ensures
            x == Self::unpack_x(self@),
    {
        #[verifier::truncate]
        (((self.value & 0xffff0000) >> 16) as i16)
    }

    pub fn y(&self) -> (y: i16)
        ensures
            y == Self::unpack_y(self@),
    {
        #[verifier::truncate]
        ((self.value & 0xffff) as i16)
    }

    /// The packed word.
    pub fn value(&self) -> (value: u32)
        ensures
            value == self@,
    {
        self.value
    }
}

/// Unpacking a packed point gives the coordinates that were packed.
pub proof fn lemma_pack_round_trip(x: i16, y: i16)
    ensures
        PointU32::unpack_x(PointU32::pack(x, y)) == x,
        PointU32::unpack_y(PointU32::pack(x, y)) == y,
{
    assert(((((((x as u32) & 0xffff) << 16u32) | ((y as u32) & 0xffff)) & 0xffff_0000) >> 16u32)
        as i16 == x) by (bit_vector);
    assert((((((x as u32) & 0xffff) << 16u32) | ((y as u32) & 0xffff)) & 0xffff) as i16 == y)
        by (bit_vector);
}

/// The packed words of `points`, in order.
pub open spec fn point_words(points: Seq<PointU32>) -> Seq<u32> {
    points.map_values(|p: PointU32| p@)
}

/// The bytes of `points` as they are uploaded: each packed word, lowest byte first.
pub fn points_to_bytes(points: &Vec<PointU32>) -> (bytes: Vec<u8>)
    ensures
        bytes@ == le_bytes_of(point_words(points@)),
        bytes@.len() == 4 * points@.len(),
{
    let mut bytes: Vec<u8> = Vec::new();
    for i in 0..points.len()
        invariant
            bytes@ == le_bytes_of(point_words(points@.subrange(0, i as int))),
    {
        push_u32(&mut bytes, points[i].value());
        assert(point_words(points@.subrange(0, i + 1)).drop_last() =~= point_words(
            points@.subrange(0, i as int),
        ));
    }
    assert(points@.subrange(0, points.len() as int) =~= points@);
    proof {
        lemma_le_bytes_of(point_words(points@));
    }
    bytes
}


/// `len` bytes of zero.
pub fn zero_bytes(len: usize) -> (bytes: Vec<u8>)
    ensures
        bytes@ == Seq::new(len as nat, |i: int| 0u8),
{
    let mut bytes: Vec<u8> = Vec::new();
    for i in 0..len
        invariant
            bytes@ == Seq::new(i as nat, |j: int| 0u8),
    {
        bytes.push(0);
        assert(bytes@ =~= Seq::new((i + 1) as nat, |j: int| 0u8));
    }
    bytes
}

/// The size of the buffer that a kernel writes its result to, in bytes.
pub const RETURN_VALUE_BUFFER_SIZE: usize = 16;

/// The most candidate points that one search takes.
pub const MAX_MATCH_POINTS: usize = 32;

/// The size of a buffer of candidate points, in bytes.
pub const MATCH_POINTS_BUFFER_SIZE: usize = 128;

} // verus!
