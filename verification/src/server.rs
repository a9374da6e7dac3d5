//! What the screenshot server decides: how a message header is read, which
//! message it announces, which screenshots are taken, and what is sent back.
//! Screenshots themselves are compared and sampled here.

use crate::compute_shaders::{le_u32, read_u32};
use vstd::prelude::*;

verus! {

/// The size of a message header, in bytes.
pub const MESSAGE_HEADER_SIZE: usize = 24;

pub const MESSAGE_CODE_HELLO: u32 = 0x55541000;

pub const MESSAGE_CODE_HELLO_ACK: u32 = 0x55541001;

pub const MESSAGE_CODE_GOODBYE: u32 = 0x55542000;

pub const MESSAGE_CODE_SCREENSHOT: u32 = 0x55544000;

pub const MESSAGE_CODE_SCREENSHOT_START_DELAY: u32 = 0x55545000;

pub const MESSAGE_CODE_SCREENSHOT_MODE: u32 = 0x55546000;

pub const MESSAGE_CODE_HOTKEY_1: u32 = 0x55548000;

pub const MESSAGE_CODE_HOTKEY_2: u32 = 0x55548001;

pub const MESSAGE_CODE_HOTKEY_3: u32 = 0x55548002;

pub const MESSAGE_CODE_HOTKEY_4: u32 = 0x55548003;

pub const MESSAGE_CODE_HOTKEY_5: u32 = 0x55548004;

/// One screenshot: rows of `stride` bytes, four bytes to the pixel.
#[derive(Clone)]
pub struct ScreenshotData {
    pub width: u32,
    pub height: u32,
    pub stride: u32,
    pub data: Vec<u8>,
}

impl ScreenshotData {
    /// A row holds its pixels, and the data holds all rows.
    pub open spec fn wf(&self) -> bool {
        &&& self.width * 4 <= self.stride
        &&& self.stride * self.height <= u32::MAX
        &&& self.stride * self.height <= self.data@.len()
    }

    /// Whether the screenshot is well formed.
    pub fn is_well_formed(&self) -> (well_formed: bool)
        ensures
            well_formed == self.wf(),
    {
        assert(self.stride * self.height <= 0xffff_ffff * 0xffff_ffff) by (nonlinear_arith)
            requires
                0 <= self.stride <= 0xffff_ffff,
                0 <= self.height <= 0xffff_ffff,
        ;
        let needed = self.stride as u64 * self.height as u64;
        self.width as u64 * 4 <= self.stride as u64 && needed <= 0xffff_ffff
            && needed <= self.data.len() as u64
    }

    /// The colour of the pixel in column `x` of row `y`.
    pub open spec fn pixel(&self, x: int, y: int) -> u32 {
        le_u32(self.data@, y * self.stride + x * 4)
    }

    /// Whether `color` is the brightest of the square of `size` pixels at `x`, `y`
    /// and opaque black: no pixel of the square is brighter, and the colour is
    /// opaque black's or that of a pixel of the square.
    pub open spec fn is_brightest(&self, x: u32, y: u32, size: u32, color: u32) -> bool {
        &&& color >= 0xFF00_0000
        &&& forall|px: int, py: int|
            x <= px < x + size && y <= py < y + size ==> #[trigger] self.pixel(px, py) <= color
        &&& color == 0xFF00_0000 || exists|px: int, py: int|
            x <= px < x + size && y <= py < y + size && #[trigger] self.pixel(px, py) == color
    }

    fn pixel_at(&self, x: u32, y: u32) -> (color: u32)
        requires
            self.wf(),
            x < self.width,
            y < self.height,
        ensures
            color == self.pixel(x as int, y as int),
    {
        proof {
            lemma_pixel_in_bounds(self.width, self.height, self.stride, x, y);
        }
        let pos = ((y * self.stride) + (x * 4)) as usize;
        read_u32(&self.data, pos)
    }

    /// The brightest colour in the square of `size` pixels at `x`, `y`, and not
    /// below opaque black. Colours are compared as numbers, which orders greys.
    pub fn get_brightest_pixel(&self, x: u32, y: u32, size: u32) -> (brightest: u32)
        requires
            self.wf(),
            x + size <= self.width,
            y + size <= self.height,
        ensures
            self.is_brightest(x, y, size, brightest),
    {
        let mut brightest: u32 = 0xFF000000;
        let mut py: u32 = y;
        while py < y + size
            invariant
                self.wf(),
                x + size <= self.width,
                y + size <= self.height,
                y <= py <= y + size,
                brightest >= 0xFF00_0000,
                forall|qx: int, qy: int|
                    x <= qx < x + size && y <= qy < py ==> #[trigger] self.pixel(qx, qy)
                        <= brightest,
                brightest == 0xFF00_0000 || exists|qx: int, qy: int|
                    x <= qx < x + size && y <= qy < y + size && #[trigger] self.pixel(qx, qy)
                        == brightest,
            decreases y + size - py,
        {
            let mut px: u32 = x;
            while px < x + size
                invariant
                    self.wf(),
                    x + size <= self.width,
                    y + size <= self.height,
                    y <= py < y + size,
                    x <= px <= x + size,
                    brightest >= 0xFF00_0000,
                    forall|qx: int, qy: int|
                        x <= qx < x + size && y <= qy < py ==> #[trigger] self.pixel(qx, qy)
                            <= brightest,
                    forall|qx: int| x <= qx < px ==> #[trigger] self.pixel(qx, py as int) <= brightest,
                    brightest == 0xFF00_0000 || exists|qx: int, qy: int|
                        x <= qx < x + size && y <= qy < y + size && #[trigger] self.pixel(qx, qy)
                            == brightest,
                decreases x + size - px,
            {
                let color = self.pixel_at(px, py);
                if color > brightest {
                    brightest = color;
                    assert(self.pixel(px as int, py as int) == brightest);
                }
                px += 1;
            }
            py += 1;
        }
        brightest
    }

    /// Whether the two screenshots show the same: the same size, and the same colour
    /// in every pixel.
    pub open spec fn same_picture(&self, other: &ScreenshotData) -> bool {
        &&& self.width == other.width
        &&& self.height == other.height
        &&& forall|x: int, y: int|
            0 <= x < self.width && 0 <= y < self.height ==> #[trigger] self.pixel(x, y)
                == other.pixel(x, y)
    }

    /// Whether the two screenshots show the same.
    pub fn is_same_as(&self, other: &ScreenshotData) -> (same: bool)
        requires
            self.wf(),
            other.wf(),
        ensures
            same == self.same_picture(other),
    {
        if self.width != other.width || self.height != other.height {
            return false;
        }
        let mut y: u32 = 0;
        while y < self.height
            invariant
                self.wf(),
                other.wf(),
                self.width == other.width,
                self.height == other.height,
                y <= self.height,
                forall|qx: int, qy: int|
                    0 <= qx < self.width && 0 <= qy < y ==> #[trigger] self.pixel(qx, qy)
                        == other.pixel(qx, qy),
            decreases self.height - y,
        {
            let mut x: u32 = 0;
            while x < self.width
                invariant
                    self.wf(),
                    other.wf(),
                    self.width == other.width,
                    self.height == other.height,
                    y < self.height,
                    x <= self.width,
                    forall|qx: int, qy: int|
                        0 <= qx < self.width && 0 <= qy < y ==> #[trigger] self.pixel(qx, qy)
                            == other.pixel(qx, qy),
                    forall|qx: int|
                        0 <= qx < x ==> #[trigger] self.pixel(qx, y as int) == other.pixel(
                            qx,
                            y as int,
                        ),
                decreases self.width - x,
            {
                let color = self.pixel_at(x, y);
                let other_color = other.pixel_at(x, y);
                if color != other_color {
                    assert(self.pixel(x as int, y as int) != other.pixel(x as int, y as int));
                    return false;
                }
                x += 1;
            }
            y += 1;
        }
        true
    }
}

/// The bytes of the pixel `x`, `y` lie inside the data of a well-formed screenshot,
/// and their position fits 32 bits.
pub proof fn lemma_pixel_in_bounds(width: u32, height: u32, stride: u32, x: u32, y: u32)
    requires
        width * 4 <= stride,
        stride * height <= u32::MAX,
        x < width,
        y < height,
    ensures
        y * stride + x * 4 + 4 <= stride * height,
        y * stride <= u32::MAX,
        y * stride + x * 4 <= u32::MAX,
{
    assert(y * stride + stride <= stride * height) by (nonlinear_arith)
        requires
            y < height,
            0 <= stride,
    ;
    assert(0 <= y * stride) by (nonlinear_arith)
        requires
            0 <= y,
            0 <= stride,
    ;
}

/// The value whose four bytes, highest first, stand at `offset` in `bytes`.
pub open spec fn be_u32(bytes: Seq<u8>, offset: int) -> u32 {
    (bytes[offset] * 0x100_0000 + bytes[offset + 1] * 0x1_0000 + bytes[offset + 2] * 0x100
        + bytes[offset + 3]) as u32
}

/// The four bytes of `value`, highest first.
pub open spec fn be_bytes(value: u32) -> Seq<u8> {
    seq![
        (value / 0x100_0000) as u8,
        ((value / 0x1_0000) % 0x100) as u8,
        ((value / 0x100) % 0x100) as u8,
        (value % 0x100) as u8,
    ]
}

/// Reading back the bytes of a word, highest first, gives the word.
pub proof fn lemma_be_round_trip(value: u32)
    ensures
        be_bytes(value).len() == 4,
        be_u32(be_bytes(value), 0) == value,
{
}

fn read_be_u32(bytes: &Vec<u8>, offset: usize) -> (value: u32)
    requires
        offset + 4 <= bytes@.len(),
    ensures
        value == be_u32(bytes@, offset as int),
{
    assert(bytes@.len() == bytes.len());
    let b0 = bytes[offset] as u32;
    let b1 = bytes[offset + 1] as u32;
    let b2 = bytes[offset + 2] as u32;
    let b3 = bytes[offset + 3] as u32;
    let value = (b0 << 24) | (b1 << 16) | (b2 << 8) | b3;
    assert(value == b0 * 0x100_0000 + b1 * 0x1_0000 + b2 * 0x100 + b3) by (bit_vector)
        requires
            value == (b0 << 24u32) | (b1 << 16u32) | (b2 << 8u32) | b3,
            b0 < 0x100,
            b1 < 0x100,
            b2 < 0x100,
            b3 < 0x100,
    ;
    value
}

fn push_be_u32(out: &mut Vec<u8>, value: u32)
    ensures
        final(out)@ == old(out)@ + be_bytes(value),
{
    let b0 = ((value >> 24) & 0xff) as u8;
    let b1 = ((value >> 16) & 0xff) as u8;
    let b2 = ((value >> 8) & 0xff) as u8;
    let b3 = (value & 0xff) as u8;
    assert(value & 0xff == value % 0x100 && (value >> 8u32) & 0xff == (value / 0x100) % 0x100 && (
    value >> 16u32) & 0xff == (value / 0x1_0000) % 0x100 && (value >> 24u32) & 0xff == value
        / 0x100_0000) by (bit_vector);
    out.push(b0);
    out.push(b1);
    out.push(b2);
    out.push(b3);
    assert(out@ =~= old(out)@ + be_bytes(value));
}

/// The header of a message from the capture plugin.
#[derive(Clone, Copy, Debug, PartialEq, Eq, Structural)]
pub struct MessageHeader {
    pub message_code: u32,
    pub screenshot_has_more: u32,
    pub screenshot_width: u32,
    pub screenshot_height: u32,
    pub screenshot_stride: u32,
    pub screenshot_bits_per_pixel: u32,
}

/// What a header announces.
#[derive(Clone, Copy, Debug, PartialEq, Eq, Structural)]
pub enum IncomingMessage {
    Hello,
    Goodbye,
    /// A hotkey, by its index from zero.
    Hotkey(u32),
    Screenshot,
    Unknown,
}

impl MessageHeader {
    /// Reads a header: six words, each with its highest byte first.
    pub fn parse(data: &Vec<u8>) -> (header: MessageHeader)
        requires
            data@.len() >= 24,
        ensures
            header.message_code == be_u32(data@, 0),
            header.screenshot_has_more == be_u32(data@, 4),
            header.screenshot_width == be_u32(data@, 8),
            header.screenshot_height == be_u32(data@, 12),
            header.screenshot_stride == be_u32(data@, 16),
            header.screenshot_bits_per_pixel == be_u32(data@, 20),
    {
        MessageHeader {
            message_code: read_be_u32(data, 0),
            screenshot_has_more: read_be_u32(data, 4),
            screenshot_width: read_be_u32(data, 8),
            screenshot_height: read_be_u32(data, 12),
            screenshot_stride: read_be_u32(data, 16),
            screenshot_bits_per_pixel: read_be_u32(data, 20),
        }
    }

    /// The message that the header's code stands for.
    pub open spec fn spec_kind(self) -> IncomingMessage {
        if self.message_code == MESSAGE_CODE_HELLO {
            IncomingMessage::Hello
        } else if self.message_code == MESSAGE_CODE_GOODBYE {
            IncomingMessage::Goodbye
        } else if MESSAGE_CODE_HOTKEY_1 <= self.message_code <= MESSAGE_CODE_HOTKEY_5 {
            IncomingMessage::Hotkey((self.message_code - MESSAGE_CODE_HOTKEY_1) as u32)
        } else if self.message_code == MESSAGE_CODE_SCREENSHOT {
            IncomingMessage::Screenshot
        } else {
            IncomingMessage::Unknown
        }
    }

    /// The message that the header announces.
    pub fn kind(&self) -> (kind: IncomingMessage)
        ensures
            kind == self.spec_kind(),
    {
        if self.message_code == MESSAGE_CODE_HELLO {
            IncomingMessage::Hello
        } else if self.message_code == MESSAGE_CODE_GOODBYE {
            IncomingMessage::Goodbye
        } else if self.message_code >= MESSAGE_CODE_HOTKEY_1 && self.message_code
            <= MESSAGE_CODE_HOTKEY_5 {
            IncomingMessage::Hotkey(self.message_code - MESSAGE_CODE_HOTKEY_1)
        } else if self.message_code == MESSAGE_CODE_SCREENSHOT {
            IncomingMessage::Screenshot
        } else {
            IncomingMessage::Unknown
        }
    }

    /// Whether the announced screenshot has a format that is taken: 32 bits to the
    /// pixel, 640 pixels wide, 480 high.
    pub open spec fn is_supported(self) -> bool {
        self.screenshot_bits_per_pixel == 32 && self.screenshot_width == 640
            && self.screenshot_height == 480
    }

    /// Whether the announced screenshot has a format that is taken.
    pub fn is_supported_screenshot(&self) -> (supported: bool)
        ensures
            supported == self.is_supported(),
    {
        self.screenshot_bits_per_pixel == 32 && self.screenshot_width == 640
            && self.screenshot_height == 480
    }

    /// The number of bytes of the announced screenshot: its stride times its height,
    /// where that fits 32 bits.
    pub fn screenshot_length(&self) -> (length: Option<u32>)
        ensures
            self.screenshot_stride * self.screenshot_height <= u32::MAX ==> length == Some(
                (self.screenshot_stride * self.screenshot_height) as u32,
            ),
            self.screenshot_stride * self.screenshot_height > u32::MAX ==> length is None,
    {
        self.screenshot_stride.checked_mul(self.screenshot_height)
    }
}

/// What the server does next with a connection.
#[derive(Clone, Copy, Debug, PartialEq, Eq, Structural)]
pub enum ServerAction {
    /// Answer the hello with its acknowledgement and count the plugin as connected.
    Acknowledge,
    /// Close the connection, as the plugin asked.
    Disconnect,
    /// Hand the hotkey with this index on.
    Hotkey(u32),
    /// Close the connection and wait for the next: a message came before the hello.
    Reject,
    /// Read what the plugin still sends and wait for the next connection: the
    /// screenshot's format is not taken.
    Drain,
    /// Read a screenshot of this many bytes.
    ReadScreenshot(u32),
    /// Give up: the size of the screenshot cannot be counted in 32 bits.
    Oversized,
    /// Go on reading: the message is not known.
    Ignore,
}

/// What the server knows of a connection: whether the plugin has said hello, and
/// the screenshots that were kept and not handed on yet.
pub struct ConnectionState {
    pub got_hello: bool,
    pub screenshots: Vec<ScreenshotData>,
}

/// What a header asks of the server. A hello is acknowledged, a goodbye closes the
/// connection, a hotkey is handed on. A screenshot, or a message that is not
/// known, before the hello ends the connection. After the hello a message that is
/// not known is passed over, and a screenshot is read where its format is taken
/// and its size can be counted.
pub open spec fn action_for(got_hello: bool, header: MessageHeader) -> ServerAction {
    match header.spec_kind() {
        IncomingMessage::Hello => ServerAction::Acknowledge,
        IncomingMessage::Goodbye => ServerAction::Disconnect,
        IncomingMessage::Hotkey(index) => ServerAction::Hotkey(index),
        IncomingMessage::Screenshot => if !got_hello {
            ServerAction::Reject
        } else if !header.is_supported() {
            ServerAction::Drain
        } else if header.screenshot_stride * header.screenshot_height > u32::MAX {
            ServerAction::Oversized
        } else {
            ServerAction::ReadScreenshot(
                (header.screenshot_stride * header.screenshot_height) as u32,
            )
        },
        IncomingMessage::Unknown => if !got_hello {
            ServerAction::Reject
        } else {
            ServerAction::Ignore
        },
    }
}

/// The screenshots that are kept once `shot` has come: `shot` is added unless it
/// shows the same as the last one kept.
pub open spec fn kept_with(kept: Seq<ScreenshotData>, shot: ScreenshotData) -> Seq<
    ScreenshotData,
> {
    if kept.len() == 0 || !shot.same_picture(&kept.last()) {
        kept.push(shot)
    } else {
        kept
    }
}

impl ConnectionState {
    /// The state of a new connection: no hello yet, nothing kept.
    pub fn new() -> (state: Self)
        ensures
            !state.got_hello,
            state.screenshots@.len() == 0,
    {
        ConnectionState { got_hello: false, screenshots: Vec::new() }
    }

    /// Whether `shot` can be compared with the last screenshot kept: both hold
    /// their pixels, or nothing is kept.
    pub open spec fn can_take(&self, shot: &ScreenshotData) -> bool {
        self.screenshots@.len() > 0 ==> shot.wf() && self.screenshots@.last().wf()
    }

    /// Decides what a header asks for, and remembers a hello.
    pub fn on_header(&mut self, header: &MessageHeader) -> (action: ServerAction)
        ensures
            action == action_for(old(self).got_hello, *header),
            final(self).got_hello == (old(self).got_hello || header.spec_kind()
                == IncomingMessage::Hello),
            final(self).screenshots == old(self).screenshots,
            action is ReadScreenshot ==> old(self).got_hello,
    {
        match header.kind() {
            IncomingMessage::Hello => {
                self.got_hello = true;
                ServerAction::Acknowledge
            },
            IncomingMessage::Goodbye => ServerAction::Disconnect,
            IncomingMessage::Hotkey(index) => ServerAction::Hotkey(index),
            IncomingMessage::Screenshot => {
                if !self.got_hello {
                    ServerAction::Reject
                } else if !header.is_supported_screenshot() {
                    ServerAction::Drain
                } else {
                    match header.screenshot_length() {
                        Some(length) => ServerAction::ReadScreenshot(length),
                        None => ServerAction::Oversized,
                    }
                }
            },
            IncomingMessage::Unknown => {
                if !self.got_hello {
                    ServerAction::Reject
                } else {
                    ServerAction::Ignore
                }
            },
        }
    }

    /// Takes a screenshot that was read: it is kept unless it shows the same as the
    /// last one kept. Where the plugin says that no more follow, all that is kept
    /// is handed out and nothing stays; otherwise nothing is handed out.
    pub fn on_screenshot(&mut self, shot: ScreenshotData, has_more: u32) -> (flushed: Vec<
        ScreenshotData,
    >)
        requires
            old(self).can_take(&shot),
        ensures
            final(self).got_hello == old(self).got_hello,
            has_more == 0 ==> flushed@ == kept_with(old(self).screenshots@, shot)
                && final(self).screenshots@.len() == 0,
            has_more != 0 ==> flushed@.len() == 0 && final(self).screenshots@ == kept_with(
                old(self).screenshots@,
                shot,
            ),
    {
        let count = self.screenshots.len();
        if count == 0 || !shot.is_same_as(&self.screenshots[count - 1]) {
            self.screenshots.push(shot);
        }
        let mut flushed: Vec<ScreenshotData> = Vec::new();
        if has_more == 0 {
            std::mem::swap(&mut flushed, &mut self.screenshots);
        }
        flushed
    }
}

/// A message for the capture plugin.
#[derive(Clone, Copy, Debug, PartialEq, Eq, Structural)]
pub struct MessageToSend {
    message_code: u32,
    data: u32,
}

impl MessageToSend {
    /// The code of the message.
    pub closed spec fn spec_message_code(&self) -> u32 {
        self.message_code
    }

    /// The word that the message carries.
    pub closed spec fn spec_data(&self) -> u32 {
        self.data
    }

    /// Asks for screenshots to start after `delay_ms` milliseconds.
    pub fn new_screenshot_start_delay(delay_ms: u32) -> (message: Self)
        ensures
            message.spec_message_code() == MESSAGE_CODE_SCREENSHOT_START_DELAY,
            message.spec_data() == delay_ms,
    {
        MessageToSend { message_code: MESSAGE_CODE_SCREENSHOT_START_DELAY, data: delay_ms }
    }

    /// Asks for a single screenshot (1) or for a series (0).
    pub fn new_screenshot_mode(is_single_only: bool) -> (message: Self)
        ensures
            message.spec_message_code() == MESSAGE_CODE_SCREENSHOT_MODE,
            message.spec_data() == (if is_single_only {
                1u32
            } else {
                0u32
            }),
    {
        MessageToSend {
            message_code: MESSAGE_CODE_SCREENSHOT_MODE,
            data: if is_single_only {
                1
            } else {
                0
            },
        }
    }

    /// The message as it is sent: its code, then its word, each with its highest
    /// byte first.
    pub fn to_bytes(&self) -> (bytes: Vec<u8>)
        ensures
            bytes@ == be_bytes(self.spec_message_code()) + be_bytes(self.spec_data()),
    {
        let mut bytes: Vec<u8> = Vec::new();
        push_be_u32(&mut bytes, self.message_code);
        push_be_u32(&mut bytes, self.data);
        bytes
    }
}

/// The acknowledgement of a hello, as it is sent.
pub fn hello_ack_bytes() -> (bytes: Vec<u8>)
    ensures
        bytes@ == be_bytes(MESSAGE_CODE_HELLO_ACK),
{
    let mut bytes: Vec<u8> = Vec::new();
    push_be_u32(&mut bytes, MESSAGE_CODE_HELLO_ACK);
    bytes
}

} // verus!
