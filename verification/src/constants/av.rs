//! Audio, video and USB parameters of the capture card.
use vstd::prelude::*;

verus! {

/// USB vendor id of the capture card.
pub const VID_3DS: u16 = 0x16D0;

/// USB product id of the capture card.
pub const PID_3DS: u16 = 0x06A3;

/// What the program says when no capture card is connected.
pub const CANNOT_FIND_3DS: &'static str = "unable to locate 3ds device";

/// What the program says when the capture card cannot be set up.
pub const CANNOT_CONFIGURE_3DS: &'static str = "could not configure 3ds device";

/// How long a USB transfer may take, in milliseconds.
pub const DEFAULT_TIMEOUT_MS: u64 = 100;

/// The vendor request that asks the card for the next frame.
pub const VEND_OUT_REQ: u8 = 0x40;

pub const VEND_OUT_VALUE: u16 = 0;

pub const VEND_OUT_IDX: u16 = 0;

/// Number of zero bytes that go with the vendor request.
pub const VEND_OUT_BUFF_SIZE: usize = 512;

/// Width of a picture as the card sends it, in pixels.
pub const VIDEO_WIDTH: usize = 240;

/// Height of a picture as the card sends it, in pixels.
pub const VIDEO_HEIGHT: usize = 720;

/// Bytes per pixel that the card sends: red, green, blue.
pub const RGB_COLOR_SIZE: usize = 3;

/// Bytes per pixel of a window's frame: red, green, blue, alpha.
pub const RGBA_COLOR_SIZE: usize = 4;

pub const VIDEO_BUFFER_SIZE: usize = VIDEO_WIDTH * VIDEO_HEIGHT * RGB_COLOR_SIZE;

pub const AUDIO_BUFFER_SIZE: usize = 4376;

pub const AUDIO_SAMPLE_HZ: u32 = 32728;

pub const AUDIO_CHANNELS: u16 = 2;

/// A run of this many silent samples ends the audio of a packet.
pub const AUDIO_NUM_ZEROES_END_DELIMETER: usize = 256;

/// The shorter run of silence that ends the audio of a short packet.
pub const AUDIO_NUM_ZEROES_CHECK_SIZE: usize = 10;

pub const MAX_QUEUED_FRAMES: usize = 5;

/// 10 MB appears to be sufficient for this thread.
pub const USB_PROCESSING_STACK_SIZE: usize = 1024 * 1024 * 10;

/// 2 MB appears to be sufficient for this thread.
pub const AUDIO_PLAYING_STACK_SIZE: usize = 1024 * 1024 * 2;

/// 5 MB appears to be sufficient for this thread.
pub const VIDEO_DISPLAY_EVENT_STACK_SIZE: usize = 1024 * 1024 * 5;

pub const FULL_BUFF_SIZE: usize = VIDEO_BUFFER_SIZE + AUDIO_BUFFER_SIZE;

pub const WINDOW_HEIGHT: usize = 240;

pub const WINDOW_WIDTH: usize = 720;

pub const TOP_WINDOW_WIDTH: usize = 400;

pub const BOTTOM_WINDOW_WIDTH: usize = 320;

/// How much larger than their contents the windows are opened.
pub const SCALING_FACTOR: usize = 2;

/// More polls than this within a second call for a pause.
pub const MAX_PERMITTED_DATA_POLLS_PER_SECOND: i32 = 70;

/// How long that pause is, in milliseconds.
pub const OVERPOLL_COOLDOWN_MS: u64 = 300;

/// How the numbers fit together: the picture is as wide as the two screens side by side, a
/// capture is that picture lying on its side, and a frame is a capture followed by an audio
/// packet of whole samples for both channels.
pub proof fn numbers_fit_together()
    ensures
        TOP_WINDOW_WIDTH + BOTTOM_WINDOW_WIDTH == WINDOW_WIDTH,
        VIDEO_WIDTH == WINDOW_HEIGHT == 240,
        VIDEO_HEIGHT == WINDOW_WIDTH == 720,
        RGB_COLOR_SIZE + 1 == RGBA_COLOR_SIZE == 4,
        VIDEO_BUFFER_SIZE == WINDOW_WIDTH * WINDOW_HEIGHT * 3,
        AUDIO_BUFFER_SIZE == 4376,
        FULL_BUFF_SIZE == VIDEO_BUFFER_SIZE + AUDIO_BUFFER_SIZE,
        AUDIO_BUFFER_SIZE % 4 == 0,
        AUDIO_CHANNELS == 2,
        AUDIO_SAMPLE_HZ == 32728,
        AUDIO_PLAYING_STACK_SIZE == 2 * 1024 * 1024,
        VIDEO_DISPLAY_EVENT_STACK_SIZE == 5 * 1024 * 1024,
        USB_PROCESSING_STACK_SIZE == 10 * 1024 * 1024,
        AUDIO_NUM_ZEROES_CHECK_SIZE < AUDIO_NUM_ZEROES_END_DELIMETER,
{
}

} // verus!
