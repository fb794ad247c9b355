//! Pictures: turning them upright and painting them on the windows.
use crate::constants::av::BOTTOM_WINDOW_WIDTH;
use crate::constants::av::MAX_QUEUED_FRAMES;
use crate::constants::av::RGBA_COLOR_SIZE;
use crate::constants::av::RGB_COLOR_SIZE;
use crate::constants::av::TOP_WINDOW_WIDTH;
use crate::constants::av::VIDEO_BUFFER_SIZE;
use crate::constants::av::VIDEO_HEIGHT;
use crate::constants::av::VIDEO_WIDTH;
use crate::constants::av::WINDOW_HEIGHT;
use crate::constants::av::WINDOW_WIDTH;
use crate::window::main_width;
use vstd::arithmetic::div_mod::lemma_fundamental_div_mod;
use vstd::arithmetic::div_mod::lemma_fundamental_div_mod_converse;
use vstd::prelude::*;

verus! {

/// Where byte `c` of the pixel in column `x` and row `y` lies in a picture whose rows hold
/// `width` pixels of three bytes each.
pub open spec fn rgb_index(width: int, x: int, y: int, c: int) -> int {
    (x + y * width) * 3 + c
}

/// Where byte `i` of the turned picture comes from: the pixel in column `x` and row `y` of the
/// turned picture, whose rows hold `height` pixels, shows column `width - 1 - y` and row `x`.
pub open spec fn rotated_from(i: int, width: int, height: int) -> int {
    let x = (i / 3) % height;
    let y = (i / 3) / height;
    rgb_index(width, width - 1 - y, x, i % 3)
}

/// A picture of `width` by `height` pixels, turned by 270 degrees clockwise into one of `height`
/// by `width` pixels.
pub open spec fn rotated(buffer: Seq<u8>, width: int, height: int) -> Seq<u8> {
    Seq::new((width * height * 3) as nat, |i: int| buffer[rotated_from(i, width, height)])
}

/// A pixel inside the picture has its number inside the picture.
proof fn lemma_pixel_in_range(width: int, height: int, x: int, y: int)
    by (nonlinear_arith)
    requires
        0 <= x < width,
        0 <= y < height,
    ensures
        0 <= x + y * width < width * height,
{
}

/// The column and the row of a pixel can be told from its number.
proof fn lemma_pixel_number(width: int, x: int, y: int)
    requires
        0 <= x < width,
    ensures
        (x + y * width) % width == x,
        (x + y * width) / width == y,
{
    lemma_fundamental_div_mod_converse(x + y * width, width, y, x);
}

/// A number inside the picture has its column and its row inside the picture.
proof fn lemma_pixel_of_number(width: int, height: int, p: int)
    requires
        0 <= width,
        0 <= height,
        0 <= p < width * height,
    ensures
        0 < width,
        0 < height,
        0 <= p % width < width,
        0 <= p / width < height,
        p == p % width + (p / width) * width,
{
    assert(0 < width && 0 < height) by (nonlinear_arith)
        requires
            0 <= width,
            0 <= height,
            0 < width * height,
    ;
    lemma_fundamental_div_mod(p, width);
    let q = p / width;
    assert(0 <= q < height && width * q == q * width) by (nonlinear_arith)
        requires
            0 <= p < width * height,
            p == width * q + p % width,
            0 <= p % width < width,
            0 < width,
    ;
}

/// Turns a picture of `width` by `height` pixels, three bytes each, by 270 degrees clockwise,
/// which is a quarter turn counterclockwise.
pub fn rotate_270(buffer: &[u8], width: usize, height: usize) -> (rotated_buffer: Vec<u8>)
    requires
        width * height * 3 <= usize::MAX,
        width * height * 3 <= buffer@.len(),
    ensures
        rotated_buffer@ == rotated(buffer@, width as int, height as int),
        rotated_buffer@.len() == width * height * 3,
{
    let mut rotated_buffer: Vec<u8> = Vec::new();
    let ghost target = rotated(buffer@, width as int, height as int);
    let mut y: usize = 0;
    while y < width
        invariant
            y <= width,
            width * height * 3 <= usize::MAX,
            width * height * 3 <= buffer@.len(),
            target == rotated(buffer@, width as int, height as int),
            rotated_buffer@.len() == y * height * 3,
            rotated_buffer@.len() <= target.len(),
            rotated_buffer@ == target.take(rotated_buffer@.len() as int),
        decreases width - y,
    {
        let mut x: usize = 0;
        while x < height
            invariant
                y < width,
                x <= height,
                width * height * 3 <= usize::MAX,
                width * height * 3 <= buffer@.len(),
                target == rotated(buffer@, width as int, height as int),
                rotated_buffer@.len() == (x + y * height) * 3,
                rotated_buffer@.len() <= target.len(),
                rotated_buffer@ == target.take(rotated_buffer@.len() as int),
            decreases height - x,
        {
            proof {
                lemma_pixel_in_range(width as int, height as int, width - 1 - y, x as int);
                lemma_pixel_in_range(height as int, width as int, x as int, y as int);
                lemma_pixel_number(height as int, x as int, y as int);
                assert(width * height == height * width) by (nonlinear_arith);
                assert(0 <= x * width <= x * width + (width - 1 - y)) by (nonlinear_arith)
                    requires
                        y < width,
                ;
            }
            let old_px: usize = (width - 1 - y + x * width) * 3;
            let ghost k = rotated_buffer@.len() as int;
            rotated_buffer.push(buffer[old_px]);
            rotated_buffer.push(buffer[old_px + 1]);
            rotated_buffer.push(buffer[old_px + 2]);
            proof {
                assert(k / 3 == x + y * height);
                assert((k + 1) / 3 == x + y * height);
                assert((k + 2) / 3 == x + y * height);
                assert(rotated_buffer@ =~= target.take(k + 3));
            }
            x = x + 1;
        }
        assert((height + y * height) * 3 == (y + 1) * height * 3) by (nonlinear_arith);
        y = y + 1;
    }
    assert(rotated_buffer@ =~= target);
    rotated_buffer
}

/// Splits a byte of a picture into its pixel and its colour, and its pixel into column and row.
proof fn lemma_byte_of_picture(width: int, height: int, i: int)
    requires
        0 <= width,
        0 <= height,
        0 <= i < width * height * 3,
    ensures
        0 < width,
        0 < height,
        0 <= (i / 3) % width < width,
        0 <= (i / 3) / width < height,
        0 <= i % 3 < 3,
        i == rgb_index(width, (i / 3) % width, (i / 3) / width, i % 3),
{
    lemma_pixel_of_number(width, height, i / 3);
}

/// Every byte of the turned picture comes from inside the picture.
proof fn lemma_rotated_from_in_range(i: int, width: int, height: int)
    requires
        0 <= width,
        0 <= height,
        0 <= i < width * height * 3,
    ensures
        0 <= rotated_from(i, width, height) < width * height * 3,
{
    assert(width * height == height * width) by (nonlinear_arith);
    lemma_byte_of_picture(height, width, i);
    lemma_pixel_in_range(width, height, width - 1 - (i / 3) / height, (i / 3) % height);
}

/// Turning moves the pixel in column `x` and row `y` to column `y` and row `width - 1 - x`, with
/// its colours unchanged.
pub proof fn rotation_moves_pixels(buffer: Seq<u8>, width: int, height: int, x: int, y: int, c: int)
    requires
        0 <= x < width,
        0 <= y < height,
        0 <= c < 3,
        buffer.len() >= width * height * 3,
    ensures
        0 <= rgb_index(width, x, y, c) < width * height * 3,
        0 <= rgb_index(height, y, width - 1 - x, c) < rotated(buffer, width, height).len(),
        rotated(buffer, width, height)[rgb_index(height, y, width - 1 - x, c)]
            == buffer[rgb_index(width, x, y, c)],
{
    lemma_pixel_in_range(width, height, x, y);
    lemma_pixel_in_range(height, width, y, width - 1 - x);
    lemma_pixel_number(height, y, width - 1 - x);
    assert(width * height == height * width) by (nonlinear_arith);
    let i = rgb_index(height, y, width - 1 - x, c);
    assert(i / 3 == y + (width - 1 - x) * height);
    assert(i % 3 == c);
}

/// Turning neither loses nor repeats a byte: different bytes of the turned picture come from
/// different bytes of the picture, and none from outside it.
pub proof fn rotation_is_a_permutation(width: int, height: int, i: int, j: int)
    requires
        0 <= width,
        0 <= height,
        0 <= i < width * height * 3,
        0 <= j < width * height * 3,
    ensures
        0 <= rotated_from(i, width, height) < width * height * 3,
        rotated_from(i, width, height) == rotated_from(j, width, height) ==> i == j,
{
    assert(width * height == height * width) by (nonlinear_arith);
    lemma_rotated_from_in_range(i, width, height);
    lemma_byte_of_picture(height, width, i);
    lemma_byte_of_picture(height, width, j);
    lemma_pixel_number(width, width - 1 - (i / 3) / height, (i / 3) % height);
    lemma_pixel_number(width, width - 1 - (j / 3) / height, (j / 3) % height);
}

/// Turning a picture twice puts its pixels in the opposite order.
pub proof fn two_rotations_reverse_pixels(buffer: Seq<u8>, width: int, height: int)
    requires
        0 <= width,
        0 <= height,
        buffer.len() >= width * height * 3,
    ensures
        rotated(rotated(buffer, width, height), height, width) == Seq::new(
            (width * height * 3) as nat,
            |i: int| buffer[(width * height - 1 - i / 3) * 3 + i % 3],
        ),
{
    let once = rotated(buffer, width, height);
    let twice = rotated(once, height, width);
    let reversed = Seq::new(
        (width * height * 3) as nat,
        |i: int| buffer[(width * height - 1 - i / 3) * 3 + i % 3],
    );
    assert(width * height == height * width) by (nonlinear_arith);
    assert forall|i: int| 0 <= i < twice.len() implies twice[i] == reversed[i] by {
        lemma_byte_of_picture(width, height, i);
        lemma_rotated_from_in_range(i, height, width);
        let x = (i / 3) % width;
        let y = (i / 3) / width;
        let j = rotated_from(i, height, width);
        assert(j == rgb_index(height, height - 1 - y, x, i % 3));
        assert(j / 3 == (height - 1 - y) + x * height);
        assert(j % 3 == i % 3);
        lemma_pixel_number(height, height - 1 - y, x);
        assert((width - 1 - x) + (height - 1 - y) * width == width * height - 1 - (x + y * width))
            by (nonlinear_arith);
    }
    assert(twice =~= reversed);
}

/// Four turns give the picture back.
pub proof fn four_rotations_restore(buffer: Seq<u8>, width: int, height: int)
    requires
        0 <= width,
        0 <= height,
        buffer.len() == width * height * 3,
    ensures
        rotated(
            rotated(rotated(rotated(buffer, width, height), height, width), width, height),
            height,
            width,
        ) == buffer,
{
    assert(width * height == height * width) by (nonlinear_arith);
    assert(0 <= width * height) by (nonlinear_arith)
        requires
            0 <= width,
            0 <= height,
    ;
    let half = rotated(rotated(buffer, width, height), height, width);
    two_rotations_reverse_pixels(buffer, width, height);
    two_rotations_reverse_pixels(half, width, height);
    assert(rotated(rotated(half, width, height), height, width) =~= buffer);
}

/// A picture on its way to the windows, upright, three bytes per pixel.
pub struct WindowUpdateEvent {
    pub video_buffer: Vec<u8>,
}

impl WindowUpdateEvent {
    pub fn new(video_buffer: Vec<u8>) -> (event: Self)
        ensures
            event.video_buffer@ == video_buffer@,
    {
        Self { video_buffer }
    }
}

/// Turns a picture taken from the queue upright for the windows. While more than
/// `MAX_QUEUED_FRAMES` pictures are still waiting (`queued`), the picture is dropped.
pub fn serve_video(video: &[u8; VIDEO_BUFFER_SIZE], queued: usize) -> (event: Option<
    WindowUpdateEvent,
>)
    ensures
        event is None <==> queued > MAX_QUEUED_FRAMES,
        event matches Some(e) ==> e.video_buffer@ == rotated(
            video@,
            WINDOW_HEIGHT as int,
            WINDOW_WIDTH as int,
        ),
{
    if queued > MAX_QUEUED_FRAMES {
        return None;
    }
    let rotated_vid_buf = rotate_270(video, WINDOW_HEIGHT, WINDOW_WIDTH);
    Some(WindowUpdateEvent::new(rotated_vid_buf))
}

/// Where the picture holds the pixel that a window shows as its `k`-th. The window is `width`
/// pixels wide and shows the columns of the picture from column `first` on.
pub open spec fn window_source(k: int, first: int, width: int) -> int {
    rgb_index(WINDOW_WIDTH as int, first + k % width, k / width, 0)
}

/// What a window of `pixels` pixels shows of the picture: the colours of each of its pixels,
/// and full opacity.
pub open spec fn painted(video: Seq<u8>, pixels: int, first: int, width: int) -> Seq<u8> {
    Seq::new(
        (pixels * RGBA_COLOR_SIZE) as nat,
        |i: int|
            if i % 4 == 3 {
                255u8
            } else {
                video[window_source(i / 4, first, width) + i % 4]
            },
    )
}

/// A window's frame holds whole pixels, and the picture reaches as far as its last one.
pub open spec fn paintable(frame_len: int, video_len: int, first: int, width: int) -> bool {
    &&& frame_len % 4 == 0
    &&& frame_len > 0 ==> window_source(frame_len / 4 - 1, first, width) + 3 <= video_len
}

/// Earlier pixels of a window come from earlier in the picture.
proof fn lemma_window_source_increases(j: int, k: int, first: int, width: int)
    requires
        0 <= j <= k,
        0 <= first,
        0 < width,
        first + width <= WINDOW_WIDTH,
    ensures
        0 <= window_source(j, first, width) <= window_source(k, first, width),
{
    lemma_fundamental_div_mod(j, width);
    lemma_fundamental_div_mod(k, width);
    let (a, b) = (j / width, k / width);
    assert(0 <= a <= b) by (nonlinear_arith)
        requires
            0 <= j <= k,
            0 < width,
            j == width * a + j % width,
            k == width * b + k % width,
            0 <= j % width < width,
            0 <= k % width < width,
    ;
}

/// Paints the columns of the picture from column `first` on to the frame of a window that is
/// `width` pixels wide.
fn paint(frame: &mut [u8], video: &[u8], first: usize, width: usize)
    requires
        0 < width,
        first + width <= WINDOW_WIDTH,
        paintable(old(frame)@.len() as int, video@.len() as int, first as int, width as int),
    ensures
        final(frame)@ == painted(
            video@,
            old(frame)@.len() as int / 4,
            first as int,
            width as int,
        ),
{
    let pixels: usize = frame.len() / RGBA_COLOR_SIZE;
    let ghost target = painted(video@, pixels as int, first as int, width as int);
    assert(video.len() == video@.len());
    let mut counter: usize = first * RGB_COLOR_SIZE;
    let mut column: usize = 0;
    let ghost mut row: int = 0;
    let mut k: usize = 0;
    while k < pixels
        invariant
            0 < width,
            first + width <= WINDOW_WIDTH,
            k <= pixels,
            frame@.len() == pixels * 4,
            frame@.len() <= usize::MAX,
            video@.len() <= usize::MAX,
            paintable(frame@.len() as int, video@.len() as int, first as int, width as int),
            target == painted(video@, pixels as int, first as int, width as int),
            0 <= column <= width,
            k == column + row * width,
            counter == rgb_index(WINDOW_WIDTH as int, first + column, row, 0),
            forall|i: int| 0 <= i < k * 4 ==> frame@[i] == target[i],
        decreases pixels - k,
    {
        let ghost before = frame@;
        proof {
            lemma_window_source_increases(
                k as int,
                pixels - 1,
                first as int,
                width as int,
            );
            if column == width {
                assert(0 + (row + 1) * width == width + row * width) by (nonlinear_arith);
                lemma_pixel_number(width as int, 0, row + 1);
            } else {
                lemma_pixel_number(width as int, column as int, row);
            }
        }
        if column == width {
            // The rest of the line belongs to the other window.
            counter = counter + (WINDOW_WIDTH - width) * RGB_COLOR_SIZE;
            column = 0;
            proof {
                row = row + 1;
            }
        }
        frame[k * 4] = video[counter];
        frame[k * 4 + 1] = video[counter + 1];
        frame[k * 4 + 2] = video[counter + 2];
        // The card sends no alpha values.
        frame[k * 4 + 3] = 255;
        assert forall|i: int| 0 <= i < (k + 1) * 4 implies frame@[i] == target[i] by {
            if i < k * 4 {
                assert(frame@[i] == before[i]);
            }
        }
        counter = counter + RGB_COLOR_SIZE;
        column = column + 1;
        k = k + 1;
    }
    assert(frame@ =~= target);
}

/// Paints the picture on the frame of the main window. With the screens split it shows the
/// upper screen only, which is the left part of the picture.
pub fn render_main(frame: &mut [u8], video_buffer: &[u8], split: bool)
    requires
        paintable(old(frame)@.len() as int, video_buffer@.len() as int, 0, main_width(split)),
    ensures
        final(frame)@ == painted(
            video_buffer@,
            old(frame)@.len() as int / 4,
            0,
            main_width(split),
        ),
{
    if split {
        paint(frame, video_buffer, 0, TOP_WINDOW_WIDTH);
    } else {
        paint(frame, video_buffer, 0, WINDOW_WIDTH);
    }
}

/// Paints the lower screen, which is the right part of the picture, on the frame of the
/// secondary window.
pub fn render_secondary(frame: &mut [u8], video_buffer: &[u8])
    requires
        paintable(
            old(frame)@.len() as int,
            video_buffer@.len() as int,
            TOP_WINDOW_WIDTH as int,
            BOTTOM_WINDOW_WIDTH as int,
        ),
    ensures
        final(frame)@ == painted(
            video_buffer@,
            old(frame)@.len() as int / 4,
            TOP_WINDOW_WIDTH as int,
            BOTTOM_WINDOW_WIDTH as int,
        ),
{
    paint(frame, video_buffer, TOP_WINDOW_WIDTH, BOTTOM_WINDOW_WIDTH);
}

/// Where byte `c` of the pixel in column `x` and row `y` lies in the frame of a window that is
/// `width` pixels wide.
pub open spec fn rgba_index(width: int, x: int, y: int, c: int) -> int {
    (x + y * width) * 4 + c
}

/// The pixel in column `x` and row `y` of a window shows the colours that the picture has in
/// column `first + x` of the same row, and is opaque.
pub proof fn window_shows_columns(
    video: Seq<u8>,
    pixels: int,
    first: int,
    width: int,
    x: int,
    y: int,
    c: int,
)
    requires
        0 <= x < width,
        0 <= y,
        x + y * width < pixels,
        0 <= c < 3,
    ensures
        0 <= rgba_index(width, x, y, c) < painted(video, pixels, first, width).len(),
        painted(video, pixels, first, width)[rgba_index(width, x, y, c)] == video[rgb_index(
            WINDOW_WIDTH as int,
            first + x,
            y,
            c,
        )],
        painted(video, pixels, first, width)[rgba_index(width, x, y, 3)] == 255,
{
    lemma_pixel_number(width, x, y);
    assert(0 <= y * width) by (nonlinear_arith)
        requires
            0 <= y,
            0 < width,
    ;
    let i = rgba_index(width, x, y, c);
    assert(i / 4 == x + y * width && i % 4 == c);
}

/// A picture fills the main window and the secondary window at their sizes.
pub proof fn windows_fit_picture(split: bool)
    ensures
        paintable(
            main_width(split) * WINDOW_HEIGHT * 4,
            VIDEO_BUFFER_SIZE as int,
            0,
            main_width(split),
        ),
        paintable(
            BOTTOM_WINDOW_WIDTH * WINDOW_HEIGHT * 4,
            VIDEO_BUFFER_SIZE as int,
            TOP_WINDOW_WIDTH as int,
            BOTTOM_WINDOW_WIDTH as int,
        ),
{
}

/// Between them the windows show every pixel of the picture: with the screens split the
/// left columns in the main window and the others in the secondary window, else all of them in
/// the main window.
pub proof fn windows_show_whole_picture(video: Seq<u8>, split: bool, x: int, y: int, c: int)
    requires
        0 <= x < WINDOW_WIDTH,
        0 <= y < WINDOW_HEIGHT,
        0 <= c < 3,
    ensures
        x < main_width(split) ==> painted(
            video,
            main_width(split) * WINDOW_HEIGHT,
            0,
            main_width(split),
        )[rgba_index(main_width(split), x, y, c)] == video[rgb_index(WINDOW_WIDTH as int, x, y, c)],
        x >= main_width(split) ==> split && painted(
            video,
            BOTTOM_WINDOW_WIDTH * WINDOW_HEIGHT,
            TOP_WINDOW_WIDTH as int,
            BOTTOM_WINDOW_WIDTH as int,
        )[rgba_index(BOTTOM_WINDOW_WIDTH as int, x - TOP_WINDOW_WIDTH, y, c)] == video[rgb_index(
            WINDOW_WIDTH as int,
            x,
            y,
            c,
        )],
{
    let w = main_width(split);
    if x < w {
        lemma_pixel_in_range(w, WINDOW_HEIGHT as int, x, y);
        window_shows_columns(video, w * WINDOW_HEIGHT, 0, w, x, y, c);
    } else {
        let b = BOTTOM_WINDOW_WIDTH as int;
        let t = TOP_WINDOW_WIDTH as int;
        lemma_pixel_in_range(b, WINDOW_HEIGHT as int, x - t, y);
        window_shows_columns(video, b * WINDOW_HEIGHT, t, b, x - t, y, c);
    }
}

/// What becomes of a captured pixel: the card sends the columns of the screens as rows, from
/// the lower edge up. The pixel in column `x` and row `y` of a capture is shown in column `y` and
/// row `VIDEO_WIDTH - 1 - x` of the picture.
pub proof fn capture_reaches_windows(capture: Seq<u8>, split: bool, x: int, y: int, c: int)
    requires
        capture.len() == VIDEO_BUFFER_SIZE,
        0 <= x < VIDEO_WIDTH,
        0 <= y < VIDEO_HEIGHT,
        0 <= c < 3,
    ensures
        y < main_width(split) ==> painted(
            rotated(capture, WINDOW_HEIGHT as int, WINDOW_WIDTH as int),
            main_width(split) * WINDOW_HEIGHT,
            0,
            main_width(split),
        )[rgba_index(main_width(split), y, VIDEO_WIDTH - 1 - x, c)] == capture[rgb_index(
            VIDEO_WIDTH as int,
            x,
            y,
            c,
        )],
        y >= main_width(split) ==> split && painted(
            rotated(capture, WINDOW_HEIGHT as int, WINDOW_WIDTH as int),
            BOTTOM_WINDOW_WIDTH * WINDOW_HEIGHT,
            TOP_WINDOW_WIDTH as int,
            BOTTOM_WINDOW_WIDTH as int,
        )[rgba_index(BOTTOM_WINDOW_WIDTH as int, y - TOP_WINDOW_WIDTH, VIDEO_WIDTH - 1 - x, c)]
            == capture[rgb_index(VIDEO_WIDTH as int, x, y, c)],
{
    let picture = rotated(capture, WINDOW_HEIGHT as int, WINDOW_WIDTH as int);
    rotation_moves_pixels(capture, WINDOW_HEIGHT as int, WINDOW_WIDTH as int, x, y, c);
    windows_show_whole_picture(picture, split, y, VIDEO_WIDTH - 1 - x, c);
}

/// What a turned picture is, byte by byte: a picture of the same size whose pixel in column `y`
/// and row `width - 1 - x` is the pixel that was in column `x` and row `y`. A picture lies in
/// memory row by row, with three bytes to a pixel.
pub proof fn turned_picture_lies_row_by_row(
    buffer: Seq<u8>,
    width: int,
    height: int,
    x: int,
    y: int,
    c: int,
)
    requires
        0 <= x < width,
        0 <= y < height,
        0 <= c < 3,
        buffer.len() >= width * height * 3,
    ensures
        rotated(buffer, width, height).len() == width * height * 3,
        0 <= (y + (width - 1 - x) * height) * 3 + c < width * height * 3,
        rotated(buffer, width, height)[(y + (width - 1 - x) * height) * 3 + c] == buffer[(x + y
            * width) * 3 + c],
{
    rotation_moves_pixels(buffer, width, height, x, y, c);
}

/// What a window shows, byte by byte: pixel number `x + y * width` of a window that is `width`
/// pixels wide has the three colours of column `first + x` and row `y` of the picture, which is
/// 720 pixels wide, and full opacity.
pub proof fn window_lies_row_by_row(
    video: Seq<u8>,
    pixels: int,
    first: int,
    width: int,
    x: int,
    y: int,
)
    requires
        0 <= x < width,
        0 <= y,
        x + y * width < pixels,
    ensures
        painted(video, pixels, first, width).len() == pixels * 4,
        ({
            let shown = painted(video, pixels, first, width);
            let to = (x + y * width) * 4;
            let from = (first + x + y * 720) * 3;
            &&& shown[to] == video[from]
            &&& shown[to + 1] == video[from + 1]
            &&& shown[to + 2] == video[from + 2]
            &&& shown[to + 3] == 255
        }),
{
    window_shows_columns(video, pixels, first, width, x, y, 0);
    window_shows_columns(video, pixels, first, width, x, y, 1);
    window_shows_columns(video, pixels, first, width, x, y, 2);
}

/// What painting asks for: whole pixels of four bytes in the frame, and a picture that reaches
/// as far as the last of them, in column `x` and row `y` of the window. An empty frame can always
/// be painted.
pub proof fn painting_needs_the_last_pixel(
    frame_len: int,
    video_len: int,
    first: int,
    width: int,
    x: int,
    y: int,
)
    requires
        0 <= x < width,
        0 <= y,
    ensures
        paintable(0, video_len, first, width),
        paintable((x + y * width + 1) * 4, video_len, first, width) <==> (first + x + y * 720) * 3
            + 3 <= video_len,
        paintable(frame_len, video_len, first, width) ==> frame_len % 4 == 0,
{
    lemma_pixel_number(width, x, y);
    assert(0 <= y * width) by (nonlinear_arith)
        requires
            0 <= y,
            0 < width,
    ;
    assert(((x + y * width + 1) * 4) / 4 - 1 == x + y * width);
}

/// The pixel in column `x` and row `y` of a capture, which is 240 pixels wide, comes to stand in
/// column `y` and row `239 - x` of the windows: at `y` in the main window, or, with the screens
/// split, at `y - 400` in the secondary window where `y` is past the upper screen.
pub proof fn capture_is_shown_upright(capture: Seq<u8>, split: bool, x: int, y: int, c: int)
    requires
        capture.len() == 240 * 720 * 3,
        0 <= x < 240,
        0 <= y < 720,
        0 <= c < 3,
    ensures
        ({
            let picture = rotated(capture, 240, 720);
            let byte = capture[(x + y * 240) * 3 + c];
            let row = 239 - x;
            if !split {
                painted(picture, 172_800, 0, main_width(split))[(y + row * 720) * 4 + c] == byte
            } else if y < 400 {
                painted(picture, 96_000, 0, main_width(split))[(y + row * 400) * 4 + c] == byte
            } else {
                painted(picture, 76_800, 400, 320)[(y - 400 + row * 320) * 4 + c] == byte
            }
        }),
{
    capture_reaches_windows(capture, split, x, y, c);
}

} // verus!
