use oxids::constants::av::{VIDEO_BUFFER_SIZE, WINDOW_HEIGHT, WINDOW_WIDTH};
use oxids::video::{render_main, render_secondary, rotate_270, serve_video, WindowUpdateEvent};

#[test]
fn rotates_buffers() {
    let initial_buff: &[u8] = &[
        255, 0, 10, 20, 30, 40, 50, 60, 70, 80, 90, 100, 100, 90, 80, 70, 60, 50, 40, 30, 20,
        10, 0, 255,
    ];

    // Output buffer size is 3x width * height value since each has RGB values.
    let rotated_buff = rotate_270(initial_buff, 2, 4);

    let result: &[u8] = &[
        20, 30, 40, 80, 90, 100, 70, 60, 50, 10, 0, 255, 255, 0, 10, 50, 60, 70, 100, 90, 80,
        40, 30, 20,
    ];

    assert_eq!(*rotated_buff, *result);
}

#[test]
fn empty_pictures_stay_empty() {
    assert_eq!(rotate_270(&[], 0, 7), Vec::<u8>::new());
    assert_eq!(rotate_270(&[1, 2, 3], 5, 0), Vec::<u8>::new());
}

#[test]
fn bytes_behind_the_picture_are_left_out() {
    assert_eq!(rotate_270(&[1, 2, 3, 4, 5, 6, 7, 8], 2, 1), vec![4, 5, 6, 1, 2, 3]);
}

#[test]
fn four_turns_restore() {
    let picture: Vec<u8> = (0..60).collect();
    let a = rotate_270(&picture, 4, 5);
    let b = rotate_270(&a, 5, 4);
    let c = rotate_270(&b, 4, 5);
    assert_ne!(a, picture);
    assert_eq!(&b[..3], &[57, 58, 59]);
    assert_eq!(rotate_270(&c, 5, 4), picture);
}

fn capture() -> [u8; VIDEO_BUFFER_SIZE] {
    let mut video = [0u8; VIDEO_BUFFER_SIZE];
    for i in 0..VIDEO_BUFFER_SIZE {
        video[i] = (i * 7 % 251) as u8;
    }
    video
}

#[test]
fn serves_a_picture_upright() {
    let video = capture();
    let event = serve_video(&video, 5).expect("five waiting pictures are not too many");
    assert_eq!(event.video_buffer.len(), VIDEO_BUFFER_SIZE);
    // The last pixel of the first captured row comes first.
    assert_eq!(&event.video_buffer[..3], &video[239 * 3..240 * 3]);
    assert_eq!(&event.video_buffer[3..6], &video[479 * 3..480 * 3]);
}

#[test]
fn drops_pictures_when_too_many_wait() {
    assert!(serve_video(&[0u8; VIDEO_BUFFER_SIZE], 6).is_none());
    assert!(serve_video(&[0u8; VIDEO_BUFFER_SIZE], 0).is_some());
}

#[test]
fn events_keep_their_picture() {
    assert_eq!(WindowUpdateEvent::new(vec![3, 1, 4]).video_buffer, vec![3, 1, 4]);
}

#[test]
fn unsplit_window_shows_the_whole_picture() {
    let picture: Vec<u8> = (0..VIDEO_BUFFER_SIZE).map(|i| (i % 253) as u8).collect();
    let mut frame = vec![0u8; WINDOW_WIDTH * WINDOW_HEIGHT * 4];
    render_main(&mut frame, &picture, false);
    for k in 0..WINDOW_WIDTH * WINDOW_HEIGHT {
        assert_eq!(&frame[4 * k..4 * k + 3], &picture[3 * k..3 * k + 3]);
        assert_eq!(frame[4 * k + 3], 255);
    }
}

#[test]
fn split_windows_share_the_picture() {
    let picture: Vec<u8> = (0..VIDEO_BUFFER_SIZE).map(|i| (i % 253) as u8).collect();
    let mut top = vec![0u8; 400 * 240 * 4];
    let mut bottom = vec![0u8; 320 * 240 * 4];
    render_main(&mut top, &picture, true);
    render_secondary(&mut bottom, &picture);
    for y in 0..240 {
        for x in 0..720 {
            let shown = if x < 400 {
                &top[(y * 400 + x) * 4..(y * 400 + x) * 4 + 4]
            } else {
                &bottom[(y * 320 + x - 400) * 4..(y * 320 + x - 400) * 4 + 4]
            };
            let pixel = &picture[(y * 720 + x) * 3..(y * 720 + x) * 3 + 3];
            assert_eq!(&shown[..3], pixel);
            assert_eq!(shown[3], 255);
        }
    }
}

#[test]
fn captured_pixels_reach_the_windows() {
    let video = capture();
    let event = serve_video(&video, 0).unwrap();
    let mut frame = vec![0u8; WINDOW_WIDTH * WINDOW_HEIGHT * 4];
    render_main(&mut frame, &event.video_buffer, false);
    // Column 10 and row 500 of the capture: column 500 and row 229 of the window.
    let captured = (10 + 500 * 240) * 3;
    let shown = (500 + 229 * 720) * 4;
    assert_eq!(&frame[shown..shown + 3], &video[captured..captured + 3]);
}
