use oxids::constants::av::{AUDIO_BUFFER_SIZE, FULL_BUFF_SIZE, VIDEO_BUFFER_SIZE};
use oxids::device::{Endpoint, DS};
use oxids::transfer::{BulkAction, BulkRead, FrameBuffer, Transmission};

fn card() -> DS {
    DS::new(Endpoint::new(1, 0, 0, 130))
}

fn read_of(length: usize) -> BulkRead {
    BulkRead { address: 130, length, timeout_ms: 100 }
}

/// Fills the front of the spare part, and says that it did.
fn read(frame: &mut FrameBuffer, chunk: &[u8]) {
    let room = frame.spare().len();
    assert_eq!(card().bulk_read(frame), read_of(room));
    frame.spare()[..chunk.len()].copy_from_slice(chunk);
    match card().populate_buffers(frame, Ok(chunk.len())) {
        BulkAction::Read(next) => assert_eq!(next, read_of(room - chunk.len())),
        _ => panic!("more should be read"),
    }
}

/// The frame that is sent on. The two packets are large, so they are kept off the stack.
fn sent(frame: &mut FrameBuffer, outcome: Result<usize, ()>) -> (Vec<u8>, Vec<u8>) {
    match &card().populate_buffers(frame, outcome) {
        BulkAction::Send(t) => (t.video.to_vec(), t.audio.to_vec()),
        _ => panic!("the frame should be sent"),
    }
}

#[test]
fn a_new_frame_is_empty() {
    let mut frame = FrameBuffer::new();
    assert_eq!(card().bulk_read(&frame), read_of(522776));
    assert_eq!(frame.spare().len(), FULL_BUFF_SIZE);
    assert!(frame.spare().iter().all(|b| *b == 0));
}

#[test]
fn nothing_read_is_nothing_sent() {
    let mut frame = FrameBuffer::new();
    assert!(matches!(card().populate_buffers(&mut frame, Ok(0)), BulkAction::Idle));
    assert!(matches!(card().populate_buffers(&mut frame, Err(())), BulkAction::Idle));
    assert_eq!(frame.spare().len(), FULL_BUFF_SIZE);
}

#[test]
fn reads_are_joined_and_padded() {
    let mut frame = FrameBuffer::new();
    read(&mut frame, &[9u8; 1000]);
    read(&mut frame, &[8u8; VIDEO_BUFFER_SIZE - 990]);
    assert_eq!(frame.spare().len(), AUDIO_BUFFER_SIZE - 10);
    let (video, audio) = sent(&mut frame, Ok(0));
    assert_eq!((video.len(), audio.len()), (VIDEO_BUFFER_SIZE, AUDIO_BUFFER_SIZE));
    assert!(video[..1000].iter().all(|b| *b == 9));
    assert!(video[1000..].iter().all(|b| *b == 8));
    assert_eq!(&audio[..10], &[8u8; 10]);
    assert!(audio[10..].iter().all(|b| *b == 0));
}

#[test]
fn an_error_ends_the_frame() {
    let mut frame = FrameBuffer::new();
    read(&mut frame, &[1]);
    assert_eq!(&sent(&mut frame, Err(())).0[..2], &[1, 0]);
}

#[test]
fn a_full_frame_leaves_nothing_to_read() {
    let mut frame = FrameBuffer::new();
    read(&mut frame, &vec![3u8; FULL_BUFF_SIZE]);
    assert_eq!(card().bulk_read(&frame), read_of(0));
    assert_eq!(sent(&mut frame, Ok(0)).1, vec![3u8; AUDIO_BUFFER_SIZE]);
}

#[test]
fn audio_is_wanted_while_few_packets_wait() {
    let t = Transmission {
        video: [0u8; VIDEO_BUFFER_SIZE],
        audio: [7u8; AUDIO_BUFFER_SIZE],
    };
    assert_eq!(t.wanted_audio(0), Some([7u8; AUDIO_BUFFER_SIZE]));
    assert_eq!(t.wanted_audio(4), Some([7u8; AUDIO_BUFFER_SIZE]));
    assert_eq!(t.wanted_audio(5), None);
}
