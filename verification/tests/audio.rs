use oxids::audio::decode_samples;
use oxids::audio::find_audio_frame_end;
use oxids::audio::serve_audio;
use oxids::constants::av::AUDIO_BUFFER_SIZE;

/// The ten samples `times` times over, followed by `silence` silent ones.
fn packet(times: usize, silence: usize) -> Vec<i16> {
    let mut samples: Vec<i16> = Vec::new();
    for _ in 0..times {
        samples.extend([255, 939, 293, 858, 494, 999, 1024, 843, 2930, 235]);
    }
    samples.extend(vec![0; silence]);
    samples
}

#[test]
fn finds_audio_frame_end_with_short_sample() {
    // With a very short sample we should still be able to discern the cutoff
    let test_buffer: Vec<i16> = packet(1, 70);
    assert_eq!(test_buffer.len(), 80);
    assert_eq!(find_audio_frame_end(&test_buffer), 10);
}

#[test]
fn finds_audio_frame_end_with_long_sample() {
    let test_buffer: Vec<i16> = packet(33, 1566);
    assert_eq!(test_buffer.len(), 1896);
    assert_eq!(find_audio_frame_end(&test_buffer), 330);
}

fn noise(n: usize) -> Vec<i16> {
    let mut v: Vec<i16> = Vec::new();
    for i in 0..n {
        v.push((i % 50 + 1) as i16);
    }
    v
}

#[test]
fn long_run_of_silence_ends_the_audio() {
    let mut v = noise(300);
    v.extend(vec![0i16; 256]);
    v.extend(noise(20));
    assert_eq!(find_audio_frame_end(&v), 300);
}

#[test]
fn a_run_one_sample_too_short_does_not_end_a_long_packet() {
    let mut v = noise(300);
    v.extend(vec![0i16; 255]);
    v.extend(noise(20));
    assert_eq!(find_audio_frame_end(&v), 575);
}

#[test]
fn short_runs_are_ignored_where_a_long_one_follows_late() {
    let mut v = noise(100);
    v.extend(vec![0i16; 20]);
    v.extend(noise(200));
    v.extend(vec![0i16; 256]);
    assert_eq!(find_audio_frame_end(&v), 320);
}

#[test]
fn early_long_run_gives_way_to_the_first_short_run() {
    let mut v = noise(30);
    v.extend(vec![0i16; 10]);
    v.extend(noise(60));
    v.extend(vec![0i16; 300]);
    assert_eq!(find_audio_frame_end(&v), 30);
}

#[test]
fn packet_without_silence_is_whole() {
    assert_eq!(find_audio_frame_end(&noise(2188)), 2188);
    assert_eq!(find_audio_frame_end(&noise(40)), 40);
    assert_eq!(find_audio_frame_end(&[]), 0);
    assert_eq!(find_audio_frame_end(&[0; 9]), 9);
}

#[test]
fn silent_packet_has_no_audio() {
    assert_eq!(find_audio_frame_end(&[0; 10]), 0);
    assert_eq!(find_audio_frame_end(&[0; 256]), 0);
    assert_eq!(find_audio_frame_end(&[0; 2188]), 0);
}

#[test]
fn cutting_twice_is_cutting_once() {
    let mut v = noise(30);
    v.extend(vec![0i16; 12]);
    v.extend(noise(7));
    let end = find_audio_frame_end(&v);
    assert_eq!(end, 30);
    assert_eq!(find_audio_frame_end(&v[..end]), 30);
}

#[test]
fn samples_are_little_endian() {
    assert_eq!(
        decode_samples(&[0x01, 0x00, 0x00, 0x01, 0xff, 0x7f, 0x00, 0x80, 0xff, 0xff, 0x2a]),
        vec![1, 256, 32767, -32768, -1]
    );
    assert_eq!(decode_samples(&[7]), Vec::<i16>::new());
}

#[test]
fn serves_the_samples_before_the_silence() {
    let mut audio = [0u8; AUDIO_BUFFER_SIZE];
    for i in 0..400 {
        audio[2 * i] = 5;
        audio[2 * i + 1] = 0xff;
    }
    assert_eq!(serve_audio(&audio), vec![-251i16; 400]);
    assert_eq!(serve_audio(&[0u8; AUDIO_BUFFER_SIZE]), Vec::<i16>::new());
    assert_eq!(serve_audio(&[1u8; AUDIO_BUFFER_SIZE]), vec![257i16; 2188]);
}
