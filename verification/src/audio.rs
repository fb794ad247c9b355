//! Audio packets: decoding the samples and finding where the audio ends.
use crate::constants::av::AUDIO_BUFFER_SIZE;
use crate::constants::av::AUDIO_NUM_ZEROES_CHECK_SIZE;
use crate::constants::av::AUDIO_NUM_ZEROES_END_DELIMETER;
use vstd::prelude::*;

verus! {

/// `n` silent samples follow from sample `i` on.
pub open spec fn silent_at(samples: Seq<i16>, i: int, n: int) -> bool {
    &&& 0 <= i
    &&& i + n <= samples.len()
    &&& forall|j: int| i <= j < i + n ==> samples[j] == 0
}

/// `end` is the first sample at which a run of `n` silent ones starts, or the number of samples
/// where there is none.
pub open spec fn is_first_silence(samples: Seq<i16>, n: int, end: int) -> bool {
    &&& 0 <= end <= samples.len()
    &&& end < samples.len() ==> silent_at(samples, end, n)
    &&& forall|j: int| 0 <= j < end ==> !#[trigger] silent_at(samples, j, n)
}

/// The first sample at which a run of `n` silent ones starts, or the number of samples where
/// there is none.
pub open spec fn first_silence(samples: Seq<i16>, n: int) -> int {
    choose|end: int| is_first_silence(samples, n, end)
}

/// Where the audio of a packet ends: at the first long run of silence, or, where that comes
/// within the first samples or the packet is short, at the first shorter run.
pub open spec fn audio_end(samples: Seq<i16>) -> int {
    let end = first_silence(samples, AUDIO_NUM_ZEROES_END_DELIMETER as int);
    if end >= AUDIO_NUM_ZEROES_END_DELIMETER {
        end
    } else {
        first_silence(samples, AUDIO_NUM_ZEROES_CHECK_SIZE as int)
    }
}

/// Where no run of silence starts before sample `i`, there is a first one from there on.
proof fn lemma_silence_from(samples: Seq<i16>, n: int, i: int) -> (end: int)
    requires
        0 <= i <= samples.len(),
        forall|j: int| 0 <= j < i ==> !#[trigger] silent_at(samples, j, n),
    ensures
        is_first_silence(samples, n, end),
    decreases samples.len() - i,
{
    if i < samples.len() && !silent_at(samples, i, n) {
        lemma_silence_from(samples, n, i + 1)
    } else {
        i
    }
}

/// What `first_silence` is: a run of `n` silent samples starts there, or it is the number of
/// samples, and no such run starts before.
pub proof fn first_silence_is_first(samples: Seq<i16>, n: int)
    ensures
        is_first_silence(samples, n, first_silence(samples, n)),
{
    let end = lemma_silence_from(samples, n, 0);
    assert(is_first_silence(samples, n, end));
}

/// Only one sample is the first at which a run of `n` silent ones starts.
pub proof fn first_silence_is_unique(samples: Seq<i16>, n: int, end: int)
    requires
        0 < n,
        is_first_silence(samples, n, end),
    ensures
        first_silence(samples, n) == end,
{
    first_silence_is_first(samples, n);
    let other = first_silence(samples, n);
    if other < end {
        assert(silent_at(samples, other, n));
    } else if end < other {
        assert(silent_at(samples, end, n));
    }
}

/// Finds the first run of `n` silent samples.
fn find_silence(samples: &[i16], n: usize) -> (end: usize)
    requires
        0 < n,
    ensures
        end == first_silence(samples@, n as int),
{
    // Number of silent samples just before sample `i`.
    let mut run: usize = 0;
    let mut i: usize = 0;
    while i < samples.len()
        invariant
            0 <= run <= i <= samples@.len(),
            run < n,
            forall|j: int| i - run <= j < i ==> samples@[j] == 0,
            run < i ==> samples@[i - run - 1] != 0,
            forall|j: int| 0 <= j && j + n <= i ==> !#[trigger] silent_at(samples@, j, n as int),
        decreases samples@.len() - i,
    {
        if samples[i] == 0 {
            run = run + 1;
        } else {
            run = 0;
        }
        i = i + 1;
        assert forall|j: int|
            0 <= j && j + n <= i && (run < n || j < i - n) implies !#[trigger] silent_at(
            samples@,
            j,
            n as int,
        ) by {
            if j + n == i {
                assert(samples@[i - run - 1] != 0);
            }
        }
        if run == n {
            assert(silent_at(samples@, i - n, n as int));
            proof {
                first_silence_is_unique(samples@, n as int, i - n);
            }
            return i - n;
        }
    }
    proof {
        first_silence_is_unique(samples@, n as int, samples@.len() as int);
    }
    samples.len()
}

/// Finds where the audio of a packet ends. It's unlikely that audio is completely silent unless
/// it's the device indicating the end of the frame.
pub fn find_audio_frame_end(samples: &[i16]) -> (end: usize)
    ensures
        end == audio_end(samples@),
{
    let frame_end: usize = find_silence(samples, AUDIO_NUM_ZEROES_END_DELIMETER);
    if frame_end >= AUDIO_NUM_ZEROES_END_DELIMETER {
        return frame_end;
    }
    find_silence(samples, AUDIO_NUM_ZEROES_CHECK_SIZE)
}

/// The sample made of a low and a high byte, in two's complement.
pub open spec fn sample_of(low: u8, high: u8) -> i16 {
    if high < 128 {
        (high * 256 + low) as i16
    } else {
        (high * 256 + low - 65536) as i16
    }
}

/// The samples of a packet, two bytes each, the low byte first. A last odd byte is left out.
pub open spec fn decoded(audio: Seq<u8>) -> Seq<i16> {
    Seq::new(audio.len() / 2, |i: int| sample_of(audio[2 * i], audio[2 * i + 1]))
}

/// Decodes the samples of a packet.
pub fn decode_samples(audio: &[u8]) -> (samples: Vec<i16>)
    ensures
        samples@ == decoded(audio@),
        samples@.len() == audio@.len() / 2,
        forall|i: int|
            0 <= i < samples@.len() ==> (#[trigger] samples@[i]) as int % 65536 == audio@[2 * i + 1]
                * 256 + audio@[2 * i],
{
    let mut samples: Vec<i16> = Vec::new();
    let count: usize = audio.len() / 2;
    let mut i: usize = 0;
    while i < count
        invariant
            i <= count,
            count == audio@.len() / 2,
            audio@.len() <= usize::MAX,
            samples@ == decoded(audio@).take(i as int),
        decreases count - i,
    {
        let low: u8 = audio[2 * i];
        let high: u8 = audio[2 * i + 1];
        let sample: i16 = (high as i16) << 8 | (low as i16);
        assert(high < 128 ==> ((high as i16) << 8 | (low as i16)) == high * 256 + low)
            by (bit_vector);
        assert(high >= 128 ==> ((high as i16) << 8 | (low as i16)) == high * 256 + low - 65536)
            by (bit_vector);
        samples.push(sample);
        i = i + 1;
        assert(samples@ =~= decoded(audio@).take(i as int));
    }
    assert(samples@ =~= decoded(audio@));
    assert forall|i: int| 0 <= i < samples@.len() implies (#[trigger] samples@[i]) as int % 65536
        == audio@[2 * i + 1] * 256 + audio@[2 * i] by {
        samples_are_little_endian(audio@, i);
    }
    samples
}

/// The samples of a packet that are to be played: all before the end of its audio.
pub fn serve_audio(audio: &[u8; AUDIO_BUFFER_SIZE]) -> (samples: Vec<i16>)
    ensures
        samples@ == decoded(audio@).take(audio_end(decoded(audio@))),
{
    let mut samples: Vec<i16> = decode_samples(audio);
    let split_pt: usize = find_audio_frame_end(samples.as_slice());
    proof {
        audio_ends_at_silence(samples@);
    }
    samples.truncate(split_pt);
    samples
}

/// The audio ends within the packet, at silence or at the end of the packet, and no long run of
/// silence starts before its end.
pub proof fn audio_ends_at_silence(samples: Seq<i16>)
    ensures
        0 <= audio_end(samples) <= samples.len(),
        audio_end(samples) < samples.len() ==> silent_at(
            samples,
            audio_end(samples),
            AUDIO_NUM_ZEROES_CHECK_SIZE as int,
        ),
        forall|j: int|
            0 <= j < audio_end(samples) ==> !#[trigger] silent_at(
                samples,
                j,
                AUDIO_NUM_ZEROES_END_DELIMETER as int,
            ),
{
    first_silence_is_first(samples, AUDIO_NUM_ZEROES_END_DELIMETER as int);
    first_silence_is_first(samples, AUDIO_NUM_ZEROES_CHECK_SIZE as int);
    assert forall|j: int|
        #[trigger] silent_at(samples, j, AUDIO_NUM_ZEROES_END_DELIMETER as int) implies silent_at(
        samples,
        j,
        AUDIO_NUM_ZEROES_CHECK_SIZE as int,
    ) by {}
}

/// A packet without silence is played whole.
pub proof fn audio_without_silence_is_whole(samples: Seq<i16>)
    requires
        forall|j: int| !#[trigger] silent_at(samples, j, AUDIO_NUM_ZEROES_CHECK_SIZE as int),
    ensures
        audio_end(samples) == samples.len(),
{
    audio_ends_at_silence(samples);
}

/// Nothing of a silent packet is played.
pub proof fn silent_packet_is_dropped(samples: Seq<i16>)
    requires
        samples.len() >= AUDIO_NUM_ZEROES_CHECK_SIZE,
        forall|j: int| 0 <= j < samples.len() ==> samples[j] == 0,
    ensures
        audio_end(samples) == 0,
{
    assert(silent_at(samples, 0, AUDIO_NUM_ZEROES_CHECK_SIZE as int));
    first_silence_is_unique(samples, AUDIO_NUM_ZEROES_CHECK_SIZE as int, 0);
    if samples.len() >= AUDIO_NUM_ZEROES_END_DELIMETER {
        assert(silent_at(samples, 0, AUDIO_NUM_ZEROES_END_DELIMETER as int));
        first_silence_is_unique(samples, AUDIO_NUM_ZEROES_END_DELIMETER as int, 0);
    } else {
        first_silence_is_first(samples, AUDIO_NUM_ZEROES_END_DELIMETER as int);
    }
}

/// What is left of a packet once its end is cut off is all audio: looking for the end again
/// finds nothing more to cut.
pub proof fn cutting_audio_twice_is_cutting_once(samples: Seq<i16>)
    ensures
        audio_end(samples.take(audio_end(samples))) == audio_end(samples),
{
    let end = audio_end(samples);
    let audio = samples.take(end);
    let long = AUDIO_NUM_ZEROES_END_DELIMETER as int;
    let short = AUDIO_NUM_ZEROES_CHECK_SIZE as int;
    audio_ends_at_silence(samples);
    audio_ends_at_silence(audio);
    first_silence_is_first(samples, long);
    first_silence_is_first(samples, short);
    assert forall|j: int, n: int| #[trigger] silent_at(audio, j, n) implies silent_at(
        samples,
        j,
        n,
    ) by {
        assert forall|k: int| j <= k < j + n implies samples[k] == 0 by {
            assert(audio[k] == samples[k]);
        }
    }
    first_silence_is_unique(audio, long, end);
    if end < long {
        first_silence_is_unique(audio, short, end);
    }
}

/// No byte of a packet is lost on its samples: two packets of the same even length with the
/// same samples are the same packet.
pub proof fn decoding_loses_nothing(a: Seq<u8>, b: Seq<u8>)
    requires
        a.len() == b.len(),
        a.len() % 2 == 0,
        decoded(a) == decoded(b),
    ensures
        a == b,
{
    assert forall|i: int| 0 <= i < a.len() implies a[i] == b[i] by {
        let k = i / 2;
        assert(0 <= k < a.len() / 2);
        assert(decoded(a)[k] == sample_of(a[2 * k], a[2 * k + 1]));
        assert(decoded(b)[k] == sample_of(b[2 * k], b[2 * k + 1]));
        assert(sample_of(a[2 * k], a[2 * k + 1]) == sample_of(b[2 * k], b[2 * k + 1]));
        assert(i == 2 * k || i == 2 * k + 1);
    }
    assert(a =~= b);
}

/// Each sample has the first of its two bytes as its low and the second as its high byte,
/// whatever the bytes are.
pub proof fn samples_are_little_endian(audio: Seq<u8>, i: int)
    requires
        0 <= i < audio.len() / 2,
    ensures
        decoded(audio).len() == audio.len() / 2,
        decoded(audio)[i] as int % 65536 == audio[2 * i + 1] * 256 + audio[2 * i],
{
}

/// A packet can be decoded piece by piece, if it is cut between samples.
pub proof fn decoding_goes_sample_by_sample(a: Seq<u8>, b: Seq<u8>)
    requires
        a.len() % 2 == 0,
    ensures
        decoded(a + b) == decoded(a) + decoded(b),
{
    let whole = decoded(a + b);
    let parts = decoded(a) + decoded(b);
    assert forall|i: int| 0 <= i < whole.len() implies whole[i] == parts[i] by {
        let k = a.len() as int / 2;
        if i < k {
            assert((a + b)[2 * i] == a[2 * i]);
            assert((a + b)[2 * i + 1] == a[2 * i + 1]);
        } else {
            assert((a + b)[2 * i] == b[2 * (i - k)]);
            assert((a + b)[2 * i + 1] == b[2 * (i - k) + 1]);
        }
    }
    assert(whole =~= parts);
}

/// One more in the low byte of a sample is one more in the sample, one more in its high byte is
/// 256 more, where there is room for it; no other sample changes.
pub proof fn bytes_weigh_one_and_256(audio: Seq<u8>, i: int, j: int)
    requires
        0 <= i < audio.len() / 2,
        0 <= j < audio.len() / 2,
    ensures
        audio[2 * i] < 255 ==> decoded(audio.update(2 * i, (audio[2 * i] + 1) as u8))[j]
            == decoded(audio)[j] + (if i == j {
            1int
        } else {
            0
        }),
        audio[2 * i + 1] < 255 && audio[2 * i + 1] != 127 ==> decoded(
            audio.update(2 * i + 1, (audio[2 * i + 1] + 1) as u8),
        )[j] == decoded(audio)[j] + (if i == j {
            256int
        } else {
            0
        }),
{
}

/// The audio ends at the first long run of silence that comes after the first samples, or, where
/// there is none, with the packet, however many shorter runs come before: `end` is the start of
/// 256 silent samples or the end of the packet, and no 256 samples from further ahead on are all
/// silent.
pub proof fn late_long_silence_ends_audio(samples: Seq<i16>, end: int)
    requires
        256 <= end <= samples.len(),
        end < samples.len() ==> end + 256 <= samples.len(),
        end < samples.len() ==> forall|k: int| end <= k < end + 256 ==> samples[k] == 0,
        forall|j: int|
            0 <= j < end && j + 256 <= samples.len() ==> (#[trigger] samples.skip(j)).take(256)
                != Seq::new(256, |i: int| 0i16),
    ensures
        audio_end(samples) == end,
{
    lemma_no_silence_where_sound(samples, 256, end);
    first_silence_is_unique(samples, 256, end);
}

/// Where the first long run of silence comes within the first samples, or the packet is short,
/// the audio ends at the first run of ten silent samples, or with the packet.
pub proof fn short_silence_ends_other_audio(samples: Seq<i16>, long: int, end: int)
    requires
        0 <= long <= samples.len(),
        long < 256,
        long < samples.len() ==> long + 256 <= samples.len(),
        long < samples.len() ==> forall|k: int| long <= k < long + 256 ==> samples[k] == 0,
        forall|j: int|
            0 <= j < long && j + 256 <= samples.len() ==> (#[trigger] samples.skip(j)).take(256)
                != Seq::new(256, |i: int| 0i16),
        0 <= end <= samples.len(),
        end < samples.len() ==> end + 10 <= samples.len(),
        end < samples.len() ==> forall|k: int| end <= k < end + 10 ==> samples[k] == 0,
        forall|j: int|
            0 <= j < end && j + 10 <= samples.len() ==> (#[trigger] samples.skip(j)).take(10)
                != Seq::new(10, |i: int| 0i16),
    ensures
        audio_end(samples) == end,
{
    lemma_no_silence_where_sound(samples, 256, long);
    first_silence_is_unique(samples, 256, long);
    lemma_no_silence_where_sound(samples, 10, end);
    first_silence_is_unique(samples, 10, end);
}

/// No run of silence starts where `n` samples hold a sound, or where fewer are left.
proof fn lemma_no_silence_where_sound(samples: Seq<i16>, n: nat, end: int)
    requires
        0 < n,
        0 <= end <= samples.len(),
        forall|j: int|
            0 <= j < end && j + n <= samples.len() ==> (#[trigger] samples.skip(j)).take(n as int)
                != Seq::new(n, |i: int| 0i16),
    ensures
        forall|j: int| 0 <= j < end ==> !#[trigger] silent_at(samples, j, n as int),
{
    assert forall|j: int| 0 <= j < end implies !#[trigger] silent_at(samples, j, n as int) by {
        if silent_at(samples, j, n as int) {
            assert(samples.skip(j).take(n as int) =~= Seq::new(n, |i: int| 0i16));
        }
    }
}

/// A long run of silence behind audio ends it exactly there, whatever follows the silence and
/// whatever pauses the audio has: `audio` ends in a sound, and no 256 samples of it are all
/// silent.
pub proof fn audio_up_to_long_silence_is_kept(
    audio: Seq<i16>,
    silence: Seq<i16>,
    rest: Seq<i16>,
)
    requires
        audio.len() >= 256,
        audio.last() != 0,
        forall|j: int|
            0 <= j && j + 256 <= audio.len() ==> (#[trigger] audio.skip(j)).take(256) != Seq::new(
                256,
                |i: int| 0i16,
            ),
        silence.len() == 256,
        forall|k: int| 0 <= k < silence.len() ==> silence[k] == 0,
    ensures
        audio_end(audio) == audio.len(),
        audio_end(audio + silence + rest) == audio.len(),
{
    let samples = audio + silence + rest;
    let n = audio.len() as int;
    let zeroes = Seq::new(256, |i: int| 0i16);
    assert forall|j: int| 0 <= j < n && j + 256 <= samples.len() implies (#[trigger] samples.skip(
        j,
    )).take(256) != zeroes by {
        let window = samples.skip(j).take(256);
        if j + 256 <= n {
            assert(window =~= audio.skip(j).take(256));
        } else {
            assert(window[n - 1 - j] == audio.last());
            assert(zeroes[n - 1 - j] == 0);
        }
    }
    assert forall|k: int| n <= k < n + 256 implies samples[k] == 0 by {
        assert(samples[k] == silence[k - n]);
    }
    late_long_silence_ends_audio(samples, n);
    late_long_silence_ends_audio(audio, n);
}

} // verus!
