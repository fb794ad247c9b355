//! Reading a frame from the capture card and handing its parts on.
use crate::constants::av::AUDIO_BUFFER_SIZE;
use crate::constants::av::DEFAULT_TIMEOUT_MS;
use crate::constants::av::FULL_BUFF_SIZE;
use crate::constants::av::MAX_QUEUED_FRAMES;
use crate::constants::av::VIDEO_BUFFER_SIZE;
use crate::device::DS;
use vstd::prelude::*;

verus! {

/// `n` zero bytes.
pub open spec fn zeros(n: int) -> Seq<u8> {
    Seq::new(n as nat, |i: int| 0u8)
}

/// A frame that is being read: a picture followed by an audio packet.
pub struct FrameBuffer {
    buff: Vec<u8>,
    total_bytes_recd: usize,
}

/// A frame that is being read, and how much of it has been.
#[verifier::ext_equal]
pub struct FrameView {
    pub bytes: Seq<u8>,
    pub total: int,
}

impl View for FrameBuffer {
    type V = FrameView;

    closed spec fn view(&self) -> FrameView {
        FrameView { bytes: self.buff@, total: self.total_bytes_recd as int }
    }
}

/// A bulk read from the device into the spare part of a frame.
#[derive(Debug, Clone, Copy, PartialEq, Eq, Structural)]
pub struct BulkRead {
    /// The endpoint that is read.
    pub address: u8,
    /// How many bytes are asked for.
    pub length: usize,
    pub timeout_ms: u64,
}

/// What a frame that has been read holds for the windows and for the speakers.
pub struct Transmission {
    pub video: [u8; VIDEO_BUFFER_SIZE],
    pub audio: [u8; AUDIO_BUFFER_SIZE],
}

/// What to do after a read.
pub enum BulkAction {
    /// Read on.
    Read(BulkRead),
    /// The device had nothing to send.
    Idle,
    /// The frame is complete: send its parts on.
    Send(Transmission),
}

/// The read that is due while `total` bytes of a frame have been read: at the card's endpoint,
/// for all that is left of the frame, within the usual time.
pub open spec fn due_read(address: u8, total: int) -> BulkRead {
    BulkRead {
        address,
        length: (FULL_BUFF_SIZE - total) as usize,
        timeout_ms: DEFAULT_TIMEOUT_MS,
    }
}

/// After this outcome of a read, reading goes on.
pub open spec fn reads_on(outcome: Result<usize, ()>) -> bool {
    outcome matches Ok(n) && n > 0
}

/// The number of bytes that came in with a read.
pub open spec fn bytes_in(outcome: Result<usize, ()>) -> int {
    match outcome {
        Ok(n) => n as int,
        Err(_) => 0,
    }
}

/// The audio packet of a frame is sent on while this many packets are waiting to be played.
pub open spec fn audio_wanted(queued: int) -> bool {
    queued < MAX_QUEUED_FRAMES
}

impl FrameBuffer {
    /// The frame has its full size, and no more of it has been read.
    pub open spec fn wf(self) -> bool {
        &&& self@.bytes.len() == FULL_BUFF_SIZE
        &&& 0 <= self@.total <= FULL_BUFF_SIZE
    }

    /// A frame of which nothing has been read.
    pub fn new() -> (frame: Self)
        ensures
            frame.wf(),
            frame@.bytes == zeros(FULL_BUFF_SIZE as int),
            frame@.bytes.len() == FULL_BUFF_SIZE,
            forall|i: int| 0 <= i < FULL_BUFF_SIZE ==> frame@.bytes[i] == 0,
            frame@.total == 0,
    {
        let frame = FrameBuffer { buff: vec![0u8; FULL_BUFF_SIZE], total_bytes_recd: 0 };
        assert(frame@.bytes =~= zeros(FULL_BUFF_SIZE as int));
        frame
    }

    /// The part of the frame that is still to be read, for the device to fill.
    pub fn spare(&mut self) -> (spare: &mut [u8])
        requires
            old(self).wf(),
        ensures
            spare@ == old(self)@.bytes.skip(old(self)@.total),
            final(self)@.bytes == old(self)@.bytes.take(old(self)@.total) + final(spare)@,
            final(self)@.total == old(self)@.total,
    {
        let (_, spare) = self.buff.as_mut_slice().split_at_mut(self.total_bytes_recd);
        spare
    }
}

impl Transmission {
    /// The audio packet, unless too many packets (`audio_queued`) are waiting to be played.
    pub fn wanted_audio(&self, audio_queued: usize) -> (audio: Option<[u8; AUDIO_BUFFER_SIZE]>)
        ensures
            audio is Some <==> audio_wanted(audio_queued as int),
            audio is Some <==> audio_queued < MAX_QUEUED_FRAMES,
            audio matches Some(a) ==> a@ == self.audio@,
    {
        if audio_queued < MAX_QUEUED_FRAMES {
            Some(self.audio)
        } else {
            None
        }
    }
}

/// Copies a slice to an array of the same length.
fn to_array<const N: usize>(bytes: &[u8]) -> (array: [u8; N])
    requires
        bytes@.len() == N,
    ensures
        array@ == bytes@,
{
    let mut array: [u8; N] = [0u8; N];
    let mut i: usize = 0;
    while i < N
        invariant
            i <= N,
            bytes@.len() == N,
            array@.len() == N,
            forall|j: int| 0 <= j < i ==> array@[j] == bytes@[j],
        decreases N - i,
    {
        array[i] = bytes[i];
        i = i + 1;
    }
    assert(array@ =~= bytes@);
    array
}

impl DS {
    /// The read that is due for a frame, the first one and each one after.
    pub fn bulk_read(&self, frame: &FrameBuffer) -> (read: BulkRead)
        requires
            frame.wf(),
        ensures
            read == due_read(self.endpoint.address, frame@.total),
            read.address == self.endpoint.address,
            read.length == FULL_BUFF_SIZE - frame@.total,
            read.timeout_ms == DEFAULT_TIMEOUT_MS,
    {
        BulkRead {
            address: self.endpoint.address,
            length: FULL_BUFF_SIZE - frame.total_bytes_recd,
            timeout_ms: DEFAULT_TIMEOUT_MS,
        }
    }

    /// Takes the outcome of a read into the spare part of the frame: the number of bytes that
    /// came in, or `Err`. As long as bytes come in, more are read. When none do, the frame is
    /// complete: where any had come in, its picture and its audio packet are sent on.
    pub fn populate_buffers(&self, frame: &mut FrameBuffer, outcome: Result<usize, ()>) -> (action:
        BulkAction)
        requires
            old(frame).wf(),
            outcome matches Ok(n) ==> old(frame)@.total + n <= FULL_BUFF_SIZE,
        ensures
            final(frame).wf(),
            final(frame)@.bytes == old(frame)@.bytes,
            final(frame)@.total == old(frame)@.total + bytes_in(outcome),
            outcome matches Ok(n) ==> final(frame)@.total == old(frame)@.total + n,
            outcome is Err ==> final(frame)@.total == old(frame)@.total,
            action is Read <==> (outcome matches Ok(n) && n > 0),
            action is Idle <==> !(outcome matches Ok(n) && n > 0) && old(frame)@.total == 0,
            action is Send <==> !(outcome matches Ok(n) && n > 0) && old(frame)@.total != 0,
            action matches BulkAction::Read(read) ==> {
                &&& read.address == self.endpoint.address
                &&& read.length == FULL_BUFF_SIZE - final(frame)@.total
                &&& read.timeout_ms == DEFAULT_TIMEOUT_MS
            },
            match action {
                BulkAction::Read(read) => {
                    &&& reads_on(outcome)
                    &&& read == due_read(self.endpoint.address, final(frame)@.total)
                },
                BulkAction::Idle => {
                    &&& !reads_on(outcome)
                    &&& old(frame)@.total == 0
                },
                BulkAction::Send(t) => {
                    &&& !reads_on(outcome)
                    &&& old(frame)@.total > 0
                    &&& t.video@ == old(frame)@.bytes.take(VIDEO_BUFFER_SIZE as int)
                    &&& t.audio@ == old(frame)@.bytes.skip(VIDEO_BUFFER_SIZE as int)
                },
            },
    {
        if let Ok(bytes_recd_this_time) = outcome {
            if bytes_recd_this_time > 0 {
                frame.total_bytes_recd = frame.total_bytes_recd + bytes_recd_this_time;
                return BulkAction::Read(self.bulk_read(frame));
            }
        }
        if frame.total_bytes_recd == 0 {
            return BulkAction::Idle;
        }
        let (vid_slice, audio_slice) = frame.buff.as_slice().split_at(VIDEO_BUFFER_SIZE);
        BulkAction::Send(
            Transmission { video: to_array(vid_slice), audio: to_array(audio_slice) },
        )
    }
}

/// All bytes that came in with a number of reads.
pub open spec fn total_in(outcomes: Seq<Result<usize, ()>>) -> int
    decreases outcomes.len(),
{
    if outcomes.len() == 0 {
        0
    } else {
        total_in(outcomes.drop_last()) + bytes_in(outcomes.last())
    }
}

/// The read of a new frame that is due after the given outcomes, or `None` once reading has
/// ended.
pub open spec fn read_after(address: u8, outcomes: Seq<Result<usize, ()>>) -> Option<BulkRead>
    decreases outcomes.len(),
{
    if outcomes.len() == 0 {
        Some(due_read(address, 0))
    } else if read_after(address, outcomes.drop_last()) is Some && reads_on(outcomes.last()) {
        Some(due_read(address, total_in(outcomes)))
    } else {
        None
    }
}

/// Reading a frame goes on for as long as bytes come in, and ends with the first read that
/// brings none or fails, and with nothing else. Every read is made at the same endpoint, with
/// the same time limit, for what the reads before it left of the frame.
pub proof fn reading_ends_when_nothing_comes(address: u8, outcomes: Seq<Result<usize, ()>>)
    ensures
        read_after(address, outcomes) is Some <==> forall|i: int|
            0 <= i < outcomes.len() ==> (#[trigger] outcomes[i] matches Ok(n) && n > 0),
        read_after(address, outcomes) matches Some(read) ==> read == (BulkRead {
            address,
            length: (FULL_BUFF_SIZE - total_in(outcomes)) as usize,
            timeout_ms: DEFAULT_TIMEOUT_MS,
        }),
    decreases outcomes.len(),
{
    if outcomes.len() > 0 {
        let before = outcomes.drop_last();
        reading_ends_when_nothing_comes(address, before);
        if read_after(address, before) is Some && reads_on(outcomes.last()) {
            assert forall|i: int| 0 <= i < outcomes.len() implies reads_on(
                #[trigger] outcomes[i],
            ) by {
                if i < before.len() {
                    assert(before[i] == outcomes[i]);
                }
            }
        } else if forall|i: int| 0 <= i < outcomes.len() ==> reads_on(#[trigger] outcomes[i]) {
            assert(reads_on(outcomes[outcomes.len() - 1]));
            assert forall|i: int| 0 <= i < before.len() implies reads_on(#[trigger] before[i]) by {
                assert(before[i] == outcomes[i]);
            }
        }
    }
}

/// Sending audio packets on only while they are wanted never lets more than
/// `MAX_QUEUED_FRAMES` of them wait.
pub proof fn audio_queue_stays_bounded(queued: int)
    requires
        queued <= MAX_QUEUED_FRAMES,
    ensures
        audio_wanted(queued) ==> queued + 1 <= MAX_QUEUED_FRAMES,
{
}

/// An audio packet is wanted with every number of waiting packets up to four, and with none from
/// five on: one is left out only when the queue is full.
pub proof fn audio_is_wanted_while_there_is_room(queued: int)
    ensures
        audio_wanted(queued) <==> queued + 1 <= 5,
{
}

/// Where an audio packet is wanted, it is wanted too with fewer packets waiting, and down to the
/// last free place.
pub proof fn fewer_waiting_packets_do_no_harm(queued: int, fewer: int)
    requires
        fewer <= queued,
    ensures
        audio_wanted(queued) ==> audio_wanted(fewer),
        audio_wanted(MAX_QUEUED_FRAMES - 1),
        !audio_wanted(MAX_QUEUED_FRAMES as int),
{
}

/// Reading goes on after every read that brings bytes, however many, and after no other.
pub proof fn reading_goes_on_while_bytes_come(outcome: Result<usize, ()>)
    ensures
        outcome matches Ok(n) ==> (reads_on(outcome) <==> n > 0),
        outcome matches Ok(n) ==> bytes_in(outcome) == n,
        outcome is Err ==> !reads_on(outcome) && bytes_in(outcome) == 0,
{
}

/// How many bytes a read brings makes no difference but to what is left: two reads in a row
/// leave the same to be read as one that brings all their bytes.
pub proof fn cutting_of_reads_makes_no_difference(
    address: u8,
    outcomes: Seq<Result<usize, ()>>,
    a: usize,
    b: usize,
)
    requires
        0 < a,
        0 < b,
        a + b <= usize::MAX,
    ensures
        read_after(address, outcomes.push(Ok(a)).push(Ok(b))) == read_after(
            address,
            outcomes.push(Ok((a + b) as usize)),
        ),
        read_after(address, outcomes) is Some ==> read_after(address, outcomes.push(Ok(a))) is Some,
        read_after(address, outcomes.push(Ok(0))) is None,
        read_after(address, outcomes.push(Err(()))) is None,
{
    reveal_with_fuel(read_after, 3);
    reveal_with_fuel(total_in, 3);
    let one = outcomes.push(Ok(a));
    let two = one.push(Ok(b));
    let both = outcomes.push(Ok((a + b) as usize));
    assert(two.drop_last() =~= one);
    assert(one.drop_last() =~= outcomes);
    assert(both.drop_last() =~= outcomes);
}

/// A frame after `chunk` has been read where `total` bytes of it had been.
pub open spec fn received(buff: Seq<u8>, total: int, chunk: Seq<u8>) -> Seq<u8> {
    buff.take(total) + chunk + buff.skip(total + chunk.len())
}

/// A device that fills the front of the spare part of a frame with `chunk` adds `chunk` to what
/// has been read: before it and behind it the frame is unchanged.
pub proof fn read_lands_behind_earlier_reads(buff: Seq<u8>, total: int, chunk: Seq<u8>)
    requires
        0 <= total,
        total + chunk.len() <= buff.len(),
    ensures
        buff.take(total) + (chunk + buff.skip(total).skip(chunk.len() as int)) == received(
            buff,
            total,
            chunk,
        ),
{
    assert(buff.take(total) + (chunk + buff.skip(total).skip(chunk.len() as int)) =~= received(
        buff,
        total,
        chunk,
    ));
}

/// The bytes of several reads, one after the other.
pub open spec fn joined(chunks: Seq<Seq<u8>>) -> Seq<u8>
    decreases chunks.len(),
{
    if chunks.len() == 0 {
        Seq::empty()
    } else {
        joined(chunks.drop_last()) + chunks.last()
    }
}

/// A new frame after several reads.
pub open spec fn frame_after(chunks: Seq<Seq<u8>>) -> Seq<u8>
    decreases chunks.len(),
{
    if chunks.len() == 0 {
        zeros(FULL_BUFF_SIZE as int)
    } else {
        received(
            frame_after(chunks.drop_last()),
            joined(chunks.drop_last()).len() as int,
            chunks.last(),
        )
    }
}

/// A frame holds the bytes that were read, in order, and zeros behind them. Its picture and its
/// audio packet are the two parts of that.
pub proof fn frame_holds_what_was_read(chunks: Seq<Seq<u8>>)
    requires
        joined(chunks).len() <= FULL_BUFF_SIZE,
    ensures
        frame_after(chunks) == joined(chunks) + zeros(FULL_BUFF_SIZE - joined(chunks).len()),
        frame_after(chunks).take(VIDEO_BUFFER_SIZE as int).len() == VIDEO_BUFFER_SIZE,
        frame_after(chunks).skip(VIDEO_BUFFER_SIZE as int).len() == AUDIO_BUFFER_SIZE,
        frame_after(chunks).take(VIDEO_BUFFER_SIZE as int) + frame_after(chunks).skip(
            VIDEO_BUFFER_SIZE as int,
        ) == joined(chunks) + zeros(FULL_BUFF_SIZE - joined(chunks).len()),
    decreases chunks.len(),
{
    if chunks.len() > 0 {
        frame_holds_what_was_read(chunks.drop_last());
    }
    let frame = frame_after(chunks);
    assert(frame =~= joined(chunks) + zeros(FULL_BUFF_SIZE - joined(chunks).len()));
    assert(frame.take(VIDEO_BUFFER_SIZE as int) + frame.skip(VIDEO_BUFFER_SIZE as int) =~= frame);
}

/// A frame is well formed exactly when it has its full size and no more than that has been read.
pub proof fn frames_have_room_for_a_picture_and_audio(frame: FrameBuffer)
    ensures
        frame.wf() <==> frame@.bytes.len() == 518_400 + 4376 && 0 <= frame@.total <= 518_400 + 4376,
{
}

} // verus!
