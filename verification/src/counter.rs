//! Counting polls: how many there are per second, and when to pause.
use crate::constants::av::MAX_PERMITTED_DATA_POLLS_PER_SECOND;
use crate::constants::av::OVERPOLL_COOLDOWN_MS;
use vstd::prelude::*;

verus! {

/// Nanoseconds in a second.
pub const NANOS_PER_SEC: i128 = 1_000_000_000;

/// A reading of the system clock: the seconds and nanoseconds since the start of 1970, or, as
/// `Err`, until then.
pub type ClockReading = Result<(u64, u32), (u64, u32)>;

/// Reads the system clock through `std::time::SystemTime::elapsed`, called on the start of 1970
/// (`std::time::UNIX_EPOCH`). Nothing is claimed of what the clock shows. The contracts of the
/// functions that go by the clock speak of what this function returned.
#[verifier::external_body]
pub fn read_clock() -> ClockReading {
    match std::time::UNIX_EPOCH.elapsed() {
        Ok(since) => Ok((since.as_secs(), since.subsec_nanos())),
        Err(until) => Err((until.duration().as_secs(), until.duration().subsec_nanos())),
    }
}

/// The nanoseconds since the start of 1970 that the clock shows.
pub open spec fn nanos_of(reading: ClockReading) -> int {
    match reading {
        Ok((secs, nanos)) => secs * NANOS_PER_SEC + nanos,
        Err((secs, nanos)) => -(secs * NANOS_PER_SEC + nanos),
    }
}

/// Converts a reading of the clock to nanoseconds since the start of 1970.
pub fn to_nanos(reading: ClockReading) -> (time: i128)
    ensures
        time == nanos_of(reading),
        reading matches Ok((secs, nanos)) ==> time == secs * 1_000_000_000 + nanos,
        reading matches Err((secs, nanos)) ==> time == -(secs * 1_000_000_000 + nanos),
{
    match reading {
        Ok((secs, nanos)) => secs as i128 * NANOS_PER_SEC + nanos as i128,
        Err((secs, nanos)) => -(secs as i128 * NANOS_PER_SEC + nanos as i128),
    }
}

/// The digits of a number.
pub open spec fn digits(n: nat) -> Seq<char>
    decreases n,
{
    if n < 10 {
        seq![(48 + n) as char]
    } else {
        digits(n / 10).push((48 + n % 10) as char)
    }
}

/// A number in decimal notation.
pub open spec fn decimal(n: int) -> Seq<char> {
    if n < 0 {
        seq!['-'] + digits((-n) as nat)
    } else {
        digits(n as nat)
    }
}

/// The character of a digit.
fn digit_str(digit: u32) -> (text: &'static str)
    requires
        digit < 10,
    ensures
        text@ == seq![(48 + digit) as char],
{
    proof {
        reveal_strlit("0");
        reveal_strlit("1");
        reveal_strlit("2");
        reveal_strlit("3");
        reveal_strlit("4");
        reveal_strlit("5");
        reveal_strlit("6");
        reveal_strlit("7");
        reveal_strlit("8");
        reveal_strlit("9");
    }
    let text = match digit {
        0 => "0",
        1 => "1",
        2 => "2",
        3 => "3",
        4 => "4",
        5 => "5",
        6 => "6",
        7 => "7",
        8 => "8",
        _ => "9",
    };
    assert(text@ =~= seq![(48 + digit) as char]);
    text
}

/// Appends the digits of a number.
fn append_digits(text: &mut String, n: u32)
    ensures
        final(text)@ == old(text)@ + digits(n as nat),
    decreases n,
{
    if n >= 10 {
        append_digits(text, n / 10);
    }
    text.append(digit_str(n % 10));
    assert(text@ =~= old(text)@ + digits(n as nat));
}

/// Appends a number in decimal notation.
fn append_decimal(text: &mut String, n: i32)
    ensures
        final(text)@ == old(text)@ + decimal(n as int),
{
    if n < 0 {
        proof {
            reveal_strlit("-");
        }
        text.append("-");
        append_digits(text, (-(n as i64)) as u32);
    } else {
        append_digits(text, n as u32);
    }
    assert(text@ =~= old(text)@ + decimal(n as int));
}

/// Counts frames, or polls, per second.
pub struct Counter {
    pub name: String,
    /// When the count started, in nanoseconds since the start of 1970.
    pub start_time: i128,
    pub current_frames: i32,
}

/// More than a second has gone by since `start`.
pub open spec fn second_passed(start: int, now: int) -> bool {
    now - NANOS_PER_SEC > start
}

/// The start of the count and the count itself after one more frame: after more than a second
/// the count starts anew with this frame.
pub open spec fn counted(start: int, frames: int, now: int) -> (int, int) {
    if second_passed(start, now) {
        (now, 1)
    } else {
        (start, frames + 1)
    }
}

/// What is reported at one more frame: the count, once more than a second has gone by.
pub open spec fn reported(start: int, frames: int, now: int) -> Option<int> {
    if second_passed(start, now) {
        Some(frames)
    } else {
        None
    }
}

/// How a count is reported.
pub open spec fn report_text(name: Seq<char>, frames: int) -> Seq<char> {
    name + " frames/second: "@ + decimal(frames)
}

impl Counter {
    /// `after` is what this counter becomes, and `report` what it reports, at one more frame at
    /// the time `now`.
    pub open spec fn updates_to(self, now: int, after: Counter, report: Option<String>) -> bool {
        let next = counted(self.start_time as int, self.current_frames as int, now);
        &&& after.name@ == self.name@
        &&& after.start_time == next.0
        &&& after.current_frames == next.1
        &&& match reported(self.start_time as int, self.current_frames as int, now) {
            Some(frames) => report matches Some(line) && line@ == report_text(self.name@, frames),
            None => report is None,
        }
    }

    /// A counter that starts now.
    pub fn new(name: String) -> (counter: Self)
        ensures
            counter.name@ == name@,
            counter.current_frames == 0,
            exists|reading: ClockReading|
                call_ensures(read_clock, (), reading) && counter.start_time == #[trigger] nanos_of(
                    reading,
                ),
    {
        let reading = read_clock();
        let start_time: i128 = to_nanos(reading);
        assert(start_time == nanos_of(reading));
        Self::starting_at(name, start_time)
    }

    /// A counter that starts at the given time.
    pub fn starting_at(name: String, start_time: i128) -> (counter: Self)
        ensures
            counter.name@ == name@,
            counter.start_time == start_time,
            counter.current_frames == 0,
    {
        Self { name, start_time, current_frames: 0 }
    }

    /// Counts a frame now. Once more than a second has gone by, the count is reported in the
    /// line that is returned, and starts anew.
    pub fn maybe_print_fps(&mut self) -> (report: Option<String>)
        requires
            old(self).current_frames < i32::MAX,
        ensures
            exists|reading: ClockReading|
                call_ensures(read_clock, (), reading) && old(self).updates_to(
                    #[trigger] nanos_of(reading),
                    *final(self),
                    report,
                ),
    {
        let reading = read_clock();
        let current_time: i128 = to_nanos(reading);
        assert(current_time == nanos_of(reading));
        self.update(current_time)
    }

    /// Counts a frame at the given time.
    pub fn update(&mut self, current_time: i128) -> (report: Option<String>)
        requires
            current_time - old(self).start_time > 1_000_000_000 || old(self).current_frames
                < i32::MAX,
        ensures
            old(self).updates_to(current_time as int, *final(self), report),
            final(self).name@ == old(self).name@,
            current_time - old(self).start_time > 1_000_000_000 ==> {
                &&& final(self).start_time == current_time
                &&& final(self).current_frames == 1
                &&& report matches Some(line) && line@ == old(self).name@ + " frames/second: "@
                    + decimal(old(self).current_frames as int)
            },
            current_time - old(self).start_time <= 1_000_000_000 ==> {
                &&& final(self).start_time == old(self).start_time
                &&& final(self).current_frames == old(self).current_frames + 1
                &&& report is None
            },
    {
        let one_second_ago: Option<i128> = current_time.checked_sub(NANOS_PER_SEC);
        let passed: bool = match one_second_ago {
            Some(t) => t > self.start_time,
            None => false,
        };
        let mut report: Option<String> = None;
        if passed {
            self.start_time = current_time;
            let mut line: String = self.name.clone();
            line.append(" frames/second: ");
            append_decimal(&mut line, self.current_frames);
            report = Some(line);
            self.current_frames = 0;
        }
        self.increment_frame();
        report
    }

    pub fn increment_frame(&mut self)
        requires
            old(self).current_frames < i32::MAX,
        ensures
            final(self).current_frames == old(self).current_frames + 1,
            final(self).name == old(self).name,
            final(self).start_time == old(self).start_time,
    {
        self.current_frames = self.current_frames + 1;
    }
}

/// The pause, in milliseconds, that a count of polls calls for.
pub open spec fn cooldown(frames: int) -> Option<u64> {
    if frames > MAX_PERMITTED_DATA_POLLS_PER_SECOND {
        Some(OVERPOLL_COOLDOWN_MS)
    } else {
        None
    }
}

/// What to do after a poll.
pub struct PollOutcome {
    /// A line to print.
    pub report: Option<String>,
    /// How long to pause, in milliseconds.
    pub cooldown_ms: Option<u64>,
}

/// Tells what to do after the device has been polled. Polls are counted in debug mode only. Once
/// more of them have been counted than are permitted per second, a pause follows each, so that a
/// device that is closed is not polled over and over.
pub fn after_poll(polls: &mut Counter, debug: u8) -> (outcome: PollOutcome)
    requires
        debug > 0 ==> old(polls).current_frames < i32::MAX,
    ensures
        debug == 0 ==> outcome.report is None && *final(polls) == *old(polls),
        debug > 0 ==> exists|reading: ClockReading|
            call_ensures(read_clock, (), reading) && old(polls).updates_to(
                #[trigger] nanos_of(reading),
                *final(polls),
                outcome.report,
            ),
        outcome.cooldown_ms == cooldown(final(polls).current_frames as int),
        final(polls).current_frames > MAX_PERMITTED_DATA_POLLS_PER_SECOND ==> outcome.cooldown_ms
            == Some(OVERPOLL_COOLDOWN_MS),
        final(polls).current_frames <= MAX_PERMITTED_DATA_POLLS_PER_SECOND
            ==> outcome.cooldown_ms is None,
{
    let report: Option<String> = if debug > 0 {
        polls.maybe_print_fps()
    } else {
        None
    };
    let cooldown_ms: Option<u64> = if polls.current_frames > MAX_PERMITTED_DATA_POLLS_PER_SECOND {
        Some(OVERPOLL_COOLDOWN_MS)
    } else {
        None
    };
    PollOutcome { report, cooldown_ms }
}

/// The start of the count and the count itself after frames at the given times.
pub open spec fn count_run(start: int, frames: int, times: Seq<int>) -> (int, int)
    decreases times.len(),
{
    if times.len() == 0 {
        (start, frames)
    } else {
        let (s, f) = count_run(start, frames, times.drop_last());
        counted(s, f, times.last())
    }
}

/// The sum of all counts that are reported while frames come at the given times.
pub open spec fn reported_total(start: int, frames: int, times: Seq<int>) -> int
    decreases times.len(),
{
    if times.len() == 0 {
        0
    } else {
        let (s, f) = count_run(start, frames, times.drop_last());
        reported_total(start, frames, times.drop_last()) + match reported(s, f, times.last()) {
            Some(n) => n,
            None => 0,
        }
    }
}

/// Every frame is counted exactly once: what has been reported and what is still counted add up
/// to the number of frames.
pub proof fn every_frame_is_counted_once(start: int, frames: int, times: Seq<int>)
    ensures
        reported_total(start, frames, times) + count_run(start, frames, times).1 == frames
            + times.len(),
    decreases times.len(),
{
    if times.len() > 0 {
        every_frame_is_counted_once(start, frames, times.drop_last());
    }
}

/// Within a second of the start nothing is reported and the count grows with every frame.
pub proof fn count_grows_within_a_second(start: int, frames: int, times: Seq<int>)
    requires
        forall|i: int| 0 <= i < times.len() ==> !second_passed(start, #[trigger] times[i]),
    ensures
        count_run(start, frames, times) == (start, frames + times.len()),
        reported_total(start, frames, times) == 0,
    decreases times.len(),
{
    if times.len() > 0 {
        count_grows_within_a_second(start, frames, times.drop_last());
    }
}

/// More polls within a second than are permitted call for a pause.
pub proof fn too_many_polls_call_for_a_pause(start: int, times: Seq<int>)
    requires
        forall|i: int| 0 <= i < times.len() ==> !second_passed(start, #[trigger] times[i]),
    ensures
        cooldown(count_run(start, 0, times).1) == if times.len()
            > MAX_PERMITTED_DATA_POLLS_PER_SECOND {
            Some(OVERPOLL_COOLDOWN_MS)
        } else {
            None
        },
{
    count_grows_within_a_second(start, 0, times);
}

/// What a clock reading stands for: a second is a thousand million nanoseconds, and readings
/// before 1970 mirror those after.
pub proof fn clock_readings_are_in_nanoseconds(secs: u64, nanos: u32)
    ensures
        nanos_of(Ok((secs, nanos))) == secs * 1_000_000_000 + nanos,
        nanos_of(Err((secs, nanos))) == -nanos_of(Ok((secs, nanos))),
{
}

/// The digits of a number: a number below ten is one character, and a further digit behind a
/// number is a further character.
pub proof fn digits_follow_each_other(n: nat, d: nat)
    requires
        d < 10,
    ensures
        digits(d) == seq![(('0' as int) + d) as char],
        n > 0 ==> digits(10 * n + d) == digits(n).push((('0' as int) + d) as char),
{
    assert((10 * n + d) / 10 == n);
    assert((10 * n + d) % 10 == d);
}

/// Numbers from zero on are written by their digits, others with a sign in front of their
/// opposite.
pub proof fn negative_numbers_have_a_sign(n: int)
    ensures
        n >= 0 ==> decimal(n) == digits(n as nat),
        n < 0 ==> decimal(n) == seq!['-'] + decimal(-n),
{
}

/// What happens at one more frame. More than a second after the start of the count, the count
/// is reported and starts anew with this frame; up to then, the frame is added to the count.
pub proof fn frames_are_reported_every_second(
    counter: Counter,
    now: int,
    after: Counter,
    report: Option<String>,
)
    requires
        counter.updates_to(now, after, report),
    ensures
        after.name@ == counter.name@,
        report is Some <==> now - counter.start_time > 1_000_000_000,
        report matches Some(line) ==> {
            &&& line@ == counter.name@ + " frames/second: "@ + decimal(
                counter.current_frames as int,
            )
            &&& after.start_time == now
            &&& after.current_frames == 1
        },
        report is None ==> after.start_time == counter.start_time && after.current_frames
            == counter.current_frames + 1,
{
}

/// Whether a frame is reported is decided by the seconds and nanoseconds that the clock shows,
/// to the nanosecond.
pub proof fn reports_go_by_the_clock(
    counter: Counter,
    secs: u64,
    nanos: u32,
    after: Counter,
    report: Option<String>,
)
    requires
        counter.updates_to(nanos_of(Ok((secs, nanos))), after, report),
    ensures
        report is Some <==> secs * 1_000_000_000 + nanos > counter.start_time + 1_000_000_000,
        report is Some ==> after.start_time == secs * 1_000_000_000 + nanos,
{
}

/// A frame more than a second after the last start of the count reports it, and so ends it:
/// counted again at the same time, it is only added.
pub proof fn one_report_per_second(start: int, frames: int, now: int)
    requires
        now > start + 1_000_000_000,
    ensures
        reported(start, frames, now) == Some(frames),
        counted(start, frames, now) == (now, 1int),
        reported(now, 1, now) is None,
        counted(now, 1, now) == (now, 2int),
{
}

/// A pause comes exactly with more than seventy polls.
pub proof fn seventy_polls_are_permitted(frames: int)
    ensures
        cooldown(frames) is Some <==> frames > 70,
        cooldown(frames) matches Some(ms) ==> ms == 300,
{
}

} // verus!
