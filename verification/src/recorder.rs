//! The control state of the short recorder: whether audio is being
//! captured, whether it is being recorded, and the commands on their way to
//! the capture loop. The recorder is a value that its owner passes around;
//! the audio device, the sample buffer and the threads belong to the shell.

use std::collections::VecDeque;
use vstd::prelude::*;

verus! {

/// A command for the capture loop.
#[derive(Clone, Copy, Debug, PartialEq, Eq, Structural)]
pub enum ShortRecordChannel {
    Start,
    Stop,
    Close,
}

/// What the capture loop does after looking for a command.
#[derive(Clone, Copy, Debug, PartialEq, Eq, Structural)]
pub enum CaptureStep {
    /// There was no command: go on capturing.
    Idle,
    /// Recording has begun: empty the sample buffer.
    ClearBuffer,
    /// Recording has ended: take the samples out of the buffer and hand
    /// the finished data over.
    Finalize,
    /// Leave the loop and release the device.
    Shutdown,
}

/// Why a request to the recorder was refused.
#[derive(Clone, Copy, Debug, PartialEq, Eq, Structural)]
pub enum RecorderError {
    /// Audio is not being captured.
    NotCapturing,
}

/// Something that records on request. The two requests are those of
/// [`start_record`] and [`stop_record`], for an implementation that keeps
/// its recorder to itself.
pub trait Adapter {
    fn start_record() -> Result<(), RecorderError>;

    fn stop_record() -> Result<(), RecorderError>;
}

/// The recorder as a mathematical value.
pub struct RecorderView {
    pub recording: bool,
    pub capturing: bool,
    /// The commands that the capture loop has not taken yet, oldest first.
    pub commands: Seq<ShortRecordChannel>,
}

/// The recorder after `close`: the capture loop is told to stop.
pub open spec fn after_close(r: RecorderView) -> RecorderView {
    RecorderView { commands: r.commands.push(ShortRecordChannel::Close), ..r }
}

/// The recorder after `start`: the capture loop is told to record, unless
/// it records already.
pub open spec fn after_start(r: RecorderView) -> RecorderView {
    if r.recording {
        r
    } else {
        RecorderView { commands: r.commands.push(ShortRecordChannel::Start), ..r }
    }
}

/// The recorder after `stop`: the capture loop is told to finish the
/// recording, if there is one.
pub open spec fn after_stop(r: RecorderView) -> RecorderView {
    if r.recording {
        RecorderView { commands: r.commands.push(ShortRecordChannel::Stop), ..r }
    } else {
        r
    }
}

/// One turn of the capture loop: it takes the oldest command, if there is
/// one, and acts on it.
pub open spec fn capture_turn(r: RecorderView) -> (RecorderView, CaptureStep) {
    if r.commands.len() == 0 {
        (r, CaptureStep::Idle)
    } else {
        let commands = r.commands.drop_first();
        match r.commands.first() {
            ShortRecordChannel::Start => (
                RecorderView { recording: true, commands, ..r },
                CaptureStep::ClearBuffer,
            ),
            ShortRecordChannel::Stop => (
                RecorderView { recording: false, commands, ..r },
                CaptureStep::Finalize,
            ),
            ShortRecordChannel::Close => (
                RecorderView { capturing: false, commands, ..r },
                CaptureStep::Shutdown,
            ),
        }
    }
}

/// The control state of one recorder.
#[derive(Debug)]
pub struct ShortRecord {
    recording: bool,
    capturing: bool,
    ch_cmd: VecDeque<ShortRecordChannel>,
}

impl View for ShortRecord {
    type V = RecorderView;

    closed spec fn view(&self) -> RecorderView {
        RecorderView {
            recording: self.recording,
            capturing: self.capturing,
            commands: self.ch_cmd@,
        }
    }
}

impl ShortRecord {
    /// A recorder that neither captures nor records.
    pub fn new() -> (r: Self)
        ensures
            r@ == (RecorderView { recording: false, capturing: false, commands: Seq::empty() }),
    {
        ShortRecord { recording: false, capturing: false, ch_cmd: VecDeque::new() }
    }

    pub fn set_capturing(&mut self, value: bool)
        ensures
            final(self)@ == (RecorderView { capturing: value, ..old(self)@ }),
    {
        self.capturing = value;
    }

    pub fn set_recording(&mut self, value: bool)
        ensures
            final(self)@ == (RecorderView { recording: value, ..old(self)@ }),
    {
        self.recording = value;
    }
}

pub fn is_recording(recorder: &ShortRecord) -> (r: bool)
    ensures
        r == recorder@.recording,
{
    recorder.recording
}

pub fn is_capturing(recorder: &ShortRecord) -> (r: bool)
    ensures
        r == recorder@.capturing,
{
    recorder.capturing
}

/// Tells the capture loop to stop.
pub fn close(recorder: &mut ShortRecord)
    ensures
        final(recorder)@ == after_close(old(recorder)@),
{
    recorder.ch_cmd.push_back(ShortRecordChannel::Close);
}

/// Tells the capture loop to record. Nothing happens while a recording
/// runs.
pub fn start(recorder: &mut ShortRecord)
    ensures
        final(recorder)@ == after_start(old(recorder)@),
{
    if is_recording(recorder) {
        return ;
    }
    recorder.ch_cmd.push_back(ShortRecordChannel::Start);
}

/// Tells the capture loop to finish the recording. Returns whether there
/// was one: if so the finished data will come from the capture loop, if not
/// there is no data.
pub fn stop(recorder: &mut ShortRecord) -> (awaited: bool)
    ensures
        awaited == old(recorder)@.recording,
        final(recorder)@ == after_stop(old(recorder)@),
{
    if !is_recording(recorder) {
        return false;
    }
    recorder.ch_cmd.push_back(ShortRecordChannel::Stop);
    true
}

/// One turn of the capture loop: takes the oldest command, if there is
/// one, and says what the loop is to do.
pub fn capturing(recorder: &mut ShortRecord) -> (step: CaptureStep)
    ensures
        (final(recorder)@, step) == capture_turn(old(recorder)@),
{
    match recorder.ch_cmd.pop_front() {
        None => CaptureStep::Idle,
        Some(ShortRecordChannel::Start) => {
            recorder.set_recording(true);
            assert(recorder@.commands =~= old(recorder)@.commands.drop_first());
            CaptureStep::ClearBuffer
        },
        Some(ShortRecordChannel::Stop) => {
            recorder.set_recording(false);
            assert(recorder@.commands =~= old(recorder)@.commands.drop_first());
            CaptureStep::Finalize
        },
        Some(ShortRecordChannel::Close) => {
            recorder.set_capturing(false);
            assert(recorder@.commands =~= old(recorder)@.commands.drop_first());
            CaptureStep::Shutdown
        },
    }
}

/// Whether the capture loop has to be started to open the audio input:
/// not if it runs already.
pub fn audio_open(recorder: &ShortRecord) -> (launch: bool)
    ensures
        launch == !recorder@.capturing,
{
    !is_capturing(recorder)
}

/// Closes the audio input if it is open. Returns whether it was.
pub fn audio_close(recorder: &mut ShortRecord) -> (closed: bool)
    ensures
        closed == old(recorder)@.capturing,
        final(recorder)@ == if old(recorder)@.capturing {
            after_close(old(recorder)@)
        } else {
            old(recorder)@
        },
{
    if !is_capturing(recorder) {
        return false;
    }
    close(recorder);
    true
}

/// Begins a recording. Refused while audio is not captured. Returns
/// whether a recording was begun: not if one runs already.
pub fn start_record(recorder: &mut ShortRecord) -> (r: Result<bool, RecorderError>)
    ensures
        r == if !old(recorder)@.capturing {
            Err::<bool, RecorderError>(RecorderError::NotCapturing)
        } else {
            Ok::<bool, RecorderError>(!old(recorder)@.recording)
        },
        final(recorder)@ == if old(recorder)@.capturing {
            after_start(old(recorder)@)
        } else {
            old(recorder)@
        },
{
    if !is_capturing(recorder) {
        return Err(RecorderError::NotCapturing);
    }
    if is_recording(recorder) {
        return Ok(false);
    }
    start(recorder);
    Ok(true)
}

/// Ends a recording. Refused while audio is not captured. Returns whether
/// finished data is to be awaited from the capture loop.
pub fn stop_record(recorder: &mut ShortRecord) -> (r: Result<bool, RecorderError>)
    ensures
        r == if !old(recorder)@.capturing {
            Err::<bool, RecorderError>(RecorderError::NotCapturing)
        } else {
            Ok::<bool, RecorderError>(old(recorder)@.recording)
        },
        final(recorder)@ == if old(recorder)@.capturing {
            after_stop(old(recorder)@)
        } else {
            old(recorder)@
        },
{
    if !is_capturing(recorder) {
        return Err(RecorderError::NotCapturing);
    }
    let awaited = stop(recorder);
    Ok(awaited)
}

} // verus!
