//! The microphone recorder: the buffer that collects samples between a start
//! and a stop, and the steps of starting a recording.
use vstd::prelude::*;
use crate::text::join2;

verus! {

/// The samples captured since the recording began.
pub struct SampleBuffer<T> {
    samples: Vec<T>,
}

impl<T: Copy> View for SampleBuffer<T> {
    type V = Seq<T>;

    closed spec fn view(&self) -> Seq<T> {
        self.samples@
    }
}

impl<T: Copy> SampleBuffer<T> {
    /// An empty buffer.
    pub fn new() -> (b: Self)
        ensures
            b@ == Seq::<T>::empty(),
    {
        SampleBuffer { samples: Vec::new() }
    }

    /// Forgets every sample held.
    pub fn clear(&mut self)
        ensures
            final(self)@ == Seq::<T>::empty(),
    {
        self.samples.clear();
    }

    /// Adds the samples of one callback after those already held.
    pub fn extend_from_slice(&mut self, data: &[T])
        ensures
            final(self)@ == old(self)@ + data@,
    {
        let mut i: usize = 0;
        while i < data.len()
            invariant
                i <= data@.len(),
                self.samples@ == old(self)@ + data@.subrange(0, i as int),
            decreases data@.len() - i,
        {
            let x = data[i];
            self.samples.push(x);
            assert(data@.subrange(0, i + 1) =~= data@.subrange(0, i as int).push(x));
            i = i + 1;
        }
        assert(data@.subrange(0, data@.len() as int) =~= data@);
    }

    /// How many samples are held.
    pub fn len(&self) -> (n: usize)
        ensures
            n == self@.len(),
    {
        self.samples.len()
    }

    /// Hands out every sample held, in order, and leaves the buffer empty.
    pub fn take_all(&mut self) -> (captured: Vec<T>)
        ensures
            captured@ == old(self)@,
            final(self)@ == Seq::<T>::empty(),
    {
        let mut captured: Vec<T> = Vec::new();
        captured.append(&mut self.samples);
        captured
    }
}

/// The sample formats the recorder can take from a device.
#[derive(Clone, Copy, PartialEq, Eq, Structural)]
pub enum SampleKind {
    F32,
    I16,
    U16,
    Other,
}

/// Where the start of a recording stands.
pub enum StartStage {
    /// The default input device is being looked up.
    AwaitingDevice,
    /// The device's default configuration is being fetched.
    AwaitingConfig,
    /// The buffer is being cleared before a stream for `0` is built.
    ClearingBuffer(SampleKind),
    /// The input stream is being built.
    AwaitingStream,
    /// The stream is being started.
    AwaitingPlay,
    /// The start has its outcome.
    Done,
}

/// What the audio host reports to the start of a recording.
pub enum StartEvent {
    NoDevice,
    DeviceFound,
    ConfigFailed(String),
    ConfigFound(SampleKind),
    BufferCleared,
    BuildFailed(String),
    StreamBuilt,
    PlayFailed(String),
    Playing,
}

/// What the start of a recording asks for next.
pub enum StartAction {
    /// Fetch the device's default input configuration.
    QueryConfig,
    /// Empty the sample buffer.
    ClearBuffer,
    /// Build an input stream that converts samples of this format.
    BuildStream(SampleKind),
    /// Start the stream.
    Play,
    /// The start's outcome; on success the recorder keeps the stream.
    Finish(Result<(), String>),
    /// Nothing: the event does not belong to this stage.
    Ignore,
}

/// A start stage, as a value of the specification.
pub enum StartStageView {
    AwaitingDevice,
    AwaitingConfig,
    ClearingBuffer(SampleKind),
    AwaitingStream,
    AwaitingPlay,
    Done,
}

/// A start action, as a value of the specification.
pub enum StartActionView {
    QueryConfig,
    ClearBuffer,
    BuildStream(SampleKind),
    Play,
    Finish(Result<(), Seq<char>>),
    Ignore,
}

impl View for StartStage {
    type V = StartStageView;

    open spec fn view(&self) -> StartStageView {
        match self {
            StartStage::AwaitingDevice => StartStageView::AwaitingDevice,
            StartStage::AwaitingConfig => StartStageView::AwaitingConfig,
            StartStage::ClearingBuffer(k) => StartStageView::ClearingBuffer(*k),
            StartStage::AwaitingStream => StartStageView::AwaitingStream,
            StartStage::AwaitingPlay => StartStageView::AwaitingPlay,
            StartStage::Done => StartStageView::Done,
        }
    }
}

impl View for StartAction {
    type V = StartActionView;

    open spec fn view(&self) -> StartActionView {
        match self {
            StartAction::QueryConfig => StartActionView::QueryConfig,
            StartAction::ClearBuffer => StartActionView::ClearBuffer,
            StartAction::BuildStream(k) => StartActionView::BuildStream(*k),
            StartAction::Play => StartActionView::Play,
            StartAction::Finish(r) => StartActionView::Finish(
                match r {
                    Ok(()) => Ok(()),
                    Err(e) => Err(e@),
                },
            ),
            StartAction::Ignore => StartActionView::Ignore,
        }
    }
}

/// Whether the recorder converts samples of format `k`.
pub open spec fn supported_spec(k: SampleKind) -> bool {
    !(k is Other)
}

/// The next stage of a start, and what it asks for, after `event`.
pub open spec fn start_step_spec(stage: StartStageView, event: StartEvent) -> (
    StartStageView,
    StartActionView,
) {
    match (stage, event) {
        (StartStageView::AwaitingDevice, StartEvent::NoDevice) => (
            StartStageView::Done,
            StartActionView::Finish(Err("No input device detected."@)),
        ),
        (StartStageView::AwaitingDevice, StartEvent::DeviceFound) => (
            StartStageView::AwaitingConfig,
            StartActionView::QueryConfig,
        ),
        (StartStageView::AwaitingConfig, StartEvent::ConfigFailed(m)) => (
            StartStageView::Done,
            StartActionView::Finish(Err("Failed to fetch default audio config: "@ + m@)),
        ),
        (StartStageView::AwaitingConfig, StartEvent::ConfigFound(k)) => (
            StartStageView::ClearingBuffer(k),
            StartActionView::ClearBuffer,
        ),
        (StartStageView::ClearingBuffer(k), StartEvent::BufferCleared) => if supported_spec(k) {
            (StartStageView::AwaitingStream, StartActionView::BuildStream(k))
        } else {
            (StartStageView::Done, StartActionView::Finish(Err("Unsupported audio sample format."@)))
        },
        (StartStageView::AwaitingStream, StartEvent::BuildFailed(m)) => (
            StartStageView::Done,
            StartActionView::Finish(Err("Failed to build audio input stream: "@ + m@)),
        ),
        (StartStageView::AwaitingStream, StartEvent::StreamBuilt) => (
            StartStageView::AwaitingPlay,
            StartActionView::Play,
        ),
        (StartStageView::AwaitingPlay, StartEvent::PlayFailed(m)) => (
            StartStageView::Done,
            StartActionView::Finish(Err("Failed to start audio stream: "@ + m@)),
        ),
        (StartStageView::AwaitingPlay, StartEvent::Playing) => (
            StartStageView::Done,
            StartActionView::Finish(Ok(())),
        ),
        (s, _) => (s, StartActionView::Ignore),
    }
}

/// The next stage of starting a recording after `event`, and what to do next:
/// a device, its configuration, an emptied buffer, a stream for a supported
/// format and a running stream are needed in turn, and the first that fails
/// ends the start with its message.
pub fn start_step(stage: StartStage, event: StartEvent) -> (r: (StartStage, StartAction))
    ensures
        (r.0@, r.1@) == start_step_spec(stage@, event),
{
    match stage {
        StartStage::AwaitingDevice => match event {
            StartEvent::NoDevice => (
                StartStage::Done,
                StartAction::Finish(Err(String::from_str("No input device detected."))),
            ),
            StartEvent::DeviceFound => (StartStage::AwaitingConfig, StartAction::QueryConfig),
            _ => (StartStage::AwaitingDevice, StartAction::Ignore),
        },
        StartStage::AwaitingConfig => match event {
            StartEvent::ConfigFailed(m) => (
                StartStage::Done,
                StartAction::Finish(
                    Err(join2("Failed to fetch default audio config: ", m.as_str())),
                ),
            ),
            StartEvent::ConfigFound(k) => (StartStage::ClearingBuffer(k), StartAction::ClearBuffer),
            _ => (StartStage::AwaitingConfig, StartAction::Ignore),
        },
        StartStage::ClearingBuffer(k) => match event {
            StartEvent::BufferCleared => match k {
                SampleKind::Other => (
                    StartStage::Done,
                    StartAction::Finish(Err(String::from_str("Unsupported audio sample format."))),
                ),
                _ => (StartStage::AwaitingStream, StartAction::BuildStream(k)),
            },
            _ => (StartStage::ClearingBuffer(k), StartAction::Ignore),
        },
        StartStage::AwaitingStream => match event {
            StartEvent::BuildFailed(m) => (
                StartStage::Done,
                StartAction::Finish(Err(join2("Failed to build audio input stream: ", m.as_str()))),
            ),
            StartEvent::StreamBuilt => (StartStage::AwaitingPlay, StartAction::Play),
            _ => (StartStage::AwaitingStream, StartAction::Ignore),
        },
        StartStage::AwaitingPlay => match event {
            StartEvent::PlayFailed(m) => (
                StartStage::Done,
                StartAction::Finish(Err(join2("Failed to start audio stream: ", m.as_str()))),
            ),
            StartEvent::Playing => (StartStage::Done, StartAction::Finish(Ok(()))),
            _ => (StartStage::AwaitingPlay, StartAction::Ignore),
        },
        StartStage::Done => (StartStage::Done, StartAction::Ignore),
    }
}

/// How many steps lie behind a stage.
pub open spec fn steps_done(stage: StartStageView) -> int {
    match stage {
        StartStageView::AwaitingDevice => 0,
        StartStageView::AwaitingConfig => 1,
        StartStageView::ClearingBuffer(_) => 2,
        StartStageView::AwaitingStream => 3,
        StartStageView::AwaitingPlay => 4,
        StartStageView::Done => 5,
    }
}

/// A stream is only built after the buffer was emptied for it, and only for a
/// supported format: every recording starts from an empty buffer.
pub proof fn lemma_stream_built_after_clear(stage: StartStageView, event: StartEvent)
    requires
        start_step_spec(stage, event).1 is BuildStream,
    ensures
        stage is ClearingBuffer,
        event is BufferCleared,
        supported_spec(stage->ClearingBuffer_0),
{
}

/// A start moves one step at a time, each on the event that step waits for,
/// or ends; an event it ignores leaves it where it was. With the next law this
/// means a start that succeeds found a device, a supported configuration,
/// cleared the buffer, built a stream and saw it play, in that order.
pub proof fn lemma_start_moves_one_step(stage: StartStageView, event: StartEvent)
    ensures
        start_step_spec(stage, event).1 is Ignore ==> start_step_spec(stage, event).0 == stage,
        !(start_step_spec(stage, event).1 is Ignore) && !(start_step_spec(stage, event).0 is Done)
            ==> steps_done(start_step_spec(stage, event).0) == steps_done(stage) + 1 && match stage {
            StartStageView::AwaitingDevice => event is DeviceFound,
            StartStageView::AwaitingConfig => event is ConfigFound,
            StartStageView::ClearingBuffer(k) => event is BufferCleared && supported_spec(k),
            StartStageView::AwaitingStream => event is StreamBuilt,
            _ => false,
        },
        !(start_step_spec(stage, event).1 is Ignore) && start_step_spec(stage, event).0 is Done
            <==> start_step_spec(stage, event).1 is Finish,
{
}

/// A start succeeds only when the stream it built starts playing; every other
/// outcome is an error with its message.
pub proof fn lemma_success_only_when_playing(stage: StartStageView, event: StartEvent)
    ensures
        start_step_spec(stage, event).1 == StartActionView::Finish(Ok(())) <==> (stage is AwaitingPlay
            && event is Playing),
{
}

/// The stream built is for the sample format of the configuration found:
/// after a configuration of a supported format `k`, clearing the buffer leads
/// to building a stream for `k` itself; an unsupported format ends the start
/// with its error once the buffer is cleared.
pub proof fn lemma_stream_matches_config(k: SampleKind)
    ensures
        start_step_spec(StartStageView::AwaitingConfig, StartEvent::ConfigFound(k)) == (
            StartStageView::ClearingBuffer(k),
            StartActionView::ClearBuffer,
        ),
        k == SampleKind::F32 || k == SampleKind::I16 || k == SampleKind::U16 ==> start_step_spec(
            start_step_spec(StartStageView::AwaitingConfig, StartEvent::ConfigFound(k)).0,
            StartEvent::BufferCleared,
        ) == (StartStageView::AwaitingStream, StartActionView::BuildStream(k)),
        k == SampleKind::Other ==> start_step_spec(
            start_step_spec(StartStageView::AwaitingConfig, StartEvent::ConfigFound(k)).0,
            StartEvent::BufferCleared,
        ) == (
            StartStageView::Done,
            StartActionView::Finish(Err("Unsupported audio sample format."@)),
        ),
{
}

/// Each failing step ends the start with its own message, carrying the
/// host's error where there is one.
pub proof fn lemma_start_failures(m: String)
    ensures
        start_step_spec(StartStageView::AwaitingDevice, StartEvent::NoDevice) == (
            StartStageView::Done,
            StartActionView::Finish(Err("No input device detected."@)),
        ),
        start_step_spec(StartStageView::AwaitingConfig, StartEvent::ConfigFailed(m)) == (
            StartStageView::Done,
            StartActionView::Finish(Err("Failed to fetch default audio config: "@ + m@)),
        ),
        start_step_spec(StartStageView::AwaitingStream, StartEvent::BuildFailed(m)) == (
            StartStageView::Done,
            StartActionView::Finish(Err("Failed to build audio input stream: "@ + m@)),
        ),
        start_step_spec(StartStageView::AwaitingPlay, StartEvent::PlayFailed(m)) == (
            StartStageView::Done,
            StartActionView::Finish(Err("Failed to start audio stream: "@ + m@)),
        ),
{
}

/// What a buffer holding `held` holds after `extend_from_slice` took in each
/// of `chunks` in turn.
pub open spec fn held_after<T>(held: Seq<T>, chunks: Seq<Seq<T>>) -> Seq<T>
    decreases chunks.len(),
{
    if chunks.len() == 0 {
        held
    } else {
        held_after(held, chunks.drop_last()) + chunks.last()
    }
}

/// A recording hands out, on its stop, every sample the callbacks delivered
/// since its start, in the order they came and nothing else: from the emptied
/// buffer, the chunks taken in are held as their concatenation.
pub proof fn lemma_recording_keeps_every_sample<T>(chunks: Seq<Seq<T>>)
    ensures
        held_after(Seq::<T>::empty(), chunks) == chunks.flatten(),
    decreases chunks.len(),
{
    if chunks.len() > 0 {
        lemma_recording_keeps_every_sample(chunks.drop_last());
        chunks.drop_last().lemma_flatten_push(chunks.last());
        assert(chunks.drop_last().push(chunks.last()) =~= chunks);
    }
}

} // verus!
