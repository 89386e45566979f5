use vstd::prelude::*;

verus! {

/// What the packet reader does with one read from the capture source.
#[derive(Debug, Clone, Copy, PartialEq, Eq, Structural)]
pub enum ReaderAction {
    /// Leave the loop: stop was requested or the source ended.
    Exit,
    /// Publish the packet to the decoder, replacing an unconsumed one.
    Forward,
    /// The packet belongs to another stream: drop it.
    Skip,
}

/// What the decoder loop does after one poll of the packet handoff.
#[derive(Debug, Clone, Copy, PartialEq, Eq, Structural)]
pub enum PollAction {
    /// Leave the loop: stop was requested.
    Exit,
    /// Submit the packet that was taken and drain the frames it yields.
    Decode,
    /// Nothing to do: yield the thread and poll again.
    Yield,
}

/// One read of the capture source: `None` when it ended, else the index of the
/// stream the packet belongs to.
#[derive(Debug, Clone, Copy, PartialEq, Eq, Structural)]
pub struct ReadObservation {
    pub stop_requested: bool,
    pub packet_stream: Option<usize>,
}

/// One poll of the decoder loop: the stop signal and whether a packet was taken.
#[derive(Debug, Clone, Copy, PartialEq, Eq, Structural)]
pub struct PollObservation {
    pub stop_requested: bool,
    pub packet_ready: bool,
}

pub open spec fn reader_action(o: ReadObservation, video_stream: usize) -> ReaderAction {
    if o.stop_requested {
        ReaderAction::Exit
    } else {
        match o.packet_stream {
            None => ReaderAction::Exit,
            Some(s) => if s == video_stream {
                ReaderAction::Forward
            } else {
                ReaderAction::Skip
            },
        }
    }
}

pub open spec fn poll_action(o: PollObservation) -> PollAction {
    if o.stop_requested {
        PollAction::Exit
    } else if o.packet_ready {
        PollAction::Decode
    } else {
        PollAction::Yield
    }
}

/// The packet reader's decision for one read.
pub fn reader_step(o: ReadObservation, video_stream: usize) -> (r: ReaderAction)
    ensures
        r == reader_action(o, video_stream),
{
    if o.stop_requested {
        return ReaderAction::Exit;
    }
    match o.packet_stream {
        None => ReaderAction::Exit,
        Some(s) => if s == video_stream {
            ReaderAction::Forward
        } else {
            ReaderAction::Skip
        },
    }
}

/// The decoder loop's decision for one poll.
pub fn poll_step(o: PollObservation) -> (r: PollAction)
    ensures
        r == poll_action(o),
{
    if o.stop_requested {
        PollAction::Exit
    } else if o.packet_ready {
        PollAction::Decode
    } else {
        PollAction::Yield
    }
}

/// The actions the reader loop takes over successive reads, up to and including
/// the one that leaves it.
pub open spec fn reader_run(obs: Seq<ReadObservation>, video_stream: usize) -> Seq<ReaderAction>
    decreases obs.len(),
{
    if obs.len() == 0 {
        seq![]
    } else {
        let a = reader_action(obs[0], video_stream);
        if a == ReaderAction::Exit {
            seq![a]
        } else {
            seq![a] + reader_run(obs.drop_first(), video_stream)
        }
    }
}

/// The actions the decoder loop takes over successive polls, up to and including
/// the one that leaves it.
pub open spec fn decoder_run(obs: Seq<PollObservation>) -> Seq<PollAction>
    decreases obs.len(),
{
    if obs.len() == 0 {
        seq![]
    } else {
        let a = poll_action(obs[0]);
        if a == PollAction::Exit {
            seq![a]
        } else {
            seq![a] + decoder_run(obs.drop_first())
        }
    }
}

/// Once a read observes the stop signal, the reader loop has left by that read:
/// it runs at most `k + 1` iterations, the last one exits, and no packet is
/// forwarded on a read that saw the signal.
pub proof fn lemma_reader_stops(obs: Seq<ReadObservation>, video_stream: usize, k: int)
    requires
        0 <= k < obs.len(),
        obs[k].stop_requested,
    ensures
        reader_run(obs, video_stream).len() <= k + 1,
        reader_run(obs, video_stream).len() > 0,
        reader_run(obs, video_stream).last() == ReaderAction::Exit,
        forall|j: int|
            0 <= j < reader_run(obs, video_stream).len() && obs[j].stop_requested
                ==> #[trigger] reader_run(obs, video_stream)[j] == ReaderAction::Exit,
    decreases k,
{
    let run = reader_run(obs, video_stream);
    let a = reader_action(obs[0], video_stream);
    if a != ReaderAction::Exit {
        let rest = obs.drop_first();
        assert(rest[k - 1] == obs[k]);
        lemma_reader_stops(rest, video_stream, k - 1);
        let tail = reader_run(rest, video_stream);
        assert(run == seq![a] + tail);
        assert forall|j: int| 0 <= j < run.len() && obs[j].stop_requested implies #[trigger] run[j]
            == ReaderAction::Exit by {
            if j > 0 {
                assert(run[j] == tail[j - 1]);
                assert(rest[j - 1] == obs[j]);
            }
        }
    }
}

/// Once a poll observes the stop signal, the decoder loop has left by that poll:
/// it runs at most `k + 1` iterations, the last one exits, and no packet is
/// decoded on a poll that saw the signal.
pub proof fn lemma_decoder_stops(obs: Seq<PollObservation>, k: int)
    requires
        0 <= k < obs.len(),
        obs[k].stop_requested,
    ensures
        decoder_run(obs).len() <= k + 1,
        decoder_run(obs).len() > 0,
        decoder_run(obs).last() == PollAction::Exit,
        forall|j: int|
            0 <= j < decoder_run(obs).len() && obs[j].stop_requested
                ==> #[trigger] decoder_run(obs)[j] == PollAction::Exit,
    decreases k,
{
    let run = decoder_run(obs);
    let a = poll_action(obs[0]);
    if a != PollAction::Exit {
        let rest = obs.drop_first();
        assert(rest[k - 1] == obs[k]);
        lemma_decoder_stops(rest, k - 1);
        let tail = decoder_run(rest);
        assert(run == seq![a] + tail);
        assert forall|j: int| 0 <= j < run.len() && obs[j].stop_requested implies #[trigger] run[j]
            == PollAction::Exit by {
            if j > 0 {
                assert(run[j] == tail[j - 1]);
                assert(rest[j - 1] == obs[j]);
            }
        }
    }
}

/// What to do about the colour converter before converting a decoded frame.
#[derive(Debug, Clone, Copy, PartialEq, Eq, Structural)]
pub enum ConverterAction {
    /// The converter built for these dimensions is reused.
    Reuse,
    /// Build a converter for the frame's dimensions: none exists yet, or the
    /// frame's size differs from the one it was built for.
    Build,
}

/// Decoder-side state that lives across polls: the frame size the colour
/// converter was built for, if it was built.
pub struct DecoderState {
    pub converter_size: Option<(u32, u32)>,
}

impl DecoderState {
    pub fn new() -> (r: Self)
        ensures
            r.converter_size is None,
    {
        DecoderState { converter_size: None }
    }

    /// Decides, for a frame of `width` x `height`, whether the converter can be
    /// reused; afterwards the state records a converter for exactly that size.
    pub fn converter_for(&mut self, width: u32, height: u32) -> (r: ConverterAction)
        ensures
            final(self).converter_size == Some((width, height)),
            r == ConverterAction::Reuse <==> old(self).converter_size == Some((width, height)),
    {
        match self.converter_size {
            Some((w, h)) => {
                if w == width && h == height {
                    return ConverterAction::Reuse;
                }
            },
            None => {},
        }
        self.converter_size = Some((width, height));
        ConverterAction::Build
    }
}

} // verus!
