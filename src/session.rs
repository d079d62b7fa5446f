//! The state machine of one conversion stream.
//!
//! A stream is `Ready` while it takes input. The first call with no input
//! asks the engine to flush: the stream is then `Flushing`, and input is
//! refused from then on. Once a flush that had room for output brings none,
//! the engine holds nothing more: the stream is `Drained`, and further flushes
//! are answered at once with nothing.
use vstd::prelude::*;

use crate::datatype::{datatype_is_split, Datatype};
use crate::error::{Error, ErrorKind};
use crate::spec::IOSpec;

verus! {

/// Where a stream stands.
#[derive(Clone, Copy, Debug, PartialEq, Eq, Structural)]
pub enum StreamState {
    Ready,
    Flushing,
    Drained,
}

/// What one call did: frames taken from the input, frames written to the
/// output.
#[derive(Clone, Copy, Debug, PartialEq, Eq, Structural)]
pub struct ProcessResult {
    pub consumed: usize,
    pub produced: usize,
}

/// What the caller is to do with the engine for one call.
#[derive(Clone, Copy, Debug, PartialEq, Eq, Structural)]
pub enum Action {
    /// Hand the engine up to `input_frames` frames and room for up to
    /// `output_frames` frames.
    Feed { input_frames: usize, output_frames: usize },
    /// Hand the engine no input, so that it flushes, and room for up to
    /// `output_frames` frames.
    Flush { output_frames: usize },
    /// Leave the engine alone: the call's result is `result`.
    Immediate { result: ProcessResult },
}

/// Whether a session can be made for these channels and rates.
pub open spec fn config_valid(num_channels: u32, input_rate: u32, output_rate: u32) -> bool {
    num_channels > 0 && input_rate > 0 && output_rate > 0
}

/// Whether a call offering `input_frames` frames is taken in `state`: a flush
/// always is, input only while the stream is ready.
pub open spec fn request_accepted(state: StreamState, input_frames: usize) -> bool {
    input_frames == 0 || state == StreamState::Ready
}

/// What is done with the engine for a call that is taken.
pub open spec fn action_for(state: StreamState, input_frames: usize, output_frames: usize) -> Action {
    if input_frames == 0 {
        if state == StreamState::Drained {
            Action::Immediate { result: ProcessResult { consumed: 0, produced: 0 } }
        } else {
            Action::Flush { output_frames }
        }
    } else {
        Action::Feed { input_frames, output_frames }
    }
}

/// The state once a call is taken, before the engine answers.
pub open spec fn state_after_request(state: StreamState, input_frames: usize) -> StreamState {
    if input_frames == 0 && state == StreamState::Ready {
        StreamState::Flushing
    } else {
        state
    }
}

/// Whether the engine's counts lie within what it was handed.
pub open spec fn reply_fits(action: Action, result: ProcessResult) -> bool {
    match action {
        Action::Feed { input_frames, output_frames } => result.consumed <= input_frames
            && result.produced <= output_frames,
        Action::Flush { output_frames } => result.consumed == 0 && result.produced <= output_frames,
        Action::Immediate { result: r } => result == r,
    }
}

/// The state once the engine's answer to `action` is taken: a flush that had
/// room for output and brought none leaves the stream drained.
pub open spec fn state_after_reply(state: StreamState, action: Action, result: ProcessResult) -> StreamState {
    match action {
        Action::Flush { output_frames } => if output_frames > 0 && result.produced == 0 {
            StreamState::Drained
        } else {
            state
        },
        _ => state,
    }
}

/// `a + b`, held at `u64::MAX`.
pub open spec fn saturating_sum(a: u64, b: u64) -> u64 {
    if a + b > u64::MAX {
        u64::MAX
    } else {
        (a + b) as u64
    }
}

/// The number of whole frames in a set of buffers of the given lengths: one
/// buffer with all channels side by side, or one buffer per channel.
pub open spec fn buffers_frames(split: bool, num_channels: u32, lens: Seq<usize>) -> Option<usize> {
    if split {
        if lens.len() == num_channels && lens.len() > 0 {
            Some(choose|f: usize| is_least_len(lens, f))
        } else {
            None
        }
    } else if lens.len() == 1 {
        Some((lens[0] / (num_channels as usize)) as usize)
    } else {
        None
    }
}

/// `f` is the least of `lens`.
pub open spec fn is_least_len(lens: Seq<usize>, f: usize) -> bool {
    &&& forall|i: int| 0 <= i < lens.len() ==> f <= #[trigger] lens[i]
    &&& exists|i: int| 0 <= i < lens.len() && lens[i] == f
}

/// The least of a non-empty sequence is the only one.
proof fn lemma_least_len_unique(lens: Seq<usize>, f: usize, g: usize)
    requires
        is_least_len(lens, f),
        is_least_len(lens, g),
    ensures
        f == g,
{
    let i = choose|i: int| 0 <= i < lens.len() && lens[i] == f;
    let j = choose|j: int| 0 <= j < lens.len() && lens[j] == g;
    assert(f <= lens[j]);
    assert(g <= lens[i]);
}

/// Once a flush has been asked for, input is refused: right after the
/// request, and after whatever the engine answers to the flush.
pub proof fn lemma_flush_refuses_input(
    state: StreamState,
    output_frames: usize,
    res: ProcessResult,
    input_frames: usize,
)
    requires
        input_frames > 0,
    ensures
        !request_accepted(state_after_request(state, 0), input_frames),
        !request_accepted(
            state_after_reply(state_after_request(state, 0), action_for(state, 0, output_frames), res),
            input_frames,
        ),
{
}

/// Once drained, a stream stays drained under every further flush, and each
/// such flush is answered at once with nothing taken and nothing made, the
/// engine left alone.
pub proof fn lemma_drained_flush_is_idempotent(output_frames: usize, res: ProcessResult)
    ensures
        request_accepted(StreamState::Drained, 0),
        action_for(StreamState::Drained, 0, output_frames) == (Action::Immediate {
            result: ProcessResult { consumed: 0, produced: 0 },
        }),
        state_after_request(StreamState::Drained, 0) == StreamState::Drained,
        reply_fits(action_for(StreamState::Drained, 0, output_frames), res) ==> res.consumed == 0
            && res.produced == 0,
        state_after_reply(StreamState::Drained, action_for(StreamState::Drained, 0, output_frames), res)
            == StreamState::Drained,
{
}

/// A stream never goes back: from flushing it only goes on to drained, and a
/// drained stream stays drained, whatever call is made and answered.
pub proof fn lemma_state_never_returns(
    state: StreamState,
    input_frames: usize,
    output_frames: usize,
    res: ProcessResult,
)
    requires
        state != StreamState::Ready,
        request_accepted(state, input_frames),
    ensures
        ({
            let next = state_after_reply(
                state_after_request(state, input_frames),
                action_for(state, input_frames, output_frames),
                res,
            );
            &&& next != StreamState::Ready
            &&& state == StreamState::Drained ==> next == StreamState::Drained
        }),
{
}

/// One conversion stream: its configuration, where it stands, and how many
/// frames went in and came out over all calls.
#[derive(Clone, Copy, Debug, PartialEq, Eq, Structural)]
pub struct Session {
    io_spec: IOSpec,
    num_channels: u32,
    input_rate: u32,
    output_rate: u32,
    state: StreamState,
    total_consumed: u64,
    total_produced: u64,
}

impl Session {
    pub closed spec fn spec_io_spec(&self) -> IOSpec {
        self.io_spec
    }

    pub closed spec fn spec_num_channels(&self) -> u32 {
        self.num_channels
    }

    pub closed spec fn spec_input_rate(&self) -> u32 {
        self.input_rate
    }

    pub closed spec fn spec_output_rate(&self) -> u32 {
        self.output_rate
    }

    pub closed spec fn spec_state(&self) -> StreamState {
        self.state
    }

    pub closed spec fn spec_total_consumed(&self) -> u64 {
        self.total_consumed
    }

    pub closed spec fn spec_total_produced(&self) -> u64 {
        self.total_produced
    }

    /// A session holds a valid configuration.
    pub open spec fn wf(&self) -> bool {
        config_valid(self.spec_num_channels(), self.spec_input_rate(), self.spec_output_rate())
    }

    /// The configuration stays; only the state and the totals move.
    pub open spec fn same_config(&self, other: Session) -> bool {
        &&& self.spec_io_spec() == other.spec_io_spec()
        &&& self.spec_num_channels() == other.spec_num_channels()
        &&& self.spec_input_rate() == other.spec_input_rate()
        &&& self.spec_output_rate() == other.spec_output_rate()
    }

    /// A ready session for `num_channels` channels converting from
    /// `input_rate` to `output_rate` frames per second; refused when there
    /// are no channels or a rate is zero.
    pub fn new(
        io_spec: IOSpec,
        num_channels: u32,
        input_rate: u32,
        output_rate: u32,
    ) -> (r: Result<Session, Error>)
        ensures
            r is Ok <==> config_valid(num_channels, input_rate, output_rate),
            r is Err ==> r->Err_0.kind == ErrorKind::Configuration,
            r matches Ok(s) ==> {
                &&& s.wf()
                &&& s.spec_io_spec() == io_spec
                &&& s.spec_num_channels() == num_channels
                &&& s.spec_input_rate() == input_rate
                &&& s.spec_output_rate() == output_rate
                &&& s.spec_state() == StreamState::Ready
                &&& s.spec_total_consumed() == 0
                &&& s.spec_total_produced() == 0
            },
    {
        if num_channels == 0 {
            return Err(Error::new(ErrorKind::Configuration, String::from_str("the number of channels must be positive")));
        }
        if input_rate == 0 || output_rate == 0 {
            return Err(Error::new(ErrorKind::Configuration, String::from_str("sample rates must be positive")));
        }
        Ok(Session {
            io_spec,
            num_channels,
            input_rate,
            output_rate,
            state: StreamState::Ready,
            total_consumed: 0,
            total_produced: 0,
        })
    }

    /// The encodings of input and output.
    pub fn io_spec(&self) -> (r: IOSpec)
        ensures
            r == self.spec_io_spec(),
    {
        self.io_spec
    }

    /// The number of channels.
    pub fn num_channels(&self) -> (r: u32)
        ensures
            r == self.spec_num_channels(),
    {
        self.num_channels
    }

    /// The input rate, in frames per second.
    pub fn input_rate(&self) -> (r: u32)
        ensures
            r == self.spec_input_rate(),
    {
        self.input_rate
    }

    /// The output rate, in frames per second.
    pub fn output_rate(&self) -> (r: u32)
        ensures
            r == self.spec_output_rate(),
    {
        self.output_rate
    }

    /// Where the stream stands.
    pub fn state(&self) -> (r: StreamState)
        ensures
            r == self.spec_state(),
    {
        self.state
    }

    /// The frames taken from the input over all calls.
    pub fn total_consumed(&self) -> (r: u64)
        ensures
            r == self.spec_total_consumed(),
    {
        self.total_consumed
    }

    /// The frames written to the output over all calls.
    pub fn total_produced(&self) -> (r: u64)
        ensures
            r == self.spec_total_produced(),
    {
        self.total_produced
    }

    /// The number of whole frames in the caller's buffers, given their
    /// lengths in samples: for an interleaved encoding one buffer whose length
    /// is divided among the channels, for a split encoding one buffer per
    /// channel and the shortest of them. Any other number of buffers is
    /// refused.
    pub fn frames_in_buffers(&self, datatype: Datatype, lens: &Vec<usize>) -> (r: Result<usize, Error>)
        requires
            self.wf(),
        ensures
            buffers_frames(datatype_is_split(datatype), self.spec_num_channels(), lens@) matches Some(f)
                ==> r == Ok::<usize, Error>(f),
            buffers_frames(datatype_is_split(datatype), self.spec_num_channels(), lens@) is None
                ==> r is Err && r->Err_0.kind == ErrorKind::Processing,
    {
        if datatype.is_split() {
            if lens.len() != self.num_channels as usize || lens.len() == 0 {
                return Err(Error::new(ErrorKind::Processing, String::from_str("a split encoding needs one buffer per channel")));
            }
            let mut least: usize = lens[0];
            let mut k: usize = 1;
            while k < lens.len()
                invariant
                    1 <= k <= lens.len(),
                    forall|i: int| 0 <= i < k ==> least <= #[trigger] lens@[i],
                    exists|i: int| 0 <= i < k && lens@[i] == least,
                decreases lens.len() - k,
            {
                if lens[k] < least {
                    least = lens[k];
                }
                k = k + 1;
            }
            proof {
                assert(is_least_len(lens@, least));
                let g = choose|f: usize| is_least_len(lens@, f);
                lemma_least_len_unique(lens@, least, g);
            }
            Ok(least)
        } else {
            if lens.len() != 1 {
                return Err(Error::new(ErrorKind::Processing, String::from_str("an interleaved encoding needs exactly one buffer")));
            }
            Ok(lens[0] / (self.num_channels as usize))
        }
    }

    /// Takes a call that offers `input_frames` frames of input (none: a
    /// flush) and room for `output_frames` frames of output, and says what to
    /// do with the engine. Input after a flush is refused, and the session
    /// is then left as it was.
    pub fn begin(&mut self, input_frames: usize, output_frames: usize) -> (r: Result<Action, Error>)
        ensures
            request_accepted(old(self).spec_state(), input_frames) ==> {
                &&& r == Ok::<Action, Error>(action_for(old(self).spec_state(), input_frames, output_frames))
                &&& final(self).spec_state() == state_after_request(old(self).spec_state(), input_frames)
                &&& final(self).same_config(*old(self))
                &&& final(self).spec_total_consumed() == old(self).spec_total_consumed()
                &&& final(self).spec_total_produced() == old(self).spec_total_produced()
            },
            !request_accepted(old(self).spec_state(), input_frames) ==> {
                &&& r is Err
                &&& r->Err_0.kind == ErrorKind::InvalidState
                &&& *final(self) == *old(self)
            },
    {
        if input_frames == 0 {
            match self.state {
                StreamState::Drained => Ok(Action::Immediate { result: ProcessResult { consumed: 0, produced: 0 } }),
                _ => {
                    self.state = StreamState::Flushing;
                    Ok(Action::Flush { output_frames })
                },
            }
        } else {
            match self.state {
                StreamState::Ready => Ok(Action::Feed { input_frames, output_frames }),
                _ => Err(Error::new(ErrorKind::InvalidState, String::from_str("no input is taken once the stream is flushed"))),
            }
        }
    }

    /// Takes the engine's answer to `action`: its counts, or its message on
    /// failure. Counts beyond what the engine was handed are refused as a
    /// failure. A failure leaves the session as it was; counts that fit are
    /// returned, added to the totals, and may leave the stream drained.
    pub fn complete(&mut self, action: Action, outcome: Result<ProcessResult, String>) -> (r: Result<ProcessResult, Error>)
        ensures
            outcome matches Err(m) ==> {
                &&& r is Err
                &&& r->Err_0.kind == ErrorKind::Processing
                &&& r->Err_0.message@ == m@
                &&& *final(self) == *old(self)
            },
            outcome matches Ok(res) ==> (!reply_fits(action, res) ==> {
                &&& r is Err
                &&& r->Err_0.kind == ErrorKind::Processing
                &&& *final(self) == *old(self)
            }),
            outcome matches Ok(res) ==> (reply_fits(action, res) ==> {
                &&& r == Ok::<ProcessResult, Error>(res)
                &&& final(self).spec_state() == state_after_reply(old(self).spec_state(), action, res)
                &&& final(self).same_config(*old(self))
                &&& final(self).spec_total_consumed() == saturating_sum(old(self).spec_total_consumed(), res.consumed as u64)
                &&& final(self).spec_total_produced() == saturating_sum(old(self).spec_total_produced(), res.produced as u64)
            }),
    {
        let res = match outcome {
            Err(m) => {
                return Err(Error::new(ErrorKind::Processing, m));
            },
            Ok(res) => res,
        };
        let fits = match action {
            Action::Feed { input_frames, output_frames } => res.consumed <= input_frames
                && res.produced <= output_frames,
            Action::Flush { output_frames } => res.consumed == 0 && res.produced <= output_frames,
            Action::Immediate { result } => res.consumed == result.consumed && res.produced
                == result.produced,
        };
        if !fits {
            return Err(Error::new(ErrorKind::Processing, String::from_str("the engine reported more frames than it was handed")));
        }
        if let Action::Flush { output_frames } = action {
            if output_frames > 0 && res.produced == 0 {
                self.state = StreamState::Drained;
            }
        }
        let c = res.consumed as u64;
        let p = res.produced as u64;
        self.total_consumed = if self.total_consumed > u64::MAX - c {
            u64::MAX
        } else {
            self.total_consumed + c
        };
        self.total_produced = if self.total_produced > u64::MAX - p {
            u64::MAX
        } else {
            self.total_produced + p
        };
        Ok(res)
    }
}

} // verus!
