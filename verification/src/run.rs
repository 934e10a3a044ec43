//! The decisions of running a tool: which exit code a run ends with, and,
//! in stream mode, what to do with each item as it arrives.

use vstd::prelude::*;

use crate::capabilities::OutputMode;
use crate::error::{ToolError, GENERIC, SUCCESS};

verus! {

/// The exit code of a run: the error's own code when the tool failed;
/// otherwise success, unless rendering the blocks failed.
pub fn run_exit_code<B>(outcome: &Result<Vec<B>, ToolError>, rendered: bool) -> (r: u8)
    ensures
        match outcome {
            Ok(_) => r == if rendered {
                SUCCESS
            } else {
                GENERIC
            },
            Err(e) => r == e.exit_code,
        },
{
    match outcome {
        Ok(_) => if rendered {
            SUCCESS
        } else {
            GENERIC
        },
        Err(e) => e.exit_code,
    }
}

/// What to do with one stream item.
pub enum StreamAction<B> {
    /// Keep the block for the final JSON array.
    Buffer,
    /// Render the block now.
    Emit(B),
    /// Render the error on stderr and end the run with this exit code.
    Fail(ToolError, u8),
}

/// What to do when the stream ends without an error.
pub enum StreamEnd<B> {
    /// Render the buffered blocks as one JSON array.
    EmitArray(Vec<B>),
    /// Nothing is left to render.
    Done,
}

/// One step of a streaming run: the buffer afterwards and the action, for
/// an item arriving in `mode` with `buffered` blocks held.
pub open spec fn stream_step<B>(mode: OutputMode, buffered: Seq<B>, item: Result<B, ToolError>) -> (
    Seq<B>,
    StreamAction<B>,
) {
    match item {
        Ok(b) => if mode == OutputMode::Json {
            (buffered.push(b), StreamAction::Buffer)
        } else {
            (buffered, StreamAction::Emit(b))
        },
        Err(e) => (buffered, StreamAction::Fail(e, e.exit_code)),
    }
}

/// A run over `items`, one step each, ending at the first failure: the
/// actions taken and the buffer left.
pub open spec fn stream_drive<B>(
    mode: OutputMode,
    buffered: Seq<B>,
    items: Seq<Result<B, ToolError>>,
) -> (Seq<StreamAction<B>>, Seq<B>)
    decreases items.len(),
{
    if items.len() == 0 {
        (Seq::empty(), buffered)
    } else {
        let step = stream_step(mode, buffered, items[0]);
        if step.1 is Fail {
            (seq![step.1], step.0)
        } else {
            let rest = stream_drive(mode, step.0, items.drop_first());
            (seq![step.1] + rest.0, rest.1)
        }
    }
}

/// The items of a stream that yields `oks` and then, if any, the error
/// `failure` followed by `rest`.
pub open spec fn stream_items<B>(
    oks: Seq<B>,
    failure: Option<ToolError>,
    rest: Seq<Result<B, ToolError>>,
) -> Seq<Result<B, ToolError>> {
    oks.map_values(|b: B| Ok::<B, ToolError>(b)) + match failure {
        Some(e) => seq![Err::<B, ToolError>(e)] + rest,
        None => Seq::empty(),
    }
}

proof fn lemma_stream_drive<B>(
    mode: OutputMode,
    buffered: Seq<B>,
    oks: Seq<B>,
    failure: Option<ToolError>,
    rest: Seq<Result<B, ToolError>>,
)
    ensures
        ({
            let run = stream_drive(mode, buffered, stream_items(oks, failure, rest));
            &&& run.0.len() == oks.len() + if failure is Some {
                1int
            } else {
                0int
            }
            &&& forall|i: int|
                0 <= i < oks.len() ==> #[trigger] run.0[i] == if mode == OutputMode::Json {
                    StreamAction::<B>::Buffer
                } else {
                    StreamAction::Emit(oks[i])
                }
            &&& failure matches Some(e) ==> run.0[oks.len() as int] == StreamAction::<B>::Fail(
                e,
                e.exit_code,
            )
            &&& run.1 == if mode == OutputMode::Json {
                buffered + oks
            } else {
                buffered
            }
        }),
    decreases oks.len(),
{
    let items = stream_items(oks, failure, rest);
    if oks.len() == 0 {
        assert(items =~= match failure {
            Some(e) => seq![Err::<B, ToolError>(e)] + rest,
            None => Seq::<Result<B, ToolError>>::empty(),
        });
        assert(buffered + oks =~= buffered);
    } else {
        let tail = oks.drop_first();
        assert(items[0] == Ok::<B, ToolError>(oks[0]));
        assert(items.drop_first() =~= stream_items(tail, failure, rest));
        let b2 = if mode == OutputMode::Json {
            buffered.push(oks[0])
        } else {
            buffered
        };
        lemma_stream_drive(mode, b2, tail, failure, rest);
        let run = stream_drive(mode, buffered, items);
        let sub = stream_drive(mode, b2, tail.map_values(|b: B| Ok::<B, ToolError>(b)) + match failure {
            Some(e) => seq![Err::<B, ToolError>(e)] + rest,
            None => Seq::empty(),
        });
        assert forall|i: int| 0 <= i < oks.len() implies #[trigger] run.0[i] == if mode
            == OutputMode::Json {
            StreamAction::<B>::Buffer
        } else {
            StreamAction::Emit(oks[i])
        } by {
            if i > 0 {
                assert(run.0[i] == sub.0[i - 1]);
                assert(tail[i - 1] == oks[i]);
            }
        }
        if mode == OutputMode::Json {
            assert(b2 + tail =~= buffered + oks);
        }
    }
}

/// A streaming run over a stream that yields the blocks `oks` and then,
/// if it fails, the error `failure` (anything after it is never taken):
/// outside JSON mode each block is emitted as it arrives, in order, and
/// the buffer stays empty; in JSON mode each block is buffered, so that
/// [`StreamRun::finish`] emits them as one array in order; a failure ends
/// the run with the error's own exit code.
pub proof fn law_stream_run<B>(
    mode: OutputMode,
    oks: Seq<B>,
    failure: Option<ToolError>,
    rest: Seq<Result<B, ToolError>>,
)
    ensures
        ({
            let run = stream_drive(mode, Seq::empty(), stream_items(oks, failure, rest));
            &&& run.0.len() == oks.len() + if failure is Some {
                1int
            } else {
                0int
            }
            &&& forall|i: int|
                0 <= i < oks.len() ==> #[trigger] run.0[i] == if mode == OutputMode::Json {
                    StreamAction::<B>::Buffer
                } else {
                    StreamAction::Emit(oks[i])
                }
            &&& failure matches Some(e) ==> run.0[oks.len() as int] == StreamAction::<B>::Fail(
                e,
                e.exit_code,
            )
            &&& run.1 == if mode == OutputMode::Json {
                oks
            } else {
                Seq::<B>::empty()
            }
        }),
{
    lemma_stream_drive(mode, Seq::empty(), oks, failure, rest);
    assert(Seq::<B>::empty() + oks =~= oks);
}

/// The state of a streaming run: the output mode and, in JSON mode, the
/// blocks buffered so far (a JSON document cannot be emitted
/// incrementally).
pub struct StreamRun<B> {
    /// The output mode.
    pub mode: OutputMode,
    /// Blocks buffered for the final array.
    pub buffered: Vec<B>,
}

impl<B> StreamRun<B> {
    /// A run that has seen no item yet.
    pub fn new(mode: OutputMode) -> (r: StreamRun<B>)
        ensures
            r.mode == mode,
            r.buffered@.len() == 0,
    {
        StreamRun { mode, buffered: Vec::new() }
    }

    /// Take one item: a block is buffered in JSON mode and emitted at once
    /// otherwise; an error ends the run with its exit code.
    pub fn on_item(&mut self, item: Result<B, ToolError>) -> (r: StreamAction<B>)
        ensures
            final(self).mode == old(self).mode,
            (final(self).buffered@, r) == stream_step(old(self).mode, old(self).buffered@, item),
            match item {
                Ok(b) => if old(self).mode == OutputMode::Json {
                    r is Buffer && final(self).buffered@ == old(self).buffered@.push(b)
                } else {
                    r == StreamAction::Emit(b) && final(self).buffered@ == old(self).buffered@
                },
                Err(e) => r == StreamAction::<B>::Fail(e, e.exit_code) && final(self).buffered@
                    == old(self).buffered@,
            },
    {
        match item {
            Ok(block) => {
                if self.mode == OutputMode::Json {
                    self.buffered.push(block);
                    StreamAction::Buffer
                } else {
                    StreamAction::Emit(block)
                }
            },
            Err(err) => {
                let code = err.exit_code;
                StreamAction::Fail(err, code)
            },
        }
    }

    /// The stream ended without an error: in JSON mode the buffered blocks
    /// are rendered as one array. The run then exits with success.
    pub fn finish(self) -> (r: (StreamEnd<B>, u8))
        ensures
            r.1 == SUCCESS,
            self.mode == OutputMode::Json ==> (r.0 matches StreamEnd::EmitArray(v) && v@
                == self.buffered@),
            self.mode != OutputMode::Json ==> r.0 is Done,
    {
        if self.mode == OutputMode::Json {
            (StreamEnd::EmitArray(self.buffered), SUCCESS)
        } else {
            (StreamEnd::Done, SUCCESS)
        }
    }
}

} // verus!
