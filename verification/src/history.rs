//! What a controller does over a whole run: the commands, reports and chunks
//! that reach it one after another, and the frames that leave for the network.

use vstd::prelude::*;
use crate::lifecycle::{ControllerModel, LifecycleState};
use crate::pcm::frame_of;

verus! {

/// One thing that reaches the controller.
pub enum Input {
    /// The command `initialize`.
    Initialize,
    /// The report that the session is open.
    SessionOpened,
    /// The report that the session could not be opened.
    SessionFailed,
    /// The command `start`.
    Start,
    /// The command `stop`.
    Stop,
    /// The report that the session with the given serial number ended.
    SessionEnded(u64),
    /// A chunk from capture.
    Chunk(Seq<i16>),
}

impl ControllerModel {
    /// The state after one input.  A chunk changes nothing.
    pub open spec fn step(self, input: Input) -> ControllerModel {
        match input {
            Input::Initialize => self.initialize(),
            Input::SessionOpened => self.session_opened(),
            Input::SessionFailed => self.session_failed(),
            Input::Start => self.start(),
            Input::Stop => self.stop(),
            Input::SessionEnded(serial) => self.session_ended(serial),
            Input::Chunk(_) => self,
        }
    }

    /// The frames that one input sends: one for a chunk that passes.
    pub open spec fn emits(self, input: Input) -> Seq<Seq<u8>> {
        match input {
            Input::Chunk(chunk) => match self.forwards(chunk) {
                Some(frame) => seq![frame],
                None => Seq::empty(),
            },
            _ => Seq::empty(),
        }
    }

    /// Whether an input clears the listening flag: a `stop`, the end of the
    /// open session, or a new session taken up.
    pub open spec fn clears_flag(self, input: Input) -> bool {
        match input {
            Input::Stop => true,
            Input::SessionEnded(serial) => self.ended_drops(serial),
            Input::SessionOpened => self.opened_as() is Some,
            _ => false,
        }
    }

    /// The state after a run of inputs.
    pub open spec fn run(self, inputs: Seq<Input>) -> ControllerModel
        decreases inputs.len(),
    {
        if inputs.len() == 0 {
            self
        } else {
            self.step(inputs[0]).run(inputs.drop_first())
        }
    }

    /// Whether no input of a run clears the listening flag from position
    /// `from` on.
    pub open spec fn keeps_flag_from(self, inputs: Seq<Input>, from: int) -> bool {
        forall|k: int|
            from <= k < inputs.len() ==> !self.run(inputs.take(k)).clears_flag(
                #[trigger] inputs[k],
            )
    }

    /// The frames sent during a run of inputs, in the order of sending.
    pub open spec fn sent(self, inputs: Seq<Input>) -> Seq<Seq<u8>>
        decreases inputs.len(),
    {
        if inputs.len() == 0 {
            Seq::empty()
        } else {
            self.emits(inputs[0]) + self.step(inputs[0]).sent(inputs.drop_first())
        }
    }
}

/// A run made of chunks alone.
pub open spec fn chunk_inputs(chunks: Seq<Seq<i16>>) -> Seq<Input> {
    Seq::new(chunks.len(), |i: int| Input::Chunk(chunks[i]))
}

/// The frames of a sequence of chunks, one for one.
pub open spec fn frames_of(chunks: Seq<Seq<i16>>) -> Seq<Seq<u8>> {
    Seq::new(chunks.len(), |i: int| frame_of(chunks[i]))
}


/// A run can be cut in two: the second part goes on from where the first ended.
pub proof fn lemma_run_split(c: ControllerModel, inputs: Seq<Input>, at: int)
    requires
        0 <= at <= inputs.len(),
    ensures
        c.run(inputs) == c.run(inputs.take(at)).run(inputs.skip(at)),
        c.sent(inputs) == c.sent(inputs.take(at)) + c.run(inputs.take(at)).sent(inputs.skip(at)),
    decreases at,
{
    if at == 0 {
        assert(inputs.take(0) =~= Seq::<Input>::empty());
        assert(inputs.skip(0) =~= inputs);
        assert(c.sent(inputs.take(0)) + c.sent(inputs) =~= c.sent(inputs));
    } else {
        let rest = inputs.drop_first();
        let next = c.step(inputs[0]);
        lemma_run_split(next, rest, at - 1);
        assert(inputs.take(at).drop_first() =~= rest.take(at - 1));
        assert(inputs.skip(at) =~= rest.skip(at - 1));
        assert(inputs.take(at)[0] == inputs[0]);
        assert(c.sent(inputs) =~= c.sent(inputs.take(at)) + c.run(inputs.take(at)).sent(
            inputs.skip(at),
        ));
    }
}

/// Gating: a chunk that arrives while chunks do not pass is never sent, not
/// then and not later.  Whatever run it stands in, taking it out of the run
/// changes neither the frames sent nor the state reached.
pub proof fn lemma_closed_gate_chunk_is_lost(c: ControllerModel, inputs: Seq<Input>, at: int)
    requires
        0 <= at < inputs.len(),
        inputs[at] is Chunk,
        !c.run(inputs.take(at)).admits(),
    ensures
        c.sent(inputs) == c.sent(inputs.remove(at)),
        c.run(inputs) == c.run(inputs.remove(at)),
{
    let before = inputs.take(at);
    let from = inputs.skip(at);
    let after = inputs.skip(at + 1);
    let gate = c.run(before);
    let short = inputs.remove(at);
    lemma_run_split(c, inputs, at);
    lemma_run_split(c, short, at);
    assert(short.take(at) =~= before);
    assert(short.skip(at) =~= after);
    assert(from.drop_first() =~= after);
    assert(from[0] == inputs[at]);
    assert(gate.step(from[0]) == gate);
    assert(gate.emits(from[0]) =~= Seq::<Seq<u8>>::empty());
    assert(gate.sent(from) =~= gate.sent(after));
}

/// Gating, from the side of the network: every frame sent in a run comes from
/// a chunk of the run that arrived while chunks passed.
pub proof fn lemma_sent_frame_met_open_gate(c: ControllerModel, inputs: Seq<Input>, k: int) -> (at:
    int)
    requires
        0 <= k < c.sent(inputs).len(),
    ensures
        0 <= at < inputs.len(),
        inputs[at] is Chunk,
        c.run(inputs.take(at)).admits(),
        c.sent(inputs)[k] == frame_of(inputs[at]->Chunk_0),
    decreases inputs.len(),
{
    let first = c.emits(inputs[0]);
    let rest = inputs.drop_first();
    let next = c.step(inputs[0]);
    if k < first.len() {
        assert(inputs.take(0) =~= Seq::<Input>::empty());
        0
    } else {
        let found = lemma_sent_frame_met_open_gate(next, rest, k - first.len());
        let at = found + 1;
        assert(inputs.take(at)[0] == inputs[0]);
        assert(inputs.take(at).drop_first() =~= rest.take(found));
        assert(c.run(inputs.take(at)) == next.run(rest.take(found)));
        at
    }
}

/// Ordering: while chunks pass, the chunks of capture leave as frames one
/// for one and in the order of their arrival, and the state does not move.
pub proof fn lemma_open_gate_keeps_order(c: ControllerModel, chunks: Seq<Seq<i16>>)
    requires
        c.admits(),
    ensures
        c.sent(chunk_inputs(chunks)) == frames_of(chunks),
        c.run(chunk_inputs(chunks)) == c,
    decreases chunks.len(),
{
    let inputs = chunk_inputs(chunks);
    if chunks.len() == 0 {
        assert(c.sent(inputs) =~= frames_of(chunks));
    } else {
        let rest = chunks.drop_first();
        lemma_open_gate_keeps_order(c, rest);
        assert(inputs.drop_first() =~= chunk_inputs(rest));
        assert(c.step(inputs[0]) == c);
        assert(c.emits(inputs[0]) =~= seq![frame_of(chunks[0])]);
        assert(c.sent(inputs) =~= frames_of(chunks));
    }
}

/// While chunks do not pass, nothing is sent, whatever number of chunks
/// arrives.
pub proof fn lemma_closed_gate_sends_nothing(c: ControllerModel, chunks: Seq<Seq<i16>>)
    requires
        !c.admits(),
    ensures
        c.sent(chunk_inputs(chunks)).len() == 0,
        c.run(chunk_inputs(chunks)) == c,
    decreases chunks.len(),
{
    let inputs = chunk_inputs(chunks);
    if chunks.len() > 0 {
        let rest = chunks.drop_first();
        lemma_closed_gate_sends_nothing(c, rest);
        assert(inputs.drop_first() =~= chunk_inputs(rest));
        assert(c.step(inputs[0]) == c);
    }
}

/// `initialize` is idempotent.  A second call in a row changes nothing and
/// asks for no session, be it right after the first or after the session of
/// the first was opened; and once that session is open there is one.
pub proof fn lemma_initialize_idempotent(c: ControllerModel)
    ensures
        c.initialize().initialize() == c.initialize(),
        !c.initialize().initialize_opens(),
        c.initialize().session_opened().has_session(),
        c.initialize().session_opened().initialize() == c.initialize().session_opened(),
        !c.initialize().session_opened().initialize_opens(),
{
}

/// `start` is idempotent: called twice, the listening flag is set as after
/// one call.
pub proof fn lemma_start_idempotent(c: ControllerModel)
    ensures
        c.start().listening,
        c.start().start() == c.start(),
{
}

/// `stop` is idempotent: called twice, the controller is idle as after one
/// call, and the second call finds no session to close.
pub proof fn lemma_stop_idempotent(c: ControllerModel)
    ensures
        c.stop().state() == LifecycleState::Idle,
        !c.stop().listening,
        c.stop().stop() == c.stop(),
        !c.stop().stop_closes(),
{
}

/// A report that a session ended counts once, and for that session alone.
/// Unless the session named is the open one the report changes nothing; if it
/// is, the controller goes to idle with the flag cleared, and the same report
/// again changes nothing.  A session is taken up under a serial number other
/// than that of the session before it, so a reader that outlives its session
/// cannot end the next.
pub proof fn lemma_stale_report_changes_nothing(c: ControllerModel, serial: u64)
    ensures
        c.session() != Some(serial) ==> c.session_ended(serial) == c && !c.ended_drops(serial),
        c.session() == Some(serial) ==> c.session_ended(serial).state() == LifecycleState::Idle
            && !c.session_ended(serial).listening,
        c.session_ended(serial).session_ended(serial) == c.session_ended(serial),
        c.opened_as() is Some ==> c.opened_as() != Some(c.serial) && c.session_opened().session()
            == c.opened_as(),
{
}

/// A run taken one input further: its first input, then one input less of
/// the rest.
proof fn lemma_run_prefix(c: ControllerModel, inputs: Seq<Input>, k: int)
    requires
        1 <= k <= inputs.len(),
    ensures
        c.run(inputs.take(k)) == c.step(inputs[0]).run(inputs.drop_first().take(k - 1)),
{
    assert(inputs.take(k)[0] == inputs[0]);
    assert(inputs.take(k).drop_first() =~= inputs.drop_first().take(k - 1));
}

/// The listening flag is set only between a `start` and what clears it next:
/// a `stop`, the end of the open session, or a new session taken up.  If the
/// flag is set after a run, and was clear before it or was cleared in it,
/// then the run holds a `start` after which nothing cleared the flag.
pub proof fn lemma_listening_follows_start(c: ControllerModel, inputs: Seq<Input>) -> (at: int)
    requires
        c.run(inputs).listening,
        !c.listening || !c.keeps_flag_from(inputs, 0),
    ensures
        0 <= at < inputs.len(),
        inputs[at] is Start,
        c.keeps_flag_from(inputs, at),
    decreases inputs.len(),
{
    if inputs.len() == 0 {
        assert(c.run(inputs) == c);
        assert(c.keeps_flag_from(inputs, 0));
        0
    } else {
        let rest = inputs.drop_first();
        let next = c.step(inputs[0]);
        assert(c.run(inputs) == next.run(rest));
        assert(inputs.take(0) =~= Seq::<Input>::empty());
        assert(c.run(inputs.take(0)) == c);
        if !next.listening || !next.keeps_flag_from(rest, 0) {
            let found = lemma_listening_follows_start(next, rest);
            assert forall|k: int| found + 1 <= k < inputs.len() implies !c.run(
                inputs.take(k),
            ).clears_flag(#[trigger] inputs[k]) by {
                lemma_run_prefix(c, inputs, k);
                assert(rest[k - 1] == inputs[k]);
            }
            found + 1
        } else {
            assert forall|k: int| 1 <= k < inputs.len() implies !c.run(inputs.take(k)).clears_flag(
                #[trigger] inputs[k],
            ) by {
                lemma_run_prefix(c, inputs, k);
                assert(rest[k - 1] == inputs[k]);
            }
            if c.listening {
                let k = choose|k: int|
                    0 <= k < inputs.len() && c.run(inputs.take(k)).clears_flag(
                        #[trigger] inputs[k],
                    );
                assert(k == 0);
            }
            assert(inputs[0] is Start);
            0
        }
    }
}

} // verus!
