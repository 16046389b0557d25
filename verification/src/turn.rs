//! One turn of the player, end to end: the conversation with the generation
//! service is driven from outside, and every decision in it is made here.
use crate::agent::{
    answer_view, generated_from, needs_location, opt_text, rolls_needed, run, Agent, Applied,
    Outcome, AGENT_TAG,
};
use crate::json::json_document;
use crate::model::WorldView;
use crate::suggest::{extract_suggested_actions, suggested_actions};
use crate::text::{
    byte_length, chars_of, decimal, decimal_count, decimal_string, join2, join3,
    lemma_logged_joined, lemma_logged_more, logged_all, logged_entry, owned, utf8_len, views,
};
use crate::tools::{decode, known_operation, ToolCall, ToolCommandView, ToolError};
use crate::travel::GenerationRequest;
use vstd::prelude::*;

verus! {

/// A message of the conversation with the generation service.
#[derive(Debug, Clone)]
pub struct LlmMessage {
    pub role: String,
    pub content: Option<String>,
    pub tool_calls: Option<Vec<ToolCall>>,
    pub tool_call_id: Option<String>,
}

/// What a turn comes to: the narrative and the actions suggested next.
#[derive(Debug, Clone)]
pub struct AgentResponse {
    pub narrative: String,
    pub suggested_actions: Vec<String>,
}

/// Tokens granted to the answer that may call tools.
pub const REPLY_TOKENS: u32 = 4096;

/// Tokens granted to the answer that only narrates.
pub const NARRATION_TOKENS: u32 = 1000;

/// What the service is asked when it called tools and said nothing.
pub const NARRATION_PROMPT: &'static str =
    "Describe what just happened in 2-3 sentences. Do not call any tools, just provide narrative.";

/// The narrative of a turn that ran out of time.
pub const TIMEOUT_NARRATIVE: &'static str = "[Timeout: The game took too long to respond]";

/// Where a turn stands.
#[derive(Debug, Clone, Copy, PartialEq, Eq, Structural)]
pub enum TurnPhase {
    /// The conversation was sent; the answer is awaited.
    AwaitingReply,
    /// A location was asked for; the answer is awaited.
    AwaitingLocation,
    /// A narration was asked for; the answer is awaited.
    AwaitingNarration,
    /// The turn is over.
    Finished,
}

/// What is to be done next for the turn.
#[derive(Debug)]
pub enum TurnAction {
    /// Send the turn's messages to the generation service, with the tool
    /// catalogue or without, and report the answer.
    Request { offer_tools: bool, max_tokens: u32 },
    /// Ask the generation service for a location and report the answer.
    Generate { request: GenerationRequest },
    /// Hand the response to the player.
    Respond { response: AgentResponse },
}

/// The state of one turn.
#[derive(Debug)]
pub struct Turn {
    pub phase: TurnPhase,
    pub messages: Vec<LlmMessage>,
    pub content: Option<String>,
    pub calls: Vec<ToolCall>,
    pub had_calls: bool,
    pub next_call: usize,
    pub pending_direction: Option<String>,
}

/// What the calls of a turn work on: the world, and the narrative set so far.
pub struct Progress {
    pub world: WorldView,
    pub narrative: Option<Seq<char>>,
}

/// The progress that an agent holds.
pub open spec fn progress(agent: Agent) -> Progress {
    Progress { world: agent.world@, narrative: opt_text(agent.turn_narrative) }
}

/// The command that a call stands for, where its payload is a document that
/// decodes.
pub open spec fn command_of_call(call: ToolCall) -> Option<ToolCommandView> {
    match json_document(call.function.arguments@) {
        None => None,
        Some(args) => match decode(call.function.name@, args) {
            Ok(cmd) => Some(cmd),
            Err(_) => None,
        },
    }
}

/// Whether a call is a step into the unexplored.
pub open spec fn call_needs_location(a: Progress, call: ToolCall) -> bool {
    match command_of_call(call) {
        Some(cmd) => needs_location(a.world, cmd),
        None => false,
    }
}

/// Whether `b` may come of `a` by one call that is no step into the
/// unexplored. A call that does not decode, or fails, leaves everything as
/// it was; any other leads where `run` leads for some random numbers.
#[verifier::opaque]
pub open spec fn call_step(a: Progress, call: ToolCall, b: Progress) -> bool {
    match command_of_call(call) {
        None => b == a,
        Some(cmd) => !needs_location(a.world, cmd) && exists|rolls: Seq<u32>|
            rolls.len() == rolls_needed(cmd) && b == progress_after(
                #[trigger] run(a.world, a.narrative, cmd, rolls, None),
            ),
    }
}

/// The progress that an outcome leaves.
pub open spec fn progress_after(o: Outcome) -> Progress {
    Progress { world: o.world, narrative: o.narrative }
}

/// Whether `b` may come of `a` by the calls from index `from` up to, not
/// including, index `to`, one after the other, none of them a step into the
/// unexplored.
pub open spec fn call_steps(a: Progress, calls: Seq<ToolCall>, from: int, to: int, b: Progress) -> bool
    decreases to - from,
{
    if to <= from {
        b == a
    } else {
        exists|mid: Progress|
            call_steps(a, calls, from, to - 1, mid) && #[trigger] call_step(mid, calls[to - 1], b)
    }
}

/// The progress after a step into the unexplored was completed with the
/// given answer of the generation service.
pub open spec fn moved(
    a: Progress,
    direction: Seq<char>,
    answer: Result<Seq<char>, Seq<char>>,
) -> Progress {
    progress_after(
        run(
            a.world,
            a.narrative,
            ToolCommandView::MoveTo { direction },
            Seq::empty(),
            generated_from(answer),
        ),
    )
}

/// One more call done extends what the calls before it have done.
proof fn lemma_call_steps_extend(
    a: Progress,
    calls: Seq<ToolCall>,
    from: int,
    to: int,
    mid: Progress,
    b: Progress,
)
    requires
        from <= to,
        call_steps(a, calls, from, to, mid),
        call_step(mid, calls[to], b),
    ensures
        call_steps(a, calls, from, to + 1, b),
{
    assert(call_steps(a, calls, from, (to + 1) - 1, mid) && call_step(mid, calls[(to + 1) - 1], b));
}

/// What executing a call that is no step into the unexplored does to the
/// progress.
proof fn lemma_call_step(before: Agent, call: ToolCall, r: Result<Applied, ToolError>, after: Agent)
    requires
        Agent::called(before, call, r, after),
        !(r matches Ok(Applied::NeedsLocation { .. })),
    ensures
        call_step(progress(before), call, progress(after)),
        !call_needs_location(progress(before), call),
{
    reveal(call_step);
    match command_of_call(call) {
        None => {},
        Some(cmd) => {
            let a = progress(before);
            match r {
                Ok(Applied::Done(ack)) => {
                    let rolls = choose|rolls: Seq<u32>|
                        rolls.len() == rolls_needed(cmd) && #[trigger] after.reached(
                            Ok(ack),
                            run(before.world@, opt_text(before.turn_narrative), cmd, rolls, None),
                        );
                    assert(progress(after) == progress_after(
                        run(a.world, a.narrative, cmd, rolls, None),
                    ));
                },
                Err(e) => {
                    let rolls = choose|rolls: Seq<u32>|
                        rolls.len() == rolls_needed(cmd) && #[trigger] after.reached(
                            Err(e),
                            run(before.world@, opt_text(before.turn_narrative), cmd, rolls, None),
                        );
                    assert(progress(after) == progress_after(
                        run(a.world, a.narrative, cmd, rolls, None),
                    ));
                },
                _ => {},
            }
        },
    }
}

/// What a call that is a step into the unexplored leaves: everything as it
/// was, and the direction of the step.
proof fn lemma_call_needs_location(
    before: Agent,
    call: ToolCall,
    r: Result<Applied, ToolError>,
    after: Agent,
)
    requires
        Agent::called(before, call, r, after),
        r matches Ok(Applied::NeedsLocation { .. }),
    ensures
        call_needs_location(progress(before), call),
        progress(after) == progress(before),
        command_of_call(call) == Some(
            ToolCommandView::MoveTo { direction: r->Ok_0->NeedsLocation_direction@ },
        ),
{
}

/// What the log says when a call is taken up: its name.
pub open spec fn announcing_note(call: ToolCall) -> Seq<char> {
    "  - "@ + call.function.name@
}

/// What the log says of the calls from index `from` up to, not including,
/// index `to`: of each that it is taken up and that it is executed.
pub open spec fn calls_notes(calls: Seq<ToolCall>, from: int, to: int) -> Seq<Seq<char>>
    decreases to - from,
{
    if to <= from {
        Seq::empty()
    } else {
        calls_notes(calls, from, to - 1).push(announcing_note(calls[to - 1])).push(
            Agent::executing_note(calls[to - 1]),
        )
    }
}

/// What the log says of a narrative: how many bytes it takes.
pub open spec fn narrative_note(narrative: Seq<char>) -> Seq<char> {
    "Narrative length: "@ + decimal(utf8_len(narrative) as int) + " chars"@
}

/// What the log says of an answer that holds calls: how many they are.
pub open spec fn reply_notes(tool_calls: Option<Vec<ToolCall>>) -> Seq<Seq<char>> {
    match tool_calls {
        Some(calls) => seq!["Got "@ + decimal(calls@.len() as int) + " tool call(s)"@],
        None => Seq::empty(),
    }
}

/// What the log says of one call of a turn.
pub open spec fn run_notes(world: WorldView, call: ToolCall, direction: Option<Seq<char>>) -> Seq<
    Seq<char>,
> {
    match direction {
        None => seq![announcing_note(call), Agent::executing_note(call)],
        Some(d) => seq![
            announcing_note(call),
            Agent::executing_note(call),
            Agent::generating_note(world, d),
        ],
    }
}

/// The notes of one more call extend the notes of the calls before it.
proof fn lemma_notes_extend(
    log0: Seq<Seq<char>>,
    calls: Seq<ToolCall>,
    from: int,
    to: int,
    world: WorldView,
    direction: Option<Seq<char>>,
    mid: Seq<Seq<char>>,
    after: Seq<Seq<char>>,
)
    requires
        from <= to,
        mid == logged_all(log0, AGENT_TAG@, calls_notes(calls, from, to)),
        after == logged_all(mid, AGENT_TAG@, run_notes(world, calls[to], direction)),
    ensures
        direction is None ==> after == logged_all(
            log0,
            AGENT_TAG@,
            calls_notes(calls, from, to + 1),
        ),
        direction matches Some(d) ==> after == logged_all(
            log0,
            AGENT_TAG@,
            calls_notes(calls, from, to + 1).push(Agent::generating_note(world, d)),
        ),
{
    let first = calls_notes(calls, from, to);
    let second = run_notes(world, calls[to], direction);
    lemma_logged_joined(log0, AGENT_TAG@, first, second);
    assert(calls_notes(calls, from, to + 1) == calls_notes(calls, from, (to + 1) - 1).push(
        announcing_note(calls[(to + 1) - 1]),
    ).push(Agent::executing_note(calls[(to + 1) - 1])));
    match direction {
        None => {
            assert(first + second =~= calls_notes(calls, from, to + 1));
        },
        Some(d) => {
            assert(first + second =~= calls_notes(calls, from, to + 1).push(
                Agent::generating_note(world, d),
            ));
        },
    }
}

/// Executes one call of a turn. Returns `None` when the call is done with,
/// whether it succeeded or failed, and the direction and the request when it
/// is a step into the unexplored, which has changed nothing yet.
fn run_call(agent: &mut Agent, call: &ToolCall) -> (r: Option<(String, GenerationRequest)>)
    ensures
        views(final(agent).debug_log@) == logged_all(
            views(old(agent).debug_log@),
            AGENT_TAG@,
            run_notes(
                old(agent).world@,
                *call,
                match r {
                    Some((direction, request)) => Some(direction@),
                    None => None,
                },
            ),
        ),
        final(agent).overall_timeout_seconds == old(agent).overall_timeout_seconds,
        match r {
            None => {
                &&& call_step(progress(*old(agent)), *call, progress(*final(agent)))
                &&& !call_needs_location(progress(*old(agent)), *call)
            },
            Some((direction, request)) => {
                &&& call_needs_location(progress(*old(agent)), *call)
                &&& progress(*final(agent)) == progress(*old(agent))
                &&& command_of_call(*call) == Some(
                    ToolCommandView::MoveTo { direction: direction@ },
                )
                &&& request.system_prompt@ == crate::travel::GENERATOR_ROLE@
                &&& request.prompt@ == crate::travel::generation_prompt(
                    old(agent).world@.location(old(agent).world@.current_pos)->0,
                    old(agent).world@.current_pos,
                    direction@,
                    crate::travel::as_pos(
                        crate::travel::step(old(agent).world@.current_pos, direction@),
                    ),
                )
            },
        },
{
    let ghost log0 = views(agent.debug_log@);
    let announce = join2("  - ", call.function.name.as_str());
    agent.log(announce.as_str());
    let ghost mid = *agent;
    let r = agent.dispatch(call);
    proof {
        let notes = Agent::call_notes(mid.world@, *call, r);
        lemma_logged_more(log0, AGENT_TAG@, Seq::empty(), announce@);
        assert(Seq::<Seq<char>>::empty().push(announce@) =~= seq![announce@]);
        lemma_logged_joined(log0, AGENT_TAG@, seq![announce@], notes);
        assert(progress(mid.with_log(agent.debug_log)) == progress(*old(agent)));
    }
    match r {
        Ok(Applied::NeedsLocation { direction, request }) => {
            proof {
                lemma_call_needs_location(mid.with_log(agent.debug_log), *call, r, *agent);
                assert(seq![announce@] + Agent::call_notes(mid.world@, *call, r) =~= run_notes(
                    old(agent).world@,
                    *call,
                    Some(direction@),
                ));
            }
            Some((direction, request))
        },
        _ => {
            proof {
                lemma_call_step(mid.with_log(agent.debug_log), *call, r, *agent);
                assert(seq![announce@] + Agent::call_notes(mid.world@, *call, r) =~= run_notes(
                    old(agent).world@,
                    *call,
                    None,
                ));
            }
            None
        },
    }
}

impl Turn {
    /// The response of a turn that ran out of time, which the log notes.
    pub fn timed_out(agent: &mut Agent) -> (r: AgentResponse)
        ensures
            r.narrative@ == TIMEOUT_NARRATIVE@,
            views(r.suggested_actions@) == seq!["look around"@],
            views(final(agent).debug_log@) == logged_entry(
                views(old(agent).debug_log@),
                AGENT_TAG@ + ("Timeout reached ("@ + decimal(
                    old(agent).overall_timeout_seconds as int,
                ) + "s)"@),
            ),
            final(agent).world == old(agent).world,
            final(agent).turn_narrative == old(agent).turn_narrative,
            final(agent).overall_timeout_seconds == old(agent).overall_timeout_seconds,
    {
        let limit = decimal_string(agent.overall_timeout_seconds as i128);
        let note = join3("Timeout reached (", limit.as_str(), "s)");
        agent.log(note.as_str());
        let mut suggested: Vec<String> = Vec::new();
        suggested.push(owned("look around"));
        proof {
            assert(views(suggested@) =~= seq!["look around"@]);
        }
        AgentResponse { narrative: owned(TIMEOUT_NARRATIVE), suggested_actions: suggested }
    }

    /// Opens a turn for the player's input. The narrative of the turn before
    /// is forgotten, and the conversation starts with the context snapshot
    /// and the player's action; it is to be sent with the tool catalogue.
    pub fn begin(agent: &mut Agent, user_input: &str) -> (r: (Turn, TurnAction))
        ensures
            r.0.phase == TurnPhase::AwaitingReply,
            r.0.messages@.len() == 2,
            r.0.messages@[0].role@ == "system"@,
            opt_text(r.0.messages@[0].content) == Some(old(agent).world@.system_context()),
            r.0.messages@[0].tool_calls is None && r.0.messages@[0].tool_call_id is None,
            r.0.messages@[1].role@ == "user"@,
            opt_text(r.0.messages@[1].content) == Some("Player Action: "@ + user_input@),
            r.0.messages@[1].tool_calls is None && r.0.messages@[1].tool_call_id is None,
            r.0.calls@.len() == 0 && r.0.next_call == 0 && !r.0.had_calls,
            r.0.content is None && r.0.pending_direction is None,
            r.1 matches TurnAction::Request { offer_tools, max_tokens } && offer_tools && max_tokens
                == REPLY_TOKENS,
            final(agent).world == old(agent).world,
            final(agent).turn_narrative is None,
            final(agent).overall_timeout_seconds == old(agent).overall_timeout_seconds,
            views(final(agent).debug_log@) == logged_entry(
                views(old(agent).debug_log@),
                AGENT_TAG@ + ("Processing user action: "@ + user_input@),
            ),
    {
        let note = join2("Processing user action: ", user_input);
        agent.log(note.as_str());
        agent.turn_narrative = None;
        let mut messages: Vec<LlmMessage> = Vec::new();
        messages.push(
            LlmMessage {
                role: owned("system"),
                content: Some(agent.world.system_context()),
                tool_calls: None,
                tool_call_id: None,
            },
        );
        messages.push(
            LlmMessage {
                role: owned("user"),
                content: Some(join2("Player Action: ", user_input)),
                tool_calls: None,
                tool_call_id: None,
            },
        );
        let turn = Turn {
            phase: TurnPhase::AwaitingReply,
            messages,
            content: None,
            calls: Vec::new(),
            had_calls: false,
            next_call: 0,
            pending_direction: None,
        };
        (turn, TurnAction::Request { offer_tools: true, max_tokens: REPLY_TOKENS })
    }

    /// Whether `after`, `b` and `r` are what going on with the calls of the
    /// turn `before`, from the progress `a`, may come to.
    ///
    /// The calls are executed in order from where the turn stands. At a step
    /// into the unexplored the turn stops, having changed nothing by that
    /// call, and asks for the location. When all calls are done the turn is
    /// concluded: with the narrative that a call has set; or else, where
    /// calls came without any text, with a request for a narration; or else
    /// with the text that came, or none.
    pub open spec fn advanced(
        before: Turn,
        a: Progress,
        r: TurnAction,
        after: Turn,
        b: Progress,
    ) -> bool {
        let calls = before.calls@;
        &&& after.calls == before.calls
        &&& after.had_calls == before.had_calls
        &&& after.content == before.content
        &&& match r {
            TurnAction::Generate { request } => {
                &&& after.phase == TurnPhase::AwaitingLocation
                &&& before.next_call < after.next_call <= calls.len()
                &&& call_steps(a, calls, before.next_call as int, after.next_call - 1, b)
                &&& call_needs_location(b, calls[after.next_call - 1])
                &&& after.pending_direction matches Some(d) && command_of_call(
                    calls[after.next_call - 1],
                ) == Some(ToolCommandView::MoveTo { direction: d@ })
                &&& after.messages == before.messages
                &&& request.system_prompt@ == crate::travel::GENERATOR_ROLE@
                &&& request.prompt@ == crate::travel::generation_prompt(
                    b.world.location(b.world.current_pos)->0,
                    b.world.current_pos,
                    after.pending_direction->0@,
                    crate::travel::as_pos(
                        crate::travel::step(b.world.current_pos, after.pending_direction->0@),
                    ),
                )
            },
            TurnAction::Request { offer_tools, max_tokens } => {
                &&& after.phase == TurnPhase::AwaitingNarration
                &&& after.next_call == calls.len()
                &&& call_steps(a, calls, before.next_call as int, calls.len() as int, b)
                &&& b.narrative is None
                &&& before.had_calls
                &&& before.content is None
                &&& !offer_tools
                &&& max_tokens == NARRATION_TOKENS
                &&& after.messages@.len() == before.messages@.len() + 2
                &&& after.messages@.take(before.messages@.len() as int) == before.messages@
                &&& ({
                    let said = after.messages@[before.messages@.len() as int];
                    &&& said.role@ == "assistant"@
                    &&& said.content is None
                    &&& said.tool_calls matches Some(v) && v@ == calls
                    &&& said.tool_call_id is None
                })
                &&& ({
                    let asked = after.messages@[before.messages@.len() as int + 1];
                    &&& asked.role@ == "user"@
                    &&& opt_text(asked.content) == Some(NARRATION_PROMPT@)
                    &&& asked.tool_calls is None
                    &&& asked.tool_call_id is None
                })
            },
            TurnAction::Respond { response } => {
                &&& after.phase == TurnPhase::Finished
                &&& after.next_call == calls.len()
                &&& call_steps(a, calls, before.next_call as int, calls.len() as int, b)
                &&& after.messages == before.messages
                &&& !(b.narrative is None && before.had_calls && before.content is None)
                &&& response.narrative@ == (match b.narrative {
                    Some(n) => n,
                    None => match before.content {
                        Some(c) => c@,
                        None => Seq::empty(),
                    },
                })
                &&& views(response.suggested_actions@) == suggested_actions(response.narrative@)
            },
        }
    }

    /// What the log says of going on with the calls from index `from`: the
    /// notes of the calls that were executed, and then, by what is to be done
    /// next, that a location is asked for, nothing, or the length of the
    /// narrative of the response.
    pub open spec fn advance_notes(
        calls: Seq<ToolCall>,
        from: int,
        r: TurnAction,
        after: Turn,
        b: Progress,
    ) -> Seq<Seq<char>> {
        let done = calls_notes(calls, from, after.next_call as int);
        match r {
            TurnAction::Generate { request } => done.push(
                Agent::generating_note(b.world, after.pending_direction->0@),
            ),
            TurnAction::Request { offer_tools, max_tokens } => done,
            TurnAction::Respond { response } => done.push(narrative_note(response.narrative@)),
        }
    }

    /// Writes the note of a narrative into the log of the agent.
    fn note_narrative(agent: &mut Agent, narrative: &str)
        ensures
            views(final(agent).debug_log@) == logged_entry(
                views(old(agent).debug_log@),
                AGENT_TAG@ + narrative_note(narrative@),
            ),
            final(agent).world == old(agent).world,
            final(agent).turn_narrative == old(agent).turn_narrative,
            final(agent).overall_timeout_seconds == old(agent).overall_timeout_seconds,
    {
        let chars = chars_of(narrative);
        let count = chars.len();
        let total = byte_length(&chars);
        let n = decimal_string(total as i128);
        let note = join3("Narrative length: ", n.as_str(), " chars");
        agent.log(note.as_str());
    }

    /// Goes on with the calls of the turn.
    pub fn advance(&mut self, agent: &mut Agent) -> (r: TurnAction)
        requires
            old(self).next_call <= old(self).calls.len(),
        ensures
            Turn::advanced(*old(self), progress(*old(agent)), r, *final(self), progress(*final(agent))),
            views(final(agent).debug_log@) == logged_all(
                views(old(agent).debug_log@),
                AGENT_TAG@,
                Turn::advance_notes(
                    old(self).calls@,
                    old(self).next_call as int,
                    r,
                    *final(self),
                    progress(*final(agent)),
                ),
            ),
            final(agent).overall_timeout_seconds == old(agent).overall_timeout_seconds,
    {
        let ghost start = self.next_call as int;
        let ghost a = progress(*agent);
        let ghost log0 = views(agent.debug_log@);
        let mut i: usize = self.next_call;
        while i < self.calls.len()
            invariant
                start <= i <= self.calls.len(),
                start == old(self).next_call,
                a == progress(*old(agent)),
                log0 == views(old(agent).debug_log@),
                self.calls == old(self).calls,
                self.had_calls == old(self).had_calls,
                self.content == old(self).content,
                self.messages == old(self).messages,
                views(agent.debug_log@) == logged_all(
                    log0,
                    AGENT_TAG@,
                    calls_notes(self.calls@, start, i as int),
                ),
                agent.overall_timeout_seconds == old(agent).overall_timeout_seconds,
                call_steps(a, self.calls@, start, i as int, progress(*agent)),
            decreases self.calls.len() - i,
        {
            let ghost before = progress(*agent);
            let ghost mid = views(agent.debug_log@);
            match run_call(agent, &self.calls[i]) {
                Some((direction, request)) => {
                    proof {
                        lemma_notes_extend(
                            log0,
                            self.calls@,
                            start,
                            i as int,
                            before.world,
                            Some(direction@),
                            mid,
                            views(agent.debug_log@),
                        );
                    }
                    self.next_call = i + 1;
                    self.pending_direction = Some(direction);
                    self.phase = TurnPhase::AwaitingLocation;
                    return TurnAction::Generate { request };
                },
                None => {
                    proof {
                        lemma_call_steps_extend(
                            a,
                            self.calls@,
                            start,
                            i as int,
                            before,
                            progress(*agent),
                        );
                        lemma_notes_extend(
                            log0,
                            self.calls@,
                            start,
                            i as int,
                            before.world,
                            None,
                            mid,
                            views(agent.debug_log@),
                        );
                    }
                },
            }
            i += 1;
        }
        self.next_call = i;
        let narrative = match &agent.turn_narrative {
            Some(n) => n.clone(),
            None => {
                if self.had_calls && self.content.is_none() {
                    let said = clone_calls(&self.calls);
                    let ghost before_messages = self.messages@;
                    self.messages.push(
                        LlmMessage {
                            role: owned("assistant"),
                            content: None,
                            tool_calls: Some(said),
                            tool_call_id: None,
                        },
                    );
                    self.messages.push(
                        LlmMessage {
                            role: owned("user"),
                            content: Some(owned(NARRATION_PROMPT)),
                            tool_calls: None,
                            tool_call_id: None,
                        },
                    );
                    proof {
                        assert(self.messages@.take(before_messages.len() as int)
                            =~= before_messages);
                    }
                    self.phase = TurnPhase::AwaitingNarration;
                    return TurnAction::Request { offer_tools: false, max_tokens: NARRATION_TOKENS };
                }
                match &self.content {
                    Some(c) => c.clone(),
                    None => String::new(),
                }
            },
        };
        self.phase = TurnPhase::Finished;
        let ghost done = progress(*agent);
        Turn::note_narrative(agent, narrative.as_str());
        proof {
            lemma_logged_more(
                log0,
                AGENT_TAG@,
                calls_notes(self.calls@, start, i as int),
                narrative_note(narrative@),
            );
            assert(progress(*agent) == done);
        }
        let suggested_actions = extract_suggested_actions(narrative.as_str());
        TurnAction::Respond { response: AgentResponse { narrative, suggested_actions } }
    }

    /// Takes the answer to the conversation: the text and the calls that the
    /// generation service returned. The number of the calls is noted, and
    /// the calls are executed in order.
    pub fn on_reply(
        &mut self,
        agent: &mut Agent,
        content: Option<String>,
        tool_calls: Option<Vec<ToolCall>>,
    ) -> (r: TurnAction)
        requires
            old(self).phase == TurnPhase::AwaitingReply,
        ensures
            Turn::advanced(
                Turn {
                    content,
                    calls: final(self).calls,
                    had_calls: tool_calls is Some,
                    next_call: 0,
                    ..*old(self)
                },
                progress(*old(agent)),
                r,
                *final(self),
                progress(*final(agent)),
            ),
            final(self).calls@ == (match tool_calls {
                Some(calls) => calls@,
                None => Seq::empty(),
            }),
            views(final(agent).debug_log@) == logged_all(
                logged_all(views(old(agent).debug_log@), AGENT_TAG@, reply_notes(tool_calls)),
                AGENT_TAG@,
                Turn::advance_notes(
                    final(self).calls@,
                    0,
                    r,
                    *final(self),
                    progress(*final(agent)),
                ),
            ),
            final(agent).overall_timeout_seconds == old(agent).overall_timeout_seconds,
    {
        let ghost log0 = views(agent.debug_log@);
        self.content = content;
        self.had_calls = tool_calls.is_some();
        self.calls = match tool_calls {
            Some(calls) => {
                let n = decimal_count(calls.len());
                let note = join3("Got ", n.as_str(), " tool call(s)");
                agent.log(note.as_str());
                proof {
                    lemma_logged_more(log0, AGENT_TAG@, Seq::empty(), note@);
                    assert(Seq::<Seq<char>>::empty().push(note@) =~= seq![note@]);
                }
                calls
            },
            None => Vec::new(),
        };
        self.next_call = 0;
        self.advance(agent)
    }

    /// Takes the answer to a request for a location, or what is told of the
    /// failure of the generation service. The step is completed, with the
    /// location read from the answer or with the fallback, which the log
    /// notes, and the turn goes on with the calls that are left.
    pub fn on_location(&mut self, agent: &mut Agent, answer: Result<&str, &str>) -> (r: TurnAction)
        requires
            old(self).phase == TurnPhase::AwaitingLocation,
            old(self).pending_direction is Some,
            old(self).next_call <= old(self).calls.len(),
        ensures
            Turn::advanced(
                Turn { pending_direction: None, ..*old(self) },
                moved(progress(*old(agent)), old(self).pending_direction->0@, answer_view(answer)),
                r,
                *final(self),
                progress(*final(agent)),
            ),
            views(final(agent).debug_log@) == logged_all(
                logged_all(
                    views(old(agent).debug_log@),
                    AGENT_TAG@,
                    Agent::move_notes(
                        old(agent).world@,
                        old(self).pending_direction->0@,
                        answer_view(answer),
                    ),
                ),
                AGENT_TAG@,
                Turn::advance_notes(
                    old(self).calls@,
                    old(self).next_call as int,
                    r,
                    *final(self),
                    progress(*final(agent)),
                ),
            ),
            final(agent).overall_timeout_seconds == old(agent).overall_timeout_seconds,
    {
        let mut pending: Option<String> = None;
        core::mem::swap(&mut self.pending_direction, &mut pending);
        match pending {
            Some(direction) => {
                let _ = agent.complete_move(direction.as_str(), answer);
            },
            None => {},
        }
        self.advance(agent)
    }

    /// Takes the answer to a request for a narration: `None` where the
    /// generation service failed or said nothing. The length of the
    /// narrative is noted, and the turn is over.
    pub fn on_narration(&mut self, agent: &mut Agent, content: Option<String>) -> (r:
        AgentResponse)
        requires
            old(self).phase == TurnPhase::AwaitingNarration,
        ensures
            final(self).phase == TurnPhase::Finished,
            r.narrative@ == (match content {
                Some(c) => c@,
                None => Seq::empty(),
            }),
            views(r.suggested_actions@) == suggested_actions(r.narrative@),
            final(self).messages == old(self).messages,
            final(self).calls == old(self).calls,
            views(final(agent).debug_log@) == logged_entry(
                views(old(agent).debug_log@),
                AGENT_TAG@ + narrative_note(r.narrative@),
            ),
            final(agent).world == old(agent).world,
            final(agent).turn_narrative == old(agent).turn_narrative,
            final(agent).overall_timeout_seconds == old(agent).overall_timeout_seconds,
    {
        self.phase = TurnPhase::Finished;
        let narrative = match content {
            Some(c) => c,
            None => String::new(),
        };
        Turn::note_narrative(agent, narrative.as_str());
        let suggested_actions = extract_suggested_actions(narrative.as_str());
        AgentResponse { narrative, suggested_actions }
    }
}

/// A copy of a call.
pub fn clone_call(call: &ToolCall) -> (r: ToolCall)
    ensures
        r == *call,
{
    ToolCall {
        id: call.id.clone(),
        call_type: call.call_type.clone(),
        function: crate::tools::ToolFunction {
            name: call.function.name.clone(),
            arguments: call.function.arguments.clone(),
        },
    }
}

/// A copy of a list of calls.
pub fn clone_calls(calls: &Vec<ToolCall>) -> (r: Vec<ToolCall>)
    ensures
        r@ == calls@,
{
    let mut out: Vec<ToolCall> = Vec::new();
    let mut i: usize = 0;
    while i < calls.len()
        invariant
            i <= calls.len(),
            out@ == calls@.take(i as int),
        decreases calls.len() - i,
    {
        out.push(clone_call(&calls[i]));
        proof {
            assert(out@ =~= calls@.take(i + 1));
        }
        i += 1;
    }
    proof {
        assert(calls@.take(i as int) =~= calls@);
    }
    out
}

} // verus!
