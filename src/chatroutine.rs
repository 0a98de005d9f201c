use vstd::prelude::*;
use crate::cliutils::{
    Command, after_command, apply_command, command_spec, normalized, parse_command, trim_of,
    trim_text,
};
use crate::gemini::{
    GeminiContentMessage, GeminiContentRequest, GeminiContentResponse, GenerationConfig, Turn,
    build_request, candidate_turns, turns, user_turn_of,
};

verus! {

/// A generation call that did not give a usable reply: the connection failed,
/// the endpoint answered with an error status, or the body could not be read.
pub struct TransportFailure;

/// What the loop does after a line of input.
pub enum TurnStart {
    /// End the session.
    Exit,
    /// A command was carried out; read the next line.
    Handled,
    /// Send this request, then hand its outcome to `finish_turn`.
    Send(GeminiContentRequest),
}

/// What the loop shows after a generation call.
pub enum TurnEnd {
    /// The model's reply, now the last turn of the transcript.
    Reply(String),
    /// The call succeeded with no candidate: nothing to show.
    Silent,
    /// The call failed: show an error and read the next line.
    Failed,
}

/// The user turn that a line of input becomes.
pub open spec fn input_turn(text: Seq<char>) -> Turn {
    user_turn_of(trim_of(text))
}

/// The transcript after a line of input: a command edits it, anything else is
/// appended as a user turn.
pub open spec fn after_input(h: Seq<Turn>, text: Seq<char>) -> Seq<Turn> {
    let c = command_spec(normalized(text));
    if c == Command::Chat {
        h.push(input_turn(text))
    } else {
        after_command(h, c)
    }
}

/// The outcome of a call as a value: the candidates' turns on success, `None`
/// on failure.
pub open spec fn outcome_turns(outcome: Result<GeminiContentResponse, TransportFailure>) -> Option<
    Seq<Turn>,
> {
    match outcome {
        Ok(response) => Some(candidate_turns(response)),
        Err(_) => None,
    }
}

/// The transcript after a call: the first candidate, if any, is appended; a
/// failure leaves it as it is.
pub open spec fn after_outcome(h: Seq<Turn>, outcome: Option<Seq<Turn>>) -> Seq<Turn> {
    match outcome {
        Some(candidates) => if candidates.len() > 0 {
            h.push(candidates[0])
        } else {
            h
        },
        None => h,
    }
}

/// The text shown for a reply: its first part, or nothing if it has none.
pub open spec fn shown_text(t: Turn) -> Seq<char> {
    if t.parts.len() > 0 {
        t.parts[0]
    } else {
        Seq::empty()
    }
}

/// Takes a line of input. A reserved word is carried out on the transcript;
/// any other text is appended, trimmed, as a user turn, and the request for
/// the whole transcript and the sampling parameters is returned to be sent.
pub fn start_turn(
    conversation_history: &mut Vec<GeminiContentMessage>,
    user_text: &str,
    config: &GenerationConfig,
) -> (r: TurnStart)
    ensures
        turns(final(conversation_history)@) == after_input(
            turns(old(conversation_history)@),
            user_text@,
        ),
        (command_spec(normalized(user_text@)) == Command::Exit) <==> r is Exit,
        (command_spec(normalized(user_text@)) == Command::Clear || command_spec(
            normalized(user_text@),
        ) == Command::Undo) <==> r is Handled,
        r is Send ==> turns(r->Send_0.contents@) == turns(final(conversation_history)@)
            && r->Send_0.generation_config == *config,
{
    let command = parse_command(user_text);
    match command {
        Command::Chat => {
            let ghost h = conversation_history@;
            let message = GeminiContentMessage::user(trim_text(user_text));
            conversation_history.push(message);
            assert(turns(conversation_history@) =~= turns(h).push(input_turn(user_text@)));
            TurnStart::Send(build_request(conversation_history, config))
        },
        _ => {
            apply_command(command, conversation_history);
            if command == Command::Exit {
                TurnStart::Exit
            } else {
                TurnStart::Handled
            }
        },
    }
}

/// Takes the outcome of a generation call. On success the first candidate, if
/// there is one, is appended to the transcript and its text returned to be
/// shown; a failure leaves the transcript as it is, with the user turn that
/// was sent still in it.
pub fn finish_turn(
    conversation_history: &mut Vec<GeminiContentMessage>,
    outcome: Result<GeminiContentResponse, TransportFailure>,
) -> (r: TurnEnd)
    ensures
        turns(final(conversation_history)@) == after_outcome(
            turns(old(conversation_history)@),
            outcome_turns(outcome),
        ),
        outcome is Err <==> r is Failed,
        r is Silent <==> (outcome is Ok && candidate_turns(outcome->Ok_0).len() == 0),
        r is Reply ==> r->Reply_0@ == shown_text(candidate_turns(outcome->Ok_0)[0]),
{
    match outcome {
        Err(_) => TurnEnd::Failed,
        Ok(response) => {
            let ghost cands = candidate_turns(response);
            let mut candidates = response.candidates;
            if candidates.len() == 0 {
                TurnEnd::Silent
            } else {
                let first = candidates.swap_remove(0);
                assert(first.content@ == cands[0]);
                let text = if first.content.parts.len() > 0 {
                    first.content.parts[0].text.clone()
                } else {
                    String::new()
                };
                let ghost h = conversation_history@;
                conversation_history.push(first.content);
                assert(turns(conversation_history@) =~= turns(h).push(cands[0]));
                TurnEnd::Reply(text)
            }
        },
    }
}

/// A successful call on a line that is not a reserved word adds exactly two
/// turns, the user's and then the model's, behind the transcript as it was.
pub proof fn round_trip_appends_user_then_model(h: Seq<Turn>, text: Seq<char>, candidates: Seq<Turn>)
    requires
        command_spec(normalized(text)) == Command::Chat,
        candidates.len() > 0,
    ensures
        ({
            let r = after_outcome(after_input(h, text), Some(candidates));
            &&& r.len() == h.len() + 2
            &&& r.subrange(0, h.len() as int) == h
            &&& r[h.len() as int] == input_turn(text)
            &&& r[h.len() as int].role == "user"@
            &&& r[h.len() + 1int] == candidates[0]
        }),
{
    let r = after_outcome(after_input(h, text), Some(candidates));
    assert(r.subrange(0, h.len() as int) =~= h);
}

/// A failed call on a line that is not a reserved word adds exactly one turn,
/// the user's, behind the transcript as it was.
pub proof fn failed_call_keeps_only_user_turn(h: Seq<Turn>, text: Seq<char>)
    requires
        command_spec(normalized(text)) == Command::Chat,
    ensures
        ({
            let r = after_outcome(after_input(h, text), None);
            &&& r.len() == h.len() + 1
            &&& r.subrange(0, h.len() as int) == h
            &&& r[h.len() as int] == input_turn(text)
            &&& r[h.len() as int].role == "user"@
        }),
{
    let r = after_outcome(after_input(h, text), None);
    assert(r.subrange(0, h.len() as int) =~= h);
}

} // verus!
