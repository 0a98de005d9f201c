use vstd::prelude::*;
use vstd::string::StringExecFns;
use crate::gemini::{GeminiContentMessage, Turn, turns};

verus! {

/// What `str::trim` returns for a text.
pub uninterp spec fn trim_of(s: Seq<char>) -> Seq<char>;

/// What `str::to_lowercase` returns for a text.
pub uninterp spec fn lower_of(s: Seq<char>) -> Seq<char>;

/// Relies on `str::trim`: the text without its leading and trailing white
/// space, which depends on the characters alone.
#[verifier::external_body]
pub(crate) fn trim_text(s: &str) -> (r: &str)
    ensures
        r@ == trim_of(s@),
{
    s.trim()
}

/// Relies on `str::to_lowercase`: the lower-case form of a text, which
/// depends on the characters alone.
#[verifier::external_body]
fn lowercase(s: &str) -> (r: String)
    ensures
        r@ == lower_of(s@),
{
    s.to_lowercase()
}

/// What a line of input asks for.
#[derive(Clone, Copy, Debug, PartialEq, Eq, Structural)]
pub enum Command {
    /// End the session.
    Exit,
    /// Empty the transcript.
    Clear,
    /// Take back the last exchange.
    Undo,
    /// Anything else: a new user turn.
    Chat,
}

/// The session goes on to send the input to the model.
pub const PROCEED: u8 = 0;

/// The session ends.
pub const EXIT: u8 = 1;

/// The input was a command, now carried out; no call is made.
pub const HANDLED: u8 = 2;

/// The form in which input is compared with the reserved words: trimmed, then
/// lower-cased.
pub open spec fn normalized(s: Seq<char>) -> Seq<char> {
    lower_of(trim_of(s))
}

/// The command that a normalized input names.
pub open spec fn command_spec(t: Seq<char>) -> Command {
    if t == "exit"@ {
        Command::Exit
    } else if t == "clear"@ {
        Command::Clear
    } else if t == "undo"@ {
        Command::Undo
    } else {
        Command::Chat
    }
}

/// The transcript after a command: `clear` empties it, `undo` drops the last
/// two turns when there are at least two, and nothing else changes it.
pub open spec fn after_command(h: Seq<Turn>, c: Command) -> Seq<Turn> {
    match c {
        Command::Clear => Seq::empty(),
        Command::Undo => if h.len() >= 2 {
            h.subrange(0, h.len() - 2)
        } else {
            h
        },
        _ => h,
    }
}

/// Undoing takes back exactly the last two turns: with at least two, what is
/// left followed by those two is the transcript before; with fewer, nothing
/// changes.
pub proof fn undo_drops_last_two(h: Seq<Turn>)
    ensures
        h.len() >= 2 ==> after_command(h, Command::Undo).len() == h.len() - 2
            && after_command(h, Command::Undo) + h.subrange(h.len() - 2, h.len() as int) == h,
        h.len() < 2 ==> after_command(h, Command::Undo) == h,
{
    if h.len() >= 2 {
        assert(after_command(h, Command::Undo) + h.subrange(h.len() - 2, h.len() as int) =~= h);
    }
}

/// Clearing leaves an empty transcript, whatever it held.
pub proof fn clear_empties(h: Seq<Turn>)
    ensures
        after_command(h, Command::Clear).len() == 0,
{
}

/// The code that the loop acts on after a command.
pub open spec fn code_of(c: Command) -> u8 {
    match c {
        Command::Exit => EXIT,
        Command::Chat => PROCEED,
        _ => HANDLED,
    }
}

/// The command named by an input that is already trimmed and lower-cased.
pub fn classify(normalized_text: &str) -> (r: Command)
    ensures
        r == command_spec(normalized_text@),
{
    proof {
        reveal_strlit("exit");
        reveal_strlit("clear");
        reveal_strlit("undo");
    }
    let t = String::from_str(normalized_text);
    if t == String::from_str("exit") {
        Command::Exit
    } else if t == String::from_str("clear") {
        Command::Clear
    } else if t == String::from_str("undo") {
        Command::Undo
    } else {
        Command::Chat
    }
}

/// The command named by a raw line of input: reserved words are recognized
/// whatever their case and surrounding white space.
pub fn parse_command(user_text: &str) -> (r: Command)
    ensures
        r == command_spec(normalized(user_text@)),
{
    let lowered = lowercase(trim_text(user_text));
    classify(lowered.as_str())
}

/// Carries out a command on the transcript and returns the code for the loop.
pub fn apply_command(command: Command, conversation_history: &mut Vec<GeminiContentMessage>) -> (r:
    u8)
    ensures
        turns(final(conversation_history)@) == after_command(
            turns(old(conversation_history)@),
            command,
        ),
        r == code_of(command),
{
    match command {
        Command::Exit => EXIT,
        Command::Clear => {
            conversation_history.clear();
            assert(turns(conversation_history@) =~= Seq::<Turn>::empty());
            HANDLED
        },
        Command::Undo => {
            if conversation_history.len() >= 2 {
                let ghost h = conversation_history@;
                conversation_history.pop();
                conversation_history.pop();
                assert(conversation_history@ =~= h.subrange(0, h.len() - 2));
                assert(turns(conversation_history@) =~= turns(h).subrange(0, h.len() - 2));
            }
            HANDLED
        },
        Command::Chat => PROCEED,
    }
}

/// Checks a raw line of input against the reserved words and carries out the
/// one it names: `EXIT` for `exit`; `HANDLED` for `clear` (the transcript
/// is emptied) and for `undo` (the last two turns are dropped when there are
/// at least two); `PROCEED`, with the transcript unchanged, for anything else.
pub fn special_commands(user_text: &str, conversation_history: &mut Vec<GeminiContentMessage>) -> (r:
    u8)
    ensures
        turns(final(conversation_history)@) == after_command(
            turns(old(conversation_history)@),
            command_spec(normalized(user_text@)),
        ),
        r == code_of(command_spec(normalized(user_text@))),
{
    apply_command(parse_command(user_text), conversation_history)
}

} // verus!
