use vstd::prelude::*;
use vstd::string::StringExecFns;

verus! {

/// One text part of a message.
pub struct GeminiContentPart {
    pub text: String,
}

/// One turn of the conversation: who spoke, and what was said.
pub struct GeminiContentMessage {
    pub role: String,
    pub parts: Vec<GeminiContentPart>,
}

/// The sampling parameters sent with every request.
///
/// The two fractional parameters are carried as the bit patterns of their
/// IEEE-754 double values: the library passes them on and never reads them.
#[derive(Clone, Copy, PartialEq, Eq, Structural)]
pub struct GenerationConfig {
    pub temperature_bits: u64,
    pub max_output_tokens: i32,
    pub top_p_bits: u64,
    pub top_k: i32,
}

/// The body of one generation call: the whole transcript and the sampling
/// parameters.
pub struct GeminiContentRequest {
    pub contents: Vec<GeminiContentMessage>,
    pub generation_config: GenerationConfig,
}

/// One alternative reply of the model.
pub struct GeminiContentCandidate {
    pub content: GeminiContentMessage,
}

/// The body of a successful generation call.
pub struct GeminiContentResponse {
    pub candidates: Vec<GeminiContentCandidate>,
}

/// A turn as a value: the speaker's role and the text of each part.
pub struct Turn {
    pub role: Seq<char>,
    pub parts: Seq<Seq<char>>,
}

impl View for GeminiContentPart {
    type V = Seq<char>;

    open spec fn view(&self) -> Seq<char> {
        self.text@
    }
}

impl View for GeminiContentMessage {
    type V = Turn;

    open spec fn view(&self) -> Turn {
        Turn { role: self.role@, parts: texts(self.parts@) }
    }
}

/// The texts of a sequence of parts.
pub open spec fn texts(parts: Seq<GeminiContentPart>) -> Seq<Seq<char>> {
    parts.map_values(|p: GeminiContentPart| p@)
}

/// The turns of a sequence of messages.
pub open spec fn turns(messages: Seq<GeminiContentMessage>) -> Seq<Turn> {
    messages.map_values(|m: GeminiContentMessage| m@)
}

/// The contents of the candidates of a response, in order.
pub open spec fn candidate_turns(response: GeminiContentResponse) -> Seq<Turn> {
    response.candidates@.map_values(|c: GeminiContentCandidate| c.content@)
}

pub open spec fn user_role() -> Seq<char> {
    "user"@
}

/// The turn that a user's text becomes.
pub open spec fn user_turn_of(text: Seq<char>) -> Turn {
    Turn { role: user_role(), parts: seq![text] }
}

/// The address of the generation endpoint up to the key.
pub open spec fn endpoint_prefix() -> Seq<char> {
    "https://generativelanguage.googleapis.com/v1beta/models/gemini-pro:generateContent?key="@
}

impl GeminiContentPart {
    /// A part holding a copy of the same text.
    pub fn duplicate(&self) -> (r: GeminiContentPart)
        ensures
            r@ == self@,
    {
        GeminiContentPart { text: self.text.clone() }
    }
}

impl GeminiContentMessage {
    /// A message with a copy of the same role and parts.
    pub fn duplicate(&self) -> (r: GeminiContentMessage)
        ensures
            r@ == self@,
    {
        let mut parts: Vec<GeminiContentPart> = Vec::new();
        let mut i: usize = 0;
        while i < self.parts.len()
            invariant
                i <= self.parts@.len(),
                texts(parts@) == texts(self.parts@).subrange(0, i as int),
            decreases self.parts@.len() - i,
        {
            let ghost before = parts@;
            let part = self.parts[i].duplicate();
            parts.push(part);
            assert(texts(before).len() == i);
            assert forall|j: int| 0 <= j < i implies texts(parts@)[j] == texts(before)[j] by {
                assert(parts@[j] == before[j]);
            }
            i = i + 1;
            assert(texts(parts@) =~= texts(self.parts@).subrange(0, i as int));
        }
        assert(texts(self.parts@).subrange(0, i as int) =~= texts(self.parts@));
        GeminiContentMessage { role: self.role.clone(), parts }
    }

    /// A user turn with the given text as its single part.
    pub fn user(text: &str) -> (r: GeminiContentMessage)
        ensures
            r@ == user_turn_of(text@),
    {
        let mut parts: Vec<GeminiContentPart> = Vec::new();
        parts.push(GeminiContentPart { text: String::from_str(text) });
        let r = GeminiContentMessage { role: String::from_str("user"), parts };
        proof {
            reveal_strlit("user");
            assert(texts(r.parts@) =~= seq![text@]);
        }
        r
    }
}

/// A copy of a whole transcript, turn for turn.
pub fn copy_transcript(history: &Vec<GeminiContentMessage>) -> (r: Vec<GeminiContentMessage>)
    ensures
        turns(r@) == turns(history@),
{
    let mut r: Vec<GeminiContentMessage> = Vec::new();
    let mut i: usize = 0;
    while i < history.len()
        invariant
            i <= history@.len(),
            turns(r@) == turns(history@).subrange(0, i as int),
        decreases history@.len() - i,
    {
        let ghost before = r@;
        let m = history[i].duplicate();
        r.push(m);
        assert(turns(before).len() == i);
        assert forall|j: int| 0 <= j < i implies turns(r@)[j] == turns(before)[j] by {
            assert(r@[j] == before[j]);
        }
        i = i + 1;
        assert(turns(r@) =~= turns(history@).subrange(0, i as int));
    }
    assert(turns(history@).subrange(0, i as int) =~= turns(history@));
    r
}

/// The request for a generation call: every turn of the transcript, in order
/// and unchanged, with the sampling parameters.
pub fn build_request(history: &Vec<GeminiContentMessage>, config: &GenerationConfig) -> (r:
    GeminiContentRequest)
    ensures
        turns(r.contents@) == turns(history@),
        r.generation_config == *config,
{
    GeminiContentRequest { contents: copy_transcript(history), generation_config: *config }
}

/// The address of the generation endpoint for an API key.
pub fn endpoint_uri(api_key: &str) -> (r: String)
    ensures
        r@ == endpoint_prefix() + api_key@,
{
    let mut r = String::from_str(
        "https://generativelanguage.googleapis.com/v1beta/models/gemini-pro:generateContent?key=",
    );
    r.append(api_key);
    proof {
        reveal_strlit(
            "https://generativelanguage.googleapis.com/v1beta/models/gemini-pro:generateContent?key=",
        );
    }
    r
}

} // verus!
