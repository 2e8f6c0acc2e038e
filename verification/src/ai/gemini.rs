//! The assistant's answers, as plain values, and what is read from them.

use crate::ai::db::ChatMessage;
use base64::Engine;
use crate::text::{
    append_str, chars_of, string_of, trim, trim_leading, trim_trailing, trimmed, without_leading,
    without_trailing,
};
use vstd::prelude::*;

verus! {

/// An item that the assistant recognised in an image, with its count.
#[derive(Clone, Debug)]
pub struct IdentifiedItem {
    pub name: String,
    pub qty: u32,
}

/// What went wrong with a request to the assistant.
#[derive(Debug)]
pub enum GeminiError {
    /// The request did not get through; the text is the transport's message.
    Http(String),
    /// The assistant answered with an error, or with nothing usable.
    Api(String),
}

impl GeminiError {
    /// The words for this error.
    pub open spec fn text(self) -> Seq<char> {
        match self {
            GeminiError::Http(cause) => "HTTP error: "@ + cause@,
            GeminiError::Api(cause) => "API error: "@ + cause@,
        }
    }

    /// Renders the error in words.
    pub fn to_string(&self) -> (text: String)
        ensures
            text@ == self.text(),
    {
        let mut out: Vec<char> = Vec::new();
        match self {
            GeminiError::Http(cause) => {
                append_str(&mut out, "HTTP error: ");
                append_str(&mut out, cause.as_str());
            },
            GeminiError::Api(cause) => {
                append_str(&mut out, "API error: ");
                append_str(&mut out, cause.as_str());
            },
        }
        string_of(&out)
    }
}

/// An answer of the assistant.
pub struct Response {
    pub candidates: Option<Vec<Candidate>>,
    pub error: Option<ApiError>,
}

/// One candidate answer.
pub struct Candidate {
    pub content: Option<CandidateContent>,
}

/// The content of a candidate answer.
pub struct CandidateContent {
    pub parts: Option<Vec<CandidatePart>>,
}

/// One part of a candidate answer.
pub struct CandidatePart {
    pub text: Option<String>,
}

/// The error that the assistant reports.
pub struct ApiError {
    pub message: String,
}

/// The text of the first part of the first candidate of `response`, if all
/// of that is there.
pub open spec fn first_text(response: Response) -> Option<String> {
    match response.candidates {
        Some(candidates) => if candidates@.len() > 0 {
            match candidates@[0].content {
                Some(content) => match content.parts {
                    Some(parts) => if parts@.len() > 0 {
                        parts@[0].text
                    } else {
                        None
                    },
                    None => None,
                },
                None => None,
            }
        } else {
            None
        },
        None => None,
    }
}

/// Reads the text out of an answer. An answer that reports an error gives
/// that error; any other gives the text of the first part of its first
/// candidate, or `None` where that is missing.
pub fn extract_text(response: Response) -> (text: Result<Option<String>, GeminiError>)
    ensures
        match response.error {
            Some(error) => text == Err::<Option<String>, GeminiError>(
                GeminiError::Api(error.message),
            ),
            None => text == Ok::<Option<String>, GeminiError>(first_text(response)),
        },
{
    if let Some(error) = response.error {
        return Err(GeminiError::Api(error.message));
    }
    let mut candidates = match response.candidates {
        Some(candidates) => candidates,
        None => {
            return Ok(None);
        },
    };
    if candidates.len() == 0 {
        return Ok(None);
    }
    let first = candidates.swap_remove(0);
    let mut parts = match first.content {
        Some(content) => match content.parts {
            Some(parts) => parts,
            None => {
                return Ok(None);
            },
        },
        None => {
            return Ok(None);
        },
    };
    if parts.len() == 0 {
        return Ok(None);
    }
    let part = parts.swap_remove(0);
    Ok(part.text)
}

/// Data that goes along with a request, such as an image: its type and its
/// content in base 64.
pub struct InlineData {
    pub mime_type: String,
    pub data: String,
}

/// One part of what is said in a turn.
pub enum Part {
    Text { text: String },
    InlineData { inline_data: InlineData },
}

/// One turn of the conversation as the assistant takes it: who speaks, and
/// what is said.
pub struct Content {
    pub role: Option<String>,
    pub parts: Vec<Part>,
}

/// A turn of the conversation as a mathematical value: whether the bot
/// speaks, and the lines that are said.
pub struct Turn {
    pub from_bot: bool,
    pub lines: Seq<Seq<char>>,
}

/// The line that `message` contributes: the bot's words as they are, a
/// user's words behind the user's name in square brackets.
pub open spec fn line_of(message: ChatMessage) -> Seq<char> {
    if message.is_bot {
        message.content@
    } else {
        "["@ + message.author_name@ + "] "@ + message.content@
    }
}

/// The turns that `messages` make: neighbours by the same side are one
/// turn.
pub open spec fn turns(messages: Seq<ChatMessage>) -> Seq<Turn>
    decreases messages.len(),
{
    if messages.len() == 0 {
        Seq::empty()
    } else {
        let before = turns(messages.drop_last());
        let message = messages.last();
        if before.len() > 0 && before.last().from_bot == message.is_bot {
            before.drop_last().push(
                Turn {
                    from_bot: message.is_bot,
                    lines: before.last().lines.push(line_of(message)),
                },
            )
        } else {
            before.push(Turn { from_bot: message.is_bot, lines: seq![line_of(message)] })
        }
    }
}

/// The turns from the first turn of a user on.
pub open spec fn from_first_user(all: Seq<Turn>) -> Seq<Turn> {
    if all.len() > 0 && all[0].from_bot {
        all.drop_first()
    } else {
        all
    }
}

/// The name of a side of the conversation.
pub open spec fn role_name(from_bot: bool) -> Seq<char> {
    if from_bot {
        "model"@
    } else {
        "user"@
    }
}

/// Whether `content` says exactly what `turn` holds: the side by its name,
/// and each line as a part of text.
pub open spec fn renders(content: Content, turn: Turn) -> bool {
    &&& content.role is Some
    &&& content.role->0@ == role_name(turn.from_bot)
    &&& content.parts@.len() == turn.lines.len()
    &&& forall|k: int|
        0 <= k < turn.lines.len() ==> (#[trigger] content.parts@[k]) is Text
            && content.parts@[k]->text@ == turn.lines[k]
}

/// Whether `contents` say exactly what `all` holds, turn by turn.
pub open spec fn render_all(contents: Seq<Content>, all: Seq<Turn>) -> bool {
    &&& contents.len() == all.len()
    &&& forall|i: int| 0 <= i < all.len() ==> renders(#[trigger] contents[i], all[i])
}

/// Turns never follow a turn of the same side.
pub proof fn lemma_turns_alternate(messages: Seq<ChatMessage>)
    ensures
        forall|i: int|
            0 <= i < turns(messages).len() - 1 ==> (#[trigger] turns(messages)[i]).from_bot
                != turns(messages)[i + 1].from_bot,
        messages.len() > 0 ==> turns(messages).len() > 0 && turns(messages).last().from_bot
            == messages.last().is_bot,
        forall|i: int|
            0 <= i < turns(messages).len() ==> (#[trigger] turns(messages)[i]).lines.len() > 0,
    decreases messages.len(),
{
    if messages.len() > 0 {
        lemma_turns_alternate(messages.drop_last());
        let before = turns(messages.drop_last());
        let all = turns(messages);
        let message = messages.last();
        if before.len() > 0 && before.last().from_bot == message.is_bot {
            assert(all.len() == before.len());
            assert forall|i: int| 0 <= i < all.len() implies (#[trigger] all[i]).lines.len()
                > 0 by {
                if i < all.len() - 1 {
                    assert(all[i] == before[i]);
                }
            }
            assert forall|i: int| 0 <= i < all.len() - 1 implies (#[trigger] all[i]).from_bot
                != all[i + 1].from_bot by {
                assert(all[i] == before[i]);
                assert(all[i + 1].from_bot == before[i + 1].from_bot);
            }
        } else {
            assert(all.len() == before.len() + 1);
            assert forall|i: int| 0 <= i < all.len() implies (#[trigger] all[i]).lines.len()
                > 0 by {
                if i < before.len() {
                    assert(all[i] == before[i]);
                }
            }
            assert forall|i: int| 0 <= i < all.len() - 1 implies (#[trigger] all[i]).from_bot
                != all[i + 1].from_bot by {
                assert(all[i] == before[i]);
                if i + 1 < before.len() {
                    assert(all[i + 1] == before[i + 1]);
                }
            }
        }
    }
}

/// The line that `message` contributes.
pub fn message_line(message: &ChatMessage) -> (line: String)
    ensures
        line@ == line_of(*message),
{
    if message.is_bot {
        message.content.clone()
    } else {
        let mut out: Vec<char> = Vec::new();
        append_str(&mut out, "[");
        append_str(&mut out, message.author_name.as_str());
        append_str(&mut out, "] ");
        append_str(&mut out, message.content.as_str());
        assert(out@ =~= line_of(*message));
        string_of(&out)
    }
}

/// Makes of the messages of a chat the turns that the assistant takes:
/// neighbours by the same side are one turn, and the turns begin with the
/// first one of a user. No messages, and messages of the bot alone, are an
/// error.
pub fn build_contents(messages: &Vec<ChatMessage>) -> (built: Result<Vec<Content>, GeminiError>)
    ensures
        match built {
            Ok(contents) => from_first_user(turns(messages@)).len() > 0 && render_all(
                contents@,
                from_first_user(turns(messages@)),
            ),
            Err(error) => from_first_user(turns(messages@)).len() == 0 && error is Api
                && error->Api_0@ == if messages@.len() == 0 {
                "메시지 없음"@
            } else {
                "user 메시지 없음"@
            },
        },
{
    if messages.len() == 0 {
        return Err(GeminiError::Api("메시지 없음".to_owned()));
    }
    let mut contents: Vec<Content> = Vec::new();
    let mut last_from_bot: bool = false;
    let mut first_from_bot: bool = false;
    let mut i: usize = 0;
    assert(messages@.subrange(0, 0) =~= Seq::<ChatMessage>::empty());
    while i < messages.len()
        invariant
            i <= messages.len(),
            render_all(contents@, turns(messages@.subrange(0, i as int))),
            i > 0 ==> contents@.len() > 0 && last_from_bot == turns(
                messages@.subrange(0, i as int),
            ).last().from_bot && first_from_bot == turns(messages@.subrange(0, i as int))[0].from_bot,
        decreases messages.len() - i,
    {
        let ghost seen = messages@.subrange(0, i as int + 1);
        let ghost before = turns(messages@.subrange(0, i as int));
        assert(seen.drop_last() =~= messages@.subrange(0, i as int));
        assert(seen.last() == messages@[i as int]);
        let message = &messages[i];
        let line = message_line(message);
        if i > 0 && last_from_bot == message.is_bot {
            let ghost old_contents = contents@;
            if let Some(content) = contents.pop() {
                let mut content = content;
                let ghost old_parts = content.parts@;
                content.parts.push(Part::Text { text: line });
                assert(renders(content, turns(seen).last())) by {
                    assert(content.parts@ =~= old_parts.push(Part::Text { text: line }));
                    assert(renders(old_contents[old_contents.len() - 1], before.last()));
                }
                contents.push(content);
                assert(render_all(contents@, turns(seen))) by {
                    assert forall|k: int| 0 <= k < turns(seen).len() implies renders(
                        #[trigger] contents@[k],
                        turns(seen)[k],
                    ) by {
                        if k < turns(seen).len() - 1 {
                            assert(contents@[k] == old_contents[k]);
                            assert(turns(seen)[k] == before[k]);
                        }
                    }
                }
            }
        } else {
            let role = if message.is_bot {
                "model".to_owned()
            } else {
                "user".to_owned()
            };
            let mut parts: Vec<Part> = Vec::new();
            parts.push(Part::Text { text: line });
            let content = Content { role: Some(role), parts };
            let ghost old_contents = contents@;
            if i == 0 {
                first_from_bot = message.is_bot;
            }
            contents.push(content);
            assert(render_all(contents@, turns(seen))) by {
                assert(turns(seen) =~= before.push(
                    Turn { from_bot: message.is_bot, lines: seq![line_of(*message)] },
                ));
                assert forall|k: int| 0 <= k < turns(seen).len() implies renders(
                    #[trigger] contents@[k],
                    turns(seen)[k],
                ) by {
                    if k < before.len() {
                        assert(contents@[k] == old_contents[k]);
                    }
                }
            }
        }
        last_from_bot = message.is_bot;
        i = i + 1;
    }
    assert(messages@.subrange(0, messages.len() as int) =~= messages@);
    let ghost all = turns(messages@);
    if first_from_bot {
        let ghost old_contents = contents@;
        contents.remove(0);
        assert(render_all(contents@, all.drop_first())) by {
            assert forall|k: int| 0 <= k < all.drop_first().len() implies renders(
                #[trigger] contents@[k],
                all.drop_first()[k],
            ) by {
                assert(contents@[k] == old_contents[k + 1]);
            }
        }
    }
    if contents.len() == 0 {
        return Err(GeminiError::Api("user 메시지 없음".to_owned()));
    }
    Ok(contents)
}

/// The text between the marks of a block of code: `text` without the
/// whitespace around it, without the opening marks, with or without the
/// word `json`, without the closing marks, and again without whitespace.
pub open spec fn unfenced(text: Seq<char>) -> Seq<char> {
    trimmed(
        without_trailing(
            without_leading(without_leading(trimmed(text), "```json"@), "```"@),
            "```"@,
        ),
    )
}

/// Takes an answer out of the block of code in which the assistant may
/// have wrapped it.
pub fn strip_code_fence(text: &str) -> (inner: String)
    ensures
        inner@ == unfenced(text@),
{
    let chars = trim(&chars_of(text));
    let open_json = chars_of("```json");
    let mark = chars_of("```");
    let chars = trim_leading(&chars, &open_json);
    let chars = trim_leading(&chars, &mark);
    let chars = trim_trailing(&chars, &mark);
    let chars = trim(&chars);
    string_of(&chars)
}

/// What `Engine::encode` of the crate base64 makes of bytes on the engine
/// `general_purpose::STANDARD`: their base 64 form with the standard
/// alphabet and padding.
pub uninterp spec fn base64_standard(bytes: Seq<u8>) -> Seq<char>;

/// Calls `Engine::encode` of the crate base64 on the engine
/// `general_purpose::STANDARD`. The result depends on the bytes alone. The
/// outside function gives up where the length of the result does not fit a
/// `usize`, which bytes of no more than half of that never reach.
#[verifier::external_body]
fn encode_base64(bytes: &[u8]) -> (text: String)
    requires
        bytes@.len() <= usize::MAX / 2,
    ensures
        text@ == base64_standard(bytes@),
{
    base64::engine::general_purpose::STANDARD.encode(bytes)
}

/// Whether `part` carries exactly these bytes, of this type.
pub open spec fn is_image_part(part: Part, bytes: Seq<u8>, mime_type: Seq<char>) -> bool {
    part is InlineData && part->inline_data.mime_type@ == mime_type && part->inline_data.data@
        == base64_standard(bytes)
}

/// The part of a request that carries an image.
pub fn image_part(image_bytes: &[u8], mime_type: &str) -> (part: Part)
    requires
        image_bytes@.len() <= usize::MAX / 2,
    ensures
        is_image_part(part, image_bytes@, mime_type@),
{
    Part::InlineData {
        inline_data: InlineData {
            mime_type: mime_type.to_owned(),
            data: encode_base64(image_bytes),
        },
    }
}

/// The part of a request that carries an image, for images that can be
/// sent at all: `None` for more bytes than half of what a `usize` counts.
pub fn try_image_part(image_bytes: &[u8], mime_type: &str) -> (part: Option<Part>)
    ensures
        match part {
            Some(made) => image_bytes@.len() <= usize::MAX / 2 && is_image_part(
                made,
                image_bytes@,
                mime_type@,
            ),
            None => image_bytes@.len() > usize::MAX / 2,
        },
{
    if image_bytes.len() <= usize::MAX / 2 {
        Some(image_part(image_bytes, mime_type))
    } else {
        None
    }
}

/// The parts of the user's turn of a request about an image: the image,
/// and what the user wrote with it, if anything.
pub fn image_parts(image_bytes: &[u8], mime_type: &str, user_text: Option<&str>) -> (parts: Vec<
    Part,
>)
    requires
        image_bytes@.len() <= usize::MAX / 2,
    ensures
        parts@.len() == if user_text is Some {
            2nat
        } else {
            1nat
        },
        is_image_part(parts@[0], image_bytes@, mime_type@),
        user_text is Some ==> parts@[1] is Text && parts@[1]->text@ == user_text->0@,
{
    let mut parts: Vec<Part> = Vec::new();
    parts.push(image_part(image_bytes, mime_type));
    if let Some(text) = user_text {
        parts.push(Part::Text { text: text.to_owned() });
    }
    parts
}

/// The instruction that goes with a conversation: the standing one, with
/// what is known from the game's data behind it.
pub fn system_text(standing: &str, tarkov_context: Option<&str>) -> (text: String)
    ensures
        text@ == match tarkov_context {
            Some(context) => standing@ + context@,
            None => standing@,
        },
{
    match tarkov_context {
        Some(context) => {
            let mut out: Vec<char> = Vec::new();
            append_str(&mut out, standing);
            append_str(&mut out, context);
            string_of(&out)
        },
        None => standing.to_owned(),
    }
}

/// What an answer without a text becomes: the error of an empty answer.
pub fn require_text(text: Option<String>) -> (answer: Result<String, GeminiError>)
    ensures
        match text {
            Some(found) => answer == Ok::<String, GeminiError>(found),
            None => answer is Err && answer->Err_0 is Api && answer->Err_0->Api_0@ == "빈 응답"@,
        },
{
    match text {
        Some(found) => Ok(found),
        None => Err(GeminiError::Api("빈 응답".to_owned())),
    }
}

/// The first turn of a conversation is a user's.
pub proof fn turns_begin_with_user(messages: Seq<ChatMessage>)
    ensures
        from_first_user(turns(messages)).len() > 0 ==> !from_first_user(turns(messages))[0].from_bot,
{
    lemma_turns_alternate(messages);
    let all = turns(messages);
    if all.len() > 0 && all[0].from_bot && all.len() > 1 {
        assert(all[0].from_bot != all[1].from_bot);
    }
}

} // verus!
