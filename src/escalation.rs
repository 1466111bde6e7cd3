use vstd::prelude::*;
use vstd::string::StringExecFns;
use crate::chat::{reply_text, PipelineError};

verus! {

/// The secondary provider's inference endpoint.
pub open spec fn secondary_endpoint() -> Seq<char> {
    "https://api-inference.huggingface.co/models/microsoft/DialoGPT-large"@
}

pub open spec fn answer_head() -> Seq<char> {
    "## BEAST MODE EXTRACTION COMPLETE! 🚀\n\n**Extracted Content:**\n"@
}

pub open spec fn unconfigured_note() -> Seq<char> {
    "\n\n**Note:** Hugging Face token not configured. The extracted content above contains all the information from your images. Set a Hugging Face token in the app to enable advanced AI processing."@
}

pub open spec fn unavailable_note() -> Seq<char> {
    "\n\n**Note:** Advanced AI processing is temporarily unavailable (Service Unavailable). The extracted content above contains all the information from your images. You can use this content directly or try again later."@
}

pub open spec fn bad_request_note() -> Seq<char> {
    "\n\n**Note:** Advanced AI processing request format error (Bad Request). The extracted content above contains all the information from your images. You can use this content directly."@
}

pub open spec fn network_note_head() -> Seq<char> {
    "\n\n**Note:** Network error occurred while connecting to advanced AI processing: "@
}

pub open spec fn network_note_tail() -> Seq<char> {
    ". The extracted content above contains all the information from your images. You can use this content directly or check your internet connection and try again."@
}

pub open spec fn prompt_head() -> Seq<char> {
    "Based on the extracted content below, provide comprehensive answers:\n\n"@
}

pub open spec fn prompt_tail() -> Seq<char> {
    "\n\nFor MCQ questions: Identify all possibilities for single correct and multiple correct answers.\nFor coding questions: Provide complete code solutions in the requested language with proper formatting."@
}

/// The extraction text with a notice that no secondary processing took place.
pub open spec fn unconfigured_answer(x: Seq<char>) -> Seq<char> {
    answer_head() + x + unconfigured_note()
}

/// The extraction text with a notice that the secondary provider is unavailable.
pub open spec fn unavailable_answer(x: Seq<char>) -> Seq<char> {
    answer_head() + x + unavailable_note()
}

/// The extraction text with a notice that the secondary provider refused the request.
pub open spec fn bad_request_answer(x: Seq<char>) -> Seq<char> {
    answer_head() + x + bad_request_note()
}

/// The extraction text with a notice that the secondary provider was not reached.
pub open spec fn network_answer(x: Seq<char>, err: Seq<char>) -> Seq<char> {
    answer_head() + x + network_note_head() + err + network_note_tail()
}

/// The prompt sent to the secondary provider around the extracted text.
pub open spec fn escalation_prompt(x: Seq<char>) -> Seq<char> {
    prompt_head() + x + prompt_tail()
}

/// The request for the secondary provider. Sampling parameters are in hundredths.
#[derive(Clone, Debug)]
pub struct SecondaryRequest {
    pub url: String,
    pub authorization: String,
    pub inputs: String,
    pub max_new_tokens: u32,
    pub temperature_percent: u32,
    pub top_p_percent: u32,
    pub return_full_text: bool,
    pub do_sample: bool,
    pub timeout_secs: u64,
}

/// What follows a successful extraction.
#[derive(Clone, Debug)]
pub enum EscalationStep {
    /// No secondary credential: this is the final answer.
    Done(String),
    /// Send `request`, then hand its outcome and `extracted` to `escalation_answer`.
    Send { extracted: String, request: SecondaryRequest },
}

/// The body of a secondary reply, as far as it is read: for an array, each
/// element's `generated_text` when that is a string; for any other JSON value,
/// its own `generated_text` when that is a string; or the parser's message.
#[derive(Clone, Debug)]
pub enum ReplyBody {
    Results(Vec<Option<String>>),
    Single(Option<String>),
    Malformed(String),
}

/// How the secondary call ended: no response at all (the transport's message),
/// or a status with the body as text and as read JSON.
#[derive(Clone, Debug)]
pub enum SecondaryOutcome {
    Unreachable(String),
    Responded { status: u16, text: String, body: ReplyBody },
}

pub open spec fn is_success(status: u16) -> bool {
    200 <= status <= 299
}

/// The answer taken from a successful reply's body.
pub open spec fn body_answer(body: ReplyBody) -> Seq<char> {
    match body {
        ReplyBody::Results(items) => if items@.len() == 0 {
            "Empty response from AI model"@
        } else {
            match items@[0] {
                Some(t) => t@,
                None => "No generated text in response"@,
            }
        },
        ReplyBody::Single(Some(t)) => t@,
        ReplyBody::Single(None) => "Unexpected response format from AI model"@,
        ReplyBody::Malformed(e) => "Error parsing AI model response: "@ + e@,
    }
}

fn joined(a: &str, b: &str, c: &str) -> (r: String)
    ensures
        r@ == a@ + b@ + c@,
{
    let mut r = String::from_str(a);
    r.append(b);
    r.append(c);
    r
}

/// The extraction text with the notice that no secondary credential is set.
pub fn unconfigured_notice(extracted: &str) -> (r: String)
    ensures
        r@ == unconfigured_answer(extracted@),
{
    joined(
        "## BEAST MODE EXTRACTION COMPLETE! 🚀\n\n**Extracted Content:**\n",
        extracted,
        "\n\n**Note:** Hugging Face token not configured. The extracted content above contains all the information from your images. Set a Hugging Face token in the app to enable advanced AI processing.",
    )
}

/// The secondary request for an extracted text under the given credential.
pub fn secondary_request(extracted: &str, token: &str) -> (r: SecondaryRequest)
    ensures
        r.url@ == secondary_endpoint(),
        r.authorization@ == "Bearer "@ + token@,
        r.inputs@ == escalation_prompt(extracted@),
        r.max_new_tokens == 2048,
        r.temperature_percent == 70,
        r.top_p_percent == 90,
        !r.return_full_text,
        r.do_sample,
        r.timeout_secs == 120,
{
    let mut authorization = String::from_str("Bearer ");
    authorization.append(token);
    SecondaryRequest {
        url: String::from_str("https://api-inference.huggingface.co/models/microsoft/DialoGPT-large"),
        authorization,
        inputs: joined(
            "Based on the extracted content below, provide comprehensive answers:\n\n",
            extracted,
            "\n\nFor MCQ questions: Identify all possibilities for single correct and multiple correct answers.\nFor coding questions: Provide complete code solutions in the requested language with proper formatting.",
        ),
        max_new_tokens: 2048,
        temperature_percent: 70,
        top_p_percent: 90,
        return_full_text: false,
        do_sample: true,
        timeout_secs: 120,
    }
}

/// The step after the extraction stage replied. A failed extraction ends the
/// pipeline with its error and nothing goes to the secondary provider; a reply
/// without text counts as "[No extraction]". Without a secondary credential the
/// extraction text is the answer, with a notice; with one, the secondary request
/// is to be sent.
pub fn after_extraction(reply: Result<Option<String>, String>, secondary_key: &Option<String>) -> (r:
    Result<EscalationStep, PipelineError>)
    ensures
        match reply {
            Err(e) => r == Err::<EscalationStep, PipelineError>(PipelineError::Inference(e)),
            Ok(content) => {
                let x = match content {
                    Some(t) => t@,
                    None => "[No extraction]"@,
                };
                r is Ok && match r->Ok_0 {
                    EscalationStep::Done(a) => secondary_key is None && a@ == unconfigured_answer(x),
                    EscalationStep::Send { extracted, request } => secondary_key is Some
                        && extracted@ == x && request.url@ == secondary_endpoint()
                        && request.authorization@ == "Bearer "@ + secondary_key->0@
                        && request.inputs@ == escalation_prompt(x) && request.max_new_tokens
                        == 2048 && request.temperature_percent == 70 && request.top_p_percent == 90
                        && !request.return_full_text && request.do_sample && request.timeout_secs
                        == 120,
                }
            },
        },
{
    let extracted = match reply_text(reply, "[No extraction]") {
        Ok(t) => t,
        Err(e) => return Err(e),
    };
    match secondary_key {
        None => Ok(EscalationStep::Done(unconfigured_notice(extracted.as_str()))),
        Some(token) => {
            let request = secondary_request(extracted.as_str(), token.as_str());
            Ok(EscalationStep::Send { extracted, request })
        },
    }
}

/// The pipeline's answer once the secondary call has ended. A success gives the
/// text read from its body; 503, 400 and an unreachable provider give the
/// extraction text with a notice; any other status is an error with the status
/// and the body's text.
pub fn escalation_answer(extracted: &str, outcome: SecondaryOutcome) -> (r: Result<String, PipelineError>)
    ensures
        match outcome {
            SecondaryOutcome::Unreachable(e) => r is Ok && r->Ok_0@ == network_answer(extracted@, e@),
            SecondaryOutcome::Responded { status, text, body } => if is_success(status) {
                r is Ok && r->Ok_0@ == body_answer(body)
            } else if status == 503 {
                r is Ok && r->Ok_0@ == unavailable_answer(extracted@)
            } else if status == 400 {
                r is Ok && r->Ok_0@ == bad_request_answer(extracted@)
            } else {
                r == Err::<String, PipelineError>(PipelineError::HttpStatus { status, body: text })
            },
        },
{
    match outcome {
        SecondaryOutcome::Unreachable(e) => {
            let mut r = joined(
                "## BEAST MODE EXTRACTION COMPLETE! 🚀\n\n**Extracted Content:**\n",
                extracted,
                "\n\n**Note:** Network error occurred while connecting to advanced AI processing: ",
            );
            r.append(e.as_str());
            r.append(
                ". The extracted content above contains all the information from your images. You can use this content directly or check your internet connection and try again.",
            );
            Ok(r)
        },
        SecondaryOutcome::Responded { status, text, body } => {
            if 200 <= status && status <= 299 {
                Ok(answer_from_body(body))
            } else if status == 503 {
                Ok(
                    joined(
                        "## BEAST MODE EXTRACTION COMPLETE! 🚀\n\n**Extracted Content:**\n",
                        extracted,
                        "\n\n**Note:** Advanced AI processing is temporarily unavailable (Service Unavailable). The extracted content above contains all the information from your images. You can use this content directly or try again later.",
                    ),
                )
            } else if status == 400 {
                Ok(
                    joined(
                        "## BEAST MODE EXTRACTION COMPLETE! 🚀\n\n**Extracted Content:**\n",
                        extracted,
                        "\n\n**Note:** Advanced AI processing request format error (Bad Request). The extracted content above contains all the information from your images. You can use this content directly.",
                    ),
                )
            } else {
                Err(PipelineError::HttpStatus { status, body: text })
            }
        },
    }
}

/// The answer read from a successful reply's body.
pub fn answer_from_body(body: ReplyBody) -> (r: String)
    ensures
        r@ == body_answer(body),
{
    match body {
        ReplyBody::Results(items) => {
            if items.len() == 0 {
                String::from_str("Empty response from AI model")
            } else {
                match &items[0] {
                    Some(t) => t.clone(),
                    None => String::from_str("No generated text in response"),
                }
            }
        },
        ReplyBody::Single(Some(t)) => t,
        ReplyBody::Single(None) => String::from_str("Unexpected response format from AI model"),
        ReplyBody::Malformed(e) => {
            let mut r = String::from_str("Error parsing AI model response: ");
            r.append(e.as_str());
            r
        },
    }
}

/// `x` stands in `s` at position `i`.
pub open spec fn holds_at(s: Seq<char>, x: Seq<char>, i: int) -> bool {
    0 <= i && i + x.len() <= s.len() && s.subrange(i, i + x.len()) == x
}

/// Without a secondary credential the answer holds the whole extraction text,
/// right after the heading, and ends with the "not configured" notice.
pub proof fn lemma_unconfigured_keeps_extraction(x: Seq<char>)
    ensures
        holds_at(unconfigured_answer(x), x, answer_head().len() as int),
        holds_at(
            unconfigured_answer(x),
            unconfigured_note(),
            (answer_head().len() + x.len()) as int,
        ),
{
    let s = unconfigured_answer(x);
    let h = answer_head().len() as int;
    assert(s.subrange(h, h + x.len()) =~= x);
    assert(s.subrange(h + x.len(), h + x.len() + unconfigured_note().len()) =~= unconfigured_note());
}

/// When the secondary provider answers 503 the answer holds the whole extraction
/// text, right after the heading, and ends with the "unavailable" notice.
pub proof fn lemma_unavailable_keeps_extraction(x: Seq<char>)
    ensures
        holds_at(unavailable_answer(x), x, answer_head().len() as int),
        holds_at(unavailable_answer(x), unavailable_note(), (answer_head().len() + x.len()) as int),
{
    let s = unavailable_answer(x);
    let h = answer_head().len() as int;
    assert(s.subrange(h, h + x.len()) =~= x);
    assert(s.subrange(h + x.len(), h + x.len() + unavailable_note().len()) =~= unavailable_note());
}

} // verus!
