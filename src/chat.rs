use vstd::prelude::*;
use vstd::string::StringExecFns;
use base64::Engine;
use crate::config::RuntimeConfig;
use crate::queue::{cleared, ImageQueue};
use crate::gate::DebounceGate;

verus! {

/// Why an inference request gave no answer.
#[derive(Clone, Debug, PartialEq, Eq)]
pub enum PipelineError {
    /// No primary credential is configured; nothing was sent.
    MissingCredential,
    /// The image queue is empty; nothing was sent.
    EmptyQueue,
    /// A queued or given image file could not be read; the reader's message.
    ImageRead(String),
    /// The provider reported a failure; its message.
    Inference(String),
    /// The secondary provider answered with a status that no fallback covers.
    HttpStatus { status: u16, body: String },
}

/// One part of a user turn: text, or a base64-encoded image.
#[derive(Clone, Debug)]
pub enum ContentPart {
    Text(String),
    Image { mime: String, base64: String },
}

/// A chat request: the model, the system instruction, and the parts of the
/// user turn in order.
#[derive(Clone, Debug)]
pub struct ChatPlan {
    pub model: String,
    pub system: String,
    pub parts: Vec<ContentPart>,
}

/// The model that the extraction stage always uses.
pub open spec fn extraction_model() -> Seq<char> {
    "gemini-2.0-flash"@
}

pub open spec fn chat_system() -> Seq<char> {
    "Be concise and helpful."@
}

pub open spec fn batch_system() -> Seq<char> {
    "Be concise and helpful. Analyze all provided images in order."@
}

pub open spec fn extraction_system() -> Seq<char> {
    "You are an expert content extractor. Extract ALL text, formulas, diagrams, and structured information from the provided images. Be comprehensive and detailed."@
}

/// The standard, padded base64 encoding of some bytes.
pub uninterp spec fn base64_of(b: Seq<u8>) -> Seq<char>;

/// Relies on base64's `general_purpose::STANDARD.encode`: the padded standard
/// encoding, four characters for each started group of three bytes.
#[verifier::external_body]
fn encode_base64(b: &Vec<u8>) -> (r: String)
    ensures
        r@ == base64_of(b@),
        r@.len() == 4 * ((b@.len() + 2) / 3),
{
    base64::engine::general_purpose::STANDARD.encode(b)
}

pub open spec fn is_text_part(p: ContentPart, text: Seq<char>) -> bool {
    match p {
        ContentPart::Text(t) => t@ == text,
        _ => false,
    }
}

/// A PNG image part carrying the given encoded data.
pub open spec fn is_png_part(p: ContentPart, data: Seq<char>) -> bool {
    match p {
        ContentPart::Image { mime, base64 } => mime@ == "image/png"@ && base64@ == data,
        _ => false,
    }
}

/// The parts of a user turn: the prompt, then each image encoded, in order.
pub open spec fn parts_match(parts: Seq<ContentPart>, prompt: Seq<char>, images: Seq<Vec<u8>>) -> bool {
    &&& parts.len() == images.len() + 1
    &&& is_text_part(parts[0], prompt)
    &&& forall|i: int|
        0 <= i < images.len() ==> is_png_part(#[trigger] parts[i + 1], base64_of(images[i]@))
}

/// A PNG image part around data that is already encoded.
pub fn png_part(encoded: String) -> (r: ContentPart)
    ensures
        is_png_part(r, encoded@),
{
    ContentPart::Image { mime: String::from_str("image/png"), base64: encoded }
}

/// The prompt followed by every image, base64-encoded, in the order given.
pub fn user_parts(prompt: String, images: &Vec<Vec<u8>>) -> (r: Vec<ContentPart>)
    requires
        images@.len() < usize::MAX,
    ensures
        parts_match(r@, prompt@, images@),
{
    let ghost text = prompt@;
    let mut parts: Vec<ContentPart> = Vec::new();
    parts.push(ContentPart::Text(prompt));
    let mut i: usize = 0;
    while i < images.len()
        invariant
            i <= images@.len(),
            parts@.len() == i + 1,
            is_text_part(parts@[0], text),
            forall|j: int|
                0 <= j < i ==> is_png_part(#[trigger] parts@[j + 1], base64_of(images@[j]@)),
        decreases images@.len() - i,
    {
        let part = png_part(encode_base64(&images[i]));
        parts.push(part);
        i = i + 1;
    }
    parts
}

/// A text-only request to the configured model; refused without a primary
/// credential.
pub fn plan_chat(cfg: &RuntimeConfig, prompt: String) -> (r: Result<ChatPlan, PipelineError>)
    ensures
        cfg.primary_key is None <==> r == Err::<ChatPlan, PipelineError>(
            PipelineError::MissingCredential,
        ),
        r is Ok <==> cfg.primary_key is Some,
        r is Ok ==> r->Ok_0.model@ == cfg.model@ && r->Ok_0.system@ == chat_system()
            && r->Ok_0.parts@.len() == 1 && is_text_part(r->Ok_0.parts@[0], prompt@),
{
    if cfg.primary_key.is_none() {
        return Err(PipelineError::MissingCredential);
    }
    let mut parts: Vec<ContentPart> = Vec::new();
    parts.push(ContentPart::Text(prompt));
    Ok(
        ChatPlan {
            model: cfg.model.clone(),
            system: String::from_str("Be concise and helpful."),
            parts,
        },
    )
}

/// A request with one image, read by the caller; refused without a primary
/// credential, and failing with the reader's message when the image could not
/// be read.
pub fn plan_image_chat(cfg: &RuntimeConfig, prompt: String, image: Result<Vec<u8>, String>) -> (r:
    Result<ChatPlan, PipelineError>)
    ensures
        cfg.primary_key is None ==> r == Err::<ChatPlan, PipelineError>(
            PipelineError::MissingCredential,
        ),
        cfg.primary_key is Some ==> match image {
            Err(e) => r == Err::<ChatPlan, PipelineError>(PipelineError::ImageRead(e)),
            Ok(b) => r is Ok && r->Ok_0.model@ == cfg.model@ && r->Ok_0.system@ == chat_system()
                && parts_match(r->Ok_0.parts@, prompt@, seq![b]),
        },
{
    if cfg.primary_key.is_none() {
        return Err(PipelineError::MissingCredential);
    }
    match image {
        Err(e) => Err(PipelineError::ImageRead(e)),
        Ok(b) => {
            let ghost bytes = b;
            let images = vec![b];
            assert(images@ =~= seq![bytes]);
            Ok(
                ChatPlan {
                    model: cfg.model.clone(),
                    system: String::from_str("Be concise and helpful."),
                    parts: user_parts(prompt, &images),
                },
            )
        },
    }
}

/// The error that a request over a queue holding `items` meets before anything
/// is read or sent, if any: a missing credential first, then an empty queue.
pub open spec fn queue_check(cfg: RuntimeConfig, items: Seq<String>) -> Option<PipelineError> {
    if cfg.primary_key is None {
        Some(PipelineError::MissingCredential)
    } else if items.len() == 0 {
        Some(PipelineError::EmptyQueue)
    } else {
        None
    }
}

/// The preconditions of every request over the queue: a primary credential, then
/// at least one queued image. On success, the queue's contents at this moment.
pub fn queued_images(cfg: &RuntimeConfig, queue: &ImageQueue) -> (r: Result<
    Vec<String>,
    PipelineError,
>)
    ensures
        match queue_check(*cfg, queue@.0) {
            Some(e) => r == Err::<Vec<String>, PipelineError>(e),
            None => r is Ok && r->Ok_0@ == queue@.0,
        },
{
    if cfg.primary_key.is_none() {
        return Err(PipelineError::MissingCredential);
    }
    if queue.length() == 0 {
        return Err(PipelineError::EmptyQueue);
    }
    Ok(queue.snapshot())
}

/// The request over the queued images, read by the caller in snapshot order.
pub fn plan_batch_chat(cfg: &RuntimeConfig, prompt: String, images: &Vec<Vec<u8>>) -> (r: ChatPlan)
    requires
        images@.len() < usize::MAX,
    ensures
        r.model@ == cfg.model@,
        r.system@ == batch_system(),
        parts_match(r.parts@, prompt@, images@),
{
    ChatPlan {
        model: cfg.model.clone(),
        system: String::from_str("Be concise and helpful. Analyze all provided images in order."),
        parts: user_parts(prompt, images),
    }
}

/// The extraction-stage request over the queued images: the fixed extraction
/// model and instruction, whatever model is configured.
pub fn plan_extraction(prompt: String, images: &Vec<Vec<u8>>) -> (r: ChatPlan)
    requires
        images@.len() < usize::MAX,
    ensures
        r.model@ == extraction_model(),
        r.system@ == extraction_system(),
        parts_match(r.parts@, prompt@, images@),
{
    ChatPlan {
        model: String::from_str("gemini-2.0-flash"),
        system: String::from_str(
            "You are an expert content extractor. Extract ALL text, formulas, diagrams, and structured information from the provided images. Be comprehensive and detailed.",
        ),
        parts: user_parts(prompt, images),
    }
}

/// The text of a provider's reply: its first text content, `placeholder` when it
/// has none, and the provider's message as an inference error when it failed.
pub fn reply_text(reply: Result<Option<String>, String>, placeholder: &str) -> (r: Result<
    String,
    PipelineError,
>)
    ensures
        match reply {
            Ok(Some(t)) => r == Ok::<String, PipelineError>(t),
            Ok(None) => r is Ok && r->Ok_0@ == placeholder@,
            Err(e) => r == Err::<String, PipelineError>(PipelineError::Inference(e)),
        },
{
    match reply {
        Ok(Some(t)) => Ok(t),
        Ok(None) => Ok(String::from_str(placeholder)),
        Err(e) => Err(PipelineError::Inference(e)),
    }
}

/// The answer to a chat request; "[No response]" stands in for a reply with no text.
pub fn chat_reply(reply: Result<Option<String>, String>) -> (r: Result<String, PipelineError>)
    ensures
        match reply {
            Ok(Some(t)) => r == Ok::<String, PipelineError>(t),
            Ok(None) => r is Ok && r->Ok_0@ == "[No response]"@,
            Err(e) => r == Err::<String, PipelineError>(PipelineError::Inference(e)),
        },
{
    reply_text(reply, "[No response]")
}

/// Right after `clear` the queue's length is zero, and a credentialed request
/// over it is refused with `EmptyQueue` before anything is read or sent.
pub proof fn lemma_cleared_queue_refused(cfg: RuntimeConfig, before: (Seq<String>, DebounceGate))
    requires
        cfg.primary_key is Some,
    ensures
        cleared(before).0.len() == 0,
        queue_check(cfg, cleared(before).0) == Some(PipelineError::EmptyQueue),
{
}

} // verus!
