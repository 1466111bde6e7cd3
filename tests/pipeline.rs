use base64::Engine;
use gemini_overlay::capture::{artifact_file_name, buffer_matches, scratch_dir_name};
use gemini_overlay::chat::{
    chat_reply, plan_batch_chat, plan_chat, plan_extraction, plan_image_chat, png_part,
    queued_images, user_parts, ContentPart, PipelineError,
};
use gemini_overlay::config::{default_model, RuntimeConfig};
use gemini_overlay::escalation::{
    after_extraction, answer_from_body, escalation_answer, unconfigured_notice, EscalationStep,
    ReplyBody, SecondaryOutcome,
};
use gemini_overlay::queue::{CaptureStep, ImageQueue};

const HEAD: &str = "## BEAST MODE EXTRACTION COMPLETE! 🚀\n\n**Extracted Content:**\n";

fn keyed() -> RuntimeConfig {
    RuntimeConfig::new("gemini-2.5-pro".to_string(), Some("k".to_string()), None)
}

fn image_data(p: &ContentPart) -> (String, String) {
    match p {
        ContentPart::Image { mime, base64 } => (mime.clone(), base64.clone()),
        ContentPart::Text(_) => panic!("expected an image part"),
    }
}

#[test]
fn batch_request_has_three_images_in_order() {
    let images = vec![b"first".to_vec(), b"second!".to_vec(), vec![0u8, 255, 7]];
    let plan = plan_batch_chat(&keyed(), "describe".to_string(), &images);
    assert_eq!(plan.model, "gemini-2.5-pro");
    assert_eq!(plan.system, "Be concise and helpful. Analyze all provided images in order.");
    assert_eq!(plan.parts.len(), 4);
    match &plan.parts[0] {
        ContentPart::Text(t) => assert_eq!(t, "describe"),
        _ => panic!("expected the prompt first"),
    }
    for (i, img) in images.iter().enumerate() {
        let (mime, data) = image_data(&plan.parts[i + 1]);
        assert_eq!(mime, "image/png");
        assert_eq!(data, base64::engine::general_purpose::STANDARD.encode(img));
    }
}

#[test]
fn base64_parts_are_encoded() {
    let parts = user_parts("p".to_string(), &vec![b"abc".to_vec(), b"ab".to_vec(), vec![]]);
    assert_eq!(image_data(&parts[1]).1, "YWJj");
    assert_eq!(image_data(&parts[2]).1, "YWI=");
    assert_eq!(image_data(&parts[3]).1, "");
    assert_eq!(image_data(&png_part("QQ==".to_string())), ("image/png".to_string(), "QQ==".to_string()));
}

#[test]
fn extraction_uses_fixed_model() {
    let plan = plan_extraction("p".to_string(), &vec![b"x".to_vec()]);
    assert_eq!(plan.model, "gemini-2.0-flash");
    assert!(plan.system.starts_with("You are an expert content extractor."));
    assert_eq!(plan.parts.len(), 2);
}

#[test]
fn chat_needs_primary_credential() {
    let cfg = RuntimeConfig::new(default_model(), None, Some("t".to_string()));
    assert!(matches!(plan_chat(&cfg, "hi".to_string()), Err(PipelineError::MissingCredential)));
    let mut cfg = keyed();
    cfg.set_model("custom-model".to_string());
    let plan = plan_chat(&cfg, "hi".to_string()).unwrap();
    assert_eq!(plan.model, "custom-model");
    assert_eq!(plan.system, "Be concise and helpful.");
    assert_eq!(plan.parts.len(), 1);
}

#[test]
fn image_chat_reports_read_failure() {
    let r = plan_image_chat(&keyed(), "p".to_string(), Err("not found".to_string()));
    assert!(matches!(r, Err(PipelineError::ImageRead(m)) if m == "not found"));
    let plan = plan_image_chat(&keyed(), "p".to_string(), Ok(b"abc".to_vec())).unwrap();
    assert_eq!(image_data(&plan.parts[1]).1, "YWJj");
    let none = RuntimeConfig::new(default_model(), None, None);
    assert!(matches!(
        plan_image_chat(&none, "p".to_string(), Err("x".to_string())),
        Err(PipelineError::MissingCredential)
    ));
}

#[test]
fn cleared_queue_is_refused() {
    let mut q = ImageQueue::new();
    assert_eq!(q.begin_capture(0), CaptureStep::Capture);
    q.finish_capture(Ok("a.png".to_string())).unwrap();
    assert_eq!(queued_images(&keyed(), &q), Ok(vec!["a.png".to_string()]));
    q.clear();
    assert_eq!(q.length(), 0);
    assert_eq!(queued_images(&keyed(), &q), Err(PipelineError::EmptyQueue));
    let none = RuntimeConfig::new(default_model(), None, None);
    assert_eq!(queued_images(&none, &q), Err(PipelineError::MissingCredential));
}

#[test]
fn chat_reply_placeholder_and_error() {
    assert_eq!(chat_reply(Ok(Some("yes".to_string()))), Ok("yes".to_string()));
    assert_eq!(chat_reply(Ok(None)), Ok("[No response]".to_string()));
    assert_eq!(chat_reply(Err("quota".to_string())), Err(PipelineError::Inference("quota".to_string())));
}

#[test]
fn escalation_without_token_returns_extraction() {
    let r = after_extraction(Ok(Some("E=mc^2".to_string())), &None).unwrap();
    match r {
        EscalationStep::Done(a) => {
            assert!(a.starts_with(HEAD));
            assert!(a.contains("E=mc^2"));
            assert!(a.contains("Hugging Face token not configured"));
            assert_eq!(a, unconfigured_notice("E=mc^2"));
        }
        EscalationStep::Send { .. } => panic!("no secondary credential is set"),
    }
}

#[test]
fn escalation_with_token_builds_request() {
    let r = after_extraction(Ok(None), &Some("tok".to_string())).unwrap();
    match r {
        EscalationStep::Send { extracted, request } => {
            assert_eq!(extracted, "[No extraction]");
            assert_eq!(request.authorization, "Bearer tok");
            assert_eq!(
                request.url,
                "https://api-inference.huggingface.co/models/microsoft/DialoGPT-large"
            );
            assert!(request.inputs.starts_with(
                "Based on the extracted content below, provide comprehensive answers:\n\n[No extraction]\n\n"
            ));
            assert_eq!(request.max_new_tokens, 2048);
            assert_eq!(request.temperature_percent, 70);
            assert_eq!(request.top_p_percent, 90);
            assert_eq!(request.timeout_secs, 120);
            assert!(!request.return_full_text);
            assert!(request.do_sample);
        }
        EscalationStep::Done(_) => panic!("a secondary credential is set"),
    }
}

#[test]
fn escalation_propagates_extraction_failure() {
    let r = after_extraction(Err("boom".to_string()), &Some("tok".to_string()));
    assert!(matches!(r, Err(PipelineError::Inference(m)) if m == "boom"));
    let q = ImageQueue::new();
    assert_eq!(queued_images(&keyed(), &q), Err(PipelineError::EmptyQueue));
}

fn responded(status: u16, body: ReplyBody) -> SecondaryOutcome {
    SecondaryOutcome::Responded { status, text: "server said no".to_string(), body }
}

#[test]
fn escalation_503_degrades_to_success() {
    let a = escalation_answer("notes", responded(503, ReplyBody::Single(None))).unwrap();
    assert!(a.starts_with(HEAD));
    assert!(a.contains("notes"));
    assert!(a.contains("temporarily unavailable (Service Unavailable)"));
}

#[test]
fn escalation_400_degrades_to_success() {
    let a = escalation_answer("notes", responded(400, ReplyBody::Single(None))).unwrap();
    assert!(a.contains("notes"));
    assert!(a.contains("(Bad Request)"));
}

#[test]
fn escalation_network_failure_degrades_to_success() {
    let a = escalation_answer("notes", SecondaryOutcome::Unreachable("timed out".to_string())).unwrap();
    assert_eq!(
        a,
        format!(
            "{}notes\n\n**Note:** Network error occurred while connecting to advanced AI processing: timed out. The extracted content above contains all the information from your images. You can use this content directly or check your internet connection and try again.",
            HEAD
        )
    );
}

#[test]
fn escalation_other_status_is_error() {
    let r = escalation_answer("notes", responded(500, ReplyBody::Single(None)));
    assert_eq!(
        r,
        Err(PipelineError::HttpStatus { status: 500, body: "server said no".to_string() })
    );
}

#[test]
fn escalation_success_reads_body() {
    let list = ReplyBody::Results(vec![Some("answer".to_string()), Some("other".to_string())]);
    assert_eq!(escalation_answer("x", responded(200, list)), Ok("answer".to_string()));
    assert_eq!(
        escalation_answer("x", responded(201, ReplyBody::Single(Some("one".to_string())))),
        Ok("one".to_string())
    );
    assert_eq!(answer_from_body(ReplyBody::Results(vec![])), "Empty response from AI model");
    assert_eq!(answer_from_body(ReplyBody::Results(vec![None])), "No generated text in response");
    assert_eq!(
        answer_from_body(ReplyBody::Single(None)),
        "Unexpected response format from AI model"
    );
    assert_eq!(
        answer_from_body(ReplyBody::Malformed("eof".to_string())),
        "Error parsing AI model response: eof"
    );
}

#[test]
fn config_setters() {
    let mut cfg = RuntimeConfig::new(default_model(), None, None);
    assert_eq!(cfg.model, "gemini-2.5-pro");
    cfg.set_gemini_api_key("  \t\u{3000}\n".to_string());
    assert_eq!(cfg.get_gemini_api_key(), None);
    cfg.set_gemini_api_key(" key ".to_string());
    assert_eq!(cfg.get_gemini_api_key(), Some(" key ".to_string()));
    cfg.set_hf_token(" ".to_string());
    assert_eq!(cfg.get_hf_token(), Some(" ".to_string()));
    cfg.set_hf_token(String::new());
    assert_eq!(cfg.get_hf_token(), None);
    assert_eq!(cfg.set_model("gemini-2.0-flash".to_string()), "gemini-2.0-flash");
    assert_eq!(cfg.model, "gemini-2.0-flash");
}

#[test]
fn artifact_names_are_fresh_pngs() {
    let a = artifact_file_name();
    let b = artifact_file_name();
    assert_eq!(a.len(), 40);
    assert!(a.ends_with(".png"));
    assert_ne!(a, b);
    assert_eq!(scratch_dir_name(), "tauri_gemini");
}

#[test]
fn buffer_size_check() {
    assert!(buffer_matches(2, 3, 24));
    assert!(!buffer_matches(2, 3, 23));
    assert!(!buffer_matches(2, 3, 25));
    assert!(buffer_matches(0, 5, 0));
}
