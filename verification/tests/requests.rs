use openai_api_rs::v1::api::{
    i64_to_string, is_beta, join_url_path, query_params, split_endpoint_query, u64_to_string,
};
use openai_api_rs::v1::assistant::AssistantRequest;
use openai_api_rs::v1::audio::{
    raw_transcription_format_ok, structured_transcription_format_ok, AudioSpeechRequest,
};
use openai_api_rs::v1::batch::CreateBatchRequest;
use openai_api_rs::v1::embedding::EmbeddingRequest;
use openai_api_rs::v1::file::{FileDeleteRequest, FileUploadRequest};
use openai_api_rs::v1::fine_tune::{
    CancelFineTuneRequest, DeleteFineTuneModelRequest, ListFineTuneEventsRequest,
    RetrieveFineTuneRequest,
};
use openai_api_rs::v1::fine_tuning::{
    CancelFineTuningJobRequest, CreateFineTuningJobRequest, ListFineTuningJobEventsRequest,
    ListFineTuningJobsRequest, RetrieveFineTuningJobRequest,
};
use openai_api_rs::v1::image::{ImageEditRequest, ImageGenerationRequest, ImageVariationRequest};
use openai_api_rs::v1::message::{CreateMessageRequest, MessageRole, ModifyMessageRequest};
use openai_api_rs::v1::moderation::CreateModerationRequest;
use openai_api_rs::v1::run::ModifyRunRequest;
use openai_api_rs::v1::thread::{CreateThreadRequest, ModifyThreadRequest};
use openai_api_rs::realtime::api::RealtimeClient;
use openai_api_rs::realtime::sip::RealtimeSipClient;
use openai_api_rs::realtime::types::RealtimeModel;

#[test]
fn constructors_fill_exactly_the_given_fields() {
    let assistant = AssistantRequest::new("gpt-4".to_string());
    assert_eq!(assistant.model, "gpt-4");
    assert!(assistant.name.is_none() && assistant.metadata.is_none());

    let speech = AudioSpeechRequest::new(
        "tts-1".to_string(),
        "hello".to_string(),
        "alloy".to_string(),
        "out.mp3".to_string(),
    );
    assert_eq!(speech.voice, "alloy");
    assert_eq!(speech.output, "out.mp3");

    let batch = CreateBatchRequest::new(
        "file-1".to_string(),
        "/v1/chat/completions".to_string(),
        "24h".to_string(),
    );
    assert_eq!(batch.input_file_id, "file-1");
    assert!(batch.metadata.is_none());

    let embedding = EmbeddingRequest::new(
        "text-embedding-3-small".to_string(),
        vec!["a".to_string(), "b".to_string()],
    );
    assert_eq!(embedding.input.len(), 2);
    assert!(embedding.dimensions.is_none());

    let upload = FileUploadRequest::new("path".to_string(), "fine-tune".to_string());
    assert_eq!(upload.purpose, "fine-tune");
    let delete = FileDeleteRequest::new("file-2".to_string());
    assert_eq!(delete.file_id, "file-2");

    assert_eq!(RetrieveFineTuneRequest::new("ft-1".to_string()).fine_tune_id, "ft-1");
    assert_eq!(CancelFineTuneRequest::new("ft-2".to_string()).fine_tune_id, "ft-2");
    assert_eq!(ListFineTuneEventsRequest::new("ft-3".to_string()).fine_tune_id, "ft-3");
    assert_eq!(DeleteFineTuneModelRequest::new("m-1".to_string()).model_id, "m-1");

    let job = CreateFineTuningJobRequest::new("gpt-4o-mini".to_string(), "file-3".to_string());
    assert_eq!(job.training_file, "file-3");
    assert!(job.hyperparameters.is_none() && job.suffix.is_none());
    let listing = ListFineTuningJobsRequest::new("ignored".to_string());
    assert!(listing.after.is_none() && listing.limit.is_none());
    let events = ListFineTuningJobEventsRequest::new("job-1".to_string());
    assert_eq!(events.fine_tuning_job_id, "job-1");
    assert_eq!(
        RetrieveFineTuningJobRequest::new("job-2".to_string()).fine_tuning_job_id,
        "job-2"
    );
    assert_eq!(
        CancelFineTuningJobRequest::new("job-3".to_string()).fine_tuning_job_id,
        "job-3"
    );

    let image = ImageGenerationRequest::new("a cat".to_string());
    assert_eq!(image.prompt, "a cat");
    assert!(image.n.is_none());
    let edit = ImageEditRequest::new("img.png".to_string(), "add a hat".to_string());
    assert_eq!(edit.image, "img.png");
    assert!(edit.mask.is_none());
    let variation = ImageVariationRequest::new("img.png".to_string());
    assert_eq!(variation.image, "img.png");

    let message = CreateMessageRequest::new(MessageRole::user, "hi".to_string());
    assert_eq!(message.content, "hi");
    assert!(message.attachments.is_none());
    assert!(ModifyMessageRequest::new().metadata.is_none());
    assert!(ModifyRunRequest::new().metadata.is_none());
    let thread = CreateThreadRequest::new();
    assert!(thread.messages.is_none() && thread.tool_resources.is_none());
    assert!(ModifyThreadRequest::new().metadata.is_none());

    let moderation = CreateModerationRequest::new("text".to_string());
    assert_eq!(moderation.input, "text");
    assert!(moderation.model.is_none());

    let realtime = RealtimeClient::new_with_endpoint(
        "wss://example/v1/realtime".to_string(),
        "key".to_string(),
        "gpt-realtime".to_string(),
    );
    assert_eq!(realtime.wss_url, "wss://example/v1/realtime");

    let sip = RealtimeSipClient::new_with_endpoint(
        "wss://example/v1/realtime".to_string(),
        "key".to_string(),
        "rtc-1".to_string(),
        RealtimeModel::GptRealtime,
    );
    assert_eq!(sip.call_id, "rtc-1");
}

#[test]
fn builder_methods_set_one_field_and_keep_the_rest() {
    let assistant = AssistantRequest::new("gpt-4".to_string())
        .name("helper".to_string())
        .description("a helper".to_string());
    assert_eq!(assistant.model, "gpt-4");
    assert_eq!(assistant.name.as_deref(), Some("helper"));
    assert_eq!(assistant.description.as_deref(), Some("a helper"));
    assert!(assistant.instructions.is_none());

    let embedding = EmbeddingRequest::new("m".to_string(), vec![]).user("u".to_string());
    assert_eq!(embedding.user.as_deref(), Some("u"));
    assert_eq!(embedding.model, "m");

    let image = ImageGenerationRequest::new("p".to_string())
        .size("1024x1024".to_string())
        .n(2);
    assert_eq!(image.size.as_deref(), Some("1024x1024"));
    assert_eq!(image.n, Some(2));
    assert_eq!(image.prompt, "p");

    let job = CreateFineTuningJobRequest::new("m".to_string(), "f".to_string())
        .suffix("s".to_string());
    assert_eq!(job.suffix.as_deref(), Some("s"));

    let mut meta = std::collections::HashMap::new();
    meta.insert("k".to_string(), "v".to_string());
    let run = ModifyRunRequest::new().metadata(meta.clone());
    assert_eq!(run.metadata.unwrap().get("k").map(String::as_str), Some("v"));

    let moderation = CreateModerationRequest::new("i".to_string()).model("m".to_string());
    assert_eq!(moderation.model.as_deref(), Some("m"));
}

#[test]
fn default_impls_match_new() {
    assert!(ModifyRunRequest::default().metadata.is_none());
    assert!(ModifyMessageRequest::default().metadata.is_none());
    assert!(ModifyThreadRequest::default().metadata.is_none());
    let thread = CreateThreadRequest::default();
    assert!(thread.messages.is_none() && thread.metadata.is_none());
}

#[test]
fn query_params_joins_set_parameters_in_order() {
    assert_eq!(
        query_params(None, None, None, None, "assistants".to_string()),
        "assistants"
    );
    assert_eq!(
        query_params(Some(20), None, None, None, "assistants".to_string()),
        "assistants?limit=20"
    );
    assert_eq!(
        query_params(
            Some(-3),
            Some("desc".to_string()),
            Some("a1".to_string()),
            Some("b2".to_string()),
            "threads/t/runs".to_string()
        ),
        "threads/t/runs?limit=-3&order=desc&after=a1&before=b2"
    );
    assert_eq!(
        query_params(None, None, Some("cursor".to_string()), None, "batches".to_string()),
        "batches?after=cursor"
    );
}

#[test]
fn number_rendering_is_decimal() {
    assert_eq!(u64_to_string(0), "0");
    assert_eq!(u64_to_string(907), "907");
    assert_eq!(i64_to_string(-1200), "-1200");
    assert_eq!(i64_to_string(i64::MIN), "-9223372036854775808");
    assert_eq!(i64_to_string(i64::MAX), "9223372036854775807");
}

#[test]
fn transcription_formats_are_split_between_the_two_calls() {
    assert!(structured_transcription_format_ok(&None));
    assert!(structured_transcription_format_ok(&Some("json".to_string())));
    assert!(structured_transcription_format_ok(&Some("verbose_json".to_string())));
    assert!(!structured_transcription_format_ok(&Some("text".to_string())));
    assert!(raw_transcription_format_ok(&None));
    assert!(raw_transcription_format_ok(&Some("text".to_string())));
    assert!(raw_transcription_format_ok(&Some("srt".to_string())));
    assert!(raw_transcription_format_ok(&Some("vtt".to_string())));
    assert!(!raw_transcription_format_ok(&Some("json".to_string())));
}

#[test]
fn beta_paths_are_recognized() {
    assert!(is_beta("assistants"));
    assert!(is_beta("assistants/a/files"));
    assert!(is_beta("threads/t/messages"));
    assert!(!is_beta("chat/completions"));
    assert!(!is_beta("thread"));
}

#[test]
fn endpoint_query_is_split_and_paths_join_with_one_slash() {
    let (base, query) = split_endpoint_query("https://host/v1?key=value&x=1");
    assert_eq!(base, "https://host/v1");
    assert_eq!(query.as_deref(), Some("key=value&x=1"));

    let (base, query) = split_endpoint_query("https://host/v1");
    assert_eq!(base, "https://host/v1");
    assert_eq!(query, None);

    assert_eq!(join_url_path("https://host/v1/", "/models"), "https://host/v1/models");
    assert_eq!(join_url_path("https://host/v1", "models"), "https://host/v1/models");
    assert_eq!(join_url_path("https://host/v1//", "//models"), "https://host/v1/models");
}
