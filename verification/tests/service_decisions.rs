use app_core::containers::{
    ensure_qdrant_running, find_container, port_key, stop_and_remove_qdrant, storage_bind,
    ContainerSummary, ShutdownAction, StartupAction, CONTAINER_NAME, QDRANT_IMAGE,
};
use app_core::feedback::{process_upvoted_solution, stores_solution};
use app_core::service::{
    accept_document, decode_text_upload, error_body, is_document_field, query_response,
    upload_kind, UploadError, UploadKind, BODY_LIMIT,
};
use app_core::settings::{chosen_model, DEFAULT_MODEL, SETTINGS_FILE};
use app_core::AppSettings;

fn container(names: &[&str], running: bool) -> ContainerSummary {
    ContainerSummary { names: Some(names.iter().map(|n| n.to_string()).collect()), running }
}

#[test]
fn container_is_found_by_its_listed_name() {
    let list = vec![
        container(&["/other"], true),
        ContainerSummary { names: None, running: true },
        container(&["/alias", "/rust-coder-qdrant"], false),
        container(&["/rust-coder-qdrant"], true),
    ];
    assert_eq!(find_container(&list, "rust-coder-qdrant"), Some(2));
    assert_eq!(find_container(&list, "other"), Some(0));
    assert_eq!(find_container(&list, "/other"), None);
    assert_eq!(find_container(&list, "rust-coder"), None);
    assert_eq!(find_container(&Vec::new(), "x"), None);
}

#[test]
fn startup_depends_on_what_is_listed() {
    assert_eq!(CONTAINER_NAME, "rust-coder-qdrant");
    assert_eq!(QDRANT_IMAGE, "qdrant/qdrant:latest");
    assert_eq!(ensure_qdrant_running(&Vec::new()), StartupAction::CreateAndStart);
    assert_eq!(ensure_qdrant_running(&vec![container(&["/else"], true)]), StartupAction::CreateAndStart);
    assert_eq!(
        ensure_qdrant_running(&vec![container(&["/rust-coder-qdrant"], false)]),
        StartupAction::StartExisting
    );
    assert_eq!(
        ensure_qdrant_running(&vec![container(&["/rust-coder-qdrant"], true)]),
        StartupAction::Nothing
    );
}

#[test]
fn shutdown_stops_only_what_exists() {
    assert_eq!(stop_and_remove_qdrant(&Vec::new()), ShutdownAction::Nothing);
    assert_eq!(
        stop_and_remove_qdrant(&vec![container(&["/rust-coder-qdrant"], false)]),
        ShutdownAction::Stop
    );
    assert_eq!(stop_and_remove_qdrant(&vec![container(&["rust-coder-qdrant"], true)]), ShutdownAction::Nothing);
}

#[test]
fn container_settings_are_worded_exactly() {
    assert_eq!(storage_bind("/srv/app/qdrant_storage"), "/srv/app/qdrant_storage:/qdrant/storage");
    assert_eq!(port_key("6333"), "6333/tcp");
}

#[test]
fn upvotes_are_stored_downvotes_are_not() {
    assert!(stores_solution(true));
    assert!(!stores_solution(false));
}

#[test]
fn solution_record_embeds_query_and_code_together() {
    let record = process_upvoted_solution("sort".to_string(), "fn main() {}".to_string());
    assert_eq!(record.embedding_text, "Query: sort\n---\nCode:\nfn main() {}");
    assert_eq!(record.query, "sort");
    assert_eq!(record.code, "fn main() {}");
    assert_eq!(
        record.payload(),
        vec![
            ("query".to_string(), "sort".to_string()),
            ("code".to_string(), "fn main() {}".to_string())
        ]
    );
}

#[test]
fn upload_kind_follows_the_content_type() {
    assert_eq!(upload_kind(Some("application/pdf")), UploadKind::Pdf);
    assert_eq!(upload_kind(Some("text/plain")), UploadKind::Text);
    assert_eq!(upload_kind(Some("application/PDF")), UploadKind::Text);
    assert_eq!(upload_kind(Some("")), UploadKind::Text);
    assert_eq!(upload_kind(None), UploadKind::Text);
}

#[test]
fn document_field_is_recognised_by_name() {
    assert!(is_document_field(Some("document")));
    assert!(!is_document_field(Some("Document")));
    assert!(!is_document_field(Some("file")));
    assert!(!is_document_field(None));
}

#[test]
fn text_uploads_are_decoded_as_utf8() {
    assert_eq!(decode_text_upload("héllo".as_bytes().to_vec()).unwrap(), "héllo");
    assert_eq!(decode_text_upload(Vec::new()).unwrap(), "");
    assert_eq!(decode_text_upload(vec![0xc3, 0x28]).unwrap_err(), UploadError::NotUtf8);
}

#[test]
fn empty_documents_are_refused() {
    assert_eq!(accept_document("x".to_string()).unwrap(), "x");
    assert_eq!(accept_document(" ".to_string()).unwrap(), " ");
    assert_eq!(accept_document(String::new()).unwrap_err(), UploadError::Empty);
    assert_eq!(UploadError::NotUtf8.message(), "File content is not valid UTF-8 text");
    assert_eq!(
        UploadError::Empty.message(),
        "The 'document' field was not found in the request or the extracted content was empty."
    );
}

#[test]
fn answers_are_worded_exactly() {
    assert_eq!(query_response("OK"), "Received your query: 'OK'");
    assert_eq!(error_body("boom"), "Something went wrong: boom");
    assert_eq!(BODY_LIMIT, 50 * 1024 * 1024);
}

#[test]
fn settings_hold_their_values() {
    let settings = AppSettings::new("http://localhost:6334".to_string(), "some-model".to_string());
    assert_eq!(settings.qdrant_url, "http://localhost:6334");
    assert_eq!(settings.llm_model, "some-model");
    let copy = settings.clone();
    assert_eq!(copy.llm_model, "some-model");
    assert_eq!(SETTINGS_FILE, "config/default");
}

#[test]
fn model_is_the_chosen_one_or_the_default() {
    assert_eq!(chosen_model(Some("other".to_string())), "other");
    assert_eq!(chosen_model(None), "gemini-2.5-flash");
    assert_eq!(DEFAULT_MODEL, "gemini-2.5-flash");
}
