use memvro::models::{
    accept_downloaded_model, model_download_needed, model_download_url, model_is_ready,
    model_option, model_options, selected_model_id, FileFacts, ModelStatus,
};

#[test]
fn catalogue_lists_four_models_in_order() {
    let ids: Vec<&str> = model_options().iter().map(|m| m.id).collect();
    assert_eq!(ids, vec!["large-v3-turbo", "large-v3", "base-multilingual", "base-english"]);
    let sizes: Vec<&str> = model_options().iter().map(|m| m.size).collect();
    assert_eq!(sizes, vec!["809 MB", "3.1 GB", "142 MB", "142 MB"]);
}

#[test]
fn every_model_is_found_by_its_id() {
    for option in model_options() {
        let found = model_option(option.id).expect("known model");
        assert_eq!(found.id, option.id);
        assert_eq!(found.filename, option.filename);
        assert_eq!(found.name, option.name);
    }
    assert_eq!(model_option("large-v3").unwrap().filename, "ggml-large-v3.bin");
    assert_eq!(model_option("base-english").unwrap().filename, "ggml-base.en.bin");
}

#[test]
fn unknown_model_is_named_in_the_error() {
    assert_eq!(
        model_option("tiny").unwrap_err(),
        "Unknown transcription model: tiny".to_string()
    );
    assert_eq!(model_option("").unwrap_err(), "Unknown transcription model: ".to_string());
    assert!(model_option("large-v3 ").is_err());
}

#[test]
fn download_url_names_the_model_file() {
    let base = model_option("base-multilingual").unwrap();
    assert_eq!(
        model_download_url(&base),
        "https://huggingface.co/ggerganov/whisper.cpp/resolve/main/ggml-base.bin?download=true"
    );
    let turbo = model_option("large-v3-turbo").unwrap();
    assert_eq!(
        model_download_url(&turbo),
        "https://huggingface.co/ggerganov/whisper.cpp/resolve/main/ggml-large-v3-turbo.bin?download=true"
    );
}

#[test]
fn model_readiness_needs_a_file_of_more_than_a_million_bytes() {
    assert!(!model_is_ready(None));
    assert!(!model_is_ready(Some(FileFacts { is_file: true, len: 1_000_000 })));
    assert!(model_is_ready(Some(FileFacts { is_file: true, len: 1_000_001 })));
    assert!(!model_is_ready(Some(FileFacts { is_file: false, len: 5_000_000 })));
    assert!(model_download_needed(None));
    assert!(!model_download_needed(Some(FileFacts { is_file: true, len: 142_000_000 })));
}

#[test]
fn incomplete_download_is_refused() {
    assert_eq!(
        accept_downloaded_model(Some(FileFacts { is_file: true, len: 10 })),
        Err("Downloaded model is incomplete or invalid".to_string())
    );
    assert_eq!(accept_downloaded_model(Some(FileFacts { is_file: true, len: 2_000_000 })), Ok(()));
}

#[test]
fn selected_model_falls_back_to_multilingual_base() {
    assert_eq!(selected_model_id(Some("large-v3")), "large-v3");
    assert_eq!(selected_model_id(Some("medium")), "base-multilingual");
    assert_eq!(selected_model_id(None), "base-multilingual");
    assert!(model_option(&selected_model_id(Some("gone"))).is_ok());
}

#[test]
fn model_status_offers_the_whole_catalogue() {
    let status = ModelStatus::new("large-v3".to_string(), true);
    assert_eq!(status.selected_id, "large-v3");
    assert!(status.downloaded);
    assert_eq!(status.options.len(), 4);
    assert_eq!(status.options[2].id, "base-multilingual");
}
