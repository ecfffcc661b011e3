use sonar::catalog::{download_url, find, CatalogModel};
use sonar::models::{
    add_chunk, already_downloaded, authorization_header, continue_from, download_error_to_report,
    partial_file_name, range_header, resume_from, should_emit_progress, DiskState, DownloadRegistry, Manager,
    ModelStatus,
};

fn model(id: &str, size: u64) -> CatalogModel {
    CatalogModel {
        id: id.to_owned(),
        name: format!("{id} name"),
        description: "d".to_owned(),
        repo_id: "ggerganov/whisper.cpp".to_owned(),
        filename: format!("ggml-{id}.bin"),
        size_bytes: size,
        languages: vec!["en".to_owned()],
        supports_streaming: true,
        recommended: false,
    }
}

#[test]
fn catalog_lookup_and_urls() {
    let models = vec![model("base", 10), model("small", 20), model("base", 30)];
    assert_eq!(find(&models, "base").map(|m| m.size_bytes), Some(10));
    assert!(find(&models, "large").is_none());
    assert_eq!(
        download_url(&models[0]),
        "https://huggingface.co/ggerganov/whisper.cpp/resolve/main/ggml-base.bin?download=true"
    );
    assert_eq!(partial_file_name("ggml-base.bin"), "ggml-base.bin.partial");
}

#[test]
fn registry_tracks_downloads_and_cancellation() {
    let mut registry = DownloadRegistry::new();
    assert!(!registry.is_downloading("base"));
    assert_eq!(registry.begin("base"), Ok(()));
    assert!(registry.is_downloading("base"));
    assert!(!registry.is_cancelled("base"));
    assert_eq!(registry.begin("base"), Err("base is already downloading".to_owned()));
    assert_eq!(registry.begin("small"), Ok(()));
    assert!(registry.cancel("base"));
    assert!(registry.is_cancelled("base"));
    assert!(!registry.is_cancelled("small"));
    assert!(!registry.cancel("large"));
    registry.finish("base");
    assert!(!registry.is_downloading("base"));
    assert!(registry.is_downloading("small"));
    assert_eq!(registry.begin("base"), Ok(()));
    assert!(!registry.is_cancelled("base"));
}

#[test]
fn manager_lists_statuses_from_disk_facts() {
    let mut manager = Manager::with_models(vec![model("base", 10), model("small", 20)]);
    assert_eq!(manager.begin_download("small"), Ok(()));
    let disk = vec![
        DiskState { model_len: Some(10), partial_len: None },
        DiskState { model_len: Some(5), partial_len: Some(7) },
    ];
    let statuses = manager.list(&disk);
    assert!(statuses[0].is_downloaded && !statuses[0].is_downloading);
    assert_eq!(statuses[0].partial_bytes, 0);
    assert!(!statuses[1].is_downloaded && statuses[1].is_downloading);
    assert_eq!(statuses[1].partial_bytes, 7);
    assert_eq!(statuses[1].languages, vec!["en".to_owned()]);
    assert!(manager.cancel("small"));
    assert!(!manager.cancel("base"));
    manager.end_download("small");
    assert!(!manager.is_downloading("small"));
    assert_eq!(manager.lookup("large"), Err("unknown model: large".to_owned()));
    assert_eq!(manager.lookup("small"), Ok(1));
    let one = ModelStatus::of(&manager.models[0], &DiskState { model_len: None, partial_len: None }, false);
    assert!(!one.is_downloaded);
}

#[test]
fn download_steps_follow_the_server() {
    assert!(already_downloaded(Some(10), 10));
    assert!(!already_downloaded(Some(9), 10));
    assert!(!already_downloaded(None, 10));
    assert_eq!(resume_from(12, 10), (0, true));
    assert_eq!(resume_from(4, 10), (4, false));
    assert_eq!(range_header(0), None);
    assert_eq!(range_header(1234), Some("bytes=1234-".to_owned()));
    assert_eq!(authorization_header(Some("hf_x")), Some("Bearer hf_x".to_owned()));
    assert_eq!(authorization_header(Some("")), None);
    assert_eq!(authorization_header(None), None);
    assert_eq!(continue_from(4, true), 4);
    assert_eq!(continue_from(4, false), 0);
    assert_eq!(continue_from(0, true), 0);
    assert_eq!(add_chunk(5, 6), Ok(11));
    assert_eq!(add_chunk(u64::MAX, 1), Err("downloaded byte count overflowed".to_owned()));
    assert!(should_emit_progress(100));
    assert!(!should_emit_progress(99));
    assert_eq!(download_error_to_report(&Ok(())), None);
    assert_eq!(download_error_to_report(&Err("download cancelled".to_owned())), None);
    assert_eq!(
        download_error_to_report(&Err("request failed: timeout".to_owned())),
        Some("request failed: timeout".to_owned())
    );
}

#[test]
fn a_cancelled_download_stops_at_its_next_chunk() {
    let mut manager = Manager::with_models(vec![model("base", 10), model("small", 20)]);
    assert_eq!(manager.check_chunk("base"), Ok(()));
    assert_eq!(manager.begin_download("base"), Ok(()));
    assert_eq!(manager.begin_download("small"), Ok(()));
    assert_eq!(manager.check_chunk("base"), Ok(()));
    assert!(manager.cancel("base"));
    assert_eq!(manager.check_chunk("base"), Err("download cancelled".to_owned()));
    assert_eq!(manager.check_chunk("small"), Ok(()));
    manager.end_download("base");
    assert_eq!(manager.check_chunk("base"), Ok(()));
}
