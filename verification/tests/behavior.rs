use ajour_update::download::{
    assemble_chunks, check_download_integrity, parse_content_length, ChunkEvent, TransferStatus,
};
use ajour_update::error::DownloadError;
use ajour_update::release::{select_asset, Release, ReleaseAsset};
use ajour_update::selfupdate::{
    finalize_name, plan_update, temp_name, UpdateSequencer, UpdateStage,
};
use ajour_update::transport::{
    prepare_download_request, prepare_post_json, prepare_request, HttpMethod,
};
use ajour_update::utility::{strip_non_digits, wow_path_resolution};

fn release_v2() -> Release {
    Release {
        tag_name: "v2.0".to_string(),
        assets: vec![ReleaseAsset {
            name: "app-linux".to_string(),
            download_url: "https://x/app-linux".to_string(),
        }],
    }
}

#[test]
fn test_wow_path_resolution() {
    let classic_addon_path = "/Applications/World of Warcraft/_classic_/Interface/Addons";
    let retail_addon_path = "/Applications/World of Warcraft/_retail_/Interface/Addons";
    let retail_interface_path = "/Applications/World of Warcraft/_retail_/Interface";
    let classic_interface_path = "/Applications/World of Warcraft/_classic_/Interface";
    let classic_alternate_path = "/Applications/Wow/_classic_";

    let root_alternate_path = "/Applications/Wow".to_string();
    let root_path = "/Applications/World of Warcraft".to_string();

    assert_eq!(
        root_path.eq(&wow_path_resolution(Some(classic_addon_path), false).unwrap()),
        true
    );
    assert_eq!(
        root_path.eq(&wow_path_resolution(Some(retail_addon_path), false).unwrap()),
        true
    );
    assert_eq!(
        root_path.eq(&wow_path_resolution(Some(retail_interface_path), false).unwrap()),
        true
    );
    assert_eq!(
        root_path.eq(&wow_path_resolution(Some(classic_interface_path), false).unwrap()),
        true
    );
    assert_eq!(
        root_alternate_path.eq(&wow_path_resolution(Some(classic_alternate_path), false).unwrap()),
        true
    );
}

#[test]
fn wow_path_resolution_without_known_folder() {
    assert_eq!(wow_path_resolution(Some("/Applications/Other"), false), None);
    assert_eq!(wow_path_resolution(None, false), None);
    assert_eq!(
        wow_path_resolution(Some("/Games/Wow"), true),
        Some("/Games/Wow".to_string())
    );
}

#[test]
fn request_encodes_space_in_url() {
    let plan = prepare_request("a b", Vec::new(), None);
    assert_eq!(plan.url, "a%20b");
    assert_eq!(plan.method, HttpMethod::Get);
    assert!(!plan.follow_redirects);
}

#[test]
fn request_keeps_spaceless_url() {
    let plan = prepare_request("https://example.test/file.zip", Vec::new(), Some(30));
    assert_eq!(plan.url, "https://example.test/file.zip");
    assert_eq!(plan.timeout_secs, Some(30));
}

#[test]
fn post_json_sets_content_type_first() {
    let headers = vec![("x-token".to_string(), "abc".to_string())];
    let plan = prepare_post_json("https://api.test/v1", headers, None);
    assert_eq!(plan.method, HttpMethod::Post);
    assert_eq!(plan.url, "https://api.test/v1");
    assert_eq!(plan.headers[0], ("content-type".to_string(), "application/json".to_string()));
    assert_eq!(plan.headers[1], ("x-token".to_string(), "abc".to_string()));
    assert_eq!(plan.headers.len(), 2);
}

#[test]
fn download_request_follows_redirects() {
    let plan = prepare_download_request("https://host/a b");
    assert_eq!(plan.url, "https://host/a%20b");
    assert!(plan.follow_redirects);
    assert_eq!(plan.timeout_secs, None);
    assert_eq!(plan.headers, vec![("ACCEPT".to_string(), "application/octet-stream".to_string())]);
}

#[test]
fn content_length_parsing() {
    assert_eq!(parse_content_length(None), 0);
    assert_eq!(parse_content_length(Some("")), 0);
    assert_eq!(parse_content_length(Some("abc")), 0);
    assert_eq!(parse_content_length(Some("12x")), 0);
    assert_eq!(parse_content_length(Some("42")), 42);
    assert_eq!(parse_content_length(Some("1024")), 1024);
    assert_eq!(parse_content_length(Some("18446744073709551615")), u64::MAX);
    assert_eq!(parse_content_length(Some("18446744073709551616")), 0);
}

#[test]
fn whole_body_length_mismatch_fails_with_integrity_error() {
    let r = check_download_integrity(Some("1024"), 900);
    assert_eq!(r, Err(DownloadError::Integrity { expected: 1024, actual: 900 }));
}

#[test]
fn whole_body_length_match_succeeds() {
    assert_eq!(check_download_integrity(Some("1024"), 1024), Ok(()));
    assert_eq!(check_download_integrity(None, 0), Ok(()));
    assert!(check_download_integrity(None, 5).is_err());
}

#[test]
fn select_asset_from_release_json() {
    let body = r#"{"tag_name":"v2.0","assets":[{"name":"app-linux","browser_download_url":"https://x/app-linux"}]}"#;
    let value: serde_json::Value = serde_json::from_str(body).unwrap();
    let release = Release {
        tag_name: value["tag_name"].as_str().unwrap().to_string(),
        assets: value["assets"]
            .as_array()
            .unwrap()
            .iter()
            .map(|a| ReleaseAsset {
                name: a["name"].as_str().unwrap().to_string(),
                download_url: a["browser_download_url"].as_str().unwrap().to_string(),
            })
            .collect(),
    };
    assert_eq!(release.tag_name, "v2.0");

    let selected = select_asset(&release, "app-linux").unwrap();
    assert_eq!(release.assets[selected].name, "app-linux");
    assert_eq!(release.assets[selected].download_url, "https://x/app-linux");

    assert_eq!(
        select_asset(&release, "app-mac"),
        Err(DownloadError::AssetNotFound { bin_name: "app-mac".to_string() })
    );
}

#[test]
fn select_asset_exact_match() {
    let release = release_v2();
    assert_eq!(select_asset(&release, "app-linux"), Ok(0));
}

#[test]
fn select_asset_missing_name_is_not_found() {
    let release = release_v2();
    let r = select_asset(&release, "app-mac");
    assert_eq!(
        r,
        Err(DownloadError::AssetNotFound { bin_name: "app-mac".to_string() })
    );
}

#[test]
fn select_asset_is_case_sensitive() {
    let release = release_v2();
    assert!(matches!(
        select_asset(&release, "App-Linux"),
        Err(DownloadError::AssetNotFound { .. })
    ));
}

#[test]
fn select_asset_takes_first_match() {
    let mut release = release_v2();
    release.assets.push(ReleaseAsset {
        name: "app-linux".to_string(),
        download_url: "https://x/other".to_string(),
    });
    assert_eq!(select_asset(&release, "app-linux"), Ok(0));
}

#[test]
fn release_check_without_match_is_idempotent() {
    let release = release_v2();
    let first = select_asset(&release, "app-mac");
    let second = select_asset(&release, "app-mac");
    assert_eq!(first, second);
    assert!(matches!(first, Err(DownloadError::AssetNotFound { .. })));
}

#[test]
fn strip_non_digits_unifies_versions() {
    assert_eq!(strip_non_digits("213r323"), Some("213323".to_string()));
    assert_eq!(strip_non_digits("Rematch_4_10_15.zip"), Some("41015".to_string()));
    assert_eq!(strip_non_digits("no digits"), Some("".to_string()));
}

#[test]
fn staging_and_finalize_names_round_trip() {
    assert_eq!(temp_name("app"), "tmp_app");
    assert_eq!(finalize_name("tmp_app"), Some("app".to_string()));
    assert_eq!(finalize_name("app"), None);
    assert_eq!(finalize_name("tm_app"), None);
    assert_eq!(finalize_name("tmp_"), Some("".to_string()));
}

#[test]
fn plan_update_points_at_matching_asset() {
    let release = release_v2();
    let plan = plan_update(&release, "app-linux").unwrap();
    assert_eq!(plan.download_url, "https://x/app-linux");
    assert_eq!(plan.temp_name, "tmp_app-linux");

    assert!(matches!(
        plan_update(&release, "app-mac"),
        Err(DownloadError::AssetNotFound { .. })
    ));
}

#[test]
fn sequencer_walks_the_three_stages() {
    let release = release_v2();
    let mut seq = UpdateSequencer::new();
    assert_eq!(seq.stage, UpdateStage::Idle);

    let plan = seq.begin_staging(&release, "app-linux").unwrap();
    assert_eq!(seq.stage, UpdateStage::Staging);
    assert_eq!(plan.temp_name, "tmp_app-linux");

    seq.staging_complete();
    assert_eq!(seq.stage, UpdateStage::PendingRestart);

    let (from, to) = seq.finalize();
    assert_eq!(from, "tmp_app-linux");
    assert_eq!(to, "app-linux");
    assert_eq!(seq.stage, UpdateStage::Idle);
}

#[test]
fn sequencer_stays_idle_without_matching_asset() {
    let release = release_v2();
    let mut seq = UpdateSequencer::new();
    let r = seq.begin_staging(&release, "app-mac");
    assert!(matches!(r, Err(DownloadError::AssetNotFound { .. })));
    assert_eq!(seq.stage, UpdateStage::Idle);
}

#[test]
fn chunked_copy_concatenates_until_end() {
    let events = vec![
        ChunkEvent::Data(vec![1, 2]),
        ChunkEvent::Data(vec![3]),
        ChunkEvent::End,
    ];
    let t = assemble_chunks(events);
    assert_eq!(t.data, vec![1, 2, 3]);
    assert_eq!(t.status, TransferStatus::Complete);
}

#[test]
fn chunked_copy_read_failure_truncates() {
    let events = vec![
        ChunkEvent::Data(vec![1]),
        ChunkEvent::ReadFailed,
        ChunkEvent::Data(vec![9]),
    ];
    let t = assemble_chunks(events);
    assert_eq!(t.data, vec![1]);
    assert_eq!(t.status, TransferStatus::Truncated);
}
