use mac_soft_rs::resolve::{resolve_download, destination_file_name, CaskRecord, ResolutionError, Variation};

fn record_with_variant(default_url: &str, version: &str, variant_url: &str) -> CaskRecord {
    CaskRecord {
        default_url: default_url.as_bytes().to_vec(),
        variations: vec![Variation {
            os_version: version.as_bytes().to_vec(),
            url: variant_url.as_bytes().to_vec(),
        }],
    }
}

#[test]
fn variant_exact_match_wins() {
    let record = record_with_variant(
        "https://example.com/release/App-2.1.dmg",
        "13",
        "https://example.com/legacy/App-1.9.dmg",
    );
    let resolved = record.resolved_url(&b"13".to_vec());
    assert_eq!(resolved, b"https://example.com/legacy/App-1.9.dmg".to_vec());
}

#[test]
fn absent_version_falls_back_to_default() {
    let record = record_with_variant(
        "https://example.com/release/App-2.1.dmg",
        "13",
        "https://example.com/legacy/App-1.9.dmg",
    );
    let resolved = record.resolved_url(&b"14".to_vec());
    assert_eq!(resolved, b"https://example.com/release/App-2.1.dmg".to_vec());
}

#[test]
fn no_variations_uses_default() {
    let record = CaskRecord {
        default_url: b"https://example.com/release/App-2.1.dmg".to_vec(),
        variations: Vec::new(),
    };
    let resolved = record.resolved_url(&b"14".to_vec());
    assert_eq!(resolved, b"https://example.com/release/App-2.1.dmg".to_vec());
}

#[test]
fn first_matching_variation_wins() {
    let record = CaskRecord {
        default_url: b"https://example.com/d.dmg".to_vec(),
        variations: vec![
            Variation { os_version: b"12".to_vec(), url: b"https://example.com/a.dmg".to_vec() },
            Variation { os_version: b"13".to_vec(), url: b"https://example.com/b.dmg".to_vec() },
            Variation { os_version: b"13".to_vec(), url: b"https://example.com/c.dmg".to_vec() },
        ],
    };
    let resolved = record.resolved_url(&b"13".to_vec());
    assert_eq!(resolved, b"https://example.com/b.dmg".to_vec());
}

#[test]
fn destination_named_from_final_path_segment() {
    let name = destination_file_name(&b"https://example.com/release/App-2.1.dmg".to_vec());
    assert_eq!(name, Some(b"App-2.1.dmg".to_vec()));
}

#[test]
fn destination_name_ignores_query_parameters() {
    let name =
        destination_file_name(&b"https://example.com/release/App-2.1.dmg?token=abc&x=1".to_vec());
    assert_eq!(name, Some(b"App-2.1.dmg".to_vec()));
}

#[test]
fn resolve_download_builds_destination_path() {
    let record = CaskRecord {
        default_url: b"https://example.com/release/App-2.1.dmg".to_vec(),
        variations: Vec::new(),
    };
    let resolved = resolve_download(
        b"app".to_vec(),
        &record,
        &b"14".to_vec(),
        &b"/tmp/out".to_vec(),
    )
    .unwrap();
    assert_eq!(resolved.app_id, b"app".to_vec());
    assert_eq!(resolved.source_url, b"https://example.com/release/App-2.1.dmg".to_vec());
    assert_eq!(resolved.destination_path, b"/tmp/out/App-2.1.dmg".to_vec());
}

#[test]
fn url_without_path_segments_is_malformed() {
    let record = CaskRecord {
        default_url: b"mailto:user@example.com".to_vec(),
        variations: Vec::new(),
    };
    let err = resolve_download(
        b"app".to_vec(),
        &record,
        &b"14".to_vec(),
        &b"/tmp/out".to_vec(),
    )
    .unwrap_err();
    assert_eq!(err, ResolutionError::MalformedUrl);
}

#[test]
fn unparsable_url_is_malformed() {
    let record = CaskRecord {
        default_url: b"not a url at all".to_vec(),
        variations: Vec::new(),
    };
    let err = resolve_download(
        b"app".to_vec(),
        &record,
        &b"14".to_vec(),
        &b"/tmp/out".to_vec(),
    )
    .unwrap_err();
    assert_eq!(err, ResolutionError::MalformedUrl);
}
