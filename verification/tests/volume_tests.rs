use mac_soft_rs::volume::{
    bundle_stem, is_bundle_name, is_disk_image_name, parse_volume_path, select_bundles,
    select_disk_images,
};

#[test]
fn volume_path_from_typical_attach_output() {
    let out = b"/dev/disk2          GUID_partition_scheme          \n\
/dev/disk2s1        Apple_HFS                      /Volumes/IINA\n"
        .to_vec();
    assert_eq!(parse_volume_path(&out), Some(b"/Volumes/IINA".to_vec()));
}

#[test]
fn volume_path_ignores_trailing_blank_lines() {
    let out = b"/dev/disk3s1  Apple_HFS  /Volumes/Keka 1.2\n\n\n".to_vec();
    assert_eq!(parse_volume_path(&out), Some(b"/Volumes/Keka 1.2".to_vec()));
}

#[test]
fn volume_path_of_single_token_line() {
    let out = b"/Volumes/Solo\n".to_vec();
    assert_eq!(parse_volume_path(&out), Some(b"/Volumes/Solo".to_vec()));
}

#[test]
fn empty_attach_output_has_no_volume_path() {
    assert_eq!(parse_volume_path(&Vec::new()), None);
    assert_eq!(parse_volume_path(&b"\n\n".to_vec()), None);
    assert_eq!(parse_volume_path(&b"   \n".to_vec()), None);
}

#[test]
fn bundle_names_end_in_app_with_a_stem() {
    assert!(is_bundle_name(&b"IINA.app".to_vec()));
    assert!(is_bundle_name(&b"My.Tool.app".to_vec()));
    assert!(!is_bundle_name(&b".app".to_vec()));
    assert!(!is_bundle_name(&b"README.txt".to_vec()));
    assert!(!is_bundle_name(&b"app".to_vec()));
    assert!(!is_bundle_name(&b"Tool.application".to_vec()));
}

#[test]
fn disk_image_names_end_in_dmg_with_a_stem() {
    assert!(is_disk_image_name(&b"IINA-1.3.dmg".to_vec()));
    assert!(!is_disk_image_name(&b".dmg".to_vec()));
    assert!(!is_disk_image_name(&b"notes.txt".to_vec()));
}

#[test]
fn bundles_are_selected_in_order() {
    let names = vec![
        b"IINA.app".to_vec(),
        b"README.txt".to_vec(),
        b"Extras.app".to_vec(),
        b".app".to_vec(),
    ];
    let selected = select_bundles(&names);
    assert_eq!(selected, vec![b"IINA.app".to_vec(), b"Extras.app".to_vec()]);
}

#[test]
fn disk_images_are_selected_in_order() {
    let names = vec![
        b"IINA-1.3.dmg".to_vec(),
        b"notes.txt".to_vec(),
        b"Keka-1.2.3.dmg".to_vec(),
    ];
    let selected = select_disk_images(&names);
    assert_eq!(selected, vec![b"IINA-1.3.dmg".to_vec(), b"Keka-1.2.3.dmg".to_vec()]);
}

#[test]
fn stem_is_the_name_before_the_first_dot() {
    assert_eq!(bundle_stem(&b"IINA.app".to_vec()), b"IINA".to_vec());
    assert_eq!(bundle_stem(&b"Keka-1.2.3.dmg".to_vec()), b"Keka-1".to_vec());
    assert_eq!(bundle_stem(&b"nodots".to_vec()), b"nodots".to_vec());
}
