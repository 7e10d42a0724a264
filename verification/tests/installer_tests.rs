use mac_soft_rs::installer::{
    CopyError, DiskImageInstaller, InstallAction, InstallError, InstallState, MountError,
};

const ATTACH_OUTPUT: &[u8] = b"/dev/disk2s1  Apple_HFS  /Volumes/IINA\n";

fn fresh_installer() -> DiskImageInstaller {
    let (installer, action) = DiskImageInstaller::new(
        b"/tmp/out/IINA-1.3.dmg".to_vec(),
        b"/Applications".to_vec(),
    );
    match action {
        InstallAction::RunAttach { image } => {
            assert_eq!(image, b"/tmp/out/IINA-1.3.dmg".to_vec())
        }
        _ => panic!("expected an attach"),
    }
    installer
}

#[test]
fn happy_path_installs_and_detaches() {
    let mut ins = fresh_installer();
    let action = ins.on_attach(true, &ATTACH_OUTPUT.to_vec());
    assert!(ins.attached);
    assert_eq!(ins.volume_path, b"/Volumes/IINA".to_vec());
    match action {
        InstallAction::ListVolume { volume } => assert_eq!(volume, b"/Volumes/IINA".to_vec()),
        _ => panic!("expected a listing"),
    }
    let names = vec![b"IINA.app".to_vec(), b"Readme.txt".to_vec()];
    let action = ins.on_entries(&names);
    match action {
        InstallAction::CopyBundle { source, destination } => {
            assert_eq!(source, b"/Volumes/IINA/IINA.app".to_vec());
            assert_eq!(destination, b"/Applications/IINA.app".to_vec());
        }
        _ => panic!("expected a copy"),
    }
    let action = ins.on_copy_result(true);
    assert!(matches!(action, InstallAction::RunDetach { .. }));
    assert!(ins.detach_attempted);
    ins.on_detach(true);
    assert_eq!(ins.state, InstallState::Done);
    assert_eq!(ins.installed, 1);
    assert_eq!(ins.error, None);
}

#[test]
fn copy_failure_still_detaches() {
    let mut ins = fresh_installer();
    ins.on_attach(true, &ATTACH_OUTPUT.to_vec());
    ins.on_entries(&vec![b"IINA.app".to_vec()]);
    let action = ins.on_copy_result(false);
    match action {
        InstallAction::RunDetach { volume } => assert_eq!(volume, b"/Volumes/IINA".to_vec()),
        _ => panic!("a failed copy must still detach"),
    }
    assert!(ins.detach_attempted);
    ins.on_detach(true);
    assert_eq!(ins.state, InstallState::Failed);
    assert_eq!(ins.error, Some(InstallError::FileCopy(CopyError::CopyFile)));
    assert_eq!(ins.installed, 0);
}

#[test]
fn attach_failure_never_detaches() {
    let mut ins = fresh_installer();
    let action = ins.on_attach(false, &Vec::new());
    assert!(matches!(action, InstallAction::Finished));
    assert_eq!(ins.state, InstallState::Failed);
    assert!(!ins.attached);
    assert!(!ins.detach_attempted);
    assert_eq!(ins.error, Some(InstallError::Mount(MountError::Attach)));
}

#[test]
fn unparsable_attach_output_fails_without_detach() {
    let mut ins = fresh_installer();
    let action = ins.on_attach(true, &b"\n \n".to_vec());
    assert!(matches!(action, InstallAction::Finished));
    assert_eq!(ins.state, InstallState::Failed);
    assert!(!ins.detach_attempted);
    assert_eq!(ins.error, Some(InstallError::Mount(MountError::VolumeParse)));
}

#[test]
fn volume_without_bundles_is_detached_untouched() {
    let mut ins = fresh_installer();
    ins.on_attach(true, &ATTACH_OUTPUT.to_vec());
    let action = ins.on_entries(&vec![b"Readme.txt".to_vec()]);
    assert!(matches!(action, InstallAction::RunDetach { .. }));
    ins.on_detach(true);
    assert_eq!(ins.state, InstallState::Done);
    assert_eq!(ins.installed, 0);
}

#[test]
fn listing_failure_still_detaches() {
    let mut ins = fresh_installer();
    ins.on_attach(true, &ATTACH_OUTPUT.to_vec());
    let action = ins.on_list_failed();
    assert!(matches!(action, InstallAction::RunDetach { .. }));
    ins.on_detach(true);
    assert_eq!(ins.state, InstallState::Failed);
    assert_eq!(ins.error, Some(InstallError::FileCopy(CopyError::Enumerate)));
}

#[test]
fn detach_failure_keeps_installed_bundles() {
    let mut ins = fresh_installer();
    ins.on_attach(true, &ATTACH_OUTPUT.to_vec());
    ins.on_entries(&vec![b"IINA.app".to_vec()]);
    ins.on_copy_result(true);
    ins.on_detach(false);
    assert_eq!(ins.state, InstallState::Failed);
    assert_eq!(ins.error, Some(InstallError::Mount(MountError::Detach)));
    assert_eq!(ins.installed, 1);
}

#[test]
fn two_bundles_are_copied_in_order() {
    let mut ins = fresh_installer();
    ins.on_attach(true, &ATTACH_OUTPUT.to_vec());
    let action = ins.on_entries(&vec![b"A.app".to_vec(), b"B.app".to_vec()]);
    match action {
        InstallAction::CopyBundle { source, .. } => {
            assert_eq!(source, b"/Volumes/IINA/A.app".to_vec())
        }
        _ => panic!("expected a copy"),
    }
    let action = ins.on_copy_result(true);
    match action {
        InstallAction::CopyBundle { source, destination } => {
            assert_eq!(source, b"/Volumes/IINA/B.app".to_vec());
            assert_eq!(destination, b"/Applications/B.app".to_vec());
        }
        _ => panic!("expected the second copy"),
    }
    let action = ins.on_copy_result(true);
    assert!(matches!(action, InstallAction::RunDetach { .. }));
    ins.on_detach(true);
    assert_eq!(ins.state, InstallState::Done);
    assert_eq!(ins.installed, 2);
}
