use mac_soft_rs::installer::{DiskImageInstaller, InstallAction, InstallState};
use mac_soft_rs::pipeline::{Phase, PipelineRun};
use mac_soft_rs::progress::{DownloadFailure, DownloadJob, JobStatus};
use mac_soft_rs::resolve::{resolve_download, CaskRecord, ResolutionError};
use mac_soft_rs::volume::select_disk_images;

#[test]
fn one_failed_resolution_leaves_siblings_done() {
    let apps = vec![b"iina".to_vec(), b"broken".to_vec(), b"keka".to_vec()];
    let mut run = PipelineRun::new(&apps);
    assert_eq!(run.downloads.len(), 3);

    for i in 0..3 {
        let mut job = DownloadJob::new(apps[i].clone());
        if i == 1 {
            job.fail(DownloadFailure::Resolution(ResolutionError::MalformedUrl));
        } else {
            job.start(Some(10));
            job.on_chunk(10);
            job.finish();
        }
        run.record_outcome(i, job);
    }

    assert_eq!(run.downloads[0].status, JobStatus::Done);
    assert_eq!(
        run.downloads[1].status,
        JobStatus::Failed(DownloadFailure::Resolution(ResolutionError::MalformedUrl))
    );
    assert_eq!(run.downloads[2].status, JobStatus::Done);
    assert_eq!(run.count_done(), 2);

    // The failed job does not hold the run back.
    assert!(run.begin_install_phase());
    assert_eq!(run.phase, Phase::Installing);
}

#[test]
fn recording_one_outcome_leaves_siblings_untouched() {
    let apps = vec![b"iina".to_vec(), b"keka".to_vec()];
    let mut run = PipelineRun::new(&apps);
    let before = run.downloads[1].status;
    let mut job = DownloadJob::new(apps[0].clone());
    job.fail(DownloadFailure::Resolution(ResolutionError::Request));
    run.record_outcome(0, job);
    assert_eq!(run.downloads[1].status, before);
    assert_eq!(run.downloads[1].app_id, b"keka".to_vec());
}

#[test]
fn install_phase_waits_for_every_download() {
    let apps = vec![b"iina".to_vec(), b"keka".to_vec()];
    let mut run = PipelineRun::new(&apps);

    let mut done = DownloadJob::new(apps[0].clone());
    done.start(Some(4));
    done.on_chunk(4);
    done.finish();
    run.record_outcome(0, done);

    // One download still pending: the barrier stays closed.
    assert!(!run.begin_install_phase());
    assert_eq!(run.phase, Phase::Downloading);

    let mut failed = DownloadJob::new(apps[1].clone());
    failed.fail(DownloadFailure::Resolution(ResolutionError::Schema));
    run.record_outcome(1, failed);

    assert!(run.begin_install_phase());
    assert_eq!(run.phase, Phase::Installing);
    run.finish();
    assert_eq!(run.phase, Phase::Finished);
}

#[test]
fn end_to_end_two_apps_without_variations() {
    let apps = vec![b"iina".to_vec(), b"keka".to_vec()];
    let records = [
        CaskRecord {
            default_url: b"https://example.com/iina/IINA-1.3.dmg".to_vec(),
            variations: Vec::new(),
        },
        CaskRecord {
            default_url: b"https://example.com/keka/Keka-1.2.3.dmg".to_vec(),
            variations: Vec::new(),
        },
    ];
    let output_dir = b"/tmp/out".to_vec();
    let version = b"14".to_vec();

    let mut run = PipelineRun::new(&apps);
    let mut written: Vec<Vec<u8>> = Vec::new();

    for i in 0..2 {
        let resolved =
            resolve_download(apps[i].clone(), &records[i], &version, &output_dir).unwrap();
        let mut job = DownloadJob::new(apps[i].clone());
        job.start(Some(100));
        job.on_chunk(100);
        job.finish();
        run.record_outcome(i, job);
        written.push(resolved.destination_path);
    }

    assert_eq!(written[0], b"/tmp/out/IINA-1.3.dmg".to_vec());
    assert_eq!(written[1], b"/tmp/out/Keka-1.2.3.dmg".to_vec());
    assert_eq!(run.downloads[0].status, JobStatus::Done);
    assert_eq!(run.downloads[1].status, JobStatus::Done);

    assert!(run.begin_install_phase());

    let found = vec![b"IINA-1.3.dmg".to_vec(), b"Keka-1.2.3.dmg".to_vec()];
    let images = select_disk_images(&found);
    assert_eq!(images.len(), 2);

    for image in &images {
        let (mut ins, _) =
            DiskImageInstaller::new(image.clone(), b"/Applications".to_vec());
        ins.on_attach(true, &b"/dev/disk2s1  Apple_HFS  /Volumes/App\n".to_vec());
        let action = ins.on_entries(&vec![b"App.app".to_vec()]);
        assert!(matches!(action, InstallAction::CopyBundle { .. }));
        ins.on_copy_result(true);
        ins.on_detach(true);
        assert_eq!(ins.state, InstallState::Done);
    }

    run.finish();
    assert_eq!(run.phase, Phase::Finished);
}
