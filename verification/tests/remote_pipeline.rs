use archive_pipeline::models::FileS3;
use archive_pipeline::models::PipelineError;
use archive_pipeline::models::ZipFileS3;
use archive_pipeline::pipeline::Phase;
use archive_pipeline::pipeline::RemotePipeline;
use archive_pipeline::pipeline::StoreAction;
use archive_pipeline::pipeline::StoreEvent;

fn request(target: &str, files: &[(&str, &str)]) -> ZipFileS3 {
    ZipFileS3 {
        key_zip: target.to_string(),
        files: files
            .iter()
            .map(|(key, name)| FileS3 { key: key.to_string(), name: name.to_string() })
            .collect(),
    }
}

fn assert_entries(bytes: &[u8], expected: &[(&str, &[u8])]) {
    let cursor = std::io::Cursor::new(bytes.to_vec());
    let mut archive = zip::ZipArchive::new(cursor).expect("valid archive");
    assert_eq!(archive.len(), expected.len());
    for (i, (name, content)) in expected.iter().enumerate() {
        let mut entry = archive.by_index(i).expect("entry present");
        assert_eq!(entry.name(), *name);
        let mut buf = Vec::new();
        std::io::Read::read_to_end(&mut entry, &mut buf).expect("entry readable");
        assert_eq!(buf.as_slice(), *content);
    }
}

#[test]
fn two_objects_become_two_parts_then_complete() {
    let req = request("out.zip", &[("a.txt", "a.txt"), ("b.txt", "b.txt")]);
    let (mut p, a) = RemotePipeline::start(req);
    match a {
        StoreAction::CreateSession { key } => assert_eq!(key, "out.zip"),
        _ => panic!("expected session creation"),
    }

    let a = p.step(StoreEvent::SessionCreated("uid-1".to_string()));
    match a {
        StoreAction::Download { key } => assert_eq!(key, "a.txt"),
        _ => panic!("expected first download"),
    }

    let a = p.step(StoreEvent::Downloaded(b"hello".to_vec()));
    let body1 = match a {
        StoreAction::UploadPart { key, upload_id, part_number, body } => {
            assert_eq!(key, "out.zip");
            assert_eq!(upload_id, "uid-1");
            assert_eq!(part_number, 1);
            body
        }
        _ => panic!("expected first part upload"),
    };
    assert_entries(&body1, &[("a.txt", b"hello")]);

    let a = p.step(StoreEvent::PartUploaded("etag-1".to_string()));
    match a {
        StoreAction::Download { key } => assert_eq!(key, "b.txt"),
        _ => panic!("expected second download"),
    }

    let a = p.step(StoreEvent::Downloaded(b"world".to_vec()));
    let body2 = match a {
        StoreAction::UploadPart { part_number, body, .. } => {
            assert_eq!(part_number, 2);
            body
        }
        _ => panic!("expected second part upload"),
    };
    assert_entries(&body2, &[("b.txt", b"world")]);

    let a = p.step(StoreEvent::PartUploaded("etag-2".to_string()));
    match a {
        StoreAction::Complete { key, upload_id } => {
            assert_eq!(key, "out.zip");
            assert_eq!(upload_id, "uid-1");
        }
        _ => panic!("expected completion"),
    }
    assert_eq!(p.parts.len(), 2);
    assert_eq!(p.parts[0].part_number, 1);
    assert_eq!(p.parts[0].e_tag, "etag-1");
    assert_eq!(p.parts[1].part_number, 2);
    assert_eq!(p.parts[1].e_tag, "etag-2");

    let a = p.step(StoreEvent::Completed);
    assert!(matches!(a, StoreAction::Finish));
    assert!(matches!(p.phase, Phase::Finished));
}

#[test]
fn failed_download_is_skipped_and_run_succeeds() {
    let req = request("out.zip", &[("a.txt", "a.txt"), ("b.txt", "b.txt")]);
    let (mut p, _) = RemotePipeline::start(req);
    let a = p.step(StoreEvent::SessionCreated("uid-2".to_string()));
    match a {
        StoreAction::Download { key } => assert_eq!(key, "a.txt"),
        _ => panic!("expected first download"),
    }

    let a = p.step(StoreEvent::DownloadFailed);
    match a {
        StoreAction::Download { key } => assert_eq!(key, "b.txt"),
        _ => panic!("expected second download"),
    }

    let a = p.step(StoreEvent::Downloaded(b"world".to_vec()));
    let body = match a {
        StoreAction::UploadPart { part_number, body, .. } => {
            assert_eq!(part_number, 1);
            body
        }
        _ => panic!("expected part upload"),
    };
    assert_entries(&body, &[("b.txt", b"world")]);

    let a = p.step(StoreEvent::PartUploaded("etag-1".to_string()));
    assert!(matches!(a, StoreAction::Complete { .. }));
    assert_eq!(p.parts.len(), 1);
    assert_eq!(p.parts[0].part_number, 1);

    let a = p.step(StoreEvent::Completed);
    assert!(matches!(a, StoreAction::Finish));
    assert!(matches!(p.phase, Phase::Finished));
}

#[test]
fn failed_part_upload_aborts_without_completion() {
    let req = request("out.zip", &[("a.txt", "a.txt"), ("b.txt", "b.txt")]);
    let (mut p, _) = RemotePipeline::start(req);
    p.step(StoreEvent::SessionCreated("uid-3".to_string()));
    p.step(StoreEvent::Downloaded(b"hello".to_vec()));
    p.step(StoreEvent::PartUploaded("etag-1".to_string()));
    p.step(StoreEvent::Downloaded(b"world".to_vec()));

    let a = p.step(StoreEvent::PartUploadFailed);
    match a {
        StoreAction::Abort(e) => assert_eq!(e, PipelineError::PartUploadError),
        _ => panic!("expected abort"),
    }
    assert!(matches!(p.phase, Phase::Failed(PipelineError::PartUploadError)));
}

#[test]
fn failed_session_creation_aborts() {
    let req = request("out.zip", &[("a.txt", "a.txt")]);
    let (mut p, _) = RemotePipeline::start(req);
    let a = p.step(StoreEvent::SessionCreateFailed);
    match a {
        StoreAction::Abort(e) => assert_eq!(e, PipelineError::SessionError),
        _ => panic!("expected abort"),
    }
    assert!(matches!(p.phase, Phase::Failed(PipelineError::SessionError)));
}

#[test]
fn empty_request_completes_with_no_parts() {
    let req = request("out.zip", &[]);
    let (mut p, a) = RemotePipeline::start(req);
    assert!(matches!(a, StoreAction::CreateSession { .. }));
    let a = p.step(StoreEvent::SessionCreated("uid-4".to_string()));
    match a {
        StoreAction::Complete { key, upload_id } => {
            assert_eq!(key, "out.zip");
            assert_eq!(upload_id, "uid-4");
        }
        _ => panic!("expected immediate completion"),
    }
    assert_eq!(p.parts.len(), 0);
    let a = p.step(StoreEvent::Completed);
    assert!(matches!(a, StoreAction::Finish));
}

#[test]
fn failed_completion_aborts() {
    let req = request("out.zip", &[]);
    let (mut p, _) = RemotePipeline::start(req);
    p.step(StoreEvent::SessionCreated("uid-5".to_string()));
    let a = p.step(StoreEvent::CompleteFailed);
    match a {
        StoreAction::Abort(e) => assert_eq!(e, PipelineError::SessionError),
        _ => panic!("expected abort"),
    }
}

#[test]
fn rerunning_a_request_uploads_identical_bodies() {
    let mut bodies: Vec<Vec<Vec<u8>>> = Vec::new();
    for _ in 0..2 {
        let req = request("out.zip", &[("a.txt", "a.txt"), ("b.txt", "b.txt")]);
        let (mut p, _) = RemotePipeline::start(req);
        p.step(StoreEvent::SessionCreated("uid".to_string()));
        let mut run = Vec::new();
        for payload in [b"hello".as_slice(), b"world".as_slice()] {
            let a = p.step(StoreEvent::Downloaded(payload.to_vec()));
            match a {
                StoreAction::UploadPart { body, .. } => run.push(body),
                _ => panic!("expected part upload"),
            }
            p.step(StoreEvent::PartUploaded("etag".to_string()));
        }
        bodies.push(run);
    }
    assert_eq!(bodies[0], bodies[1]);
}
