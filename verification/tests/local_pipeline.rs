use archive_pipeline::local::LocalAction;
use archive_pipeline::local::LocalEvent;
use archive_pipeline::local::LocalPhase;
use archive_pipeline::local::LocalPipeline;
use archive_pipeline::models::FileS3;
use archive_pipeline::models::PipelineError;

fn files(list: &[(&str, &str)]) -> Vec<FileS3> {
    list.iter()
        .map(|(key, name)| FileS3 { key: key.to_string(), name: name.to_string() })
        .collect()
}

fn assert_entries(bytes: &[u8], expected: &[(&str, &[u8])]) {
    let cursor = std::io::Cursor::new(bytes.to_vec());
    let mut archive = zip::ZipArchive::new(cursor).expect("valid archive");
    assert_eq!(archive.len(), expected.len());
    for (i, (name, content)) in expected.iter().enumerate() {
        let mut entry = archive.by_index(i).expect("entry present");
        assert_eq!(entry.name(), *name);
        let mut buf = Vec::new();
        std::io::Read::read_to_end(&mut entry, &mut buf).expect("entry readable");
        assert_eq!(buf.as_slice(), *content);
    }
}

#[test]
fn all_downloads_end_in_one_archive_in_order() {
    let (mut p, a) = LocalPipeline::start(files(&[("a.txt", "a.txt"), ("b.txt", "b.txt")]));
    match a {
        LocalAction::Download { key } => assert_eq!(key, "a.txt"),
        _ => panic!("expected first download"),
    }

    let a = p.step(LocalEvent::Downloaded(b"hello".to_vec()));
    match a {
        LocalAction::Download { key } => assert_eq!(key, "b.txt"),
        _ => panic!("expected second download"),
    }

    let a = p.step(LocalEvent::Downloaded(b"world".to_vec()));
    let bytes = match a {
        LocalAction::WriteArchive { bytes } => bytes,
        _ => panic!("expected archive write"),
    };
    assert_entries(&bytes, &[("a.txt", b"hello"), ("b.txt", b"world")]);

    let a = p.step(LocalEvent::WriteOk);
    assert!(matches!(a, LocalAction::Finish));
    assert!(matches!(p.phase, LocalPhase::Finished));
}

#[test]
fn failed_download_leaves_entry_out_of_archive() {
    let (mut p, _) = LocalPipeline::start(files(&[("a.txt", "a.txt"), ("b.txt", "b.txt")]));
    let a = p.step(LocalEvent::DownloadFailed);
    match a {
        LocalAction::Download { key } => assert_eq!(key, "b.txt"),
        _ => panic!("expected second download"),
    }
    let a = p.step(LocalEvent::Downloaded(b"world".to_vec()));
    let bytes = match a {
        LocalAction::WriteArchive { bytes } => bytes,
        _ => panic!("expected archive write"),
    };
    assert_entries(&bytes, &[("b.txt", b"world")]);
    let a = p.step(LocalEvent::WriteOk);
    assert!(matches!(a, LocalAction::Finish));
}

#[test]
fn empty_request_writes_empty_archive() {
    let (mut p, a) = LocalPipeline::start(files(&[]));
    let bytes = match a {
        LocalAction::WriteArchive { bytes } => bytes,
        _ => panic!("expected archive write"),
    };
    assert_entries(&bytes, &[]);
    let a = p.step(LocalEvent::WriteOk);
    assert!(matches!(a, LocalAction::Finish));
}

#[test]
fn duplicate_entry_names_abort_with_archive_error() {
    // entry names must be unique within one request; the encoder refuses
    // the second entry and the run fails fatally
    let (mut p, _) = LocalPipeline::start(files(&[("a.txt", "same.txt"), ("b.txt", "same.txt")]));
    p.step(LocalEvent::Downloaded(b"hello".to_vec()));
    let a = p.step(LocalEvent::Downloaded(b"world".to_vec()));
    match a {
        LocalAction::Abort(e) => assert_eq!(e, PipelineError::ArchiveError),
        _ => panic!("expected abort"),
    }
    assert!(matches!(p.phase, LocalPhase::Failed(PipelineError::ArchiveError)));
}

#[test]
fn failed_write_aborts() {
    let (mut p, _) = LocalPipeline::start(files(&[]));
    let a = p.step(LocalEvent::WriteFailed);
    match a {
        LocalAction::Abort(e) => assert_eq!(e, PipelineError::LocalWriteError),
        _ => panic!("expected abort"),
    }
    assert!(matches!(p.phase, LocalPhase::Failed(PipelineError::LocalWriteError)));
}
