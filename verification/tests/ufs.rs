//! File systems under the mounts, and endpoints of workers.

use beryl_metadata::endpoint;
use beryl_metadata::error::{ErrorKind, MetadataError};
use beryl_metadata::ids::MountId;
use beryl_metadata::ufs_proxy;
use beryl_metadata::ufs_proxy::{
    CopySeen, CopyStep, MountedPath, RenameSeen, RenameStep, UfsMetadataProxy, UfsWork,
};
use beryl_metadata::worker::metrics::WorkerMetrics;

fn at(mount: u64, uri: &str, path: &str) -> Option<MountedPath> {
    Some(MountedPath {
        mount_id: MountId::new(mount),
        ufs_uri: uri.to_string(),
        relative_path: path.to_string(),
    })
}

fn found() -> RenameSeen {
    RenameSeen { source: Some(Ok(())), destination: Some(Ok(())) }
}

fn refusal(step: RenameStep) -> MetadataError {
    match step {
        RenameStep::Refuse(error) => error,
        other => panic!("expected a refusal, got {:?}", other),
    }
}

#[test]
fn uris_name_file_systems() {
    assert_eq!(ufs_proxy::ufs_id("s3://bucket/prefix").unwrap(), "bucket");
    assert_eq!(ufs_proxy::ufs_id("hdfs://nn:8020/a/b").unwrap(), "nn:8020");
    assert_eq!(ufs_proxy::ufs_id("fs:///tmp").unwrap(), "local-fs");
    let unknown = ufs_proxy::ufs_id("gs://bucket").unwrap_err();
    assert_eq!(unknown.kind(), ErrorKind::InvalidArgument);
    assert_eq!(unknown.message(), "Unsupported UFS URI format: gs://bucket");
}

#[test]
fn paths_resolve_through_their_mount() {
    let proxy = UfsMetadataProxy::new();
    let found = proxy.resolve_ufs("/data/a", at(1, "s3://bucket", "a")).unwrap();
    assert_eq!(found.ufs_id, "bucket");
    assert_eq!(found.relative_path, "a");
    let lost = proxy.resolve_ufs("/data/a", None).unwrap_err();
    assert_eq!(lost.message(), "No mount found for path: /data/a");
}

#[test]
fn renames_are_native_within_a_mount() {
    let proxy = UfsMetadataProxy::new();
    match proxy.rename(&at(1, "s3://b", "x"), &at(1, "s3://b", "y"), &found()) {
        RenameStep::Native { ufs_id, from, to } => {
            assert_eq!((ufs_id.as_str(), from.as_str(), to.as_str()), ("b", "x", "y"));
        }
        other => panic!("expected a native rename, got {:?}", other),
    }
    // Two mounts of one file system are two mounts.
    match proxy.rename(&at(1, "s3://b", "x"), &at(2, "s3://b", "y"), &found()) {
        RenameStep::CopyAndDelete { from, to } => {
            assert_eq!((from.ufs_id.as_str(), from.relative_path.as_str()), ("b", "x"));
            assert_eq!((to.ufs_id.as_str(), to.relative_path.as_str()), ("b", "y"));
        }
        other => panic!("expected a copy, got {:?}", other),
    }
    assert!(matches!(
        proxy.rename(&at(1, "s3://b", "x"), &at(2, "s3://c", "x"), &found()),
        RenameStep::CopyAndDelete { .. }
    ));
    assert_eq!(
        refusal(proxy.rename(&None, &at(2, "s3://c", "x"), &found())).message(),
        "Both paths must be mounted"
    );
}

#[test]
fn renames_resolve_the_source_first() {
    let proxy = UfsMetadataProxy::new();
    let from = at(1, "s3://b", "x");
    let unsupported = at(2, "gs://c", "x");
    let mut seen = RenameSeen { source: None, destination: None };
    assert!(matches!(proxy.rename(&from, &unsupported, &seen), RenameStep::FindSource(id) if id == "b"));

    seen.source = Some(Err("UfsId(\"b\")".to_string()));
    let missing = refusal(proxy.rename(&from, &unsupported, &seen));
    assert_eq!(missing.kind(), ErrorKind::NotFound);
    assert_eq!(missing.message(), "UFS instance not found: UfsId(\"b\")");

    seen.source = Some(Ok(()));
    let refused = refusal(proxy.rename(&from, &unsupported, &seen));
    assert_eq!(refused.kind(), ErrorKind::InvalidArgument);
    assert_eq!(refused.message(), "Unsupported UFS URI format: gs://c");

    let to = at(2, "hdfs://nn/p", "x");
    assert!(matches!(proxy.rename(&from, &to, &seen), RenameStep::FindDestination(id) if id == "nn"));
    seen.destination = Some(Err("UfsId(\"nn\")".to_string()));
    assert_eq!(refusal(proxy.rename(&from, &to, &seen)).kind(), ErrorKind::NotFound);
}

#[test]
fn copies_come_before_deletions() {
    let mut seen = CopySeen { read: None, written: None, deleted: None };
    assert!(matches!(ufs_proxy::rename_cross_mount(&seen), CopyStep::Read));
    seen.read = Some(Ok(()));
    assert!(matches!(ufs_proxy::rename_cross_mount(&seen), CopyStep::Write));
    seen.written = Some(Err("disk full".to_string()));
    match ufs_proxy::rename_cross_mount(&seen) {
        CopyStep::Done(Err(error)) => assert!(error.message().contains("disk full")),
        other => panic!("expected a failure, got {:?}", other),
    }
    seen.written = Some(Ok(()));
    assert!(matches!(ufs_proxy::rename_cross_mount(&seen), CopyStep::DeleteSource));
    seen.deleted = Some(Err("busy".to_string()));
    assert!(matches!(ufs_proxy::rename_cross_mount(&seen), CopyStep::Done(Ok(()))));
    assert_eq!(ufs_proxy::work_error(UfsWork::Stat, "gone").kind(), ErrorKind::Internal);
}

#[test]
fn hosts_are_read_from_endpoints() {
    assert_eq!(endpoint::endpoint_host("10.0.0.1:9090"), Some("10.0.0.1".to_string()));
    assert_eq!(endpoint::endpoint_host("http://worker-1:9090"), Some("worker-1".to_string()));
    assert_eq!(endpoint::endpoint_host("[::1]:9090"), Some("::1".to_string()));
    assert_eq!(endpoint::endpoint_host("\u{3000}worker-2\u{3000}:9090"), Some("worker-2".to_string()));
    assert_eq!(endpoint::endpoint_host(""), None);
}

#[test]
fn white_space_is_that_of_unicode() {
    for c in '\0'..=char::MAX {
        assert_eq!(endpoint::is_white_space(c), c.is_whitespace(), "{:?}", c);
    }
}

#[test]
fn metrics_are_set_and_counted() {
    let mut metrics = WorkerMetrics::new();
    metrics.update_worker_live(3);
    metrics.record_blockreport_blocks(5);
    metrics.record_blockreport_blocks(6);
    metrics.update_locations_size(7);
    metrics.update_orphan_queue_len(8);
    metrics.update_repair_queue_len(9);
    assert_eq!(metrics.worker_live, 3);
    assert_eq!(metrics.blockreport_blocks_total, 11);
    assert_eq!(metrics.locations_size, 7);
    assert_eq!(metrics.orphan_queue_len, 8);
    assert_eq!(metrics.repair_queue_len, 9);
}
