use libaria2::download_handle::{DownloadHandle, DownloadRecord, DownloadStatus, FileData};
use libaria2::events::Mailbox;
use libaria2::ffi;
use libaria2::ffi::{KeyVal, SessionHandle, UriData, UriStatus};
use libaria2::session::{Aria2Context, EngineFlag, PollContext, RunResult, Session, Step};

fn pair(key: &str, val: &str) -> KeyVal {
    KeyVal { key: key.to_string(), val: val.to_string() }
}

fn file(index: u32, path: &str, uris: &[&str]) -> FileData {
    FileData {
        index,
        path: path.to_string(),
        length: 1000 * index as u64,
        completed_length: 10 * index as u64,
        selected: true,
        uris: uris
            .iter()
            .map(|uri| UriData { uri: uri.to_string(), status: UriStatus::URI_WAITING })
            .collect(),
    }
}

fn record(status: ffi::DownloadStatus) -> DownloadRecord {
    DownloadRecord {
        status,
        total_len: 4096,
        completed_len: 1024,
        upload_len: 16,
        bitfield: "f0".to_string(),
        download_speed: 300,
        upload_speed: 20,
        info_hash: "c12fe1c06bba254a9dc9f519b335aa7c1367a88a".to_string(),
        piece_len: 512,
        num_pieces: 8,
        connections: 2,
        error_code: 0,
        followed_by: vec![21, 22],
        following: 0,
        belongs_to: 0,
        dir: "/tmp".to_string(),
        files: vec![file(1, "/tmp/1", &["http://localhost/1"])],
        options: vec![pair("dir", "mydownload")],
    }
}

fn with_context<T>(body: impl FnOnce(&PollContext) -> T) -> T {
    let mut flag = EngineFlag::new();
    let mut aria = Aria2Context::new(&mut flag).unwrap();
    let mut mailbox = Mailbox::new();
    let mut session: Session =
        aria.new_session(&mut mailbox, false, &[]).attach(SessionHandle::from_raw(1));
    assert!(matches!(session.poll(&mut mailbox, true), Step::Advance(_)));
    assert_eq!(session.run_result(1), Ok(RunResult::Continue));
    let ctx = session.context();
    body(&ctx)
}

fn status_through_handle(ctx: &PollContext, native: ffi::DownloadStatus) -> DownloadStatus {
    let handle: DownloadHandle = ctx.acquire_handle(1, Some(record(native))).unwrap();
    handle.status()
}

#[test]
fn native_status_maps_one_to_one() {
    assert_eq!(DownloadStatus::from(ffi::DownloadStatus::DOWNLOAD_ACTIVE), DownloadStatus::Active);
    assert_eq!(
        DownloadStatus::from(ffi::DownloadStatus::DOWNLOAD_WAITING),
        DownloadStatus::Waiting
    );
    assert_eq!(DownloadStatus::from(ffi::DownloadStatus::DOWNLOAD_PAUSED), DownloadStatus::Paused);
    assert_eq!(
        DownloadStatus::from(ffi::DownloadStatus::DOWNLOAD_COMPLETE),
        DownloadStatus::Complete
    );
    assert_eq!(DownloadStatus::from(ffi::DownloadStatus::DOWNLOAD_ERROR), DownloadStatus::Error);
    assert_eq!(
        DownloadStatus::from(ffi::DownloadStatus::DOWNLOAD_REMOVED),
        DownloadStatus::Removed
    );
}

#[test]
fn no_handle_for_the_null_gid() {
    with_context(|ctx| {
        assert!(ctx.acquire_handle(0, None).is_none());
        assert!(ctx
            .acquire_handle(0, Some(record(ffi::DownloadStatus::DOWNLOAD_ACTIVE)))
            .is_none());
    });
}

#[test]
fn no_handle_for_a_download_without_record() {
    with_context(|ctx| {
        assert!(ctx.acquire_handle(5, None).is_none());
        assert!(ctx.acquire_handle(u64::MAX, None).is_none());
    });
}

#[test]
fn handle_reads_what_was_reported() {
    with_context(|ctx| {
        let handle = ctx
            .acquire_handle(5, Some(record(ffi::DownloadStatus::DOWNLOAD_ACTIVE)))
            .unwrap();
        assert_eq!(handle.status(), DownloadStatus::Active);
        assert_eq!(handle.total_len(), 4096);
        assert_eq!(handle.completed_len(), 1024);
        assert_eq!(handle.upload_len(), 16);
        assert_eq!(handle.bitfield(), "f0");
        assert_eq!(handle.download_speed(), 300);
        assert_eq!(handle.upload_speed(), 20);
        assert_eq!(handle.info_hash(), "c12fe1c06bba254a9dc9f519b335aa7c1367a88a");
        assert_eq!(handle.piece_len(), 512);
        assert_eq!(handle.num_pieces(), 8);
        assert_eq!(handle.connections(), 2);
        assert_eq!(handle.error_code(), 0);
        assert_eq!(handle.followed_by(), &[21, 22]);
        assert_eq!(handle.following(), None);
        assert_eq!(handle.belongs_to(), None);
        assert_eq!(handle.dir(), "/tmp");
        assert_eq!(handle.options(), vec![pair("dir", "mydownload")]);
    });
}

#[test]
fn related_gids_are_absent_when_null() {
    with_context(|ctx| {
        let mut report = record(ffi::DownloadStatus::DOWNLOAD_WAITING);
        report.following = 9;
        report.belongs_to = 0;
        let handle = ctx.acquire_handle(5, Some(report)).unwrap();
        assert_eq!(handle.following(), Some(9));
        assert_eq!(handle.belongs_to(), None);

        let mut report = record(ffi::DownloadStatus::DOWNLOAD_WAITING);
        report.following = 0;
        report.belongs_to = u64::MAX;
        let handle = ctx.acquire_handle(5, Some(report)).unwrap();
        assert_eq!(handle.following(), None);
        assert_eq!(handle.belongs_to(), Some(u64::MAX));
    });
}

#[test]
fn files_are_counted_from_one() {
    with_context(|ctx| {
        let mut report = record(ffi::DownloadStatus::DOWNLOAD_ACTIVE);
        report.files = vec![
            file(1, "/tmp/a", &["http://localhost/a"]),
            file(2, "/tmp/b", &[]),
            file(3, "/tmp/c", &["http://one/c", "http://two/c"]),
        ];
        let handle = ctx.acquire_handle(5, Some(report)).unwrap();
        assert_eq!(handle.num_files(), 3);
        assert!(handle.get_file(0).is_none());
        assert_eq!(handle.get_file(1).unwrap().path, "/tmp/a");
        assert_eq!(handle.get_file(2).unwrap().path, "/tmp/b");
        assert_eq!(handle.get_file(3).unwrap().path, "/tmp/c");
        assert_eq!(handle.get_file(3).unwrap().length, 3000);
        assert_eq!(handle.get_file(3).unwrap().completed_length, 30);
        assert!(handle.get_file(4).is_none());
        assert!(handle.get_file(u32::MAX).is_none());

        let files = handle.files();
        assert_eq!(files.len(), 3);
        assert_eq!(files[0].index, 1);
        assert_eq!(files[1].index, 2);
        assert_eq!(files[2].index, 3);
        assert_eq!(files[2].uris.len(), 2);
        assert_eq!(files[2].uris[1].uri, "http://two/c");
        assert!(files[1].uris.is_empty());
    });
}

#[test]
fn download_without_files_has_none() {
    with_context(|ctx| {
        let mut report = record(ffi::DownloadStatus::DOWNLOAD_ACTIVE);
        report.files = Vec::new();
        let handle = ctx.acquire_handle(5, Some(report)).unwrap();
        assert_eq!(handle.num_files(), 0);
        assert!(handle.files().is_empty());
        assert!(handle.get_file(0).is_none());
        assert!(handle.get_file(1).is_none());
    });
}

#[test]
fn option_lookup_takes_the_last_pair() {
    with_context(|ctx| {
        let mut report = record(ffi::DownloadStatus::DOWNLOAD_ACTIVE);
        report.options = vec![
            pair("dir", "first"),
            pair("split", "5"),
            pair("dir", "second"),
            pair("empty", ""),
        ];
        let handle = ctx.acquire_handle(5, Some(report)).unwrap();
        assert_eq!(handle.get_option("dir"), "second");
        assert_eq!(handle.get_option("split"), "5");
        assert_eq!(handle.get_option("empty"), "");
        assert_eq!(handle.get_option("unknown"), "");
        assert_eq!(handle.get_option(""), "");
        assert_eq!(handle.get_option("DIR"), "");
        assert_eq!(handle.options().len(), 4);
        assert_eq!(handle.options()[2], pair("dir", "second"));
    });
}

#[test]
fn download_handle() {
    with_context(|ctx| {
        let gid = 0x2089_b05e_cca3_d829u64;
        let mut report = record(ffi::DownloadStatus::DOWNLOAD_ACTIVE);
        report.files = vec![file(1, "/tmp/150", &["https://via.placeholder.com/150"])];
        let handle = ctx.acquire_handle(gid, Some(report)).unwrap();
        assert_eq!(handle.num_files(), 1);
        let file = handle.get_file(1);
        assert!(file.is_some());
    });
}

#[test]
fn test_remove_pause() {
    with_context(|ctx| {
        let gid = 7u64;
        assert_eq!(
            status_through_handle(ctx, ffi::DownloadStatus::DOWNLOAD_WAITING),
            DownloadStatus::Waiting
        );
        assert_eq!(
            status_through_handle(ctx, ffi::DownloadStatus::DOWNLOAD_PAUSED),
            DownloadStatus::Paused
        );
        assert_eq!(
            status_through_handle(ctx, ffi::DownloadStatus::DOWNLOAD_WAITING),
            DownloadStatus::Waiting
        );
        // Once the download is removed the engine has no record of it.
        assert!(ctx.acquire_handle(gid, None).is_none());
    });
}

#[test]
fn test_change_option() {
    with_context(|ctx| {
        let uris = vec!["http://localhost/1".to_string()];
        let mut report = record(ffi::DownloadStatus::DOWNLOAD_WAITING);
        report.files = vec![file(1, "mydownload/1", &["http://localhost/1"])];
        report.options = vec![pair("dir", "mydownload")];
        let handle = ctx.acquire_handle(7, Some(report)).unwrap();
        assert_eq!(handle.num_files(), 1);
        let file = handle.get_file(1).unwrap();
        assert_eq!(file.uris[0].uri, uris[0].as_str());
        assert_eq!(handle.get_option("dir"), "mydownload");
        assert!(handle.get_option("unknown").is_empty());
    });
}

#[test]
fn handle_keeps_its_report_after_the_download_is_gone() {
    with_context(|ctx| {
        let handle = ctx
            .acquire_handle(7, Some(record(ffi::DownloadStatus::DOWNLOAD_ACTIVE)))
            .unwrap();
        // The engine removes the download: a new handle cannot be had, the
        // old one still answers as before.
        assert!(ctx.acquire_handle(7, None).is_none());
        assert_eq!(handle.status(), DownloadStatus::Active);
        assert_eq!(handle.total_len(), 4096);
        assert_eq!(handle.dir(), "/tmp");
        assert_eq!(handle.num_files(), 1);
    });
}
