use libaria2::events::{static_event_callback, DownloadEvent, Mailbox, Message, SendError};
use libaria2::ffi;
use libaria2::ffi::SessionHandle;

fn message(event: ffi::DownloadEvent, gid: u64) -> Message {
    Message { event, gid, user_data: 0 }
}

#[test]
fn native_events_map_to_events() {
    assert_eq!(
        DownloadEvent::from((ffi::DownloadEvent::EVENT_ON_DOWNLOAD_START, 7)),
        DownloadEvent::Started(7)
    );
    assert_eq!(DownloadEvent::from((ffi::DownloadEvent::EVENT_ON_DOWNLOAD_PAUSE, 7)), DownloadEvent::Paused(7));
    assert_eq!(DownloadEvent::from((ffi::DownloadEvent::EVENT_ON_DOWNLOAD_STOP, 7)), DownloadEvent::Stopped(7));
    assert_eq!(
        DownloadEvent::from((ffi::DownloadEvent::EVENT_ON_DOWNLOAD_COMPLETE, 7)),
        DownloadEvent::Completed(7, false)
    );
    assert_eq!(
        DownloadEvent::from((ffi::DownloadEvent::EVENT_ON_BT_DOWNLOAD_COMPLETE, 7)),
        DownloadEvent::Completed(7, true)
    );
    assert_eq!(DownloadEvent::from((ffi::DownloadEvent::EVENT_ON_DOWNLOAD_ERROR, 7)), DownloadEvent::Error(7));
}

#[test]
fn event_carries_its_gid() {
    assert_eq!(DownloadEvent::Started(1).gid(), 1);
    assert_eq!(DownloadEvent::Paused(2).gid(), 2);
    assert_eq!(DownloadEvent::Stopped(3).gid(), 3);
    assert_eq!(DownloadEvent::Completed(4, true).gid(), 4);
    assert_eq!(DownloadEvent::Completed(5, false).gid(), 5);
    assert_eq!(DownloadEvent::Error(u64::MAX).gid(), u64::MAX);
}

#[test]
fn new_mailbox_is_open_and_empty() {
    let mut mailbox = Mailbox::new();
    assert!(mailbox.is_open());
    assert_eq!(mailbox.len(), 0);
    assert_eq!(mailbox.try_recv(), None);
    assert_eq!(mailbox.len(), 0);
}

#[test]
fn mailbox_is_first_in_first_out() {
    let mut mailbox = Mailbox::new();
    let first = message(ffi::DownloadEvent::EVENT_ON_DOWNLOAD_START, 1);
    let second = message(ffi::DownloadEvent::EVENT_ON_DOWNLOAD_PAUSE, 2);
    let third = message(ffi::DownloadEvent::EVENT_ON_DOWNLOAD_STOP, 1);
    assert_eq!(mailbox.send(first), Ok(()));
    assert_eq!(mailbox.send(second), Ok(()));
    assert_eq!(mailbox.len(), 2);
    assert_eq!(mailbox.try_recv(), Some(first));
    assert_eq!(mailbox.send(third), Ok(()));
    assert_eq!(mailbox.try_recv(), Some(second));
    assert_eq!(mailbox.try_recv(), Some(third));
    assert_eq!(mailbox.try_recv(), None);
}

#[test]
fn closed_mailbox_drops_what_is_sent() {
    let mut mailbox = Mailbox::new();
    let kept = message(ffi::DownloadEvent::EVENT_ON_DOWNLOAD_START, 1);
    let lost = message(ffi::DownloadEvent::EVENT_ON_DOWNLOAD_ERROR, 1);
    assert_eq!(mailbox.send(kept), Ok(()));
    mailbox.close();
    assert!(!mailbox.is_open());
    assert_eq!(mailbox.send(lost), Err(SendError { message: lost }));
    assert_eq!(mailbox.len(), 1);
    assert_eq!(mailbox.try_recv(), Some(kept));
    assert_eq!(mailbox.try_recv(), None);
}

#[test]
fn callback_always_answers_zero() {
    let session = SessionHandle::from_raw(9);
    let mut mailbox = Mailbox::new();
    let (code, sent) = static_event_callback(
        &mut mailbox,
        session,
        ffi::DownloadEvent::EVENT_ON_DOWNLOAD_COMPLETE,
        0x0123_4567_89ab_cdef,
        77,
    );
    assert_eq!(code, 0);
    assert_eq!(sent, Ok(()));
    assert_eq!(
        mailbox.try_recv(),
        Some(Message {
            event: ffi::DownloadEvent::EVENT_ON_DOWNLOAD_COMPLETE,
            gid: 0x0123_4567_89ab_cdef,
            user_data: 77,
        })
    );

    mailbox.close();
    let (code, sent) = static_event_callback(
        &mut mailbox,
        session,
        ffi::DownloadEvent::EVENT_ON_DOWNLOAD_STOP,
        5,
        77,
    );
    assert_eq!(code, 0);
    assert_eq!(
        sent,
        Err(SendError {
            message: Message {
                event: ffi::DownloadEvent::EVENT_ON_DOWNLOAD_STOP,
                gid: 5,
                user_data: 77,
            },
        })
    );
    assert_eq!(mailbox.len(), 0);
}
