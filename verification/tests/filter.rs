//! The event filter: only a close of a file open for writing is eligible.

use watchpost::event::EventKind;
use watchpost::event::RawChangeEvent;
use watchpost::event::is_eligible;

fn event_of(kind: EventKind) -> RawChangeEvent {
    RawChangeEvent { kind, paths: vec![Some(String::from("/data/file.txt"))] }
}

#[test]
fn close_write_is_eligible() {
    assert!(is_eligible(&event_of(EventKind::CloseWrite)));
}

#[test]
fn no_other_kind_is_eligible() {
    let others = [
        EventKind::Create,
        EventKind::Modify,
        EventKind::Remove,
        EventKind::Rename,
        EventKind::OtherAccess,
        EventKind::Other,
    ];
    for kind in others {
        assert!(!is_eligible(&event_of(kind)));
    }
}

#[test]
fn eligibility_ignores_the_paths() {
    let pathless = RawChangeEvent { kind: EventKind::CloseWrite, paths: vec![] };
    assert!(is_eligible(&pathless));
}
