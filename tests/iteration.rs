use dwrote::cursor::CollectionCursor;
use dwrote::handle::{ComPtr, RefOp};
use dwrote::ledger::RefLedger;

struct Collection;

#[test]
fn cursor_yields_exactly_count_indices() {
    let c: ComPtr<Collection> = ComPtr::take(3);
    let (mut cursor, op) = CollectionCursor::new(&c, 3);
    assert_eq!(op, RefOp::AddRef(3));
    assert_eq!(cursor.next_index(), Some(0));
    assert_eq!(cursor.next_index(), Some(1));
    assert_eq!(cursor.next_index(), Some(2));
    for _ in 0..5 {
        assert_eq!(cursor.next_index(), None);
    }
}

#[test]
fn cursor_over_empty_collection() {
    let c: ComPtr<Collection> = ComPtr::take(8);
    let (mut cursor, _) = CollectionCursor::new(&c, 0);
    assert_eq!(cursor.next_index(), None);
    assert_eq!(cursor.next_index(), None);
}

#[test]
fn cursor_holds_its_own_reference() {
    let mut ledger = RefLedger::new();
    let a = ledger.create();
    let mut c: ComPtr<Collection> = ComPtr::take(a);
    let (mut cursor, op) = CollectionCursor::new(&c, 2);
    assert!(ledger.perform(op));
    assert!(ledger.perform(c.release()));
    assert_eq!(ledger.count(a), 1);
    assert_eq!(cursor.collection().as_raw(), a);
    assert_eq!(cursor.next_index(), Some(0));
    let close = cursor.close();
    assert_eq!(close, RefOp::Release(a));
    assert!(ledger.perform(close));
    assert_eq!(ledger.count(a), 0);
    assert!(cursor.collection().is_null());
    assert_eq!(cursor.close(), RefOp::Nothing);
}

#[test]
fn cursor_with_largest_count_starts_at_zero() {
    let c: ComPtr<Collection> = ComPtr::take(1);
    let (mut cursor, _) = CollectionCursor::new(&c, u32::MAX);
    assert_eq!(cursor.next_index(), Some(0));
    assert_eq!(cursor.next_index(), Some(1));
}
