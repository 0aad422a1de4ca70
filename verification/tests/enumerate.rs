use winsafe::co::{ERROR, HRESULT, ERROR_NO_MORE_FILES};
use winsafe::handles::{ComPtr, HPROCESSLIST};
use winsafe::kernel::hprocesslist::{
    kernel_Hprocesslist, HeapIter, ProcessIter, HEAPLIST32, PROCESSENTRY32,
};
use winsafe::shell::ishellitem::IShellItem;
use winsafe::shell::ishellitemarray::{shell_IShellItemArray, IShellItemArray, ShellItemIter};

fn pe(pid: u32) -> PROCESSENTRY32 {
    PROCESSENTRY32 { th32ProcessID: pid, cntThreads: 1, th32ParentProcessID: 0 }
}

#[test]
fn snapshot_acquisition_classifies() {
    assert_eq!(HPROCESSLIST::CreateToolhelp32Snapshot(0, ERROR(8)), Err(ERROR(8)));
    assert_eq!(HPROCESSLIST::CreateToolhelp32Snapshot(77, ERROR(0)), Ok(HPROCESSLIST(77)));
}

#[test]
fn enumeration_steps_classify() {
    let hpl = HPROCESSLIST(1);
    assert_eq!(hpl.Process32First(1, ERROR(0)), Ok(true));
    assert_eq!(hpl.Process32Next(0, ERROR(ERROR_NO_MORE_FILES)), Ok(false));
    assert_eq!(hpl.Thread32First(0, ERROR(5)), Err(ERROR(5)));
    assert_eq!(hpl.Heap32ListNext(1, ERROR(0)), Ok(true));
    assert_eq!(hpl.Module32First(0, ERROR(ERROR_NO_MORE_FILES)), Ok(false));
}

#[test]
fn process_walk_produces_then_ends() {
    let hpl = HPROCESSLIST(1);
    let mut it = hpl.iter_processes();
    assert!(it.wants_first());
    let r = it.next(1, ERROR(0), pe(4));
    assert_eq!(r, Some(Ok(pe(4))));
    assert!(!it.wants_first());
    let r = it.next(1, ERROR(0), pe(8));
    assert_eq!(r, Some(Ok(pe(8))));
    let r = it.next(0, ERROR(ERROR_NO_MORE_FILES), pe(0));
    assert_eq!(r, None);
    let r = it.next(1, ERROR(0), pe(9));
    assert_eq!(r, None);
}

#[test]
fn process_walk_latches_a_failure() {
    let mut it = ProcessIter::new(HPROCESSLIST(1));
    let r = it.next(0, ERROR(5), pe(0));
    assert_eq!(r, Some(Err(ERROR(5))));
    let r = it.next(1, ERROR(0), pe(3));
    assert_eq!(r, None);
}

#[test]
fn heap_walk_produces_entries() {
    let mut it = HeapIter::new(HPROCESSLIST(2));
    let entry = HEAPLIST32 { th32ProcessID: 10, th32HeapID: 77, dwFlags: 1 };
    assert_eq!(it.next(1, ERROR(0), entry), Some(Ok(entry)));
    assert_eq!(it.next(0, ERROR(ERROR_NO_MORE_FILES), entry), None);
}

#[test]
fn shell_item_array_walk() {
    let arr = IShellItemArray::from_ptr(ComPtr(50));
    assert_eq!(arr.ptr(), ComPtr(50));
    let mut it = arr.iter(HRESULT(0), 2).unwrap();
    assert!(!it.done());
    let r = it.next(Ok(IShellItem::from_ptr(ComPtr(71))));
    assert_eq!(r.unwrap().unwrap().ptr(), ComPtr(71));
    assert_eq!(it.current(), 1);
    let r = it.next(Ok(IShellItem::from_ptr(ComPtr(72))));
    assert_eq!(r.unwrap().unwrap().ptr(), ComPtr(72));
    assert!(it.done());
    let r = it.next(Ok(IShellItem::from_ptr(ComPtr(73))));
    assert!(r.is_none());
}

#[test]
fn shell_item_walk_ends_on_a_failure() {
    let mut it = ShellItemIter::new(HRESULT(0), 3).unwrap();
    let r = it.next(Err(HRESULT(0x80004005)));
    match r {
        Some(Err(e)) => assert_eq!(e, HRESULT(0x80004005)),
        _ => panic!("expected the latched failure"),
    }
    assert!(it.done());
}

#[test]
fn shell_item_walk_needs_a_count() {
    assert!(ShellItemIter::new(HRESULT(0x80004005), 3).is_err());
}
