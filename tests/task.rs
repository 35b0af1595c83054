use csharp_wrapper::ffi::{ArcHeap, BridgedOwnedSharedPtr, BridgedPtr, FromArc, FFI};
use csharp_wrapper::task::{c_text, panic_message, Report, Settlement, Tcb, TcsPtr};
use csharp_wrapper::FfiPtr;

#[derive(Debug, PartialEq)]
struct Answer(u64);

impl FFI for Answer {
    type Origin = FromArc;
}

fn tcb() -> Tcb<&'static str, &'static str> {
    Tcb { tcs: TcsPtr(FfiPtr::from_raw(77)), complete_task: "complete", fail_task: "fail" }
}

#[test]
fn completed_task_reports_complete_once() {
    let mut heap: ArcHeap<Answer> = ArcHeap::new();
    match tcb().settle(&mut heap, Settlement::Completed(Answer(42))) {
        Report::Complete { tcs, complete_task, result } => {
            assert_eq!(tcs.0.to_raw(), 77);
            assert_eq!(complete_task, "complete");
            let typed: BridgedOwnedSharedPtr<Answer> = BridgedPtr::from_raw(result.to_raw().unwrap());
            let back = heap.from_ptr(typed).unwrap();
            assert_eq!(*back, Answer(42));
        }
        Report::Fail { .. } => panic!("a completed task must not fail"),
    }
}

#[test]
fn failed_task_reports_error_text() {
    let mut heap: ArcHeap<Answer> = ArcHeap::new();
    let text = b"connection refused".to_vec();
    match tcb().settle(&mut heap, Settlement::Failed(text.clone())) {
        Report::Fail { tcs, fail_task, message } => {
            assert_eq!(tcs.0.to_raw(), 77);
            assert_eq!(fail_task, "fail");
            assert_eq!(message, text);
        }
        Report::Complete { .. } => panic!("a failed task must not complete"),
    }
}

#[test]
fn panicked_task_reports_panic_message() {
    let mut heap: ArcHeap<Answer> = ArcHeap::new();
    match tcb().settle(&mut heap, Settlement::Panicked(Some(b"boom".to_vec()))) {
        Report::Fail { message, .. } => {
            let text = String::from_utf8(message).unwrap();
            assert!(text.contains("boom"));
        }
        Report::Complete { .. } => panic!("a panicked task must not complete"),
    }
}

#[test]
fn panic_without_string_payload_uses_generic_message() {
    let mut heap: ArcHeap<Answer> = ArcHeap::new();
    match tcb().settle(&mut heap, Settlement::Panicked(None)) {
        Report::Fail { message, .. } => {
            assert_eq!(message, b"Weird panic with non-string payload".to_vec());
        }
        Report::Complete { .. } => panic!("a panicked task must not complete"),
    }
}

#[test]
fn message_stops_at_first_nul() {
    assert_eq!(c_text(&b"bad\0tail".to_vec()), b"bad".to_vec());
    assert_eq!(c_text(&b"plain".to_vec()), b"plain".to_vec());
    assert_eq!(c_text(&Vec::new()), Vec::<u8>::new());
    assert_eq!(c_text(&b"\0".to_vec()), Vec::<u8>::new());
}

#[test]
fn panic_message_keeps_string_payload() {
    assert_eq!(panic_message(Some(b"oops".to_vec())), b"oops".to_vec());
    assert_eq!(panic_message(None), b"Weird panic with non-string payload".to_vec());
}

#[test]
fn error_text_with_nul_is_cut_at_the_nul() {
    let mut heap: ArcHeap<Answer> = ArcHeap::new();
    match tcb().settle(&mut heap, Settlement::Failed(b"bad\0rest".to_vec())) {
        Report::Fail { message, .. } => assert_eq!(message, b"bad".to_vec()),
        Report::Complete { .. } => panic!("a failed task must not complete"),
    }
}

#[test]
fn failed_task_exports_nothing() {
    let mut heap: ArcHeap<Answer> = ArcHeap::new();
    let _ = tcb().settle(&mut heap, Settlement::Failed(b"e".to_vec()));
    assert!(heap.has_room());
    let p = heap.into_ptr(std::sync::Arc::new(Answer(1)));
    assert_eq!(p.to_raw(), Some(1));
}
