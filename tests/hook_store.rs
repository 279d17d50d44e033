use hook_store::{AccessError, HookList, HookValue, Kind, ReadError, Teardown};

fn text(s: &str) -> HookValue {
    HookValue::Text(s.to_string())
}

#[test]
fn int_then_text_scenario() {
    let mut s = HookList::new();
    s.push_hook(HookValue::Int(1), Teardown::Nothing);
    s.push_hook(text("a"), Teardown::Nothing);
    s.reset();
    let h = s.next(Kind::Int).unwrap();
    assert_eq!(s.get(h), Some(&HookValue::Int(1)));
    assert_eq!(s.cur_idx(), 1);
    let h = s.next(Kind::Text).unwrap();
    assert_eq!(s.get(h), Some(&text("a")));
    assert_eq!(s.cur_idx(), 2);
    assert_eq!(s.next(Kind::Int), Err(ReadError::Exhausted));
    assert_eq!(s.cur_idx(), 2);
    assert!(s.at_end());
}

#[test]
fn type_mismatch_scenario() {
    let mut s = HookList::new();
    s.push_hook(HookValue::Int(1), Teardown::Nothing);
    s.reset();
    assert_eq!(s.next(Kind::Text), Err(ReadError::Mismatch));
    assert_eq!(s.cur_idx(), 0);
    // the entry is untouched and still readable with its own kind
    let h = s.next(Kind::Int).unwrap();
    assert_eq!(s.get(h), Some(&HookValue::Int(1)));
}

#[test]
fn teardown_log_scenario() {
    let mut s = HookList::new();
    s.push_hook(HookValue::Int(10), Teardown::Record(0));
    s.push_hook(text("x"), Teardown::Record(1));
    s.push_hook(HookValue::Flag(true), Teardown::Record(2));
    assert_eq!(s.destroy(), vec![0, 1, 2]);
}

#[test]
fn order_kept_across_cycles() {
    let mut s = HookList::new();
    // first cycle registers two hooks
    assert_eq!(s.next(Kind::Int), Err(ReadError::Exhausted));
    s.push_hook(HookValue::Int(-3), Teardown::Nothing);
    assert!(s.next(Kind::Int).is_ok());
    assert_eq!(s.next(Kind::Flag), Err(ReadError::Exhausted));
    s.push_hook(HookValue::Flag(false), Teardown::Nothing);
    assert!(s.next(Kind::Flag).is_ok());
    // second cycle reads both and registers a third
    s.reset();
    assert!(s.next(Kind::Int).is_ok());
    assert!(s.next(Kind::Flag).is_ok());
    assert_eq!(s.next(Kind::Uint), Err(ReadError::Exhausted));
    s.push_hook(HookValue::Uint(9), Teardown::Nothing);
    for _ in 0..3 {
        s.reset();
        let a = s.next(Kind::Int).unwrap();
        let b = s.next(Kind::Flag).unwrap();
        let c = s.next(Kind::Uint).unwrap();
        assert_eq!((a.index, b.index, c.index), (0, 1, 2));
        assert_eq!(s.get(a), Some(&HookValue::Int(-3)));
        assert_eq!(s.get(b), Some(&HookValue::Flag(false)));
        assert_eq!(s.get(c), Some(&HookValue::Uint(9)));
        assert!(s.at_end());
    }
}

#[test]
fn empty_store_is_exhausted() {
    let mut s = HookList::new();
    assert_eq!(s.len(), 0);
    assert!(s.at_end());
    assert_eq!(s.next(Kind::Text), Err(ReadError::Exhausted));
    assert_eq!(s.cur_idx(), 0);
    assert_eq!(s.destroy(), Vec::<u64>::new());
}

#[test]
fn register_keeps_cursor() {
    let mut s = HookList::new();
    s.push_hook(HookValue::Int(1), Teardown::Nothing);
    s.push_hook(HookValue::Int(2), Teardown::Nothing);
    s.reset();
    s.next(Kind::Int).unwrap();
    assert_eq!(s.cur_idx(), 1);
    s.push_hook(text("late"), Teardown::Nothing);
    assert_eq!(s.cur_idx(), 1);
    assert_eq!(s.len(), 3);
    assert!(!s.at_end());
}

#[test]
fn rewind_twice_same_as_once() {
    let mut s = HookList::new();
    s.push_hook(HookValue::Int(1), Teardown::Nothing);
    s.reset();
    let h = s.next(Kind::Int).unwrap();
    s.reset();
    assert_eq!(s.cur_idx(), 0);
    let once = s.next(Kind::Int).unwrap();
    s.reset();
    s.reset();
    assert_eq!(s.cur_idx(), 0);
    let twice = s.next(Kind::Int).unwrap();
    assert_eq!(twice.generation, once.generation + 1);
    assert_eq!(once.generation, h.generation + 1);
}

#[test]
fn teardown_runs_once_each_in_order() {
    let mut s = HookList::new();
    for i in 0..5u64 {
        s.push_hook(HookValue::Uint(i), Teardown::Record(100 + i));
    }
    assert_eq!(s.destroy(), vec![100, 101, 102, 103, 104]);
}

#[test]
fn teardown_sees_final_value() {
    let mut s = HookList::new();
    s.push_hook(HookValue::Uint(1), Teardown::RecordCount);
    s.push_hook(HookValue::Int(7), Teardown::RecordCount);
    s.push_hook(HookValue::Uint(4), Teardown::Nothing);
    s.reset();
    let h = s.next(Kind::Uint).unwrap();
    assert_eq!(s.set(h, HookValue::Uint(42)), Ok(()));
    assert_eq!(s.destroy(), vec![42]);
}

#[test]
fn stale_handle_refused_after_reset() {
    let mut s = HookList::new();
    s.push_hook(HookValue::Int(1), Teardown::Nothing);
    s.reset();
    let h = s.next(Kind::Int).unwrap();
    s.reset();
    assert_eq!(s.get(h), None);
    assert_eq!(s.set(h, HookValue::Int(2)), Err(AccessError::Stale));
    let fresh = s.next(Kind::Int).unwrap();
    assert_eq!(s.get(fresh), Some(&HookValue::Int(1)));
}

#[test]
fn handle_not_yet_reached_is_stale() {
    let mut s = HookList::new();
    s.push_hook(HookValue::Int(1), Teardown::Nothing);
    s.push_hook(HookValue::Int(2), Teardown::Nothing);
    s.reset();
    let h = s.next(Kind::Int).unwrap();
    let ahead = hook_store::Handle { index: h.index + 1, generation: h.generation };
    assert_eq!(s.get(ahead), None);
}

#[test]
fn set_keeps_kind() {
    let mut s = HookList::new();
    s.push_hook(text("a"), Teardown::Nothing);
    s.reset();
    let h = s.next(Kind::Text).unwrap();
    assert_eq!(s.set(h, HookValue::Int(3)), Err(AccessError::Mismatch));
    assert_eq!(s.get(h), Some(&text("a")));
    assert_eq!(s.set(h, text("b")), Ok(()));
    assert_eq!(s.get(h), Some(&text("b")));
    s.reset();
    let h = s.next(Kind::Text).unwrap();
    assert_eq!(s.get(h), Some(&text("b")));
}

#[test]
fn value_kinds() {
    assert_eq!(HookValue::Int(0).kind(), Kind::Int);
    assert_eq!(HookValue::Uint(0).kind(), Kind::Uint);
    assert_eq!(HookValue::Flag(true).kind(), Kind::Flag);
    assert_eq!(text("").kind(), Kind::Text);
}

#[test]
fn teardown_run_appends() {
    let mut log = vec![5];
    Teardown::Record(6).run(&HookValue::Flag(true), &mut log);
    Teardown::Nothing.run(&HookValue::Uint(1), &mut log);
    Teardown::RecordCount.run(&HookValue::Uint(8), &mut log);
    Teardown::RecordCount.run(&text("n"), &mut log);
    assert_eq!(log, vec![5, 6, 8]);
}

#[test]
fn default_is_empty() {
    let s = HookList::default();
    assert_eq!(s.len(), 0);
    assert_eq!(s.cur_idx(), 0);
    assert!(s.at_end());
}
