use pollua::call::{Caller, ReturnValues};
use pollua::error::{ErrorKind, LUA_ERRRUN, LUA_OK};
use pollua::thread::Thread;
use pollua::value::{ValueType, LUA_TFUNCTION, LUA_TNIL};

fn thread_with_globals() -> Thread {
    let mut thread = Thread::open(true).unwrap();
    // the host left a few values of its own on the stack
    thread.set_top(2);
    thread
}

fn lookup(thread: &mut Thread) -> Caller {
    thread.caller_global(LUA_TFUNCTION).unwrap()
}

fn release(values: ReturnValues, thread: &mut Thread) {
    values.release(thread);
}

#[test]
fn test_call_global_no_args() {
    let mut thread = thread_with_globals();
    let top = thread.top();

    // Dropping the caller without calling should pop the stack.
    let caller = lookup(&mut thread);
    assert_eq!(caller.abandon(&mut thread), 1);
    assert_eq!(thread.top(), top);

    let caller = lookup(&mut thread);
    let values = caller.calln_unprotected(&mut thread, 0, vec![]);
    assert_eq!(values.get(0), None);
    release(values, &mut thread);
    assert_eq!(thread.top(), top);

    let caller = lookup(&mut thread);
    let returned = vec![ValueType::Boolean, ValueType::Number, ValueType::String];
    let values = caller.call(&mut thread, LUA_OK, returned, None).unwrap();
    assert_eq!(values.index(0), ValueType::Boolean);
    assert_eq!(values.index(1), ValueType::Number);
    assert_eq!(values.index(2), ValueType::String);
    assert_eq!(values.get(3), None);
    release(values, &mut thread);
    assert_eq!(thread.top(), top);

    let caller = lookup(&mut thread);
    let returned = vec![ValueType::Boolean, ValueType::Number];
    let values = caller.calln(&mut thread, 2, LUA_OK, returned, None).unwrap();
    assert_eq!(values.get(0), Some(ValueType::Boolean));
    assert_eq!(values.get(1), Some(ValueType::Number));
    assert_eq!(values.get(2), None);
    release(values, &mut thread);
    assert_eq!(thread.top(), top);

    let caller = lookup(&mut thread);
    let returned = vec![
        ValueType::Boolean,
        ValueType::Number,
        ValueType::String,
        ValueType::Nil,
    ];
    let values = caller.calln_unprotected(&mut thread, 4, returned);
    assert_eq!(values.index(0), ValueType::Boolean);
    assert_eq!(values.index(1), ValueType::Number);
    assert_eq!(values.get(2), Some(ValueType::String));
    assert_eq!(values.get(3), Some(ValueType::Nil));
    assert_eq!(values.get(4), None);
    release(values, &mut thread);
    assert_eq!(thread.top(), top);
}

#[test]
fn test_call_iter() {
    let mut thread = thread_with_globals();
    let top = thread.top();

    let values = lookup(&mut thread).calln_unprotected(&mut thread, 0, vec![]);
    {
        let mut iter = values.iter();
        assert_eq!(iter.len(), 0);
        assert_eq!(iter.next(), None);
        assert_eq!(iter.next_back(), None);
    }
    release(values, &mut thread);
    assert_eq!(thread.top(), top);

    let returned = vec![
        ValueType::Function,
        ValueType::Boolean,
        ValueType::LightUserdata,
        ValueType::Number,
        ValueType::String,
    ];
    let values = lookup(&mut thread)
        .call(&mut thread, LUA_OK, returned, None)
        .unwrap();
    {
        let mut iter = values.iter();
        assert_eq!(iter.len(), 5);
        assert_eq!(iter.next(), Some(ValueType::Function));
        assert_eq!(iter.next(), Some(ValueType::Boolean));
        assert_eq!(iter.next_back(), Some(ValueType::String));
        assert_eq!(iter.next_back(), Some(ValueType::Number));
        assert_eq!(iter.len(), 1);
        assert_eq!(iter.next(), Some(ValueType::LightUserdata));
        assert_eq!(iter.next(), None);
        assert_eq!(iter.next_back(), None);
    }
    release(values, &mut thread);
    assert_eq!(thread.top(), top);
}

#[test]
fn test_call_error() {
    let mut thread = thread_with_globals();
    let err = lookup(&mut thread)
        .call(&mut thread, LUA_ERRRUN, vec![], None)
        .unwrap_err();
    assert_eq!(err.kind(), ErrorKind::Runtime);
}

#[test]
fn test_call_sum() {
    let mut thread = thread_with_globals();
    let top = thread.top();

    // no argument: the callee raises an error
    let err = lookup(&mut thread)
        .call(&mut thread, LUA_ERRRUN, vec![], None)
        .unwrap_err();
    assert_eq!(err.kind(), ErrorKind::Runtime);
    assert_eq!(thread.top(), top);

    // 42.0 and nil: the callee rejects the nil
    let caller = lookup(&mut thread).arg(&mut thread).arg(&mut thread);
    assert_eq!(caller.nargs(), 2);
    let msg = b"bad argument #2 to 'test_sum' (number expected, got nil)".to_vec();
    let err = caller
        .call(&mut thread, LUA_ERRRUN, vec![], Some(msg))
        .unwrap_err();
    assert_eq!(err.kind(), ErrorKind::Runtime);
    assert_eq!(
        err.msg(),
        Some("bad argument #2 to 'test_sum' (number expected, got nil)")
    );
    assert_eq!(thread.top(), top);

    // 1.0 and 2.0
    let caller = lookup(&mut thread).arg(&mut thread).arg(&mut thread);
    let values = caller
        .call(&mut thread, LUA_OK, vec![ValueType::Number], None)
        .unwrap();
    assert_eq!(values.get(0), Some(ValueType::Number));
    assert_eq!(values.get(1), None);
    release(values, &mut thread);
    assert_eq!(thread.top(), top);

    // -2.0, "24" and 7.2
    let caller = lookup(&mut thread)
        .arg(&mut thread)
        .arg(&mut thread)
        .arg(&mut thread);
    assert_eq!(thread.top(), top + 4);
    let values = caller
        .call(&mut thread, LUA_OK, vec![ValueType::Number], None)
        .unwrap();
    assert_eq!(values.get(0), Some(ValueType::Number));
    assert_eq!(values.get(1), None);
    release(values, &mut thread);
    assert_eq!(thread.top(), top);
}

#[test]
fn lookup_of_non_function_gives_no_caller() {
    let mut thread = thread_with_globals();
    let top = thread.top();
    assert!(thread.caller_global(LUA_TNIL).is_none());
    assert_eq!(thread.top(), top);
}

#[test]
fn abandon_after_arguments_restores_depth() {
    let mut thread = thread_with_globals();
    let top = thread.top();
    let caller = lookup(&mut thread)
        .arg(&mut thread)
        .arg(&mut thread)
        .arg(&mut thread);
    assert_eq!(thread.top(), top + 4);
    assert_eq!(caller.base(), top);
    assert_eq!(caller.abandon(&mut thread), 4);
    assert_eq!(thread.top(), top);
}

#[test]
fn add_scenario_returns_one_number() {
    let mut thread = thread_with_globals();
    let top = thread.top();
    let caller = lookup(&mut thread).arg(&mut thread).arg(&mut thread);
    let values = caller
        .call(&mut thread, LUA_OK, vec![ValueType::Number], None)
        .unwrap();
    assert_eq!(values.len(), 1);
    assert!(!values.is_empty());
    assert_eq!(values.get(0), Some(ValueType::Number));
    assert_eq!(thread.top(), top + 1);
    assert_eq!(values.release(&mut thread), 1);
    assert_eq!(thread.top(), top);
}

#[test]
fn raising_callee_gives_exact_message_and_balanced_stack() {
    let mut thread = thread_with_globals();
    let top = thread.top();
    let msg = b"boom: something went wrong".to_vec();
    let err = lookup(&mut thread)
        .arg(&mut thread)
        .call(&mut thread, LUA_ERRRUN, vec![], Some(msg))
        .unwrap_err();
    assert_eq!(err.kind(), ErrorKind::Runtime);
    assert_eq!(err.msg(), Some("boom: something went wrong"));
    assert_eq!(thread.top(), top);
}

#[test]
fn results_iterate_backwards_in_reverse() {
    let mut thread = thread_with_globals();
    let returned = vec![ValueType::Table, ValueType::Nil, ValueType::Thread];
    let values = lookup(&mut thread)
        .call(&mut thread, LUA_OK, returned, None)
        .unwrap();
    let mut iter = values.iter();
    assert_eq!(iter.next_back(), Some(ValueType::Thread));
    assert_eq!(iter.next_back(), Some(ValueType::Nil));
    assert_eq!(iter.next_back(), Some(ValueType::Table));
    assert_eq!(iter.next_back(), None);
    assert_eq!(values.stack_index(0), -3);
    assert_eq!(values.stack_index(2), -1);
}

#[test]
fn empty_results() {
    let mut thread = thread_with_globals();
    let values = lookup(&mut thread)
        .call(&mut thread, LUA_OK, vec![], None)
        .unwrap();
    assert!(values.is_empty());
    assert_eq!(values.len(), 0);
    assert_eq!(values.get(0), None);
    assert_eq!(values.release(&mut thread), 0);
    assert_eq!(thread.top(), 2);
}
