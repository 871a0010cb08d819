use jhook::dispatch::{
    native_result, raw_trampoline, CallAction, CallEvent, CallState, CallbackCall, NativeResult,
    TrampolineUserData,
};
use jhook::handles::{SafeJClass, SafeJMethodId};
use jhook::original::{call_original, select_call, JniCall, OriginalCall};
use jhook::registry::{HookInfo, HookRegistry};
use jhook::signature::{parse_jvm_sig, JTypeKind};
use jhook::value::{demarshal, marshal, marshal_all, slot_width, zero_value, CallValue};

fn entry(callback: u64, is_static: bool) -> HookInfo {
    HookInfo::new(callback, SafeJMethodId::new(0xAA00), SafeJClass::new(0xC1A5), is_static)
}

fn user_data(id: usize, descriptor: &str) -> TrampolineUserData {
    TrampolineUserData { method_id: SafeJMethodId::new(id), sig: parse_jvm_sig(descriptor).unwrap() }
}

fn run_deferring(ret_letter: &str, is_static: bool, raw_result: u64) -> (CallAction, CallAction) {
    let mut registry = HookRegistry::new();
    registry.insert(SafeJMethodId::new(5), entry(9, is_static));
    let ud = user_data(5, &format!("(I){}", ret_letter));
    let (s1, a1) = raw_trampoline(
        &registry,
        &ud,
        CallState::Idle,
        CallEvent::Invoked { this: 0x7715, raw_args: vec![7] },
    );
    assert!(matches!(a1, CallAction::InvokeCallback(_)));
    let (s2, a2) = raw_trampoline(&registry, &ud, s1, CallEvent::CallbackReturned(None));
    match &s2 {
        CallState::InOriginal { args } => assert_eq!(args, &vec![CallValue::Int(7)]),
        _ => panic!("the original is not running"),
    }
    let (s3, a3) = raw_trampoline(&registry, &ud, s2, CallEvent::OriginalReturned(raw_result));
    assert!(matches!(s3, CallState::Finished));
    (a2, a3)
}

#[test]
fn registry_insert_lookup_remove() {
    let mut r = HookRegistry::new();
    assert!(r.is_empty());
    assert_eq!(r.lookup(SafeJMethodId::new(1)), None);
    r.insert(SafeJMethodId::new(1), entry(3, false));
    assert!(r.contains(SafeJMethodId::new(1)));
    assert!(!r.contains(SafeJMethodId::new(2)));
    assert_eq!(r.len(), 1);
    assert_eq!(r.lookup(SafeJMethodId::new(1)), Some(entry(3, false)));
    assert_eq!(r.remove(SafeJMethodId::new(1)), Some(entry(3, false)));
    assert_eq!(r.remove(SafeJMethodId::new(1)), None);
    assert!(r.is_empty());
}

#[test]
fn registry_second_insert_wins() {
    let mut r = HookRegistry::new();
    r.insert(SafeJMethodId::new(1), entry(3, false));
    r.insert(SafeJMethodId::new(1), entry(4, true));
    assert_eq!(r.len(), 1);
    assert_eq!(r.lookup(SafeJMethodId::new(1)), Some(entry(4, true)));
}

#[test]
fn registry_keeps_other_identities_apart() {
    let mut r = HookRegistry::new();
    r.insert(SafeJMethodId::new(1), entry(3, false));
    r.insert(SafeJMethodId::new(2), entry(4, true));
    assert_eq!(r.lookup(SafeJMethodId::new(1)), Some(entry(3, false)));
    r.remove(SafeJMethodId::new(2));
    assert_eq!(r.lookup(SafeJMethodId::new(1)), Some(entry(3, false)));
    assert_eq!(r.len(), 1);
}

#[test]
fn selects_the_entry_point_for_each_mode_and_kind() {
    assert_eq!(select_call(true, JTypeKind::Void), JniCall::CallStaticVoidMethodA);
    assert_eq!(select_call(false, JTypeKind::Void), JniCall::CallNonvirtualVoidMethodA);
    assert_eq!(select_call(true, JTypeKind::Boolean), JniCall::CallStaticBooleanMethodA);
    assert_eq!(select_call(false, JTypeKind::Boolean), JniCall::CallNonvirtualBooleanMethodA);
    assert_eq!(select_call(true, JTypeKind::Byte), JniCall::CallStaticByteMethodA);
    assert_eq!(select_call(false, JTypeKind::Byte), JniCall::CallNonvirtualByteMethodA);
    assert_eq!(select_call(true, JTypeKind::Char), JniCall::CallStaticCharMethodA);
    assert_eq!(select_call(false, JTypeKind::Char), JniCall::CallNonvirtualCharMethodA);
    assert_eq!(select_call(true, JTypeKind::Short), JniCall::CallStaticShortMethodA);
    assert_eq!(select_call(false, JTypeKind::Short), JniCall::CallNonvirtualShortMethodA);
    assert_eq!(select_call(true, JTypeKind::Int), JniCall::CallStaticIntMethodA);
    assert_eq!(select_call(false, JTypeKind::Int), JniCall::CallNonvirtualIntMethodA);
    assert_eq!(select_call(true, JTypeKind::Long), JniCall::CallStaticLongMethodA);
    assert_eq!(select_call(false, JTypeKind::Long), JniCall::CallNonvirtualLongMethodA);
    assert_eq!(select_call(true, JTypeKind::Float), JniCall::CallStaticFloatMethodA);
    assert_eq!(select_call(false, JTypeKind::Float), JniCall::CallNonvirtualFloatMethodA);
    assert_eq!(select_call(true, JTypeKind::Double), JniCall::CallStaticDoubleMethodA);
    assert_eq!(select_call(false, JTypeKind::Double), JniCall::CallNonvirtualDoubleMethodA);
    assert_eq!(select_call(true, JTypeKind::Object), JniCall::CallStaticObjectMethodA);
    assert_eq!(select_call(false, JTypeKind::Object), JniCall::CallNonvirtualObjectMethodA);
}

#[test]
fn shapes_the_original_call() {
    let class = SafeJClass::new(2);
    let method = SafeJMethodId::new(3);
    assert_eq!(
        call_original(1, class, method, false, JTypeKind::Int),
        OriginalCall {
            function: JniCall::CallNonvirtualIntMethodA,
            receiver: Some(1),
            class,
            method,
        }
    );
    assert_eq!(
        call_original(1, class, method, true, JTypeKind::Object),
        OriginalCall {
            function: JniCall::CallStaticObjectMethodA,
            receiver: None,
            class,
            method,
        }
    );
}

#[test]
fn marshals_raw_slots_by_kind() {
    assert_eq!(marshal(JTypeKind::Boolean, 0x1FF), CallValue::Boolean(0xFF));
    assert_eq!(marshal(JTypeKind::Byte, 0xFF), CallValue::Byte(-1));
    assert_eq!(marshal(JTypeKind::Char, 0x1_FFFE), CallValue::Char(0xFFFE));
    assert_eq!(marshal(JTypeKind::Short, 0x8000), CallValue::Short(-32768));
    assert_eq!(marshal(JTypeKind::Int, 0xFFFF_FFFF), CallValue::Int(-1));
    assert_eq!(marshal(JTypeKind::Long, u64::MAX), CallValue::Long(-1));
    assert_eq!(marshal(JTypeKind::Float, 0x3F80_0000), CallValue::Float(0x3F80_0000));
    assert_eq!(marshal(JTypeKind::Float, 1.5f32.to_bits() as u64), CallValue::Float(1.5f32.to_bits()));
    assert_eq!(marshal(JTypeKind::Double, 2.5f64.to_bits()), CallValue::Double(2.5f64.to_bits()));
    assert_eq!(marshal(JTypeKind::Object, 0x1234), CallValue::Object(0x1234));
    assert_eq!(marshal(JTypeKind::Void, 99), CallValue::Void);
}

#[test]
fn demarshals_values_to_raw_slots() {
    assert_eq!(demarshal(CallValue::Void), 0);
    assert_eq!(demarshal(CallValue::Boolean(1)), 1);
    assert_eq!(demarshal(CallValue::Byte(-1)), 0xFF);
    assert_eq!(demarshal(CallValue::Char(0xABCD)), 0xABCD);
    assert_eq!(demarshal(CallValue::Short(-2)), 0xFFFE);
    assert_eq!(demarshal(CallValue::Int(-1)), 0xFFFF_FFFF);
    assert_eq!(demarshal(CallValue::Long(-1)), u64::MAX);
    assert_eq!(demarshal(CallValue::Float(7)), 7);
    assert_eq!(demarshal(CallValue::Double(8)), 8);
    assert_eq!(demarshal(CallValue::Object(9)), 9);
}

#[test]
fn marshal_and_demarshal_round_trip() {
    let values = [
        CallValue::Boolean(1),
        CallValue::Byte(-128),
        CallValue::Char(65),
        CallValue::Short(-1234),
        CallValue::Int(i32::MIN),
        CallValue::Long(i64::MIN),
        CallValue::Float(0x7FC0_0000),
        CallValue::Double(u64::MAX),
        CallValue::Object(usize::MAX),
        CallValue::Void,
    ];
    for v in values {
        assert_eq!(marshal(v.kind_of(), demarshal(v)), v);
    }
}

#[test]
fn slot_widths_and_zero_values() {
    assert_eq!(slot_width(JTypeKind::Void), 0);
    assert_eq!(slot_width(JTypeKind::Boolean), 1);
    assert_eq!(slot_width(JTypeKind::Byte), 1);
    assert_eq!(slot_width(JTypeKind::Char), 2);
    assert_eq!(slot_width(JTypeKind::Short), 2);
    assert_eq!(slot_width(JTypeKind::Int), 4);
    assert_eq!(slot_width(JTypeKind::Float), 4);
    assert_eq!(slot_width(JTypeKind::Long), 8);
    assert_eq!(slot_width(JTypeKind::Double), 8);
    assert_eq!(slot_width(JTypeKind::Object), std::mem::size_of::<usize>());
    assert_eq!(zero_value(JTypeKind::Int), CallValue::Int(0));
    assert_eq!(zero_value(JTypeKind::Object), CallValue::Object(0));
    assert_eq!(zero_value(JTypeKind::Void), CallValue::Void);
}

#[test]
fn marshal_all_checks_the_number_of_slots() {
    let kinds = vec![JTypeKind::Int, JTypeKind::Boolean];
    assert_eq!(
        marshal_all(&kinds, &vec![5, 1]),
        Some(vec![CallValue::Int(5), CallValue::Boolean(1)])
    );
    assert_eq!(marshal_all(&kinds, &vec![5]), None);
}

#[test]
fn native_result_of_void_writes_nothing() {
    assert_eq!(
        native_result(JTypeKind::Void, CallValue::Int(5)),
        NativeResult { bits: 0, width: 0 }
    );
    assert_eq!(
        native_result(JTypeKind::Short, CallValue::Short(-1)),
        NativeResult { bits: 0xFFFF, width: 2 }
    );
}

#[test]
fn callback_value_is_returned_to_the_host() {
    let mut registry = HookRegistry::new();
    registry.insert(SafeJMethodId::new(5), entry(9, false));
    let ud = user_data(5, "(IJLjava/lang/String;)Z");
    let (s1, a1) = raw_trampoline(
        &registry,
        &ud,
        CallState::Idle,
        CallEvent::Invoked { this: 0x7715, raw_args: vec![0xFFFF_FFFF, 12, 0x5000] },
    );
    assert_eq!(
        a1,
        CallAction::InvokeCallback(CallbackCall {
            callback: 9,
            this: 0x7715,
            class: SafeJClass::new(0xC1A5),
            original_method: SafeJMethodId::new(0xAA00),
        })
    );
    match &s1 {
        CallState::InCallback { info, this, args } => {
            assert_eq!(*info, entry(9, false));
            assert_eq!(*this, 0x7715);
            assert_eq!(
                args,
                &vec![CallValue::Int(-1), CallValue::Long(12), CallValue::Object(0x5000)]
            );
        }
        _ => panic!("the callback is not running"),
    }
    let (s2, a2) =
        raw_trampoline(&registry, &ud, s1, CallEvent::CallbackReturned(Some(CallValue::Boolean(1))));
    assert!(matches!(s2, CallState::Finished));
    assert_eq!(a2, CallAction::Return(NativeResult { bits: 1, width: 1 }));
}

#[test]
fn deferring_callback_is_transparent_for_every_return_kind() {
    let cases: [(&str, u64, u64, usize, JniCall); 10] = [
        ("V", 0x55, 0, 0, JniCall::CallNonvirtualVoidMethodA),
        ("Z", 1, 1, 1, JniCall::CallNonvirtualBooleanMethodA),
        ("B", 0x80, 0x80, 1, JniCall::CallNonvirtualByteMethodA),
        ("C", 0xFFFF, 0xFFFF, 2, JniCall::CallNonvirtualCharMethodA),
        ("S", 0x8001, 0x8001, 2, JniCall::CallNonvirtualShortMethodA),
        ("I", 0xDEAD_BEEF, 0xDEAD_BEEF, 4, JniCall::CallNonvirtualIntMethodA),
        ("J", 0x0123_4567_89AB_CDEF, 0x0123_4567_89AB_CDEF, 8, JniCall::CallNonvirtualLongMethodA),
        ("F", 0x4049_0FDB, 0x4049_0FDB, 4, JniCall::CallNonvirtualFloatMethodA),
        ("D", 0x4009_21FB_5444_2D18, 0x4009_21FB_5444_2D18, 8, JniCall::CallNonvirtualDoubleMethodA),
        ("Ljava/lang/Object;", 0x7000, 0x7000, std::mem::size_of::<usize>(), JniCall::CallNonvirtualObjectMethodA),
    ];
    for (letter, raw, bits, width, function) in cases {
        let (call, ret) = run_deferring(letter, false, raw);
        assert_eq!(
            call,
            CallAction::CallOriginal(OriginalCall {
                function,
                receiver: Some(0x7715),
                class: SafeJClass::new(0xC1A5),
                method: SafeJMethodId::new(0xAA00),
            })
        );
        assert_eq!(ret, CallAction::Return(NativeResult { bits, width }));
    }
}

#[test]
fn deferring_static_hook_calls_on_the_class() {
    let (call, ret) = run_deferring("I", true, 5);
    assert_eq!(
        call,
        CallAction::CallOriginal(OriginalCall {
            function: JniCall::CallStaticIntMethodA,
            receiver: None,
            class: SafeJClass::new(0xC1A5),
            method: SafeJMethodId::new(0xAA00),
        })
    );
    assert_eq!(ret, CallAction::Return(NativeResult { bits: 5, width: 4 }));
}

#[test]
fn no_arguments_void_return_scenario() {
    let mut registry = HookRegistry::new();
    registry.insert(SafeJMethodId::new(5), entry(9, false));
    let ud = user_data(5, "()V");
    let (s1, a1) = raw_trampoline(
        &registry,
        &ud,
        CallState::Idle,
        CallEvent::Invoked { this: 0x10, raw_args: vec![] },
    );
    assert!(matches!(a1, CallAction::InvokeCallback(_)));
    match &s1 {
        CallState::InCallback { args, .. } => assert!(args.is_empty()),
        _ => panic!("the callback is not running"),
    }
    let (s2, a2) = raw_trampoline(&registry, &ud, s1, CallEvent::CallbackReturned(None));
    match &s2 {
        CallState::InOriginal { args } => assert!(args.is_empty()),
        _ => panic!("the original is not running"),
    }
    assert_eq!(
        a2,
        CallAction::CallOriginal(OriginalCall {
            function: JniCall::CallNonvirtualVoidMethodA,
            receiver: Some(0x10),
            class: SafeJClass::new(0xC1A5),
            method: SafeJMethodId::new(0xAA00),
        })
    );
    let (s3, a3) = raw_trampoline(&registry, &ud, s2, CallEvent::OriginalReturned(0xFFFF));
    assert!(matches!(s3, CallState::Finished));
    assert_eq!(a3, CallAction::Return(NativeResult { bits: 0, width: 0 }));
}

#[test]
fn panicking_callback_falls_back_to_the_original() {
    let mut registry = HookRegistry::new();
    registry.insert(SafeJMethodId::new(5), entry(9, false));
    let ud = user_data(5, "()I");
    let (s1, _) = raw_trampoline(
        &registry,
        &ud,
        CallState::Idle,
        CallEvent::Invoked { this: 1, raw_args: vec![] },
    );
    let (s2, a2) = raw_trampoline(&registry, &ud, s1, CallEvent::CallbackPanicked);
    assert!(matches!(s2, CallState::InOriginal { .. }));
    assert!(matches!(a2, CallAction::CallOriginal(_)));
}

#[test]
fn detached_hook_returns_the_zero_value() {
    let registry = HookRegistry::new();
    let ud = user_data(5, "(I)J");
    let (s, a) = raw_trampoline(
        &registry,
        &ud,
        CallState::Idle,
        CallEvent::Invoked { this: 1, raw_args: vec![3] },
    );
    assert!(matches!(s, CallState::Finished));
    assert_eq!(a, CallAction::Return(NativeResult { bits: 0, width: 8 }));
}

#[test]
fn wrong_argument_count_aborts() {
    let mut registry = HookRegistry::new();
    registry.insert(SafeJMethodId::new(5), entry(9, false));
    let ud = user_data(5, "(II)V");
    let (s, a) = raw_trampoline(
        &registry,
        &ud,
        CallState::Idle,
        CallEvent::Invoked { this: 1, raw_args: vec![3] },
    );
    assert!(matches!(s, CallState::Finished));
    assert_eq!(a, CallAction::Abort);
}

#[test]
fn value_of_the_wrong_kind_aborts() {
    let mut registry = HookRegistry::new();
    registry.insert(SafeJMethodId::new(5), entry(9, false));
    let ud = user_data(5, "()I");
    let (s1, _) = raw_trampoline(
        &registry,
        &ud,
        CallState::Idle,
        CallEvent::Invoked { this: 1, raw_args: vec![] },
    );
    let (_, a) =
        raw_trampoline(&registry, &ud, s1, CallEvent::CallbackReturned(Some(CallValue::Long(1))));
    assert_eq!(a, CallAction::Abort);
}

#[test]
fn any_value_is_accepted_from_a_void_method() {
    let mut registry = HookRegistry::new();
    registry.insert(SafeJMethodId::new(5), entry(9, false));
    let ud = user_data(5, "()V");
    let (s1, _) = raw_trampoline(
        &registry,
        &ud,
        CallState::Idle,
        CallEvent::Invoked { this: 1, raw_args: vec![] },
    );
    let (_, a) =
        raw_trampoline(&registry, &ud, s1, CallEvent::CallbackReturned(Some(CallValue::Object(0))));
    assert_eq!(a, CallAction::Return(NativeResult { bits: 0, width: 0 }));
}

#[test]
fn events_out_of_order_abort() {
    let registry = HookRegistry::new();
    let ud = user_data(5, "()V");
    let (_, a) = raw_trampoline(&registry, &ud, CallState::Idle, CallEvent::OriginalReturned(1));
    assert_eq!(a, CallAction::Abort);
    let (_, a) = raw_trampoline(
        &registry,
        &ud,
        CallState::Finished,
        CallEvent::Invoked { this: 1, raw_args: vec![] },
    );
    assert_eq!(a, CallAction::Abort);
    let (_, a) = raw_trampoline(
        &registry,
        &ud,
        CallState::InOriginal { args: vec![] },
        CallEvent::CallbackPanicked,
    );
    assert_eq!(a, CallAction::Abort);
}

#[test]
fn two_hooked_methods_resolve_by_their_own_identity() {
    let mut registry = HookRegistry::new();
    registry.insert(
        SafeJMethodId::new(1),
        HookInfo::new(100, SafeJMethodId::new(0xA1), SafeJClass::new(0xC1), false),
    );
    registry.insert(
        SafeJMethodId::new(2),
        HookInfo::new(200, SafeJMethodId::new(0xA2), SafeJClass::new(0xC2), true),
    );
    let ud1 = user_data(1, "(I)I");
    let ud2 = user_data(2, "(J)J");
    let (s1, a1) = raw_trampoline(
        &registry,
        &ud1,
        CallState::Idle,
        CallEvent::Invoked { this: 11, raw_args: vec![1] },
    );
    let (s2, a2) = raw_trampoline(
        &registry,
        &ud2,
        CallState::Idle,
        CallEvent::Invoked { this: 22, raw_args: vec![2] },
    );
    assert_eq!(
        a1,
        CallAction::InvokeCallback(CallbackCall {
            callback: 100,
            this: 11,
            class: SafeJClass::new(0xC1),
            original_method: SafeJMethodId::new(0xA1),
        })
    );
    assert_eq!(
        a2,
        CallAction::InvokeCallback(CallbackCall {
            callback: 200,
            this: 22,
            class: SafeJClass::new(0xC2),
            original_method: SafeJMethodId::new(0xA2),
        })
    );
    let (s2, b2) = raw_trampoline(&registry, &ud2, s2, CallEvent::CallbackReturned(None));
    let (s1, b1) = raw_trampoline(&registry, &ud1, s1, CallEvent::CallbackReturned(None));
    assert_eq!(
        b1,
        CallAction::CallOriginal(OriginalCall {
            function: JniCall::CallNonvirtualIntMethodA,
            receiver: Some(11),
            class: SafeJClass::new(0xC1),
            method: SafeJMethodId::new(0xA1),
        })
    );
    assert_eq!(
        b2,
        CallAction::CallOriginal(OriginalCall {
            function: JniCall::CallStaticLongMethodA,
            receiver: None,
            class: SafeJClass::new(0xC2),
            method: SafeJMethodId::new(0xA2),
        })
    );
    let (_, c1) = raw_trampoline(&registry, &ud1, s1, CallEvent::OriginalReturned(111));
    let (_, c2) = raw_trampoline(&registry, &ud2, s2, CallEvent::OriginalReturned(222));
    assert_eq!(c1, CallAction::Return(NativeResult { bits: 111, width: 4 }));
    assert_eq!(c2, CallAction::Return(NativeResult { bits: 222, width: 8 }));
}

struct Fixed(Option<CallValue>);

impl jhook::callbacks::HookCallback for Fixed {
    fn call(
        &self,
        _env: usize,
        this: usize,
        _class: SafeJClass,
        _original_method: SafeJMethodId,
        args: &Vec<CallValue>,
    ) -> Option<CallValue> {
        match self.0 {
            Some(_) => Some(CallValue::Int(this as i32 + args.len() as i32)),
            None => None,
        }
    }
}

#[test]
fn arena_runs_the_callback_by_its_index() {
    let mut arena = jhook::callbacks::CallbackArena::new();
    assert_eq!(arena.register(Fixed(None)), 0);
    assert_eq!(arena.register(Fixed(Some(CallValue::Void))), 1);
    assert_eq!(arena.len(), 2);
    assert!(arena.get(1).is_some());
    assert!(arena.get(2).is_none());
    let call = |callback: u64| CallbackCall {
        callback,
        this: 40,
        class: SafeJClass::new(1),
        original_method: SafeJMethodId::new(2),
    };
    let args = vec![CallValue::Int(1), CallValue::Int(2)];
    assert!(matches!(arena.run(&call(0), 0, &args), CallEvent::CallbackReturned(None)));
    assert!(matches!(
        arena.run(&call(1), 0, &args),
        CallEvent::CallbackReturned(Some(CallValue::Int(42)))
    ));
    assert!(matches!(arena.run(&call(2), 0, &args), CallEvent::CallbackReturned(None)));
}

#[test]
fn a_hooked_call_from_entry_to_return() {
    let mut arena = jhook::callbacks::CallbackArena::new();
    let index = arena.register(Fixed(Some(CallValue::Void)));
    let mut registry = HookRegistry::new();
    registry.insert(SafeJMethodId::new(5), entry(index, false));
    let ud = user_data(5, "(II)I");
    let (state, action) = raw_trampoline(
        &registry,
        &ud,
        CallState::Idle,
        CallEvent::Invoked { this: 10, raw_args: vec![1, 2] },
    );
    let call = match action {
        CallAction::InvokeCallback(call) => call,
        _ => panic!("the callback was not asked for"),
    };
    let args = match &state {
        CallState::InCallback { args, .. } => args.clone(),
        _ => panic!("the callback is not running"),
    };
    let event = arena.run(&call, 0, &args);
    let (_, action) = raw_trampoline(&registry, &ud, state, event);
    assert_eq!(action, CallAction::Return(NativeResult { bits: 12, width: 4 }));
}
