use jhook::native::{ffi_type_of, native_arg_types, native_ret_type, NativeType};
use jhook::signature::{parse_descriptor, parse_jvm_sig, parse_one_type, JTypeKind, ParseError};
use jhook::trampoline::{create_universal_trampoline, ClosureHandles, NativeTrampoline};
use jhook::handles::{SafeJClass, SafeJMethodId};

#[test]
fn parses_the_expectation_table_entry() {
    let sig = parse_jvm_sig("(IJLjava/lang/String;)Z").unwrap();
    assert_eq!(sig.args, vec![JTypeKind::Int, JTypeKind::Long, JTypeKind::Object]);
    assert_eq!(sig.ret, JTypeKind::Boolean);
}

#[test]
fn parses_every_primitive_letter() {
    let sig = parse_jvm_sig("(ZBCSIJFD)V").unwrap();
    assert_eq!(
        sig.args,
        vec![
            JTypeKind::Boolean,
            JTypeKind::Byte,
            JTypeKind::Char,
            JTypeKind::Short,
            JTypeKind::Int,
            JTypeKind::Long,
            JTypeKind::Float,
            JTypeKind::Double,
        ]
    );
    assert_eq!(sig.ret, JTypeKind::Void);
}

#[test]
fn parses_no_arguments_and_void() {
    let sig = parse_jvm_sig("()V").unwrap();
    assert!(sig.args.is_empty());
    assert_eq!(sig.ret, JTypeKind::Void);
}

#[test]
fn arrays_of_every_dimension_collapse_to_object() {
    let sig = parse_jvm_sig("([I[[Ljava/lang/String;[[[D)[B").unwrap();
    assert_eq!(sig.args, vec![JTypeKind::Object, JTypeKind::Object, JTypeKind::Object]);
    assert_eq!(sig.ret, JTypeKind::Object);
}

#[test]
fn parses_the_descriptors_of_the_packet_hooks() {
    let sig = parse_jvm_sig(
        "(Lio/netty/channel/ChannelHandlerContext;Lnet/minecraft/network/Packet;Lio/netty/buffer/ByteBuf;)V",
    )
    .unwrap();
    assert_eq!(sig.args, vec![JTypeKind::Object, JTypeKind::Object, JTypeKind::Object]);
    assert_eq!(sig.ret, JTypeKind::Void);
    let sig = parse_jvm_sig("()Ljava/util/List;").unwrap();
    assert!(sig.args.is_empty());
    assert_eq!(sig.ret, JTypeKind::Object);
}

#[test]
fn rejects_truncated_descriptor() {
    assert_eq!(parse_jvm_sig("(").err(), Some(ParseError::Malformed));
    assert_eq!(parse_jvm_sig("").err(), Some(ParseError::Malformed));
    assert_eq!(parse_jvm_sig("()").err(), Some(ParseError::Malformed));
    assert_eq!(parse_jvm_sig("(I").err(), Some(ParseError::Malformed));
}

#[test]
fn rejects_dangling_object_type() {
    assert_eq!(parse_jvm_sig("(Ljava/lang/String)V").err(), Some(ParseError::Malformed));
    assert_eq!(parse_jvm_sig("()Ljava/lang/String").err(), Some(ParseError::Malformed));
    assert_eq!(parse_jvm_sig("([L)V").err(), Some(ParseError::Malformed));
}

#[test]
fn rejects_unknown_letters_and_trailing_bytes() {
    assert_eq!(parse_jvm_sig("(X)V").err(), Some(ParseError::Malformed));
    assert_eq!(parse_jvm_sig("()VV").err(), Some(ParseError::Malformed));
    assert_eq!(parse_jvm_sig("I)V").err(), Some(ParseError::Malformed));
    assert_eq!(parse_jvm_sig("()Q").err(), Some(ParseError::Malformed));
}

#[test]
fn void_is_legal_only_as_return_type() {
    assert_eq!(parse_jvm_sig("(V)V").err(), Some(ParseError::Malformed));
    assert_eq!(parse_jvm_sig("(IV)I").err(), Some(ParseError::Malformed));
    assert_eq!(parse_jvm_sig("([V)I").err(), Some(ParseError::Malformed));
    assert_eq!(parse_jvm_sig("()[V").err(), Some(ParseError::Malformed));
}

#[test]
fn rejects_array_without_element() {
    assert_eq!(parse_jvm_sig("([)V").err(), Some(ParseError::Malformed));
    assert_eq!(parse_jvm_sig("()[").err(), Some(ParseError::Malformed));
    assert_eq!(parse_jvm_sig("([[").err(), Some(ParseError::Malformed));
}

#[test]
fn parse_one_type_reads_an_array_of_objects() {
    let b = "[[Ljava/lang/Object;I".as_bytes();
    assert_eq!(parse_one_type(b, 0), Ok((JTypeKind::Object, 20)));
    assert_eq!(parse_one_type(b, 20), Ok((JTypeKind::Int, 21)));
    assert_eq!(parse_one_type(b, 21), Err(ParseError::Malformed));
}

#[test]
fn parse_one_type_accepts_void_and_an_empty_class_name() {
    assert_eq!(parse_one_type("V".as_bytes(), 0), Ok((JTypeKind::Void, 1)));
    assert_eq!(parse_one_type("L;".as_bytes(), 0), Ok((JTypeKind::Object, 2)));
    assert_eq!(parse_one_type(")".as_bytes(), 0), Err(ParseError::Malformed));
}

#[test]
fn parse_descriptor_agrees_with_parse_jvm_sig() {
    for text in ["(IJLjava/lang/String;)Z", "()V", "(", "(L)V", "([[I)[J"] {
        let a = parse_jvm_sig(text);
        let b = parse_descriptor(text.as_bytes());
        match (a, b) {
            (Ok(x), Ok(y)) => {
                assert_eq!(x.args, y.args);
                assert_eq!(x.ret, y.ret);
            }
            (Err(x), Err(y)) => assert_eq!(x, y),
            _ => panic!("the two parsers disagree on {}", text),
        }
    }
}

#[test]
fn parsing_is_deterministic() {
    let a = parse_jvm_sig("(I[Ljava/lang/String;D)J").unwrap();
    let b = parse_jvm_sig("(I[Ljava/lang/String;D)J").unwrap();
    assert_eq!(a.args, b.args);
    assert_eq!(a.ret, b.ret);
    assert_eq!(native_arg_types(&a), native_arg_types(&b));
}

#[test]
fn maps_each_kind_to_its_native_type() {
    assert_eq!(ffi_type_of(JTypeKind::Void), NativeType::Void);
    assert_eq!(ffi_type_of(JTypeKind::Boolean), NativeType::SInt8);
    assert_eq!(ffi_type_of(JTypeKind::Byte), NativeType::SInt8);
    assert_eq!(ffi_type_of(JTypeKind::Char), NativeType::UInt16);
    assert_eq!(ffi_type_of(JTypeKind::Short), NativeType::SInt16);
    assert_eq!(ffi_type_of(JTypeKind::Int), NativeType::SInt32);
    assert_eq!(ffi_type_of(JTypeKind::Long), NativeType::SInt64);
    assert_eq!(ffi_type_of(JTypeKind::Float), NativeType::Float32);
    assert_eq!(ffi_type_of(JTypeKind::Double), NativeType::Float64);
    assert_eq!(ffi_type_of(JTypeKind::Object), NativeType::Pointer);
}

#[test]
fn native_list_of_the_expectation_table_entry() {
    let sig = parse_jvm_sig("(IJLjava/lang/String;)Z").unwrap();
    assert_eq!(
        native_arg_types(&sig),
        vec![
            NativeType::Pointer,
            NativeType::Pointer,
            NativeType::SInt32,
            NativeType::SInt64,
            NativeType::Pointer,
        ]
    );
    assert_eq!(native_ret_type(&sig), NativeType::SInt8);
}

#[test]
fn native_list_without_arguments_has_the_two_handles() {
    let sig = parse_jvm_sig("()V").unwrap();
    assert_eq!(native_arg_types(&sig), vec![NativeType::Pointer, NativeType::Pointer]);
    assert_eq!(native_ret_type(&sig), NativeType::Void);
}

#[test]
fn plans_a_trampoline_from_a_descriptor() {
    let plan = create_universal_trampoline(SafeJMethodId::new(0x1000), "(FD)S").unwrap();
    assert_eq!(plan.method_id, SafeJMethodId(0x1000));
    assert_eq!(plan.sig.args, vec![JTypeKind::Float, JTypeKind::Double]);
    assert_eq!(
        plan.arg_types,
        vec![NativeType::Pointer, NativeType::Pointer, NativeType::Float32, NativeType::Float64]
    );
    assert_eq!(plan.ret_type, NativeType::SInt16);
}

#[test]
fn refuses_to_plan_for_a_malformed_descriptor() {
    assert_eq!(
        create_universal_trampoline(SafeJMethodId::new(1), "(Ljava/lang/String").err(),
        Some(ParseError::Malformed)
    );
}

#[test]
fn binds_and_destroys_a_trampoline() {
    let handles = ClosureHandles { closure_handle: 10, code_ptr: 20, userdata: 30 };
    let t = NativeTrampoline::bind(handles, SafeJMethodId::new(7));
    assert_eq!(t.code_ptr(), 20);
    assert_eq!(t.method_id.get(), 7);
    assert_eq!(t.destroy(), handles);
}

#[test]
fn handles_hand_back_their_addresses() {
    assert_eq!(SafeJMethodId::new(42).get(), 42);
    assert_eq!(SafeJClass::new(43).get(), 43);
}
