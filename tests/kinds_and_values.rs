use reflexion_native::field::{
    descriptor_class_name, internal_class_name, FieldDescriptor, FieldError,
};
use reflexion_native::kind::PrimitiveKind;
use reflexion_native::lookup::{
    finish_lookup, LookupError, EXCEPTION_CLASS, IMPL_LOOKUP_FIELD, LOOKUP_CLASS, LOOKUP_DESCRIPTOR,
};
use reflexion_native::value::{kind_of_descriptor, FieldValue, PrimitiveValue, ValueKind};

const ALL_KINDS: [PrimitiveKind; 8] = [
    PrimitiveKind::Boolean,
    PrimitiveKind::Byte,
    PrimitiveKind::Char,
    PrimitiveKind::Short,
    PrimitiveKind::Int,
    PrimitiveKind::Long,
    PrimitiveKind::Float,
    PrimitiveKind::Double,
];

#[test]
fn type_tags_of_every_kind() {
    let tags: Vec<char> = ALL_KINDS.iter().map(|k| k.type_tag()).collect();
    assert_eq!(tags, vec!['Z', 'B', 'C', 'S', 'I', 'J', 'F', 'D']);
}

#[test]
fn descriptor_is_the_tag_alone() {
    assert_eq!(PrimitiveKind::Int.descriptor(), "I");
    assert_eq!(PrimitiveKind::Long.descriptor(), "J");
    assert_eq!(PrimitiveKind::Boolean.descriptor(), "Z");
    for k in ALL_KINDS {
        assert_eq!(k.descriptor().chars().collect::<Vec<char>>(), vec![k.type_tag()]);
    }
}

#[test]
fn tag_identifies_kind() {
    for k in ALL_KINDS {
        assert_eq!(PrimitiveKind::from_tag(k.type_tag()), Some(k));
    }
    assert_eq!(PrimitiveKind::from_tag('V'), None);
    assert_eq!(PrimitiveKind::from_tag('L'), None);
    assert_eq!(PrimitiveKind::from_tag('i'), None);
}

#[test]
fn distinct_kinds_have_distinct_descriptors() {
    for a in ALL_KINDS {
        for b in ALL_KINDS {
            assert_eq!(a == b, a.descriptor() == b.descriptor());
        }
    }
}

#[test]
fn descriptor_kinds() {
    assert_eq!(kind_of_descriptor("I"), Some(ValueKind::Primitive(PrimitiveKind::Int)));
    assert_eq!(kind_of_descriptor("J"), Some(ValueKind::Primitive(PrimitiveKind::Long)));
    assert_eq!(kind_of_descriptor("Ljava/lang/String;"), Some(ValueKind::Object));
    assert_eq!(kind_of_descriptor("[I"), Some(ValueKind::Object));
    assert_eq!(kind_of_descriptor("V"), None);
    assert_eq!(kind_of_descriptor("()V"), None);
    assert_eq!(kind_of_descriptor(""), None);
}

#[test]
fn round_trip_of_every_primitive_kind() {
    let values = [
        PrimitiveValue::Boolean(true),
        PrimitiveValue::Boolean(false),
        PrimitiveValue::Byte(-128),
        PrimitiveValue::Char(0xffff),
        PrimitiveValue::Short(-12345),
        PrimitiveValue::Int(42),
        PrimitiveValue::Long(i64::MIN),
        PrimitiveValue::Float(1.5f32.to_bits()),
        PrimitiveValue::Double((-0.0f64).to_bits()),
    ];
    for v in values {
        let carried: FieldValue<String> = v.to_field_value();
        assert_eq!(carried.kind(), Some(ValueKind::Primitive(v.kind())));
        assert_eq!(carried.to_primitive(v.kind()), Some(v));
        assert_eq!(kind_of_descriptor(v.kind().descriptor()), carried.kind());
    }
}

#[test]
fn boolean_travels_as_a_byte() {
    let t: FieldValue<String> = PrimitiveValue::Boolean(true).to_field_value();
    let f: FieldValue<String> = PrimitiveValue::Boolean(false).to_field_value();
    assert_eq!(t, FieldValue::Bool(1));
    assert_eq!(f, FieldValue::Bool(0));
    let other: FieldValue<String> = FieldValue::Bool(7);
    assert_eq!(other.to_primitive(PrimitiveKind::Boolean), Some(PrimitiveValue::Boolean(true)));
}

#[test]
fn float_bits_are_kept_exactly() {
    let nan_bits: u32 = 0x7fc0_0001;
    let carried: FieldValue<String> = PrimitiveValue::Float(nan_bits).to_field_value();
    assert_eq!(carried, FieldValue::Float(nan_bits));
    assert_eq!(carried.to_primitive(PrimitiveKind::Float), Some(PrimitiveValue::Float(nan_bits)));
}

#[test]
fn kind_mismatch_is_never_reinterpreted() {
    let long: FieldValue<String> = FieldValue::Long(1 << 40);
    assert_eq!(long.to_primitive(PrimitiveKind::Int), None);
    assert_eq!(long.to_primitive(PrimitiveKind::Double), None);
    assert_eq!(long.to_primitive(PrimitiveKind::Long), Some(PrimitiveValue::Long(1 << 40)));
    let int: FieldValue<String> = FieldValue::Int(7);
    for k in ALL_KINDS {
        assert_eq!(int.to_primitive(k).is_some(), k == PrimitiveKind::Int);
    }
    let obj: FieldValue<String> = FieldValue::Object("x".to_string());
    for k in ALL_KINDS {
        assert_eq!(obj.to_primitive(k), None);
    }
    let void: FieldValue<String> = FieldValue::Void;
    assert_eq!(void.kind(), None);
    assert_eq!(void.to_primitive(PrimitiveKind::Int), None);
}

#[test]
fn object_values() {
    let hello: FieldValue<String> = FieldValue::Object("hello".to_string());
    assert_eq!(hello.kind(), Some(ValueKind::Object));
    assert_eq!(hello.into_object(), Some("hello".to_string()));
    let int: FieldValue<String> = FieldValue::Int(1);
    assert_eq!(int.into_object(), None);
}

#[test]
fn internal_class_names() {
    assert_eq!(internal_class_name("com.example.Counter"), "com/example/Counter");
    assert_eq!(internal_class_name("java/lang/String"), "java/lang/String");
    assert_eq!(internal_class_name("a.b.Outer$Inner"), "a/b/Outer$Inner");
    assert_eq!(internal_class_name(""), "");
    assert_eq!(internal_class_name("caf\u{e9}.Cl\u{e4}ss"), "caf\u{e9}/Cl\u{e4}ss");
}

#[test]
fn counter_scenario_field_and_value() {
    let field = FieldDescriptor::new("com.example.Counter", "value", "I", false);
    assert!(field.is_static);
    assert_eq!(field.class_name, "com/example/Counter");
    assert_eq!(field.name, "value");
    assert_eq!(field.descriptor, "I");
    assert_eq!(PrimitiveKind::Int.descriptor(), field.descriptor);
    let carried: FieldValue<String> = PrimitiveValue::Int(42).to_field_value();
    assert_eq!(carried, FieldValue::Int(42));
    assert_eq!(carried.to_primitive(PrimitiveKind::Int), Some(PrimitiveValue::Int(42)));
}

#[test]
fn box_scenario_field_and_value() {
    let field = FieldDescriptor::new("com.example.Box", "payload", "Ljava/lang/String;", true);
    assert!(!field.is_static);
    assert_eq!(field.class_name, "com/example/Box");
    assert_eq!(kind_of_descriptor(&field.descriptor), Some(ValueKind::Object));
    let carried: FieldValue<&str> = FieldValue::Object("hello");
    assert_eq!(carried.into_object(), Some("hello"));
}

#[test]
fn receiver_only_decides_staticness() {
    let s = FieldDescriptor::new("com.example.Box", "payload", "Ljava/lang/String;", false);
    let i = FieldDescriptor::new("com.example.Box", "payload", "Ljava/lang/String;", true);
    assert!(s.is_static);
    assert!(!i.is_static);
    assert_eq!(s.class_name, i.class_name);
    assert_eq!(s.name, i.name);
    assert_eq!(s.descriptor, i.descriptor);
}

#[test]
fn lookup_error_messages() {
    assert_eq!(LookupError::ClassNotFound.message(), "unable to find Lookup class");
    assert_eq!(LookupError::FieldUnreadable.message(), "unable to get IMPL_LOOKUP field value");
    assert_eq!(LookupError::NotAnObject.message(), "IMPL_LOOKUP field value is not an object");
}

#[test]
fn lookup_names() {
    assert_eq!(LOOKUP_CLASS, "java/lang/invoke/MethodHandles$Lookup");
    assert_eq!(IMPL_LOOKUP_FIELD, "IMPL_LOOKUP");
    assert_eq!(LOOKUP_DESCRIPTOR, "Ljava/lang/invoke/MethodHandles$Lookup;");
    assert_eq!(kind_of_descriptor(LOOKUP_DESCRIPTOR), Some(ValueKind::Object));
    assert_eq!(EXCEPTION_CLASS, "dev/derklaro/reflexion/ReflexionException");
}

#[test]
fn field_errors_are_distinct() {
    assert_ne!(FieldError::ClassNotFound, FieldError::FieldUnavailable);
    assert_ne!(FieldError::FieldUnavailable, FieldError::KindMismatch);
    assert_ne!(FieldError::NotAnInstance, FieldError::NotAssignable);
}

#[test]
fn classes_named_by_object_descriptors() {
    assert_eq!(descriptor_class_name("Ljava/lang/String;"), "java/lang/String");
    assert_eq!(
        descriptor_class_name("Ljava/lang/invoke/MethodHandles$Lookup;"),
        "java/lang/invoke/MethodHandles$Lookup"
    );
    assert_eq!(descriptor_class_name("[Ljava/lang/String;"), "[Ljava/lang/String;");
    assert_eq!(descriptor_class_name("[I"), "[I");
}

#[test]
fn lookup_outcomes() {
    assert_eq!(finish_lookup::<String>(false, None), Err(LookupError::ClassNotFound));
    assert_eq!(
        finish_lookup::<String>(false, Some(FieldValue::Object("token".to_string()))),
        Err(LookupError::ClassNotFound)
    );
    assert_eq!(finish_lookup::<String>(true, None), Err(LookupError::FieldUnreadable));
    assert_eq!(finish_lookup::<String>(true, Some(FieldValue::Int(3))), Err(LookupError::NotAnObject));
    assert_eq!(
        finish_lookup::<String>(true, Some(FieldValue::Object("token".to_string()))),
        Ok("token".to_string())
    );
}
