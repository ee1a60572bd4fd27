//! The dynamic value layer: decoding, encoding, the 31-bit saturation,
//! decimal rendering, and the interned name table.

use script_bindings::compartment::Compartment;
use script_bindings::values::{
    clamp_js_int, coerce_to_string, decode_bool, decode_int, decode_obj, decode_str,
    encode_obj_or_null, int_to_string, CallFault, ScriptValue,
};

#[test]
fn string_decoding_is_strict() {
    assert_eq!(decode_str(&ScriptValue::Str("ok".to_string())), Ok("ok".to_string()));
    assert_eq!(decode_str(&ScriptValue::Int(3)), Err(CallFault::NotAString));
    assert_eq!(decode_str(&ScriptValue::Null), Err(CallFault::NotAString));
    assert_eq!(decode_str(&ScriptValue::Bool(true)), Err(CallFault::NotAString));
    assert_eq!(decode_str(&ScriptValue::Obj(1)), Err(CallFault::NotAString));
}

#[test]
fn primitive_decoding() {
    assert_eq!(decode_int(&ScriptValue::Int(-9)), Ok(-9));
    assert_eq!(decode_int(&ScriptValue::Str("9".to_string())), Err(CallFault::NotAnInt));
    assert_eq!(decode_bool(&ScriptValue::Bool(false)), Ok(false));
    assert_eq!(decode_bool(&ScriptValue::Int(0)), Err(CallFault::NotABool));
    assert_eq!(decode_obj(&ScriptValue::Obj(17)), Ok(17));
    assert_eq!(decode_obj(&ScriptValue::Null), Err(CallFault::NotAnObject));
}

#[test]
fn absent_results_encode_as_null() {
    assert!(matches!(encode_obj_or_null(None), ScriptValue::Null));
    assert!(matches!(encode_obj_or_null(Some(4)), ScriptValue::Obj(4)));
}

#[test]
fn saturation_into_the_31_bit_range() {
    assert_eq!(clamp_js_int(0), 0);
    assert_eq!(clamp_js_int(1_073_741_823), 1_073_741_823);
    assert_eq!(clamp_js_int(1_073_741_824), 1_073_741_823);
    assert_eq!(clamp_js_int(-1_073_741_824), -1_073_741_824);
    assert_eq!(clamp_js_int(-1_073_741_825), -1_073_741_824);
    assert_eq!(clamp_js_int(i64::MAX), 1_073_741_823);
    assert_eq!(clamp_js_int(i64::MIN), -1_073_741_824);
}

#[test]
fn decimal_rendering() {
    assert_eq!(int_to_string(0), "0");
    assert_eq!(int_to_string(7), "7");
    assert_eq!(int_to_string(640), "640");
    assert_eq!(int_to_string(-123), "-123");
    assert_eq!(int_to_string(i32::MAX), "2147483647");
    assert_eq!(int_to_string(i32::MIN), "-2147483648");
}

#[test]
fn string_coercion_of_primitives() {
    assert_eq!(coerce_to_string(&ScriptValue::Null), Ok("null".to_string()));
    assert_eq!(coerce_to_string(&ScriptValue::Bool(true)), Ok("true".to_string()));
    assert_eq!(coerce_to_string(&ScriptValue::Bool(false)), Ok("false".to_string()));
    assert_eq!(coerce_to_string(&ScriptValue::Int(-7)), Ok("-7".to_string()));
    assert_eq!(coerce_to_string(&ScriptValue::Str("s".to_string())), Ok("s".to_string()));
    assert_eq!(coerce_to_string(&ScriptValue::Obj(2)), Err(CallFault::NotAString));
}

#[test]
fn interned_names_keep_their_index() {
    let mut cp = Compartment::new();
    let a = cp.intern("tagName".to_string());
    let b = cp.intern("width".to_string());
    assert_ne!(a, b);
    // Interning again answers the same stable index and adds nothing.
    assert_eq!(cp.intern("tagName".to_string()), a);
    assert_eq!(cp.intern("width".to_string()), b);
    assert_eq!(cp.names.len(), 2);
    assert_eq!(cp.names[a], "tagName");
    assert_eq!(cp.names[b], "width");
}
