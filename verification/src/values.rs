//! The engine's dynamic value representation, and the encode / decode
//! primitives the trampolines use at the boundary.

use vstd::prelude::*;
use vstd::string::StringExecFns;

verus! {

/// A dynamic value as the script engine hands it to a native operation:
/// null, a boolean, a (31-bit) integer, a string, or a handle to a foreign
/// object in the compartment's heap.
#[derive(Debug, PartialEq)]
pub enum ScriptValue {
    Null,
    Bool(bool),
    Int(i32),
    Str(String),
    Obj(usize),
}

/// A script-triggerable call failure: the call is reported failed to the
/// calling convention, no native state changes, and the process goes on.
#[derive(Clone, Copy, Debug, PartialEq, Eq, Structural)]
pub enum CallFault {
    /// Fewer arguments were supplied than the operation requires.
    MissingArgument,
    /// A string argument was required and the dynamic value is not a string.
    NotAString,
    /// An integer argument was required and the dynamic value is not an integer.
    NotAnInt,
    /// A boolean argument was required and the dynamic value is not a boolean.
    NotABool,
    /// An object was required ("this", or an object-valued argument).
    NotAnObject,
    /// The handle does not name a live wrapped value in the heap.
    BadHandle,
    /// The wrapped value is of a different class than the operation expects.
    WrongClass,
    /// No active global is available to own a lazily created wrapper.
    NoGlobal,
}

/// Decodes a required string argument.  Fails, without side effects, on any
/// non-string dynamic value.
pub fn decode_str(v: &ScriptValue) -> (r: Result<String, CallFault>)
    ensures
        match r {
            Ok(s) => *v matches ScriptValue::Str(t) && s@ == t@,
            Err(e) => e == CallFault::NotAString && !(*v is Str),
        },
{
    match v {
        ScriptValue::Str(s) => Ok(s.clone()),
        _ => Err(CallFault::NotAString),
    }
}

/// Decodes a required integer argument.
pub fn decode_int(v: &ScriptValue) -> (r: Result<i32, CallFault>)
    ensures
        match r {
            Ok(n) => *v == ScriptValue::Int(n),
            Err(e) => e == CallFault::NotAnInt && !(*v is Int),
        },
{
    match v {
        ScriptValue::Int(n) => Ok(*n),
        _ => Err(CallFault::NotAnInt),
    }
}

/// Decodes a required boolean argument.
pub fn decode_bool(v: &ScriptValue) -> (r: Result<bool, CallFault>)
    ensures
        match r {
            Ok(b) => *v == ScriptValue::Bool(b),
            Err(e) => e == CallFault::NotABool && !(*v is Bool),
        },
{
    match v {
        ScriptValue::Bool(b) => Ok(*b),
        _ => Err(CallFault::NotABool),
    }
}

/// Decodes a required object argument, yielding the foreign handle.
pub fn decode_obj(v: &ScriptValue) -> (r: Result<usize, CallFault>)
    ensures
        match r {
            Ok(h) => *v == ScriptValue::Obj(h),
            Err(e) => e == CallFault::NotAnObject && !(*v is Obj),
        },
{
    match v {
        ScriptValue::Obj(h) => Ok(*h),
        _ => Err(CallFault::NotAnObject),
    }
}

/// Encodes an optional object result: an absent native result becomes the
/// engine's null value, not a failure.
pub fn encode_obj_or_null(h: Option<usize>) -> (r: ScriptValue)
    ensures
        match h {
            Some(o) => r == ScriptValue::Obj(o),
            None => r == ScriptValue::Null,
        },
{
    match h {
        Some(o) => ScriptValue::Obj(o),
        None => ScriptValue::Null,
    }
}

/// Smallest integer the engine stores unboxed: -(2^30).
pub const JS_INT_MIN: i64 = -1073741824;

/// Largest integer the engine stores unboxed: 2^30 - 1.
pub const JS_INT_MAX: i64 = 1073741823;

/// Saturation of a native coordinate into the engine's signed 31-bit
/// unboxed-integer range.
pub open spec fn spec_clamp_js_int(x: int) -> int {
    if x < -1073741824 {
        -1073741824
    } else if x > 1073741823 {
        1073741823
    } else {
        x
    }
}

/// Saturates a coordinate into the signed 31-bit range before encoding,
/// rather than rejecting overflow.
pub fn clamp_js_int(x: i64) -> (r: i32)
    ensures
        r as int == spec_clamp_js_int(x as int),
{
    if x < JS_INT_MIN {
        JS_INT_MIN as i32
    } else if x > JS_INT_MAX {
        JS_INT_MAX as i32
    } else {
        x as i32
    }
}

/// The character for one decimal digit.
pub open spec fn spec_digit_char(d: int) -> char {
    if d == 0 {
        '0'
    } else if d == 1 {
        '1'
    } else if d == 2 {
        '2'
    } else if d == 3 {
        '3'
    } else if d == 4 {
        '4'
    } else if d == 5 {
        '5'
    } else if d == 6 {
        '6'
    } else if d == 7 {
        '7'
    } else if d == 8 {
        '8'
    } else {
        '9'
    }
}

/// The decimal digits of a non-negative number, most significant first.
pub open spec fn spec_digits(n: nat) -> Seq<char>
    decreases n,
{
    if n < 10 {
        seq![spec_digit_char(n as int)]
    } else {
        spec_digits(n / 10).push(spec_digit_char((n % 10) as int))
    }
}

/// The decimal rendering of an integer, with a leading minus sign when
/// negative.
pub open spec fn spec_decimal(x: int) -> Seq<char> {
    if x < 0 {
        seq!['-'] + spec_digits((-x) as nat)
    } else {
        spec_digits(x as nat)
    }
}

fn push_digit(s: &mut String, d: u64)
    requires
        d < 10,
    ensures
        final(s)@ == old(s)@.push(spec_digit_char(d as int)),
{
    match d {
        0 => s.append("0"),
        1 => s.append("1"),
        2 => s.append("2"),
        3 => s.append("3"),
        4 => s.append("4"),
        5 => s.append("5"),
        6 => s.append("6"),
        7 => s.append("7"),
        8 => s.append("8"),
        _ => s.append("9"),
    }
    proof {
        reveal_strlit("0");
        reveal_strlit("1");
        reveal_strlit("2");
        reveal_strlit("3");
        reveal_strlit("4");
        reveal_strlit("5");
        reveal_strlit("6");
        reveal_strlit("7");
        reveal_strlit("8");
        reveal_strlit("9");
        assert(s@ =~= old(s)@.push(spec_digit_char(d as int)));
    }
}

fn push_decimal_digits(s: &mut String, n: u64)
    ensures
        final(s)@ == old(s)@ + spec_digits(n as nat),
    decreases n,
{
    if n < 10 {
        push_digit(s, n);
        proof {
            assert(s@ =~= old(s)@ + spec_digits(n as nat));
        }
    } else {
        push_decimal_digits(s, n / 10);
        push_digit(s, n % 10);
        proof {
            assert(s@ =~= old(s)@ + spec_digits(n as nat));
        }
    }
}

/// Renders an integer in decimal, as the attribute-setting path stores
/// numeric values.
pub fn int_to_string(x: i32) -> (r: String)
    ensures
        r@ == spec_decimal(x as int),
{
    let mut s: String = String::new();
    if x < 0 {
        s.append("-");
        proof {
            reveal_strlit("-");
            assert(s@ =~= seq!['-']);
        }
        let mag: u64 = (-(x as i64)) as u64;
        push_decimal_digits(&mut s, mag);
    } else {
        push_decimal_digits(&mut s, x as u64);
    }
    s
}

/// Duplicates a dynamic value.
pub fn clone_value(v: &ScriptValue) -> (r: ScriptValue)
    ensures
        r == *v,
{
    match v {
        ScriptValue::Null => ScriptValue::Null,
        ScriptValue::Bool(b) => ScriptValue::Bool(*b),
        ScriptValue::Int(n) => ScriptValue::Int(*n),
        ScriptValue::Str(s) => ScriptValue::Str(s.clone()),
        ScriptValue::Obj(h) => ScriptValue::Obj(*h),
    }
}

/// Duplicates an argument list of dynamic values.
pub fn clone_values(vs: &Vec<ScriptValue>) -> (r: Vec<ScriptValue>)
    ensures
        r@ == vs@,
{
    let n: usize = vs.len();
    let mut out: Vec<ScriptValue> = Vec::new();
    let mut i: usize = 0;
    while i < n
        invariant
            n == vs@.len(),
            0 <= i <= n,
            out@ == vs@.take(i as int),
        decreases n - i,
    {
        out.push(clone_value(&vs[i]));
        proof {
            assert(out@ =~= vs@.take(i + 1 as int));
        }
        i = i + 1;
    }
    proof {
        assert(vs@.take(n as int) =~= vs@);
    }
    out
}

/// Coerces a dynamic value to a string, as the engine's string conversion
/// does for the primitive values.  Converting an object would run script
/// (its own string conversion) while a native borrow is open, the very
/// re-entry hazard the scoped-borrow discipline exists to prevent, so an
/// object argument is reported as a call failure instead.
pub fn coerce_to_string(v: &ScriptValue) -> (r: Result<String, CallFault>)
    ensures
        match r {
            Ok(s) => match *v {
                ScriptValue::Null => s@ == "null"@,
                ScriptValue::Bool(b) => s@ == (if b {
                    "true"@
                } else {
                    "false"@
                }),
                ScriptValue::Int(n) => s@ == spec_decimal(n as int),
                ScriptValue::Str(ref t) => s@ == t@,
                ScriptValue::Obj(_) => false,
            },
            Err(e) => e == CallFault::NotAString && *v is Obj,
        },
{
    match v {
        ScriptValue::Null => Ok("null".to_owned()),
        ScriptValue::Bool(b) => {
            if *b {
                Ok("true".to_owned())
            } else {
                Ok("false".to_owned())
            }
        },
        ScriptValue::Int(n) => Ok(int_to_string(*n)),
        ScriptValue::Str(s) => Ok(s.clone()),
        ScriptValue::Obj(_) => Err(CallFault::NotAString),
    }
}

} // verus!
