//! The cross-boundary trampolines: one adapter per exposed operation.
//!
//! Each one follows the same contract: resolve the calling convention's
//! "this" to a handle of the expected class, decode the arguments from
//! the dynamic value representation, run the native logic under a scoped
//! borrow, and encode the result.  A failure at any step reports the call
//! failed and leaves every native value exactly as it was: arguments are
//! validated before any mutation begins.

use vstd::prelude::*;
use vstd::string::StringExecFns;
use crate::bindings::{lemma_ready_preserved, init_wrapper, ready_for, Context};
use crate::compartment::Compartment;
use crate::document::{doc_at, filter_tag, is_document, is_node, node_at};
use crate::native::{NativeKind, NativeValue};
use crate::node::{attrs_view, node_edges, node_wf, spec_tag, ElementKind, NodePayload};
use crate::rect::{ClientRect, ClientRectList};
use crate::values::{
    clamp_js_int, coerce_to_string, decode_int, decode_obj, decode_str, int_to_string,
    spec_clamp_js_int, spec_decimal, CallFault, ScriptValue,
};
use crate::window::WindowAction;

verus! {

/// The handle names a wrapped element node.
pub open spec fn is_element(cp: Compartment, h: usize) -> bool {
    is_node(cp, h) && node_at(cp, h).payload is Element
}

/// The handle names a wrapped image element.
pub open spec fn is_image_element(cp: Compartment, h: usize) -> bool {
    is_element(cp, h) && (match node_at(cp, h).payload {
        NodePayload::Element(e) => e.kind == ElementKind::Image,
        _ => false,
    })
}

/// The handle names a wrapped window.
pub open spec fn is_window(cp: Compartment, h: usize) -> bool {
    cp.wrapped(h as int) && cp.embedded(h as int) is WindowVal
}

/// The window embedded at `h`.
pub open spec fn window_at(cp: Compartment, h: usize) -> crate::window::Window {
    match cp.embedded(h as int) {
        NativeValue::WindowVal(w) => w,
        _ => vstd::pervasive::arbitrary(),
    }
}

/// The tag-name getter: resolves "this" as an element and encodes its tag
/// name as a string.
pub fn invoke_get_tag_name(cp: &Compartment, this: &ScriptValue) -> (r: Result<
    ScriptValue,
    CallFault,
>)
    ensures
        match r {
            Ok(v) => (match *this {
                ScriptValue::Obj(h) => is_element(*cp, h) && (v matches ScriptValue::Str(s) && s@
                    == spec_tag(node_at(*cp, h))),
                _ => false,
            }),
            Err(e) => {
                &&& (e == CallFault::NotAnObject || e == CallFault::BadHandle || e
                    == CallFault::WrongClass)
                &&& (e == CallFault::NotAnObject <==> !(*this is Obj))
                &&& (match *this {
                    ScriptValue::Obj(h) => {
                        &&& (e == CallFault::BadHandle <==> !cp.wrapped(h as int))
                        &&& (e == CallFault::WrongClass <==> cp.wrapped(h as int) && !is_element(
                            *cp,
                            h,
                        ))
                    },
                    _ => true,
                })
            },
        },
{
    let h: usize = match decode_obj(this) {
        Ok(h) => h,
        Err(e) => {
            return Err(e);
        },
    };
    match cp.resolve(h, NativeKind::NodeKind) {
        Ok(_) => (),
        Err(e) => {
            return Err(e);
        },
    }
    match cp.with_imm(h) {
        NativeValue::NodeVal(node) => match node.tag_name() {
            Some(t) => Ok(ScriptValue::Str(t.clone())),
            None => Err(CallFault::WrongClass),
        },
        _ => {
            proof {
                assert(false);
            }
            vstd::pervasive::unreached()
        },
    }
}

/// The attribute setter: resolves "this" as an element, decodes two
/// required string arguments, and sets the attribute.  Both arguments are
/// validated before the element is touched: a decode failure leaves the
/// realm unmodified.
pub fn invoke_set_attribute(cp: &mut Compartment, this: &ScriptValue, args: &Vec<ScriptValue>) -> (r:
    Result<ScriptValue, CallFault>)
    requires
        (match *this {
            ScriptValue::Obj(h) => is_node(*old(cp), h) ==> node_wf(node_at(*old(cp), h)),
            _ => true,
        }),
    ensures
        match r {
            Ok(v) => {
                &&& v == ScriptValue::Null
                &&& (match *this {
                    ScriptValue::Obj(h) => {
                        &&& is_element(*old(cp), h)
                        &&& args@.len() >= 2
                        &&& (match (args@[0], args@[1]) {
                            (ScriptValue::Str(n0), ScriptValue::Str(v0)) => {
                                &&& is_element(*final(cp), h)
                                &&& attrs_view(node_at(*final(cp), h)) == attrs_view(
                                    node_at(*old(cp), h),
                                ).insert(n0@, v0@)
                                &&& node_wf(node_at(*final(cp), h))
                                &&& spec_tag(node_at(*final(cp), h)) == spec_tag(
                                    node_at(*old(cp), h),
                                )
                                &&& node_edges(node_at(*final(cp), h)) == node_edges(
                                    node_at(*old(cp), h),
                                )
                                &&& node_at(*final(cp), h).wrapper == node_at(*old(cp), h).wrapper
                            },
                            _ => false,
                        })
                        &&& final(cp).same_heap_except(*old(cp), h as int)
                        &&& final(cp).same_registry(*old(cp))
                    },
                    _ => false,
                })
            },
            Err(e) => {
                &&& *final(cp) == *old(cp)
                &&& (e == CallFault::NotAnObject || e == CallFault::BadHandle || e
                    == CallFault::WrongClass || e == CallFault::MissingArgument || e
                    == CallFault::NotAString)
                &&& (e == CallFault::NotAnObject <==> !(*this is Obj))
                &&& (match *this {
                    ScriptValue::Obj(h) => {
                        &&& (e == CallFault::BadHandle <==> !old(cp).wrapped(h as int))
                        &&& (e == CallFault::WrongClass <==> old(cp).wrapped(h as int)
                            && !is_element(*old(cp), h))
                        &&& (e == CallFault::MissingArgument <==> is_element(*old(cp), h)
                            && args@.len() < 2)
                        &&& (e == CallFault::NotAString <==> is_element(*old(cp), h) && args@.len()
                            >= 2 && !(args@[0] is Str && args@[1] is Str))
                    },
                    _ => true,
                })
            },
        },
{
    let h: usize = match decode_obj(this) {
        Ok(h) => h,
        Err(e) => {
            return Err(e);
        },
    };
    match cp.resolve(h, NativeKind::NodeKind) {
        Ok(_) => (),
        Err(e) => {
            return Err(e);
        },
    }
    let elem: bool = match cp.with_imm(h) {
        NativeValue::NodeVal(node) => node.is_element(),
        _ => {
            proof {
                assert(false);
            }
            false
        },
    };
    if !elem {
        return Err(CallFault::WrongClass);
    }
    if args.len() < 2 {
        return Err(CallFault::MissingArgument);
    }
    let name: String = match decode_str(&args[0]) {
        Ok(s) => s,
        Err(e) => {
            return Err(e);
        },
    };
    let value: String = match decode_str(&args[1]) {
        Ok(s) => s,
        Err(e) => {
            return Err(e);
        },
    };
    let ghost stored = value@;
    match cp.with_mut(h) {
        NativeValue::NodeVal(node) => {
            node.set_attr(name, value);
        },
        _ => {
            proof {
                assert(false);
            }
        },
    }
    proof {
        assert(attrs_view(node_at(*cp, h)) =~= attrs_view(node_at(*old(cp), h)).insert(
            (match args@[0] {
                ScriptValue::Str(n0) => n0@,
                _ => Seq::empty(),
            }),
            stored,
        ));
    }
    Ok(ScriptValue::Null)
}

/// The document-element getter: resolves "this" as a document and encodes
/// the root element's wrapper.
pub fn invoke_get_document_element(cp: &Compartment, this: &ScriptValue) -> (r: Result<
    ScriptValue,
    CallFault,
>)
    ensures
        match r {
            Ok(v) => (match *this {
                ScriptValue::Obj(h) => {
                    &&& is_document(*cp, h as int)
                    &&& is_element(*cp, doc_at(*cp, h as int).root)
                    &&& v == ScriptValue::Obj(doc_at(*cp, h as int).root)
                },
                _ => false,
            }),
            Err(e) => {
                &&& (e == CallFault::NotAnObject || e == CallFault::BadHandle || e
                    == CallFault::WrongClass)
                &&& (e == CallFault::NotAnObject <==> !(*this is Obj))
                &&& (match *this {
                    ScriptValue::Obj(h) => {
                        &&& (e == CallFault::BadHandle <==> !cp.wrapped(h as int))
                        &&& (e == CallFault::WrongClass <==> cp.wrapped(h as int) && !(is_document(
                            *cp,
                            h as int,
                        ) && is_element(*cp, doc_at(*cp, h as int).root)))
                    },
                    _ => true,
                })
            },
        },
{
    let h: usize = match decode_obj(this) {
        Ok(h) => h,
        Err(e) => {
            return Err(e);
        },
    };
    match cp.resolve(h, NativeKind::DocumentKind) {
        Ok(_) => (),
        Err(e) => {
            return Err(e);
        },
    }
    let root: usize = match cp.with_imm(h) {
        NativeValue::DocumentVal(d) => d.root,
        _ => {
            proof {
                assert(false);
            }
            vstd::pervasive::unreached()
        },
    };
    match cp.resolve(root, NativeKind::NodeKind) {
        Ok(_) => (),
        Err(_) => {
            return Err(CallFault::WrongClass);
        },
    }
    let root_is_element: bool = match cp.with_imm(root) {
        NativeValue::NodeVal(node) => node.is_element(),
        _ => {
            proof {
                assert(false);
            }
            false
        },
    };
    if !root_is_element {
        return Err(CallFault::WrongClass);
    }
    Ok(ScriptValue::Obj(root))
}

/// The tag-name query: resolves "this" as a document, decodes the
/// required tag-name string, filters the embedder's preorder enumeration,
/// and encodes the wrapped collection.
pub fn invoke_get_elements_by_tag_name(
    cp: &mut Compartment,
    ctx: &Context,
    this: &ScriptValue,
    args: &Vec<ScriptValue>,
    preorder: &Vec<usize>,
) -> (r: Result<ScriptValue, CallFault>)
    requires
        old(cp).wf(),
        ready_for(*old(cp), NativeKind::CollectionKind),
        (match ctx.window {
            Some(w) => (w as int) < old(cp).heap@.len(),
            None => false,
        }),
    ensures
        final(cp).wf(),
        match r {
            Ok(v) => {
                &&& (match *this {
                    ScriptValue::Obj(h) => is_document(*old(cp), h as int),
                    _ => false,
                })
                &&& args@.len() >= 1
                &&& (match args@[0] {
                    ScriptValue::Str(tag) => {
                        &&& v == ScriptValue::Obj((old(cp).heap@.len() as usize))
                        &&& final(cp).heap@.len() == old(cp).heap@.len() + 1
                        &&& final(cp).wrapped(old(cp).heap@.len() as int)
                        &&& (match final(cp).embedded(old(cp).heap@.len() as int) {
                            NativeValue::CollectionVal(c) => c.elements@ == filter_tag(
                                *old(cp),
                                preorder@,
                                tag@,
                            ),
                            _ => false,
                        })
                        &&& forall|o: int|
                            0 <= o < old(cp).heap@.len() ==> (#[trigger] final(cp).heap@[o])
                                == old(cp).heap@[o]
                        &&& final(cp).same_registry(*old(cp))
                    },
                    _ => false,
                })
            },
            Err(e) => {
                &&& *final(cp) == *old(cp)
                &&& (e == CallFault::NotAnObject || e == CallFault::BadHandle || e
                    == CallFault::WrongClass || e == CallFault::MissingArgument || e
                    == CallFault::NotAString)
                &&& (e == CallFault::NotAnObject <==> !(*this is Obj))
                &&& (match *this {
                    ScriptValue::Obj(h) => {
                        &&& (e == CallFault::WrongClass <==> old(cp).wrapped(h as int)
                            && !is_document(*old(cp), h as int))
                        &&& (e == CallFault::BadHandle <==> !old(cp).wrapped(h as int) || (
                        is_document(*old(cp), h as int) && args@.len() >= 1 && args@[0] is Str
                            && exists|i: int|
                            0 <= i < preorder@.len() && !is_node(*old(cp), #[trigger] preorder@[i])))
                        &&& (e == CallFault::MissingArgument <==> is_document(*old(cp), h as int)
                            && args@.len() < 1)
                        &&& (e == CallFault::NotAString <==> is_document(*old(cp), h as int)
                            && args@.len() >= 1 && !(args@[0] is Str))
                    },
                    _ => true,
                })
            },
        },
{
    let h: usize = match decode_obj(this) {
        Ok(h) => h,
        Err(e) => {
            return Err(e);
        },
    };
    match cp.resolve(h, NativeKind::DocumentKind) {
        Ok(_) => (),
        Err(e) => {
            return Err(e);
        },
    }
    if args.len() < 1 {
        return Err(CallFault::MissingArgument);
    }
    let tag: String = match decode_str(&args[0]) {
        Ok(s) => s,
        Err(e) => {
            return Err(e);
        },
    };
    match crate::document::getElementsByTagName(cp, ctx, h, preorder, &tag) {
        Ok(col) => Ok(ScriptValue::Obj(col)),
        Err(e) => Err(e),
    }
}

/// The alert operation: resolves "this" as a window, coerces the one
/// required argument to a string, and queues the message for the
/// embedder to show.
pub fn invoke_alert(cp: &mut Compartment, this: &ScriptValue, args: &Vec<ScriptValue>) -> (r: Result<
    ScriptValue,
    CallFault,
>)
    ensures
        match r {
            Ok(v) => {
                &&& v == ScriptValue::Null
                &&& (match *this {
                    ScriptValue::Obj(h) => {
                        &&& is_window(*old(cp), h)
                        &&& args@.len() == 1
                        &&& final(cp).same_heap_except(*old(cp), h as int)
                        &&& final(cp).same_registry(*old(cp))
                        &&& is_window(*final(cp), h)
                        &&& (exists|msg: String|
                            window_at(*final(cp), h).pending@ == window_at(
                                *old(cp),
                                h,
                            ).pending@.push(WindowAction::Alert(msg)) && (match args@[0] {
                                ScriptValue::Null => msg@ == "null"@,
                                ScriptValue::Bool(b) => msg@ == (if b {
                                    "true"@
                                } else {
                                    "false"@
                                }),
                                ScriptValue::Int(n) => msg@ == spec_decimal(n as int),
                                ScriptValue::Str(t) => msg@ == t@,
                                ScriptValue::Obj(_) => false,
                            }))
                        &&& window_at(*final(cp), h).wrapper == window_at(*old(cp), h).wrapper
                    },
                    _ => false,
                })
            },
            Err(e) => {
                &&& *final(cp) == *old(cp)
                &&& (e == CallFault::NotAnObject || e == CallFault::BadHandle || e
                    == CallFault::WrongClass || e == CallFault::MissingArgument || e
                    == CallFault::NotAString)
                &&& (e == CallFault::NotAnObject <==> !(*this is Obj))
                &&& (match *this {
                    ScriptValue::Obj(h) => {
                        &&& (e == CallFault::BadHandle <==> !old(cp).wrapped(h as int))
                        &&& (e == CallFault::WrongClass <==> old(cp).wrapped(h as int) && !is_window(
                            *old(cp),
                            h,
                        ))
                        &&& (e == CallFault::MissingArgument <==> is_window(*old(cp), h)
                            && args@.len() != 1)
                        &&& (e == CallFault::NotAString <==> is_window(*old(cp), h) && args@.len()
                            == 1 && args@[0] is Obj)
                    },
                    _ => true,
                })
            },
        },
{
    let h: usize = match decode_obj(this) {
        Ok(h) => h,
        Err(e) => {
            return Err(e);
        },
    };
    match cp.resolve(h, NativeKind::WindowKind) {
        Ok(_) => (),
        Err(e) => {
            return Err(e);
        },
    }
    if args.len() != 1 {
        return Err(CallFault::MissingArgument);
    }
    let msg: String = match coerce_to_string(&args[0]) {
        Ok(s) => s,
        Err(e) => {
            return Err(e);
        },
    };
    match cp.with_mut(h) {
        NativeValue::WindowVal(win) => {
            win.alert(msg);
        },
        _ => {
            proof {
                assert(false);
            }
        },
    }
    Ok(ScriptValue::Null)
}

/// The timer operation: resolves "this" as a window, decodes the timeout
/// from the second argument, and queues the timer, with the call's
/// argument list (callback first), for the embedder to arm.
pub fn invoke_set_timeout(cp: &mut Compartment, this: &ScriptValue, args: &Vec<ScriptValue>) -> (r:
    Result<ScriptValue, CallFault>)
    ensures
        match r {
            Ok(v) => {
                &&& v == ScriptValue::Null
                &&& (match *this {
                    ScriptValue::Obj(h) => {
                        &&& is_window(*old(cp), h)
                        &&& args@.len() >= 2
                        &&& ({
                            let p = window_at(*final(cp), h).pending@;
                            let q = window_at(*old(cp), h).pending@;
                            &&& p.len() == q.len() + 1
                            &&& p.subrange(0, q.len() as int) == q
                            &&& (match (p.last(), args@[1]) {
                                (
                                    WindowAction::SetTimeout { timeout, args: kept },
                                    ScriptValue::Int(t),
                                ) => timeout == t as i64 && kept@ == args@,
                                _ => false,
                            })
                        })
                        &&& final(cp).same_heap_except(*old(cp), h as int)
                        &&& final(cp).same_registry(*old(cp))
                        &&& is_window(*final(cp), h)
                        &&& window_at(*final(cp), h).wrapper == window_at(*old(cp), h).wrapper
                    },
                    _ => false,
                })
            },
            Err(e) => {
                &&& *final(cp) == *old(cp)
                &&& (e == CallFault::NotAnObject || e == CallFault::BadHandle || e
                    == CallFault::WrongClass || e == CallFault::MissingArgument || e
                    == CallFault::NotAnInt)
                &&& (e == CallFault::NotAnObject <==> !(*this is Obj))
                &&& (match *this {
                    ScriptValue::Obj(h) => {
                        &&& (e == CallFault::BadHandle <==> !old(cp).wrapped(h as int))
                        &&& (e == CallFault::WrongClass <==> old(cp).wrapped(h as int) && !is_window(
                            *old(cp),
                            h,
                        ))
                        &&& (e == CallFault::MissingArgument <==> is_window(*old(cp), h)
                            && args@.len() < 2)
                        &&& (e == CallFault::NotAnInt <==> is_window(*old(cp), h) && args@.len() >= 2
                            && !(args@[1] is Int))
                    },
                    _ => true,
                })
            },
        },
{
    let h: usize = match decode_obj(this) {
        Ok(h) => h,
        Err(e) => {
            return Err(e);
        },
    };
    match cp.resolve(h, NativeKind::WindowKind) {
        Ok(_) => (),
        Err(e) => {
            return Err(e);
        },
    }
    if args.len() < 2 {
        return Err(CallFault::MissingArgument);
    }
    let t: i32 = match decode_int(&args[1]) {
        Ok(t) => t,
        Err(e) => {
            return Err(e);
        },
    };
    let kept: Vec<ScriptValue> = crate::values::clone_values(args);
    proof {
        assert(kept@ =~= args@);
    }
    match cp.with_mut(h) {
        NativeValue::WindowVal(win) => {
            win.setTimeout(t as i64, kept);
        },
        _ => {
            proof {
                assert(false);
            }
        },
    }
    Ok(ScriptValue::Null)
}

/// The close operation: resolves "this" as a window and queues the close
/// for the embedder.
pub fn invoke_close(cp: &mut Compartment, this: &ScriptValue) -> (r: Result<
    ScriptValue,
    CallFault,
>)
    ensures
        match r {
            Ok(v) => {
                &&& v == ScriptValue::Null
                &&& (match *this {
                    ScriptValue::Obj(h) => {
                        &&& is_window(*old(cp), h)
                        &&& window_at(*final(cp), h).pending@ == window_at(
                            *old(cp),
                            h,
                        ).pending@.push(WindowAction::Close)
                        &&& final(cp).same_heap_except(*old(cp), h as int)
                        &&& final(cp).same_registry(*old(cp))
                        &&& is_window(*final(cp), h)
                        &&& window_at(*final(cp), h).wrapper == window_at(*old(cp), h).wrapper
                    },
                    _ => false,
                })
            },
            Err(e) => {
                &&& *final(cp) == *old(cp)
                &&& (e == CallFault::NotAnObject || e == CallFault::BadHandle || e
                    == CallFault::WrongClass)
                &&& (e == CallFault::NotAnObject <==> !(*this is Obj))
                &&& (match *this {
                    ScriptValue::Obj(h) => {
                        &&& (e == CallFault::BadHandle <==> !old(cp).wrapped(h as int))
                        &&& (e == CallFault::WrongClass <==> old(cp).wrapped(h as int) && !is_window(
                            *old(cp),
                            h,
                        ))
                    },
                    _ => true,
                })
            },
        },
{
    let h: usize = match decode_obj(this) {
        Ok(h) => h,
        Err(e) => {
            return Err(e);
        },
    };
    match cp.resolve(h, NativeKind::WindowKind) {
        Ok(_) => (),
        Err(e) => {
            return Err(e);
        },
    }
    match cp.with_mut(h) {
        NativeValue::WindowVal(win) => {
            win.close();
        },
        _ => {
            proof {
                assert(false);
            }
        },
    }
    Ok(ScriptValue::Null)
}

/// The image width getter: resolves "this" as an image element and
/// encodes the content-box width the embedder's layout answered,
/// saturated into the engine's signed 31-bit range rather than rejected.
pub fn invoke_image_get_width(cp: &Compartment, this: &ScriptValue, layout_width: i64) -> (r: Result<
    ScriptValue,
    CallFault,
>)
    ensures
        match r {
            Ok(v) => (match *this {
                ScriptValue::Obj(h) => is_image_element(*cp, h) && (match v {
                    ScriptValue::Int(n) => n as int == spec_clamp_js_int(layout_width as int),
                    _ => false,
                }),
                _ => false,
            }),
            Err(e) => {
                &&& (e == CallFault::NotAnObject || e == CallFault::BadHandle || e
                    == CallFault::WrongClass)
                &&& (e == CallFault::NotAnObject <==> !(*this is Obj))
                &&& (match *this {
                    ScriptValue::Obj(h) => {
                        &&& (e == CallFault::BadHandle <==> !cp.wrapped(h as int))
                        &&& (e == CallFault::WrongClass <==> cp.wrapped(h as int)
                            && !is_image_element(*cp, h))
                    },
                    _ => true,
                })
            },
        },
{
    let h: usize = match decode_obj(this) {
        Ok(h) => h,
        Err(e) => {
            return Err(e);
        },
    };
    match cp.resolve(h, NativeKind::NodeKind) {
        Ok(_) => (),
        Err(e) => {
            return Err(e);
        },
    }
    let image: bool = match cp.with_imm(h) {
        NativeValue::NodeVal(node) => match &node.payload {
            NodePayload::Element(e) => match e.kind {
                ElementKind::Image => true,
                _ => false,
            },
            _ => false,
        },
        _ => {
            proof {
                assert(false);
            }
            false
        },
    };
    if !image {
        return Err(CallFault::WrongClass);
    }
    Ok(ScriptValue::Int(clamp_js_int(layout_width)))
}

/// The image width setter: resolves "this" as an image element, decodes
/// the integer argument, and stores its decimal rendering as the `width`
/// attribute.
pub fn invoke_image_set_width(cp: &mut Compartment, this: &ScriptValue, args: &Vec<ScriptValue>)
    -> (r: Result<ScriptValue, CallFault>)
    requires
        (match *this {
            ScriptValue::Obj(h) => is_node(*old(cp), h) ==> node_wf(node_at(*old(cp), h)),
            _ => true,
        }),
    ensures
        match r {
            Ok(v) => {
                &&& v == ScriptValue::Null
                &&& (match *this {
                    ScriptValue::Obj(h) => {
                        &&& is_image_element(*old(cp), h)
                        &&& args@.len() >= 1
                        &&& (match args@[0] {
                            ScriptValue::Int(w) => attrs_view(node_at(*final(cp), h)) == attrs_view(
                                node_at(*old(cp), h),
                            ).insert("width"@, spec_decimal(w as int)),
                            _ => false,
                        })
                        &&& is_element(*final(cp), h)
                        &&& node_wf(node_at(*final(cp), h))
                        &&& final(cp).same_heap_except(*old(cp), h as int)
                        &&& final(cp).same_registry(*old(cp))
                    },
                    _ => false,
                })
            },
            Err(e) => {
                &&& *final(cp) == *old(cp)
                &&& (e == CallFault::NotAnObject || e == CallFault::BadHandle || e
                    == CallFault::WrongClass || e == CallFault::MissingArgument || e
                    == CallFault::NotAnInt)
                &&& (e == CallFault::NotAnObject <==> !(*this is Obj))
                &&& (match *this {
                    ScriptValue::Obj(h) => {
                        &&& (e == CallFault::BadHandle <==> !old(cp).wrapped(h as int))
                        &&& (e == CallFault::WrongClass <==> old(cp).wrapped(h as int)
                            && !is_image_element(*old(cp), h))
                        &&& (e == CallFault::MissingArgument <==> is_image_element(*old(cp), h)
                            && args@.len() < 1)
                        &&& (e == CallFault::NotAnInt <==> is_image_element(*old(cp), h)
                            && args@.len() >= 1 && !(args@[0] is Int))
                    },
                    _ => true,
                })
            },
        },
{
    let h: usize = match decode_obj(this) {
        Ok(h) => h,
        Err(e) => {
            return Err(e);
        },
    };
    match cp.resolve(h, NativeKind::NodeKind) {
        Ok(_) => (),
        Err(e) => {
            return Err(e);
        },
    }
    let image: bool = match cp.with_imm(h) {
        NativeValue::NodeVal(node) => match &node.payload {
            NodePayload::Element(e) => match e.kind {
                ElementKind::Image => true,
                _ => false,
            },
            _ => false,
        },
        _ => {
            proof {
                assert(false);
            }
            false
        },
    };
    if !image {
        return Err(CallFault::WrongClass);
    }
    if args.len() < 1 {
        return Err(CallFault::MissingArgument);
    }
    let w: i32 = match decode_int(&args[0]) {
        Ok(w) => w,
        Err(e) => {
            return Err(e);
        },
    };
    let value: String = int_to_string(w);
    let ghost stored = value@;
    match cp.with_mut(h) {
        NativeValue::NodeVal(node) => {
            node.set_attr(String::from_str("width"), value);
        },
        _ => {
            proof {
                assert(false);
            }
        },
    }
    proof {
        assert(attrs_view(node_at(*cp, h)) =~= attrs_view(node_at(*old(cp), h)).insert(
            "width"@,
            stored,
        ));
    }
    Ok(ScriptValue::Null)
}

/// Wrapped rectangles for the answers of a layout query, in order; each
/// gets its own fresh wrapper.
fn wrap_rects(cp: &mut Compartment, ctx: &Context, rects: &Vec<(i32, i32, i32, i32)>) -> (handles:
    Vec<usize>)
    requires
        old(cp).wf(),
        ready_for(*old(cp), NativeKind::RectKind),
        (match ctx.window {
            Some(w) => (w as int) < old(cp).heap@.len(),
            None => false,
        }),
    ensures
        final(cp).wf(),
        final(cp).heap@.len() == old(cp).heap@.len() + rects@.len(),
        forall|o: int|
            0 <= o < old(cp).heap@.len() ==> (#[trigger] final(cp).heap@[o]) == old(cp).heap@[o],
        final(cp).same_registry(*old(cp)),
        handles@.len() == rects@.len(),
        forall|j: int|
            0 <= j < rects@.len() ==> (#[trigger] handles@[j]) as int == old(cp).heap@.len() + j,
        forall|j: int|
            0 <= j < rects@.len() ==> final(cp).wrapped(#[trigger] (old(cp).heap@.len() + j))
                && (match final(cp).embedded(old(cp).heap@.len() + j) {
                NativeValue::RectVal(rc) => rc.top == rects@[j].0 && rc.bottom == rects@[j].1
                    && rc.left == rects@[j].2 && rc.right == rects@[j].3 && rc.wrapper.wrapper
                    == Some(((old(cp).heap@.len() + j) as usize)),
                _ => false,
            }),
{
    let n: usize = rects.len();
    let mut handles: Vec<usize> = Vec::new();
    let mut i: usize = 0;
    while i < n
        invariant
            n == rects@.len(),
            0 <= i <= n,
            cp.wf(),
            cp.heap@.len() == old(cp).heap@.len() + i,
            forall|o: int|
                0 <= o < old(cp).heap@.len() ==> (#[trigger] cp.heap@[o]) == old(cp).heap@[o],
            cp.same_registry(*old(cp)),
            ready_for(*cp, NativeKind::RectKind),
            (match ctx.window {
                Some(w) => (w as int) < old(cp).heap@.len(),
                None => false,
            }),
            handles@.len() == i,
            forall|j: int|
                0 <= j < i ==> (#[trigger] handles@[j]) as int == old(cp).heap@.len() + j,
            forall|j: int|
                0 <= j < i ==> cp.wrapped(#[trigger] (old(cp).heap@.len() + j)) && (match cp.embedded(
                    old(cp).heap@.len() + j,
                ) {
                    NativeValue::RectVal(rc) => rc.top == rects@[j].0 && rc.bottom == rects@[j].1
                        && rc.left == rects@[j].2 && rc.right == rects@[j].3 && rc.wrapper.wrapper
                        == Some(((old(cp).heap@.len() + j) as usize)),
                    _ => false,
                }),
        decreases n - i,
    {
        let ghost before = *cp;
        let c: (i32, i32, i32, i32) = rects[i];
        let rect = ClientRect::new(c.0, c.1, c.2, c.3);
        let h: usize = match init_wrapper(cp, ctx, rect) {
            Ok(h) => h,
            Err(_) => {
                proof {
                    assert(false);
                }
                vstd::pervasive::unreached()
            },
        };
        handles.push(h);
        proof {
            lemma_ready_preserved(before, *cp, NativeKind::RectKind);
        }
        i = i + 1;
    }
    handles
}

/// The client-rects query: resolves "this" as an element, wraps each
/// rectangle the embedder's layout answered, and encodes the wrapped
/// list; when layout answered nothing, the absent result encodes as the
/// engine's null value, a success, not a failure.
pub fn invoke_get_client_rects(
    cp: &mut Compartment,
    ctx: &Context,
    this: &ScriptValue,
    layout_rects: &Option<Vec<(i32, i32, i32, i32)>>,
) -> (r: Result<ScriptValue, CallFault>)
    requires
        old(cp).wf(),
        ready_for(*old(cp), NativeKind::RectKind),
        ready_for(*old(cp), NativeKind::RectListKind),
        (match ctx.window {
            Some(w) => (w as int) < old(cp).heap@.len(),
            None => false,
        }),
    ensures
        final(cp).wf(),
        match r {
            Ok(v) => {
                &&& (match *this {
                    ScriptValue::Obj(h) => is_element(*old(cp), h),
                    _ => false,
                })
                &&& (match *layout_rects {
                    None => v == ScriptValue::Null && *final(cp) == *old(cp),
                    Some(rects) => ({
                        let base = old(cp).heap@.len();
                        let list = base + rects@.len();
                        &&& v == ScriptValue::Obj((list as usize))
                        &&& final(cp).heap@.len() == base + rects@.len() + 1
                        &&& final(cp).wrapped(list as int)
                        &&& (match final(cp).embedded(list as int) {
                            NativeValue::RectListVal(l) => {
                                &&& l.rects@.len() == rects@.len()
                                &&& forall|j: int|
                                    0 <= j < rects@.len() ==> (#[trigger] l.rects@[j]) as int
                                        == base + j
                            },
                            _ => false,
                        })
                        &&& forall|j: int|
                            0 <= j < rects@.len() ==> (match final(cp).embedded(
                                #[trigger] (base + j),
                            ) {
                                NativeValue::RectVal(rc) => rc.top == rects@[j].0 && rc.bottom
                                    == rects@[j].1 && rc.left == rects@[j].2 && rc.right
                                    == rects@[j].3,
                                _ => false,
                            })
                        &&& forall|o: int|
                            0 <= o < base ==> (#[trigger] final(cp).heap@[o]) == old(cp).heap@[o]
                        &&& final(cp).same_registry(*old(cp))
                    }),
                })
            },
            Err(e) => {
                &&& *final(cp) == *old(cp)
                &&& (e == CallFault::NotAnObject || e == CallFault::BadHandle || e
                    == CallFault::WrongClass)
                &&& (e == CallFault::NotAnObject <==> !(*this is Obj))
                &&& (match *this {
                    ScriptValue::Obj(h) => {
                        &&& (e == CallFault::BadHandle <==> !old(cp).wrapped(h as int))
                        &&& (e == CallFault::WrongClass <==> old(cp).wrapped(h as int) && !is_element(
                            *old(cp),
                            h,
                        ))
                    },
                    _ => true,
                })
            },
        },
{
    let h: usize = match decode_obj(this) {
        Ok(h) => h,
        Err(e) => {
            return Err(e);
        },
    };
    match cp.resolve(h, NativeKind::NodeKind) {
        Ok(_) => (),
        Err(e) => {
            return Err(e);
        },
    }
    let elem: bool = match cp.with_imm(h) {
        NativeValue::NodeVal(node) => node.is_element(),
        _ => {
            proof {
                assert(false);
            }
            false
        },
    };
    if !elem {
        return Err(CallFault::WrongClass);
    }
    let rects: &Vec<(i32, i32, i32, i32)> = match layout_rects {
        Some(rects) => rects,
        None => {
            return Ok(ScriptValue::Null);
        },
    };
    let ghost before = *cp;
    let handles: Vec<usize> = wrap_rects(cp, ctx, rects);
    proof {
        lemma_ready_preserved(before, *cp, NativeKind::RectListKind);
    }
    let list: usize = match init_wrapper(cp, ctx, ClientRectList::new(handles)) {
        Ok(l) => l,
        Err(_) => {
            proof {
                assert(false);
            }
            vstd::pervasive::unreached()
        },
    };
    Ok(ScriptValue::Obj(list))
}

/// The bounding-rect query: resolves "this" as an element and encodes the
/// embedder's bounding box, wrapped, or the null value when layout
/// answered none.
pub fn invoke_get_bounding_client_rect(
    cp: &mut Compartment,
    ctx: &Context,
    this: &ScriptValue,
    layout_rect: Option<(i32, i32, i32, i32)>,
) -> (r: Result<ScriptValue, CallFault>)
    requires
        old(cp).wf(),
        ready_for(*old(cp), NativeKind::RectKind),
        (match ctx.window {
            Some(w) => (w as int) < old(cp).heap@.len(),
            None => false,
        }),
    ensures
        final(cp).wf(),
        match r {
            Ok(v) => {
                &&& (match *this {
                    ScriptValue::Obj(h) => is_element(*old(cp), h),
                    _ => false,
                })
                &&& (match layout_rect {
                    None => v == ScriptValue::Null && *final(cp) == *old(cp),
                    Some(c) => {
                        &&& v == ScriptValue::Obj((old(cp).heap@.len() as usize))
                        &&& final(cp).heap@.len() == old(cp).heap@.len() + 1
                        &&& final(cp).wrapped(old(cp).heap@.len() as int)
                        &&& (match final(cp).embedded(old(cp).heap@.len() as int) {
                            NativeValue::RectVal(rc) => rc.top == c.0 && rc.bottom == c.1
                                && rc.left == c.2 && rc.right == c.3,
                            _ => false,
                        })
                        &&& forall|o: int|
                            0 <= o < old(cp).heap@.len() ==> (#[trigger] final(cp).heap@[o])
                                == old(cp).heap@[o]
                        &&& final(cp).same_registry(*old(cp))
                    },
                })
            },
            Err(e) => {
                &&& *final(cp) == *old(cp)
                &&& (e == CallFault::NotAnObject || e == CallFault::BadHandle || e
                    == CallFault::WrongClass)
                &&& (e == CallFault::NotAnObject <==> !(*this is Obj))
                &&& (match *this {
                    ScriptValue::Obj(h) => {
                        &&& (e == CallFault::BadHandle <==> !old(cp).wrapped(h as int))
                        &&& (e == CallFault::WrongClass <==> old(cp).wrapped(h as int) && !is_element(
                            *old(cp),
                            h,
                        ))
                    },
                    _ => true,
                })
            },
        },
{
    let h: usize = match decode_obj(this) {
        Ok(h) => h,
        Err(e) => {
            return Err(e);
        },
    };
    match cp.resolve(h, NativeKind::NodeKind) {
        Ok(_) => (),
        Err(e) => {
            return Err(e);
        },
    }
    let elem: bool = match cp.with_imm(h) {
        NativeValue::NodeVal(node) => node.is_element(),
        _ => {
            proof {
                assert(false);
            }
            false
        },
    };
    if !elem {
        return Err(CallFault::WrongClass);
    }
    let c: (i32, i32, i32, i32) = match layout_rect {
        Some(c) => c,
        None => {
            return Ok(ScriptValue::Null);
        },
    };
    let rect = ClientRect::new(c.0, c.1, c.2, c.3);
    match init_wrapper(cp, ctx, rect) {
        Ok(obj) => Ok(ScriptValue::Obj(obj)),
        Err(_) => {
            proof {
                assert(false);
            }
            vstd::pervasive::unreached()
        },
    }
}

} // verus!
