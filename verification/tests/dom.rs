//! Documents, tag-name queries, and the cross-boundary trampolines.

use script_bindings::bindings::{create_window, wrap_element, Context};
use script_bindings::cache::BindingFault;
use script_bindings::compartment::Compartment;
use script_bindings::document;
use script_bindings::native::{NativeKind, NativeValue};
use script_bindings::node::{ElementKind, Node};
use script_bindings::parser::{DOMParser, SupportedType};
use script_bindings::setup::init_dom;
use script_bindings::trampoline;
use script_bindings::values::{CallFault, ScriptValue};
use script_bindings::window::{Window, WindowAction};

fn realm_with_window() -> (Compartment, usize) {
    let mut cp = init_dom();
    let win = create_window(&mut cp, Window::new()).unwrap();
    (cp, win)
}

#[test]
fn get_elements_by_tag_name_finds_the_html_root() {
    let (mut cp, win) = realm_with_window();
    let parser = DOMParser::new(win);
    let mut rv = Ok(());
    let doc = parser.ParseFromString(&mut cp, "<html></html>".to_string(), SupportedType::TextHtml, &mut rv);
    let root = match cp.with_imm(doc) {
        NativeValue::DocumentVal(d) => d.root,
        _ => unreachable!(),
    };
    let ctx = Context { window: Some(win) };
    let preorder = vec![root];
    let col = document::getElementsByTagName(&mut cp, &ctx, doc, &preorder, &"html".to_string())
        .unwrap();
    match cp.with_imm(col) {
        NativeValue::CollectionVal(c) => {
            assert_eq!(c.Length(), 1);
            assert_eq!(c.Item(0), Some(root));
            assert_eq!(c.Item(1), None);
        }
        _ => panic!("expected a collection"),
    }
    let empty = document::getElementsByTagName(&mut cp, &ctx, doc, &preorder, &"body".to_string())
        .unwrap();
    match cp.with_imm(empty) {
        NativeValue::CollectionVal(c) => assert_eq!(c.Length(), 0),
        _ => panic!("expected a collection"),
    }
}

#[test]
fn new_document_pins_root_and_teardown_releases_it() {
    let (mut cp, win) = realm_with_window();
    let root =
        wrap_element(&mut cp, Node::new_element(ElementKind::Html, "html".to_string())).unwrap();
    assert_eq!(cp.heap[root].pin_count, 0);
    let doc = document::new_document(&mut cp, root, Some(win)).unwrap();
    assert_eq!(cp.heap[root].pin_count, 1);
    document::teardown(&mut cp, doc).unwrap();
    assert_eq!(cp.heap[root].pin_count, 0);
    assert_eq!(document::teardown(&mut cp, doc), Err(BindingFault::UnbalancedPin));
}

#[test]
fn content_changed_queues_a_reflow_for_the_window() {
    let (mut cp, win) = realm_with_window();
    let root =
        wrap_element(&mut cp, Node::new_element(ElementKind::Html, "html".to_string())).unwrap();
    let doc = document::new_document(&mut cp, root, Some(win)).unwrap();
    document::content_changed(&mut cp, doc).unwrap();
    match cp.with_mut(win) {
        NativeValue::WindowVal(w) => {
            let actions = w.take_pending();
            assert_eq!(actions.len(), 1);
            assert!(matches!(actions[0], WindowAction::Reflow));
        }
        _ => unreachable!(),
    }
}

#[test]
fn set_attribute_rejects_non_string_without_side_effects() {
    let (mut cp, _win) = realm_with_window();
    let el =
        wrap_element(&mut cp, Node::new_element(ElementKind::Div, "div".to_string())).unwrap();
    let this = ScriptValue::Obj(el);
    // A non-string dynamic value where a string is required fails the call.
    let args = vec![ScriptValue::Int(5), ScriptValue::Str("x".to_string())];
    assert_eq!(
        trampoline::invoke_set_attribute(&mut cp, &this, &args),
        Err(CallFault::NotAString)
    );
    // Native state is untouched: the element still has no attributes.
    match cp.with_imm(el) {
        NativeValue::NodeVal(node) => assert_eq!(node.get_attr(&"x".to_string()), None),
        _ => unreachable!(),
    }
    // Too few arguments fail before anything runs.
    let one = vec![ScriptValue::Str("id".to_string())];
    assert_eq!(
        trampoline::invoke_set_attribute(&mut cp, &this, &one),
        Err(CallFault::MissingArgument)
    );
    // With two strings the attribute is stored.
    let good = vec![
        ScriptValue::Str("id".to_string()),
        ScriptValue::Str("main".to_string()),
    ];
    assert!(matches!(
        trampoline::invoke_set_attribute(&mut cp, &this, &good),
        Ok(ScriptValue::Null)
    ));
    match cp.with_imm(el) {
        NativeValue::NodeVal(node) => {
            assert_eq!(node.get_attr(&"id".to_string()), Some(&"main".to_string()));
        }
        _ => unreachable!(),
    }
}

#[test]
fn tag_name_round_trips_through_the_trampoline() {
    let (mut cp, _win) = realm_with_window();
    let el =
        wrap_element(&mut cp, Node::new_element(ElementKind::Div, "div".to_string())).unwrap();
    match trampoline::invoke_get_tag_name(&cp, &ScriptValue::Obj(el)) {
        Ok(ScriptValue::Str(s)) => assert_eq!(s, "div"),
        other => panic!("unexpected result: {:?}", matches!(other, Ok(_))),
    }
    assert_eq!(
        trampoline::invoke_get_tag_name(&cp, &ScriptValue::Null),
        Err(CallFault::NotAnObject)
    );
    assert_eq!(
        trampoline::invoke_get_tag_name(&cp, &ScriptValue::Obj(0)),
        Err(CallFault::BadHandle)
    );
}

#[test]
fn document_element_and_query_through_dynamic_values() {
    let (mut cp, win) = realm_with_window();
    let parser = DOMParser::new(win);
    let mut rv = Ok(());
    let doc = parser.ParseFromString(&mut cp, "".to_string(), SupportedType::TextHtml, &mut rv);
    let root = match trampoline::invoke_get_document_element(&cp, &ScriptValue::Obj(doc)) {
        Ok(ScriptValue::Obj(root)) => root,
        _ => panic!("expected the root element"),
    };
    let ctx = Context { window: Some(win) };
    let args = vec![ScriptValue::Str("html".to_string())];
    let preorder = vec![root];
    match trampoline::invoke_get_elements_by_tag_name(
        &mut cp,
        &ctx,
        &ScriptValue::Obj(doc),
        &args,
        &preorder,
    ) {
        Ok(ScriptValue::Obj(col)) => match cp.with_imm(col) {
            NativeValue::CollectionVal(c) => {
                assert_eq!(c.Length(), 1);
                assert_eq!(c.Item(0), Some(root));
            }
            _ => unreachable!(),
        },
        _ => panic!("expected a collection"),
    }
    let bad = vec![ScriptValue::Int(3)];
    assert_eq!(
        trampoline::invoke_get_elements_by_tag_name(
            &mut cp,
            &ctx,
            &ScriptValue::Obj(doc),
            &bad,
            &preorder,
        ),
        Err(CallFault::NotAString)
    );
}

#[test]
fn a_traversal_entry_that_is_no_node_fails_the_query_unchanged() {
    let (mut cp, win) = realm_with_window();
    let root =
        wrap_element(&mut cp, Node::new_element(ElementKind::Html, "html".to_string())).unwrap();
    let doc = document::new_document(&mut cp, root, Some(win)).unwrap();
    let ctx = Context { window: Some(win) };
    // The window is wrapped, but it is no node: the handed-over walk is bad.
    let bad_walk = vec![root, win];
    let before = cp.heap.len();
    assert_eq!(
        document::getElementsByTagName(&mut cp, &ctx, doc, &bad_walk, &"html".to_string()),
        Err(CallFault::BadHandle)
    );
    assert_eq!(cp.heap.len(), before);
}

#[test]
fn operations_refuse_a_this_of_the_wrong_shape() {
    let (mut cp, win) = realm_with_window();
    let el =
        wrap_element(&mut cp, Node::new_element(ElementKind::Div, "div".to_string())).unwrap();
    assert_eq!(
        trampoline::invoke_get_document_element(&cp, &ScriptValue::Obj(el)),
        Err(CallFault::WrongClass)
    );
    assert_eq!(document::content_changed(&mut cp, win), Err(CallFault::WrongClass));
    assert!(matches!(
        document::teardown(&mut cp, el),
        Err(BindingFault::KindMismatch)
    ));
    assert_eq!(
        trampoline::invoke_close(&mut cp, &ScriptValue::Obj(el)),
        Err(CallFault::WrongClass)
    );
}

#[test]
fn window_operations_queue_their_actions() {
    let (mut cp, win) = realm_with_window();
    let this = ScriptValue::Obj(win);
    let args = vec![ScriptValue::Str("hi".to_string())];
    assert!(matches!(trampoline::invoke_alert(&mut cp, &this, &args), Ok(ScriptValue::Null)));
    // The engine's string conversion applies to primitive arguments.
    let coerced = vec![ScriptValue::Int(42)];
    assert!(trampoline::invoke_alert(&mut cp, &this, &coerced).is_ok());
    let object_arg = vec![ScriptValue::Obj(win)];
    assert_eq!(
        trampoline::invoke_alert(&mut cp, &this, &object_arg),
        Err(CallFault::NotAString)
    );
    let timeout_args = vec![ScriptValue::Str("tick".to_string()), ScriptValue::Int(250)];
    assert!(trampoline::invoke_set_timeout(&mut cp, &this, &timeout_args).is_ok());
    assert_eq!(
        trampoline::invoke_set_timeout(&mut cp, &this, &vec![ScriptValue::Int(1)]),
        Err(CallFault::MissingArgument)
    );
    assert!(trampoline::invoke_close(&mut cp, &this).is_ok());
    match cp.with_mut(win) {
        NativeValue::WindowVal(w) => {
            let actions = w.take_pending();
            assert_eq!(actions.len(), 4);
            assert!(matches!(&actions[0], WindowAction::Alert(m) if m == "hi"));
            assert!(matches!(&actions[1], WindowAction::Alert(m) if m == "42"));
            match &actions[2] {
                WindowAction::SetTimeout { timeout, args } => {
                    assert_eq!(*timeout, 250);
                    // The callback and its arguments ride along for the
                    // embedder to run when the timer fires.
                    assert_eq!(args.len(), 2);
                    assert!(matches!(&args[0], ScriptValue::Str(s) if s == "tick"));
                    assert!(matches!(args[1], ScriptValue::Int(250)));
                }
                _ => panic!("expected a timer action"),
            }
            assert!(matches!(actions[3], WindowAction::Close));
        }
        _ => unreachable!(),
    }
}

#[test]
fn image_width_saturates_into_the_31_bit_range() {
    let (mut cp, _win) = realm_with_window();
    let img =
        wrap_element(&mut cp, Node::new_element(ElementKind::Image, "img".to_string())).unwrap();
    let div =
        wrap_element(&mut cp, Node::new_element(ElementKind::Div, "div".to_string())).unwrap();
    let this = ScriptValue::Obj(img);
    assert!(matches!(
        trampoline::invoke_image_get_width(&cp, &this, 640),
        Ok(ScriptValue::Int(640))
    ));
    assert!(matches!(
        trampoline::invoke_image_get_width(&cp, &this, 5_000_000_000),
        Ok(ScriptValue::Int(1_073_741_823))
    ));
    assert!(matches!(
        trampoline::invoke_image_get_width(&cp, &this, -5_000_000_000),
        Ok(ScriptValue::Int(-1_073_741_824))
    ));
    assert_eq!(
        trampoline::invoke_image_get_width(&cp, &ScriptValue::Obj(div), 640),
        Err(CallFault::WrongClass)
    );
    // The setter stores the decimal rendering as the width attribute.
    let set = vec![ScriptValue::Int(640)];
    assert!(trampoline::invoke_image_set_width(&mut cp, &this, &set).is_ok());
    match cp.with_imm(img) {
        NativeValue::NodeVal(node) => {
            assert_eq!(node.get_attr(&"width".to_string()), Some(&"640".to_string()));
        }
        _ => unreachable!(),
    }
}

#[test]
fn client_rect_queries_wrap_the_layout_answers() {
    let (mut cp, win) = realm_with_window();
    let el =
        wrap_element(&mut cp, Node::new_element(ElementKind::Div, "div".to_string())).unwrap();
    let ctx = Context { window: Some(win) };
    let this = ScriptValue::Obj(el);
    // An absent layout answer encodes as the engine null, a success.
    let before = cp.heap.len();
    assert!(matches!(
        trampoline::invoke_get_client_rects(&mut cp, &ctx, &this, &None),
        Ok(ScriptValue::Null)
    ));
    assert_eq!(cp.heap.len(), before);
    let rects = Some(vec![(0, 10, 0, 5), (2, 4, 6, 8)]);
    match trampoline::invoke_get_client_rects(&mut cp, &ctx, &this, &rects) {
        Ok(ScriptValue::Obj(list)) => match cp.with_imm(list) {
            NativeValue::RectListVal(l) => {
                assert_eq!(l.Length(), 2);
                let first = l.Item(0).unwrap();
                match cp.with_imm(first) {
                    NativeValue::RectVal(rc) => {
                        assert_eq!(rc.Top(), 0);
                        assert_eq!(rc.Bottom(), 10);
                        assert_eq!(rc.Width(), 5);
                    }
                    _ => unreachable!(),
                }
            }
            _ => unreachable!(),
        },
        _ => panic!("expected a rect list"),
    }
    assert!(matches!(
        trampoline::invoke_get_bounding_client_rect(&mut cp, &ctx, &this, None),
        Ok(ScriptValue::Null)
    ));
    match trampoline::invoke_get_bounding_client_rect(&mut cp, &ctx, &this, Some((1, 2, 3, 4))) {
        Ok(ScriptValue::Obj(h)) => match cp.with_imm(h) {
            NativeValue::RectVal(rc) => assert_eq!(rc.Left(), 3),
            _ => unreachable!(),
        },
        _ => panic!("expected a wrapped rect"),
    }
}
