//! The wrapping lifecycle: registration, the wrapper cache, creation,
//! finalization and tracing.

use script_bindings::blob::Blob;
use script_bindings::cache::{BindingFault, WrapperCache};
use script_bindings::compartment::Compartment;
use script_bindings::formdata::{FormData, FormDatum};
use script_bindings::native::{NativeKind, NativeValue};
use script_bindings::node::{ElementKind, Node, NodePayload};
use script_bindings::bindings::{wrap_element, wrap_text_node};
use script_bindings::setup::init_dom;

#[test]
fn registration_checks_storage_size_not_creation() {
    let mut cp = Compartment::new();
    // A blob needs 8 bytes of inline storage: 4 is refused at registration.
    assert_eq!(
        cp.register_class("Gadget".to_string(), NativeKind::BlobKind, 4),
        Err(BindingFault::StorageTooSmall)
    );
    // With enough storage the registration goes through once.
    assert!(cp.register_class("Gadget".to_string(), NativeKind::BlobKind, 8).is_ok());
    assert_eq!(
        cp.register_class("Gadget".to_string(), NativeKind::BlobKind, 8),
        Err(BindingFault::DuplicateClass)
    );
    // Creation never re-checks the size: it succeeds for the registered
    // class, and fails only for unregistered names or mismatched kinds.
    cp.define_prototype("GadgetPrototype".to_string(), None).unwrap();
    let obj = cp
        .create(
            &"Gadget".to_string(),
            &"GadgetPrototype".to_string(),
            0,
            NativeValue::BlobVal(Blob::new()),
        )
        .unwrap();
    assert!(cp.resolve(obj, NativeKind::BlobKind).is_ok());
    assert_eq!(
        cp.create(
            &"Widget".to_string(),
            &"GadgetPrototype".to_string(),
            0,
            NativeValue::BlobVal(Blob::new()),
        ),
        Err(BindingFault::UnknownClass)
    );
    assert_eq!(
        cp.create(
            &"Gadget".to_string(),
            &"GadgetPrototype".to_string(),
            0,
            NativeValue::FormDataVal(FormData::new()),
        ),
        Err(BindingFault::KindMismatch)
    );
}

#[test]
fn prototype_definitions_are_one_time_and_checked() {
    let mut cp = Compartment::new();
    assert!(matches!(
        cp.define_prototype("Orphan".to_string(), Some("Missing".to_string())),
        Err(BindingFault::UnknownProto)
    ));
    assert!(cp.define_prototype("Base".to_string(), None).is_ok());
    assert!(matches!(
        cp.define_prototype("Base".to_string(), None),
        Err(BindingFault::DuplicateProto)
    ));
    assert!(cp.define_prototype("Derived".to_string(), Some("Base".to_string())).is_ok());
}

#[test]
fn set_wrapper_once_then_always_fails() {
    let mut cache = WrapperCache::new();
    assert_eq!(cache.get_wrapper(), None);
    assert_eq!(cache.set_wrapper(7), Ok(()));
    assert_eq!(cache.get_wrapper(), Some(7));
    assert_eq!(cache.set_wrapper(9), Err(BindingFault::WrapperAlreadySet));
    // The identity is stable: the first handle is still the answer.
    assert_eq!(cache.get_wrapper(), Some(7));
    assert_eq!(cache.get_rootable(), Ok(7));
}

#[test]
fn get_rootable_requires_a_wrapper() {
    let cache = WrapperCache::new();
    assert_eq!(cache.get_rootable(), Err(BindingFault::WrapperNotSet));
}

#[test]
fn finalize_delivers_last_written_value_exactly_once() {
    let mut cp = init_dom();
    let ctx_obj = cp
        .create(
            &"FormData".to_string(),
            &"FormDataPrototype".to_string(),
            0,
            NativeValue::FormDataVal(FormData::new()),
        )
        .unwrap();
    // Write the value after wrapping, through the scoped borrow.
    match cp.with_mut(ctx_obj) {
        NativeValue::FormDataVal(f) => {
            f.Append_("greeting".to_string(), "hello".to_string());
            f.Append("upload".to_string(), 42, None);
        }
        _ => unreachable!(),
    }
    // Finalize moves the value out, exactly as last written.
    let v = cp.finalize(ctx_obj).unwrap();
    match v {
        NativeValue::FormDataVal(f) => {
            assert_eq!(f.data.len(), 2);
            assert_eq!(f.data[0].key, "greeting");
            match &f.data[0].value {
                FormDatum::StringData(s) => assert_eq!(s, "hello"),
                _ => panic!("expected a string entry"),
            }
            match &f.data[1].value {
                FormDatum::BlobData { blob, name } => {
                    assert_eq!(*blob, 42);
                    assert_eq!(name, "default");
                }
                _ => panic!("expected a blob entry"),
            }
        }
        _ => panic!("expected form data back"),
    }
    // The slot is empty now: a second finalize fails.
    assert!(matches!(cp.finalize(ctx_obj), Err(BindingFault::AlreadyFinalized)));
    assert!(matches!(cp.finalize(1_000_000), Err(BindingFault::InvalidHandle)));
}

#[test]
fn trace_reports_exactly_the_linked_nodes() {
    let mut cp = init_dom();
    let p = wrap_element(&mut cp, Node::new_element(ElementKind::Div, "div".to_string())).unwrap();
    let c1 = wrap_element(&mut cp, Node::new_element(ElementKind::Div, "div".to_string())).unwrap();
    let c2 = wrap_element(&mut cp, Node::new_element(ElementKind::Div, "div".to_string())).unwrap();
    let n = wrap_element(&mut cp, Node::new_element(ElementKind::Div, "div".to_string())).unwrap();
    match cp.with_mut(n) {
        NativeValue::NodeVal(node) => node.set_links(Some(p), Some(c1), Some(c2), None, None),
        _ => unreachable!(),
    }
    let mut edges = cp.trace(n).unwrap();
    edges.sort();
    let mut expected = vec![p, c1, c2];
    expected.sort();
    assert_eq!(edges, expected);
    // A node with no linked natives reports nothing.
    assert_eq!(cp.trace(c1).unwrap(), Vec::<usize>::new());
    // An interface object has no embedded value to trace.
    assert_eq!(cp.trace(0), Err(BindingFault::NotWrapped));
}

#[test]
fn textual_nodes_wrap_under_their_own_classes() {
    let mut cp = init_dom();
    let text = wrap_text_node(&mut cp, Node::new_leaf(NodePayload::Text("hi".to_string()))).unwrap();
    assert!(cp.resolve(text, NativeKind::NodeKind).is_ok());
    match cp.with_imm(text) {
        NativeValue::NodeVal(node) => {
            assert!(matches!(&node.payload, NodePayload::Text(s) if s == "hi"));
            assert_eq!(node.tag_name(), None);
        }
        _ => unreachable!(),
    }
    // An element payload does not go through the textual path.
    assert!(matches!(
        wrap_text_node(&mut cp, Node::new_element(ElementKind::Div, "div".to_string())),
        Err(BindingFault::KindMismatch)
    ));
    // The global `window` slot is installed when a window is wrapped.
    let win = script_bindings::bindings::create_window(
        &mut cp,
        script_bindings::window::Window::new(),
    )
    .unwrap();
    assert!(cp.heap[cp.global_obj]
        .props
        .iter()
        .any(|p| p.key == "window"
            && matches!(p.value.value, script_bindings::values::ScriptValue::Obj(o) if o == win)));
}

#[test]
fn pins_nest_and_must_be_paired() {
    let mut cp = Compartment::new();
    assert_eq!(cp.unpin(0), Err(BindingFault::UnbalancedPin));
    assert_eq!(cp.pin(0), Ok(()));
    assert_eq!(cp.pin(0), Ok(()));
    assert_eq!(cp.unpin(0), Ok(()));
    assert_eq!(cp.unpin(0), Ok(()));
    assert_eq!(cp.unpin(0), Err(BindingFault::UnbalancedPin));
    assert_eq!(cp.pin(99), Err(BindingFault::InvalidHandle));
}

#[test]
fn resolve_rejects_wrong_class_and_dead_handles() {
    let mut cp = init_dom();
    let el = wrap_element(&mut cp, Node::new_element(ElementKind::Html, "html".to_string())).unwrap();
    assert!(cp.resolve(el, NativeKind::NodeKind).is_ok());
    assert_eq!(
        cp.resolve(el, NativeKind::DocumentKind),
        Err(script_bindings::values::CallFault::WrongClass)
    );
    assert_eq!(
        cp.resolve(el + 100, NativeKind::NodeKind),
        Err(script_bindings::values::CallFault::BadHandle)
    );
    cp.finalize(el).unwrap();
    assert_eq!(
        cp.resolve(el, NativeKind::NodeKind),
        Err(script_bindings::values::CallFault::BadHandle)
    );
}
