//! The peripheral data classes: rectangles, form data, events, the
//! collection, the window proxy, and their ownership capability.

use script_bindings::bindings::{BindingObject, Context};
use script_bindings::collection::HTMLCollection;
use script_bindings::event::{event_prevent_default, event_type, Event_, EventInit};
use script_bindings::formdata::{FormData, FormDatum};
use script_bindings::mouseevent::{MouseEvent, MouseEventInit};
use script_bindings::parser::DOMParser;
use script_bindings::rect::{ClientRect, ClientRectList};
use script_bindings::uievent::{UIEvent, UIEventInit};
use script_bindings::values::CallFault;
use script_bindings::windowproxy::WindowProxy;

#[test]
fn rect_extent_is_order_independent() {
    let r = ClientRect::new(0, 10, 0, 5);
    assert_eq!(r.Top(), 0);
    assert_eq!(r.Bottom(), 10);
    assert_eq!(r.Left(), 0);
    assert_eq!(r.Right(), 5);
    assert_eq!(r.Width(), 5);
    assert_eq!(r.Height(), 10);
    // Swapped edges still give the absolute difference.
    let upside_down = ClientRect::new(10, 0, 5, 0);
    assert_eq!(upside_down.Height(), 10);
    assert_eq!(upside_down.Width(), 5);
}

#[test]
fn rect_list_indexing() {
    let list = ClientRectList::new(vec![4, 9]);
    assert_eq!(list.Length(), 2);
    assert_eq!(list.Item(0), Some(4));
    assert_eq!(list.Item(2), None);
    let mut found = false;
    assert_eq!(list.IndexedGetter(1, &mut found), Some(9));
    assert!(found);
    assert_eq!(list.IndexedGetter(5, &mut found), None);
    assert!(!found);
}

#[test]
fn blob_entry_defaults_its_filename() {
    let mut form = FormData::new();
    form.Append("upload".to_string(), 3, None);
    assert_eq!(form.data.len(), 1);
    assert_eq!(form.data[0].key, "upload");
    match &form.data[0].value {
        FormDatum::BlobData { blob, name } => {
            assert_eq!(*blob, 3);
            assert_eq!(name, "default");
        }
        _ => panic!("expected a blob entry"),
    }
    // An explicit filename is kept.
    form.Append("photo".to_string(), 4, Some("cat.png".to_string()));
    match &form.data[1].value {
        FormDatum::BlobData { name, .. } => assert_eq!(name, "cat.png"),
        _ => panic!("expected a blob entry"),
    }
}

#[test]
fn form_entries_replace_under_one_name() {
    let mut form = FormData::new();
    form.Append_("a".to_string(), "1".to_string());
    form.Append_("a".to_string(), "2".to_string());
    assert_eq!(form.data.len(), 1);
    match &form.data[0].value {
        FormDatum::StringData(s) => assert_eq!(s, "2"),
        _ => panic!("expected a string entry"),
    }
}

#[test]
fn event_defaults_and_init() {
    let mut ev = Event_::new("click".to_string());
    assert_eq!(ev.Type(), "click");
    assert!(ev.Bubbles());
    assert!(ev.Cancelable());
    assert!(!ev.DefaultPrevented());
    assert!(!ev.IsTrusted());
    assert_eq!(ev.EventPhase(), 0);
    assert_eq!(ev.TimeStamp(), 0);
    assert_eq!(ev.GetTarget(), None);
    ev.PreventDefault();
    assert!(ev.DefaultPrevented());
    let mut rv = Ok(());
    ev.InitEvent("scroll".to_string(), false, false, &mut rv);
    assert_eq!(ev.Type(), "scroll");
    assert!(!ev.Bubbles());
    assert!(!ev.Cancelable());
    // Re-initialization does not clear a prevented default.
    assert!(ev.DefaultPrevented());
}

#[test]
fn event_constructor_uses_the_given_type() {
    let init = EventInit { bubbles: false, cancelable: true };
    let mut rv = Ok(());
    let ev = Event_::Constructor(0, "custom".to_string(), &init, &mut rv);
    assert_eq!(ev.Type(), "custom");
    assert!(rv.is_ok());
}

#[test]
fn base_fields_reachable_generically_from_every_event_type() {
    let mut ui = UIEvent::new("resize".to_string(), true, false, Some(5), 2);
    assert_eq!(event_type(&ui), "resize");
    event_prevent_default(&mut ui);
    assert!(ui.parent.DefaultPrevented());
    let mut mouse = MouseEvent::new(
        "mousedown".to_string(),
        true,
        true,
        None,
        1,
        10,
        20,
        30,
        40,
        false,
        false,
        false,
        false,
        0,
        0,
        None,
    );
    assert_eq!(event_type(&mouse), "mousedown");
    event_prevent_default(&mut mouse);
    assert!(mouse.parent.parent.DefaultPrevented());
}

#[test]
fn ui_event_fields_and_stubs() {
    let mut ui = UIEvent::new("zoom".to_string(), true, true, Some(8), 3);
    assert_eq!(ui.GetView(), Some(8));
    assert_eq!(ui.Detail(), 3);
    assert_eq!(ui.LayerX(), 0);
    assert_eq!(ui.PageY(), 0);
    assert_eq!(ui.Which(), 0);
    assert_eq!(ui.GetRangeParent(), None);
    assert!(!ui.CancelBubble());
    assert!(!ui.IsChar());
    ui.InitUIEvent("pan".to_string(), false, true, None, 9);
    assert_eq!(ui.Detail(), 9);
    assert_eq!(ui.GetView(), None);
    assert_eq!(ui.parent.Type(), "pan");
    let init = UIEventInit {
        parent: EventInit { bubbles: true, cancelable: false },
        view: Some(1),
        detail: 7,
    };
    let mut rv = Ok(());
    let built = UIEvent::Constructor(0, "made".to_string(), &init, &mut rv);
    assert_eq!(built.Detail(), 7);
    assert_eq!(built.GetView(), Some(1));
}

#[test]
fn mouse_event_fields_and_reinit() {
    let init = MouseEventInit {
        parent: UIEventInit {
            parent: EventInit { bubbles: true, cancelable: true },
            view: Some(2),
            detail: 1,
        },
        screenX: 11,
        screenY: 12,
        clientX: 13,
        clientY: 14,
        ctrlKey: true,
        shiftKey: false,
        altKey: true,
        metaKey: false,
        button: 2,
        buttons: 0,
        relatedTarget: Some(6),
    };
    let mut rv = Ok(());
    let mut ev = MouseEvent::Constructor(0, "click".to_string(), &init, &mut rv);
    assert_eq!(ev.ScreenX(), 11);
    assert_eq!(ev.ScreenY(), 12);
    assert_eq!(ev.ClientX(), 13);
    assert_eq!(ev.ClientY(), 14);
    assert!(ev.CtrlKey());
    assert!(!ev.ShiftKey());
    assert!(ev.AltKey());
    assert!(!ev.MetaKey());
    assert_eq!(ev.Button(), 2);
    assert_eq!(ev.Buttons(), 0);
    assert_eq!(ev.GetRelatedTarget(), Some(6));
    assert!(!ev.GetModifierState("Shift".to_string()));
    ev.InitMouseEvent(
        "dblclick".to_string(),
        false,
        false,
        None,
        2,
        1,
        2,
        3,
        4,
        false,
        false,
        true,
        true,
        1,
        None,
        &mut rv,
    );
    assert_eq!(ev.ClientY(), 4);
    assert_eq!(ev.Button(), 1);
    assert_eq!(ev.GetRelatedTarget(), None);
    assert_eq!(ev.parent.parent.Type(), "dblclick");
}

#[test]
fn collection_lookups() {
    let col = HTMLCollection::new(vec![7, 8, 9]);
    assert_eq!(col.Length(), 3);
    assert_eq!(col.Item(2), Some(9));
    assert_eq!(col.Item(3), None);
    let mut rv = Err(CallFault::MissingArgument);
    assert_eq!(col.NamedItem("anything".to_string(), &mut rv), None);
    assert_eq!(rv, Ok(()));
    let mut found = false;
    assert_eq!(col.IndexedGetter(9, &mut found), None);
    // The indexed getter of a collection always reports the index found.
    assert!(found);
}

#[test]
fn owning_scope_is_the_active_global() {
    let with_window = Context { window: Some(12) };
    let without = Context { window: None };
    let rect = ClientRect::new(0, 0, 0, 0);
    assert_eq!(rect.GetParentObject(&with_window), Ok(12));
    assert_eq!(rect.GetParentObject(&without), Err(CallFault::NoGlobal));
    let proxy = WindowProxy::new();
    assert_eq!(proxy.GetParentObject(&with_window), Ok(12));
    // A parser is owned by the window that created it, whatever is active.
    let parser = DOMParser::new(3);
    assert_eq!(parser.GetParentObject(&with_window), Ok(3));
    let mut rv = Ok(());
    let constructed = DOMParser::Constructor(5, &mut rv);
    assert_eq!(constructed.owner, 5);
}
