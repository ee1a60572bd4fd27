//! The two capability contracts every wrappable native type implements:
//! access to its wrapper cache, and, for values constructed outside the
//! main tree, the owning scope under which a lazily created wrapper is
//! rooted, with the lazy-wrap entry point itself.

use vstd::prelude::*;
use vstd::string::StringExecFns;
use crate::blob::Blob;
use crate::cache::{BindingFault, WrapperCache};
use crate::collection::HTMLCollection;
use crate::compartment::Compartment;
use crate::document::Document;
use crate::event::Event_;
use crate::formdata::FormData;
use crate::mouseevent::MouseEvent;
use crate::native::{cache_of, spec_kind, NativeKind, NativeValue, with_cache};
use crate::node::{ElementKind, Node, NodePayload};
use crate::parser::DOMParser;
use crate::rect::{ClientRect, ClientRectList};
use crate::uievent::UIEvent;
use crate::values::CallFault;
use crate::window::Window;
use crate::windowproxy::WindowProxy;

verus! {

/// The execution context an operation runs under: the active global (the
/// root frame's window wrapper), threaded explicitly through every
/// operation that needs it.
pub struct Context {
    pub window: Option<usize>,
}

/// Access to the wrapper cache a wrappable type embeds, and the move of
/// its values into the closed native family.
pub trait CacheableWrapper: Sized {
    /// The embedded wrapper cache.
    spec fn cache_spec(&self) -> WrapperCache;

    /// The value as a member of the native family.
    spec fn as_native(self) -> NativeValue;

    /// Borrows the embedded wrapper cache.
    fn get_wrappercache(&self) -> (r: &WrapperCache)
        ensures
            *r == self.cache_spec(),
    ;

    /// Moves the value into the native family.
    fn into_native(self) -> (v: NativeValue)
        ensures
            v == self.as_native(),
            cache_of(v) == self.cache_spec(),
    ;
}

/// The owning scope a lazily created wrapper is rooted under.
pub trait BindingObject: Sized {
    /// The foreign object that should own this value's wrapper.
    fn GetParentObject(&self, ctx: &Context) -> (r: Result<usize, CallFault>);
}

/// The interface-class name a kind's instances are created under.
pub open spec fn spec_class_name(k: NativeKind) -> Seq<char> {
    match k {
        NativeKind::NodeKind => "GenericElementInstance"@,
        NativeKind::RectKind => "ClientRect"@,
        NativeKind::RectListKind => "ClientRectList"@,
        NativeKind::BlobKind => "Blob"@,
        NativeKind::FormDataKind => "FormData"@,
        NativeKind::EventKind => "Event"@,
        NativeKind::UiEventKind => "UIEvent"@,
        NativeKind::MouseEventKind => "MouseEvent"@,
        NativeKind::WindowProxyKind => "WindowProxy"@,
        NativeKind::WindowKind => "WindowInstance"@,
        NativeKind::DocumentKind => "DocumentInstance"@,
        NativeKind::ParserKind => "DOMParser"@,
        NativeKind::CollectionKind => "HTMLCollection"@,
    }
}

/// The prototype name a kind's instances are created under.
pub open spec fn spec_proto_name(k: NativeKind) -> Seq<char> {
    match k {
        NativeKind::NodeKind => "HTMLElement"@,
        NativeKind::RectKind => "ClientRectPrototype"@,
        NativeKind::RectListKind => "ClientRectListPrototype"@,
        NativeKind::BlobKind => "BlobPrototype"@,
        NativeKind::FormDataKind => "FormDataPrototype"@,
        NativeKind::EventKind => "EventPrototype"@,
        NativeKind::UiEventKind => "UIEventPrototype"@,
        NativeKind::MouseEventKind => "MouseEventPrototype"@,
        NativeKind::WindowProxyKind => "WindowProxyPrototype"@,
        NativeKind::WindowKind => "Window"@,
        NativeKind::DocumentKind => "Document"@,
        NativeKind::ParserKind => "DOMParserPrototype"@,
        NativeKind::CollectionKind => "HTMLCollectionPrototype"@,
    }
}

/// The interface-class name a kind's instances are created under.
pub fn class_name_for(k: NativeKind) -> (r: String)
    ensures
        r@ == spec_class_name(k),
{
    match k {
        NativeKind::NodeKind => "GenericElementInstance".to_owned(),
        NativeKind::RectKind => "ClientRect".to_owned(),
        NativeKind::RectListKind => "ClientRectList".to_owned(),
        NativeKind::BlobKind => "Blob".to_owned(),
        NativeKind::FormDataKind => "FormData".to_owned(),
        NativeKind::EventKind => "Event".to_owned(),
        NativeKind::UiEventKind => "UIEvent".to_owned(),
        NativeKind::MouseEventKind => "MouseEvent".to_owned(),
        NativeKind::WindowProxyKind => "WindowProxy".to_owned(),
        NativeKind::WindowKind => "WindowInstance".to_owned(),
        NativeKind::DocumentKind => "DocumentInstance".to_owned(),
        NativeKind::ParserKind => "DOMParser".to_owned(),
        NativeKind::CollectionKind => "HTMLCollection".to_owned(),
    }
}

/// The prototype name a kind's instances are created under.
pub fn proto_name_for(k: NativeKind) -> (r: String)
    ensures
        r@ == spec_proto_name(k),
{
    match k {
        NativeKind::NodeKind => "HTMLElement".to_owned(),
        NativeKind::RectKind => "ClientRectPrototype".to_owned(),
        NativeKind::RectListKind => "ClientRectListPrototype".to_owned(),
        NativeKind::BlobKind => "BlobPrototype".to_owned(),
        NativeKind::FormDataKind => "FormDataPrototype".to_owned(),
        NativeKind::EventKind => "EventPrototype".to_owned(),
        NativeKind::UiEventKind => "UIEventPrototype".to_owned(),
        NativeKind::MouseEventKind => "MouseEventPrototype".to_owned(),
        NativeKind::WindowProxyKind => "WindowProxyPrototype".to_owned(),
        NativeKind::WindowKind => "Window".to_owned(),
        NativeKind::DocumentKind => "Document".to_owned(),
        NativeKind::ParserKind => "DOMParserPrototype".to_owned(),
        NativeKind::CollectionKind => "HTMLCollectionPrototype".to_owned(),
    }
}

/// The realm is set up for a kind: its class is registered under the
/// kind's class name with the right kind tag, and its prototype defined.
pub open spec fn ready_for(cp: Compartment, k: NativeKind) -> bool {
    &&& cp.has_class_name(spec_class_name(k))
    &&& cp.class_kind_by_name(spec_class_name(k)) == k
    &&& cp.has_proto_name(spec_proto_name(k))
}

/// Readiness for a kind depends only on the registry tables, so any
/// operation that leaves the registry alone preserves it.
pub proof fn lemma_ready_preserved(a: Compartment, b: Compartment, k: NativeKind)
    requires
        b.same_registry(a),
        a.wf(),
        ready_for(a, k),
    ensures
        ready_for(b, k),
{
    let name = spec_class_name(k);
    let i = choose|i: int| 0 <= i < a.classes@.len() && (#[trigger] a.classes@[i].name@) == name;
    assert(b.classes@[i].name@ == name);
    assert(b.has_class_name(name));
    crate::compartment::lemma_unique_class_choose(a.classes@, i, name);
    crate::compartment::lemma_unique_class_choose(b.classes@, i, name);
    let pname = spec_proto_name(k);
    let j = choose|j: int| 0 <= j < a.protos@.len() && (#[trigger] a.protos@[j].name@) == pname;
    assert(b.protos@[j].name@ == pname);
    assert(b.has_proto_name(pname));
}

/// The lazy-wrap entry point: the first time a peripheral value crosses
/// into script visibility, creates its one wrapper under the owning
/// scope the context names.
pub fn init_wrapper<T: CacheableWrapper>(cp: &mut Compartment, ctx: &Context, x: T) -> (r: Result<
    usize,
    BindingFault,
>)
    requires
        old(cp).wf(),
    ensures
        final(cp).wf(),
        match r {
            Ok(obj) => {
                &&& (match ctx.window {
                    Some(w) => (w as int) < old(cp).heap@.len(),
                    None => false,
                })
                &&& ready_for(*old(cp), spec_kind(x.as_native()))
                &&& cache_of(x.as_native()).wrapper is None
                &&& obj as int == old(cp).heap@.len()
                &&& final(cp).heap@.len() == old(cp).heap@.len() + 1
                &&& forall|o: int|
                    0 <= o < old(cp).heap@.len() ==> (#[trigger] final(cp).heap@[o]) == old(
                        cp,
                    ).heap@[o]
                &&& final(cp).wrapped(obj as int)
                &&& final(cp).embedded(obj as int) == with_cache(
                    x.as_native(),
                    (WrapperCache { wrapper: Some(obj) }),
                )
                &&& final(cp).heap@[obj as int].scope == ctx.window
                &&& final(cp).same_registry(*old(cp))
            },
            Err(e) => {
                &&& *final(cp) == *old(cp)
                &&& (e == BindingFault::MissingScope <==> ctx.window is None)
                &&& !((match ctx.window {
                    Some(w) => (w as int) < old(cp).heap@.len(),
                    None => false,
                }) && ready_for(*old(cp), spec_kind(x.as_native())) && cache_of(
                    x.as_native(),
                ).wrapper is None)
            },
        },
{
    let scope: usize = match ctx.window {
        Some(w) => w,
        None => {
            return Err(BindingFault::MissingScope);
        },
    };
    let v: NativeValue = x.into_native();
    let k: NativeKind = v.kind();
    let cname: String = class_name_for(k);
    let pname: String = proto_name_for(k);
    match cp.create(&cname, &pname, scope, v) {
        Ok(obj) => Ok(obj),
        Err(e) => Err(e),
    }
}

/// The prototype an element's wrapper is created under, by its concrete
/// interface.
pub open spec fn spec_element_proto(k: ElementKind) -> Seq<char> {
    match k {
        ElementKind::Div => "HTMLDivElement"@,
        ElementKind::Head => "HTMLHeadElement"@,
        ElementKind::Image => "HTMLImageElement"@,
        ElementKind::Script => "HTMLScriptElement"@,
        ElementKind::Html => "HTMLElement"@,
        ElementKind::Unknown => "HTMLElement"@,
    }
}

/// The prototype an element's wrapper is created under.
pub fn element_proto_name(k: ElementKind) -> (r: String)
    ensures
        r@ == spec_element_proto(k),
{
    match k {
        ElementKind::Div => "HTMLDivElement".to_owned(),
        ElementKind::Head => "HTMLHeadElement".to_owned(),
        ElementKind::Image => "HTMLImageElement".to_owned(),
        ElementKind::Script => "HTMLScriptElement".to_owned(),
        ElementKind::Html => "HTMLElement".to_owned(),
        ElementKind::Unknown => "HTMLElement".to_owned(),
    }
}

/// The realm can wrap elements of this concrete interface: the generic
/// element class is registered for nodes, and the interface's prototype
/// is defined.
pub open spec fn element_ready(cp: Compartment, k: ElementKind) -> bool {
    &&& cp.has_class_name(spec_class_name(NativeKind::NodeKind))
    &&& cp.class_kind_by_name(spec_class_name(NativeKind::NodeKind)) == NativeKind::NodeKind
    &&& cp.has_proto_name(spec_element_proto(k))
}

/// Creates the one wrapper for an element node, under the prototype its
/// concrete interface names and the global scope, and stamps the node's
/// cache.  Only element nodes are handled here.
pub fn wrap_element(cp: &mut Compartment, node: Node) -> (r: Result<usize, BindingFault>)
    requires
        old(cp).wf(),
    ensures
        final(cp).wf(),
        match r {
            Ok(obj) => {
                &&& (match node.payload {
                    NodePayload::Element(e) => element_ready(*old(cp), e.kind),
                    _ => false,
                })
                &&& node.wrapper.wrapper is None
                &&& obj as int == old(cp).heap@.len()
                &&& final(cp).heap@.len() == old(cp).heap@.len() + 1
                &&& forall|o: int|
                    0 <= o < old(cp).heap@.len() ==> (#[trigger] final(cp).heap@[o]) == old(
                        cp,
                    ).heap@[o]
                &&& final(cp).wrapped(obj as int)
                &&& final(cp).embedded(obj as int) == NativeValue::NodeVal(
                    (Node { wrapper: (WrapperCache { wrapper: Some(obj) }), ..node }),
                )
                &&& final(cp).heap@[obj as int].class == Some(
                    old(cp).class_index(spec_class_name(NativeKind::NodeKind)) as usize,
                )
                &&& (match node.payload {
                    NodePayload::Element(e) => final(cp).heap@[obj as int].proto == Some(
                        old(cp).proto_obj_by_name(spec_element_proto(e.kind)),
                    ),
                    _ => false,
                })
                &&& final(cp).heap@[obj as int].pin_count == 0
                &&& final(cp).same_registry(*old(cp))
            },
            Err(e) => {
                &&& *final(cp) == *old(cp)
                &&& (e == BindingFault::KindMismatch <== !(node.payload is Element))
                &&& !((match node.payload {
                    NodePayload::Element(el) => element_ready(*old(cp), el.kind),
                    _ => false,
                }) && node.wrapper.wrapper is None)
            },
        },
{
    let kind: ElementKind = match &node.payload {
        NodePayload::Element(e) => e.kind,
        _ => {
            return Err(BindingFault::KindMismatch);
        },
    };
    let cname: String = class_name_for(NativeKind::NodeKind);
    let pname: String = element_proto_name(kind);
    let scope: usize = cp.global_obj;
    cp.create(&cname, &pname, scope, NativeValue::NodeVal(node))
}

/// The instance class of a textual or doctype node's wrapper.
pub open spec fn spec_text_class(p: NodePayload) -> Seq<char> {
    match p {
        NodePayload::Text(_) => "Text"@,
        NodePayload::Comment(_) => "Comment"@,
        NodePayload::Doctype(_) => "DocumentType"@,
        NodePayload::Element(_) => Seq::empty(),
    }
}

/// The prototype of a textual or doctype node's wrapper.
pub open spec fn spec_text_proto(p: NodePayload) -> Seq<char> {
    match p {
        NodePayload::Text(_) => "TextPrototype"@,
        NodePayload::Comment(_) => "CommentPrototype"@,
        NodePayload::Doctype(_) => "DocumentTypePrototype"@,
        NodePayload::Element(_) => Seq::empty(),
    }
}

/// The realm can wrap textual nodes of this payload shape.
pub open spec fn text_ready(cp: Compartment, p: NodePayload) -> bool {
    &&& cp.has_class_name(spec_text_class(p))
    &&& cp.class_kind_by_name(spec_text_class(p)) == NativeKind::NodeKind
    &&& cp.has_proto_name(spec_text_proto(p))
}

/// Creates the one wrapper for a text, comment or doctype node, under the
/// instance class and prototype its payload names, and stamps the node's
/// cache.  Element nodes are not handled here.
pub fn wrap_text_node(cp: &mut Compartment, node: Node) -> (r: Result<usize, BindingFault>)
    requires
        old(cp).wf(),
    ensures
        final(cp).wf(),
        match r {
            Ok(obj) => {
                &&& !(node.payload is Element)
                &&& text_ready(*old(cp), node.payload)
                &&& node.wrapper.wrapper is None
                &&& obj as int == old(cp).heap@.len()
                &&& final(cp).heap@.len() == old(cp).heap@.len() + 1
                &&& forall|o: int|
                    0 <= o < old(cp).heap@.len() ==> (#[trigger] final(cp).heap@[o]) == old(
                        cp,
                    ).heap@[o]
                &&& final(cp).wrapped(obj as int)
                &&& final(cp).embedded(obj as int) == NativeValue::NodeVal(
                    (Node { wrapper: (WrapperCache { wrapper: Some(obj) }), ..node }),
                )
                &&& final(cp).heap@[obj as int].class == Some(
                    old(cp).class_index(spec_text_class(node.payload)) as usize,
                )
                &&& final(cp).heap@[obj as int].proto == Some(
                    old(cp).proto_obj_by_name(spec_text_proto(node.payload)),
                )
                &&& final(cp).same_registry(*old(cp))
            },
            Err(e) => {
                &&& *final(cp) == *old(cp)
                &&& (e == BindingFault::KindMismatch <== node.payload is Element)
                &&& !(!(node.payload is Element) && text_ready(*old(cp), node.payload)
                    && node.wrapper.wrapper is None)
            },
        },
{
    let names: (String, String) = match &node.payload {
        NodePayload::Text(_) => ("Text".to_owned(), "TextPrototype".to_owned()),
        NodePayload::Comment(_) => ("Comment".to_owned(), "CommentPrototype".to_owned()),
        NodePayload::Doctype(_) => ("DocumentType".to_owned(), "DocumentTypePrototype".to_owned()),
        NodePayload::Element(_) => {
            return Err(BindingFault::KindMismatch);
        },
    };
    let scope: usize = cp.global_obj;
    cp.create(&names.0, &names.1, scope, NativeValue::NodeVal(node))
}

/// Creates the one wrapper for a window under the global scope and
/// installs the `window` property on the global object, so scripts reach
/// their global through it.
pub fn create_window(cp: &mut Compartment, win: Window) -> (r: Result<usize, BindingFault>)
    requires
        old(cp).wf(),
    ensures
        final(cp).wf(),
        match r {
            Ok(obj) => {
                &&& ready_for(*old(cp), NativeKind::WindowKind)
                &&& win.wrapper.wrapper is None
                &&& obj as int == old(cp).heap@.len()
                &&& final(cp).heap@.len() == old(cp).heap@.len() + 1
                &&& final(cp).wrapped(obj as int)
                &&& final(cp).embedded(obj as int) == NativeValue::WindowVal(
                    (Window { wrapper: (WrapperCache { wrapper: Some(obj) }), ..win }),
                )
                &&& crate::entries::entries_map(
                    final(cp).heap@[old(cp).global_obj as int].props@,
                ) == crate::entries::entries_map(
                    old(cp).heap@[old(cp).global_obj as int].props@,
                ).insert(
                    "window"@,
                    (crate::compartment::Property {
                        value: crate::values::ScriptValue::Obj(obj),
                        getter: None,
                        setter: None,
                        flags: crate::compartment::PROP_ENUMERATE,
                    }),
                )
                &&& forall|o: int|
                    0 <= o < old(cp).heap@.len() && o != old(cp).global_obj as int ==> (
                    #[trigger] final(cp).heap@[o]) == old(cp).heap@[o]
                &&& final(cp).same_registry(*old(cp))
            },
            Err(e) => {
                &&& *final(cp) == *old(cp)
                &&& !(ready_for(*old(cp), NativeKind::WindowKind) && win.wrapper.wrapper is None)
            },
        },
{
    let cname: String = class_name_for(NativeKind::WindowKind);
    let pname: String = proto_name_for(NativeKind::WindowKind);
    let scope: usize = cp.global_obj;
    let obj: usize = match cp.create(&cname, &pname, scope, NativeValue::WindowVal(win)) {
        Ok(o) => o,
        Err(e) => {
            return Err(e);
        },
    };
    let target: usize = cp.global_obj;
    let slot = crate::compartment::Property {
        value: crate::values::ScriptValue::Obj(obj),
        getter: None,
        setter: None,
        flags: crate::compartment::PROP_ENUMERATE,
    };
    match cp.define_property(target, String::from_str("window"), slot) {
        Ok(()) => (),
        Err(_) => {
            proof {
                assert(false);
            }
            return vstd::pervasive::unreached();
        },
    }
    Ok(obj)
}

impl CacheableWrapper for Blob {
    open spec fn cache_spec(&self) -> WrapperCache {
        self.wrapper
    }

    open spec fn as_native(self) -> NativeValue {
        NativeValue::BlobVal(self)
    }

    fn get_wrappercache(&self) -> (r: &WrapperCache) {
        &self.wrapper
    }

    fn into_native(self) -> (v: NativeValue) {
        NativeValue::BlobVal(self)
    }
}

impl CacheableWrapper for ClientRect {
    open spec fn cache_spec(&self) -> WrapperCache {
        self.wrapper
    }

    open spec fn as_native(self) -> NativeValue {
        NativeValue::RectVal(self)
    }

    fn get_wrappercache(&self) -> (r: &WrapperCache) {
        &self.wrapper
    }

    fn into_native(self) -> (v: NativeValue) {
        NativeValue::RectVal(self)
    }
}

impl CacheableWrapper for ClientRectList {
    open spec fn cache_spec(&self) -> WrapperCache {
        self.wrapper
    }

    open spec fn as_native(self) -> NativeValue {
        NativeValue::RectListVal(self)
    }

    fn get_wrappercache(&self) -> (r: &WrapperCache) {
        &self.wrapper
    }

    fn into_native(self) -> (v: NativeValue) {
        NativeValue::RectListVal(self)
    }
}

impl CacheableWrapper for FormData {
    open spec fn cache_spec(&self) -> WrapperCache {
        self.wrapper
    }

    open spec fn as_native(self) -> NativeValue {
        NativeValue::FormDataVal(self)
    }

    fn get_wrappercache(&self) -> (r: &WrapperCache) {
        &self.wrapper
    }

    fn into_native(self) -> (v: NativeValue) {
        NativeValue::FormDataVal(self)
    }
}

impl CacheableWrapper for Event_ {
    open spec fn cache_spec(&self) -> WrapperCache {
        self.wrapper
    }

    open spec fn as_native(self) -> NativeValue {
        NativeValue::EventVal(self)
    }

    fn get_wrappercache(&self) -> (r: &WrapperCache) {
        &self.wrapper
    }

    fn into_native(self) -> (v: NativeValue) {
        NativeValue::EventVal(self)
    }
}

impl CacheableWrapper for UIEvent {
    open spec fn cache_spec(&self) -> WrapperCache {
        self.parent.wrapper
    }

    open spec fn as_native(self) -> NativeValue {
        NativeValue::UiEventVal(self)
    }

    fn get_wrappercache(&self) -> (r: &WrapperCache) {
        &self.parent.wrapper
    }

    fn into_native(self) -> (v: NativeValue) {
        NativeValue::UiEventVal(self)
    }
}

impl CacheableWrapper for MouseEvent {
    open spec fn cache_spec(&self) -> WrapperCache {
        self.parent.parent.wrapper
    }

    open spec fn as_native(self) -> NativeValue {
        NativeValue::MouseEventVal(self)
    }

    fn get_wrappercache(&self) -> (r: &WrapperCache) {
        &self.parent.parent.wrapper
    }

    fn into_native(self) -> (v: NativeValue) {
        NativeValue::MouseEventVal(self)
    }
}

impl CacheableWrapper for WindowProxy {
    open spec fn cache_spec(&self) -> WrapperCache {
        self.wrapper
    }

    open spec fn as_native(self) -> NativeValue {
        NativeValue::WindowProxyVal(self)
    }

    fn get_wrappercache(&self) -> (r: &WrapperCache) {
        &self.wrapper
    }

    fn into_native(self) -> (v: NativeValue) {
        NativeValue::WindowProxyVal(self)
    }
}

impl CacheableWrapper for Window {
    open spec fn cache_spec(&self) -> WrapperCache {
        self.wrapper
    }

    open spec fn as_native(self) -> NativeValue {
        NativeValue::WindowVal(self)
    }

    fn get_wrappercache(&self) -> (r: &WrapperCache) {
        &self.wrapper
    }

    fn into_native(self) -> (v: NativeValue) {
        NativeValue::WindowVal(self)
    }
}

impl CacheableWrapper for Document {
    open spec fn cache_spec(&self) -> WrapperCache {
        self.wrapper
    }

    open spec fn as_native(self) -> NativeValue {
        NativeValue::DocumentVal(self)
    }

    fn get_wrappercache(&self) -> (r: &WrapperCache) {
        &self.wrapper
    }

    fn into_native(self) -> (v: NativeValue) {
        NativeValue::DocumentVal(self)
    }
}

impl CacheableWrapper for DOMParser {
    open spec fn cache_spec(&self) -> WrapperCache {
        self.wrapper
    }

    open spec fn as_native(self) -> NativeValue {
        NativeValue::ParserVal(self)
    }

    fn get_wrappercache(&self) -> (r: &WrapperCache) {
        &self.wrapper
    }

    fn into_native(self) -> (v: NativeValue) {
        NativeValue::ParserVal(self)
    }
}

impl CacheableWrapper for HTMLCollection {
    open spec fn cache_spec(&self) -> WrapperCache {
        self.wrapper
    }

    open spec fn as_native(self) -> NativeValue {
        NativeValue::CollectionVal(self)
    }

    fn get_wrappercache(&self) -> (r: &WrapperCache) {
        &self.wrapper
    }

    fn into_native(self) -> (v: NativeValue) {
        NativeValue::CollectionVal(self)
    }
}

impl CacheableWrapper for Node {
    open spec fn cache_spec(&self) -> WrapperCache {
        self.wrapper
    }

    open spec fn as_native(self) -> NativeValue {
        NativeValue::NodeVal(self)
    }

    fn get_wrappercache(&self) -> (r: &WrapperCache) {
        &self.wrapper
    }

    fn into_native(self) -> (v: NativeValue) {
        NativeValue::NodeVal(self)
    }
}

impl BindingObject for Blob {
    /// Blobs are owned by the active global.
    fn GetParentObject(&self, ctx: &Context) -> (r: Result<usize, CallFault>)
        ensures
            match r {
                Ok(w) => ctx.window == Some(w),
                Err(e) => e == CallFault::NoGlobal && ctx.window is None,
            },
    {
        match ctx.window {
            Some(w) => Ok(w),
            None => Err(CallFault::NoGlobal),
        }
    }
}

impl BindingObject for ClientRect {
    /// Rectangles are owned by the active global.
    fn GetParentObject(&self, ctx: &Context) -> (r: Result<usize, CallFault>)
        ensures
            match r {
                Ok(w) => ctx.window == Some(w),
                Err(e) => e == CallFault::NoGlobal && ctx.window is None,
            },
    {
        match ctx.window {
            Some(w) => Ok(w),
            None => Err(CallFault::NoGlobal),
        }
    }
}

impl BindingObject for ClientRectList {
    /// Rectangle lists are owned by the active global.
    fn GetParentObject(&self, ctx: &Context) -> (r: Result<usize, CallFault>)
        ensures
            match r {
                Ok(w) => ctx.window == Some(w),
                Err(e) => e == CallFault::NoGlobal && ctx.window is None,
            },
    {
        match ctx.window {
            Some(w) => Ok(w),
            None => Err(CallFault::NoGlobal),
        }
    }
}

impl BindingObject for FormData {
    /// Form data is owned by the active global.
    fn GetParentObject(&self, ctx: &Context) -> (r: Result<usize, CallFault>)
        ensures
            match r {
                Ok(w) => ctx.window == Some(w),
                Err(e) => e == CallFault::NoGlobal && ctx.window is None,
            },
    {
        match ctx.window {
            Some(w) => Ok(w),
            None => Err(CallFault::NoGlobal),
        }
    }
}

impl BindingObject for Event_ {
    /// Events are owned by the active global.
    fn GetParentObject(&self, ctx: &Context) -> (r: Result<usize, CallFault>)
        ensures
            match r {
                Ok(w) => ctx.window == Some(w),
                Err(e) => e == CallFault::NoGlobal && ctx.window is None,
            },
    {
        match ctx.window {
            Some(w) => Ok(w),
            None => Err(CallFault::NoGlobal),
        }
    }
}

impl BindingObject for UIEvent {
    /// UI events are owned by the active global, as their event base is.
    fn GetParentObject(&self, ctx: &Context) -> (r: Result<usize, CallFault>)
        ensures
            match r {
                Ok(w) => ctx.window == Some(w),
                Err(e) => e == CallFault::NoGlobal && ctx.window is None,
            },
    {
        self.parent.GetParentObject(ctx)
    }
}

impl BindingObject for MouseEvent {
    /// Mouse events are owned by the active global, as their event base
    /// is.
    fn GetParentObject(&self, ctx: &Context) -> (r: Result<usize, CallFault>)
        ensures
            match r {
                Ok(w) => ctx.window == Some(w),
                Err(e) => e == CallFault::NoGlobal && ctx.window is None,
            },
    {
        self.parent.GetParentObject(ctx)
    }
}

impl BindingObject for WindowProxy {
    /// Window proxies are owned by the active global.
    fn GetParentObject(&self, ctx: &Context) -> (r: Result<usize, CallFault>)
        ensures
            match r {
                Ok(w) => ctx.window == Some(w),
                Err(e) => e == CallFault::NoGlobal && ctx.window is None,
            },
    {
        match ctx.window {
            Some(w) => Ok(w),
            None => Err(CallFault::NoGlobal),
        }
    }
}

impl BindingObject for HTMLCollection {
    /// Collections are owned by the active global.
    fn GetParentObject(&self, ctx: &Context) -> (r: Result<usize, CallFault>)
        ensures
            match r {
                Ok(w) => ctx.window == Some(w),
                Err(e) => e == CallFault::NoGlobal && ctx.window is None,
            },
    {
        match ctx.window {
            Some(w) => Ok(w),
            None => Err(CallFault::NoGlobal),
        }
    }
}

impl BindingObject for DOMParser {
    /// A parser is owned by the window that created it, not by whatever
    /// global happens to be active.
    fn GetParentObject(&self, _ctx: &Context) -> (r: Result<usize, CallFault>)
        ensures
            r == Ok::<usize, CallFault>(self.owner),
    {
        Ok(self.owner)
    }
}

} // verus!
