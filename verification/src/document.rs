//! The document value: the root of a page's node tree, its window, and
//! the operations on it.  Construction pins the root node's wrapper so it
//! survives collection before any script holds a reference; teardown
//! releases that pin.  Tree traversal itself belongs to the embedder's
//! tree utilities: the tag-name query takes the preorder enumeration as
//! an argument and does the matching, the collection building and the
//! wrapping here.

use vstd::prelude::*;
use vstd::string::StringExecFns;
use crate::bindings::{init_wrapper, ready_for, Context};
use crate::cache::{BindingFault, WrapperCache};
use crate::compartment::{Property, PROP_ENUMERATE};
use crate::collection::HTMLCollection;
use crate::compartment::Compartment;
use crate::entries::entries_map;
use crate::native::{NativeKind, NativeValue};
use crate::node::spec_tag;
use crate::values::{CallFault, ScriptValue};
use crate::window::WindowAction;

verus! {

/// A document: its root node's wrapper handle, and the window it belongs
/// to, if any.
pub struct Document {
    pub root: usize,
    pub wrapper: WrapperCache,
    pub window: Option<usize>,
}

impl Document {
    /// A fresh, unwrapped document over an already-wrapped root node.
    pub fn new(root: usize, window: Option<usize>) -> (r: Document)
        ensures
            r.wrapper.wrapper is None,
            r.root == root,
            r.window == window,
    {
        Document { root, wrapper: WrapperCache::new(), window }
    }
}

/// The handle names a wrapped document.
pub open spec fn is_document(cp: Compartment, h: int) -> bool {
    cp.wrapped(h) && cp.embedded(h) is DocumentVal
}

/// The document embedded at `h`.
pub open spec fn doc_at(cp: Compartment, h: int) -> Document {
    match cp.embedded(h) {
        NativeValue::DocumentVal(d) => d,
        _ => vstd::pervasive::arbitrary(),
    }
}

/// The node embedded at `h`.
pub open spec fn node_at(cp: Compartment, h: usize) -> crate::node::Node {
    match cp.embedded(h as int) {
        NativeValue::NodeVal(n) => n,
        _ => vstd::pervasive::arbitrary(),
    }
}

/// The handle names a wrapped node.
pub open spec fn is_node(cp: Compartment, h: usize) -> bool {
    cp.wrapped(h as int) && cp.embedded(h as int) is NodeVal
}

/// The handle names a wrapped element node with this tag.
pub open spec fn matches_tag(cp: Compartment, h: usize, tag: Seq<char>) -> bool {
    &&& is_node(cp, h)
    &&& match cp.embedded(h as int) {
        NativeValue::NodeVal(n) => n.payload is Element && spec_tag(n) == tag,
        _ => false,
    }
}

/// The subsequence of handles naming elements with this tag, in order.
pub open spec fn filter_tag(cp: Compartment, s: Seq<usize>, tag: Seq<char>) -> Seq<usize>
    decreases s.len(),
{
    if s.len() == 0 {
        Seq::empty()
    } else {
        filter_tag(cp, s.drop_last(), tag) + (if matches_tag(cp, s.last(), tag) {
            seq![s.last()]
        } else {
            Seq::empty()
        })
    }
}

/// Collects, in order, the handles among `preorder` that name elements
/// with the given tag; fails, changing nothing, if any handle does not
/// name a wrapped node.
pub fn collect_matching(cp: &Compartment, preorder: &Vec<usize>, tag: &String) -> (r: Result<
    Vec<usize>,
    CallFault,
>)
    ensures
        match r {
            Ok(v) => {
                &&& forall|i: int| 0 <= i < preorder@.len() ==> is_node(*cp, #[trigger] preorder@[i])
                &&& v@ == filter_tag(*cp, preorder@, tag@)
            },
            Err(e) => {
                &&& e == CallFault::BadHandle
                &&& exists|i: int|
                    0 <= i < preorder@.len() && !is_node(*cp, #[trigger] preorder@[i])
            },
        },
{
    let n: usize = preorder.len();
    let mut elements: Vec<usize> = Vec::new();
    let mut i: usize = 0;
    while i < n
        invariant
            n == preorder@.len(),
            0 <= i <= n,
            forall|j: int| 0 <= j < i ==> is_node(*cp, #[trigger] preorder@[j]),
            elements@ == filter_tag(*cp, preorder@.take(i as int), tag@),
        decreases n - i,
    {
        let h: usize = preorder[i];
        match cp.resolve(h, NativeKind::NodeKind) {
            Ok(_) => (),
            Err(_) => {
                return Err(CallFault::BadHandle);
            },
        }
        match cp.with_imm(h) {
            NativeValue::NodeVal(node) => {
                if node.is_element() {
                    match node.tag_name() {
                        Some(t) => {
                            if *t == *tag {
                                elements.push(h);
                            }
                        },
                        None => (),
                    }
                }
            },
            _ => {
                proof {
                    assert(false);
                }
            },
        }
        proof {
            assert(preorder@.take(i + 1 as int).drop_last() =~= preorder@.take(i as int));
            assert(preorder@.take(i + 1 as int).last() == preorder@[i as int]);
            assert(elements@ =~= filter_tag(*cp, preorder@.take(i + 1 as int), tag@));
        }
        i = i + 1;
    }
    proof {
        assert(preorder@.take(n as int) =~= preorder@);
    }
    Ok(elements)
}

/// Creates the one foreign wrapper for a document over an already-wrapped
/// root node: pins the root against collection before any script
/// reference exists, allocates the document's wrapper, and installs the
/// `document` property on the global.
pub fn new_document(cp: &mut Compartment, root: usize, window: Option<usize>) -> (r: Result<
    usize,
    BindingFault,
>)
    requires
        old(cp).wf(),
    ensures
        final(cp).wf(),
        match r {
            Ok(doc) => {
                &&& old(cp).wrapped(root as int)
                &&& old(cp).embedded(root as int) is NodeVal
                &&& old(cp).heap@[root as int].pin_count < u64::MAX
                &&& ready_for(*old(cp), NativeKind::DocumentKind)
                &&& doc as int == old(cp).heap@.len()
                &&& final(cp).heap@.len() == old(cp).heap@.len() + 1
                &&& final(cp).wrapped(doc as int)
                &&& final(cp).embedded(doc as int) == NativeValue::DocumentVal(
                    (Document { root, wrapper: (WrapperCache { wrapper: Some(doc) }), window }),
                )
                &&& final(cp).heap@[root as int].pin_count == old(
                    cp,
                ).heap@[root as int].pin_count + 1
                &&& final(cp).heap@[root as int].slot == old(cp).heap@[root as int].slot
                &&& entries_map(final(cp).heap@[old(cp).global_obj as int].props@) == entries_map(
                    old(cp).heap@[old(cp).global_obj as int].props@,
                ).insert(
                    "document"@,
                    (Property {
                        value: ScriptValue::Obj(doc),
                        getter: None,
                        setter: None,
                        flags: PROP_ENUMERATE,
                    }),
                )
                &&& forall|o: int|
                    0 <= o < old(cp).heap@.len() && o != root as int && o != old(
                        cp,
                    ).global_obj as int ==> (#[trigger] final(cp).heap@[o]) == old(cp).heap@[o]
                &&& final(cp).same_registry(*old(cp))
            },
            Err(e) => {
                &&& *final(cp) == *old(cp)
                &&& (e == BindingFault::InvalidHandle <==> (root as int) >= old(cp).heap@.len())
                &&& (e == BindingFault::NotWrapped <==> (root as int) < old(cp).heap@.len() && !old(
                    cp,
                ).wrapped(root as int))
                &&& !(old(cp).wrapped(root as int) && old(cp).embedded(root as int) is NodeVal
                    && old(cp).heap@[root as int].pin_count < u64::MAX && ready_for(
                    *old(cp),
                    NativeKind::DocumentKind,
                ))
            },
        },
{
    if root >= cp.heap.len() {
        return Err(BindingFault::InvalidHandle);
    }
    match cp.resolve(root, NativeKind::NodeKind) {
        Ok(_) => (),
        Err(e) => {
            return Err(
                match e {
                    CallFault::BadHandle => BindingFault::NotWrapped,
                    _ => BindingFault::KindMismatch,
                },
            );
        },
    }
    if cp.heap[root].pin_count == u64::MAX {
        return Err(BindingFault::UnbalancedPin);
    }
    let cname: String = crate::bindings::class_name_for(NativeKind::DocumentKind);
    let pname: String = crate::bindings::proto_name_for(NativeKind::DocumentKind);
    let kind_ok: bool = match cp.find_class(&cname) {
        Some(ci) => {
            proof {
                crate::compartment::lemma_unique_class_choose(
                    cp.classes@,
                    ci as int,
                    cname@,
                );
            }
            match cp.classes[ci].kind {
                NativeKind::DocumentKind => true,
                _ => false,
            }
        },
        None => {
            return Err(BindingFault::UnknownClass);
        },
    };
    if !kind_ok {
        return Err(BindingFault::KindMismatch);
    }
    if cp.find_proto(&pname).is_none() {
        return Err(BindingFault::UnknownProto);
    }
    match cp.pin(root) {
        Ok(()) => (),
        Err(_) => {
            proof {
                assert(false);
            }
            return vstd::pervasive::unreached();
        },
    }
    let value = NativeValue::DocumentVal(Document::new(root, window));
    let scope: usize = cp.global_obj;
    let doc: usize = match cp.create(&cname, &pname, scope, value) {
        Ok(o) => o,
        Err(_) => {
            proof {
                assert(false);
            }
            vstd::pervasive::unreached()
        },
    };
    let slot = Property {
        value: ScriptValue::Obj(doc),
        getter: None,
        setter: None,
        flags: PROP_ENUMERATE,
    };
    match cp.define_property(cp.global_obj, String::from_str("document"), slot) {
        Ok(()) => (),
        Err(_) => {
            proof {
                assert(false);
            }
            return vstd::pervasive::unreached();
        },
    }
    Ok(doc)
}

/// Answers a tag-name query over the document: filters the embedder's
/// preorder node enumeration to the elements with the given tag, and
/// wraps them as a collection under the active global.  A failure leaves
/// the realm unchanged.
pub fn getElementsByTagName(
    cp: &mut Compartment,
    ctx: &Context,
    doc: usize,
    preorder: &Vec<usize>,
    tag: &String,
) -> (r: Result<usize, CallFault>)
    requires
        old(cp).wf(),
        ready_for(*old(cp), NativeKind::CollectionKind),
        (match ctx.window {
            Some(w) => (w as int) < old(cp).heap@.len(),
            None => false,
        }),
    ensures
        final(cp).wf(),
        match r {
            Ok(col) => {
                &&& is_document(*old(cp), doc as int)
                &&& forall|i: int|
                    0 <= i < preorder@.len() ==> is_node(*old(cp), #[trigger] preorder@[i])
                &&& col as int == old(cp).heap@.len()
                &&& final(cp).heap@.len() == old(cp).heap@.len() + 1
                &&& forall|o: int|
                    0 <= o < old(cp).heap@.len() ==> (#[trigger] final(cp).heap@[o]) == old(
                        cp,
                    ).heap@[o]
                &&& final(cp).wrapped(col as int)
                &&& (match final(cp).embedded(col as int) {
                    NativeValue::CollectionVal(c) => c.elements@ == filter_tag(
                        *old(cp),
                        preorder@,
                        tag@,
                    ) && c.wrapper.wrapper == Some(col),
                    _ => false,
                })
                &&& final(cp).same_registry(*old(cp))
            },
            Err(e) => {
                &&& *final(cp) == *old(cp)
                &&& (e == CallFault::BadHandle || e == CallFault::WrongClass)
                &&& (e == CallFault::WrongClass <==> old(cp).wrapped(doc as int) && !is_document(
                    *old(cp),
                    doc as int,
                ))
                &&& (e == CallFault::BadHandle <==> !old(cp).wrapped(doc as int) || (is_document(
                    *old(cp),
                    doc as int,
                ) && exists|i: int|
                    0 <= i < preorder@.len() && !is_node(*old(cp), #[trigger] preorder@[i])))
            },
        },
{
    match cp.resolve(doc, NativeKind::DocumentKind) {
        Ok(_) => (),
        Err(e) => {
            return Err(e);
        },
    }
    let elements: Vec<usize> = match collect_matching(cp, preorder, tag) {
        Ok(v) => v,
        Err(e) => {
            return Err(e);
        },
    };
    match init_wrapper(cp, ctx, HTMLCollection::new(elements)) {
        Ok(col) => Ok(col),
        Err(_) => {
            proof {
                assert(false);
            }
            vstd::pervasive::unreached()
        },
    }
}

/// Reports a content change to the document's window, which then owes the
/// embedder a new layout.
pub fn content_changed(cp: &mut Compartment, doc: usize) -> (r: Result<(), CallFault>)
    ensures
        match r {
            Ok(()) => {
                &&& is_document(*old(cp), doc as int)
                &&& (match doc_at(*old(cp), doc as int).window {
                    None => *final(cp) == *old(cp),
                    Some(w) => {
                        &&& old(cp).wrapped(w as int)
                        &&& (match (old(cp).embedded(w as int), final(cp).embedded(w as int)) {
                            (NativeValue::WindowVal(before), NativeValue::WindowVal(after)) => {
                                &&& after.pending@ == before.pending@.push(WindowAction::Reflow)
                                &&& after.wrapper == before.wrapper
                            },
                            _ => false,
                        })
                        &&& final(cp).wrapped(w as int)
                        &&& final(cp).same_heap_except(*old(cp), w as int)
                        &&& final(cp).same_registry(*old(cp))
                    },
                })
            },
            Err(e) => {
                &&& *final(cp) == *old(cp)
                &&& (e == CallFault::BadHandle || e == CallFault::WrongClass)
                &&& (!is_document(*old(cp), doc as int) || (match doc_at(
                    *old(cp),
                    doc as int,
                ).window {
                    Some(w) => !(old(cp).wrapped(w as int) && old(
                        cp,
                    ).embedded(w as int) is WindowVal),
                    None => false,
                }))
            },
        },
{
    match cp.resolve(doc, NativeKind::DocumentKind) {
        Ok(_) => (),
        Err(e) => {
            return Err(e);
        },
    }
    let window: Option<usize> = match cp.with_imm(doc) {
        NativeValue::DocumentVal(d) => d.window,
        _ => vstd::pervasive::unreached(),
    };
    let w: usize = match window {
        Some(w) => w,
        None => {
            return Ok(());
        },
    };
    match cp.resolve(w, NativeKind::WindowKind) {
        Ok(_) => (),
        Err(e) => {
            return Err(e);
        },
    }
    match cp.with_mut(w) {
        NativeValue::WindowVal(win) => {
            win.content_changed();
        },
        _ => {
            proof {
                assert(false);
            }
        },
    }
    Ok(())
}

/// Tears a document down: releases the pin its construction put on the
/// root node's wrapper, leaving the root to ordinary reachability.
pub fn teardown(cp: &mut Compartment, doc: usize) -> (r: Result<(), BindingFault>)
    ensures
        old(cp).wf() ==> final(cp).wf(),
        match r {
            Ok(()) => {
                &&& is_document(*old(cp), doc as int)
                &&& ({
                    let root = doc_at(*old(cp), doc as int).root;
                    &&& (root as int) < old(cp).heap@.len()
                    &&& old(cp).heap@[root as int].pin_count > 0
                    &&& final(cp).heap@[root as int].pin_count == old(
                        cp,
                    ).heap@[root as int].pin_count - 1
                    &&& final(cp).heap@[root as int].slot == old(cp).heap@[root as int].slot
                    &&& final(cp).same_heap_except(*old(cp), root as int)
                    &&& final(cp).same_registry(*old(cp))
                })
            },
            Err(e) => {
                &&& *final(cp) == *old(cp)
                &&& (e == BindingFault::InvalidHandle || e == BindingFault::NotWrapped || e
                    == BindingFault::KindMismatch || e == BindingFault::UnbalancedPin)
                &&& (e == BindingFault::NotWrapped <==> !old(cp).wrapped(doc as int))
                &&& (e == BindingFault::KindMismatch <==> old(cp).wrapped(doc as int) && !(old(
                    cp,
                ).embedded(doc as int) is DocumentVal))
                &&& (e == BindingFault::InvalidHandle <==> is_document(*old(cp), doc as int) && (
                doc_at(*old(cp), doc as int).root as int) >= old(cp).heap@.len())
                &&& (e == BindingFault::UnbalancedPin <==> is_document(*old(cp), doc as int) && (
                doc_at(*old(cp), doc as int).root as int) < old(cp).heap@.len() && old(
                    cp,
                ).heap@[doc_at(*old(cp), doc as int).root as int].pin_count == 0)
            },
        },
{
    match cp.resolve(doc, NativeKind::DocumentKind) {
        Ok(_) => (),
        Err(e) => {
            return Err(
                match e {
                    CallFault::BadHandle => BindingFault::NotWrapped,
                    _ => BindingFault::KindMismatch,
                },
            );
        },
    }
    let root: usize = match cp.with_imm(doc) {
        NativeValue::DocumentVal(d) => d.root,
        _ => vstd::pervasive::unreached(),
    };
    cp.unpin(root)
}

} // verus!
