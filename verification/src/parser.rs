//! The markup parser value: owned by a window, it builds fresh documents.

use vstd::prelude::*;
use vstd::string::StringExecFns;
use crate::bindings::{element_ready, ready_for, wrap_element};
use crate::cache::WrapperCache;
use crate::compartment::Compartment;
use crate::document::new_document;
use crate::event::ErrorResult;
use crate::native::{NativeKind, NativeValue};
use crate::node::{node_edges, spec_attrs, spec_tag, ElementKind, Node};

verus! {

/// The content types the parser accepts.
#[derive(Clone, Copy, Debug, PartialEq, Eq, Structural)]
pub enum SupportedType {
    TextHtml,
    TextXml,
}

/// A parser owned by a window; the owner's wrapper handle decides where
/// the parser's own wrapper is rooted.
pub struct DOMParser {
    pub owner: usize,
    pub wrapper: WrapperCache,
}

impl DOMParser {
    /// A fresh, unwrapped parser owned by the given window wrapper.
    pub fn new(owner: usize) -> (r: DOMParser)
        ensures
            r.wrapper.wrapper is None,
            r.owner == owner,
    {
        DOMParser { owner, wrapper: WrapperCache::new() }
    }

    /// The scripted constructor.
    pub fn Constructor(owner: usize, rv: &mut ErrorResult) -> (r: DOMParser)
        ensures
            r.wrapper.wrapper is None,
            r.owner == owner,
            *final(rv) == *old(rv),
    {
        DOMParser::new(owner)
    }

    /// Parses markup into a fresh document.  The content and its type are
    /// ignored: the result is always a new single-element page, a wrapped
    /// `html` root element (no attributes, no links, pinned once by its
    /// document) under a fresh wrapped document with no window.
    pub fn ParseFromString(
        &self,
        cp: &mut Compartment,
        _s: String,
        _ty: SupportedType,
        rv: &mut ErrorResult,
    ) -> (doc: usize)
        requires
            old(cp).wf(),
            element_ready(*old(cp), ElementKind::Html),
            ready_for(*old(cp), NativeKind::DocumentKind),
        ensures
            final(cp).wf(),
            *final(rv) == *old(rv),
            ({
                let root = old(cp).heap@.len() as usize;
                &&& doc as int == old(cp).heap@.len() + 1
                &&& final(cp).heap@.len() == old(cp).heap@.len() + 2
                &&& final(cp).wrapped(doc as int)
                &&& (match final(cp).embedded(doc as int) {
                    NativeValue::DocumentVal(d) => d.root == root && d.window is None
                        && d.wrapper.wrapper == Some(doc),
                    _ => false,
                })
                &&& final(cp).wrapped(root as int)
                &&& (match final(cp).embedded(root as int) {
                    NativeValue::NodeVal(n) => {
                        &&& n.payload is Element
                        &&& spec_tag(n) == "html"@
                        &&& spec_attrs(n) =~= Map::<Seq<char>, String>::empty()
                        &&& node_edges(n) =~= Seq::<usize>::empty()
                        &&& n.wrapper.wrapper == Some(root)
                    },
                    _ => false,
                })
                &&& final(cp).heap@[root as int].pin_count == 1
                &&& forall|o: int|
                    0 <= o < old(cp).heap@.len() && o != old(cp).global_obj as int ==> (
                    #[trigger] final(cp).heap@[o]) == old(cp).heap@[o]
                &&& final(cp).same_registry(*old(cp))
            }),
    {
        let root_node: Node = Node::new_element(ElementKind::Html, String::from_str("html"));
        let root: usize = match wrap_element(cp, root_node) {
            Ok(o) => o,
            Err(_) => {
                proof {
                    assert(false);
                }
                vstd::pervasive::unreached()
            },
        };
        match new_document(cp, root, None) {
            Ok(d) => d,
            Err(_) => {
                proof {
                    assert(false);
                }
                vstd::pervasive::unreached()
            },
        }
    }
}

} // verus!
