//! The native tree-node value: the linked fields the collector traces,
//! and the element payload (tag name and attributes) the exposed
//! operations read and write.  Tree construction and traversal belong to
//! the embedder; here the links are data, the source of trace edges.

use vstd::prelude::*;
use crate::cache::WrapperCache;
use crate::entries::{Entry, entries_get, entries_insert, entries_map, entries_wf};

verus! {

/// Which concrete element interface a node exposes; this decides the
/// prototype its wrapper is created under.
#[derive(Clone, Copy, Debug, PartialEq, Eq, Structural)]
pub enum ElementKind {
    Html,
    Div,
    Head,
    Image,
    Script,
    Unknown,
}

/// The element-specific payload.
pub struct ElementData {
    pub kind: ElementKind,
    pub tag_name: String,
    pub attrs: Vec<Entry<String>>,
}

/// What a node is, beyond its links.
pub enum NodePayload {
    Element(ElementData),
    Text(String),
    Comment(String),
    Doctype(String),
}

/// A native tree node.  The five links hold the wrapper handles of the
/// neighbouring nodes, and are exactly what `trace` reports.
pub struct Node {
    pub wrapper: WrapperCache,
    pub parent: Option<usize>,
    pub first_child: Option<usize>,
    pub last_child: Option<usize>,
    pub next_sibling: Option<usize>,
    pub prev_sibling: Option<usize>,
    pub payload: NodePayload,
}

/// A node's attributes, well-formed: attribute names are unique.
pub open spec fn node_wf(n: Node) -> bool {
    match n.payload {
        NodePayload::Element(e) => entries_wf(e.attrs@),
        _ => true,
    }
}

/// The attribute map of an element node.
pub open spec fn spec_attrs(n: Node) -> Map<Seq<char>, String> {
    match n.payload {
        NodePayload::Element(e) => entries_map(e.attrs@),
        _ => Map::empty(),
    }
}

/// The attribute map of an element node, over character sequences.
pub open spec fn attrs_view(n: Node) -> Map<Seq<char>, Seq<char>> {
    spec_attrs(n).map_values(|v: String| v@)
}

/// The tag name of an element node, empty for other nodes.
pub open spec fn spec_tag(n: Node) -> Seq<char> {
    match n.payload {
        NodePayload::Element(e) => e.tag_name@,
        _ => Seq::empty(),
    }
}

/// One optional link as a (possibly empty) edge sequence.
pub open spec fn opt_edge(o: Option<usize>) -> Seq<usize> {
    match o {
        Some(h) => seq![h],
        None => Seq::empty(),
    }
}

/// The linked natives reachable from a node, in field order: parent,
/// first child, last child, next sibling, previous sibling.  A node with
/// no links yields the empty sequence.
pub open spec fn node_edges(n: Node) -> Seq<usize> {
    opt_edge(n.parent) + opt_edge(n.first_child) + opt_edge(n.last_child) + opt_edge(
        n.next_sibling,
    ) + opt_edge(n.prev_sibling)
}

impl Node {
    /// A fresh, unlinked, unwrapped element node with no attributes.
    pub fn new_element(kind: ElementKind, tag_name: String) -> (r: Node)
        ensures
            r.wrapper.wrapper is None,
            r.parent is None && r.first_child is None && r.last_child is None,
            r.next_sibling is None && r.prev_sibling is None,
            r.payload matches NodePayload::Element(e) && e.kind == kind && e.tag_name == tag_name
                && e.attrs@ =~= Seq::<Entry<String>>::empty(),
            node_wf(r),
            spec_attrs(r) =~= Map::<Seq<char>, String>::empty(),
    {
        Node {
            wrapper: WrapperCache::new(),
            parent: None,
            first_child: None,
            last_child: None,
            next_sibling: None,
            prev_sibling: None,
            payload: NodePayload::Element(
                ElementData { kind, tag_name, attrs: Vec::new() },
            ),
        }
    }

    /// A fresh, unlinked, unwrapped character-data or doctype node.
    pub fn new_leaf(payload: NodePayload) -> (r: Node)
        requires
            !(payload is Element),
        ensures
            r.wrapper.wrapper is None,
            r.parent is None && r.first_child is None && r.last_child is None,
            r.next_sibling is None && r.prev_sibling is None,
            r.payload == payload,
            node_wf(r),
    {
        Node {
            wrapper: WrapperCache::new(),
            parent: None,
            first_child: None,
            last_child: None,
            next_sibling: None,
            prev_sibling: None,
            payload,
        }
    }

    /// Whether the node is an element.
    pub fn is_element(&self) -> (r: bool)
        ensures
            r == (self.payload is Element),
    {
        match self.payload {
            NodePayload::Element(_) => true,
            _ => false,
        }
    }

    /// The element's tag name.
    pub fn tag_name(&self) -> (r: Option<&String>)
        ensures
            match r {
                Some(t) => self.payload is Element && t@ == spec_tag(*self),
                None => !(self.payload is Element),
            },
    {
        match &self.payload {
            NodePayload::Element(e) => Some(&e.tag_name),
            _ => None,
        }
    }

    /// Sets an attribute on an element node: replaces the value of an
    /// existing attribute of that name, else appends a new one.
    pub fn set_attr(&mut self, name: String, value: String)
        requires
            node_wf(*old(self)),
            old(self).payload is Element,
        ensures
            node_wf(*final(self)),
            final(self).payload is Element,
            spec_attrs(*final(self)) == spec_attrs(*old(self)).insert(name@, value),
            spec_tag(*final(self)) == spec_tag(*old(self)),
            final(self).wrapper == old(self).wrapper,
            final(self).parent == old(self).parent,
            final(self).first_child == old(self).first_child,
            final(self).last_child == old(self).last_child,
            final(self).next_sibling == old(self).next_sibling,
            final(self).prev_sibling == old(self).prev_sibling,
            node_edges(*final(self)) == node_edges(*old(self)),
    {
        match &mut self.payload {
            NodePayload::Element(e) => {
                entries_insert(&mut e.attrs, name, value);
            },
            _ => (),
        }
    }

    /// Reads an attribute of an element node.
    pub fn get_attr<'a>(&'a self, name: &String) -> (r: Option<&'a String>)
        requires
            node_wf(*self),
        ensures
            match r {
                Some(v) => spec_attrs(*self).contains_key(name@) && *v == spec_attrs(*self)[name@],
                None => !spec_attrs(*self).contains_key(name@),
            },
    {
        match &self.payload {
            NodePayload::Element(e) => entries_get(&e.attrs, name),
            _ => None,
        }
    }

    /// Records the node's links; the embedder's tree builder calls this
    /// with the wrapper handles of the neighbouring nodes.
    pub fn set_links(
        &mut self,
        parent: Option<usize>,
        first_child: Option<usize>,
        last_child: Option<usize>,
        next_sibling: Option<usize>,
        prev_sibling: Option<usize>,
    )
        ensures
            final(self).parent == parent,
            final(self).first_child == first_child,
            final(self).last_child == last_child,
            final(self).next_sibling == next_sibling,
            final(self).prev_sibling == prev_sibling,
            final(self).wrapper == old(self).wrapper,
            final(self).payload == old(self).payload,
    {
        self.parent = parent;
        self.first_child = first_child;
        self.last_child = last_child;
        self.next_sibling = next_sibling;
        self.prev_sibling = prev_sibling;
    }
}

/// `trace` on a node reports exactly the node's present links --- parent,
/// first child, last child, next sibling, previous sibling --- and nothing
/// else; a node with no links reports nothing.
pub proof fn lemma_node_edges_exact(n: Node)
    ensures
        forall|h: usize|
            #[trigger] node_edges(n).contains(h) <==> (n.parent == Some(h) || n.first_child
                == Some(h) || n.last_child == Some(h) || n.next_sibling == Some(h)
                || n.prev_sibling == Some(h)),
        n.parent is None && n.first_child is None && n.last_child is None && n.next_sibling is None
            && n.prev_sibling is None ==> node_edges(n) =~= Seq::<usize>::empty(),
{
    broadcast use vstd::seq_lib::lemma_seq_concat_contains_all_elements;

    assert forall|h: usize| #[trigger]
        node_edges(n).contains(h) <==> (n.parent == Some(h) || n.first_child == Some(h)
            || n.last_child == Some(h) || n.next_sibling == Some(h) || n.prev_sibling == Some(
            h,
        )) by {
        lemma_opt_edge_contains(n.parent, h);
        lemma_opt_edge_contains(n.first_child, h);
        lemma_opt_edge_contains(n.last_child, h);
        lemma_opt_edge_contains(n.next_sibling, h);
        lemma_opt_edge_contains(n.prev_sibling, h);
    }
}

proof fn lemma_opt_edge_contains(o: Option<usize>, h: usize)
    ensures
        opt_edge(o).contains(h) <==> o == Some(h),
{
    match o {
        Some(g) => {
            assert(opt_edge(o)[0] == g);
            if opt_edge(o).contains(h) {
                let i = choose|i: int| 0 <= i < opt_edge(o).len() && opt_edge(o)[i] == h;
                assert(i == 0);
            }
        },
        None => {
            assert(opt_edge(o).len() == 0);
        },
    }
}

} // verus!
