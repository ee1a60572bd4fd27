//! The closed family of native types that can live in a wrapper's inline
//! storage: their kind tags, model sizes, wrapper caches, and the linked
//! natives each value reports to the collector.

use vstd::prelude::*;
use crate::blob::Blob;
use crate::cache::{BindingFault, WrapperCache};
use crate::collection::HTMLCollection;
use crate::document::Document;
use crate::entries::Entry;
use crate::event::Event_;
use crate::formdata::{FormData, FormDatum};
use crate::mouseevent::MouseEvent;
use crate::node::{node_edges, opt_edge, Node};
use crate::parser::DOMParser;
use crate::rect::{ClientRect, ClientRectList};
use crate::uievent::UIEvent;
use crate::window::Window;
use crate::windowproxy::WindowProxy;

verus! {

/// The tag of a wrappable native type.
#[derive(Clone, Copy, Debug, PartialEq, Eq, Structural)]
pub enum NativeKind {
    NodeKind,
    RectKind,
    RectListKind,
    BlobKind,
    FormDataKind,
    EventKind,
    UiEventKind,
    MouseEventKind,
    WindowProxyKind,
    WindowKind,
    DocumentKind,
    ParserKind,
    CollectionKind,
}

/// A native value ready to be embedded in a wrapper's inline storage.
pub enum NativeValue {
    NodeVal(Node),
    RectVal(ClientRect),
    RectListVal(ClientRectList),
    BlobVal(Blob),
    FormDataVal(FormData),
    EventVal(Event_),
    UiEventVal(UIEvent),
    MouseEventVal(MouseEvent),
    WindowProxyVal(WindowProxy),
    WindowVal(Window),
    DocumentVal(Document),
    ParserVal(DOMParser),
    CollectionVal(HTMLCollection),
}

/// The kind tag of a value.
pub open spec fn spec_kind(v: NativeValue) -> NativeKind {
    match v {
        NativeValue::NodeVal(_) => NativeKind::NodeKind,
        NativeValue::RectVal(_) => NativeKind::RectKind,
        NativeValue::RectListVal(_) => NativeKind::RectListKind,
        NativeValue::BlobVal(_) => NativeKind::BlobKind,
        NativeValue::FormDataVal(_) => NativeKind::FormDataKind,
        NativeValue::EventVal(_) => NativeKind::EventKind,
        NativeValue::UiEventVal(_) => NativeKind::UiEventKind,
        NativeValue::MouseEventVal(_) => NativeKind::MouseEventKind,
        NativeValue::WindowProxyVal(_) => NativeKind::WindowProxyKind,
        NativeValue::WindowVal(_) => NativeKind::WindowKind,
        NativeValue::DocumentVal(_) => NativeKind::DocumentKind,
        NativeValue::ParserVal(_) => NativeKind::ParserKind,
        NativeValue::CollectionVal(_) => NativeKind::CollectionKind,
    }
}

/// The size, in bytes, a kind's values occupy in inline storage.
pub open spec fn spec_size_of(k: NativeKind) -> u64 {
    match k {
        NativeKind::NodeKind => 96,
        NativeKind::RectKind => 24,
        NativeKind::RectListKind => 32,
        NativeKind::BlobKind => 8,
        NativeKind::FormDataKind => 32,
        NativeKind::EventKind => 40,
        NativeKind::UiEventKind => 64,
        NativeKind::MouseEventKind => 96,
        NativeKind::WindowProxyKind => 8,
        NativeKind::WindowKind => 32,
        NativeKind::DocumentKind => 32,
        NativeKind::ParserKind => 16,
        NativeKind::CollectionKind => 32,
    }
}

/// The wrapper cache embedded in a value.
pub open spec fn cache_of(v: NativeValue) -> WrapperCache {
    match v {
        NativeValue::NodeVal(x) => x.wrapper,
        NativeValue::RectVal(x) => x.wrapper,
        NativeValue::RectListVal(x) => x.wrapper,
        NativeValue::BlobVal(x) => x.wrapper,
        NativeValue::FormDataVal(x) => x.wrapper,
        NativeValue::EventVal(x) => x.wrapper,
        NativeValue::UiEventVal(x) => x.parent.wrapper,
        NativeValue::MouseEventVal(x) => x.parent.parent.wrapper,
        NativeValue::WindowProxyVal(x) => x.wrapper,
        NativeValue::WindowVal(x) => x.wrapper,
        NativeValue::DocumentVal(x) => x.wrapper,
        NativeValue::ParserVal(x) => x.wrapper,
        NativeValue::CollectionVal(x) => x.wrapper,
    }
}

/// The same value with its wrapper cache replaced.
pub open spec fn with_cache(v: NativeValue, c: WrapperCache) -> NativeValue {
    match v {
        NativeValue::NodeVal(x) => NativeValue::NodeVal(Node { wrapper: c, ..x }),
        NativeValue::RectVal(x) => NativeValue::RectVal(ClientRect { wrapper: c, ..x }),
        NativeValue::RectListVal(x) => NativeValue::RectListVal(ClientRectList { wrapper: c, ..x }),
        NativeValue::BlobVal(x) => NativeValue::BlobVal(Blob { wrapper: c }),
        NativeValue::FormDataVal(x) => NativeValue::FormDataVal(FormData { wrapper: c, ..x }),
        NativeValue::EventVal(x) => NativeValue::EventVal(Event_ { wrapper: c, ..x }),
        NativeValue::UiEventVal(x) => NativeValue::UiEventVal(
            UIEvent { parent: Event_ { wrapper: c, ..x.parent }, ..x },
        ),
        NativeValue::MouseEventVal(x) => NativeValue::MouseEventVal(
            MouseEvent {
                parent: UIEvent {
                    parent: Event_ { wrapper: c, ..x.parent.parent },
                    ..x.parent
                },
                ..x
            },
        ),
        NativeValue::WindowProxyVal(x) => NativeValue::WindowProxyVal(WindowProxy { wrapper: c }),
        NativeValue::WindowVal(x) => NativeValue::WindowVal(Window { wrapper: c, ..x }),
        NativeValue::DocumentVal(x) => NativeValue::DocumentVal(Document { wrapper: c, ..x }),
        NativeValue::ParserVal(x) => NativeValue::ParserVal(DOMParser { wrapper: c, ..x }),
        NativeValue::CollectionVal(x) => NativeValue::CollectionVal(
            HTMLCollection { wrapper: c, ..x },
        ),
    }
}

/// The blob handles a form's entries link, in entry order.
pub open spec fn formdata_edges(s: Seq<Entry<FormDatum>>) -> Seq<usize>
    decreases s.len(),
{
    if s.len() == 0 {
        Seq::empty()
    } else {
        formdata_edges(s.drop_last()) + (match s.last().value {
            FormDatum::BlobData { blob, .. } => seq![blob],
            FormDatum::StringData(_) => Seq::empty(),
        })
    }
}

/// The linked natives reachable from a value: what `trace` must report
/// so the collector keeps them alive.  A value with none reports nothing.
pub open spec fn spec_edges(v: NativeValue) -> Seq<usize> {
    match v {
        NativeValue::NodeVal(n) => node_edges(n),
        NativeValue::RectVal(_) => Seq::empty(),
        NativeValue::RectListVal(l) => l.rects@,
        NativeValue::BlobVal(_) => Seq::empty(),
        NativeValue::FormDataVal(f) => formdata_edges(f.data@),
        NativeValue::EventVal(_) => Seq::empty(),
        NativeValue::UiEventVal(u) => opt_edge(u.view),
        NativeValue::MouseEventVal(m) => opt_edge(m.parent.view) + opt_edge(m.related_target),
        NativeValue::WindowProxyVal(_) => Seq::empty(),
        NativeValue::WindowVal(_) => Seq::empty(),
        NativeValue::DocumentVal(d) => seq![d.root] + opt_edge(d.window),
        NativeValue::ParserVal(p) => seq![p.owner],
        NativeValue::CollectionVal(c) => c.elements@,
    }
}

impl NativeValue {
    /// The kind tag of this value.
    pub fn kind(&self) -> (r: NativeKind)
        ensures
            r == spec_kind(*self),
    {
        match self {
            NativeValue::NodeVal(_) => NativeKind::NodeKind,
            NativeValue::RectVal(_) => NativeKind::RectKind,
            NativeValue::RectListVal(_) => NativeKind::RectListKind,
            NativeValue::BlobVal(_) => NativeKind::BlobKind,
            NativeValue::FormDataVal(_) => NativeKind::FormDataKind,
            NativeValue::EventVal(_) => NativeKind::EventKind,
            NativeValue::UiEventVal(_) => NativeKind::UiEventKind,
            NativeValue::MouseEventVal(_) => NativeKind::MouseEventKind,
            NativeValue::WindowProxyVal(_) => NativeKind::WindowProxyKind,
            NativeValue::WindowVal(_) => NativeKind::WindowKind,
            NativeValue::DocumentVal(_) => NativeKind::DocumentKind,
            NativeValue::ParserVal(_) => NativeKind::ParserKind,
            NativeValue::CollectionVal(_) => NativeKind::CollectionKind,
        }
    }

    /// Borrows the embedded wrapper cache.
    pub fn cache(&self) -> (r: &WrapperCache)
        ensures
            *r == cache_of(*self),
    {
        match self {
            NativeValue::NodeVal(x) => &x.wrapper,
            NativeValue::RectVal(x) => &x.wrapper,
            NativeValue::RectListVal(x) => &x.wrapper,
            NativeValue::BlobVal(x) => &x.wrapper,
            NativeValue::FormDataVal(x) => &x.wrapper,
            NativeValue::EventVal(x) => &x.wrapper,
            NativeValue::UiEventVal(x) => &x.parent.wrapper,
            NativeValue::MouseEventVal(x) => &x.parent.parent.wrapper,
            NativeValue::WindowProxyVal(x) => &x.wrapper,
            NativeValue::WindowVal(x) => &x.wrapper,
            NativeValue::DocumentVal(x) => &x.wrapper,
            NativeValue::ParserVal(x) => &x.wrapper,
            NativeValue::CollectionVal(x) => &x.wrapper,
        }
    }

    /// Records the wrapper handle in the embedded cache; fails, leaving
    /// the value unchanged, if one is already set.
    pub fn set_wrapper(&mut self, h: usize) -> (r: Result<(), BindingFault>)
        ensures
            match r {
                Ok(()) => {
                    &&& cache_of(*old(self)).wrapper is None
                    &&& *final(self) == with_cache(
                        *old(self),
                        (WrapperCache { wrapper: Some(h) }),
                    )
                },
                Err(e) => {
                    &&& e == BindingFault::WrapperAlreadySet
                    &&& !(cache_of(*old(self)).wrapper is None)
                    &&& *final(self) == *old(self)
                },
            },
    {
        let r = match self {
            NativeValue::NodeVal(x) => x.wrapper.set_wrapper(h),
            NativeValue::RectVal(x) => x.wrapper.set_wrapper(h),
            NativeValue::RectListVal(x) => x.wrapper.set_wrapper(h),
            NativeValue::BlobVal(x) => x.wrapper.set_wrapper(h),
            NativeValue::FormDataVal(x) => x.wrapper.set_wrapper(h),
            NativeValue::EventVal(x) => x.wrapper.set_wrapper(h),
            NativeValue::UiEventVal(x) => x.parent.wrapper.set_wrapper(h),
            NativeValue::MouseEventVal(x) => x.parent.parent.wrapper.set_wrapper(h),
            NativeValue::WindowProxyVal(x) => x.wrapper.set_wrapper(h),
            NativeValue::WindowVal(x) => x.wrapper.set_wrapper(h),
            NativeValue::DocumentVal(x) => x.wrapper.set_wrapper(h),
            NativeValue::ParserVal(x) => x.wrapper.set_wrapper(h),
            NativeValue::CollectionVal(x) => x.wrapper.set_wrapper(h),
        };
        r
    }

    /// The linked natives this value reaches, as `trace` reports them.
    pub fn edges(&self) -> (r: Vec<usize>)
        ensures
            r@ == spec_edges(*self),
    {
        let mut out: Vec<usize> = Vec::new();
        match self {
            NativeValue::NodeVal(n) => {
                push_opt(&mut out, &n.parent);
                push_opt(&mut out, &n.first_child);
                push_opt(&mut out, &n.last_child);
                push_opt(&mut out, &n.next_sibling);
                push_opt(&mut out, &n.prev_sibling);
                proof {
                    assert(out@ =~= spec_edges(*self));
                }
            },
            NativeValue::RectListVal(l) => {
                push_all(&mut out, &l.rects);
                proof {
                    assert(out@ =~= spec_edges(*self));
                }
            },
            NativeValue::FormDataVal(f) => {
                let n: usize = f.data.len();
                let mut i: usize = 0;
                while i < n
                    invariant
                        n == f.data@.len(),
                        0 <= i <= n,
                        out@ == formdata_edges(f.data@.take(i as int)),
                    decreases n - i,
                {
                    match &f.data[i].value {
                        FormDatum::BlobData { blob, .. } => {
                            out.push(*blob);
                        },
                        FormDatum::StringData(_) => (),
                    }
                    proof {
                        assert(f.data@.take(i + 1 as int).drop_last() =~= f.data@.take(i as int));
                        assert(f.data@.take(i + 1 as int).last() == f.data@[i as int]);
                    }
                    i = i + 1;
                }
                proof {
                    assert(f.data@.take(n as int) =~= f.data@);
                }
            },
            NativeValue::UiEventVal(u) => {
                push_opt(&mut out, &u.view);
                proof {
                    assert(out@ =~= spec_edges(*self));
                }
            },
            NativeValue::MouseEventVal(m) => {
                push_opt(&mut out, &m.parent.view);
                push_opt(&mut out, &m.related_target);
                proof {
                    assert(out@ =~= spec_edges(*self));
                }
            },
            NativeValue::DocumentVal(d) => {
                out.push(d.root);
                push_opt(&mut out, &d.window);
                proof {
                    assert(out@ =~= spec_edges(*self));
                }
            },
            NativeValue::ParserVal(p) => {
                out.push(p.owner);
                proof {
                    assert(out@ =~= spec_edges(*self));
                }
            },
            NativeValue::RectVal(_) => {
                proof {
                    assert(out@ =~= spec_edges(*self));
                }
            },
            NativeValue::BlobVal(_) => {
                proof {
                    assert(out@ =~= spec_edges(*self));
                }
            },
            NativeValue::EventVal(_) => {
                proof {
                    assert(out@ =~= spec_edges(*self));
                }
            },
            NativeValue::WindowProxyVal(_) => {
                proof {
                    assert(out@ =~= spec_edges(*self));
                }
            },
            NativeValue::WindowVal(_) => {
                proof {
                    assert(out@ =~= spec_edges(*self));
                }
            },
            NativeValue::CollectionVal(c) => {
                push_all(&mut out, &c.elements);
                proof {
                    assert(out@ =~= spec_edges(*self));
                }
            },
        }
        out
    }
}

fn push_opt(out: &mut Vec<usize>, o: &Option<usize>)
    ensures
        final(out)@ == old(out)@ + crate::node::opt_edge(*o),
{
    match o {
        Some(h) => {
            out.push(*h);
            proof {
                assert(out@ =~= old(out)@ + crate::node::opt_edge(*o));
            }
        },
        None => {
            proof {
                assert(out@ =~= old(out)@ + crate::node::opt_edge(*o));
            }
        },
    }
}

fn push_all(out: &mut Vec<usize>, items: &Vec<usize>)
    ensures
        final(out)@ == old(out)@ + items@,
{
    let n: usize = items.len();
    let mut i: usize = 0;
    while i < n
        invariant
            n == items@.len(),
            0 <= i <= n,
            out@ == old(out)@ + items@.take(i as int),
        decreases n - i,
    {
        out.push(items[i]);
        proof {
            assert(out@ =~= old(out)@ + items@.take(i + 1 as int));
        }
        i = i + 1;
    }
    proof {
        assert(items@.take(n as int) =~= items@);
    }
}

} // verus!
