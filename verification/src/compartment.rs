//! The compartment: one script realm's class registry, prototype graph,
//! interned name table and foreign heap, with the collector hooks.
//!
//! A foreign object is a heap slot with a class, a prototype link, an
//! owning scope, a pin count, a property table and inline storage.  A
//! native value moves into the inline storage when its wrapper is
//! created, and moves out exactly once, in `finalize`.

use vstd::prelude::*;
use crate::cache::BindingFault;
use crate::entries::{Entry, entries_insert, entries_map, entries_wf};
use crate::native::{cache_of, spec_edges, spec_kind, spec_size_of, with_cache, NativeKind, NativeValue};
use crate::values::{CallFault, ScriptValue};
use crate::cache::WrapperCache;

verus! {

/// A registered class: its interface name, the native kind its finalize
/// and trace hooks handle, and the inline storage its instances carry.
pub struct ClassDescriptor {
    pub name: String,
    pub kind: NativeKind,
    pub inline_size: u64,
}

/// A defined interface prototype: its name, its parent in the
/// single-inheritance chain, and its interface object in the heap.
pub struct Prototype {
    pub name: String,
    pub parent: Option<usize>,
    pub obj: usize,
}

/// The inline storage of a foreign object: empty until a native value is
/// embedded, emptied again exactly once by `finalize`.
pub enum Slot {
    Empty,
    Full(NativeValue),
}

/// The property is listed by enumeration.
pub const PROP_ENUMERATE: u32 = 1;

/// The property slot is shared across instances of the interface.
pub const PROP_SHARED: u32 = 2;

/// The property is backed by native accessor operations.
pub const PROP_NATIVE_ACCESSORS: u32 = 4;

/// A defined property: its value, the names of the native operations
/// backing it as accessors (if any), and its behaviour flags.
pub struct Property {
    pub value: ScriptValue,
    pub getter: Option<String>,
    pub setter: Option<String>,
    pub flags: u32,
}

/// One object in the foreign heap.
pub struct ForeignObject {
    pub class: Option<usize>,
    pub proto: Option<usize>,
    pub scope: Option<usize>,
    pub pin_count: u64,
    pub props: Vec<Entry<Property>>,
    pub slot: Slot,
}

/// One script realm's registry and heap.
pub struct Compartment {
    pub classes: Vec<ClassDescriptor>,
    pub protos: Vec<Prototype>,
    pub names: Vec<String>,
    pub heap: Vec<ForeignObject>,
    pub global_obj: usize,
}

impl Compartment {
    /// Some class is registered under this name.
    pub open spec fn has_class_name(self, name: Seq<char>) -> bool {
        exists|i: int| 0 <= i < self.classes@.len() && (#[trigger] self.classes@[i].name@) == name
    }

    /// Some prototype is defined under this name.
    pub open spec fn has_proto_name(self, name: Seq<char>) -> bool {
        exists|i: int| 0 <= i < self.protos@.len() && (#[trigger] self.protos@[i].name@) == name
    }

    /// The kind of the class registered under `name`.
    pub open spec fn class_kind_by_name(self, name: Seq<char>) -> NativeKind {
        self.classes@[self.class_index(name)].kind
    }

    /// The index of the class registered under `name`.
    pub open spec fn class_index(self, name: Seq<char>) -> int {
        choose|i: int| 0 <= i < self.classes@.len() && (#[trigger] self.classes@[i].name@) == name
    }

    /// The index of the prototype defined under `name`.
    pub open spec fn proto_index(self, name: Seq<char>) -> int {
        choose|i: int| 0 <= i < self.protos@.len() && (#[trigger] self.protos@[i].name@) == name
    }

    /// The interface object of the prototype defined under `name`.
    pub open spec fn proto_obj_by_name(self, name: Seq<char>) -> usize {
        self.protos@[self.proto_index(name)].obj
    }

    /// The handle names a heap object whose inline storage holds a value.
    pub open spec fn wrapped(self, obj: int) -> bool {
        0 <= obj < self.heap@.len() && self.heap@[obj].slot is Full
    }

    /// The value embedded at `obj`.
    pub open spec fn embedded(self, obj: int) -> NativeValue {
        match self.heap@[obj].slot {
            Slot::Full(v) => v,
            Slot::Empty => vstd::pervasive::arbitrary(),
        }
    }

    /// Registry, prototype and heap invariants: class names unique and
    /// every registered inline size at least its kind's size; prototype
    /// names unique and their interface objects in the heap; the global
    /// object in the heap; property names unique on every object.
    pub open spec fn wf(self) -> bool {
        &&& 1 <= self.heap@.len()
        &&& (self.global_obj as int) < self.heap@.len()
        &&& forall|i: int, j: int|
            0 <= i < j < self.classes@.len() ==> (#[trigger] self.classes@[i].name@) != (
            #[trigger] self.classes@[j].name@)
        &&& forall|i: int|
            0 <= i < self.classes@.len() ==> (#[trigger] self.classes@[i].inline_size)
                >= spec_size_of(self.classes@[i].kind)
        &&& forall|i: int, j: int|
            0 <= i < j < self.protos@.len() ==> (#[trigger] self.protos@[i].name@) != (
            #[trigger] self.protos@[j].name@)
        &&& forall|i: int|
            0 <= i < self.protos@.len() ==> (#[trigger] self.protos@[i].obj as int)
                < self.heap@.len()
        &&& forall|o: int|
            0 <= o < self.heap@.len() ==> entries_wf(#[trigger] self.heap@[o].props@)
    }

    /// The registry tables are those of `other`.
    pub open spec fn same_registry(self, other: Compartment) -> bool {
        &&& self.classes@ == other.classes@
        &&& self.protos@ == other.protos@
        &&& self.names@ == other.names@
        &&& self.global_obj == other.global_obj
    }

    /// The heap is that of `other`, except possibly at `except`.
    pub open spec fn same_heap_except(self, other: Compartment, except: int) -> bool {
        &&& self.heap@.len() == other.heap@.len()
        &&& forall|o: int|
            0 <= o < other.heap@.len() && o != except ==> (#[trigger] self.heap@[o])
                == other.heap@[o]
    }

    /// A fresh realm: empty registry, a heap holding only the global
    /// object.
    pub fn new() -> (r: Compartment)
        ensures
            r.wf(),
            r.classes@.len() == 0 && r.protos@.len() == 0 && r.names@.len() == 0,
            r.heap@.len() == 1,
            r.global_obj == 0,
            r.heap@[0].class is None && r.heap@[0].proto is None && r.heap@[0].scope is None,
            r.heap@[0].pin_count == 0 && r.heap@[0].props@.len() == 0,
            r.heap@[0].slot is Empty,
    {
        let mut heap: Vec<ForeignObject> = Vec::new();
        heap.push(
            ForeignObject {
                class: None,
                proto: None,
                scope: None,
                pin_count: 0,
                props: Vec::new(),
                slot: Slot::Empty,
            },
        );
        Compartment {
            classes: Vec::new(),
            protos: Vec::new(),
            names: Vec::new(),
            heap,
            global_obj: 0,
        }
    }

    /// Looks a class up by name.
    pub fn find_class(&self, name: &String) -> (r: Option<usize>)
        ensures
            match r {
                Some(i) => (i as int) < self.classes@.len() && self.classes@[i as int].name@
                    == name@,
                None => !self.has_class_name(name@),
            },
    {
        let n: usize = self.classes.len();
        let mut i: usize = 0;
        while i < n
            invariant
                n == self.classes@.len(),
                0 <= i <= n,
                forall|j: int| 0 <= j < i ==> (#[trigger] self.classes@[j].name@) != name@,
            decreases n - i,
        {
            if self.classes[i].name == *name {
                return Some(i);
            }
            i = i + 1;
        }
        None
    }

    /// Looks a prototype up by name.
    pub fn find_proto(&self, name: &String) -> (r: Option<usize>)
        ensures
            match r {
                Some(i) => (i as int) < self.protos@.len() && self.protos@[i as int].name@ == name@,
                None => !self.has_proto_name(name@),
            },
    {
        let n: usize = self.protos.len();
        let mut i: usize = 0;
        while i < n
            invariant
                n == self.protos@.len(),
                0 <= i <= n,
                forall|j: int| 0 <= j < i ==> (#[trigger] self.protos@[j].name@) != name@,
            decreases n - i,
        {
            if self.protos[i].name == *name {
                return Some(i);
            }
            i = i + 1;
        }
        None
    }

    /// Registers a class: one-time, by name.  A duplicate name is
    /// refused, as is inline storage smaller than the kind's native size;
    /// so every registered class can hold its values, and the size is
    /// never checked again at creation time.
    pub fn register_class(&mut self, name: String, kind: NativeKind, inline_size: u64) -> (r:
        Result<usize, BindingFault>)
        ensures
            match r {
                Ok(i) => {
                    &&& !old(self).has_class_name(name@)
                    &&& inline_size >= spec_size_of(kind)
                    &&& i as int == old(self).classes@.len()
                    &&& final(self).classes@ == old(self).classes@.push(
                        (ClassDescriptor { name, kind, inline_size }),
                    )
                    &&& final(self).protos@ == old(self).protos@
                    &&& final(self).names@ == old(self).names@
                    &&& final(self).heap@ == old(self).heap@
                    &&& final(self).global_obj == old(self).global_obj
                    &&& final(self).has_class_name(name@)
                },
                Err(e) => {
                    &&& *final(self) == *old(self)
                    &&& (e == BindingFault::DuplicateClass || e == BindingFault::StorageTooSmall)
                    &&& (e == BindingFault::DuplicateClass <==> old(self).has_class_name(name@))
                    &&& (e == BindingFault::StorageTooSmall <==> !old(self).has_class_name(name@)
                        && inline_size < spec_size_of(kind))
                },
            },
            old(self).wf() ==> final(self).wf(),
    {
        if self.find_class(&name).is_some() {
            return Err(BindingFault::DuplicateClass);
        }
        let needed: u64 = size_of_kind(kind);
        if inline_size < needed {
            return Err(BindingFault::StorageTooSmall);
        }
        let ghost before = self.classes@;
        self.classes.push(ClassDescriptor { name, kind, inline_size });
        proof {
            assert(self.classes@[before.len() as int].name@ == name@);
            assert(old(self).wf() ==> self.wf()) by {
                if old(self).wf() {
                    assert(forall|i: int, j: int|
                        0 <= i < j < self.classes@.len() ==> (#[trigger] self.classes@[i].name@)
                            != (#[trigger] self.classes@[j].name@)) by {
                        assert(forall|i: int|
                            0 <= i < before.len() ==> (#[trigger] self.classes@[i].name@)
                                == before[i].name@);
                    }
                }
            }
        }
        Ok(self.classes.len() - 1)
    }

    /// Defines an interface prototype: creates its interface object in
    /// the heap, its prototype link pointing at the parent's interface
    /// object (or nothing, for a root interface).  A duplicate name, or
    /// an unknown parent, is refused.
    pub fn define_prototype(&mut self, name: String, parent: Option<String>) -> (r: Result<
        usize,
        BindingFault,
    >)
        requires
            old(self).wf(),
        ensures
            final(self).wf(),
            match r {
                Ok(obj) => {
                    &&& !old(self).has_proto_name(name@)
                    &&& (match parent {
                        Some(p) => old(self).has_proto_name(p@),
                        None => true,
                    })
                    &&& obj as int == old(self).heap@.len()
                    &&& final(self).heap@.len() == old(self).heap@.len() + 1
                    &&& forall|o: int|
                        0 <= o < old(self).heap@.len() ==> (#[trigger] final(self).heap@[o])
                            == old(self).heap@[o]
                    &&& final(self).heap@[obj as int].class is None
                    &&& final(self).heap@[obj as int].slot is Empty
                    &&& final(self).heap@[obj as int].pin_count == 0
                    &&& final(self).heap@[obj as int].props@.len() == 0
                    &&& (match parent {
                        Some(p) => final(self).heap@[obj as int].proto == Some(
                            old(self).proto_obj_by_name(p@),
                        ),
                        None => final(self).heap@[obj as int].proto is None,
                    })
                    &&& final(self).protos@.len() == old(self).protos@.len() + 1
                    &&& forall|i: int|
                        0 <= i < old(self).protos@.len() ==> (#[trigger] final(self).protos@[i])
                            == old(self).protos@[i]
                    &&& final(self).protos@.last().name@ == name@
                    &&& final(self).protos@.last().obj == obj
                    &&& final(self).has_proto_name(name@)
                    &&& final(self).proto_obj_by_name(name@) == obj
                    &&& final(self).classes@ == old(self).classes@
                    &&& final(self).names@ == old(self).names@
                    &&& final(self).global_obj == old(self).global_obj
                },
                Err(e) => {
                    &&& *final(self) == *old(self)
                    &&& (e == BindingFault::DuplicateProto || e == BindingFault::UnknownProto)
                    &&& (e == BindingFault::DuplicateProto <==> old(self).has_proto_name(name@))
                    &&& (e == BindingFault::UnknownProto <==> !old(self).has_proto_name(name@)
                        && (match parent {
                        Some(p) => !old(self).has_proto_name(p@),
                        None => false,
                    }))
                },
            },
    {
        if self.find_proto(&name).is_some() {
            return Err(BindingFault::DuplicateProto);
        }
        let parent_idx: Option<usize> = match &parent {
            Some(p) => match self.find_proto(p) {
                Some(i) => Some(i),
                None => {
                    return Err(BindingFault::UnknownProto);
                },
            },
            None => None,
        };
        let proto_link: Option<usize> = match parent_idx {
            Some(i) => Some(self.protos[i].obj),
            None => None,
        };
        let obj: usize = self.heap.len();
        self.heap.push(
            ForeignObject {
                class: None,
                proto: proto_link,
                scope: None,
                pin_count: 0,
                props: Vec::new(),
                slot: Slot::Empty,
            },
        );
        self.protos.push(Prototype { name, parent: parent_idx, obj });
        proof {
            let idx = self.protos@.len() - 1;
            assert(self.protos@[idx].name@ == name@);
            assert(self.has_proto_name(name@));
            lemma_unique_choose(self.protos@, idx, name@);
            match parent {
                Some(p) => {
                    let pi = old(self).proto_index(p@);
                    assert(0 <= pi < old(self).protos@.len() && old(self).protos@[pi].name@ == p@);
                    assert(self.heap@[obj as int].proto == Some(old(self).proto_obj_by_name(p@)))
                        by {
                        assert(forall|a: int, b: int|
                            0 <= a < old(self).protos@.len() && 0 <= b < old(self).protos@.len()
                                && (#[trigger] old(self).protos@[a].name@) == (#[trigger] old(
                                self,
                            ).protos@[b].name@) ==> a == b);
                    }
                },
                None => {},
            }
            assert(self.wf()) by {
                assert(forall|i: int, j: int|
                    0 <= i < j < self.protos@.len() ==> (#[trigger] self.protos@[i].name@) != (
                    #[trigger] self.protos@[j].name@)) by {
                    assert(forall|i: int|
                        0 <= i < old(self).protos@.len() ==> (#[trigger] self.protos@[i].name@)
                            == old(self).protos@[i].name@);
                }
            }
        }
        Ok(obj)
    }

    /// Interns a name, handing back its stable index in the name table.
    /// Interning an already-interned name hands back its existing index
    /// and changes nothing; every earlier index keeps denoting the string
    /// it did, for the registry's whole lifetime.
    pub fn intern(&mut self, name: String) -> (r: usize)
        ensures
            (r as int) < final(self).names@.len(),
            final(self).names@[r as int]@ == name@,
            forall|j: int|
                0 <= j < old(self).names@.len() ==> (#[trigger] final(self).names@[j]) == old(
                    self,
                ).names@[j],
            final(self).names@.len() <= old(self).names@.len() + 1,
            final(self).classes@ == old(self).classes@,
            final(self).protos@ == old(self).protos@,
            final(self).heap@ == old(self).heap@,
            final(self).global_obj == old(self).global_obj,
            old(self).wf() ==> final(self).wf(),
    {
        let n: usize = self.names.len();
        let mut i: usize = 0;
        while i < n
            invariant
                n == self.names@.len(),
                0 <= i <= n,
                *self == *old(self),
            decreases n - i,
        {
            if self.names[i] == name {
                return i;
            }
            i = i + 1;
        }
        self.names.push(name);
        n
    }

    /// Installs a property directly on a specific object, bypassing the
    /// class and prototype path; an existing property of that name is
    /// replaced.
    pub fn define_property(&mut self, target: usize, name: String, prop: Property) -> (r: Result<
        (),
        BindingFault,
    >)
        requires
            old(self).wf(),
        ensures
            final(self).wf(),
            match r {
                Ok(()) => {
                    &&& (target as int) < old(self).heap@.len()
                    &&& final(self).same_registry(*old(self))
                    &&& final(self).same_heap_except(*old(self), target as int)
                    &&& entries_map(final(self).heap@[target as int].props@) == entries_map(
                        old(self).heap@[target as int].props@,
                    ).insert(name@, prop)
                    &&& final(self).heap@[target as int].class == old(
                        self,
                    ).heap@[target as int].class
                    &&& final(self).heap@[target as int].proto == old(
                        self,
                    ).heap@[target as int].proto
                    &&& final(self).heap@[target as int].scope == old(
                        self,
                    ).heap@[target as int].scope
                    &&& final(self).heap@[target as int].pin_count == old(
                        self,
                    ).heap@[target as int].pin_count
                    &&& final(self).heap@[target as int].slot == old(self).heap@[target as int].slot
                },
                Err(e) => {
                    &&& *final(self) == *old(self)
                    &&& e == BindingFault::InvalidHandle
                    &&& (target as int) >= old(self).heap@.len()
                },
            },
    {
        if target >= self.heap.len() {
            return Err(BindingFault::InvalidHandle);
        }
        let slot = &mut self.heap[target];
        entries_insert(&mut slot.props, name, prop);
        Ok(())
    }

    /// Allocates a foreign object of the given class, under the given
    /// prototype's interface object and owning scope; its inline storage
    /// is empty.  An unregistered class or prototype name, or an invalid
    /// scope, is refused.
    pub fn new_instance(&mut self, class_name: &String, proto_name: &String, scope: usize) -> (r:
        Result<usize, BindingFault>)
        requires
            old(self).wf(),
        ensures
            final(self).wf(),
            match r {
                Ok(obj) => {
                    &&& old(self).has_class_name(class_name@)
                    &&& old(self).has_proto_name(proto_name@)
                    &&& (scope as int) < old(self).heap@.len()
                    &&& obj as int == old(self).heap@.len()
                    &&& final(self).heap@.len() == old(self).heap@.len() + 1
                    &&& forall|o: int|
                        0 <= o < old(self).heap@.len() ==> (#[trigger] final(self).heap@[o])
                            == old(self).heap@[o]
                    &&& final(self).heap@[obj as int].class == Some(
                        old(self).class_index(class_name@) as usize,
                    )
                    &&& final(self).heap@[obj as int].proto == Some(
                        old(self).proto_obj_by_name(proto_name@),
                    )
                    &&& final(self).heap@[obj as int].scope == Some(scope)
                    &&& final(self).heap@[obj as int].pin_count == 0
                    &&& final(self).heap@[obj as int].props@.len() == 0
                    &&& final(self).heap@[obj as int].slot is Empty
                    &&& final(self).same_registry(*old(self))
                },
                Err(e) => {
                    &&& *final(self) == *old(self)
                    &&& (e == BindingFault::UnknownClass || e == BindingFault::UnknownProto || e
                        == BindingFault::InvalidHandle)
                    &&& (e == BindingFault::UnknownClass <==> !old(self).has_class_name(
                        class_name@,
                    ))
                    &&& (e == BindingFault::UnknownProto <==> old(self).has_class_name(class_name@)
                        && !old(self).has_proto_name(proto_name@))
                    &&& (e == BindingFault::InvalidHandle <==> old(self).has_class_name(class_name@)
                        && old(self).has_proto_name(proto_name@) && (scope as int) >= old(
                        self,
                    ).heap@.len())
                },
            },
    {
        let ci: usize = match self.find_class(class_name) {
            Some(i) => i,
            None => {
                return Err(BindingFault::UnknownClass);
            },
        };
        let pi: usize = match self.find_proto(proto_name) {
            Some(i) => i,
            None => {
                return Err(BindingFault::UnknownProto);
            },
        };
        if scope >= self.heap.len() {
            return Err(BindingFault::InvalidHandle);
        }
        let proto_obj: usize = self.protos[pi].obj;
        let obj: usize = self.heap.len();
        proof {
            lemma_unique_class_choose(self.classes@, ci as int, class_name@);
            lemma_unique_choose(self.protos@, pi as int, proto_name@);
        }
        self.heap.push(
            ForeignObject {
                class: Some(ci),
                proto: Some(proto_obj),
                scope: Some(scope),
                pin_count: 0,
                props: Vec::new(),
                slot: Slot::Empty,
            },
        );
        Ok(obj)
    }

    /// Moves a native value into an allocated object's inline storage and
    /// stamps the value's wrapper cache with the object's handle.  An
    /// occupied slot or an already-wrapped value is a double wrap; a class
    /// of the wrong kind (or none) would corrupt memory and is refused.
    pub fn embed(&mut self, obj: usize, value: NativeValue) -> (r: Result<(), BindingFault>)
        requires
            old(self).wf(),
        ensures
            final(self).wf(),
            match r {
                Ok(()) => {
                    &&& (obj as int) < old(self).heap@.len()
                    &&& old(self).heap@[obj as int].slot is Empty
                    &&& cache_of(value).wrapper is None
                    &&& old(self).class_kind_of(obj as int) == Some(spec_kind(value))
                    &&& final(self).same_registry(*old(self))
                    &&& final(self).same_heap_except(*old(self), obj as int)
                    &&& final(self).heap@[obj as int].slot == Slot::Full(
                        with_cache(value, (WrapperCache { wrapper: Some(obj) })),
                    )
                    &&& final(self).heap@[obj as int].class == old(self).heap@[obj as int].class
                    &&& final(self).heap@[obj as int].proto == old(self).heap@[obj as int].proto
                    &&& final(self).heap@[obj as int].scope == old(self).heap@[obj as int].scope
                    &&& final(self).heap@[obj as int].pin_count == old(
                        self,
                    ).heap@[obj as int].pin_count
                    &&& final(self).heap@[obj as int].props@ == old(self).heap@[obj as int].props@
                },
                Err(e) => {
                    &&& *final(self) == *old(self)
                    &&& (e == BindingFault::InvalidHandle || e == BindingFault::KindMismatch || e
                        == BindingFault::WrapperAlreadySet)
                    &&& (e == BindingFault::InvalidHandle <==> (obj as int) >= old(
                        self,
                    ).heap@.len())
                    &&& (e == BindingFault::KindMismatch <==> (obj as int) < old(self).heap@.len()
                        && old(self).class_kind_of(obj as int) != Some(spec_kind(value)))
                    &&& (e == BindingFault::WrapperAlreadySet <==> (obj as int) < old(
                        self,
                    ).heap@.len() && old(self).class_kind_of(obj as int) == Some(spec_kind(value))
                        && (!(old(self).heap@[obj as int].slot is Empty) || !(cache_of(
                        value,
                    ).wrapper is None)))
                },
            },
    {
        if obj >= self.heap.len() {
            return Err(BindingFault::InvalidHandle);
        }
        let kind_ok: bool = match self.heap[obj].class {
            Some(ci) => {
                if ci < self.classes.len() {
                    self.classes[ci].kind == value.kind()
                } else {
                    false
                }
            },
            None => false,
        };
        if !kind_ok {
            return Err(BindingFault::KindMismatch);
        }
        let occupied: bool = match &self.heap[obj].slot {
            Slot::Full(_) => true,
            Slot::Empty => false,
        };
        if occupied {
            return Err(BindingFault::WrapperAlreadySet);
        }
        let mut value = value;
        match value.set_wrapper(obj) {
            Ok(()) => (),
            Err(e) => {
                return Err(e);
            },
        }
        let slot = &mut self.heap[obj];
        slot.slot = Slot::Full(value);
        Ok(())
    }

    /// The kind of the class an object was allocated under.
    pub open spec fn class_kind_of(self, obj: int) -> Option<NativeKind> {
        match self.heap@[obj].class {
            Some(ci) => if (ci as int) < self.classes@.len() {
                Some(self.classes@[ci as int].kind)
            } else {
                None
            },
            None => None,
        }
    }

    /// Creates the one foreign wrapper for a native value: allocates an
    /// object of the named class under the named prototype and scope,
    /// moves the value into its inline storage, and stamps the value's
    /// cache.  Registration already guaranteed the inline storage fits
    /// the value, so no size is checked here.
    pub fn create(
        &mut self,
        class_name: &String,
        proto_name: &String,
        scope: usize,
        value: NativeValue,
    ) -> (r: Result<usize, BindingFault>)
        requires
            old(self).wf(),
        ensures
            final(self).wf(),
            match r {
                Ok(obj) => {
                    &&& old(self).has_class_name(class_name@)
                    &&& old(self).has_proto_name(proto_name@)
                    &&& (scope as int) < old(self).heap@.len()
                    &&& old(self).class_kind_by_name(class_name@) == spec_kind(value)
                    &&& cache_of(value).wrapper is None
                    &&& obj as int == old(self).heap@.len()
                    &&& final(self).heap@.len() == old(self).heap@.len() + 1
                    &&& forall|o: int|
                        0 <= o < old(self).heap@.len() ==> (#[trigger] final(self).heap@[o])
                            == old(self).heap@[o]
                    &&& final(self).wrapped(obj as int)
                    &&& final(self).embedded(obj as int) == with_cache(
                        value,
                        (WrapperCache { wrapper: Some(obj) }),
                    )
                    &&& final(self).heap@[obj as int].class == Some(
                        old(self).class_index(class_name@) as usize,
                    )
                    &&& final(self).heap@[obj as int].proto == Some(
                        old(self).proto_obj_by_name(proto_name@),
                    )
                    &&& final(self).heap@[obj as int].scope == Some(scope)
                    &&& final(self).heap@[obj as int].pin_count == 0
                    &&& final(self).same_registry(*old(self))
                    &&& old(self).classes@[old(self).class_index(class_name@)].inline_size
                        >= spec_size_of(spec_kind(value))
                },
                Err(e) => {
                    &&& *final(self) == *old(self)
                    &&& (e == BindingFault::UnknownClass || e == BindingFault::UnknownProto || e
                        == BindingFault::InvalidHandle || e == BindingFault::KindMismatch || e
                        == BindingFault::WrapperAlreadySet)
                    &&& (e == BindingFault::UnknownClass <==> !old(self).has_class_name(
                        class_name@,
                    ))
                    &&& (e == BindingFault::UnknownProto <==> old(self).has_class_name(class_name@)
                        && !old(self).has_proto_name(proto_name@))
                    &&& (e == BindingFault::InvalidHandle <==> old(self).has_class_name(class_name@)
                        && old(self).has_proto_name(proto_name@) && (scope as int) >= old(
                        self,
                    ).heap@.len())
                    &&& (e == BindingFault::KindMismatch <==> old(self).has_class_name(class_name@)
                        && old(self).has_proto_name(proto_name@) && (scope as int) < old(
                        self,
                    ).heap@.len() && old(self).class_kind_by_name(class_name@) != spec_kind(value))
                    &&& (e == BindingFault::WrapperAlreadySet <==> old(self).has_class_name(
                        class_name@,
                    ) && old(self).has_proto_name(proto_name@) && (scope as int) < old(
                        self,
                    ).heap@.len() && old(self).class_kind_by_name(class_name@) == spec_kind(value)
                        && !(cache_of(value).wrapper is None))
                },
            },
    {
        let ci: usize = match self.find_class(class_name) {
            Some(i) => i,
            None => {
                return Err(BindingFault::UnknownClass);
            },
        };
        if self.find_proto(proto_name).is_none() {
            return Err(BindingFault::UnknownProto);
        }
        if scope >= self.heap.len() {
            return Err(BindingFault::InvalidHandle);
        }
        proof {
            lemma_unique_class_choose(self.classes@, ci as int, class_name@);
        }
        if !(self.classes[ci].kind == value.kind()) {
            return Err(BindingFault::KindMismatch);
        }
        if value.cache().get_wrapper().is_some() {
            return Err(BindingFault::WrapperAlreadySet);
        }
        let ghost snap = *self;
        let obj: usize = match self.new_instance(class_name, proto_name, scope) {
            Ok(o) => o,
            Err(_) => {
                proof {
                    assert(false);
                }
                vstd::pervasive::unreached()
            },
        };
        proof {
            assert(self.class_kind_of(obj as int) == Some(spec_kind(value)));
        }
        match self.embed(obj, value) {
            Ok(()) => Ok(obj),
            Err(_) => {
                proof {
                    assert(false);
                }
                vstd::pervasive::unreached()
            },
        }
    }

    /// Recovers a typed handle at a trampoline entry: the object must be
    /// live and wrapped, and its embedded value of the expected kind;
    /// a mismatched class tag fails the call rather than corrupt memory.
    pub fn resolve(&self, obj: usize, expected: NativeKind) -> (r: Result<usize, CallFault>)
        ensures
            match r {
                Ok(h) => {
                    &&& h == obj
                    &&& self.wrapped(obj as int)
                    &&& spec_kind(self.embedded(obj as int)) == expected
                },
                Err(e) => {
                    &&& (e == CallFault::BadHandle || e == CallFault::WrongClass)
                    &&& (e == CallFault::BadHandle <==> !self.wrapped(obj as int))
                    &&& (e == CallFault::WrongClass <==> self.wrapped(obj as int) && spec_kind(
                        self.embedded(obj as int),
                    ) != expected)
                },
            },
    {
        if obj >= self.heap.len() {
            return Err(CallFault::BadHandle);
        }
        match &self.heap[obj].slot {
            Slot::Full(v) => {
                if v.kind() == expected {
                    Ok(obj)
                } else {
                    Err(CallFault::WrongClass)
                }
            },
            Slot::Empty => Err(CallFault::BadHandle),
        }
    }

    /// A scoped immutable borrow of the embedded native value.
    pub fn with_imm(&self, obj: usize) -> (r: &NativeValue)
        requires
            self.wrapped(obj as int),
        ensures
            *r == self.embedded(obj as int),
    {
        match &self.heap[obj].slot {
            Slot::Full(v) => v,
            Slot::Empty => vstd::pervasive::unreached(),
        }
    }

    /// A scoped mutable borrow of the embedded native value; everything
    /// else in the realm is untouched.
    pub fn with_mut(&mut self, obj: usize) -> (r: &mut NativeValue)
        requires
            old(self).wrapped(obj as int),
        ensures
            *r == old(self).embedded(obj as int),
            final(self).same_registry(*old(self)),
            final(self).same_heap_except(*old(self), obj as int),
            final(self).heap@[obj as int].slot == Slot::Full(*final(r)),
            final(self).heap@[obj as int].class == old(self).heap@[obj as int].class,
            final(self).heap@[obj as int].proto == old(self).heap@[obj as int].proto,
            final(self).heap@[obj as int].scope == old(self).heap@[obj as int].scope,
            final(self).heap@[obj as int].pin_count == old(self).heap@[obj as int].pin_count,
            final(self).heap@[obj as int].props@ == old(self).heap@[obj as int].props@,
        {
        let slot = &mut self.heap[obj];
        match &mut slot.slot {
            Slot::Full(v) => v,
            Slot::Empty => vstd::pervasive::unreached(),
        }
    }

    /// What a successful finalize leaves behind: the one object's inline
    /// storage empty, everything else as it was.
    pub open spec fn finalize_post(before: Compartment, after: Compartment, obj: int) -> bool {
        &&& after.same_registry(before)
        &&& after.same_heap_except(before, obj)
        &&& after.heap@[obj].slot is Empty
        &&& after.heap@[obj].class == before.heap@[obj].class
        &&& after.heap@[obj].proto == before.heap@[obj].proto
        &&& after.heap@[obj].scope == before.heap@[obj].scope
        &&& after.heap@[obj].pin_count == before.heap@[obj].pin_count
        &&& after.heap@[obj].props@ == before.heap@[obj].props@
    }

    /// The collector's destruction hook: moves the embedded value out of
    /// the object's inline storage and hands it back, so destruction runs
    /// against the moved-out value, never against bytes the foreign
    /// allocator is about to repurpose.  The slot is left empty; a second
    /// finalize of the same object fails.
    pub fn finalize(&mut self, obj: usize) -> (r: Result<NativeValue, BindingFault>)
        ensures
            match r {
                Ok(v) => {
                    &&& old(self).wrapped(obj as int)
                    &&& v == old(self).embedded(obj as int)
                    &&& Compartment::finalize_post(*old(self), *final(self), obj as int)
                },
                Err(e) => {
                    &&& *final(self) == *old(self)
                    &&& (e == BindingFault::InvalidHandle || e == BindingFault::AlreadyFinalized)
                    &&& (e == BindingFault::InvalidHandle <==> (obj as int) >= old(
                        self,
                    ).heap@.len())
                    &&& (e == BindingFault::AlreadyFinalized <==> (obj as int) < old(
                        self,
                    ).heap@.len() && !(old(self).heap@[obj as int].slot is Full))
                },
            },
            old(self).wf() ==> final(self).wf(),
    {
        if obj >= self.heap.len() {
            return Err(BindingFault::InvalidHandle);
        }
        let live: bool = match &self.heap[obj].slot {
            Slot::Full(_) => true,
            Slot::Empty => false,
        };
        if !live {
            return Err(BindingFault::AlreadyFinalized);
        }
        let slot = &mut self.heap[obj];
        let mut taken: Slot = Slot::Empty;
        core::mem::swap(&mut taken, &mut slot.slot);
        match taken {
            Slot::Full(v) => Ok(v),
            Slot::Empty => vstd::pervasive::unreached(),
        }
    }

    /// The collector's marking hook: reports every foreign-visible handle
    /// the embedded value links, so the collector keeps them alive.
    pub fn trace(&self, obj: usize) -> (r: Result<Vec<usize>, BindingFault>)
        ensures
            match r {
                Ok(edges) => {
                    &&& self.wrapped(obj as int)
                    &&& edges@ == spec_edges(self.embedded(obj as int))
                },
                Err(e) => {
                    &&& (e == BindingFault::InvalidHandle || e == BindingFault::NotWrapped)
                    &&& (e == BindingFault::InvalidHandle <==> (obj as int) >= self.heap@.len())
                    &&& (e == BindingFault::NotWrapped <==> (obj as int) < self.heap@.len() && !(
                    self.heap@[obj as int].slot is Full))
                },
            },
    {
        if obj >= self.heap.len() {
            return Err(BindingFault::InvalidHandle);
        }
        match &self.heap[obj].slot {
            Slot::Full(v) => Ok(v.edges()),
            Slot::Empty => Err(BindingFault::NotWrapped),
        }
    }

    /// Pins an object against collection, independent of normal
    /// reachability; pins nest, and each one is owed a later unpin.
    pub fn pin(&mut self, obj: usize) -> (r: Result<(), BindingFault>)
        ensures
            match r {
                Ok(()) => {
                    &&& (obj as int) < old(self).heap@.len()
                    &&& old(self).heap@[obj as int].pin_count < u64::MAX
                    &&& final(self).same_registry(*old(self))
                    &&& final(self).same_heap_except(*old(self), obj as int)
                    &&& final(self).heap@[obj as int] == (ForeignObject {
                        pin_count: (old(self).heap@[obj as int].pin_count + 1) as u64,
                        ..old(self).heap@[obj as int]
                    })
                },
                Err(e) => {
                    &&& *final(self) == *old(self)
                    &&& (e == BindingFault::InvalidHandle || e == BindingFault::UnbalancedPin)
                    &&& (e == BindingFault::InvalidHandle <==> (obj as int) >= old(
                        self,
                    ).heap@.len())
                    &&& (e == BindingFault::UnbalancedPin <==> (obj as int) < old(self).heap@.len()
                        && old(self).heap@[obj as int].pin_count == u64::MAX)
                },
            },
            old(self).wf() ==> final(self).wf(),
    {
        if obj >= self.heap.len() {
            return Err(BindingFault::InvalidHandle);
        }
        if self.heap[obj].pin_count == u64::MAX {
            return Err(BindingFault::UnbalancedPin);
        }
        let slot = &mut self.heap[obj];
        slot.pin_count = slot.pin_count + 1;
        Ok(())
    }

    /// Releases one pin; an unpin without a matching pin is refused.
    pub fn unpin(&mut self, obj: usize) -> (r: Result<(), BindingFault>)
        ensures
            match r {
                Ok(()) => {
                    &&& (obj as int) < old(self).heap@.len()
                    &&& old(self).heap@[obj as int].pin_count > 0
                    &&& final(self).same_registry(*old(self))
                    &&& final(self).same_heap_except(*old(self), obj as int)
                    &&& final(self).heap@[obj as int] == (ForeignObject {
                        pin_count: (old(self).heap@[obj as int].pin_count - 1) as u64,
                        ..old(self).heap@[obj as int]
                    })
                },
                Err(e) => {
                    &&& *final(self) == *old(self)
                    &&& (e == BindingFault::InvalidHandle || e == BindingFault::UnbalancedPin)
                    &&& (e == BindingFault::InvalidHandle <==> (obj as int) >= old(
                        self,
                    ).heap@.len())
                    &&& (e == BindingFault::UnbalancedPin <==> (obj as int) < old(self).heap@.len()
                        && old(self).heap@[obj as int].pin_count == 0)
                },
            },
            old(self).wf() ==> final(self).wf(),
    {
        if obj >= self.heap.len() {
            return Err(BindingFault::InvalidHandle);
        }
        if self.heap[obj].pin_count == 0 {
            return Err(BindingFault::UnbalancedPin);
        }
        let slot = &mut self.heap[obj];
        slot.pin_count = slot.pin_count - 1;
        Ok(())
    }
}

/// Finalize runs at most once per object: the state a successful
/// finalize leaves cannot satisfy the readiness a second finalize
/// demands, so the second run fails and no value is delivered twice.
pub proof fn lemma_finalize_at_most_once(before: Compartment, after: Compartment, obj: int)
    requires
        before.wrapped(obj),
        Compartment::finalize_post(before, after, obj),
    ensures
        !after.wrapped(obj),
{
}

/// In a duplicate-free prototype table, the chosen index of a name is the
/// index where the name stands.
pub proof fn lemma_unique_choose(s: Seq<Prototype>, i: int, name: Seq<char>)
    requires
        forall|a: int, b: int|
            0 <= a < b < s.len() ==> (#[trigger] s[a].name@) != (#[trigger] s[b].name@),
        0 <= i < s.len(),
        s[i].name@ == name,
    ensures
        (choose|j: int| 0 <= j < s.len() && (#[trigger] s[j].name@) == name) == i,
{
    let j = choose|j: int| 0 <= j < s.len() && (#[trigger] s[j].name@) == name;
    if j < i {
        assert(s[j].name@ != s[i].name@);
    } else if j > i {
        assert(s[i].name@ != s[j].name@);
    }
}

/// In a duplicate-free class table, the chosen index of a name is the
/// index where the name stands.
pub proof fn lemma_unique_class_choose(s: Seq<ClassDescriptor>, i: int, name: Seq<char>)
    requires
        forall|a: int, b: int|
            0 <= a < b < s.len() ==> (#[trigger] s[a].name@) != (#[trigger] s[b].name@),
        0 <= i < s.len(),
        s[i].name@ == name,
    ensures
        (choose|j: int| 0 <= j < s.len() && (#[trigger] s[j].name@) == name) == i,
{
    let j = choose|j: int| 0 <= j < s.len() && (#[trigger] s[j].name@) == name;
    if j < i {
        assert(s[j].name@ != s[i].name@);
    } else if j > i {
        assert(s[i].name@ != s[j].name@);
    }
}

/// The model size of a kind's values, as registration checks it.
pub fn size_of_kind(k: NativeKind) -> (r: u64)
    ensures
        r == spec_size_of(k),
{
    match k {
        NativeKind::NodeKind => 96,
        NativeKind::RectKind => 24,
        NativeKind::RectListKind => 32,
        NativeKind::BlobKind => 8,
        NativeKind::FormDataKind => 32,
        NativeKind::EventKind => 40,
        NativeKind::UiEventKind => 64,
        NativeKind::MouseEventKind => 96,
        NativeKind::WindowProxyKind => 8,
        NativeKind::WindowKind => 32,
        NativeKind::DocumentKind => 32,
        NativeKind::ParserKind => 16,
        NativeKind::CollectionKind => 32,
    }
}

/// For every registered class of a well-formed compartment, the inline
/// storage is at least the size of the class's native kind: a mismatch
/// was caught at registration, so creation never fails for want of
/// storage.
pub proof fn lemma_registered_storage_sufficient(cp: Compartment, i: int)
    requires
        cp.wf(),
        0 <= i < cp.classes@.len(),
    ensures
        cp.classes@[i].inline_size >= spec_size_of(cp.classes@[i].kind),
{
}

} // verus!
