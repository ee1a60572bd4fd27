//! One-time startup of a script realm: defines the interface prototype
//! graph, registers every instance class with its collector hooks' kind
//! and its inline storage size, and installs the property and method
//! names on the interface objects.
//!
//! Each name is registered exactly once; a fresh realm accepts every
//! registration, so building one cannot fail, and the contract says so.

use vstd::prelude::*;
use vstd::string::StringExecFns;
use crate::bindings::{element_ready, ready_for, text_ready};
use crate::compartment::{lemma_unique_choose, lemma_unique_class_choose, Compartment, Property, PROP_ENUMERATE, PROP_NATIVE_ACCESSORS, PROP_SHARED};
use crate::entries::entries_map;
use crate::native::NativeKind;
use crate::node::{ElementKind, NodePayload};
use crate::values::ScriptValue;

verus! {

/// The interface named `child` has the interface named `parent` as its
/// prototype: the single-inheritance chain, one link.
pub open spec fn proto_linked(cp: Compartment, child: Seq<char>, parent: Seq<char>) -> bool {
    cp.heap@[cp.proto_obj_by_name(child) as int].proto == Some(cp.proto_obj_by_name(parent))
}

/// The interface named `proto` carries a member of the given name.
pub open spec fn member_installed(cp: Compartment, proto: Seq<char>, name: Seq<char>) -> bool {
    entries_map(cp.heap@[cp.proto_obj_by_name(proto) as int].props@).contains_key(name)
}

/// The core of the interface chain: the window, document and node
/// prototypes, and the element base interfaces.
#[verifier::rlimit(100)]
fn init_protos_core(cp: &mut Compartment) -> (r: (usize, usize, usize))
    requires
        old(cp).wf(),
        old(cp).protos@.len() == 0,
    ensures
        final(cp).wf(),
        final(cp).protos@.len() == 5,
        final(cp).protos@[0].name@ == "Window"@,
        final(cp).protos@[1].name@ == "Document"@,
        final(cp).protos@[2].name@ == "Node"@,
        final(cp).protos@[3].name@ == "Element"@,
        final(cp).protos@[4].name@ == "HTMLElement"@,
        forall|i: int|
            0 <= i < 0 ==> (#[trigger] final(cp).protos@[i]) == old(cp).protos@[i],
        final(cp).heap@[final(cp).protos@[3].obj as int].proto == Some(
            final(cp).protos@[2].obj,
        ),
        final(cp).heap@[final(cp).protos@[4].obj as int].proto == Some(
            final(cp).protos@[3].obj,
        ),
        r.0 == final(cp).protos@[0].obj,
        r.1 == final(cp).protos@[1].obj,
        r.2 == final(cp).protos@[3].obj,
        final(cp).heap@.len() == old(cp).heap@.len() + 5,
        forall|o: int|
            0 <= o < old(cp).heap@.len() ==> (#[trigger] final(cp).heap@[o]) == old(cp).heap@[o],
        final(cp).classes@ == old(cp).classes@,
        final(cp).names@ == old(cp).names@,
        final(cp).global_obj == old(cp).global_obj,
{
    proof {
        reveal_strlit("Document");
        reveal_strlit("Element");
        reveal_strlit("HTMLElement");
        reveal_strlit("Node");
        reveal_strlit("Window");
        assert("Document"@.len() == 8);
        assert("Element"@.len() == 7);
        assert("HTMLElement"@.len() == 11);
        assert("Node"@.len() == 4);
        assert("Window"@.len() == 6);
    }
    proof {
    }
    let p_window: usize = match cp.define_prototype(String::from_str("Window"), None) {
        Ok(o) => o,
        Err(_) => {
            proof {
                assert(false);
            }
            vstd::pervasive::unreached()
        },
    };
    proof {
        assert(cp.protos@[0].name@ == "Window"@);
    }
    let p_document: usize = match cp.define_prototype(String::from_str("Document"), None) {
        Ok(o) => o,
        Err(_) => {
            proof {
                assert(false);
            }
            vstd::pervasive::unreached()
        },
    };
    proof {
        assert(cp.protos@[0].name@ == "Window"@);
        assert(cp.protos@[1].name@ == "Document"@);
    }
    let p_node: usize = match cp.define_prototype(String::from_str("Node"), None) {
        Ok(o) => o,
        Err(_) => {
            proof {
                assert(false);
            }
            vstd::pervasive::unreached()
        },
    };
    proof {
        assert(cp.protos@[0].name@ == "Window"@);
        assert(cp.protos@[1].name@ == "Document"@);
        assert(cp.protos@[2].name@ == "Node"@);
        lemma_unique_choose(cp.protos@, 2, "Node"@);
        assert(cp.proto_obj_by_name("Node"@) == cp.protos@[2].obj);
    }
    let p_element: usize = match cp.define_prototype(String::from_str("Element"), Some(String::from_str("Node"))) {
        Ok(o) => o,
        Err(_) => {
            proof {
                assert(false);
            }
            vstd::pervasive::unreached()
        },
    };
    proof {
        assert(cp.heap@[p_element as int].proto == Some(cp.protos@[2].obj));
    }
    proof {
        assert(cp.protos@[0].name@ == "Window"@);
        assert(cp.protos@[1].name@ == "Document"@);
        assert(cp.protos@[2].name@ == "Node"@);
        assert(cp.protos@[3].name@ == "Element"@);
        lemma_unique_choose(cp.protos@, 3, "Element"@);
        assert(cp.proto_obj_by_name("Element"@) == cp.protos@[3].obj);
    }
    let p_htmlelement: usize = match cp.define_prototype(String::from_str("HTMLElement"), Some(String::from_str("Element"))) {
        Ok(o) => o,
        Err(_) => {
            proof {
                assert(false);
            }
            vstd::pervasive::unreached()
        },
    };
    proof {
        assert(cp.heap@[p_htmlelement as int].proto == Some(cp.protos@[3].obj));
    }
    proof {
        assert(cp.protos@[0].name@ == "Window"@);
        assert(cp.protos@[1].name@ == "Document"@);
        assert(cp.protos@[2].name@ == "Node"@);
        assert(cp.protos@[3].name@ == "Element"@);
        assert(cp.protos@[4].name@ == "HTMLElement"@);
        assert(cp.heap@[cp.protos@[3].obj as int].proto == Some(cp.protos@[2].obj));
        assert(cp.heap@[cp.protos@[4].obj as int].proto == Some(cp.protos@[3].obj));
    }
    (p_window, p_document, p_element)
}

/// The concrete element interfaces, each under the element base.
#[verifier::rlimit(100)]
fn init_protos_elements(cp: &mut Compartment) -> (r: usize)
    requires
        old(cp).wf(),
        old(cp).protos@.len() == 5,
        old(cp).protos@[0].name@ == "Window"@,
        old(cp).protos@[1].name@ == "Document"@,
        old(cp).protos@[2].name@ == "Node"@,
        old(cp).protos@[3].name@ == "Element"@,
        old(cp).protos@[4].name@ == "HTMLElement"@,
    ensures
        final(cp).wf(),
        final(cp).protos@.len() == 9,
        final(cp).protos@[0].name@ == "Window"@,
        final(cp).protos@[1].name@ == "Document"@,
        final(cp).protos@[2].name@ == "Node"@,
        final(cp).protos@[3].name@ == "Element"@,
        final(cp).protos@[4].name@ == "HTMLElement"@,
        final(cp).protos@[5].name@ == "HTMLDivElement"@,
        final(cp).protos@[6].name@ == "HTMLScriptElement"@,
        final(cp).protos@[7].name@ == "HTMLHeadElement"@,
        final(cp).protos@[8].name@ == "HTMLImageElement"@,
        forall|i: int|
            0 <= i < 5 ==> (#[trigger] final(cp).protos@[i]) == old(cp).protos@[i],
        final(cp).heap@[final(cp).protos@[5].obj as int].proto == Some(
            final(cp).protos@[4].obj,
        ),
        final(cp).heap@[final(cp).protos@[6].obj as int].proto == Some(
            final(cp).protos@[4].obj,
        ),
        final(cp).heap@[final(cp).protos@[7].obj as int].proto == Some(
            final(cp).protos@[4].obj,
        ),
        final(cp).heap@[final(cp).protos@[8].obj as int].proto == Some(
            final(cp).protos@[4].obj,
        ),
        r == final(cp).protos@[8].obj,
        final(cp).heap@.len() == old(cp).heap@.len() + 4,
        forall|o: int|
            0 <= o < old(cp).heap@.len() ==> (#[trigger] final(cp).heap@[o]) == old(cp).heap@[o],
        final(cp).classes@ == old(cp).classes@,
        final(cp).names@ == old(cp).names@,
        final(cp).global_obj == old(cp).global_obj,
{
    proof {
        reveal_strlit("Document");
        reveal_strlit("Element");
        reveal_strlit("HTMLDivElement");
        reveal_strlit("HTMLElement");
        reveal_strlit("HTMLHeadElement");
        reveal_strlit("HTMLImageElement");
        reveal_strlit("HTMLScriptElement");
        reveal_strlit("Node");
        reveal_strlit("Window");
        assert("Document"@.len() == 8);
        assert("Element"@.len() == 7);
        assert("HTMLDivElement"@.len() == 14);
        assert("HTMLElement"@.len() == 11);
        assert("HTMLHeadElement"@.len() == 15);
        assert("HTMLImageElement"@.len() == 16);
        assert("HTMLScriptElement"@.len() == 17);
        assert("Node"@.len() == 4);
        assert("Window"@.len() == 6);
    }
    proof {
        assert(cp.protos@[0].name@ == "Window"@);
        assert(cp.protos@[1].name@ == "Document"@);
        assert(cp.protos@[2].name@ == "Node"@);
        assert(cp.protos@[3].name@ == "Element"@);
        assert(cp.protos@[4].name@ == "HTMLElement"@);
        lemma_unique_choose(cp.protos@, 4, "HTMLElement"@);
        assert(cp.proto_obj_by_name("HTMLElement"@) == cp.protos@[4].obj);
    }
    let p_htmldivelement: usize = match cp.define_prototype(String::from_str("HTMLDivElement"), Some(String::from_str("HTMLElement"))) {
        Ok(o) => o,
        Err(_) => {
            proof {
                assert(false);
            }
            vstd::pervasive::unreached()
        },
    };
    proof {
        assert(cp.heap@[p_htmldivelement as int].proto == Some(cp.protos@[4].obj));
    }
    proof {
        assert(cp.protos@[0].name@ == "Window"@);
        assert(cp.protos@[1].name@ == "Document"@);
        assert(cp.protos@[2].name@ == "Node"@);
        assert(cp.protos@[3].name@ == "Element"@);
        assert(cp.protos@[4].name@ == "HTMLElement"@);
        assert(cp.protos@[5].name@ == "HTMLDivElement"@);
        lemma_unique_choose(cp.protos@, 4, "HTMLElement"@);
        assert(cp.proto_obj_by_name("HTMLElement"@) == cp.protos@[4].obj);
    }
    let p_htmlscriptelement: usize = match cp.define_prototype(String::from_str("HTMLScriptElement"), Some(String::from_str("HTMLElement"))) {
        Ok(o) => o,
        Err(_) => {
            proof {
                assert(false);
            }
            vstd::pervasive::unreached()
        },
    };
    proof {
        assert(cp.heap@[p_htmlscriptelement as int].proto == Some(cp.protos@[4].obj));
    }
    proof {
        assert(cp.protos@[0].name@ == "Window"@);
        assert(cp.protos@[1].name@ == "Document"@);
        assert(cp.protos@[2].name@ == "Node"@);
        assert(cp.protos@[3].name@ == "Element"@);
        assert(cp.protos@[4].name@ == "HTMLElement"@);
        assert(cp.protos@[5].name@ == "HTMLDivElement"@);
        assert(cp.protos@[6].name@ == "HTMLScriptElement"@);
        lemma_unique_choose(cp.protos@, 4, "HTMLElement"@);
        assert(cp.proto_obj_by_name("HTMLElement"@) == cp.protos@[4].obj);
    }
    let p_htmlheadelement: usize = match cp.define_prototype(String::from_str("HTMLHeadElement"), Some(String::from_str("HTMLElement"))) {
        Ok(o) => o,
        Err(_) => {
            proof {
                assert(false);
            }
            vstd::pervasive::unreached()
        },
    };
    proof {
        assert(cp.heap@[p_htmlheadelement as int].proto == Some(cp.protos@[4].obj));
    }
    proof {
        assert(cp.protos@[0].name@ == "Window"@);
        assert(cp.protos@[1].name@ == "Document"@);
        assert(cp.protos@[2].name@ == "Node"@);
        assert(cp.protos@[3].name@ == "Element"@);
        assert(cp.protos@[4].name@ == "HTMLElement"@);
        assert(cp.protos@[5].name@ == "HTMLDivElement"@);
        assert(cp.protos@[6].name@ == "HTMLScriptElement"@);
        assert(cp.protos@[7].name@ == "HTMLHeadElement"@);
        lemma_unique_choose(cp.protos@, 4, "HTMLElement"@);
        assert(cp.proto_obj_by_name("HTMLElement"@) == cp.protos@[4].obj);
    }
    let p_htmlimageelement: usize = match cp.define_prototype(String::from_str("HTMLImageElement"), Some(String::from_str("HTMLElement"))) {
        Ok(o) => o,
        Err(_) => {
            proof {
                assert(false);
            }
            vstd::pervasive::unreached()
        },
    };
    proof {
        assert(cp.heap@[p_htmlimageelement as int].proto == Some(cp.protos@[4].obj));
    }
    proof {
        assert(cp.protos@[0].name@ == "Window"@);
        assert(cp.protos@[1].name@ == "Document"@);
        assert(cp.protos@[2].name@ == "Node"@);
        assert(cp.protos@[3].name@ == "Element"@);
        assert(cp.protos@[4].name@ == "HTMLElement"@);
        assert(cp.protos@[5].name@ == "HTMLDivElement"@);
        assert(cp.protos@[6].name@ == "HTMLScriptElement"@);
        assert(cp.protos@[7].name@ == "HTMLHeadElement"@);
        assert(cp.protos@[8].name@ == "HTMLImageElement"@);
        assert(cp.heap@[cp.protos@[5].obj as int].proto == Some(cp.protos@[4].obj));
        assert(cp.heap@[cp.protos@[6].obj as int].proto == Some(cp.protos@[4].obj));
        assert(cp.heap@[cp.protos@[7].obj as int].proto == Some(cp.protos@[4].obj));
        assert(cp.heap@[cp.protos@[8].obj as int].proto == Some(cp.protos@[4].obj));
    }
    p_htmlimageelement
}

/// The character-data and doctype interfaces.
#[verifier::rlimit(100)]
fn init_protos_text(cp: &mut Compartment)
    requires
        old(cp).wf(),
        old(cp).protos@.len() == 9,
        old(cp).protos@[0].name@ == "Window"@,
        old(cp).protos@[1].name@ == "Document"@,
        old(cp).protos@[2].name@ == "Node"@,
        old(cp).protos@[3].name@ == "Element"@,
        old(cp).protos@[4].name@ == "HTMLElement"@,
        old(cp).protos@[5].name@ == "HTMLDivElement"@,
        old(cp).protos@[6].name@ == "HTMLScriptElement"@,
        old(cp).protos@[7].name@ == "HTMLHeadElement"@,
        old(cp).protos@[8].name@ == "HTMLImageElement"@,
    ensures
        final(cp).wf(),
        final(cp).protos@.len() == 13,
        final(cp).protos@[0].name@ == "Window"@,
        final(cp).protos@[1].name@ == "Document"@,
        final(cp).protos@[2].name@ == "Node"@,
        final(cp).protos@[3].name@ == "Element"@,
        final(cp).protos@[4].name@ == "HTMLElement"@,
        final(cp).protos@[5].name@ == "HTMLDivElement"@,
        final(cp).protos@[6].name@ == "HTMLScriptElement"@,
        final(cp).protos@[7].name@ == "HTMLHeadElement"@,
        final(cp).protos@[8].name@ == "HTMLImageElement"@,
        final(cp).protos@[9].name@ == "CharacterData"@,
        final(cp).protos@[10].name@ == "TextPrototype"@,
        final(cp).protos@[11].name@ == "CommentPrototype"@,
        final(cp).protos@[12].name@ == "DocumentTypePrototype"@,
        forall|i: int|
            0 <= i < 9 ==> (#[trigger] final(cp).protos@[i]) == old(cp).protos@[i],
        final(cp).heap@[final(cp).protos@[9].obj as int].proto == Some(
            final(cp).protos@[2].obj,
        ),
        final(cp).heap@[final(cp).protos@[10].obj as int].proto == Some(
            final(cp).protos@[9].obj,
        ),
        final(cp).heap@[final(cp).protos@[11].obj as int].proto == Some(
            final(cp).protos@[9].obj,
        ),
        final(cp).heap@[final(cp).protos@[12].obj as int].proto == Some(
            final(cp).protos@[2].obj,
        ),
        final(cp).heap@.len() == old(cp).heap@.len() + 4,
        forall|o: int|
            0 <= o < old(cp).heap@.len() ==> (#[trigger] final(cp).heap@[o]) == old(cp).heap@[o],
        final(cp).classes@ == old(cp).classes@,
        final(cp).names@ == old(cp).names@,
        final(cp).global_obj == old(cp).global_obj,
{
    proof {
        reveal_strlit("CharacterData");
        reveal_strlit("CommentPrototype");
        reveal_strlit("Document");
        reveal_strlit("DocumentTypePrototype");
        reveal_strlit("Element");
        reveal_strlit("HTMLDivElement");
        reveal_strlit("HTMLElement");
        reveal_strlit("HTMLHeadElement");
        reveal_strlit("HTMLImageElement");
        reveal_strlit("HTMLScriptElement");
        reveal_strlit("Node");
        reveal_strlit("TextPrototype");
        reveal_strlit("Window");
        assert("CharacterData"@.len() == 13);
        assert("CommentPrototype"@.len() == 16);
        assert("Document"@.len() == 8);
        assert("DocumentTypePrototype"@.len() == 21);
        assert("Element"@.len() == 7);
        assert("HTMLDivElement"@.len() == 14);
        assert("HTMLElement"@.len() == 11);
        assert("HTMLHeadElement"@.len() == 15);
        assert("HTMLImageElement"@.len() == 16);
        assert("HTMLScriptElement"@.len() == 17);
        assert("Node"@.len() == 4);
        assert("TextPrototype"@.len() == 13);
        assert("Window"@.len() == 6);
        assert("CharacterData"@[0] == 'C');
        assert("CommentPrototype"@[0] == 'C');
        assert("HTMLImageElement"@[0] == 'H');
        assert("TextPrototype"@[0] == 'T');
    }
    proof {
        assert(cp.protos@[0].name@ == "Window"@);
        assert(cp.protos@[1].name@ == "Document"@);
        assert(cp.protos@[2].name@ == "Node"@);
        assert(cp.protos@[3].name@ == "Element"@);
        assert(cp.protos@[4].name@ == "HTMLElement"@);
        assert(cp.protos@[5].name@ == "HTMLDivElement"@);
        assert(cp.protos@[6].name@ == "HTMLScriptElement"@);
        assert(cp.protos@[7].name@ == "HTMLHeadElement"@);
        assert(cp.protos@[8].name@ == "HTMLImageElement"@);
        lemma_unique_choose(cp.protos@, 2, "Node"@);
        assert(cp.proto_obj_by_name("Node"@) == cp.protos@[2].obj);
    }
    let p_characterdata: usize = match cp.define_prototype(String::from_str("CharacterData"), Some(String::from_str("Node"))) {
        Ok(o) => o,
        Err(_) => {
            proof {
                assert(false);
            }
            vstd::pervasive::unreached()
        },
    };
    proof {
        assert(cp.heap@[p_characterdata as int].proto == Some(cp.protos@[2].obj));
    }
    proof {
        assert(cp.protos@[0].name@ == "Window"@);
        assert(cp.protos@[1].name@ == "Document"@);
        assert(cp.protos@[2].name@ == "Node"@);
        assert(cp.protos@[3].name@ == "Element"@);
        assert(cp.protos@[4].name@ == "HTMLElement"@);
        assert(cp.protos@[5].name@ == "HTMLDivElement"@);
        assert(cp.protos@[6].name@ == "HTMLScriptElement"@);
        assert(cp.protos@[7].name@ == "HTMLHeadElement"@);
        assert(cp.protos@[8].name@ == "HTMLImageElement"@);
        assert(cp.protos@[9].name@ == "CharacterData"@);
        lemma_unique_choose(cp.protos@, 9, "CharacterData"@);
        assert(cp.proto_obj_by_name("CharacterData"@) == cp.protos@[9].obj);
    }
    let p_textprototype: usize = match cp.define_prototype(String::from_str("TextPrototype"), Some(String::from_str("CharacterData"))) {
        Ok(o) => o,
        Err(_) => {
            proof {
                assert(false);
            }
            vstd::pervasive::unreached()
        },
    };
    proof {
        assert(cp.heap@[p_textprototype as int].proto == Some(cp.protos@[9].obj));
    }
    proof {
        assert(cp.protos@[0].name@ == "Window"@);
        assert(cp.protos@[1].name@ == "Document"@);
        assert(cp.protos@[2].name@ == "Node"@);
        assert(cp.protos@[3].name@ == "Element"@);
        assert(cp.protos@[4].name@ == "HTMLElement"@);
        assert(cp.protos@[5].name@ == "HTMLDivElement"@);
        assert(cp.protos@[6].name@ == "HTMLScriptElement"@);
        assert(cp.protos@[7].name@ == "HTMLHeadElement"@);
        assert(cp.protos@[8].name@ == "HTMLImageElement"@);
        assert(cp.protos@[9].name@ == "CharacterData"@);
        assert(cp.protos@[10].name@ == "TextPrototype"@);
        lemma_unique_choose(cp.protos@, 9, "CharacterData"@);
        assert(cp.proto_obj_by_name("CharacterData"@) == cp.protos@[9].obj);
    }
    let p_commentprototype: usize = match cp.define_prototype(String::from_str("CommentPrototype"), Some(String::from_str("CharacterData"))) {
        Ok(o) => o,
        Err(_) => {
            proof {
                assert(false);
            }
            vstd::pervasive::unreached()
        },
    };
    proof {
        assert(cp.heap@[p_commentprototype as int].proto == Some(cp.protos@[9].obj));
    }
    proof {
        assert(cp.protos@[0].name@ == "Window"@);
        assert(cp.protos@[1].name@ == "Document"@);
        assert(cp.protos@[2].name@ == "Node"@);
        assert(cp.protos@[3].name@ == "Element"@);
        assert(cp.protos@[4].name@ == "HTMLElement"@);
        assert(cp.protos@[5].name@ == "HTMLDivElement"@);
        assert(cp.protos@[6].name@ == "HTMLScriptElement"@);
        assert(cp.protos@[7].name@ == "HTMLHeadElement"@);
        assert(cp.protos@[8].name@ == "HTMLImageElement"@);
        assert(cp.protos@[9].name@ == "CharacterData"@);
        assert(cp.protos@[10].name@ == "TextPrototype"@);
        assert(cp.protos@[11].name@ == "CommentPrototype"@);
        lemma_unique_choose(cp.protos@, 2, "Node"@);
        assert(cp.proto_obj_by_name("Node"@) == cp.protos@[2].obj);
    }
    let p_documenttypeprototype: usize = match cp.define_prototype(String::from_str("DocumentTypePrototype"), Some(String::from_str("Node"))) {
        Ok(o) => o,
        Err(_) => {
            proof {
                assert(false);
            }
            vstd::pervasive::unreached()
        },
    };
    proof {
        assert(cp.heap@[p_documenttypeprototype as int].proto == Some(cp.protos@[2].obj));
    }
    proof {
        assert(cp.protos@[0].name@ == "Window"@);
        assert(cp.protos@[1].name@ == "Document"@);
        assert(cp.protos@[2].name@ == "Node"@);
        assert(cp.protos@[3].name@ == "Element"@);
        assert(cp.protos@[4].name@ == "HTMLElement"@);
        assert(cp.protos@[5].name@ == "HTMLDivElement"@);
        assert(cp.protos@[6].name@ == "HTMLScriptElement"@);
        assert(cp.protos@[7].name@ == "HTMLHeadElement"@);
        assert(cp.protos@[8].name@ == "HTMLImageElement"@);
        assert(cp.protos@[9].name@ == "CharacterData"@);
        assert(cp.protos@[10].name@ == "TextPrototype"@);
        assert(cp.protos@[11].name@ == "CommentPrototype"@);
        assert(cp.protos@[12].name@ == "DocumentTypePrototype"@);
        assert(cp.heap@[cp.protos@[9].obj as int].proto == Some(cp.protos@[2].obj));
        assert(cp.heap@[cp.protos@[10].obj as int].proto == Some(cp.protos@[9].obj));
        assert(cp.heap@[cp.protos@[11].obj as int].proto == Some(cp.protos@[9].obj));
        assert(cp.heap@[cp.protos@[12].obj as int].proto == Some(cp.protos@[2].obj));
    }
}

/// The event interface chain.
#[verifier::rlimit(100)]
fn init_protos_events(cp: &mut Compartment)
    requires
        old(cp).wf(),
        old(cp).protos@.len() == 13,
        old(cp).protos@[0].name@ == "Window"@,
        old(cp).protos@[1].name@ == "Document"@,
        old(cp).protos@[2].name@ == "Node"@,
        old(cp).protos@[3].name@ == "Element"@,
        old(cp).protos@[4].name@ == "HTMLElement"@,
        old(cp).protos@[5].name@ == "HTMLDivElement"@,
        old(cp).protos@[6].name@ == "HTMLScriptElement"@,
        old(cp).protos@[7].name@ == "HTMLHeadElement"@,
        old(cp).protos@[8].name@ == "HTMLImageElement"@,
        old(cp).protos@[9].name@ == "CharacterData"@,
        old(cp).protos@[10].name@ == "TextPrototype"@,
        old(cp).protos@[11].name@ == "CommentPrototype"@,
        old(cp).protos@[12].name@ == "DocumentTypePrototype"@,
    ensures
        final(cp).wf(),
        final(cp).protos@.len() == 16,
        final(cp).protos@[0].name@ == "Window"@,
        final(cp).protos@[1].name@ == "Document"@,
        final(cp).protos@[2].name@ == "Node"@,
        final(cp).protos@[3].name@ == "Element"@,
        final(cp).protos@[4].name@ == "HTMLElement"@,
        final(cp).protos@[5].name@ == "HTMLDivElement"@,
        final(cp).protos@[6].name@ == "HTMLScriptElement"@,
        final(cp).protos@[7].name@ == "HTMLHeadElement"@,
        final(cp).protos@[8].name@ == "HTMLImageElement"@,
        final(cp).protos@[9].name@ == "CharacterData"@,
        final(cp).protos@[10].name@ == "TextPrototype"@,
        final(cp).protos@[11].name@ == "CommentPrototype"@,
        final(cp).protos@[12].name@ == "DocumentTypePrototype"@,
        final(cp).protos@[13].name@ == "EventPrototype"@,
        final(cp).protos@[14].name@ == "UIEventPrototype"@,
        final(cp).protos@[15].name@ == "MouseEventPrototype"@,
        forall|i: int|
            0 <= i < 13 ==> (#[trigger] final(cp).protos@[i]) == old(cp).protos@[i],
        final(cp).heap@[final(cp).protos@[14].obj as int].proto == Some(
            final(cp).protos@[13].obj,
        ),
        final(cp).heap@[final(cp).protos@[15].obj as int].proto == Some(
            final(cp).protos@[14].obj,
        ),
        final(cp).heap@.len() == old(cp).heap@.len() + 3,
        forall|o: int|
            0 <= o < old(cp).heap@.len() ==> (#[trigger] final(cp).heap@[o]) == old(cp).heap@[o],
        final(cp).classes@ == old(cp).classes@,
        final(cp).names@ == old(cp).names@,
        final(cp).global_obj == old(cp).global_obj,
{
    proof {
        reveal_strlit("CharacterData");
        reveal_strlit("CommentPrototype");
        reveal_strlit("Document");
        reveal_strlit("DocumentTypePrototype");
        reveal_strlit("Element");
        reveal_strlit("EventPrototype");
        reveal_strlit("HTMLDivElement");
        reveal_strlit("HTMLElement");
        reveal_strlit("HTMLHeadElement");
        reveal_strlit("HTMLImageElement");
        reveal_strlit("HTMLScriptElement");
        reveal_strlit("MouseEventPrototype");
        reveal_strlit("Node");
        reveal_strlit("TextPrototype");
        reveal_strlit("UIEventPrototype");
        reveal_strlit("Window");
        assert("CharacterData"@.len() == 13);
        assert("CommentPrototype"@.len() == 16);
        assert("Document"@.len() == 8);
        assert("DocumentTypePrototype"@.len() == 21);
        assert("Element"@.len() == 7);
        assert("EventPrototype"@.len() == 14);
        assert("HTMLDivElement"@.len() == 14);
        assert("HTMLElement"@.len() == 11);
        assert("HTMLHeadElement"@.len() == 15);
        assert("HTMLImageElement"@.len() == 16);
        assert("HTMLScriptElement"@.len() == 17);
        assert("MouseEventPrototype"@.len() == 19);
        assert("Node"@.len() == 4);
        assert("TextPrototype"@.len() == 13);
        assert("UIEventPrototype"@.len() == 16);
        assert("Window"@.len() == 6);
        assert("CommentPrototype"@[0] == 'C');
        assert("EventPrototype"@[0] == 'E');
        assert("HTMLDivElement"@[0] == 'H');
        assert("HTMLImageElement"@[0] == 'H');
        assert("UIEventPrototype"@[0] == 'U');
    }
    proof {
        assert(cp.protos@[0].name@ == "Window"@);
        assert(cp.protos@[1].name@ == "Document"@);
        assert(cp.protos@[2].name@ == "Node"@);
        assert(cp.protos@[3].name@ == "Element"@);
        assert(cp.protos@[4].name@ == "HTMLElement"@);
        assert(cp.protos@[5].name@ == "HTMLDivElement"@);
        assert(cp.protos@[6].name@ == "HTMLScriptElement"@);
        assert(cp.protos@[7].name@ == "HTMLHeadElement"@);
        assert(cp.protos@[8].name@ == "HTMLImageElement"@);
        assert(cp.protos@[9].name@ == "CharacterData"@);
        assert(cp.protos@[10].name@ == "TextPrototype"@);
        assert(cp.protos@[11].name@ == "CommentPrototype"@);
        assert(cp.protos@[12].name@ == "DocumentTypePrototype"@);
    }
    let p_eventprototype: usize = match cp.define_prototype(String::from_str("EventPrototype"), None) {
        Ok(o) => o,
        Err(_) => {
            proof {
                assert(false);
            }
            vstd::pervasive::unreached()
        },
    };
    proof {
        assert(cp.protos@[0].name@ == "Window"@);
        assert(cp.protos@[1].name@ == "Document"@);
        assert(cp.protos@[2].name@ == "Node"@);
        assert(cp.protos@[3].name@ == "Element"@);
        assert(cp.protos@[4].name@ == "HTMLElement"@);
        assert(cp.protos@[5].name@ == "HTMLDivElement"@);
        assert(cp.protos@[6].name@ == "HTMLScriptElement"@);
        assert(cp.protos@[7].name@ == "HTMLHeadElement"@);
        assert(cp.protos@[8].name@ == "HTMLImageElement"@);
        assert(cp.protos@[9].name@ == "CharacterData"@);
        assert(cp.protos@[10].name@ == "TextPrototype"@);
        assert(cp.protos@[11].name@ == "CommentPrototype"@);
        assert(cp.protos@[12].name@ == "DocumentTypePrototype"@);
        assert(cp.protos@[13].name@ == "EventPrototype"@);
        lemma_unique_choose(cp.protos@, 13, "EventPrototype"@);
        assert(cp.proto_obj_by_name("EventPrototype"@) == cp.protos@[13].obj);
    }
    let p_uieventprototype: usize = match cp.define_prototype(String::from_str("UIEventPrototype"), Some(String::from_str("EventPrototype"))) {
        Ok(o) => o,
        Err(_) => {
            proof {
                assert(false);
            }
            vstd::pervasive::unreached()
        },
    };
    proof {
        assert(cp.heap@[p_uieventprototype as int].proto == Some(cp.protos@[13].obj));
    }
    proof {
        assert(cp.protos@[0].name@ == "Window"@);
        assert(cp.protos@[1].name@ == "Document"@);
        assert(cp.protos@[2].name@ == "Node"@);
        assert(cp.protos@[3].name@ == "Element"@);
        assert(cp.protos@[4].name@ == "HTMLElement"@);
        assert(cp.protos@[5].name@ == "HTMLDivElement"@);
        assert(cp.protos@[6].name@ == "HTMLScriptElement"@);
        assert(cp.protos@[7].name@ == "HTMLHeadElement"@);
        assert(cp.protos@[8].name@ == "HTMLImageElement"@);
        assert(cp.protos@[9].name@ == "CharacterData"@);
        assert(cp.protos@[10].name@ == "TextPrototype"@);
        assert(cp.protos@[11].name@ == "CommentPrototype"@);
        assert(cp.protos@[12].name@ == "DocumentTypePrototype"@);
        assert(cp.protos@[13].name@ == "EventPrototype"@);
        assert(cp.protos@[14].name@ == "UIEventPrototype"@);
        lemma_unique_choose(cp.protos@, 14, "UIEventPrototype"@);
        assert(cp.proto_obj_by_name("UIEventPrototype"@) == cp.protos@[14].obj);
    }
    let p_mouseeventprototype: usize = match cp.define_prototype(String::from_str("MouseEventPrototype"), Some(String::from_str("UIEventPrototype"))) {
        Ok(o) => o,
        Err(_) => {
            proof {
                assert(false);
            }
            vstd::pervasive::unreached()
        },
    };
    proof {
        assert(cp.heap@[p_mouseeventprototype as int].proto == Some(cp.protos@[14].obj));
    }
    proof {
        assert(cp.protos@[0].name@ == "Window"@);
        assert(cp.protos@[1].name@ == "Document"@);
        assert(cp.protos@[2].name@ == "Node"@);
        assert(cp.protos@[3].name@ == "Element"@);
        assert(cp.protos@[4].name@ == "HTMLElement"@);
        assert(cp.protos@[5].name@ == "HTMLDivElement"@);
        assert(cp.protos@[6].name@ == "HTMLScriptElement"@);
        assert(cp.protos@[7].name@ == "HTMLHeadElement"@);
        assert(cp.protos@[8].name@ == "HTMLImageElement"@);
        assert(cp.protos@[9].name@ == "CharacterData"@);
        assert(cp.protos@[10].name@ == "TextPrototype"@);
        assert(cp.protos@[11].name@ == "CommentPrototype"@);
        assert(cp.protos@[12].name@ == "DocumentTypePrototype"@);
        assert(cp.protos@[13].name@ == "EventPrototype"@);
        assert(cp.protos@[14].name@ == "UIEventPrototype"@);
        assert(cp.protos@[15].name@ == "MouseEventPrototype"@);
        assert(cp.heap@[cp.protos@[14].obj as int].proto == Some(cp.protos@[13].obj));
        assert(cp.heap@[cp.protos@[15].obj as int].proto == Some(cp.protos@[14].obj));
    }
}

/// The peripheral interfaces: rectangles, blobs, form data, the
/// window proxy, the parser and the collection.
#[verifier::rlimit(100)]
fn init_protos_peripheral(cp: &mut Compartment)
    requires
        old(cp).wf(),
        old(cp).protos@.len() == 16,
        old(cp).protos@[0].name@ == "Window"@,
        old(cp).protos@[1].name@ == "Document"@,
        old(cp).protos@[2].name@ == "Node"@,
        old(cp).protos@[3].name@ == "Element"@,
        old(cp).protos@[4].name@ == "HTMLElement"@,
        old(cp).protos@[5].name@ == "HTMLDivElement"@,
        old(cp).protos@[6].name@ == "HTMLScriptElement"@,
        old(cp).protos@[7].name@ == "HTMLHeadElement"@,
        old(cp).protos@[8].name@ == "HTMLImageElement"@,
        old(cp).protos@[9].name@ == "CharacterData"@,
        old(cp).protos@[10].name@ == "TextPrototype"@,
        old(cp).protos@[11].name@ == "CommentPrototype"@,
        old(cp).protos@[12].name@ == "DocumentTypePrototype"@,
        old(cp).protos@[13].name@ == "EventPrototype"@,
        old(cp).protos@[14].name@ == "UIEventPrototype"@,
        old(cp).protos@[15].name@ == "MouseEventPrototype"@,
    ensures
        final(cp).wf(),
        final(cp).protos@.len() == 23,
        final(cp).protos@[0].name@ == "Window"@,
        final(cp).protos@[1].name@ == "Document"@,
        final(cp).protos@[2].name@ == "Node"@,
        final(cp).protos@[3].name@ == "Element"@,
        final(cp).protos@[4].name@ == "HTMLElement"@,
        final(cp).protos@[5].name@ == "HTMLDivElement"@,
        final(cp).protos@[6].name@ == "HTMLScriptElement"@,
        final(cp).protos@[7].name@ == "HTMLHeadElement"@,
        final(cp).protos@[8].name@ == "HTMLImageElement"@,
        final(cp).protos@[9].name@ == "CharacterData"@,
        final(cp).protos@[10].name@ == "TextPrototype"@,
        final(cp).protos@[11].name@ == "CommentPrototype"@,
        final(cp).protos@[12].name@ == "DocumentTypePrototype"@,
        final(cp).protos@[13].name@ == "EventPrototype"@,
        final(cp).protos@[14].name@ == "UIEventPrototype"@,
        final(cp).protos@[15].name@ == "MouseEventPrototype"@,
        final(cp).protos@[16].name@ == "ClientRectPrototype"@,
        final(cp).protos@[17].name@ == "ClientRectListPrototype"@,
        final(cp).protos@[18].name@ == "BlobPrototype"@,
        final(cp).protos@[19].name@ == "FormDataPrototype"@,
        final(cp).protos@[20].name@ == "WindowProxyPrototype"@,
        final(cp).protos@[21].name@ == "DOMParserPrototype"@,
        final(cp).protos@[22].name@ == "HTMLCollectionPrototype"@,
        forall|i: int|
            0 <= i < 16 ==> (#[trigger] final(cp).protos@[i]) == old(cp).protos@[i],
        final(cp).heap@.len() == old(cp).heap@.len() + 7,
        forall|o: int|
            0 <= o < old(cp).heap@.len() ==> (#[trigger] final(cp).heap@[o]) == old(cp).heap@[o],
        final(cp).classes@ == old(cp).classes@,
        final(cp).names@ == old(cp).names@,
        final(cp).global_obj == old(cp).global_obj,
{
    proof {
        reveal_strlit("BlobPrototype");
        reveal_strlit("CharacterData");
        reveal_strlit("ClientRectListPrototype");
        reveal_strlit("ClientRectPrototype");
        reveal_strlit("CommentPrototype");
        reveal_strlit("DOMParserPrototype");
        reveal_strlit("Document");
        reveal_strlit("DocumentTypePrototype");
        reveal_strlit("Element");
        reveal_strlit("EventPrototype");
        reveal_strlit("FormDataPrototype");
        reveal_strlit("HTMLCollectionPrototype");
        reveal_strlit("HTMLDivElement");
        reveal_strlit("HTMLElement");
        reveal_strlit("HTMLHeadElement");
        reveal_strlit("HTMLImageElement");
        reveal_strlit("HTMLScriptElement");
        reveal_strlit("MouseEventPrototype");
        reveal_strlit("Node");
        reveal_strlit("TextPrototype");
        reveal_strlit("UIEventPrototype");
        reveal_strlit("Window");
        reveal_strlit("WindowProxyPrototype");
        assert("BlobPrototype"@.len() == 13);
        assert("CharacterData"@.len() == 13);
        assert("ClientRectListPrototype"@.len() == 23);
        assert("ClientRectPrototype"@.len() == 19);
        assert("CommentPrototype"@.len() == 16);
        assert("DOMParserPrototype"@.len() == 18);
        assert("Document"@.len() == 8);
        assert("DocumentTypePrototype"@.len() == 21);
        assert("Element"@.len() == 7);
        assert("EventPrototype"@.len() == 14);
        assert("FormDataPrototype"@.len() == 17);
        assert("HTMLCollectionPrototype"@.len() == 23);
        assert("HTMLDivElement"@.len() == 14);
        assert("HTMLElement"@.len() == 11);
        assert("HTMLHeadElement"@.len() == 15);
        assert("HTMLImageElement"@.len() == 16);
        assert("HTMLScriptElement"@.len() == 17);
        assert("MouseEventPrototype"@.len() == 19);
        assert("Node"@.len() == 4);
        assert("TextPrototype"@.len() == 13);
        assert("UIEventPrototype"@.len() == 16);
        assert("Window"@.len() == 6);
        assert("WindowProxyPrototype"@.len() == 20);
        assert("BlobPrototype"@[0] == 'B');
        assert("CharacterData"@[0] == 'C');
        assert("ClientRectListPrototype"@[0] == 'C');
        assert("ClientRectPrototype"@[0] == 'C');
        assert("FormDataPrototype"@[0] == 'F');
        assert("HTMLCollectionPrototype"@[0] == 'H');
        assert("HTMLScriptElement"@[0] == 'H');
        assert("MouseEventPrototype"@[0] == 'M');
        assert("TextPrototype"@[0] == 'T');
    }
    proof {
        assert(cp.protos@[0].name@ == "Window"@);
        assert(cp.protos@[1].name@ == "Document"@);
        assert(cp.protos@[2].name@ == "Node"@);
        assert(cp.protos@[3].name@ == "Element"@);
        assert(cp.protos@[4].name@ == "HTMLElement"@);
        assert(cp.protos@[5].name@ == "HTMLDivElement"@);
        assert(cp.protos@[6].name@ == "HTMLScriptElement"@);
        assert(cp.protos@[7].name@ == "HTMLHeadElement"@);
        assert(cp.protos@[8].name@ == "HTMLImageElement"@);
        assert(cp.protos@[9].name@ == "CharacterData"@);
        assert(cp.protos@[10].name@ == "TextPrototype"@);
        assert(cp.protos@[11].name@ == "CommentPrototype"@);
        assert(cp.protos@[12].name@ == "DocumentTypePrototype"@);
        assert(cp.protos@[13].name@ == "EventPrototype"@);
        assert(cp.protos@[14].name@ == "UIEventPrototype"@);
        assert(cp.protos@[15].name@ == "MouseEventPrototype"@);
    }
    let p_clientrectprototype: usize = match cp.define_prototype(String::from_str("ClientRectPrototype"), None) {
        Ok(o) => o,
        Err(_) => {
            proof {
                assert(false);
            }
            vstd::pervasive::unreached()
        },
    };
    proof {
        assert(cp.protos@[0].name@ == "Window"@);
        assert(cp.protos@[1].name@ == "Document"@);
        assert(cp.protos@[2].name@ == "Node"@);
        assert(cp.protos@[3].name@ == "Element"@);
        assert(cp.protos@[4].name@ == "HTMLElement"@);
        assert(cp.protos@[5].name@ == "HTMLDivElement"@);
        assert(cp.protos@[6].name@ == "HTMLScriptElement"@);
        assert(cp.protos@[7].name@ == "HTMLHeadElement"@);
        assert(cp.protos@[8].name@ == "HTMLImageElement"@);
        assert(cp.protos@[9].name@ == "CharacterData"@);
        assert(cp.protos@[10].name@ == "TextPrototype"@);
        assert(cp.protos@[11].name@ == "CommentPrototype"@);
        assert(cp.protos@[12].name@ == "DocumentTypePrototype"@);
        assert(cp.protos@[13].name@ == "EventPrototype"@);
        assert(cp.protos@[14].name@ == "UIEventPrototype"@);
        assert(cp.protos@[15].name@ == "MouseEventPrototype"@);
        assert(cp.protos@[16].name@ == "ClientRectPrototype"@);
    }
    let p_clientrectlistprototype: usize = match cp.define_prototype(String::from_str("ClientRectListPrototype"), None) {
        Ok(o) => o,
        Err(_) => {
            proof {
                assert(false);
            }
            vstd::pervasive::unreached()
        },
    };
    proof {
        assert(cp.protos@[0].name@ == "Window"@);
        assert(cp.protos@[1].name@ == "Document"@);
        assert(cp.protos@[2].name@ == "Node"@);
        assert(cp.protos@[3].name@ == "Element"@);
        assert(cp.protos@[4].name@ == "HTMLElement"@);
        assert(cp.protos@[5].name@ == "HTMLDivElement"@);
        assert(cp.protos@[6].name@ == "HTMLScriptElement"@);
        assert(cp.protos@[7].name@ == "HTMLHeadElement"@);
        assert(cp.protos@[8].name@ == "HTMLImageElement"@);
        assert(cp.protos@[9].name@ == "CharacterData"@);
        assert(cp.protos@[10].name@ == "TextPrototype"@);
        assert(cp.protos@[11].name@ == "CommentPrototype"@);
        assert(cp.protos@[12].name@ == "DocumentTypePrototype"@);
        assert(cp.protos@[13].name@ == "EventPrototype"@);
        assert(cp.protos@[14].name@ == "UIEventPrototype"@);
        assert(cp.protos@[15].name@ == "MouseEventPrototype"@);
        assert(cp.protos@[16].name@ == "ClientRectPrototype"@);
        assert(cp.protos@[17].name@ == "ClientRectListPrototype"@);
    }
    let p_blobprototype: usize = match cp.define_prototype(String::from_str("BlobPrototype"), None) {
        Ok(o) => o,
        Err(_) => {
            proof {
                assert(false);
            }
            vstd::pervasive::unreached()
        },
    };
    proof {
        assert(cp.protos@[0].name@ == "Window"@);
        assert(cp.protos@[1].name@ == "Document"@);
        assert(cp.protos@[2].name@ == "Node"@);
        assert(cp.protos@[3].name@ == "Element"@);
        assert(cp.protos@[4].name@ == "HTMLElement"@);
        assert(cp.protos@[5].name@ == "HTMLDivElement"@);
        assert(cp.protos@[6].name@ == "HTMLScriptElement"@);
        assert(cp.protos@[7].name@ == "HTMLHeadElement"@);
        assert(cp.protos@[8].name@ == "HTMLImageElement"@);
        assert(cp.protos@[9].name@ == "CharacterData"@);
        assert(cp.protos@[10].name@ == "TextPrototype"@);
        assert(cp.protos@[11].name@ == "CommentPrototype"@);
        assert(cp.protos@[12].name@ == "DocumentTypePrototype"@);
        assert(cp.protos@[13].name@ == "EventPrototype"@);
        assert(cp.protos@[14].name@ == "UIEventPrototype"@);
        assert(cp.protos@[15].name@ == "MouseEventPrototype"@);
        assert(cp.protos@[16].name@ == "ClientRectPrototype"@);
        assert(cp.protos@[17].name@ == "ClientRectListPrototype"@);
        assert(cp.protos@[18].name@ == "BlobPrototype"@);
    }
    let p_formdataprototype: usize = match cp.define_prototype(String::from_str("FormDataPrototype"), None) {
        Ok(o) => o,
        Err(_) => {
            proof {
                assert(false);
            }
            vstd::pervasive::unreached()
        },
    };
    proof {
        assert(cp.protos@[0].name@ == "Window"@);
        assert(cp.protos@[1].name@ == "Document"@);
        assert(cp.protos@[2].name@ == "Node"@);
        assert(cp.protos@[3].name@ == "Element"@);
        assert(cp.protos@[4].name@ == "HTMLElement"@);
        assert(cp.protos@[5].name@ == "HTMLDivElement"@);
        assert(cp.protos@[6].name@ == "HTMLScriptElement"@);
        assert(cp.protos@[7].name@ == "HTMLHeadElement"@);
        assert(cp.protos@[8].name@ == "HTMLImageElement"@);
        assert(cp.protos@[9].name@ == "CharacterData"@);
        assert(cp.protos@[10].name@ == "TextPrototype"@);
        assert(cp.protos@[11].name@ == "CommentPrototype"@);
        assert(cp.protos@[12].name@ == "DocumentTypePrototype"@);
        assert(cp.protos@[13].name@ == "EventPrototype"@);
        assert(cp.protos@[14].name@ == "UIEventPrototype"@);
        assert(cp.protos@[15].name@ == "MouseEventPrototype"@);
        assert(cp.protos@[16].name@ == "ClientRectPrototype"@);
        assert(cp.protos@[17].name@ == "ClientRectListPrototype"@);
        assert(cp.protos@[18].name@ == "BlobPrototype"@);
        assert(cp.protos@[19].name@ == "FormDataPrototype"@);
    }
    let p_windowproxyprototype: usize = match cp.define_prototype(String::from_str("WindowProxyPrototype"), None) {
        Ok(o) => o,
        Err(_) => {
            proof {
                assert(false);
            }
            vstd::pervasive::unreached()
        },
    };
    proof {
        assert(cp.protos@[0].name@ == "Window"@);
        assert(cp.protos@[1].name@ == "Document"@);
        assert(cp.protos@[2].name@ == "Node"@);
        assert(cp.protos@[3].name@ == "Element"@);
        assert(cp.protos@[4].name@ == "HTMLElement"@);
        assert(cp.protos@[5].name@ == "HTMLDivElement"@);
        assert(cp.protos@[6].name@ == "HTMLScriptElement"@);
        assert(cp.protos@[7].name@ == "HTMLHeadElement"@);
        assert(cp.protos@[8].name@ == "HTMLImageElement"@);
        assert(cp.protos@[9].name@ == "CharacterData"@);
        assert(cp.protos@[10].name@ == "TextPrototype"@);
        assert(cp.protos@[11].name@ == "CommentPrototype"@);
        assert(cp.protos@[12].name@ == "DocumentTypePrototype"@);
        assert(cp.protos@[13].name@ == "EventPrototype"@);
        assert(cp.protos@[14].name@ == "UIEventPrototype"@);
        assert(cp.protos@[15].name@ == "MouseEventPrototype"@);
        assert(cp.protos@[16].name@ == "ClientRectPrototype"@);
        assert(cp.protos@[17].name@ == "ClientRectListPrototype"@);
        assert(cp.protos@[18].name@ == "BlobPrototype"@);
        assert(cp.protos@[19].name@ == "FormDataPrototype"@);
        assert(cp.protos@[20].name@ == "WindowProxyPrototype"@);
    }
    let p_domparserprototype: usize = match cp.define_prototype(String::from_str("DOMParserPrototype"), None) {
        Ok(o) => o,
        Err(_) => {
            proof {
                assert(false);
            }
            vstd::pervasive::unreached()
        },
    };
    proof {
        assert(cp.protos@[0].name@ == "Window"@);
        assert(cp.protos@[1].name@ == "Document"@);
        assert(cp.protos@[2].name@ == "Node"@);
        assert(cp.protos@[3].name@ == "Element"@);
        assert(cp.protos@[4].name@ == "HTMLElement"@);
        assert(cp.protos@[5].name@ == "HTMLDivElement"@);
        assert(cp.protos@[6].name@ == "HTMLScriptElement"@);
        assert(cp.protos@[7].name@ == "HTMLHeadElement"@);
        assert(cp.protos@[8].name@ == "HTMLImageElement"@);
        assert(cp.protos@[9].name@ == "CharacterData"@);
        assert(cp.protos@[10].name@ == "TextPrototype"@);
        assert(cp.protos@[11].name@ == "CommentPrototype"@);
        assert(cp.protos@[12].name@ == "DocumentTypePrototype"@);
        assert(cp.protos@[13].name@ == "EventPrototype"@);
        assert(cp.protos@[14].name@ == "UIEventPrototype"@);
        assert(cp.protos@[15].name@ == "MouseEventPrototype"@);
        assert(cp.protos@[16].name@ == "ClientRectPrototype"@);
        assert(cp.protos@[17].name@ == "ClientRectListPrototype"@);
        assert(cp.protos@[18].name@ == "BlobPrototype"@);
        assert(cp.protos@[19].name@ == "FormDataPrototype"@);
        assert(cp.protos@[20].name@ == "WindowProxyPrototype"@);
        assert(cp.protos@[21].name@ == "DOMParserPrototype"@);
    }
    let p_htmlcollectionprototype: usize = match cp.define_prototype(String::from_str("HTMLCollectionPrototype"), None) {
        Ok(o) => o,
        Err(_) => {
            proof {
                assert(false);
            }
            vstd::pervasive::unreached()
        },
    };
    proof {
        assert(cp.protos@[0].name@ == "Window"@);
        assert(cp.protos@[1].name@ == "Document"@);
        assert(cp.protos@[2].name@ == "Node"@);
        assert(cp.protos@[3].name@ == "Element"@);
        assert(cp.protos@[4].name@ == "HTMLElement"@);
        assert(cp.protos@[5].name@ == "HTMLDivElement"@);
        assert(cp.protos@[6].name@ == "HTMLScriptElement"@);
        assert(cp.protos@[7].name@ == "HTMLHeadElement"@);
        assert(cp.protos@[8].name@ == "HTMLImageElement"@);
        assert(cp.protos@[9].name@ == "CharacterData"@);
        assert(cp.protos@[10].name@ == "TextPrototype"@);
        assert(cp.protos@[11].name@ == "CommentPrototype"@);
        assert(cp.protos@[12].name@ == "DocumentTypePrototype"@);
        assert(cp.protos@[13].name@ == "EventPrototype"@);
        assert(cp.protos@[14].name@ == "UIEventPrototype"@);
        assert(cp.protos@[15].name@ == "MouseEventPrototype"@);
        assert(cp.protos@[16].name@ == "ClientRectPrototype"@);
        assert(cp.protos@[17].name@ == "ClientRectListPrototype"@);
        assert(cp.protos@[18].name@ == "BlobPrototype"@);
        assert(cp.protos@[19].name@ == "FormDataPrototype"@);
        assert(cp.protos@[20].name@ == "WindowProxyPrototype"@);
        assert(cp.protos@[21].name@ == "DOMParserPrototype"@);
        assert(cp.protos@[22].name@ == "HTMLCollectionPrototype"@);
    }
}

/// Installs the interface members on the objects that carry them: the
/// window operations, the document accessors, the element operations and
/// the image width accessor pair.
#[verifier::rlimit(100)]
fn init_members(cp: &mut Compartment, handles: (usize, usize, usize, usize))
    requires
        old(cp).wf(),
        (handles.0 as int) < old(cp).heap@.len(),
        (handles.1 as int) < old(cp).heap@.len(),
        (handles.2 as int) < old(cp).heap@.len(),
        (handles.3 as int) < old(cp).heap@.len(),
    ensures
        final(cp).wf(),
        final(cp).protos@ == old(cp).protos@,
        final(cp).classes@ == old(cp).classes@,
        final(cp).global_obj == old(cp).global_obj,
        final(cp).heap@.len() == old(cp).heap@.len(),
        forall|o: int|
            0 <= o < old(cp).heap@.len() ==> (#[trigger] final(cp).heap@[o]).proto == old(
                cp,
            ).heap@[o].proto,
        ({
            let p = entries_map(final(cp).heap@[handles.1 as int].props@)["documentElement"@];
            &&& (p.getter matches Some(g) && g@ == "invoke_get_document_element"@)
            &&& p.setter is None
            &&& p.flags == PROP_ENUMERATE | PROP_SHARED | PROP_NATIVE_ACCESSORS
        }),
        ({
            let p = entries_map(final(cp).heap@[handles.2 as int].props@)["tagName"@];
            &&& (p.getter matches Some(g) && g@ == "invoke_get_tag_name"@)
            &&& p.setter is None
            &&& p.flags == PROP_ENUMERATE | PROP_SHARED | PROP_NATIVE_ACCESSORS
        }),
        ({
            let p = entries_map(final(cp).heap@[handles.3 as int].props@)["width"@];
            &&& (p.getter matches Some(g) && g@ == "invoke_image_get_width"@)
            &&& (p.setter matches Some(s) && s@ == "invoke_image_set_width"@)
            &&& p.flags == PROP_ENUMERATE | PROP_SHARED | PROP_NATIVE_ACCESSORS
        }),
        entries_map(final(cp).heap@[handles.0 as int].props@).contains_key("alert"@),
        entries_map(final(cp).heap@[handles.0 as int].props@).contains_key("setTimeout"@),
        entries_map(final(cp).heap@[handles.0 as int].props@).contains_key("close"@),
        entries_map(final(cp).heap@[handles.0 as int].props@).contains_key("_trigger_gc"@),
        entries_map(final(cp).heap@[handles.1 as int].props@).contains_key("documentElement"@),
        entries_map(final(cp).heap@[handles.1 as int].props@).contains_key("getElementsByTagName"@),
        entries_map(final(cp).heap@[handles.2 as int].props@).contains_key("tagName"@),
        entries_map(final(cp).heap@[handles.2 as int].props@).contains_key("getClientRects"@),
        entries_map(final(cp).heap@[handles.2 as int].props@).contains_key("getBoundingClientRect"@),
        entries_map(final(cp).heap@[handles.2 as int].props@).contains_key("setAttribute"@),
        entries_map(final(cp).heap@[handles.3 as int].props@).contains_key("width"@),
{
    proof {
        reveal_strlit("documentElement");
        reveal_strlit("getElementsByTagName");
        reveal_strlit("tagName");
        reveal_strlit("getClientRects");
        reveal_strlit("getBoundingClientRect");
        reveal_strlit("setAttribute");
        assert("documentElement"@.len() == 15);
        assert("getElementsByTagName"@.len() == 20);
        assert("tagName"@.len() == 7);
        assert("getClientRects"@.len() == 14);
        assert("getBoundingClientRect"@.len() == 21);
        assert("setAttribute"@.len() == 12);
        reveal_strlit("width");
        assert("width"@.len() == 5);
    }
    let _ = cp.intern(String::from_str("alert"));
    let slot = Property {
        value: ScriptValue::Null,
        getter: None,
        setter: None,
        flags: 0,
    };
    match cp.define_property(handles.0, String::from_str("alert"), slot) {
        Ok(()) => (),
        Err(_) => {
            proof {
                assert(false);
            }
            return vstd::pervasive::unreached();
        },
    }
    let _ = cp.intern(String::from_str("setTimeout"));
    let slot = Property {
        value: ScriptValue::Null,
        getter: None,
        setter: None,
        flags: 0,
    };
    match cp.define_property(handles.0, String::from_str("setTimeout"), slot) {
        Ok(()) => (),
        Err(_) => {
            proof {
                assert(false);
            }
            return vstd::pervasive::unreached();
        },
    }
    let _ = cp.intern(String::from_str("close"));
    let slot = Property {
        value: ScriptValue::Null,
        getter: None,
        setter: None,
        flags: 0,
    };
    match cp.define_property(handles.0, String::from_str("close"), slot) {
        Ok(()) => (),
        Err(_) => {
            proof {
                assert(false);
            }
            return vstd::pervasive::unreached();
        },
    }
    let _ = cp.intern(String::from_str("_trigger_gc"));
    let slot = Property {
        value: ScriptValue::Null,
        getter: None,
        setter: None,
        flags: 0,
    };
    match cp.define_property(handles.0, String::from_str("_trigger_gc"), slot) {
        Ok(()) => (),
        Err(_) => {
            proof {
                assert(false);
            }
            return vstd::pervasive::unreached();
        },
    }
    let _ = cp.intern(String::from_str("documentElement"));
    let slot = Property {
        value: ScriptValue::Null,
        getter: Some(String::from_str("invoke_get_document_element")),
        setter: None,
        flags: PROP_ENUMERATE | PROP_SHARED | PROP_NATIVE_ACCESSORS,
    };
    match cp.define_property(handles.1, String::from_str("documentElement"), slot) {
        Ok(()) => (),
        Err(_) => {
            proof {
                assert(false);
            }
            return vstd::pervasive::unreached();
        },
    }
    let _ = cp.intern(String::from_str("getElementsByTagName"));
    let slot = Property {
        value: ScriptValue::Null,
        getter: None,
        setter: None,
        flags: 0,
    };
    match cp.define_property(handles.1, String::from_str("getElementsByTagName"), slot) {
        Ok(()) => (),
        Err(_) => {
            proof {
                assert(false);
            }
            return vstd::pervasive::unreached();
        },
    }
    let _ = cp.intern(String::from_str("tagName"));
    let slot = Property {
        value: ScriptValue::Null,
        getter: Some(String::from_str("invoke_get_tag_name")),
        setter: None,
        flags: PROP_ENUMERATE | PROP_SHARED | PROP_NATIVE_ACCESSORS,
    };
    match cp.define_property(handles.2, String::from_str("tagName"), slot) {
        Ok(()) => (),
        Err(_) => {
            proof {
                assert(false);
            }
            return vstd::pervasive::unreached();
        },
    }
    let _ = cp.intern(String::from_str("getClientRects"));
    let slot = Property {
        value: ScriptValue::Null,
        getter: None,
        setter: None,
        flags: 0,
    };
    match cp.define_property(handles.2, String::from_str("getClientRects"), slot) {
        Ok(()) => (),
        Err(_) => {
            proof {
                assert(false);
            }
            return vstd::pervasive::unreached();
        },
    }
    let _ = cp.intern(String::from_str("getBoundingClientRect"));
    let slot = Property {
        value: ScriptValue::Null,
        getter: None,
        setter: None,
        flags: 0,
    };
    match cp.define_property(handles.2, String::from_str("getBoundingClientRect"), slot) {
        Ok(()) => (),
        Err(_) => {
            proof {
                assert(false);
            }
            return vstd::pervasive::unreached();
        },
    }
    let _ = cp.intern(String::from_str("setAttribute"));
    let slot = Property {
        value: ScriptValue::Null,
        getter: None,
        setter: None,
        flags: 0,
    };
    match cp.define_property(handles.2, String::from_str("setAttribute"), slot) {
        Ok(()) => (),
        Err(_) => {
            proof {
                assert(false);
            }
            return vstd::pervasive::unreached();
        },
    }
    let _ = cp.intern(String::from_str("width"));
    let slot = Property {
        value: ScriptValue::Null,
        getter: Some(String::from_str("invoke_image_get_width")),
        setter: Some(String::from_str("invoke_image_set_width")),
        flags: PROP_ENUMERATE | PROP_SHARED | PROP_NATIVE_ACCESSORS,
    };
    match cp.define_property(handles.3, String::from_str("width"), slot) {
        Ok(()) => (),
        Err(_) => {
            proof {
                assert(false);
            }
            return vstd::pervasive::unreached();
        },
    }
}

/// Registers the window, document, node and event instance classes.
#[verifier::rlimit(100)]
fn init_classes_core(cp: &mut Compartment)
    requires
        old(cp).wf(),
        old(cp).classes@.len() == 0,
    ensures
        final(cp).wf(),
        final(cp).classes@.len() == 8,
        final(cp).classes@[0].name@ == "WindowInstance"@,
        final(cp).classes@[0].kind == NativeKind::WindowKind,
        final(cp).classes@[1].name@ == "DocumentInstance"@,
        final(cp).classes@[1].kind == NativeKind::DocumentKind,
        final(cp).classes@[2].name@ == "GenericElementInstance"@,
        final(cp).classes@[2].kind == NativeKind::NodeKind,
        final(cp).classes@[3].name@ == "Text"@,
        final(cp).classes@[3].kind == NativeKind::NodeKind,
        final(cp).classes@[4].name@ == "Comment"@,
        final(cp).classes@[4].kind == NativeKind::NodeKind,
        final(cp).classes@[5].name@ == "DocumentType"@,
        final(cp).classes@[5].kind == NativeKind::NodeKind,
        final(cp).classes@[6].name@ == "Event"@,
        final(cp).classes@[6].kind == NativeKind::EventKind,
        final(cp).classes@[7].name@ == "UIEvent"@,
        final(cp).classes@[7].kind == NativeKind::UiEventKind,
        final(cp).protos@ == old(cp).protos@,
        final(cp).heap@ == old(cp).heap@,
        final(cp).names@ == old(cp).names@,
        final(cp).global_obj == old(cp).global_obj,
{
    proof {
        reveal_strlit("Comment");
        reveal_strlit("DocumentInstance");
        reveal_strlit("DocumentType");
        reveal_strlit("Event");
        reveal_strlit("GenericElementInstance");
        reveal_strlit("Text");
        reveal_strlit("UIEvent");
        reveal_strlit("WindowInstance");
        assert("Comment"@.len() == 7);
        assert("DocumentInstance"@.len() == 16);
        assert("DocumentType"@.len() == 12);
        assert("Event"@.len() == 5);
        assert("GenericElementInstance"@.len() == 22);
        assert("Text"@.len() == 4);
        assert("UIEvent"@.len() == 7);
        assert("WindowInstance"@.len() == 14);
        assert("Comment"@[0] == 'C');
        assert("UIEvent"@[0] == 'U');
    }
    proof {
    }
    match cp.register_class(String::from_str("WindowInstance"), NativeKind::WindowKind, 32) {
        Ok(_) => (),
        Err(_) => {
            proof {
                assert(false);
            }
            return vstd::pervasive::unreached();
        },
    }
    proof {
        assert(cp.classes@[0].name@ == "WindowInstance"@);
    }
    match cp.register_class(String::from_str("DocumentInstance"), NativeKind::DocumentKind, 32) {
        Ok(_) => (),
        Err(_) => {
            proof {
                assert(false);
            }
            return vstd::pervasive::unreached();
        },
    }
    proof {
        assert(cp.classes@[0].name@ == "WindowInstance"@);
        assert(cp.classes@[1].name@ == "DocumentInstance"@);
    }
    match cp.register_class(String::from_str("GenericElementInstance"), NativeKind::NodeKind, 96) {
        Ok(_) => (),
        Err(_) => {
            proof {
                assert(false);
            }
            return vstd::pervasive::unreached();
        },
    }
    proof {
        assert(cp.classes@[0].name@ == "WindowInstance"@);
        assert(cp.classes@[1].name@ == "DocumentInstance"@);
        assert(cp.classes@[2].name@ == "GenericElementInstance"@);
    }
    match cp.register_class(String::from_str("Text"), NativeKind::NodeKind, 96) {
        Ok(_) => (),
        Err(_) => {
            proof {
                assert(false);
            }
            return vstd::pervasive::unreached();
        },
    }
    proof {
        assert(cp.classes@[0].name@ == "WindowInstance"@);
        assert(cp.classes@[1].name@ == "DocumentInstance"@);
        assert(cp.classes@[2].name@ == "GenericElementInstance"@);
        assert(cp.classes@[3].name@ == "Text"@);
    }
    match cp.register_class(String::from_str("Comment"), NativeKind::NodeKind, 96) {
        Ok(_) => (),
        Err(_) => {
            proof {
                assert(false);
            }
            return vstd::pervasive::unreached();
        },
    }
    proof {
        assert(cp.classes@[0].name@ == "WindowInstance"@);
        assert(cp.classes@[1].name@ == "DocumentInstance"@);
        assert(cp.classes@[2].name@ == "GenericElementInstance"@);
        assert(cp.classes@[3].name@ == "Text"@);
        assert(cp.classes@[4].name@ == "Comment"@);
    }
    match cp.register_class(String::from_str("DocumentType"), NativeKind::NodeKind, 96) {
        Ok(_) => (),
        Err(_) => {
            proof {
                assert(false);
            }
            return vstd::pervasive::unreached();
        },
    }
    proof {
        assert(cp.classes@[0].name@ == "WindowInstance"@);
        assert(cp.classes@[1].name@ == "DocumentInstance"@);
        assert(cp.classes@[2].name@ == "GenericElementInstance"@);
        assert(cp.classes@[3].name@ == "Text"@);
        assert(cp.classes@[4].name@ == "Comment"@);
        assert(cp.classes@[5].name@ == "DocumentType"@);
    }
    match cp.register_class(String::from_str("Event"), NativeKind::EventKind, 40) {
        Ok(_) => (),
        Err(_) => {
            proof {
                assert(false);
            }
            return vstd::pervasive::unreached();
        },
    }
    proof {
        assert(cp.classes@[0].name@ == "WindowInstance"@);
        assert(cp.classes@[1].name@ == "DocumentInstance"@);
        assert(cp.classes@[2].name@ == "GenericElementInstance"@);
        assert(cp.classes@[3].name@ == "Text"@);
        assert(cp.classes@[4].name@ == "Comment"@);
        assert(cp.classes@[5].name@ == "DocumentType"@);
        assert(cp.classes@[6].name@ == "Event"@);
    }
    match cp.register_class(String::from_str("UIEvent"), NativeKind::UiEventKind, 64) {
        Ok(_) => (),
        Err(_) => {
            proof {
                assert(false);
            }
            return vstd::pervasive::unreached();
        },
    }
    proof {
        assert(cp.classes@[0].name@ == "WindowInstance"@);
        assert(cp.classes@[0].kind == NativeKind::WindowKind);
        assert(cp.classes@[1].name@ == "DocumentInstance"@);
        assert(cp.classes@[1].kind == NativeKind::DocumentKind);
        assert(cp.classes@[2].name@ == "GenericElementInstance"@);
        assert(cp.classes@[2].kind == NativeKind::NodeKind);
        assert(cp.classes@[3].name@ == "Text"@);
        assert(cp.classes@[3].kind == NativeKind::NodeKind);
        assert(cp.classes@[4].name@ == "Comment"@);
        assert(cp.classes@[4].kind == NativeKind::NodeKind);
        assert(cp.classes@[5].name@ == "DocumentType"@);
        assert(cp.classes@[5].kind == NativeKind::NodeKind);
        assert(cp.classes@[6].name@ == "Event"@);
        assert(cp.classes@[6].kind == NativeKind::EventKind);
        assert(cp.classes@[7].name@ == "UIEvent"@);
        assert(cp.classes@[7].kind == NativeKind::UiEventKind);
    }
}

/// Registers the remaining peripheral instance classes.
#[verifier::rlimit(100)]
fn init_classes_peripheral(cp: &mut Compartment)
    requires
        old(cp).wf(),
        old(cp).classes@.len() == 8,
        old(cp).classes@[0].kind == NativeKind::WindowKind,
        old(cp).classes@[1].kind == NativeKind::DocumentKind,
        old(cp).classes@[2].kind == NativeKind::NodeKind,
        old(cp).classes@[3].kind == NativeKind::NodeKind,
        old(cp).classes@[4].kind == NativeKind::NodeKind,
        old(cp).classes@[5].kind == NativeKind::NodeKind,
        old(cp).classes@[6].kind == NativeKind::EventKind,
        old(cp).classes@[7].kind == NativeKind::UiEventKind,
        old(cp).classes@[0].name@ == "WindowInstance"@,
        old(cp).classes@[1].name@ == "DocumentInstance"@,
        old(cp).classes@[2].name@ == "GenericElementInstance"@,
        old(cp).classes@[3].name@ == "Text"@,
        old(cp).classes@[4].name@ == "Comment"@,
        old(cp).classes@[5].name@ == "DocumentType"@,
        old(cp).classes@[6].name@ == "Event"@,
        old(cp).classes@[7].name@ == "UIEvent"@,
    ensures
        final(cp).wf(),
        final(cp).classes@.len() == 16,
        final(cp).classes@[0].name@ == "WindowInstance"@,
        final(cp).classes@[0].kind == NativeKind::WindowKind,
        final(cp).classes@[1].name@ == "DocumentInstance"@,
        final(cp).classes@[1].kind == NativeKind::DocumentKind,
        final(cp).classes@[2].name@ == "GenericElementInstance"@,
        final(cp).classes@[2].kind == NativeKind::NodeKind,
        final(cp).classes@[3].name@ == "Text"@,
        final(cp).classes@[3].kind == NativeKind::NodeKind,
        final(cp).classes@[4].name@ == "Comment"@,
        final(cp).classes@[4].kind == NativeKind::NodeKind,
        final(cp).classes@[5].name@ == "DocumentType"@,
        final(cp).classes@[5].kind == NativeKind::NodeKind,
        final(cp).classes@[6].name@ == "Event"@,
        final(cp).classes@[6].kind == NativeKind::EventKind,
        final(cp).classes@[7].name@ == "UIEvent"@,
        final(cp).classes@[7].kind == NativeKind::UiEventKind,
        final(cp).classes@[8].name@ == "MouseEvent"@,
        final(cp).classes@[8].kind == NativeKind::MouseEventKind,
        final(cp).classes@[9].name@ == "ClientRect"@,
        final(cp).classes@[9].kind == NativeKind::RectKind,
        final(cp).classes@[10].name@ == "ClientRectList"@,
        final(cp).classes@[10].kind == NativeKind::RectListKind,
        final(cp).classes@[11].name@ == "Blob"@,
        final(cp).classes@[11].kind == NativeKind::BlobKind,
        final(cp).classes@[12].name@ == "FormData"@,
        final(cp).classes@[12].kind == NativeKind::FormDataKind,
        final(cp).classes@[13].name@ == "WindowProxy"@,
        final(cp).classes@[13].kind == NativeKind::WindowProxyKind,
        final(cp).classes@[14].name@ == "DOMParser"@,
        final(cp).classes@[14].kind == NativeKind::ParserKind,
        final(cp).classes@[15].name@ == "HTMLCollection"@,
        final(cp).classes@[15].kind == NativeKind::CollectionKind,
        final(cp).protos@ == old(cp).protos@,
        final(cp).heap@ == old(cp).heap@,
        final(cp).names@ == old(cp).names@,
        final(cp).global_obj == old(cp).global_obj,
{
    proof {
        reveal_strlit("Blob");
        reveal_strlit("ClientRect");
        reveal_strlit("ClientRectList");
        reveal_strlit("Comment");
        reveal_strlit("DOMParser");
        reveal_strlit("DocumentInstance");
        reveal_strlit("DocumentType");
        reveal_strlit("Event");
        reveal_strlit("FormData");
        reveal_strlit("GenericElementInstance");
        reveal_strlit("HTMLCollection");
        reveal_strlit("MouseEvent");
        reveal_strlit("Text");
        reveal_strlit("UIEvent");
        reveal_strlit("WindowInstance");
        reveal_strlit("WindowProxy");
        assert("Blob"@.len() == 4);
        assert("ClientRect"@.len() == 10);
        assert("ClientRectList"@.len() == 14);
        assert("Comment"@.len() == 7);
        assert("DOMParser"@.len() == 9);
        assert("DocumentInstance"@.len() == 16);
        assert("DocumentType"@.len() == 12);
        assert("Event"@.len() == 5);
        assert("FormData"@.len() == 8);
        assert("GenericElementInstance"@.len() == 22);
        assert("HTMLCollection"@.len() == 14);
        assert("MouseEvent"@.len() == 10);
        assert("Text"@.len() == 4);
        assert("UIEvent"@.len() == 7);
        assert("WindowInstance"@.len() == 14);
        assert("WindowProxy"@.len() == 11);
        assert("Blob"@[0] == 'B');
        assert("ClientRect"@[0] == 'C');
        assert("ClientRectList"@[0] == 'C');
        assert("HTMLCollection"@[0] == 'H');
        assert("MouseEvent"@[0] == 'M');
        assert("Text"@[0] == 'T');
        assert("WindowInstance"@[0] == 'W');
    }
    proof {
        assert(cp.classes@[0].name@ == "WindowInstance"@);
        assert(cp.classes@[1].name@ == "DocumentInstance"@);
        assert(cp.classes@[2].name@ == "GenericElementInstance"@);
        assert(cp.classes@[3].name@ == "Text"@);
        assert(cp.classes@[4].name@ == "Comment"@);
        assert(cp.classes@[5].name@ == "DocumentType"@);
        assert(cp.classes@[6].name@ == "Event"@);
        assert(cp.classes@[7].name@ == "UIEvent"@);
    }
    match cp.register_class(String::from_str("MouseEvent"), NativeKind::MouseEventKind, 96) {
        Ok(_) => (),
        Err(_) => {
            proof {
                assert(false);
            }
            return vstd::pervasive::unreached();
        },
    }
    proof {
        assert(cp.classes@[0].name@ == "WindowInstance"@);
        assert(cp.classes@[1].name@ == "DocumentInstance"@);
        assert(cp.classes@[2].name@ == "GenericElementInstance"@);
        assert(cp.classes@[3].name@ == "Text"@);
        assert(cp.classes@[4].name@ == "Comment"@);
        assert(cp.classes@[5].name@ == "DocumentType"@);
        assert(cp.classes@[6].name@ == "Event"@);
        assert(cp.classes@[7].name@ == "UIEvent"@);
        assert(cp.classes@[8].name@ == "MouseEvent"@);
    }
    match cp.register_class(String::from_str("ClientRect"), NativeKind::RectKind, 24) {
        Ok(_) => (),
        Err(_) => {
            proof {
                assert(false);
            }
            return vstd::pervasive::unreached();
        },
    }
    proof {
        assert(cp.classes@[0].name@ == "WindowInstance"@);
        assert(cp.classes@[1].name@ == "DocumentInstance"@);
        assert(cp.classes@[2].name@ == "GenericElementInstance"@);
        assert(cp.classes@[3].name@ == "Text"@);
        assert(cp.classes@[4].name@ == "Comment"@);
        assert(cp.classes@[5].name@ == "DocumentType"@);
        assert(cp.classes@[6].name@ == "Event"@);
        assert(cp.classes@[7].name@ == "UIEvent"@);
        assert(cp.classes@[8].name@ == "MouseEvent"@);
        assert(cp.classes@[9].name@ == "ClientRect"@);
    }
    match cp.register_class(String::from_str("ClientRectList"), NativeKind::RectListKind, 32) {
        Ok(_) => (),
        Err(_) => {
            proof {
                assert(false);
            }
            return vstd::pervasive::unreached();
        },
    }
    proof {
        assert(cp.classes@[0].name@ == "WindowInstance"@);
        assert(cp.classes@[1].name@ == "DocumentInstance"@);
        assert(cp.classes@[2].name@ == "GenericElementInstance"@);
        assert(cp.classes@[3].name@ == "Text"@);
        assert(cp.classes@[4].name@ == "Comment"@);
        assert(cp.classes@[5].name@ == "DocumentType"@);
        assert(cp.classes@[6].name@ == "Event"@);
        assert(cp.classes@[7].name@ == "UIEvent"@);
        assert(cp.classes@[8].name@ == "MouseEvent"@);
        assert(cp.classes@[9].name@ == "ClientRect"@);
        assert(cp.classes@[10].name@ == "ClientRectList"@);
    }
    match cp.register_class(String::from_str("Blob"), NativeKind::BlobKind, 8) {
        Ok(_) => (),
        Err(_) => {
            proof {
                assert(false);
            }
            return vstd::pervasive::unreached();
        },
    }
    proof {
        assert(cp.classes@[0].name@ == "WindowInstance"@);
        assert(cp.classes@[1].name@ == "DocumentInstance"@);
        assert(cp.classes@[2].name@ == "GenericElementInstance"@);
        assert(cp.classes@[3].name@ == "Text"@);
        assert(cp.classes@[4].name@ == "Comment"@);
        assert(cp.classes@[5].name@ == "DocumentType"@);
        assert(cp.classes@[6].name@ == "Event"@);
        assert(cp.classes@[7].name@ == "UIEvent"@);
        assert(cp.classes@[8].name@ == "MouseEvent"@);
        assert(cp.classes@[9].name@ == "ClientRect"@);
        assert(cp.classes@[10].name@ == "ClientRectList"@);
        assert(cp.classes@[11].name@ == "Blob"@);
    }
    match cp.register_class(String::from_str("FormData"), NativeKind::FormDataKind, 32) {
        Ok(_) => (),
        Err(_) => {
            proof {
                assert(false);
            }
            return vstd::pervasive::unreached();
        },
    }
    proof {
        assert(cp.classes@[0].name@ == "WindowInstance"@);
        assert(cp.classes@[1].name@ == "DocumentInstance"@);
        assert(cp.classes@[2].name@ == "GenericElementInstance"@);
        assert(cp.classes@[3].name@ == "Text"@);
        assert(cp.classes@[4].name@ == "Comment"@);
        assert(cp.classes@[5].name@ == "DocumentType"@);
        assert(cp.classes@[6].name@ == "Event"@);
        assert(cp.classes@[7].name@ == "UIEvent"@);
        assert(cp.classes@[8].name@ == "MouseEvent"@);
        assert(cp.classes@[9].name@ == "ClientRect"@);
        assert(cp.classes@[10].name@ == "ClientRectList"@);
        assert(cp.classes@[11].name@ == "Blob"@);
        assert(cp.classes@[12].name@ == "FormData"@);
    }
    match cp.register_class(String::from_str("WindowProxy"), NativeKind::WindowProxyKind, 8) {
        Ok(_) => (),
        Err(_) => {
            proof {
                assert(false);
            }
            return vstd::pervasive::unreached();
        },
    }
    proof {
        assert(cp.classes@[0].name@ == "WindowInstance"@);
        assert(cp.classes@[1].name@ == "DocumentInstance"@);
        assert(cp.classes@[2].name@ == "GenericElementInstance"@);
        assert(cp.classes@[3].name@ == "Text"@);
        assert(cp.classes@[4].name@ == "Comment"@);
        assert(cp.classes@[5].name@ == "DocumentType"@);
        assert(cp.classes@[6].name@ == "Event"@);
        assert(cp.classes@[7].name@ == "UIEvent"@);
        assert(cp.classes@[8].name@ == "MouseEvent"@);
        assert(cp.classes@[9].name@ == "ClientRect"@);
        assert(cp.classes@[10].name@ == "ClientRectList"@);
        assert(cp.classes@[11].name@ == "Blob"@);
        assert(cp.classes@[12].name@ == "FormData"@);
        assert(cp.classes@[13].name@ == "WindowProxy"@);
    }
    match cp.register_class(String::from_str("DOMParser"), NativeKind::ParserKind, 16) {
        Ok(_) => (),
        Err(_) => {
            proof {
                assert(false);
            }
            return vstd::pervasive::unreached();
        },
    }
    proof {
        assert(cp.classes@[0].name@ == "WindowInstance"@);
        assert(cp.classes@[1].name@ == "DocumentInstance"@);
        assert(cp.classes@[2].name@ == "GenericElementInstance"@);
        assert(cp.classes@[3].name@ == "Text"@);
        assert(cp.classes@[4].name@ == "Comment"@);
        assert(cp.classes@[5].name@ == "DocumentType"@);
        assert(cp.classes@[6].name@ == "Event"@);
        assert(cp.classes@[7].name@ == "UIEvent"@);
        assert(cp.classes@[8].name@ == "MouseEvent"@);
        assert(cp.classes@[9].name@ == "ClientRect"@);
        assert(cp.classes@[10].name@ == "ClientRectList"@);
        assert(cp.classes@[11].name@ == "Blob"@);
        assert(cp.classes@[12].name@ == "FormData"@);
        assert(cp.classes@[13].name@ == "WindowProxy"@);
        assert(cp.classes@[14].name@ == "DOMParser"@);
    }
    match cp.register_class(String::from_str("HTMLCollection"), NativeKind::CollectionKind, 32) {
        Ok(_) => (),
        Err(_) => {
            proof {
                assert(false);
            }
            return vstd::pervasive::unreached();
        },
    }
    proof {
        assert(cp.classes@[0].name@ == "WindowInstance"@);
        assert(cp.classes@[0].kind == NativeKind::WindowKind);
        assert(cp.classes@[1].name@ == "DocumentInstance"@);
        assert(cp.classes@[1].kind == NativeKind::DocumentKind);
        assert(cp.classes@[2].name@ == "GenericElementInstance"@);
        assert(cp.classes@[2].kind == NativeKind::NodeKind);
        assert(cp.classes@[3].name@ == "Text"@);
        assert(cp.classes@[3].kind == NativeKind::NodeKind);
        assert(cp.classes@[4].name@ == "Comment"@);
        assert(cp.classes@[4].kind == NativeKind::NodeKind);
        assert(cp.classes@[5].name@ == "DocumentType"@);
        assert(cp.classes@[5].kind == NativeKind::NodeKind);
        assert(cp.classes@[6].name@ == "Event"@);
        assert(cp.classes@[6].kind == NativeKind::EventKind);
        assert(cp.classes@[7].name@ == "UIEvent"@);
        assert(cp.classes@[7].kind == NativeKind::UiEventKind);
        assert(cp.classes@[8].name@ == "MouseEvent"@);
        assert(cp.classes@[8].kind == NativeKind::MouseEventKind);
        assert(cp.classes@[9].name@ == "ClientRect"@);
        assert(cp.classes@[9].kind == NativeKind::RectKind);
        assert(cp.classes@[10].name@ == "ClientRectList"@);
        assert(cp.classes@[10].kind == NativeKind::RectListKind);
        assert(cp.classes@[11].name@ == "Blob"@);
        assert(cp.classes@[11].kind == NativeKind::BlobKind);
        assert(cp.classes@[12].name@ == "FormData"@);
        assert(cp.classes@[12].kind == NativeKind::FormDataKind);
        assert(cp.classes@[13].name@ == "WindowProxy"@);
        assert(cp.classes@[13].kind == NativeKind::WindowProxyKind);
        assert(cp.classes@[14].name@ == "DOMParser"@);
        assert(cp.classes@[14].kind == NativeKind::ParserKind);
        assert(cp.classes@[15].name@ == "HTMLCollection"@);
        assert(cp.classes@[15].kind == NativeKind::CollectionKind);
    }
}

/// Builds a fully configured realm over a fresh heap holding only the
/// global object: the complete interface prototype chain with its parent
/// links, every instance class with its kind and inline size, and the
/// interface members.  A fresh realm registers every name once, so this
/// cannot fail.
#[verifier::rlimit(100)]
pub fn init_dom() -> (cp: Compartment)
    ensures
        cp.wf(),
        ready_for(cp, NativeKind::WindowKind),
        ready_for(cp, NativeKind::DocumentKind),
        ready_for(cp, NativeKind::NodeKind),
        ready_for(cp, NativeKind::EventKind),
        ready_for(cp, NativeKind::UiEventKind),
        ready_for(cp, NativeKind::MouseEventKind),
        ready_for(cp, NativeKind::RectKind),
        ready_for(cp, NativeKind::RectListKind),
        ready_for(cp, NativeKind::BlobKind),
        ready_for(cp, NativeKind::FormDataKind),
        ready_for(cp, NativeKind::WindowProxyKind),
        ready_for(cp, NativeKind::ParserKind),
        ready_for(cp, NativeKind::CollectionKind),
        forall|k: ElementKind| #[trigger] element_ready(cp, k),
        forall|p: NodePayload| !(p is Element) ==> #[trigger] text_ready(cp, p),
        proto_linked(cp, "Element"@, "Node"@),
        proto_linked(cp, "HTMLElement"@, "Element"@),
        proto_linked(cp, "HTMLDivElement"@, "HTMLElement"@),
        proto_linked(cp, "HTMLScriptElement"@, "HTMLElement"@),
        proto_linked(cp, "HTMLHeadElement"@, "HTMLElement"@),
        proto_linked(cp, "HTMLImageElement"@, "HTMLElement"@),
        proto_linked(cp, "CharacterData"@, "Node"@),
        proto_linked(cp, "TextPrototype"@, "CharacterData"@),
        proto_linked(cp, "CommentPrototype"@, "CharacterData"@),
        proto_linked(cp, "DocumentTypePrototype"@, "Node"@),
        proto_linked(cp, "UIEventPrototype"@, "EventPrototype"@),
        proto_linked(cp, "MouseEventPrototype"@, "UIEventPrototype"@),
        member_installed(cp, "Window"@, "alert"@),
        member_installed(cp, "Window"@, "setTimeout"@),
        member_installed(cp, "Window"@, "close"@),
        member_installed(cp, "Window"@, "_trigger_gc"@),
        member_installed(cp, "Document"@, "documentElement"@),
        member_installed(cp, "Document"@, "getElementsByTagName"@),
        member_installed(cp, "Element"@, "tagName"@),
        member_installed(cp, "Element"@, "getClientRects"@),
        member_installed(cp, "Element"@, "getBoundingClientRect"@),
        member_installed(cp, "Element"@, "setAttribute"@),
        member_installed(cp, "HTMLImageElement"@, "width"@),
        ({
            let p = entries_map(
                cp.heap@[cp.proto_obj_by_name("Document"@) as int].props@,
            )["documentElement"@];
            &&& (p.getter matches Some(g) && g@ == "invoke_get_document_element"@)
            &&& p.setter is None
            &&& p.flags == PROP_ENUMERATE | PROP_SHARED | PROP_NATIVE_ACCESSORS
        }),
        ({
            let p = entries_map(cp.heap@[cp.proto_obj_by_name("Element"@) as int].props@)["tagName"@];
            &&& (p.getter matches Some(g) && g@ == "invoke_get_tag_name"@)
            &&& p.setter is None
            &&& p.flags == PROP_ENUMERATE | PROP_SHARED | PROP_NATIVE_ACCESSORS
        }),
        ({
            let p = entries_map(
                cp.heap@[cp.proto_obj_by_name("HTMLImageElement"@) as int].props@,
            )["width"@];
            &&& (p.getter matches Some(g) && g@ == "invoke_image_get_width"@)
            &&& (p.setter matches Some(s) && s@ == "invoke_image_set_width"@)
            &&& p.flags == PROP_ENUMERATE | PROP_SHARED | PROP_NATIVE_ACCESSORS
        }),
{
    let mut cp: Compartment = Compartment::new();
    let core_handles: (usize, usize, usize) = init_protos_core(&mut cp);
    let p_image: usize = init_protos_elements(&mut cp);
    init_protos_text(&mut cp);
    init_protos_events(&mut cp);
    init_protos_peripheral(&mut cp);
    let handles: (usize, usize, usize, usize) = (
        core_handles.0,
        core_handles.1,
        core_handles.2,
        p_image,
    );
    init_members(&mut cp, handles);
    init_classes_core(&mut cp);
    init_classes_peripheral(&mut cp);
    proof {
        assert(cp.protos@[0].name@ == "Window"@);
        assert(cp.has_proto_name("Window"@));
        lemma_unique_choose(cp.protos@, 0, "Window"@);
        assert(cp.protos@[1].name@ == "Document"@);
        assert(cp.has_proto_name("Document"@));
        lemma_unique_choose(cp.protos@, 1, "Document"@);
        assert(cp.protos@[2].name@ == "Node"@);
        assert(cp.has_proto_name("Node"@));
        lemma_unique_choose(cp.protos@, 2, "Node"@);
        assert(cp.protos@[3].name@ == "Element"@);
        assert(cp.has_proto_name("Element"@));
        lemma_unique_choose(cp.protos@, 3, "Element"@);
        assert(cp.protos@[4].name@ == "HTMLElement"@);
        assert(cp.has_proto_name("HTMLElement"@));
        lemma_unique_choose(cp.protos@, 4, "HTMLElement"@);
        assert(cp.protos@[5].name@ == "HTMLDivElement"@);
        assert(cp.has_proto_name("HTMLDivElement"@));
        lemma_unique_choose(cp.protos@, 5, "HTMLDivElement"@);
        assert(cp.protos@[6].name@ == "HTMLScriptElement"@);
        assert(cp.has_proto_name("HTMLScriptElement"@));
        lemma_unique_choose(cp.protos@, 6, "HTMLScriptElement"@);
        assert(cp.protos@[7].name@ == "HTMLHeadElement"@);
        assert(cp.has_proto_name("HTMLHeadElement"@));
        lemma_unique_choose(cp.protos@, 7, "HTMLHeadElement"@);
        assert(cp.protos@[8].name@ == "HTMLImageElement"@);
        assert(cp.has_proto_name("HTMLImageElement"@));
        lemma_unique_choose(cp.protos@, 8, "HTMLImageElement"@);
        assert(cp.protos@[9].name@ == "CharacterData"@);
        assert(cp.has_proto_name("CharacterData"@));
        lemma_unique_choose(cp.protos@, 9, "CharacterData"@);
        assert(cp.protos@[10].name@ == "TextPrototype"@);
        assert(cp.has_proto_name("TextPrototype"@));
        lemma_unique_choose(cp.protos@, 10, "TextPrototype"@);
        assert(cp.protos@[11].name@ == "CommentPrototype"@);
        assert(cp.has_proto_name("CommentPrototype"@));
        lemma_unique_choose(cp.protos@, 11, "CommentPrototype"@);
        assert(cp.protos@[12].name@ == "DocumentTypePrototype"@);
        assert(cp.has_proto_name("DocumentTypePrototype"@));
        lemma_unique_choose(cp.protos@, 12, "DocumentTypePrototype"@);
        assert(cp.protos@[13].name@ == "EventPrototype"@);
        assert(cp.has_proto_name("EventPrototype"@));
        lemma_unique_choose(cp.protos@, 13, "EventPrototype"@);
        assert(cp.protos@[14].name@ == "UIEventPrototype"@);
        assert(cp.has_proto_name("UIEventPrototype"@));
        lemma_unique_choose(cp.protos@, 14, "UIEventPrototype"@);
        assert(cp.protos@[15].name@ == "MouseEventPrototype"@);
        assert(cp.has_proto_name("MouseEventPrototype"@));
        lemma_unique_choose(cp.protos@, 15, "MouseEventPrototype"@);
        assert(cp.protos@[16].name@ == "ClientRectPrototype"@);
        assert(cp.has_proto_name("ClientRectPrototype"@));
        lemma_unique_choose(cp.protos@, 16, "ClientRectPrototype"@);
        assert(cp.protos@[17].name@ == "ClientRectListPrototype"@);
        assert(cp.has_proto_name("ClientRectListPrototype"@));
        lemma_unique_choose(cp.protos@, 17, "ClientRectListPrototype"@);
        assert(cp.protos@[18].name@ == "BlobPrototype"@);
        assert(cp.has_proto_name("BlobPrototype"@));
        lemma_unique_choose(cp.protos@, 18, "BlobPrototype"@);
        assert(cp.protos@[19].name@ == "FormDataPrototype"@);
        assert(cp.has_proto_name("FormDataPrototype"@));
        lemma_unique_choose(cp.protos@, 19, "FormDataPrototype"@);
        assert(cp.protos@[20].name@ == "WindowProxyPrototype"@);
        assert(cp.has_proto_name("WindowProxyPrototype"@));
        lemma_unique_choose(cp.protos@, 20, "WindowProxyPrototype"@);
        assert(cp.protos@[21].name@ == "DOMParserPrototype"@);
        assert(cp.has_proto_name("DOMParserPrototype"@));
        lemma_unique_choose(cp.protos@, 21, "DOMParserPrototype"@);
        assert(cp.protos@[22].name@ == "HTMLCollectionPrototype"@);
        assert(cp.has_proto_name("HTMLCollectionPrototype"@));
        lemma_unique_choose(cp.protos@, 22, "HTMLCollectionPrototype"@);
        assert(cp.classes@[0].name@ == "WindowInstance"@);
        assert(cp.has_class_name("WindowInstance"@));
        lemma_unique_class_choose(cp.classes@, 0, "WindowInstance"@);
        assert(cp.classes@[1].name@ == "DocumentInstance"@);
        assert(cp.has_class_name("DocumentInstance"@));
        lemma_unique_class_choose(cp.classes@, 1, "DocumentInstance"@);
        assert(cp.classes@[2].name@ == "GenericElementInstance"@);
        assert(cp.has_class_name("GenericElementInstance"@));
        lemma_unique_class_choose(cp.classes@, 2, "GenericElementInstance"@);
        assert(cp.classes@[3].name@ == "Text"@);
        assert(cp.has_class_name("Text"@));
        lemma_unique_class_choose(cp.classes@, 3, "Text"@);
        assert(cp.classes@[4].name@ == "Comment"@);
        assert(cp.has_class_name("Comment"@));
        lemma_unique_class_choose(cp.classes@, 4, "Comment"@);
        assert(cp.classes@[5].name@ == "DocumentType"@);
        assert(cp.has_class_name("DocumentType"@));
        lemma_unique_class_choose(cp.classes@, 5, "DocumentType"@);
        assert(cp.classes@[6].name@ == "Event"@);
        assert(cp.has_class_name("Event"@));
        lemma_unique_class_choose(cp.classes@, 6, "Event"@);
        assert(cp.classes@[7].name@ == "UIEvent"@);
        assert(cp.has_class_name("UIEvent"@));
        lemma_unique_class_choose(cp.classes@, 7, "UIEvent"@);
        assert(cp.classes@[8].name@ == "MouseEvent"@);
        assert(cp.has_class_name("MouseEvent"@));
        lemma_unique_class_choose(cp.classes@, 8, "MouseEvent"@);
        assert(cp.classes@[9].name@ == "ClientRect"@);
        assert(cp.has_class_name("ClientRect"@));
        lemma_unique_class_choose(cp.classes@, 9, "ClientRect"@);
        assert(cp.classes@[10].name@ == "ClientRectList"@);
        assert(cp.has_class_name("ClientRectList"@));
        lemma_unique_class_choose(cp.classes@, 10, "ClientRectList"@);
        assert(cp.classes@[11].name@ == "Blob"@);
        assert(cp.has_class_name("Blob"@));
        lemma_unique_class_choose(cp.classes@, 11, "Blob"@);
        assert(cp.classes@[12].name@ == "FormData"@);
        assert(cp.has_class_name("FormData"@));
        lemma_unique_class_choose(cp.classes@, 12, "FormData"@);
        assert(cp.classes@[13].name@ == "WindowProxy"@);
        assert(cp.has_class_name("WindowProxy"@));
        lemma_unique_class_choose(cp.classes@, 13, "WindowProxy"@);
        assert(cp.classes@[14].name@ == "DOMParser"@);
        assert(cp.has_class_name("DOMParser"@));
        lemma_unique_class_choose(cp.classes@, 14, "DOMParser"@);
        assert(cp.classes@[15].name@ == "HTMLCollection"@);
        assert(cp.has_class_name("HTMLCollection"@));
        lemma_unique_class_choose(cp.classes@, 15, "HTMLCollection"@);
        assert(ready_for(cp, NativeKind::WindowKind));
        assert(ready_for(cp, NativeKind::DocumentKind));
        assert(ready_for(cp, NativeKind::NodeKind));
        assert(ready_for(cp, NativeKind::EventKind));
        assert(ready_for(cp, NativeKind::UiEventKind));
        assert(ready_for(cp, NativeKind::MouseEventKind));
        assert(ready_for(cp, NativeKind::RectKind));
        assert(ready_for(cp, NativeKind::RectListKind));
        assert(ready_for(cp, NativeKind::BlobKind));
        assert(ready_for(cp, NativeKind::FormDataKind));
        assert(ready_for(cp, NativeKind::WindowProxyKind));
        assert(ready_for(cp, NativeKind::ParserKind));
        assert(ready_for(cp, NativeKind::CollectionKind));
        assert(cp.heap@[cp.protos@[3].obj as int].proto == Some(cp.protos@[2].obj));
        assert(proto_linked(cp, "Element"@, "Node"@));
        assert(cp.heap@[cp.protos@[4].obj as int].proto == Some(cp.protos@[3].obj));
        assert(proto_linked(cp, "HTMLElement"@, "Element"@));
        assert(cp.heap@[cp.protos@[5].obj as int].proto == Some(cp.protos@[4].obj));
        assert(proto_linked(cp, "HTMLDivElement"@, "HTMLElement"@));
        assert(cp.heap@[cp.protos@[6].obj as int].proto == Some(cp.protos@[4].obj));
        assert(proto_linked(cp, "HTMLScriptElement"@, "HTMLElement"@));
        assert(cp.heap@[cp.protos@[7].obj as int].proto == Some(cp.protos@[4].obj));
        assert(proto_linked(cp, "HTMLHeadElement"@, "HTMLElement"@));
        assert(cp.heap@[cp.protos@[8].obj as int].proto == Some(cp.protos@[4].obj));
        assert(proto_linked(cp, "HTMLImageElement"@, "HTMLElement"@));
        assert(cp.heap@[cp.protos@[9].obj as int].proto == Some(cp.protos@[2].obj));
        assert(proto_linked(cp, "CharacterData"@, "Node"@));
        assert(cp.heap@[cp.protos@[10].obj as int].proto == Some(cp.protos@[9].obj));
        assert(proto_linked(cp, "TextPrototype"@, "CharacterData"@));
        assert(cp.heap@[cp.protos@[11].obj as int].proto == Some(cp.protos@[9].obj));
        assert(proto_linked(cp, "CommentPrototype"@, "CharacterData"@));
        assert(cp.heap@[cp.protos@[12].obj as int].proto == Some(cp.protos@[2].obj));
        assert(proto_linked(cp, "DocumentTypePrototype"@, "Node"@));
        assert(cp.heap@[cp.protos@[14].obj as int].proto == Some(cp.protos@[13].obj));
        assert(proto_linked(cp, "UIEventPrototype"@, "EventPrototype"@));
        assert(cp.heap@[cp.protos@[15].obj as int].proto == Some(cp.protos@[14].obj));
        assert(proto_linked(cp, "MouseEventPrototype"@, "UIEventPrototype"@));
        assert(handles.0 == cp.protos@[0].obj);
        assert(member_installed(cp, "Window"@, "alert"@));
        assert(member_installed(cp, "Window"@, "setTimeout"@));
        assert(member_installed(cp, "Window"@, "close"@));
        assert(member_installed(cp, "Window"@, "_trigger_gc"@));
        assert(handles.1 == cp.protos@[1].obj);
        assert(member_installed(cp, "Document"@, "documentElement"@));
        assert(member_installed(cp, "Document"@, "getElementsByTagName"@));
        assert(handles.2 == cp.protos@[3].obj);
        assert(member_installed(cp, "Element"@, "tagName"@));
        assert(member_installed(cp, "Element"@, "getClientRects"@));
        assert(member_installed(cp, "Element"@, "getBoundingClientRect"@));
        assert(member_installed(cp, "Element"@, "setAttribute"@));
        assert(handles.3 == cp.protos@[8].obj);
        assert(member_installed(cp, "HTMLImageElement"@, "width"@));
        assert(forall|k: ElementKind| #[trigger] element_ready(cp, k)) by {
            assert(element_ready(cp, ElementKind::Html));
            assert(element_ready(cp, ElementKind::Div));
            assert(element_ready(cp, ElementKind::Head));
            assert(element_ready(cp, ElementKind::Image));
            assert(element_ready(cp, ElementKind::Script));
            assert(element_ready(cp, ElementKind::Unknown));
        }
        assert(forall|p: NodePayload| !(p is Element) ==> #[trigger] text_ready(cp, p)) by {
            assert(forall|p: NodePayload| p is Text ==> #[trigger] text_ready(cp, p));
            assert(forall|p: NodePayload| p is Comment ==> #[trigger] text_ready(cp, p));
            assert(forall|p: NodePayload| p is Doctype ==> #[trigger] text_ready(cp, p));
        }
    }
    cp
}

} // verus!
