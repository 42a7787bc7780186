//! The JSON-like wire tree that envelopes are serialized into.
//!
//! The tree mirrors the structure of the wire format: strings, unsigned
//! integers, byte strings, arrays and objects with ordered string keys.
//! Rendering the tree as text (and in particular rendering a byte string,
//! which travels base64-encoded) is the business of the external codec that
//! carries values across the contract/host boundary; this model fixes the
//! structure, tags and field names.

use vstd::prelude::*;

verus! {

/// Mathematical model of a wire tree: the view of [`WireValue`].
#[verifier::ext_equal]
pub enum WireTree {
    Text(Seq<char>),
    Uint(u64),
    Bytes(Seq<u8>),
    Arr(Seq<WireTree>),
    Obj(Seq<(Seq<char>, WireTree)>),
}

/// A node of the wire tree, as built and inspected at run time.
#[derive(Debug, PartialEq)]
pub enum WireValue {
    /// A JSON string.
    Text(String),
    /// A JSON number restricted to the unsigned 64-bit range, the only
    /// numeric shape the wire format uses.
    Uint(u64),
    /// A byte string; the external text codec renders it (base64 for
    /// binary payloads).
    Bytes(Vec<u8>),
    /// A JSON array.
    Arr(Vec<WireValue>),
    /// A JSON object, keys in serialization order.
    Obj(Vec<(String, WireValue)>),
}

impl WireValue {
    /// The tree a node stands for.  The range guards keep the recursion
    /// within the elements that exist, which is what lets it terminate.
    pub open spec fn wire(self) -> WireTree
        decreases self,
    {
        match self {
            WireValue::Text(s) => WireTree::Text(s@),
            WireValue::Uint(n) => WireTree::Uint(n),
            WireValue::Bytes(b) => WireTree::Bytes(b@),
            WireValue::Arr(v) => WireTree::Arr(
                Seq::new(
                    v@.len(),
                    |i: int|
                        if 0 <= i < v@.len() {
                            v@[i].wire()
                        } else {
                            WireTree::Uint(0)
                        },
                ),
            ),
            WireValue::Obj(v) => WireTree::Obj(
                Seq::new(
                    v@.len(),
                    |i: int|
                        if 0 <= i < v@.len() {
                            (v@[i].0@, v@[i].1.wire())
                        } else {
                            (Seq::<char>::empty(), WireTree::Uint(0))
                        },
                ),
            ),
        }
    }
}

impl View for WireValue {
    type V = WireTree;

    open spec fn view(&self) -> WireTree {
        (*self).wire()
    }
}

/// The view of an object node, element by element.
pub proof fn lemma_wire_obj(v: Vec<(String, WireValue)>, w: WireValue)
    requires
        w == WireValue::Obj(v),
    ensures
        w.wire() is Obj,
        w.wire()->Obj_0.len() == v@.len(),
        forall|i: int|
            0 <= i < v@.len() ==> #[trigger] w.wire()->Obj_0[i] == (v@[i].0@, v@[i].1.wire()),
{
}

/// The view of an array node, element by element.
pub proof fn lemma_wire_arr(v: Vec<WireValue>, w: WireValue)
    requires
        w == WireValue::Arr(v),
    ensures
        w.wire() is Arr,
        w.wire()->Arr_0.len() == v@.len(),
        forall|i: int| 0 <= i < v@.len() ==> #[trigger] w.wire()->Arr_0[i] == v@[i].wire(),
{
}

} // verus!
