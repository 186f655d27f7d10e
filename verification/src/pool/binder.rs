use crate::handle::Handle;
use rg3d_core::BiDirHashMap;
use vstd::prelude::*;

verus! {

/// `rg3d_core::BiDirHashMap`, a hash map from keys to values beside one from
/// values to keys.
#[verifier::external_type_specification]
#[verifier::external_body]
#[verifier::reject_recursive_types(K)]
#[verifier::reject_recursive_types(V)]
pub struct ExBiDirHashMap<K, V>(BiDirHashMap<K, V>);

/// The map that binds scene nodes to rigid bodies, both held by the two
/// numbers of their handles.
pub type Binder = BiDirHashMap<(u32, u32), (u32, u32)>;

/// The entries of the binder's forward map: from a node to its body.
pub uninterp spec fn binder_forward(binder: BiDirHashMap<(u32, u32), (u32, u32)>) -> Map<
    (u32, u32),
    (u32, u32),
>;

/// The entries of the binder's backward map: from a body to its node.
pub uninterp spec fn binder_backward(binder: BiDirHashMap<(u32, u32), (u32, u32)>) -> Map<
    (u32, u32),
    (u32, u32),
>;

/// A map between handles without entries.
pub open spec fn empty_binding() -> Map<(u32, u32), (u32, u32)> {
    Map::empty()
}

/// `BiDirHashMap::default`: both maps empty.
#[verifier::external_body]
pub(crate) fn new_binder() -> (binder: Binder)
    ensures
        binder_forward(binder) == empty_binding(),
        binder_backward(binder) == empty_binding(),
{
    BiDirHashMap::default()
}

/// `BiDirHashMap::insert`: the forward map gets the entry from node to body
/// and the backward map the entry from body to node, each in place of what it
/// held under that key; no other entry of either map changes. Returned is
/// the body that the node was bound to before, if any.
#[verifier::external_body]
pub(crate) fn binder_insert(binder: &mut Binder, node: Handle, body: Handle) -> (previous: Option<
    Handle,
>)
    ensures
        binder_forward(*final(binder)) == binder_forward(*old(binder)).insert(
            node.key(),
            body.key(),
        ),
        binder_backward(*final(binder)) == binder_backward(*old(binder)).insert(
            body.key(),
            node.key(),
        ),
        previous == if binder_forward(*old(binder)).contains_key(node.key()) {
            Some(Handle::from_key(binder_forward(*old(binder))[node.key()]))
        } else {
            None
        },
{
    let previous = binder.insert((node.index, node.generation), (body.index, body.generation));
    previous.map(|(index, generation)| Handle { index, generation })
}

/// `BiDirHashMap::remove_by_key`: where the forward map holds an entry for the
/// node, that entry leaves it, the backward map loses its entry for the body
/// found there, and the body is returned; else nothing changes and nothing
/// is returned.
#[verifier::external_body]
pub(crate) fn binder_remove_by_key(binder: &mut Binder, node: Handle) -> (body: Option<Handle>)
    ensures
        binder_forward(*final(binder)) == binder_forward(*old(binder)).remove(node.key()),
        binder_forward(*old(binder)).contains_key(node.key()) ==> {
            &&& body == Some(Handle::from_key(binder_forward(*old(binder))[node.key()]))
            &&& binder_backward(*final(binder)) == binder_backward(*old(binder)).remove(
                binder_forward(*old(binder))[node.key()],
            )
        },
        !binder_forward(*old(binder)).contains_key(node.key()) ==> {
            &&& body is None
            &&& binder_backward(*final(binder)) == binder_backward(*old(binder))
        },
{
    let body = binder.remove_by_key(&(node.index, node.generation));
    body.map(|(index, generation)| Handle { index, generation })
}

/// `BiDirHashMap::remove_by_value`: where the backward map holds an entry for
/// the body, that entry leaves it, the forward map loses its entry for the
/// node found there, and the node is returned; else nothing changes and
/// nothing is returned.
#[verifier::external_body]
pub(crate) fn binder_remove_by_value(binder: &mut Binder, body: Handle) -> (node: Option<Handle>)
    ensures
        binder_backward(*final(binder)) == binder_backward(*old(binder)).remove(body.key()),
        binder_backward(*old(binder)).contains_key(body.key()) ==> {
            &&& node == Some(Handle::from_key(binder_backward(*old(binder))[body.key()]))
            &&& binder_forward(*final(binder)) == binder_forward(*old(binder)).remove(
                binder_backward(*old(binder))[body.key()],
            )
        },
        !binder_backward(*old(binder)).contains_key(body.key()) ==> {
            &&& node is None
            &&& binder_forward(*final(binder)) == binder_forward(*old(binder))
        },
{
    let node = binder.remove_by_value(&(body.index, body.generation));
    node.map(|(index, generation)| Handle { index, generation })
}

} // verus!
