pub mod body;
pub mod collider;
pub mod joint;

use crate::handle::Handle;
use crate::physics::body::RigidBody;
use crate::physics::collider::Collider;
use crate::physics::joint::Joint;
use crate::pool::binder::{
    binder_backward, binder_forward, binder_remove_by_value, empty_binding, new_binder, Binder,
};
use crate::pool::bodies::{bodies, body_ref, new_body_pool};
use crate::pool::colliders::{collider_ref, colliders, new_collider_pool};
use crate::pool::joints::{joint_ref, joints, new_joint_pool};
use crate::pool::model::PoolView;
use rg3d_core::pool::Pool;
use vstd::prelude::*;

verus! {

/// The physics of a scene as the editor holds it: the bodies, the colliders
/// and the joints, each kind in a pool of its own, and the binder that says
/// which scene node moves with which body.
pub struct Physics {
    pub bodies: Pool<RigidBody>,
    pub colliders: Pool<Collider>,
    pub joints: Pool<Joint>,
    pub binder: Binder,
}

/// The two maps of the binder, keyed by handles.
#[verifier::ext_equal]
pub struct BinderView {
    /// From a node to the body bound to it.
    pub forward: Map<(u32, u32), (u32, u32)>,
    /// From a body to the node it is bound to.
    pub backward: Map<(u32, u32), (u32, u32)>,
}

impl BinderView {
    /// The body that a node is bound to, if any.
    pub open spec fn body_of(self, node: Handle) -> Option<Handle> {
        if self.forward.contains_key(node.key()) {
            Some(Handle::from_key(self.forward[node.key()]))
        } else {
            None
        }
    }

    /// The node that a body is bound to, if any.
    pub open spec fn node_of(self, body: Handle) -> Option<Handle> {
        if self.backward.contains_key(body.key()) {
            Some(Handle::from_key(self.backward[body.key()]))
        } else {
            None
        }
    }

    /// The binder after a node was bound to a body.
    pub open spec fn bind(self, node: Handle, body: Handle) -> Self {
        BinderView {
            forward: self.forward.insert(node.key(), body.key()),
            backward: self.backward.insert(body.key(), node.key()),
        }
    }

    /// The binder after the binding of a node was removed, together with the
    /// backward entry of the body it was bound to.
    pub open spec fn unbind_node(self, node: Handle) -> Self {
        if self.forward.contains_key(node.key()) {
            BinderView {
                forward: self.forward.remove(node.key()),
                backward: self.backward.remove(self.forward[node.key()]),
            }
        } else {
            self
        }
    }

    /// The binder after the binding of a body was removed, together with the
    /// forward entry of the node it was bound to.
    pub open spec fn unbind_body(self, body: Handle) -> Self {
        if self.backward.contains_key(body.key()) {
            BinderView {
                forward: self.forward.remove(self.backward[body.key()]),
                backward: self.backward.remove(body.key()),
            }
        } else {
            self
        }
    }

    /// The two maps say the same: a node leads to a body exactly when the
    /// body leads back to the node.
    pub open spec fn consistent(self) -> bool {
        &&& forall|node: (u32, u32)| #[trigger]
            self.forward.contains_key(node) ==> self.backward.contains_key(self.forward[node])
                && self.backward[self.forward[node]] == node
        &&& forall|body: (u32, u32)| #[trigger]
            self.backward.contains_key(body) ==> self.forward.contains_key(self.backward[body])
                && self.forward[self.backward[body]] == body
    }
}

impl Physics {
    /// The state of the body pool.
    pub open spec fn bodies_view(&self) -> PoolView<RigidBody> {
        bodies(self.bodies)
    }

    /// The state of the collider pool.
    pub open spec fn colliders_view(&self) -> PoolView<Collider> {
        colliders(self.colliders)
    }

    /// The state of the joint pool.
    pub open spec fn joints_view(&self) -> PoolView<Joint> {
        joints(self.joints)
    }

    /// The bindings between nodes and bodies.
    pub open spec fn binder_view(&self) -> BinderView {
        BinderView { forward: binder_forward(self.binder), backward: binder_backward(self.binder) }
    }

    /// The colliders attached to a body, in order.
    pub open spec fn colliders_of(&self, body: Handle) -> Seq<Handle> {
        self.bodies_view().get(body).colliders@
    }

    /// The bodies are those of `before`, but that the body named now has the
    /// colliders given attached.
    pub open spec fn bodies_with_colliders(
        &self,
        before: &Physics,
        body: Handle,
        colliders: Seq<Handle>,
    ) -> bool {
        &&& self.bodies_view() == before.bodies_view().set(body, self.bodies_view().get(body))
        &&& self.bodies_view().get(body).same_but_colliders(before.bodies_view().get(body))
        &&& self.colliders_of(body) == colliders
    }

    /// The three pools are well formed.
    pub open spec fn wf(&self) -> bool {
        &&& self.bodies_view().wf()
        &&& self.colliders_view().wf()
        &&& self.joints_view().wf()
    }

    /// The two agree in everything but the bodies.
    pub open spec fn same_but_bodies(&self, other: &Physics) -> bool {
        &&& self.colliders == other.colliders
        &&& self.joints == other.joints
        &&& self.binder == other.binder
    }

    /// The two agree in everything but the colliders.
    pub open spec fn same_but_colliders(&self, other: &Physics) -> bool {
        &&& self.bodies == other.bodies
        &&& self.joints == other.joints
        &&& self.binder == other.binder
    }

    /// The two agree in everything but the joints.
    pub open spec fn same_but_joints(&self, other: &Physics) -> bool {
        &&& self.bodies == other.bodies
        &&& self.colliders == other.colliders
        &&& self.binder == other.binder
    }

    /// A physics without bodies, colliders, joints and bindings.
    pub fn new() -> (physics: Physics)
        ensures
            physics.bodies_view() == PoolView::<RigidBody>::empty(),
            physics.colliders_view() == PoolView::<Collider>::empty(),
            physics.joints_view() == PoolView::<Joint>::empty(),
            physics.binder_view().forward == empty_binding(),
            physics.binder_view().backward == empty_binding(),
            physics.wf(),
            physics.binder_view().consistent(),
    {
        Physics {
            bodies: new_body_pool(),
            colliders: new_collider_pool(),
            joints: new_joint_pool(),
            binder: new_binder(),
        }
    }

    /// The body that a handle names, if it names one.
    pub fn body(&self, handle: Handle) -> (body: Option<&RigidBody>)
        ensures
            body == if self.bodies_view().is_live(handle) {
                Some(&self.bodies_view().get(handle))
            } else {
                None
            },
    {
        body_ref(&self.bodies, handle)
    }

    /// The collider that a handle names, if it names one.
    pub fn collider(&self, handle: Handle) -> (collider: Option<&Collider>)
        ensures
            collider == if self.colliders_view().is_live(handle) {
                Some(&self.colliders_view().get(handle))
            } else {
                None
            },
    {
        collider_ref(&self.colliders, handle)
    }

    /// The joint that a handle names, if it names one.
    pub fn joint(&self, handle: Handle) -> (joint: Option<&Joint>)
        ensures
            joint == if self.joints_view().is_live(handle) {
                Some(&self.joints_view().get(handle))
            } else {
                None
            },
    {
        joint_ref(&self.joints, handle)
    }

    /// Removes the binding of a body and returns the node that it was bound
    /// to, or the handle that names nothing where it was not bound.
    pub fn unbind_by_body(&mut self, body: Handle) -> (node: Handle)
        ensures
            node == match old(self).binder_view().node_of(body) {
                Some(node) => node,
                None => Handle::none(),
            },
            final(self).binder_view() == old(self).binder_view().unbind_body(body),
            final(self).bodies == old(self).bodies,
            final(self).colliders == old(self).colliders,
            final(self).joints == old(self).joints,
    {
        match binder_remove_by_value(&mut self.binder, body) {
            Some(node) => node,
            None => Handle::none(),
        }
    }
}

/// Removing the binding of a node, or of a body, keeps a consistent binder
/// consistent. Binding keeps it so where neither the node nor the body is
/// bound yet.
pub proof fn lemma_binder_consistent(binder: BinderView, node: Handle, body: Handle)
    requires
        binder.consistent(),
    ensures
        binder.unbind_node(node).consistent(),
        binder.unbind_body(body).consistent(),
        binder.body_of(node) is None && binder.node_of(body) is None ==> binder.bind(
            node,
            body,
        ).consistent(),
{
    let a = binder.unbind_node(node);
    assert forall|n: (u32, u32)| #[trigger] a.forward.contains_key(n) implies {
        &&& a.backward.contains_key(a.forward[n])
        &&& a.backward[a.forward[n]] == n
    } by {
        assert(binder.forward.contains_key(n));
    }
    assert forall|b: (u32, u32)| #[trigger] a.backward.contains_key(b) implies {
        &&& a.forward.contains_key(a.backward[b])
        &&& a.forward[a.backward[b]] == b
    } by {
        assert(binder.backward.contains_key(b));
    }
    let c = binder.unbind_body(body);
    assert forall|n: (u32, u32)| #[trigger] c.forward.contains_key(n) implies {
        &&& c.backward.contains_key(c.forward[n])
        &&& c.backward[c.forward[n]] == n
    } by {
        assert(binder.forward.contains_key(n));
    }
    assert forall|b: (u32, u32)| #[trigger] c.backward.contains_key(b) implies {
        &&& c.forward.contains_key(c.backward[b])
        &&& c.forward[c.backward[b]] == b
    } by {
        assert(binder.backward.contains_key(b));
    }
    if binder.body_of(node) is None && binder.node_of(body) is None {
        let d = binder.bind(node, body);
        assert forall|n: (u32, u32)| #[trigger] d.forward.contains_key(n) implies {
        &&& d.backward.contains_key(d.forward[n])
        &&& d.backward[d.forward[n]] == n
    } by {
            if n != node.key() {
                assert(binder.forward.contains_key(n));
            }
        }
        assert forall|b: (u32, u32)| #[trigger] d.backward.contains_key(b) implies {
        &&& d.forward.contains_key(d.backward[b])
        &&& d.forward[d.backward[b]] == b
    } by {
            if b != body.key() {
                assert(binder.backward.contains_key(b));
            }
        }
    }
}

} // verus!
