//! The registry of game objects: identities are unique in it, and lookup by
//! identity is the only way to address an object.

use vstd::prelude::*;
use crate::collision_component::CollisionComponent;
use crate::identifiable_object::IdType;
use crate::motion_component::MotionComponent;
use crate::scalar::Scalar;
use crate::shape::Shape;
use crate::unique_object::GameObject;

verus! {

/// No identity occurs twice.
pub open spec fn unique_ids(objects: Seq<GameObject>) -> bool {
    forall|i: int, j: int| 0 <= i < j < objects.len() ==> objects[i].id != objects[j].id
}

/// Some object carries the identity.
pub open spec fn has_id(objects: Seq<GameObject>, id: IdType) -> bool {
    exists|i: int| 0 <= i < objects.len() && (#[trigger] objects[i]).id == id
}

/// A place at which the identity stands; the only one where identities are
/// unique.
pub open spec fn index_of(objects: Seq<GameObject>, id: IdType) -> int {
    choose|i: int| 0 <= i < objects.len() && (#[trigger] objects[i]).id == id
}

/// The object that carries the identity, if any does.
pub open spec fn lookup(objects: Seq<GameObject>, id: IdType) -> Option<GameObject> {
    if has_id(objects, id) {
        Some(objects[index_of(objects, id)])
    } else {
        None
    }
}

/// The objects with `object` written over whatever carries its identity.
pub open spec fn replaced(objects: Seq<GameObject>, object: GameObject) -> Seq<GameObject> {
    Seq::new(
        objects.len(),
        |i: int|
            if objects[i].id == object.id {
                object
            } else {
                objects[i]
            },
    )
}

/// The objects with the carrier of the identity taken out.
pub open spec fn without(objects: Seq<GameObject>, id: IdType) -> Seq<GameObject> {
    if has_id(objects, id) {
        objects.remove(index_of(objects, id))
    } else {
        objects
    }
}

/// The object with its collision shape replaced, if it has the capability.
pub open spec fn reshaped(object: GameObject, shape: Shape) -> GameObject {
    GameObject { collision: Some(CollisionComponent { shape }), ..object }
}

/// The object with its motion state replaced.
pub open spec fn moved(object: GameObject, motion: MotionComponent) -> GameObject {
    GameObject { motion: Some(motion), ..object }
}

/// Where identities are unique, the object found under the identity of the
/// one at place `k` is that very one.
pub proof fn lemma_lookup_at(objects: Seq<GameObject>, k: int)
    requires
        unique_ids(objects),
        0 <= k < objects.len(),
    ensures
        has_id(objects, objects[k].id),
        index_of(objects, objects[k].id) == k,
        lookup(objects, objects[k].id) == Some(objects[k]),
{
    let id = objects[k].id;
    assert(objects[k].id == id);
    let c = index_of(objects, id);
    assert(0 <= c < objects.len() && objects[c].id == id);
    if c < k {
        assert(objects[c].id != objects[k].id);
    } else if k < c {
        assert(objects[k].id != objects[c].id);
    }
}

/// Writing an object over the carrier of its identity changes that one place
/// and keeps identities unique; every other identity is found as before.
pub proof fn lemma_replaced(objects: Seq<GameObject>, object: GameObject, id: IdType)
    requires
        unique_ids(objects),
    ensures
        unique_ids(replaced(objects, object)),
        has_id(replaced(objects, object), id) == has_id(objects, id),
        has_id(objects, object.id) ==> replaced(objects, object) == objects.update(
            index_of(objects, object.id),
            object,
        ),
        !has_id(objects, object.id) ==> replaced(objects, object) == objects,
        lookup(replaced(objects, object), id) == if id == object.id && has_id(objects, id) {
            Some(object)
        } else {
            lookup(objects, id)
        },
{
    let after = replaced(objects, object);
    assert forall|i: int| 0 <= i < objects.len() implies (#[trigger] after[i]).id
        == objects[i].id by {}
    assert(unique_ids(after)) by {
        assert forall|i: int, j: int| 0 <= i < j < after.len() implies after[i].id
            != after[j].id by {
            assert(after[i].id == objects[i].id);
            assert(after[j].id == objects[j].id);
        }
    }
    if has_id(objects, id) {
        let k = index_of(objects, id);
        lemma_lookup_at(objects, k);
        assert(after[k].id == id);
        lemma_lookup_at(after, k);
    } else {
        if has_id(after, id) {
            let k = index_of(after, id);
            assert(after[k].id == objects[k].id);
            assert(objects[k].id == id);
            assert(false);
        }
    }
    if has_id(objects, object.id) {
        let k = index_of(objects, object.id);
        lemma_lookup_at(objects, k);
        assert forall|i: int| 0 <= i < objects.len() implies after[i] == objects.update(
            k,
            object,
        )[i] by {
            if i != k && objects[i].id == object.id {
                lemma_lookup_at(objects, i);
            }
        }
        assert(after =~= objects.update(k, object));
    } else {
        assert forall|i: int| 0 <= i < objects.len() implies after[i] == objects[i] by {
            if objects[i].id == object.id {
                assert(has_id(objects, object.id));
            }
        }
        assert(after =~= objects);
    }
}

/// Taking an identity out keeps identities unique, leaves that identity
/// absent and every other one found as before.
pub proof fn lemma_without(objects: Seq<GameObject>, gone: IdType, id: IdType)
    requires
        unique_ids(objects),
    ensures
        unique_ids(without(objects, gone)),
        !has_id(without(objects, gone), gone),
        id != gone ==> lookup(without(objects, gone), id) == lookup(objects, id),
{
    let after = without(objects, gone);
    if has_id(objects, gone) {
        let k = index_of(objects, gone);
        lemma_lookup_at(objects, k);
        assert forall|i: int| 0 <= i < after.len() implies #[trigger] after[i] == objects[if i
            < k {
            i
        } else {
            i + 1
        }] by {}
        assert(unique_ids(after)) by {
            assert forall|i: int, j: int| 0 <= i < j < after.len() implies after[i].id
                != after[j].id by {
                let oi = if i < k { i } else { i + 1 };
                let oj = if j < k { j } else { j + 1 };
                assert(after[i] == objects[oi]);
                assert(after[j] == objects[oj]);
                assert(objects[oi].id != objects[oj].id);
            }
        }
        if has_id(after, gone) {
            let i = index_of(after, gone);
            let oi = if i < k { i } else { i + 1 };
            assert(after[i] == objects[oi]);
            if oi < k {
                assert(objects[oi].id != objects[k].id);
            } else {
                assert(objects[k].id != objects[oi].id);
            }
            assert(false);
        }
        if id != gone {
            if has_id(objects, id) {
                let o = index_of(objects, id);
                lemma_lookup_at(objects, o);
                let a = if o < k { o } else { o - 1 };
                assert(after[a] == objects[o]);
                lemma_lookup_at(after, a);
            } else if has_id(after, id) {
                let a = index_of(after, id);
                let o = if a < k { a } else { a + 1 };
                assert(after[a] == objects[o]);
                assert(objects[o].id == id);
                assert(false);
            }
        }
    }
}

/// Adding an object under a fresh identity keeps identities unique; the new
/// identity finds the new object, and every other one is found as before.
pub proof fn lemma_pushed(objects: Seq<GameObject>, object: GameObject, id: IdType)
    requires
        unique_ids(objects),
        !has_id(objects, object.id),
    ensures
        unique_ids(objects.push(object)),
        lookup(objects.push(object), id) == if id == object.id {
            Some(object)
        } else {
            lookup(objects, id)
        },
{
    let after = objects.push(object);
    assert(unique_ids(after)) by {
        assert forall|i: int, j: int| 0 <= i < j < after.len() implies after[i].id
            != after[j].id by {
            if j == objects.len() {
                assert(objects[i].id != object.id);
            }
        }
    }
    if id == object.id {
        assert(after[objects.len() as int] == object);
        lemma_lookup_at(after, objects.len() as int);
    } else if has_id(objects, id) {
        let k = index_of(objects, id);
        assert(after[k] == objects[k]);
        lemma_lookup_at(objects, k);
        lemma_lookup_at(after, k);
    } else if has_id(after, id) {
        let k = index_of(after, id);
        if k < objects.len() {
            assert(objects[k].id == id);
        }
        assert(false);
    }
}

/// The registry: a set of game objects, each under its own identity.
pub struct UniqueObjectStorage {
    objects: Vec<GameObject>,
}

impl View for UniqueObjectStorage {
    type V = Seq<GameObject>;

    /// The objects held, in the order in which a snapshot lists them.
    closed spec fn view(&self) -> Seq<GameObject> {
        self.objects@
    }
}

impl UniqueObjectStorage {
    /// Well-formedness: no identity occurs twice. Every registry that this
    /// module hands out is well formed, and every operation keeps it so.
    pub open spec fn wf(&self) -> bool {
        unique_ids(self@)
    }

    /// An empty registry.
    pub fn new() -> (r: UniqueObjectStorage)
        ensures
            r@ == Seq::<GameObject>::empty(),
            r.wf(),
    {
        UniqueObjectStorage { objects: Vec::new() }
    }

    /// The number of objects held.
    pub fn len(&self) -> (r: usize)
        ensures
            r == self@.len(),
    {
        self.objects.len()
    }

    /// The place at which an identity stands.
    fn position(&self, id: IdType) -> (r: Option<usize>)
        requires
            self.wf(),
        ensures
            match r {
                Some(k) => k < self@.len() && self@[k as int].id == id && has_id(self@, id)
                    && index_of(self@, id) == k && lookup(self@, id) == Some(self@[k as int]),
                None => !has_id(self@, id) && lookup(self@, id) is None,
            },
    {
        let mut i: usize = 0;
        while i < self.objects.len()
            invariant
                i <= self.objects.len(),
                self.wf(),
                forall|j: int| 0 <= j < i ==> (#[trigger] self.objects@[j]).id != id,
            decreases self.objects.len() - i,
        {
            if self.objects[i].id == id {
                proof {
                    lemma_lookup_at(self@, i as int);
                }
                return Some(i);
            }
            i = i + 1;
        }
        None
    }

    /// A point-in-time copy of all objects held. Later changes to the
    /// registry do not show in it.
    pub fn all_objects(&self) -> (r: Vec<GameObject>)
        requires
            self.wf(),
        ensures
            r@ == self@,
    {
        let mut snapshot: Vec<GameObject> = Vec::new();
        let mut i: usize = 0;
        while i < self.objects.len()
            invariant
                i <= self.objects.len(),
                snapshot@ == self.objects@.take(i as int),
            decreases self.objects.len() - i,
        {
            snapshot.push(self.objects[i]);
            proof {
                assert(self.objects@.take(i + 1) =~= self.objects@.take(i as int).push(
                    self.objects@[i as int],
                ));
            }
            i = i + 1;
        }
        proof {
            assert(self.objects@.take(i as int) =~= self.objects@);
        }
        snapshot
    }

    /// The object under an identity; `None` where the identity is absent.
    pub fn get_by_id(&self, id: IdType) -> (r: Option<GameObject>)
        requires
            self.wf(),
        ensures
            r == lookup(self@, id),
    {
        match self.position(id) {
            Some(k) => Some(self.objects[k]),
            None => None,
        }
    }

    /// Tests whether an identity is present.
    pub fn contains(&self, id: IdType) -> (r: bool)
        requires
            self.wf(),
        ensures
            r == has_id(self@, id),
    {
        self.position(id).is_some()
    }

    /// Adds an object under its identity. An identity that is already
    /// present is refused, and the registry stays as it was.
    pub fn insert(&mut self, object: GameObject) -> (r: bool)
        requires
            old(self).wf(),
        ensures
            r == !has_id(old(self)@, object.id),
            r ==> final(self)@ == old(self)@.push(object),
            !r ==> final(self)@ == old(self)@,
            final(self).wf(),
            forall|id: IdType|
                #[trigger] lookup(final(self)@, id) == if r && id == object.id {
                    Some(object)
                } else {
                    lookup(old(self)@, id)
                },
    {
        match self.position(object.id) {
            Some(_) => false,
            None => {
                proof {
                    assert forall|id: IdType|
                        #[trigger] lookup(self.objects@.push(object), id) == if id == object.id {
                            Some(object)
                        } else {
                            lookup(self.objects@, id)
                        } by {
                        lemma_pushed(self.objects@, object, id);
                    }
                    lemma_pushed(self.objects@, object, object.id);
                }
                self.objects.push(object);
                true
            },
        }
    }

    /// Takes the object under an identity out and returns it; `None`, and no
    /// change, where the identity is absent.
    pub fn remove(&mut self, id: IdType) -> (r: Option<GameObject>)
        requires
            old(self).wf(),
        ensures
            r == lookup(old(self)@, id),
            final(self)@ == without(old(self)@, id),
            final(self).wf(),
            forall|other: IdType|
                #[trigger] lookup(final(self)@, other) == if other == id {
                    None
                } else {
                    lookup(old(self)@, other)
                },
    {
        proof {
            assert forall|other: IdType|
                #[trigger] lookup(without(self.objects@, id), other) == if other == id {
                    None
                } else {
                    lookup(self.objects@, other)
                } by {
                lemma_without(self.objects@, id, other);
            }
            lemma_without(self.objects@, id, id);
        }
        match self.position(id) {
            Some(k) => {
                let object = self.objects.remove(k);
                Some(object)
            },
            None => None,
        }
    }

    /// Writes a new state over the object at a place.
    fn overwrite(&mut self, k: usize, object: GameObject)
        requires
            old(self).wf(),
            k < old(self)@.len(),
            old(self)@[k as int].id == object.id,
        ensures
            final(self)@ == replaced(old(self)@, object),
            final(self)@ == old(self)@.update(k as int, object),
            final(self).wf(),
    {
        proof {
            lemma_lookup_at(self.objects@, k as int);
            lemma_replaced(self.objects@, object, object.id);
        }
        self.objects.set(k, object);
    }

    /// Replaces the collision shape of the object under an identity. Fails,
    /// with no change, where the identity is absent or the object has no
    /// collision capability.
    pub fn set_shape(&mut self, id: IdType, shape: Shape) -> (r: bool)
        requires
            old(self).wf(),
        ensures
            r == (lookup(old(self)@, id) is Some && lookup(old(self)@, id).unwrap().collision
                is Some),
            r ==> final(self)@ == replaced(
                old(self)@,
                reshaped(lookup(old(self)@, id).unwrap(), shape),
            ),
            !r ==> final(self)@ == old(self)@,
            final(self).wf(),
    {
        match self.position(id) {
            Some(k) => {
                let object = self.objects[k];
                match object.collision {
                    Some(_) => {
                        let collision = CollisionComponent::new(shape);
                        self.overwrite(k, GameObject { collision: Some(collision), ..object });
                        true
                    },
                    None => false,
                }
            },
            None => false,
        }
    }

    /// Replaces the motion state of the object under an identity. Fails, with
    /// no change, where the identity is absent or the object has no motion
    /// capability.
    pub fn set_motion(&mut self, id: IdType, motion: MotionComponent) -> (r: bool)
        requires
            old(self).wf(),
        ensures
            r == (lookup(old(self)@, id) is Some && lookup(old(self)@, id).unwrap().motion
                is Some),
            r ==> final(self)@ == replaced(
                old(self)@,
                moved(lookup(old(self)@, id).unwrap(), motion),
            ),
            !r ==> final(self)@ == old(self)@,
            final(self).wf(),
    {
        match self.position(id) {
            Some(k) => {
                let object = self.objects[k];
                match object.motion {
                    Some(_) => {
                        self.overwrite(k, GameObject { motion: Some(motion), ..object });
                        true
                    },
                    None => false,
                }
            },
            None => false,
        }
    }

    /// Sets the given velocity components of the object under an identity
    /// and leaves the others untouched. Fails, with no change, where the
    /// identity is absent or the object has no motion capability.
    pub fn set_velocity(
        &mut self,
        id: IdType,
        x: Option<Scalar>,
        y: Option<Scalar>,
        angular: Option<Scalar>,
    ) -> (r: bool)
        requires
            old(self).wf(),
        ensures
            r == (lookup(old(self)@, id) is Some && lookup(old(self)@, id).unwrap().motion
                is Some),
            r ==> final(self)@ == replaced(
                old(self)@,
                moved(
                    lookup(old(self)@, id).unwrap(),
                    lookup(old(self)@, id).unwrap().motion.unwrap().with_velocity(x, y, angular),
                ),
            ),
            !r ==> final(self)@ == old(self)@,
            final(self).wf(),
    {
        match self.get_by_id(id) {
            Some(object) => match object.motion {
                Some(current) => {
                    let mut motion = current;
                    motion.set_velocity(x, y, angular);
                    self.set_motion(id, motion)
                },
                None => false,
            },
            None => false,
        }
    }
}

} // verus!
