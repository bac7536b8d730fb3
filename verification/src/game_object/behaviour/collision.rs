use crate::game_object::behaviour::{BehaviourParameter, BehaviourResult, StageInput, StageOutput};
use crate::game_object::{BoundInfo, CollisionInfo, ObjectMask};
use crate::math::bounds::{Bounds, Rect};
use crate::math::fixed::Fixed;
use crate::serialization::AssetId;
use vstd::prelude::*;

verus! {

/// Finds the entities that an entity touches.
#[derive(Debug, Clone, Copy, PartialEq, Eq, Structural)]
pub struct CollisionBehaviour {
    pub mask: ObjectMask,
}

/// Whether entities with these masks can collide: a mask of zero collides
/// with everything, two other masks only if they share a bit.
pub open spec fn masks_interact(a: ObjectMask, b: ObjectMask) -> bool {
    a == 0 || b == 0 || a & b != 0
}

/// Whether the entity `id` with mask `mask` at `bounds` collides with
/// `other`: another entity, of an interacting mask, whose rectangle
/// intersects `bounds`.
pub open spec fn collides(id: AssetId, mask: ObjectMask, bounds: Rect, other: BoundInfo) -> bool {
    &&& other.0 != id
    &&& masks_interact(mask, other.2)
    &&& other.1.spec_intersects(bounds)
}

/// The contact that a collision with `other` is reported as.
pub open spec fn contact_with(bounds: Rect, other: BoundInfo) -> CollisionInfo {
    (other.0, other.1.spec_intersection(bounds), other.2)
}

/// The contacts of the entity among `others`, in the order of `others`.
pub open spec fn contacts_among(
    id: AssetId,
    mask: ObjectMask,
    bounds: Rect,
    others: Seq<BoundInfo>,
) -> Seq<CollisionInfo>
    decreases others.len(),
{
    if others.len() == 0 {
        Seq::empty()
    } else {
        let before = contacts_among(id, mask, bounds, others.drop_last());
        if collides(id, mask, bounds, others.last()) {
            before.push(contact_with(bounds, others.last()))
        } else {
            before
        }
    }
}

/// Entities whose masks are not zero and share no bit do not collide,
/// however their rectangles lie; an entity with a mask of zero collides
/// with every other entity whose rectangle intersects its own, whatever
/// that entity's mask.
pub proof fn lemma_mask_filter(id: AssetId, mask: ObjectMask, bounds: Rect, other: BoundInfo)
    ensures
        mask != 0 && other.2 != 0 && mask & other.2 == 0 ==> !collides(id, mask, bounds, other),
        (mask == 0 || other.2 == 0) && other.0 != id && other.1.spec_intersects(bounds)
            ==> collides(id, mask, bounds, other),
        masks_interact(mask, other.2) == masks_interact(other.2, mask),
{
    let a = mask;
    let b = other.2;
    assert((a & b) == (b & a)) by (bit_vector);
}

/// Whether `contact` is what a collision with one of `others` is reported as.
pub open spec fn is_contact_of(
    id: AssetId,
    mask: ObjectMask,
    bounds: Rect,
    others: Seq<BoundInfo>,
    contact: CollisionInfo,
) -> bool {
    exists|j: int|
        0 <= j < others.len() && collides(id, mask, bounds, #[trigger] others[j]) && contact
            == contact_with(bounds, others[j])
}

/// Every contact comes from an entity of the snapshot that collides, and
/// every such entity has its contact. So no contact names the entity
/// itself, and none names an entity whose mask shares no bit with a mask
/// that is not zero.
pub proof fn lemma_contacts_exact(
    id: AssetId,
    mask: ObjectMask,
    bounds: Rect,
    others: Seq<BoundInfo>,
)
    ensures
        forall|k: int|
            0 <= k < contacts_among(id, mask, bounds, others).len() ==> is_contact_of(
                id,
                mask,
                bounds,
                others,
                #[trigger] contacts_among(id, mask, bounds, others)[k],
            ),
        forall|j: int|
            0 <= j < others.len() && collides(id, mask, bounds, #[trigger] others[j])
                ==> contacts_among(id, mask, bounds, others).contains(
                contact_with(bounds, others[j]),
            ),
        forall|k: int|
            0 <= k < contacts_among(id, mask, bounds, others).len() ==> (
            #[trigger] contacts_among(id, mask, bounds, others)[k]).0 != id,
        forall|k: int|
            0 <= k < contacts_among(id, mask, bounds, others).len() ==> masks_interact(
                mask,
                (#[trigger] contacts_among(id, mask, bounds, others)[k]).2,
            ),
        contacts_among(id, mask, bounds, others).len() <= others.len(),
    decreases others.len(),
{
    let all = contacts_among(id, mask, bounds, others);
    if others.len() > 0 {
        let front = others.drop_last();
        let before = contacts_among(id, mask, bounds, front);
        lemma_contacts_exact(id, mask, bounds, front);
        assert forall|k: int| 0 <= k < all.len() implies is_contact_of(
            id,
            mask,
            bounds,
            others,
            #[trigger] all[k],
        ) by {
            if k < before.len() {
                assert(is_contact_of(id, mask, bounds, front, before[k]));
                let j = choose|j: int|
                    0 <= j < front.len() && collides(id, mask, bounds, #[trigger] front[j])
                        && before[k] == contact_with(bounds, front[j]);
                assert(others[j] == front[j]);
            } else {
                assert(all[k] == contact_with(bounds, others[others.len() - 1]));
            }
        }
        assert forall|j: int|
            0 <= j < others.len() && collides(
                id,
                mask,
                bounds,
                #[trigger] others[j],
            ) implies all.contains(contact_with(bounds, others[j])) by {
            if j < front.len() {
                assert(front[j] == others[j]);
                assert(before.contains(contact_with(bounds, front[j])));
                let k = choose|k: int|
                    0 <= k < before.len() && before[k] == contact_with(bounds, front[j]);
                assert(all[k] == before[k]);
            } else {
                assert(all[all.len() - 1] == contact_with(bounds, others[j]));
            }
        }
        assert forall|k: int| 0 <= k < all.len() implies (#[trigger] all[k]).0 != id
            && masks_interact(mask, all[k].2) by {
            assert(is_contact_of(id, mask, bounds, others, all[k]));
        }
    }
}

impl CollisionBehaviour {
    pub fn new() -> (r: Self)
        ensures
            r.mask == 0,
    {
        Self { mask: 0 }
    }

    /// What the stage puts out: the contacts, and nothing else.
    pub open spec fn spec_tick(self, input: StageInput) -> StageOutput {
        StageOutput {
            bounds: None,
            collisions: Some(
                contacts_among(input.id, self.mask, input.bounds, input.other_bounds),
            ),
            force: None,
            impulse: None,
        }
    }

    /// Whether two masks let their entities collide.
    pub fn interacts(mask: ObjectMask, other: ObjectMask) -> (r: bool)
        ensures
            r == masks_interact(mask, other),
    {
        !(other != 0 && mask != 0 && mask & other == 0)
    }

    /// Finds the contacts of the entity among the snapshot: every other
    /// entity of an interacting mask whose rectangle intersects the
    /// entity's own, with the part that the two have in common.
    pub fn tick(&mut self, params: BehaviourParameter, _delta_t: Fixed) -> (result:
        BehaviourResult)
        ensures
            *final(self) == *old(self),
            result@ == old(self).spec_tick(params@),
            result.collisions is Some,
            forall|k: int|
                0 <= k < result.collisions->0@.len() ==> {
                    let contact = #[trigger] result.collisions->0@[k];
                    &&& contact.0 != params.id
                    &&& masks_interact(old(self).mask, contact.2)
                    &&& is_contact_of(
                        params.id,
                        old(self).mask,
                        params.bounds,
                        params.other_bounds@,
                        contact,
                    )
                },
    {
        let mut collisions: Vec<BoundInfo> = Vec::new();
        let bounds = params.bounds;
        let n = params.other_bounds.len();
        let mut i: usize = 0;
        while i < n
            invariant
                i <= n,
                n == params.other_bounds@.len(),
                bounds == params.bounds,
                *self == *old(self),
                collisions@ == contacts_among(
                    params.id,
                    self.mask,
                    bounds,
                    params.other_bounds@.take(i as int),
                ),
            decreases n - i,
        {
            let (id, rect, mask) = params.other_bounds[i];
            proof {
                let upto = params.other_bounds@.take(i + 1);
                assert(upto.drop_last() =~= params.other_bounds@.take(i as int));
                assert(upto.last() == params.other_bounds@[i as int]);
            }
            if id != params.id && Self::interacts(self.mask, mask) && rect.intersects(bounds) {
                collisions.push((id, rect.intersection(bounds), mask));
            }
            i += 1;
        }
        proof {
            assert(params.other_bounds@.take(n as int) =~= params.other_bounds@);
            lemma_contacts_exact(params.id, self.mask, bounds, params.other_bounds@);
        }
        BehaviourResult { bounds: None, collisions: Some(collisions), force: None, impulse: None }
    }
}

} // verus!
