//! The lifecycle of a relationship: creation together with its memberships,
//! confirmation by each participant with the derived aggregate status, and the
//! membership rule that decides who may delete it.
use vstd::prelude::*;
use crate::validate::CreateRelationship;

verus! {

/// Aggregate status of a relationship: `Pending` until every member has
/// confirmed, then `Active` for good.
#[derive(Debug, Clone, Copy, PartialEq, Eq, Structural)]
pub enum RelationshipStatus {
    Pending,
    Active,
}

impl RelationshipStatus {
    /// The name under which the status is stored.
    pub fn as_str(&self) -> (r: &'static str)
        ensures
            r@ == stored_name(*self),
    {
        proof {
            reveal_strlit("pending");
            reveal_strlit("active");
        }
        match self {
            RelationshipStatus::Pending => "pending",
            RelationshipStatus::Active => "active",
        }
    }

    /// The single forward transition: once every member has confirmed, a
    /// pending relationship becomes active. The flag tells whether this call
    /// made the transition.
    pub fn after_confirmation(self, all: bool) -> (r: (RelationshipStatus, bool))
        ensures
            r.0 == status_after(self, all),
            r.1 == transitions(self, all),
    {
        match self {
            RelationshipStatus::Pending => {
                if all {
                    (RelationshipStatus::Active, true)
                } else {
                    (RelationshipStatus::Pending, false)
                }
            },
            RelationshipStatus::Active => (RelationshipStatus::Active, false),
        }
    }
}

pub open spec fn stored_name(status: RelationshipStatus) -> Seq<char> {
    match status {
        RelationshipStatus::Pending => seq!['p', 'e', 'n', 'd', 'i', 'n', 'g'],
        RelationshipStatus::Active => seq!['a', 'c', 't', 'i', 'v', 'e'],
    }
}

pub open spec fn status_after(status: RelationshipStatus, all: bool) -> RelationshipStatus {
    if all {
        RelationshipStatus::Active
    } else {
        status
    }
}

pub open spec fn transitions(status: RelationshipStatus, all: bool) -> bool {
    all && status == RelationshipStatus::Pending
}

/// A stored relationship.
pub struct Relationship {
    pub id: i32,
    pub name: String,
    pub color: Option<String>,
    pub description: Option<String>,
    pub status: RelationshipStatus,
}

/// The link between one user and one relationship.
#[derive(Debug, Clone, Copy, PartialEq, Eq, Structural)]
pub struct Membership {
    pub user_id: i32,
    pub confirmed: bool,
}

/// Failures of the lifecycle operations.
#[derive(Debug, Clone, Copy, PartialEq, Eq, Structural)]
pub enum LifecycleError {
    /// A user, relationship or pending membership that the operation needs
    /// does not exist.
    NotFound,
    /// The requester is not a member of the relationship.
    Forbidden,
    /// The same user would hold two memberships of one relationship. Creation
    /// reports this in place of `NotFound`, which a failed membership insert
    /// would otherwise give, so that the caller learns the actual cause.
    DuplicateMember,
}

pub open spec fn all_confirmed(m: Seq<Membership>) -> bool {
    forall|i: int| 0 <= i < m.len() ==> #[trigger] m[i].confirmed
}

pub open spec fn is_member(m: Seq<Membership>, user: i32) -> bool {
    exists|i: int| 0 <= i < m.len() && #[trigger] m[i].user_id == user
}

/// The user holds a membership that is not yet confirmed.
pub open spec fn awaits(m: Seq<Membership>, user: i32) -> bool {
    exists|i: int| 0 <= i < m.len() && #[trigger] m[i].user_id == user && !m[i].confirmed
}

pub open spec fn distinct_users(m: Seq<Membership>) -> bool {
    forall|i: int, j: int|
        0 <= i < m.len() && 0 <= j < m.len() && i != j ==> #[trigger] m[i].user_id
            != #[trigger] m[j].user_id
}

/// The memberships once `user` has confirmed.
pub open spec fn confirm_member(m: Seq<Membership>, user: i32) -> Seq<Membership> {
    m.map_values(
        |x: Membership|
            if x.user_id == user {
                Membership { user_id: x.user_id, confirmed: true }
            } else {
                x
            },
    )
}

pub open spec fn all_resolved(ids: Seq<Option<i32>>) -> bool {
    forall|i: int| 0 <= i < ids.len() ==> #[trigger] ids[i] is Some
}

/// The memberships that creation stores: the creator's, confirmed, then one
/// unconfirmed membership per proposed user, in the order given.
pub open spec fn planned_members(creator: i32, ids: Seq<Option<i32>>) -> Seq<Membership> {
    seq![Membership { user_id: creator, confirmed: true }] + ids.map_values(
        |o: Option<i32>| Membership { user_id: o.unwrap(), confirmed: false },
    )
}

/// Why creation is refused, if it is.
pub open spec fn create_error(creator: i32, ids: Seq<Option<i32>>) -> Option<LifecycleError> {
    if !all_resolved(ids) {
        Some(LifecycleError::NotFound)
    } else if !distinct_users(planned_members(creator, ids)) {
        Some(LifecycleError::DuplicateMember)
    } else {
        None
    }
}

/// An insert or update that must touch exactly one row.
pub fn expect_one_row(rows_affected: u64) -> (r: Result<(), LifecycleError>)
    ensures
        r == (if rows_affected == 1 {
            Ok::<(), LifecycleError>(())
        } else {
            Err(LifecycleError::NotFound)
        }),
{
    if rows_affected == 1 {
        Ok(())
    } else {
        Err(LifecycleError::NotFound)
    }
}

/// A relationship together with all of its memberships.
pub struct RelationshipRecord {
    pub relationship: Relationship,
    pub members: Vec<Membership>,
}

impl RelationshipRecord {
    /// At least one member, one membership per user, active only when
    /// everybody confirmed, and, once there is more than one member, active
    /// exactly when everybody confirmed. A relationship whose only member is
    /// its creator is created pending with that member confirmed, and no
    /// later confirmation can move it, so it alone may stay pending with
    /// everybody confirmed.
    pub open spec fn wf(&self) -> bool {
        &&& self.members@.len() >= 1
        &&& distinct_users(self.members@)
        &&& self.relationship.status == RelationshipStatus::Active ==> all_confirmed(self.members@)
        &&& self.members@.len() > 1 ==> (self.relationship.status == RelationshipStatus::Active
            <==> all_confirmed(self.members@))
    }

    /// Tells whether the record is well formed.
    pub fn is_well_formed(&self) -> (r: bool)
        ensures
            r == self.wf(),
    {
        let n = self.members.len();
        if n == 0 {
            return false;
        }
        let mut i: usize = 0;
        while i < n
            invariant
                n == self.members@.len(),
                i <= n,
                forall|a: int, b: int|
                    0 <= a < i && 0 <= b < n && a != b ==> #[trigger] self.members@[a].user_id
                        != #[trigger] self.members@[b].user_id,
            decreases n - i,
        {
            let mut j: usize = 0;
            while j < n
                invariant
                    n == self.members@.len(),
                    i < n,
                    j <= n,
                    forall|a: int, b: int|
                        0 <= a < i && 0 <= b < n && a != b ==> #[trigger] self.members@[a].user_id
                            != #[trigger] self.members@[b].user_id,
                    forall|b: int|
                        0 <= b < j && b != i ==> self.members@[i as int].user_id
                            != #[trigger] self.members@[b].user_id,
                decreases n - j,
            {
                if j != i && self.members[i].user_id == self.members[j].user_id {
                    proof {
                        assert(!distinct_users(self.members@)) by {
                            assert(self.members@[i as int].user_id == self.members@[j as int].user_id);
                        }
                    }
                    return false;
                }
                j = j + 1;
            }
            i = i + 1;
        }
        let mut all = true;
        let mut k: usize = 0;
        while k < n
            invariant
                n == self.members@.len(),
                k <= n,
                all == (forall|t: int| 0 <= t < k ==> #[trigger] self.members@[t].confirmed),
            decreases n - k,
        {
            if !self.members[k].confirmed {
                all = false;
            }
            k = k + 1;
        }
        match self.relationship.status {
            RelationshipStatus::Active => all,
            RelationshipStatus::Pending => n == 1 || !all,
        }
    }

    /// Builds the record that creation stores. `relationship_id` is the id
    /// given to the new relationship row; `proposed_ids` holds, for each
    /// proposed username in order, the id of that user if one exists.
    pub fn create(
        data: CreateRelationship,
        relationship_id: i32,
        proposed_ids: Vec<Option<i32>>,
    ) -> (r: Result<RelationshipRecord, LifecycleError>)
        requires
            proposed_ids@.len() == data.proposed_users@.len(),
        ensures
            match create_error(data.user_creator, proposed_ids@) {
                Some(e) => r == Err::<RelationshipRecord, LifecycleError>(e),
                None => r is Ok,
            },
            r matches Ok(rec) ==> {
                &&& rec.wf()
                &&& rec.members@ == planned_members(data.user_creator, proposed_ids@)
                &&& rec.relationship.id == relationship_id
                &&& rec.relationship.name == data.name
                &&& rec.relationship.color == data.color
                &&& rec.relationship.description == data.description
                &&& rec.relationship.status == RelationshipStatus::Pending
            },
    {
        let n = proposed_ids.len();
        let mut k: usize = 0;
        while k < n
            invariant
                n == proposed_ids@.len(),
                k <= n,
                forall|i: int| 0 <= i < k ==> #[trigger] proposed_ids@[i] is Some,
            decreases n - k,
        {
            if proposed_ids[k].is_none() {
                return Err(LifecycleError::NotFound);
            }
            k = k + 1;
        }
        let ghost creator = data.user_creator;
        let mut members: Vec<Membership> = Vec::new();
        members.push(Membership { user_id: data.user_creator, confirmed: true });
        let mut i: usize = 0;
        while i < n
            invariant
                n == proposed_ids@.len(),
                i <= n,
                all_resolved(proposed_ids@),
                creator == data.user_creator,
                members@ == planned_members(creator, proposed_ids@.subrange(0, i as int)),
                distinct_users(members@),
            decreases n - i,
        {
            let uid = match proposed_ids[i] {
                Some(u) => u,
                None => 0,
            };
            let mut j: usize = 0;
            while j < members.len()
                invariant
                    n == proposed_ids@.len(),
                    i < n,
                    all_resolved(proposed_ids@),
                    creator == data.user_creator,
                    members@ == planned_members(creator, proposed_ids@.subrange(0, i as int)),
                    proposed_ids@[i as int] == Some(uid),
                    j <= members@.len(),
                    forall|t: int| 0 <= t < j ==> #[trigger] members@[t].user_id != uid,
                decreases members@.len() - j,
            {
                if members[j].user_id == uid {
                    proof {
                        let full = planned_members(creator, proposed_ids@);
                        assert(proposed_ids@[i as int] is Some);
                        assert(full[j as int] == members@[j as int]);
                        assert(full[i + 1] == Membership { user_id: uid, confirmed: false });
                        assert(full[j as int].user_id == full[i + 1].user_id);
                    }
                    return Err(LifecycleError::DuplicateMember);
                }
                j = j + 1;
            }
            members.push(Membership { user_id: uid, confirmed: false });
            proof {
                assert(proposed_ids@.subrange(0, i + 1) == proposed_ids@.subrange(0, i as int).push(
                    proposed_ids@[i as int],
                ));
                assert(members@ == planned_members(creator, proposed_ids@.subrange(0, i + 1)));
            }
            i = i + 1;
        }
        proof {
            assert(proposed_ids@.subrange(0, n as int) == proposed_ids@);
            if n > 0 {
                assert(!members@[1].confirmed);
            }
        }
        let relationship = Relationship {
            id: relationship_id,
            name: data.name,
            color: data.color,
            description: data.description,
            status: RelationshipStatus::Pending,
        };
        Ok(RelationshipRecord { relationship, members })
    }
    /// Records the confirmation of `user`. Fails with `NotFound`, leaving the
    /// record as it was, unless the user holds a membership that is not yet
    /// confirmed. Otherwise that membership becomes confirmed, the status is
    /// derived again, and the result tells whether this confirmation turned
    /// the relationship from pending to active.
    pub fn confirm(&mut self, user: i32) -> (r: Result<bool, LifecycleError>)
        requires
            old(self).wf(),
        ensures
            final(self).wf(),
            awaits(old(self).members@, user) ==> {
                let m = confirm_member(old(self).members@, user);
                &&& r == Ok::<bool, LifecycleError>(
                    transitions(old(self).relationship.status, all_confirmed(m)),
                )
                &&& final(self).members@ == m
                &&& final(self).relationship.status == status_after(
                    old(self).relationship.status,
                    all_confirmed(m),
                )
                &&& final(self).relationship.id == old(self).relationship.id
                &&& final(self).relationship.name == old(self).relationship.name
                &&& final(self).relationship.color == old(self).relationship.color
                &&& final(self).relationship.description == old(self).relationship.description
            },
            !awaits(old(self).members@, user) ==> {
                &&& r == Err::<bool, LifecycleError>(LifecycleError::NotFound)
                &&& *final(self) == *old(self)
            },
    {
        let n = self.members.len();
        let mut k: usize = 0;
        while k < n && self.members[k].user_id != user
            invariant
                n == self.members@.len(),
                k <= n,
                forall|t: int| 0 <= t < k ==> #[trigger] self.members@[t].user_id != user,
            decreases n - k,
        {
            k = k + 1;
        }
        if k == n || self.members[k].confirmed {
            proof {
                if awaits(self.members@, user) {
                    let w = choose|w: int|
                        0 <= w < self.members@.len() && #[trigger] self.members@[w].user_id == user
                            && !self.members@[w].confirmed;
                    assert(w != k);
                }
            }
            return Err(LifecycleError::NotFound);
        }
        let ghost before = self.members@;
        self.members.set(k, Membership { user_id: user, confirmed: true });
        proof {
            assert forall|t: int| 0 <= t < n implies #[trigger] self.members@[t] == confirm_member(
                before,
                user,
            )[t] by {
                if t != k {
                    assert(before[t].user_id != before[k as int].user_id);
                }
            }
            assert(self.members@ =~= confirm_member(before, user));
        }
        let mut all = true;
        let mut i: usize = 0;
        while i < n
            invariant
                n == self.members@.len(),
                i <= n,
                all == (forall|t: int| 0 <= t < i ==> #[trigger] self.members@[t].confirmed),
            decreases n - i,
        {
            if !self.members[i].confirmed {
                all = false;
            }
            i = i + 1;
        }
        let (status, moved) = self.relationship.status.after_confirmation(all);
        self.relationship.status = status;
        Ok(moved)
    }

    /// Whether `user` may delete this relationship: only its members may.
    pub fn authorize_delete(&self, user: i32) -> (r: Result<i32, LifecycleError>)
        ensures
            r == (if is_member(self.members@, user) {
                Ok::<i32, LifecycleError>(self.relationship.id)
            } else {
                Err(LifecycleError::Forbidden)
            }),
    {
        let n = self.members.len();
        let mut k: usize = 0;
        while k < n
            invariant
                n == self.members@.len(),
                k <= n,
                forall|t: int| 0 <= t < k ==> #[trigger] self.members@[t].user_id != user,
            decreases n - k,
        {
            if self.members[k].user_id == user {
                return Ok(self.relationship.id);
            }
            k = k + 1;
        }
        Err(LifecycleError::Forbidden)
    }
}

/// Decides a deletion request. A relationship that does not exist gives
/// `NotFound`; a requester who is not a member gives `Forbidden`; otherwise
/// the id of the relationship whose row and memberships are to be removed.
pub fn authorize_deletion(record: &Option<RelationshipRecord>, user: i32) -> (r: Result<
    i32,
    LifecycleError,
>)
    ensures
        r == deletion_outcome(*record, user),
{
    match record {
        None => Err(LifecycleError::NotFound),
        Some(rec) => rec.authorize_delete(user),
    }
}

pub open spec fn deletion_outcome(record: Option<RelationshipRecord>, user: i32) -> Result<
    i32,
    LifecycleError,
> {
    match record {
        None => Err(LifecycleError::NotFound),
        Some(rec) => if is_member(rec.members@, user) {
            Ok(rec.relationship.id)
        } else {
            Err(LifecycleError::Forbidden)
        },
    }
}
/// Creation stores one membership for the creator, confirmed, and one per
/// proposed user, unconfirmed, in order; an unknown proposed user refuses the
/// whole creation with `NotFound`.
pub proof fn lemma_creation_memberships(creator: i32, ids: Seq<Option<i32>>)
    ensures
        planned_members(creator, ids).len() == ids.len() + 1,
        planned_members(creator, ids)[0] == (Membership { user_id: creator, confirmed: true }),
        forall|i: int|
            0 <= i < ids.len() ==> #[trigger] planned_members(creator, ids)[i + 1] == (Membership {
                user_id: ids[i].unwrap(),
                confirmed: false,
            }),
        !all_resolved(ids) ==> create_error(creator, ids) == Some(LifecycleError::NotFound),
        is_member(planned_members(creator, ids), creator),
{
    let m = planned_members(creator, ids);
    assert(m[0].user_id == creator);
}

/// Confirming the last unconfirmed member turns a pending relationship
/// active, and that is its only transition: afterwards no member awaits
/// confirmation, so every further confirmation fails, and an active
/// relationship never transitions again.
pub proof fn lemma_last_confirmation_activates(m: Seq<Membership>, user: i32)
    requires
        awaits(m, user),
        forall|i: int| 0 <= i < m.len() && #[trigger] m[i].user_id != user ==> m[i].confirmed,
    ensures
        all_confirmed(confirm_member(m, user)),
        transitions(RelationshipStatus::Pending, all_confirmed(confirm_member(m, user))),
        status_after(RelationshipStatus::Pending, all_confirmed(confirm_member(m, user)))
            == RelationshipStatus::Active,
        forall|u: i32| !awaits(confirm_member(m, user), u),
        forall|all: bool| !transitions(RelationshipStatus::Active, all),
        forall|all: bool| status_after(RelationshipStatus::Active, all) == RelationshipStatus::Active,
{
    let c = confirm_member(m, user);
    assert forall|i: int| 0 <= i < c.len() implies #[trigger] c[i].confirmed by {
        assert(c[i] == (if m[i].user_id == user {
            Membership { user_id: m[i].user_id, confirmed: true }
        } else {
            m[i]
        }));
    }
}

/// A member's confirmation that is not the last one leaves a pending
/// relationship pending.
pub proof fn lemma_partial_confirmation_stays_pending(m: Seq<Membership>, user: i32, other: i32)
    requires
        awaits(m, user),
        awaits(m, other),
        other != user,
    ensures
        !all_confirmed(confirm_member(m, user)),
        status_after(RelationshipStatus::Pending, all_confirmed(confirm_member(m, user)))
            == RelationshipStatus::Pending,
{
    let w = choose|w: int| 0 <= w < m.len() && #[trigger] m[w].user_id == other && !m[w].confirmed;
    assert(!confirm_member(m, user)[w].confirmed);
}

/// Only a member may delete a relationship; a missing relationship gives
/// `NotFound`, a requester outside it `Forbidden`.
pub proof fn lemma_deletion_requires_membership(record: Option<RelationshipRecord>, user: i32)
    ensures
        record is None ==> deletion_outcome(record, user) == Err::<i32, LifecycleError>(
            LifecycleError::NotFound,
        ),
        record is Some ==> (deletion_outcome(record, user) is Ok <==> is_member(
            record.unwrap().members@,
            user,
        )),
        record is Some && !is_member(record.unwrap().members@, user) ==> deletion_outcome(
            record,
            user,
        ) == Err::<i32, LifecycleError>(LifecycleError::Forbidden),
        record is Some && is_member(record.unwrap().members@, user) ==> deletion_outcome(
            record,
            user,
        ) == Ok::<i32, LifecycleError>(record.unwrap().relationship.id),
{
}

} // verus!
