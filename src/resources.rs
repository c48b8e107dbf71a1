use vstd::prelude::*;

use crate::seq_filter::lemma_filter_prefix_step;

verus! {

/// A named resource owned by one user: a workout or an exercise.
pub struct Resource {
    pub id: i64,
    pub uuid: String,
    pub user_id: i64,
    pub name: String,
    pub description: Option<String>,
    pub created_at: i64,
    pub updated_at: i64,
}

/// A resource before the store has given it an id.
pub struct NewResource {
    pub uuid: String,
    pub user_id: i64,
    pub name: String,
    pub description: Option<String>,
    pub created_at: i64,
    pub updated_at: i64,
}

/// A workout: a resource kept in its own store.
pub type Workout = Resource;

/// An exercise: a resource kept in its own store.
pub type Exercise = Resource;

pub type NewWorkout = NewResource;

pub type NewExercise = NewResource;

/// Failures of the resource operations. A resource of another user is
/// reported as absent.
#[derive(Debug, Clone, Copy, PartialEq, Eq, Structural)]
pub enum ResourceError {
    NotFound,
    DatabaseError,
}

impl Resource {
    /// A new resource of `user_id`, stamped `now`.
    pub fn new(user_id: i64, name: String, description: Option<String>, uuid: String, now: i64) -> (r: NewResource)
        ensures
            r.uuid == uuid,
            r.user_id == user_id,
            r.name == name,
            r.description == description,
            r.created_at == now,
            r.updated_at == now,
    {
        NewResource { uuid, user_id, name, description, created_at: now, updated_at: now }
    }

    /// A field-by-field copy.
    pub fn duplicate(&self) -> (r: Resource)
        ensures
            r == *self,
    {
        Resource {
            id: self.id,
            uuid: self.uuid.clone(),
            user_id: self.user_id,
            name: self.name.clone(),
            description: match &self.description {
                Some(d) => Some(d.clone()),
                None => None,
            },
            created_at: self.created_at,
            updated_at: self.updated_at,
        }
    }
}

/// Whether `r` is the resource `uuid` of `user_id`.
pub open spec fn owned_match(r: Resource, user_id: i64, uuid: Seq<char>) -> bool {
    r.user_id == user_id && r.uuid@ == uuid
}

/// Resources of `user_id`.
pub open spec fn owned_by(user_id: i64) -> spec_fn(Resource) -> bool {
    |r: Resource| r.user_id == user_id
}

/// Ids lie in `1..next_id`; ids and uuids are unique.
pub open spec fn resources_wf(records: Seq<Resource>, next_id: int) -> bool {
    &&& 1 <= next_id
    &&& forall|i: int| 0 <= i < records.len() ==> 1 <= #[trigger] records[i].id < next_id
    &&& forall|i: int, j: int|
        0 <= i < records.len() && 0 <= j < records.len() && i != j ==> #[trigger] records[i].id != #[trigger] records[j].id
    &&& forall|i: int, j: int|
        0 <= i < records.len() && 0 <= j < records.len() && i != j ==> #[trigger] records[i].uuid@ != #[trigger] records[j].uuid@
}

/// The position of the resource `uuid` of `user_id`, if there is one.
fn find_owned(records: &Vec<Resource>, user_id: i64, uuid: &String) -> (r: Option<usize>)
    ensures
        match r {
            Some(i) => i < records@.len() && owned_match(records@[i as int], user_id, uuid@),
            None => forall|j: int| 0 <= j < records@.len() ==> !owned_match(#[trigger] records@[j], user_id, uuid@),
        },
{
    let mut i: usize = 0;
    while i < records.len()
        invariant
            i <= records@.len(),
            forall|j: int| 0 <= j < i ==> !owned_match(#[trigger] records@[j], user_id, uuid@),
        decreases records@.len() - i,
    {
        if records[i].user_id == user_id && records[i].uuid == *uuid {
            return Some(i);
        }
        i = i + 1;
    }
    None
}

/// Whether some resource, of any user, carries `uuid`.
fn uuid_in_use(records: &Vec<Resource>, uuid: &String) -> (r: bool)
    ensures
        r == exists|j: int| 0 <= j < records@.len() && #[trigger] records@[j].uuid@ == uuid@,
{
    let mut i: usize = 0;
    while i < records.len()
        invariant
            i <= records@.len(),
            forall|j: int| 0 <= j < i ==> #[trigger] records@[j].uuid@ != uuid@,
        decreases records@.len() - i,
    {
        if records[i].uuid == *uuid {
            return true;
        }
        i = i + 1;
    }
    false
}

pub type WorkoutError = ResourceError;

pub type ExerciseError = ResourceError;

/// In-memory store of user-owned resources. Every operation is scoped by the
/// caller's user id: a resource of another user resolves as not found.
pub struct MemoryResourceRepository {
    records: Vec<Resource>,
    next_id: i64,
}

impl MemoryResourceRepository {
    pub closed spec fn records_view(&self) -> Seq<Resource> {
        self.records@
    }

    /// The id that the next stored resource receives.
    pub closed spec fn next_id_view(&self) -> int {
        self.next_id as int
    }

    pub open spec fn wf(&self) -> bool {
        resources_wf(self.records_view(), self.next_id_view())
    }

    /// An empty store.
    pub fn new() -> (r: MemoryResourceRepository)
        ensures
            r.wf(),
            r.records_view().len() == 0,
            r.next_id_view() == 1,
    {
        MemoryResourceRepository { records: Vec::new(), next_id: 1 }
    }

    /// Stores a new resource. A uuid already in use, or an exhausted id
    /// space, is a store failure that leaves the store as it was.
    pub fn create(&mut self, new_resource: NewResource) -> (r: Result<Resource, ResourceError>)
        requires
            old(self).wf(),
        ensures
            final(self).wf(),
            match r {
                Ok(res) => {
                    &&& res.id == old(self).next_id_view()
                    &&& res.uuid == new_resource.uuid
                    &&& res.user_id == new_resource.user_id
                    &&& res.name == new_resource.name
                    &&& res.description == new_resource.description
                    &&& res.created_at == new_resource.created_at
                    &&& res.updated_at == new_resource.updated_at
                    &&& final(self).records_view() == old(self).records_view().push(res)
                },
                Err(e) => {
                    &&& e == ResourceError::DatabaseError
                    &&& final(self).records_view() == old(self).records_view()
                    &&& ((exists|j: int|
                        0 <= j < old(self).records_view().len() && #[trigger] old(self).records_view()[j].uuid@
                            == new_resource.uuid@) || old(self).next_id_view() == i64::MAX)
                },
            },
            (forall|j: int|
                0 <= j < old(self).records_view().len() ==> #[trigger] old(self).records_view()[j].uuid@ != new_resource.uuid@)
                && old(self).next_id_view() < i64::MAX ==> r is Ok,
    {
        if uuid_in_use(&self.records, &new_resource.uuid) || self.next_id == i64::MAX {
            return Err(ResourceError::DatabaseError);
        }
        let ghost before = self.records@;
        let res = Resource {
            id: self.next_id,
            uuid: new_resource.uuid,
            user_id: new_resource.user_id,
            name: new_resource.name,
            description: new_resource.description,
            created_at: new_resource.created_at,
            updated_at: new_resource.updated_at,
        };
        self.records.push(res.duplicate());
        self.next_id = self.next_id + 1;
        proof {
            let records = self.records@;
            assert(records == before.push(res));
            assert forall|i: int| 0 <= i < records.len() implies 1 <= #[trigger] records[i].id < self.next_id by {
                if i < records.len() - 1 {
                    assert(records[i] == before[i]);
                }
            }
            assert forall|i: int, j: int|
                0 <= i < records.len() && 0 <= j < records.len() && i != j implies #[trigger] records[i].id != #[trigger] records[j].id by {
                if i < records.len() - 1 {
                    assert(records[i] == before[i]);
                }
                if j < records.len() - 1 {
                    assert(records[j] == before[j]);
                }
            }
            assert forall|i: int, j: int|
                0 <= i < records.len() && 0 <= j < records.len() && i != j implies #[trigger] records[i].uuid@ != #[trigger] records[j].uuid@ by {
                let last = records.len() - 1;
                if i < last {
                    assert(records[i] == before[i]);
                }
                if j < last {
                    assert(records[j] == before[j]);
                }
                if i == last {
                    assert(before[j].uuid@ != res.uuid@);
                }
                if j == last {
                    assert(before[i].uuid@ != res.uuid@);
                }
            }
        }
        Ok(res)
    }

    /// The resource `uuid` of `user_id`.
    pub fn get(&self, user_id: i64, uuid: &str) -> (r: Result<Resource, ResourceError>)
        requires
            self.wf(),
        ensures
            match r {
                Ok(res) => self.records_view().contains(res) && owned_match(res, user_id, uuid@),
                Err(e) => {
                    &&& e == ResourceError::NotFound
                    &&& forall|j: int| 0 <= j < self.records_view().len() ==> !owned_match(#[trigger] self.records_view()[j], user_id, uuid@)
                },
            },
    {
        let wanted: String = uuid.to_owned();
        match find_owned(&self.records, user_id, &wanted) {
            Some(i) => {
                assert(self.records_view()[i as int] == self.records@[i as int]);
                Ok(self.records[i].duplicate())
            },
            None => Err(ResourceError::NotFound),
        }
    }

    /// Every resource of `user_id`, in creation order.
    pub fn list(&self, user_id: i64) -> (r: Vec<Resource>)
        ensures
            r@ == self.records_view().filter(owned_by(user_id)),
    {
        let ghost keep = owned_by(user_id);
        let mut kept: Vec<Resource> = Vec::new();
        let mut i: usize = 0;
        while i < self.records.len()
            invariant
                i <= self.records@.len(),
                kept@ == self.records@.subrange(0, i as int).filter(keep),
                keep == owned_by(user_id),
            decreases self.records@.len() - i,
        {
            proof {
                lemma_filter_prefix_step(self.records@, i as int, keep);
            }
            if self.records[i].user_id == user_id {
                kept.push(self.records[i].duplicate());
            }
            i = i + 1;
        }
        assert(self.records@.subrange(0, i as int) =~= self.records@);
        kept
    }

    /// The resource with id `id`, of any user.
    pub fn find_by_id(&self, id: i64) -> (r: Option<Resource>)
        ensures
            match r {
                Some(res) => self.records_view().contains(res) && res.id == id,
                None => forall|j: int| 0 <= j < self.records_view().len() ==> #[trigger] self.records_view()[j].id != id,
            },
    {
        let mut i: usize = 0;
        while i < self.records.len()
            invariant
                i <= self.records@.len(),
                forall|j: int| 0 <= j < i ==> #[trigger] self.records@[j].id != id,
            decreases self.records@.len() - i,
        {
            if self.records[i].id == id {
                assert(self.records_view()[i as int] == self.records@[i as int]);
                return Some(self.records[i].duplicate());
            }
            i = i + 1;
        }
        None
    }

    /// Renames and re-describes the resource `uuid` of `user_id`; a field left
    /// out keeps its value.
    pub fn update(
        &mut self,
        user_id: i64,
        uuid: &str,
        name: Option<String>,
        description: Option<String>,
        now: i64,
    ) -> (r: Result<Resource, ResourceError>)
        requires
            old(self).wf(),
        ensures
            final(self).wf(),
            match r {
                Ok(res) => exists|k: int| #![trigger old(self).records_view()[k]] {
                    let before = old(self).records_view()[k];
                    &&& 0 <= k < old(self).records_view().len()
                    &&& owned_match(before, user_id, uuid@)
                    &&& res == Resource {
                        name: match name {
                            Some(n) => n,
                            None => before.name,
                        },
                        description: match description {
                            Some(d) => Some(d),
                            None => before.description,
                        },
                        updated_at: now,
                        ..before
                    }
                    &&& final(self).records_view() == old(self).records_view().update(k, res)
                },
                Err(e) => {
                    &&& e == ResourceError::NotFound
                    &&& final(self).records_view() == old(self).records_view()
                    &&& forall|j: int|
                        0 <= j < old(self).records_view().len() ==> !owned_match(#[trigger] old(self).records_view()[j], user_id, uuid@)
                },
            },
    {
        let wanted: String = uuid.to_owned();
        let k = match find_owned(&self.records, user_id, &wanted) {
            Some(k) => k,
            None => return Err(ResourceError::NotFound),
        };
        let ghost before = self.records@;
        let current = self.records[k].duplicate();
        let res = Resource {
            id: current.id,
            uuid: current.uuid,
            user_id: current.user_id,
            name: match name {
                Some(n) => n,
                None => current.name,
            },
            description: match description {
                Some(d) => Some(d),
                None => current.description,
            },
            created_at: current.created_at,
            updated_at: now,
        };
        self.records.set(k, res.duplicate());
        proof {
            let records = self.records@;
            assert(records == before.update(k as int, res));
            assert forall|i: int| 0 <= i < records.len() implies 1 <= #[trigger] records[i].id < self.next_id by {
                assert(records[i].id == before[i].id);
            }
            assert forall|i: int, j: int|
                0 <= i < records.len() && 0 <= j < records.len() && i != j implies #[trigger] records[i].id != #[trigger] records[j].id by {
                assert(records[i].id == before[i].id);
                assert(records[j].id == before[j].id);
            }
            assert forall|i: int, j: int|
                0 <= i < records.len() && 0 <= j < records.len() && i != j implies #[trigger] records[i].uuid@ != #[trigger] records[j].uuid@ by {
                assert(records[i].uuid == before[i].uuid);
                assert(records[j].uuid == before[j].uuid);
            }
        }
        Ok(res)
    }

    /// Deletes the resource `uuid` of `user_id`.
    pub fn delete(&mut self, user_id: i64, uuid: &str) -> (r: Result<(), ResourceError>)
        requires
            old(self).wf(),
        ensures
            final(self).wf(),
            match r {
                Ok(()) => exists|k: int| #![trigger old(self).records_view()[k]] {
                    &&& 0 <= k < old(self).records_view().len()
                    &&& owned_match(old(self).records_view()[k], user_id, uuid@)
                    &&& final(self).records_view() == old(self).records_view().remove(k)
                },
                Err(e) => {
                    &&& e == ResourceError::NotFound
                    &&& final(self).records_view() == old(self).records_view()
                    &&& forall|j: int|
                        0 <= j < old(self).records_view().len() ==> !owned_match(#[trigger] old(self).records_view()[j], user_id, uuid@)
                },
            },
    {
        let wanted: String = uuid.to_owned();
        let k = match find_owned(&self.records, user_id, &wanted) {
            Some(k) => k,
            None => return Err(ResourceError::NotFound),
        };
        let ghost before = self.records@;
        self.records.remove(k);
        proof {
            let records = self.records@;
            assert(records == before.remove(k as int));
            assert forall|i: int| 0 <= i < records.len() implies #[trigger] records[i] == before[if i < k { i } else { i + 1 }] by {}
            assert forall|i: int| 0 <= i < records.len() implies 1 <= #[trigger] records[i].id < self.next_id by {
                assert(records[i] == before[if i < k { i } else { i + 1 }]);
            }
            assert forall|i: int, j: int|
                0 <= i < records.len() && 0 <= j < records.len() && i != j implies #[trigger] records[i].id != #[trigger] records[j].id by {
                assert(records[i] == before[if i < k { i } else { i + 1 }]);
                assert(records[j] == before[if j < k { j } else { j + 1 }]);
            }
            assert forall|i: int, j: int|
                0 <= i < records.len() && 0 <= j < records.len() && i != j implies #[trigger] records[i].uuid@ != #[trigger] records[j].uuid@ by {
                assert(records[i] == before[if i < k { i } else { i + 1 }]);
                assert(records[j] == before[if j < k { j } else { j + 1 }]);
            }
        }
        Ok(())
    }
}

/// A resource that belongs to one user is absent for every other user: no
/// lookup, update or deletion scoped to another user id can reach it.
pub proof fn lemma_other_tenant_sees_nothing(repo: MemoryResourceRepository, k: int, other_user: i64)
    requires
        repo.wf(),
        0 <= k < repo.records_view().len(),
        repo.records_view()[k].user_id != other_user,
    ensures
        forall|j: int|
            0 <= j < repo.records_view().len() ==> !owned_match(
                #[trigger] repo.records_view()[j],
                other_user,
                repo.records_view()[k].uuid@,
            ),
{
    let records = repo.records_view();
    assert forall|j: int| 0 <= j < records.len() implies !owned_match(#[trigger] records[j], other_user, records[k].uuid@) by {
        if j != k {
            assert(records[j].uuid@ != records[k].uuid@);
        }
    }
}

/// A user's resource is determined by its uuid.
pub proof fn lemma_owned_unique(repo: MemoryResourceRepository, a: Resource, b: Resource, user_id: i64, uuid: Seq<char>)
    requires
        repo.wf(),
        repo.records_view().contains(a),
        repo.records_view().contains(b),
        owned_match(a, user_id, uuid),
        owned_match(b, user_id, uuid),
    ensures
        a == b,
{
    let records = repo.records_view();
    let i = choose|i: int| 0 <= i < records.len() && records[i] == a;
    let j = choose|j: int| 0 <= j < records.len() && records[j] == b;
    if i != j {
        assert(records[i].uuid@ != records[j].uuid@);
    }
}

} // verus!
