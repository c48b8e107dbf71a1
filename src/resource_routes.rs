use vstd::prelude::*;

use crate::entropy::random_uuid_string;
use crate::resources::{owned_by, owned_match, MemoryResourceRepository, Resource, ResourceError};
use crate::workout_exercises::{owns, MemoryWorkoutExerciseRepository, WorkoutExerciseError};

verus! {

/// Body of a resource creation request.
pub struct CreateResource {
    pub name: String,
    pub description: Option<String>,
}

/// Body of a resource update request; a field left out keeps its value.
pub struct UpdateResource {
    pub name: Option<String>,
    pub description: Option<String>,
}

pub type CreateWorkout = CreateResource;

pub type CreateExercise = CreateResource;

pub type UpdateWorkout = UpdateResource;

pub type UpdateExercise = UpdateResource;

/// Body of a request placing an exercise in a workout.
pub struct AddExerciseRequest {
    pub exercise_uuid: String,
    pub order: i32,
}

/// A resource as the client sees it.
pub struct ResourceResponse {
    pub uuid: String,
    pub name: String,
    pub description: Option<String>,
}

impl ResourceResponse {
    pub open spec fn of(r: Resource) -> ResourceResponse {
        ResourceResponse { uuid: r.uuid, name: r.name, description: r.description }
    }

    pub fn from(r: &Resource) -> (out: ResourceResponse)
        ensures
            out == Self::of(*r),
    {
        let d = r.duplicate();
        ResourceResponse { uuid: d.uuid, name: d.name, description: d.description }
    }
}

pub type WorkoutResponse = ResourceResponse;

pub type ExerciseResponse = ResourceResponse;

/// How a resource endpoint answers.
pub enum ResourceReply {
    /// `status` with one resource as body.
    One { status: u16, body: ResourceResponse },
    /// 200 with a list of resources as body.
    Many(Vec<ResourceResponse>),
    /// `status` with an empty body.
    Empty(u16),
}

/// The status for a failed resource operation.
pub fn resource_error_status(e: ResourceError) -> (r: u16)
    ensures
        r == (if e == ResourceError::NotFound { 404u16 } else { 500u16 }),
{
    match e {
        ResourceError::NotFound => 404,
        ResourceError::DatabaseError => 500,
    }
}

/// The status for a failed composition operation: any missing piece is 404.
pub fn link_error_status(e: WorkoutExerciseError) -> (r: u16)
    ensures
        r == (if e == WorkoutExerciseError::DatabaseError { 500u16 } else { 404u16 }),
{
    match e {
        WorkoutExerciseError::DatabaseError => 500,
        _ => 404,
    }
}

/// `POST`: creates a resource of `user_id` under a fresh uuid, stamped `now`;
/// 201 with it.
pub fn create_resource(repo: &mut MemoryResourceRepository, user_id: i64, request: CreateResource, now: i64) -> (r: ResourceReply)
    requires
        old(repo).wf(),
    ensures
        final(repo).wf(),
        match r {
            ResourceReply::One { status, body } => {
                let created = final(repo).records_view().last();
                &&& status == 201
                &&& final(repo).records_view() == old(repo).records_view().push(created)
                &&& created.user_id == user_id
                &&& created.name == request.name
                &&& created.description == request.description
                &&& created.uuid@.len() == 36
                &&& created.created_at == now
                &&& body == ResourceResponse::of(created)
            },
            ResourceReply::Empty(status) => status == 500 && final(repo).records_view() == old(repo).records_view(),
            ResourceReply::Many(_) => false,
        },
{
    let uuid = random_uuid_string();
    match repo.create(Resource::new(user_id, request.name, request.description, uuid, now)) {
        Ok(created) => {
            assert(repo.records_view().last() == created);
            ResourceReply::One { status: 201, body: ResourceResponse::from(&created) }
        },
        Err(e) => ResourceReply::Empty(resource_error_status(e)),
    }
}

/// `GET` on the collection: 200 with every resource of `user_id`.
pub fn list_resources(repo: &MemoryResourceRepository, user_id: i64) -> (r: ResourceReply)
    ensures
        match r {
            ResourceReply::Many(items) => {
                let mine = repo.records_view().filter(owned_by(user_id));
                &&& items@.len() == mine.len()
                &&& forall|k: int| 0 <= k < items@.len() ==> #[trigger] items@[k] == ResourceResponse::of(mine[k])
            },
            _ => false,
        },
{
    let mine = repo.list(user_id);
    let mut items: Vec<ResourceResponse> = Vec::new();
    let mut i: usize = 0;
    while i < mine.len()
        invariant
            i <= mine@.len(),
            items@.len() == i,
            forall|k: int| 0 <= k < i ==> #[trigger] items@[k] == ResourceResponse::of(mine@[k]),
        decreases mine@.len() - i,
    {
        items.push(ResourceResponse::from(&mine[i]));
        i = i + 1;
    }
    ResourceReply::Many(items)
}

/// `GET` on one resource: 200 with it, 404 when `user_id` has no such resource.
pub fn get_resource(repo: &MemoryResourceRepository, user_id: i64, uuid: &str) -> (r: ResourceReply)
    requires
        repo.wf(),
    ensures
        match r {
            ResourceReply::One { status, body } => {
                &&& status == 200
                &&& exists|res: Resource|
                    #[trigger] repo.records_view().contains(res) && owned_match(res, user_id, uuid@) && body == ResourceResponse::of(res)
            },
            ResourceReply::Empty(status) => status == 404 && !owns(repo.records_view(), user_id, uuid@),
            ResourceReply::Many(_) => false,
        },
{
    match repo.get(user_id, uuid) {
        Ok(res) => ResourceReply::One { status: 200, body: ResourceResponse::from(&res) },
        Err(e) => ResourceReply::Empty(resource_error_status(e)),
    }
}

/// `PUT`: updates the resource of `user_id`, stamped `now`; 200 with it, 404
/// when absent.
pub fn update_resource(
    repo: &mut MemoryResourceRepository,
    user_id: i64,
    uuid: &str,
    request: UpdateResource,
    now: i64,
) -> (r: ResourceReply)
    requires
        old(repo).wf(),
    ensures
        final(repo).wf(),
        match r {
            ResourceReply::One { status, body } => {
                &&& status == 200
                &&& owns(old(repo).records_view(), user_id, uuid@)
                &&& final(repo).records_view().len() == old(repo).records_view().len()
                &&& body.uuid@ == uuid@
                &&& request.name matches Some(n) ==> body.name == n
                &&& request.description matches Some(d) ==> body.description == Some(d)
            },
            ResourceReply::Empty(status) => {
                &&& status == 404
                &&& !owns(old(repo).records_view(), user_id, uuid@)
                &&& final(repo).records_view() == old(repo).records_view()
            },
            ResourceReply::Many(_) => false,
        },
{
    match repo.update(user_id, uuid, request.name, request.description, now) {
        Ok(res) => ResourceReply::One { status: 200, body: ResourceResponse::from(&res) },
        Err(e) => ResourceReply::Empty(resource_error_status(e)),
    }
}

/// `DELETE`: 204 once the resource of `user_id` is gone, 404 when absent.
pub fn delete_resource(repo: &mut MemoryResourceRepository, user_id: i64, uuid: &str) -> (r: ResourceReply)
    requires
        old(repo).wf(),
    ensures
        final(repo).wf(),
        match r {
            ResourceReply::Empty(status) => {
                &&& status == 204 ==> owns(old(repo).records_view(), user_id, uuid@) && final(repo).records_view().len()
                    == old(repo).records_view().len() - 1
                &&& status == 404 ==> !owns(old(repo).records_view(), user_id, uuid@) && final(repo).records_view()
                    == old(repo).records_view()
                &&& status == 204 || status == 404
            },
            _ => false,
        },
{
    match repo.delete(user_id, uuid) {
        Ok(()) => ResourceReply::Empty(204),
        Err(e) => ResourceReply::Empty(resource_error_status(e)),
    }
}

/// `POST` on a workout's exercises: 200 once placed, 404 when the workout or
/// the exercise is not the user's, 500 when already placed.
pub fn add_exercise_to_workout(
    links: &mut MemoryWorkoutExerciseRepository,
    workouts: &MemoryResourceRepository,
    exercises: &MemoryResourceRepository,
    user_id: i64,
    workout_uuid: &str,
    exercise_uuid: &str,
    order: i32,
) -> (r: u16)
    requires
        workouts.wf(),
        exercises.wf(),
    ensures
        r == 200 || r == 404 || r == 500,
        !owns(workouts.records_view(), user_id, workout_uuid@) || !owns(exercises.records_view(), user_id, exercise_uuid@)
            ==> r == 404,
        r != 200 ==> final(links).links_view() == old(links).links_view(),
        r == 200 ==> final(links).links_view().len() == old(links).links_view().len() + 1,
{
    match links.add_exercise_to_workout(workouts, exercises, user_id, workout_uuid, exercise_uuid, order) {
        Ok(()) => 200,
        Err(e) => link_error_status(e),
    }
}

/// `DELETE` on a workout's exercise: 200 once removed, 404 when a piece is
/// missing or not the user's.
pub fn remove_exercise_from_workout(
    links: &mut MemoryWorkoutExerciseRepository,
    workouts: &MemoryResourceRepository,
    exercises: &MemoryResourceRepository,
    user_id: i64,
    workout_uuid: &str,
    exercise_uuid: &str,
) -> (r: u16)
    requires
        workouts.wf(),
        exercises.wf(),
    ensures
        r == 200 || r == 404,
        !owns(workouts.records_view(), user_id, workout_uuid@) || !owns(exercises.records_view(), user_id, exercise_uuid@)
            ==> r == 404,
        r == 404 ==> final(links).links_view() == old(links).links_view(),
{
    match links.remove_exercise_from_workout(workouts, exercises, user_id, workout_uuid, exercise_uuid) {
        Ok(()) => 200,
        Err(e) => link_error_status(e),
    }
}

} // verus!
