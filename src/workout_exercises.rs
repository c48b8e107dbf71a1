use vstd::prelude::*;

use crate::resources::{lemma_owned_unique, owned_match, MemoryResourceRepository, Resource};

verus! {

/// An exercise placed in a workout at a position, owned by one user.
#[derive(Debug, Clone, Copy, PartialEq, Eq, Structural)]
pub struct WorkoutExercise {
    pub workout_id: i64,
    pub exercise_id: i64,
    pub user_id: i64,
    pub order: i32,
}

/// Failures of the workout composition operations.
#[derive(Debug, Clone, Copy, PartialEq, Eq, Structural)]
pub enum WorkoutExerciseError {
    DatabaseError,
    NotFound,
    WorkoutNotFound,
    ExerciseNotFound,
}

/// Whether the user owns a resource with `uuid` in `records`.
pub open spec fn owns(records: Seq<Resource>, user_id: i64, uuid: Seq<char>) -> bool {
    exists|j: int| 0 <= j < records.len() && owned_match(#[trigger] records[j], user_id, uuid)
}

/// Whether `link` places exercise `exercise_id` in workout `workout_id` for `user_id`.
pub open spec fn link_matches(link: WorkoutExercise, user_id: i64, workout_id: i64, exercise_id: i64) -> bool {
    link.user_id == user_id && link.workout_id == workout_id && link.exercise_id == exercise_id
}

/// Links other than those of `user_id` between `workout_id` and `exercise_id`.
pub open spec fn link_other_than(user_id: i64, workout_id: i64, exercise_id: i64) -> spec_fn(WorkoutExercise) -> bool {
    |link: WorkoutExercise| !link_matches(link, user_id, workout_id, exercise_id)
}

/// Whether a resource with id `id` exists in `records`.
pub open spec fn id_present(records: Seq<Resource>, id: i64) -> bool {
    exists|x: int| 0 <= x < records.len() && #[trigger] records[x].id == id
}

/// Whether `listing` holds the exercise `exercise_id` at position `order`.
pub open spec fn listed(listing: Seq<(Resource, i32)>, exercise_id: i64, order: i32) -> bool {
    exists|k: int| 0 <= k < listing.len() && #[trigger] listing[k].0.id == exercise_id && listing[k].1 == order
}

/// In-memory store of workout compositions. A workout holds an exercise at
/// most once.
pub struct MemoryWorkoutExerciseRepository {
    links: Vec<WorkoutExercise>,
}

impl MemoryWorkoutExerciseRepository {
    pub closed spec fn links_view(&self) -> Seq<WorkoutExercise> {
        self.links@
    }

    /// An empty store.
    pub fn new() -> (r: MemoryWorkoutExerciseRepository)
        ensures
            r.links_view().len() == 0,
    {
        MemoryWorkoutExerciseRepository { links: Vec::new() }
    }

    /// Whether a link between the two ids exists, for any user.
    fn holds_pair(&self, workout_id: i64, exercise_id: i64) -> (r: bool)
        ensures
            r == exists|j: int|
                0 <= j < self.links@.len() && #[trigger] self.links@[j].workout_id == workout_id && self.links@[j].exercise_id
                    == exercise_id,
    {
        let mut i: usize = 0;
        while i < self.links.len()
            invariant
                i <= self.links@.len(),
                forall|j: int| 0 <= j < i ==> !(#[trigger] self.links@[j].workout_id == workout_id && self.links@[j].exercise_id == exercise_id),
            decreases self.links@.len() - i,
        {
            if self.links[i].workout_id == workout_id && self.links[i].exercise_id == exercise_id {
                return true;
            }
            i = i + 1;
        }
        false
    }

    /// Places the user's exercise `exercise_uuid` in the user's workout
    /// `workout_uuid` at position `order`.
    pub fn add_exercise_to_workout(
        &mut self,
        workouts: &MemoryResourceRepository,
        exercises: &MemoryResourceRepository,
        user_id: i64,
        workout_uuid: &str,
        exercise_uuid: &str,
        order: i32,
    ) -> (r: Result<(), WorkoutExerciseError>)
        requires
            workouts.wf(),
            exercises.wf(),
        ensures
            !owns(workouts.records_view(), user_id, workout_uuid@) ==> r == Err::<(), WorkoutExerciseError>(
                WorkoutExerciseError::WorkoutNotFound,
            ),
            owns(workouts.records_view(), user_id, workout_uuid@) && !owns(exercises.records_view(), user_id, exercise_uuid@)
                ==> r == Err::<(), WorkoutExerciseError>(WorkoutExerciseError::ExerciseNotFound),
            match r {
                Ok(()) => exists|w: Resource, e: Resource| {
                    &&& #[trigger] workouts.records_view().contains(w)
                    &&& owned_match(w, user_id, workout_uuid@)
                    &&& #[trigger] exercises.records_view().contains(e)
                    &&& owned_match(e, user_id, exercise_uuid@)
                    &&& final(self).links_view() == old(self).links_view().push(
                        WorkoutExercise { workout_id: w.id, exercise_id: e.id, user_id, order },
                    )
                },
                Err(_) => final(self).links_view() == old(self).links_view(),
            },
            (exists|w: Resource, e: Resource| {
                &&& #[trigger] workouts.records_view().contains(w)
                &&& owned_match(w, user_id, workout_uuid@)
                &&& #[trigger] exercises.records_view().contains(e)
                &&& owned_match(e, user_id, exercise_uuid@)
                &&& forall|j: int|
                    0 <= j < old(self).links_view().len() ==> !(#[trigger] old(self).links_view()[j].workout_id == w.id
                        && old(self).links_view()[j].exercise_id == e.id)
            }) ==> r is Ok,
    {
        let workout = match workouts.get(user_id, workout_uuid) {
            Ok(w) => w,
            Err(_) => return Err(WorkoutExerciseError::WorkoutNotFound),
        };
        let exercise = match exercises.get(user_id, exercise_uuid) {
            Ok(e) => e,
            Err(_) => return Err(WorkoutExerciseError::ExerciseNotFound),
        };
        if self.holds_pair(workout.id, exercise.id) {
            proof {
                let links = old(self).links_view();
                assert(links == self.links@);
                let j = choose|j: int|
                    0 <= j < self.links@.len() && #[trigger] self.links@[j].workout_id == workout.id && self.links@[j].exercise_id
                        == exercise.id;
                if exists|w: Resource, e: Resource| {
                    &&& #[trigger] workouts.records_view().contains(w)
                    &&& owned_match(w, user_id, workout_uuid@)
                    &&& #[trigger] exercises.records_view().contains(e)
                    &&& owned_match(e, user_id, exercise_uuid@)
                    &&& forall|jj: int| 0 <= jj < links.len() ==> !(#[trigger] links[jj].workout_id == w.id && links[jj].exercise_id == e.id)
                } {
                    let (w, e) = choose|w: Resource, e: Resource| {
                        &&& #[trigger] workouts.records_view().contains(w)
                        &&& owned_match(w, user_id, workout_uuid@)
                        &&& #[trigger] exercises.records_view().contains(e)
                        &&& owned_match(e, user_id, exercise_uuid@)
                        &&& forall|jj: int| 0 <= jj < links.len() ==> !(#[trigger] links[jj].workout_id == w.id && links[jj].exercise_id == e.id)
                    };
                    lemma_owned_unique(*workouts, w, workout, user_id, workout_uuid@);
                    lemma_owned_unique(*exercises, e, exercise, user_id, exercise_uuid@);
                    assert(links[j].workout_id == w.id);
                }
            }
            return Err(WorkoutExerciseError::DatabaseError);
        }
        self.links.push(WorkoutExercise { workout_id: workout.id, exercise_id: exercise.id, user_id, order });
        Ok(())
    }

    /// Takes the user's exercise `exercise_uuid` out of the user's workout
    /// `workout_uuid`.
    pub fn remove_exercise_from_workout(
        &mut self,
        workouts: &MemoryResourceRepository,
        exercises: &MemoryResourceRepository,
        user_id: i64,
        workout_uuid: &str,
        exercise_uuid: &str,
    ) -> (r: Result<(), WorkoutExerciseError>)
        requires
            workouts.wf(),
            exercises.wf(),
        ensures
            !owns(workouts.records_view(), user_id, workout_uuid@) ==> r == Err::<(), WorkoutExerciseError>(
                WorkoutExerciseError::WorkoutNotFound,
            ),
            owns(workouts.records_view(), user_id, workout_uuid@) && !owns(exercises.records_view(), user_id, exercise_uuid@)
                ==> r == Err::<(), WorkoutExerciseError>(WorkoutExerciseError::ExerciseNotFound),
            match r {
                Ok(()) => exists|w: Resource, e: Resource| {
                    &&& #[trigger] workouts.records_view().contains(w)
                    &&& owned_match(w, user_id, workout_uuid@)
                    &&& #[trigger] exercises.records_view().contains(e)
                    &&& owned_match(e, user_id, exercise_uuid@)
                    &&& exists|j: int|
                        0 <= j < old(self).links_view().len() && link_matches(#[trigger] old(self).links_view()[j], user_id, w.id, e.id)
                    &&& final(self).links_view() == old(self).links_view().filter(link_other_than(user_id, w.id, e.id))
                },
                Err(e) => {
                    &&& final(self).links_view() == old(self).links_view()
                    &&& e != WorkoutExerciseError::DatabaseError
                },
            },
            (exists|w: Resource, e: Resource| {
                &&& #[trigger] workouts.records_view().contains(w)
                &&& owned_match(w, user_id, workout_uuid@)
                &&& #[trigger] exercises.records_view().contains(e)
                &&& owned_match(e, user_id, exercise_uuid@)
                &&& exists|j: int|
                    0 <= j < old(self).links_view().len() && link_matches(#[trigger] old(self).links_view()[j], user_id, w.id, e.id)
            }) ==> r is Ok,
    {
        let workout = match workouts.get(user_id, workout_uuid) {
            Ok(w) => w,
            Err(_) => return Err(WorkoutExerciseError::WorkoutNotFound),
        };
        let exercise = match exercises.get(user_id, exercise_uuid) {
            Ok(e) => e,
            Err(_) => return Err(WorkoutExerciseError::ExerciseNotFound),
        };
        proof {
            if exists|w: Resource, e: Resource| {
                &&& #[trigger] workouts.records_view().contains(w)
                &&& owned_match(w, user_id, workout_uuid@)
                &&& #[trigger] exercises.records_view().contains(e)
                &&& owned_match(e, user_id, exercise_uuid@)
                &&& exists|j: int|
                    0 <= j < self.links@.len() && link_matches(#[trigger] self.links@[j], user_id, w.id, e.id)
            } {
                let (w, e) = choose|w: Resource, e: Resource| {
                    &&& #[trigger] workouts.records_view().contains(w)
                    &&& owned_match(w, user_id, workout_uuid@)
                    &&& #[trigger] exercises.records_view().contains(e)
                    &&& owned_match(e, user_id, exercise_uuid@)
                    &&& exists|j: int|
                        0 <= j < self.links@.len() && link_matches(#[trigger] self.links@[j], user_id, w.id, e.id)
                };
                lemma_owned_unique(*workouts, w, workout, user_id, workout_uuid@);
                lemma_owned_unique(*exercises, e, exercise, user_id, exercise_uuid@);
            }
        }
        let ghost keep = link_other_than(user_id, workout.id, exercise.id);
        let mut kept: Vec<WorkoutExercise> = Vec::new();
        let mut removed: bool = false;
        let mut i: usize = 0;
        while i < self.links.len()
            invariant
                i <= self.links@.len(),
                kept@ == self.links@.subrange(0, i as int).filter(keep),
                keep == link_other_than(user_id, workout.id, exercise.id),
                removed == exists|j: int| 0 <= j < i && link_matches(#[trigger] self.links@[j], user_id, workout.id, exercise.id),
            decreases self.links@.len() - i,
        {
            proof {
                crate::seq_filter::lemma_filter_prefix_step(self.links@, i as int, keep);
            }
            let link = self.links[i];
            if link.user_id == user_id && link.workout_id == workout.id && link.exercise_id == exercise.id {
                removed = true;
            } else {
                kept.push(link);
            }
            i = i + 1;
        }
        assert(self.links@.subrange(0, i as int) =~= self.links@);
        if !removed {
            return Err(WorkoutExerciseError::NotFound);
        }
        self.links = kept;
        Ok(())
    }

    /// The exercises of the user's workout `workout_uuid` with their
    /// positions, in the order they were added.
    pub fn list_workout_exercises(
        &self,
        workouts: &MemoryResourceRepository,
        exercises: &MemoryResourceRepository,
        user_id: i64,
        workout_uuid: &str,
    ) -> (r: Result<Vec<(Resource, i32)>, WorkoutExerciseError>)
        requires
            workouts.wf(),
            exercises.wf(),
        ensures
            !owns(workouts.records_view(), user_id, workout_uuid@) ==> r == Err::<Vec<(Resource, i32)>, WorkoutExerciseError>(
                WorkoutExerciseError::WorkoutNotFound,
            ),
            match r {
                Ok(v) => exists|w: Resource| {
                    &&& #[trigger] workouts.records_view().contains(w)
                    &&& owned_match(w, user_id, workout_uuid@)
                    &&& forall|k: int| 0 <= k < v@.len() ==> {
                        &&& exercises.records_view().contains(#[trigger] v@[k].0)
                        &&& self.links_view().contains(
                            WorkoutExercise { workout_id: w.id, exercise_id: v@[k].0.id, user_id, order: v@[k].1 },
                        )
                    }
                    &&& forall|j: int|
                        0 <= j < self.links_view().len() && #[trigger] self.links_view()[j].user_id == user_id
                            && self.links_view()[j].workout_id == w.id && id_present(
                            exercises.records_view(),
                            self.links_view()[j].exercise_id,
                        ) ==> listed(v@, self.links_view()[j].exercise_id, self.links_view()[j].order)
                },
                Err(e) => e == WorkoutExerciseError::WorkoutNotFound && !owns(workouts.records_view(), user_id, workout_uuid@),
            },
    {
        let workout = match workouts.get(user_id, workout_uuid) {
            Ok(w) => w,
            Err(_) => return Err(WorkoutExerciseError::WorkoutNotFound),
        };
        let mut out: Vec<(Resource, i32)> = Vec::new();
        let mut i: usize = 0;
        while i < self.links.len()
            invariant
                i <= self.links@.len(),
                exercises.wf(),
                forall|k: int| 0 <= k < out@.len() ==> {
                    &&& exercises.records_view().contains(#[trigger] out@[k].0)
                    &&& self.links@.contains(
                        WorkoutExercise { workout_id: workout.id, exercise_id: out@[k].0.id, user_id, order: out@[k].1 },
                    )
                },
                forall|j: int|
                    0 <= j < i && #[trigger] self.links@[j].user_id == user_id && self.links@[j].workout_id == workout.id
                        && id_present(exercises.records_view(), self.links@[j].exercise_id) ==> listed(
                        out@,
                        self.links@[j].exercise_id,
                        self.links@[j].order,
                    ),
            decreases self.links@.len() - i,
        {
            let link = self.links[i];
            let ghost before = out@;
            if link.user_id == user_id && link.workout_id == workout.id {
                match exercises.find_by_id(link.exercise_id) {
                    Some(exercise) => {
                        assert(self.links@.contains(link)) by {
                            assert(self.links@[i as int] == link);
                        }
                        out.push((exercise, link.order));
                        proof {
                            assert(out@[out@.len() - 1].0.id == link.exercise_id);
                            assert forall|j: int|
                                0 <= j <= i && #[trigger] self.links@[j].user_id == user_id && self.links@[j].workout_id == workout.id
                                    && id_present(exercises.records_view(), self.links@[j].exercise_id) implies listed(
                                    out@,
                                    self.links@[j].exercise_id,
                                    self.links@[j].order,
                                ) by {
                                if j < i {
                                    let k = choose|k: int|
                                        0 <= k < before.len() && #[trigger] before[k].0.id == self.links@[j].exercise_id
                                            && before[k].1 == self.links@[j].order;
                                    assert(out@[k] == before[k]);
                                } else {
                                    assert(self.links@[j] == link);
                                }
                            }
                        }
                    },
                    None => {
                        assert(!id_present(exercises.records_view(), link.exercise_id));
                    },
                }
            }
            i = i + 1;
        }
        Ok(out)
    }
}

} // verus!
