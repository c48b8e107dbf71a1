use workout_auth::auth_repository::MemoryAuthRepository;
use workout_auth::http::GateVerdict;
use workout_auth::models::{Session, User};
use workout_auth::resource_routes::{
    add_exercise_to_workout, create_resource, delete_resource, get_resource, link_error_status, list_resources,
    remove_exercise_from_workout, update_resource, CreateResource, ResourceReply, UpdateResource,
};
use workout_auth::resources::{MemoryResourceRepository, Resource, ResourceError};
use workout_auth::session_gate::{SessionMiddleware, SessionProtection};
use workout_auth::workout_exercises::{MemoryWorkoutExerciseRepository, WorkoutExerciseError};

const T0: i64 = 1_700_000_000_000;

/// Accounts with live sessions "user1-session", "user2-session" and "test-session".
struct Tenants {
    auth: MemoryAuthRepository,
    gate: SessionMiddleware,
}

impl Tenants {
    fn new() -> Tenants {
        let mut auth = MemoryAuthRepository::new();
        let accounts = [("one@example.com", "user1-session"), ("two@example.com", "user2-session"), ("three@example.com", "test-session")];
        for (email, token) in accounts {
            let user = auth.insert_user(User::new(email.to_string(), "h".to_string(), email.to_string(), T0)).unwrap();
            auth.insert_session(Session::new(user.id, token.to_string(), "test-csrf".to_string(), T0)).unwrap();
        }
        Tenants { auth, gate: SessionProtection::new().new_transform() }
    }

    fn user(&mut self, cookie: &str) -> i64 {
        match self.gate.call(&mut self.auth, "/workouts", Some(cookie.to_string()), T0 + 1) {
            GateVerdict::ForwardAs(user_id) => user_id,
            other => panic!("session refused: {:?}", other),
        }
    }
}

fn create(repo: &mut MemoryResourceRepository, user_id: i64, name: &str, description: &str) -> (u16, String, String) {
    let request = CreateResource { name: name.to_string(), description: Some(description.to_string()) };
    match create_resource(repo, user_id, request, T0) {
        ResourceReply::One { status, body } => (status, body.uuid, body.name),
        _ => panic!("expected one resource"),
    }
}

fn status(reply: &ResourceReply) -> u16 {
    match reply {
        ResourceReply::One { status, .. } => *status,
        ResourceReply::Many(_) => 200,
        ResourceReply::Empty(status) => *status,
    }
}

fn listed_uuids(reply: ResourceReply) -> Vec<String> {
    match reply {
        ResourceReply::Many(items) => items.into_iter().map(|item| item.uuid).collect(),
        _ => panic!("expected a list"),
    }
}

fn update(name: &str, description: &str) -> UpdateResource {
    UpdateResource { name: Some(name.to_string()), description: Some(description.to_string()) }
}

fn crud(session: &str, name: &str, description: &str, new_name: &str, new_description: &str) {
    let mut tenants = Tenants::new();
    let user_id = tenants.user(session);
    let mut repo = MemoryResourceRepository::new();

    let (code, uuid, created_name) = create(&mut repo, user_id, name, description);
    assert_eq!(code, 201);
    assert_eq!(created_name, name);
    assert!(uuid.len() > 0);

    let listed = listed_uuids(list_resources(&repo, user_id));
    assert_eq!(listed.len(), 1);
    assert_eq!(listed[0], uuid);

    let reply = get_resource(&repo, user_id, &uuid);
    assert_eq!(status(&reply), 200);

    let reply = update_resource(&mut repo, user_id, &uuid, update(new_name, new_description), T0 + 1);
    assert_eq!(status(&reply), 200);
    match reply {
        ResourceReply::One { body, .. } => {
            assert_eq!(body.name, new_name);
            assert_eq!(body.description.as_deref(), Some(new_description));
        }
        _ => panic!("expected one resource"),
    }

    assert_eq!(status(&delete_resource(&mut repo, user_id, &uuid)), 204);
    assert_eq!(status(&get_resource(&repo, user_id, &uuid)), 404);
}

fn isolation(session1: &str, session2: &str, name1: &str, name2: &str) {
    let mut tenants = Tenants::new();
    let user1 = tenants.user(session1);
    let user2 = tenants.user(session2);
    let mut repo = MemoryResourceRepository::new();

    let (code, uuid1, _) = create(&mut repo, user1, name1, "Test Description");
    assert_eq!(code, 201);
    let (code, uuid2, _) = create(&mut repo, user2, name2, "Test Description");
    assert_eq!(code, 201);

    let listed = listed_uuids(list_resources(&repo, user1));
    assert_eq!(listed, vec![uuid1.clone()]);
    let listed = listed_uuids(list_resources(&repo, user2));
    assert_eq!(listed, vec![uuid2.clone()]);

    assert_eq!(status(&get_resource(&repo, user2, &uuid1)), 404);
    let hacked = update("Hacked Workout", "Hacked Description");
    assert_eq!(status(&update_resource(&mut repo, user2, &uuid1, hacked, T0 + 1)), 404);
    assert_eq!(status(&delete_resource(&mut repo, user2, &uuid1)), 404);
    assert_eq!(status(&get_resource(&repo, user1, &uuid1)), 200);
}

#[test]
fn test_workout_crud() {
    crud("test-session", "Test Workout", "Test Description", "Updated Workout", "Updated Description");
}

#[test]
fn test_workout_isolation() {
    isolation("user1-session", "user2-session", "User 1 Workout", "User 2 Workout");
}

#[test]
fn test_exercise_crud() {
    crud("user1-session", "Push-ups", "Basic bodyweight exercise", "Diamond Push-ups", "Advanced variation");
}

#[test]
fn test_exercise_isolation() {
    isolation("user1-session", "user2-session", "User 1 Exercise", "User 2 Exercise");
}

struct Catalogue {
    workouts: MemoryResourceRepository,
    exercises: MemoryResourceRepository,
    links: MemoryWorkoutExerciseRepository,
    workout_uuid: String,
    exercise_uuid: String,
}

fn catalogue(user_id: i64) -> Catalogue {
    let mut workouts = MemoryResourceRepository::new();
    let mut exercises = MemoryResourceRepository::new();
    let workout_uuid = workouts
        .create(Resource::new(user_id, "Test Workout 1".to_string(), None, "w-1".to_string(), T0))
        .unwrap()
        .uuid;
    let exercise_uuid = exercises
        .create(Resource::new(user_id, "Test Exercise 1".to_string(), None, "e-1".to_string(), T0))
        .unwrap()
        .uuid;
    exercises
        .create(Resource::new(user_id, "Test Exercise 2 for user 1".to_string(), None, "e-2".to_string(), T0))
        .unwrap();
    Catalogue { workouts, exercises, links: MemoryWorkoutExerciseRepository::new(), workout_uuid, exercise_uuid }
}

#[test]
fn test_workout_exercises() {
    let mut tenants = Tenants::new();
    let user1 = tenants.user("user1-session");
    let mut c = catalogue(user1);

    let code = add_exercise_to_workout(&mut c.links, &c.workouts, &c.exercises, user1, &c.workout_uuid, &c.exercise_uuid, 1);
    assert_eq!(code, 200);

    let listed = c.links.list_workout_exercises(&c.workouts, &c.exercises, user1, &c.workout_uuid).unwrap();
    assert_eq!(listed.len(), 1);
    assert_eq!(listed[0].0.uuid, c.exercise_uuid);
    assert_eq!(listed[0].1, 1);

    let code = remove_exercise_from_workout(&mut c.links, &c.workouts, &c.exercises, user1, &c.workout_uuid, &c.exercise_uuid);
    assert_eq!(code, 200);

    let listed = c.links.list_workout_exercises(&c.workouts, &c.exercises, user1, &c.workout_uuid).unwrap();
    assert_eq!(listed.len(), 0);
}

#[test]
fn test_workout_exercise_isolation() {
    let mut tenants = Tenants::new();
    let user1 = tenants.user("user1-session");
    let user2 = tenants.user("user2-session");
    let mut c = catalogue(user1);

    let code = add_exercise_to_workout(&mut c.links, &c.workouts, &c.exercises, user1, &c.workout_uuid, &c.exercise_uuid, 1);
    assert_eq!(code, 200);

    let listed = c.links.list_workout_exercises(&c.workouts, &c.exercises, user2, &c.workout_uuid);
    let code = match listed {
        Ok(_) => 200,
        Err(e) => link_error_status(e),
    };
    assert!((400..500).contains(&code));

    let code = add_exercise_to_workout(&mut c.links, &c.workouts, &c.exercises, user2, &c.workout_uuid, &c.exercise_uuid, 2);
    assert!((400..500).contains(&code));

    let code = remove_exercise_from_workout(&mut c.links, &c.workouts, &c.exercises, user2, &c.workout_uuid, &c.exercise_uuid);
    assert!((400..500).contains(&code));

    let listed = c.links.list_workout_exercises(&c.workouts, &c.exercises, user1, &c.workout_uuid).unwrap();
    assert_eq!(listed.len(), 1);
}

#[test]
fn placing_an_exercise_twice_is_a_store_failure() {
    let mut c = catalogue(1);
    assert_eq!(c.links.add_exercise_to_workout(&c.workouts, &c.exercises, 1, "w-1", "e-1", 1), Ok(()));
    assert_eq!(c.links.add_exercise_to_workout(&c.workouts, &c.exercises, 1, "w-1", "e-1", 2), Err(WorkoutExerciseError::DatabaseError));
    assert_eq!(c.links.add_exercise_to_workout(&c.workouts, &c.exercises, 1, "w-1", "nope", 2), Err(WorkoutExerciseError::ExerciseNotFound));
    assert_eq!(c.links.add_exercise_to_workout(&c.workouts, &c.exercises, 1, "nope", "e-1", 2), Err(WorkoutExerciseError::WorkoutNotFound));
    assert_eq!(c.links.remove_exercise_from_workout(&c.workouts, &c.exercises, 1, "w-1", "e-2"), Err(WorkoutExerciseError::NotFound));
}

#[test]
fn resource_uuid_collision_is_refused() {
    let mut repo = MemoryResourceRepository::new();
    repo.create(Resource::new(1, "a".to_string(), None, "same".to_string(), T0)).unwrap();
    let again = repo.create(Resource::new(2, "b".to_string(), None, "same".to_string(), T0));
    assert!(matches!(again, Err(ResourceError::DatabaseError)));
    assert!(matches!(repo.get(2, "same"), Err(ResourceError::NotFound)));
}

#[test]
fn partial_update_keeps_missing_fields() {
    let mut repo = MemoryResourceRepository::new();
    repo.create(Resource::new(1, "Legs".to_string(), Some("heavy".to_string()), "w".to_string(), T0)).unwrap();
    let updated = repo.update(1, "w", None, None, T0 + 5).unwrap();
    assert_eq!(updated.name, "Legs");
    assert_eq!(updated.description.as_deref(), Some("heavy"));
    assert_eq!(updated.updated_at, T0 + 5);
    assert_eq!(updated.created_at, T0);
    let updated = repo.update(1, "w", Some("Arms".to_string()), None, T0 + 6).unwrap();
    assert_eq!(updated.name, "Arms");
    assert_eq!(updated.description.as_deref(), Some("heavy"));
}
