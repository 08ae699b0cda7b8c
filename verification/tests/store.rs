use workout_tracker::body_part::BodyPart;
use workout_tracker::menu::{str_to_action, Input, MainAction};
use workout_tracker::model::{Exercise, ExerciseType, WorkoutSetBuilder};
use workout_tracker::store::System;

#[test]
fn menu_lines_map_to_actions() {
    assert_eq!(str_to_action("1"), MainAction::AddWorkout);
    assert_eq!(str_to_action(" 1 "), MainAction::AddWorkout);
    assert_eq!(str_to_action("2"), MainAction::AddExercise);
    assert_eq!(str_to_action("0"), MainAction::Exit);
    assert_eq!(str_to_action(""), MainAction::Idle);
    assert_eq!(str_to_action("3"), MainAction::Idle);
    assert_eq!(str_to_action("10"), MainAction::Idle);
}

#[test]
fn only_a_bare_y_counts_as_yes() {
    let _ = Input::new();
    assert!(Input::yes_or_no("y"));
    assert!(Input::yes_or_no(" y \n"));
    assert!(!Input::yes_or_no("Y"));
    assert!(!Input::yes_or_no("yes"));
    assert!(!Input::yes_or_no("n"));
    assert!(!Input::yes_or_no(""));
}

#[test]
fn empty_record_content_loads_one_nameless_profile() {
    let sys = System::new(String::new());
    assert_eq!(sys.registered_users.len(), 1);
    assert_eq!(sys.registered_users[0].name, "");
    assert_eq!(sys.curr_user.name, "None");
    assert!(sys.available_exercises.is_empty());
}

#[test]
fn non_empty_record_content_loads_no_profiles() {
    let sys = System::new("Alice;".to_string());
    assert!(sys.registered_users.is_empty());
    assert_eq!(sys.profile_file, "Alice;");
}

#[test]
fn creating_two_users_leaves_only_the_second_on_record() {
    let mut sys = System::new("old content".to_string());
    sys.create_new_user("Alice".to_string());
    assert_eq!(sys.profile_file, "Alice;");
    sys.create_new_user("Bob".to_string());
    assert_eq!(sys.profile_file, "Bob;");
    assert_eq!(sys.registered_users.len(), 2);
    assert_eq!(sys.registered_users[0].name, "Alice");
    assert_eq!(sys.registered_users[1].name, "Bob");
}

#[test]
fn user_lookup_is_case_sensitive() {
    let mut sys = System::new("x".to_string());
    sys.create_new_user("Sam".to_string());
    assert!(sys.find_user("sam".to_string()).is_none());
    assert!(sys.find_user("SAM".to_string()).is_none());
    let found = sys.find_user("Sam".to_string()).expect("exact match");
    assert_eq!(found.name, "Sam");
    assert!(found.workouts.is_empty());
}

#[test]
fn exercise_lookup_is_case_sensitive() {
    let mut sys = System::new("x".to_string());
    sys.add_exercise("Bench".to_string(), BodyPart::Chest);
    assert!(sys.find_exercise("bench").is_none());
    assert!(sys.find_exercise("BENCH").is_none());
    let found = sys.find_exercise("Bench").expect("exact match");
    assert_eq!(found.name, "Bench");
    assert_eq!(found.target, BodyPart::Chest);
}

#[test]
fn exercises_for_filters_by_exact_target_in_order() {
    let mut sys = System::new("x".to_string());
    sys.add_exercise("Bench".to_string(), BodyPart::Chest);
    sys.add_exercise("Squat".to_string(), BodyPart::Legs);
    sys.add_exercise("Fly".to_string(), BodyPart::Chest);
    sys.add_exercise("Curl".to_string(), BodyPart::Biceps);
    let chest = sys.exercises_for(BodyPart::Chest);
    assert_eq!(chest.len(), 2);
    assert_eq!(chest[0].name, "Bench");
    assert_eq!(chest[1].name, "Fly");
    assert!(sys.exercises_for(BodyPart::Abs).is_empty());
}

#[test]
fn login_with_unknown_line_creates_the_trimmed_name() {
    let mut sys = System::new("x".to_string());
    sys.login("Sam\n".to_string());
    assert_eq!(sys.curr_user.name, "Sam");
    assert_eq!(sys.registered_users.len(), 1);
    assert_eq!(sys.registered_users[0].name, "Sam");
    assert_eq!(sys.profile_file, "Sam;");
}

#[test]
fn login_matches_the_line_exactly_as_read() {
    let mut sys = System::new("x".to_string());
    sys.create_new_user("Ann".to_string());
    // The raw line still carries its newline, so the lookup misses and
    // a second profile is created from the trimmed name.
    sys.login("Ann\n".to_string());
    assert_eq!(sys.registered_users.len(), 2);
    assert_eq!(sys.curr_user.name, "Ann");
    // A line with no newline at all matches the stored profile.
    let mut sys2 = System::new("x".to_string());
    sys2.create_new_user("Ann".to_string());
    sys2.login("Ann".to_string());
    assert_eq!(sys2.registered_users.len(), 1);
    assert_eq!(sys2.curr_user.name, "Ann");
}

#[test]
fn current_user_is_a_detached_copy() {
    let mut sys = System::new("x".to_string());
    sys.create_new_user("Sam".to_string());
    sys.login("Sam".to_string());
    let exc_type = ExerciseType::new("Squat".to_string(), BodyPart::Legs);
    let mut builder = WorkoutSetBuilder::new(1);
    assert_eq!(builder.next_set_index(), None);
    let sets = builder.finish();
    let exercise = Exercise::new(exc_type, sets);
    sys.add_workout(vec![exercise]);
    assert_eq!(sys.curr_user.workouts.len(), 1);
    // The registry still holds the profile untouched.
    assert!(sys.registered_users[0].workouts.is_empty());
    assert!(sys.find_user("Sam".to_string()).expect("registered").workouts.is_empty());
}

#[test]
fn set_collection_stops_one_short_of_the_set_count() {
    let mut builder = WorkoutSetBuilder::new(4);
    assert_eq!(builder.next_set_index(), Some(1));
    builder.push_rep(10);
    assert_eq!(builder.next_set_index(), Some(2));
    builder.push_rep(8);
    assert_eq!(builder.next_set_index(), Some(3));
    builder.push_rep(6);
    assert_eq!(builder.next_set_index(), None);
    let sets = builder.finish();
    assert_eq!(sets.num_of_sets, 4);
    assert_eq!(sets.reps, vec![10, 8, 6]);
}

#[test]
fn zero_and_one_set_counts_collect_no_reps() {
    let zero = WorkoutSetBuilder::new(0);
    assert_eq!(zero.next_set_index(), None);
    assert!(zero.finish().reps.is_empty());
    let one = WorkoutSetBuilder::new(1);
    assert_eq!(one.next_set_index(), None);
    let sets = one.finish();
    assert_eq!(sets.num_of_sets, 1);
    assert!(sets.reps.is_empty());
}

#[test]
fn details_line_is_rendered_exactly() {
    let exc_type = ExerciseType::new("Bench".to_string(), BodyPart::Chest);
    let mut builder = WorkoutSetBuilder::new(3);
    builder.push_rep(12);
    builder.push_rep(9);
    let exercise = Exercise::new(exc_type, builder.finish());
    assert_eq!(exercise.details(), "Bench, number of sets: 3, notes: ");
}

#[test]
fn summary_reports_the_first_workout_only() {
    let mut sys = System::new("x".to_string());
    sys.login("Sam".to_string());
    let first = Exercise::new(
        ExerciseType::new("Squat".to_string(), BodyPart::Legs),
        WorkoutSetBuilder::new(1).finish(),
    );
    let second = Exercise::new(
        ExerciseType::new("Bench".to_string(), BodyPart::Chest),
        WorkoutSetBuilder::new(1).finish(),
    );
    sys.add_workout(vec![first]);
    sys.add_workout(vec![second]);
    let lines = sys.curr_user_exercises();
    assert_eq!(lines.len(), 1);
    assert_eq!(lines[0], "Squat, number of sets: 1, notes: ");
}

#[test]
fn no_workout_means_nothing_to_report() {
    // The summary itself demands a recorded workout; the surrounding
    // program checks this emptiness and fails hard, as the program
    // always has.
    let mut sys = System::new("x".to_string());
    sys.login("Sam".to_string());
    assert!(sys.curr_user.workouts.is_empty());
}
