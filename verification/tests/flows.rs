use workout_tracker::body_part::BodyPart;
use workout_tracker::flows::{AddExerciseFlow, AddWorkoutFlow, AeState, AwState};
use workout_tracker::store::System;

fn register_squat(sys: &mut System) {
    let flow = AddExerciseFlow::new();
    let flow = flow.on_name("Squat".to_string());
    let flow = flow.on_target_line(sys, "Legs");
    assert!(matches!(flow.state, AeState::AskContinue));
    let flow = flow.on_continue(false);
    assert!(matches!(flow.state, AeState::Done));
}

#[test]
fn add_exercise_flow_registers_on_a_valid_muscle() {
    let mut sys = System::new("x".to_string());
    register_squat(&mut sys);
    assert_eq!(sys.available_exercises.len(), 1);
    assert_eq!(sys.available_exercises[0].name, "Squat");
    assert_eq!(sys.available_exercises[0].target, BodyPart::Legs);
}

#[test]
fn add_exercise_flow_fails_hard_on_a_bad_muscle() {
    let mut sys = System::new("x".to_string());
    let flow = AddExerciseFlow::new();
    let flow = flow.on_name("Squat".to_string());
    let flow = flow.on_target_line(&mut sys, "torso");
    assert!(matches!(flow.state, AeState::Failed));
    assert!(sys.available_exercises.is_empty());
}

#[test]
fn add_exercise_flow_loops_on_yes() {
    let mut sys = System::new("x".to_string());
    let flow = AddExerciseFlow::new();
    let flow = flow.on_name("Bench".to_string());
    let flow = flow.on_target_line(&mut sys, "chest");
    let flow = flow.on_continue(true);
    assert!(matches!(flow.state, AeState::AskName));
    let flow = flow.on_name("Curl".to_string());
    let flow = flow.on_target_line(&mut sys, "Biceps");
    let flow = flow.on_continue(false);
    assert!(matches!(flow.state, AeState::Done));
    assert_eq!(sys.available_exercises.len(), 2);
    assert_eq!(sys.available_exercises[1].name, "Curl");
}

#[test]
fn workout_flow_reprompts_on_a_bad_muscle() {
    let mut sys = System::new("x".to_string());
    register_squat(&mut sys);
    let flow = AddWorkoutFlow::new();
    let flow = flow.on_muscle_line(&sys, "torso");
    assert!(matches!(flow.state, AwState::ChooseMuscle));
    let flow = flow.on_muscle_line(&sys, "legs");
    assert!(matches!(flow.state, AwState::ChooseExercise { .. }));
}

#[test]
fn workout_flow_offers_creation_when_no_exercises_exist() {
    let sys = System::new("x".to_string());
    let flow = AddWorkoutFlow::new();
    let flow = flow.on_muscle_line(&sys, "Legs");
    assert!(matches!(flow.state, AwState::OfferCreate { .. }));
    let flow = flow.on_offer_answer(false);
    assert!(matches!(flow.state, AwState::Aborted));
}

#[test]
fn workout_flow_retries_an_unknown_exercise_name() {
    let mut sys = System::new("x".to_string());
    register_squat(&mut sys);
    let flow = AddWorkoutFlow::new();
    let flow = flow.on_muscle_line(&sys, "Legs");
    let flow = flow.on_exercise_line(&sys, "squat");
    assert!(matches!(flow.state, AwState::ChooseExercise { .. }));
    let flow = flow.on_exercise_line(&sys, " Squat \n");
    assert!(matches!(flow.state, AwState::ChooseSets { .. }));
}

#[test]
fn workout_flow_fails_hard_on_a_bad_count() {
    let mut sys = System::new("x".to_string());
    register_squat(&mut sys);
    let flow = AddWorkoutFlow::new();
    let flow = flow.on_muscle_line(&sys, "Legs");
    let flow = flow.on_exercise_line(&sys, "Squat");
    let flow = flow.on_sets_line("three");
    assert!(matches!(flow.state, AwState::Failed));
}

#[test]
fn full_session_records_and_reports_one_squat_workout() {
    // A whole sitting: log in as a new user, define one exercise, record
    // one workout with it, and read the summary.
    let mut sys = System::new("x".to_string());
    sys.login("Sam\n".to_string());
    assert_eq!(sys.curr_user.name, "Sam");
    assert_eq!(sys.profile_file, "Sam;");

    register_squat(&mut sys);

    let flow = AddWorkoutFlow::new();
    let flow = flow.on_muscle_line(&sys, "Legs");
    assert!(matches!(flow.state, AwState::ChooseExercise { .. }));
    let shown = sys.exercises_for(BodyPart::Legs);
    assert_eq!(shown.len(), 1);
    assert_eq!(shown[0].name, "Squat");
    let flow = flow.on_exercise_line(&sys, "Squat");
    let flow = flow.on_sets_line("3");
    assert_eq!(flow.next_rep_index(), Some(1));
    let flow = flow.on_rep_line("10");
    assert_eq!(flow.next_rep_index(), Some(2));
    let flow = flow.on_rep_line("8");
    assert_eq!(flow.next_rep_index(), None);
    let flow = flow.finish_exercise();
    assert!(matches!(flow.state, AwState::AskAnother { .. }));
    let flow = flow.on_another(&sys, false);
    assert!(matches!(flow.state, AwState::Done));
    flow.finish(&mut sys);

    assert_eq!(sys.curr_user.workouts.len(), 1);
    let recorded = &sys.curr_user.workouts[0].exercises;
    assert_eq!(recorded.len(), 1);
    assert_eq!(recorded[0].sets.num_of_sets, 3);
    assert_eq!(recorded[0].sets.reps, vec![10, 8]);

    let lines = sys.curr_user_exercises();
    assert_eq!(lines.len(), 1);
    assert_eq!(lines[0], "Squat, number of sets: 3, notes: ");
}

#[test]
fn workout_flow_can_create_inline_and_keep_going() {
    let mut sys = System::new("x".to_string());
    let flow = AddWorkoutFlow::new();
    let flow = flow.on_muscle_line(&sys, "Chest");
    assert!(matches!(flow.state, AwState::OfferCreate { .. }));
    let flow = flow.on_offer_answer(true);
    // The caller now runs the add-exercise flow inline, then resumes.
    let ae = AddExerciseFlow::new();
    let ae = ae.on_name("Bench".to_string());
    let ae = ae.on_target_line(&mut sys, "Chest");
    let _ae = ae.on_continue(false);
    let flow = flow.resume_after_create();
    assert!(matches!(flow.state, AwState::ChooseExercise { .. }));
    let flow = flow.on_exercise_line(&sys, "Bench");
    let flow = flow.on_sets_line("2");
    let flow = flow.on_rep_line("5");
    let flow = flow.finish_exercise();
    let flow = flow.on_another(&sys, false);
    flow.finish(&mut sys);
    assert_eq!(sys.curr_user.workouts.len(), 1);
    let lines = sys.curr_user_exercises();
    assert_eq!(lines, vec!["Bench, number of sets: 2, notes: "]);
}
