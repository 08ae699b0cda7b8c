//! The interactive flows as explicit state machines. Each machine turns
//! one answered prompt into the next state; the surrounding program
//! shows the prompts, reads the lines and hands them in as events.

use vstd::prelude::*;
use crate::body_part::{BodyPart, parse_spec};
use crate::model::{
    Exercise, ExerciseType, ExerciseTypeView, ExerciseView, WorkoutSetBuilder,
    WorkoutSetBuilderView, WorkoutSetView, builder_wf, next_index_spec,
};
use crate::store::{System, added_workout, find_first_exercise};
use crate::text::{parse_u8_spec, trim_str, trimmed};

verus! {

/// Where the add-exercise flow stands: which prompt is open, or how it
/// ended. A failed muscle parse here is fatal — this flow, unlike the
/// add-workout flow, never re-prompts.
pub enum AeState {
    /// Waiting for the exercise's name.
    AskName,
    /// Waiting for the target muscle of the named exercise.
    AskTarget { name: String },
    /// Waiting for the answer to "add another?".
    AskContinue,
    /// The loop was declined and is over.
    Done,
    /// The target answer parsed to no muscle: the flow is abandoned
    /// abnormally.
    Failed,
}

/// The name held by a state waiting for a target muscle.
pub open spec fn ae_pending_name(s: AeState) -> Seq<char> {
    match s {
        AeState::AskTarget { name } => name@,
        _ => Seq::<char>::empty(),
    }
}

/// The add-exercise flow: name, then target muscle, then whether to go
/// again; each successful round registers one exercise definition.
pub struct AddExerciseFlow {
    pub state: AeState,
}

impl AddExerciseFlow {
    pub fn new() -> (r: Self)
        ensures
            r.state is AskName,
    {
        AddExerciseFlow { state: AeState::AskName }
    }

    /// Take the name answer; any text serves.
    pub fn on_name(self, name: String) -> (r: Self)
        requires
            self.state is AskName,
        ensures
            r.state is AskTarget,
            ae_pending_name(r.state) == name@,
    {
        AddExerciseFlow { state: AeState::AskTarget { name } }
    }

    /// Take the target-muscle answer. A recognised muscle registers the
    /// pending exercise and moves on to "add another?"; anything else
    /// fails the whole flow, with nothing registered.
    pub fn on_target_line(self, sys: &mut System, line: &str) -> (r: Self)
        requires
            self.state is AskTarget,
        ensures
            parse_spec(line@) is Some ==> {
                &&& r.state is AskContinue
                &&& final(sys)@.available_exercises == old(sys)@.available_exercises.push(
                    ExerciseTypeView {
                        name: ae_pending_name(self.state),
                        target: parse_spec(line@).unwrap(),
                    },
                )
                &&& final(sys)@.registered_users == old(sys)@.registered_users
                &&& final(sys)@.curr_user == old(sys)@.curr_user
                &&& final(sys)@.profile_file == old(sys)@.profile_file
            },
            parse_spec(line@) is None ==> r.state is Failed && final(sys)@ == old(sys)@,
    {
        match self.state {
            AeState::AskTarget { name } => {
                match BodyPart::to_enum(line) {
                    Option::Some(muscle) => {
                        sys.add_exercise(name, muscle);
                        AddExerciseFlow { state: AeState::AskContinue }
                    },
                    Option::None => AddExerciseFlow { state: AeState::Failed },
                }
            },
            _ => AddExerciseFlow { state: AeState::Failed },
        }
    }

    /// Take the "add another?" answer: yes loops back to a fresh name
    /// prompt, anything else ends the flow normally.
    pub fn on_continue(self, yes: bool) -> (r: Self)
        requires
            self.state is AskContinue,
        ensures
            yes ==> r.state is AskName,
            !yes ==> r.state is Done,
    {
        if yes {
            AddExerciseFlow { state: AeState::AskName }
        } else {
            AddExerciseFlow { state: AeState::Done }
        }
    }
}

/// Where the add-workout flow stands: which prompt is open, or how it
/// ended.
pub enum AwState {
    /// Waiting for the target muscle of the whole workout.
    ChooseMuscle,
    /// No exercise definitions exist: waiting for the answer to
    /// "create one now?".
    OfferCreate { muscle: BodyPart },
    /// Waiting for the name of the exercise to record.
    ChooseExercise { muscle: BodyPart },
    /// Waiting for the number of sets performed.
    ChooseSets { muscle: BodyPart, exercise: ExerciseType },
    /// Collecting one rep count per set, in order.
    CollectReps { muscle: BodyPart, exercise: ExerciseType, builder: WorkoutSetBuilder },
    /// Waiting for the answer to "add another exercise?".
    AskAnother { muscle: BodyPart },
    /// The flow ended normally: the workout is ready to be recorded.
    Done,
    /// The flow was abandoned at the create-offer: nothing is recorded.
    Aborted,
    /// A count failed to parse: fatal, as the program has always
    /// treated non-numeric counts.
    Failed,
}

/// The muscle the flow settled on, where one is held.
pub open spec fn aw_muscle(s: AwState) -> BodyPart {
    match s {
        AwState::OfferCreate { muscle } => muscle,
        AwState::ChooseExercise { muscle } => muscle,
        AwState::ChooseSets { muscle, .. } => muscle,
        AwState::CollectReps { muscle, .. } => muscle,
        AwState::AskAnother { muscle } => muscle,
        _ => BodyPart::Unset,
    }
}

/// The exercise definition the flow settled on, where one is held.
pub open spec fn aw_exercise(s: AwState) -> ExerciseTypeView {
    match s {
        AwState::ChooseSets { exercise, .. } => exercise@,
        AwState::CollectReps { exercise, .. } => exercise@,
        _ => ExerciseTypeView { name: Seq::<char>::empty(), target: BodyPart::Unset },
    }
}

/// The set-record builder of a state collecting reps.
pub open spec fn aw_builder(s: AwState) -> WorkoutSetBuilderView {
    match s {
        AwState::CollectReps { builder, .. } => builder@,
        _ => WorkoutSetBuilderView { num_of_sets: 0, reps: Seq::<u8>::empty() },
    }
}

/// A rep-collecting state never holds more rep values than its record
/// will take.
pub open spec fn aw_wf(s: AwState) -> bool {
    s is CollectReps ==> builder_wf(aw_builder(s))
}

/// On entering the inner loop the store is inspected: with no exercise
/// definitions at all, the flow first offers to create one; otherwise
/// it asks which exercise to record.
pub open spec fn enter_inner_spec(available: Seq<ExerciseTypeView>, muscle: BodyPart) -> AwState {
    if available.len() == 0 {
        AwState::OfferCreate { muscle }
    } else {
        AwState::ChooseExercise { muscle }
    }
}

/// The add-workout flow: a muscle, then rounds of exercise name, set
/// count and rep counts, accumulating performed exercises until the
/// user stops; the workout is recorded only on a normal end.
pub struct AddWorkoutFlow {
    pub state: AwState,
    pub exercises: Vec<Exercise>,
}

impl AddWorkoutFlow {
    pub fn new() -> (r: Self)
        ensures
            r.state is ChooseMuscle,
            r.exercises.deep_view() == Seq::<ExerciseView>::empty(),
            aw_wf(r.state),
    {
        let r = AddWorkoutFlow { state: AwState::ChooseMuscle, exercises: Vec::new() };
        proof {
            assert(r.exercises.deep_view() =~= Seq::<ExerciseView>::empty());
        }
        r
    }

    /// Take the muscle answer. A recognised muscle enters the inner
    /// loop; anything else re-prompts silently — this flow, unlike the
    /// add-exercise flow, never fails on a muscle answer.
    pub fn on_muscle_line(self, sys: &System, line: &str) -> (r: Self)
        requires
            self.state is ChooseMuscle,
            aw_wf(self.state),
        ensures
            r.exercises.deep_view() == self.exercises.deep_view(),
            aw_wf(r.state),
            parse_spec(line@) matches Some(m) ==> r.state == enter_inner_spec(
                sys@.available_exercises,
                m,
            ),
            parse_spec(line@) is None ==> r.state is ChooseMuscle,
    {
        match BodyPart::to_enum(line) {
            Option::Some(muscle) => {
                if sys.available_exercises.len() == 0 {
                    AddWorkoutFlow { state: AwState::OfferCreate { muscle }, ..self }
                } else {
                    AddWorkoutFlow { state: AwState::ChooseExercise { muscle }, ..self }
                }
            },
            Option::None => self,
        }
    }

    /// Take the "create one now?" answer. A no abandons the whole flow:
    /// no workout will be recorded. A yes keeps the offer open — the
    /// caller runs the add-exercise flow and then resumes.
    pub fn on_offer_answer(self, yes: bool) -> (r: Self)
        requires
            self.state is OfferCreate,
            aw_wf(self.state),
        ensures
            r.exercises.deep_view() == self.exercises.deep_view(),
            aw_wf(r.state),
            yes ==> r.state == self.state,
            !yes ==> r.state is Aborted,
    {
        if yes {
            self
        } else {
            AddWorkoutFlow { state: AwState::Aborted, ..self }
        }
    }

    /// Resume after the inline add-exercise flow: the round goes
    /// straight on to choosing the exercise, with the same muscle.
    pub fn resume_after_create(self) -> (r: Self)
        requires
            self.state is OfferCreate,
            aw_wf(self.state),
        ensures
            r.exercises.deep_view() == self.exercises.deep_view(),
            aw_wf(r.state),
            r.state == (AwState::ChooseExercise { muscle: aw_muscle(self.state) }),
    {
        match self.state {
            AwState::OfferCreate { muscle } => AddWorkoutFlow {
                state: AwState::ChooseExercise { muscle },
                exercises: self.exercises,
            },
            _ => AddWorkoutFlow { state: AwState::Failed, exercises: self.exercises },
        }
    }

    /// Take the exercise-name answer, trimmed and looked up exactly. A
    /// match moves on to the set count; no match silently re-enters the
    /// inner loop with the same muscle.
    pub fn on_exercise_line(self, sys: &System, line: &str) -> (r: Self)
        requires
            self.state is ChooseExercise,
            aw_wf(self.state),
        ensures
            r.exercises.deep_view() == self.exercises.deep_view(),
            aw_wf(r.state),
            ({
                let found = find_first_exercise(sys@.available_exercises, trimmed(line@));
                match found {
                    Option::Some(e) => {
                        &&& r.state is ChooseSets
                        &&& aw_muscle(r.state) == aw_muscle(self.state)
                        &&& aw_exercise(r.state) == e
                    },
                    Option::None => r.state == enter_inner_spec(
                        sys@.available_exercises,
                        aw_muscle(self.state),
                    ),
                }
            }),
    {
        match self.state {
            AwState::ChooseExercise { muscle } => {
                let t = trim_str(line);
                match sys.find_exercise(t.as_str()) {
                    Option::Some(exercise) => AddWorkoutFlow {
                        state: AwState::ChooseSets { muscle, exercise },
                        exercises: self.exercises,
                    },
                    Option::None => {
                        if sys.available_exercises.len() == 0 {
                            AddWorkoutFlow {
                                state: AwState::OfferCreate { muscle },
                                exercises: self.exercises,
                            }
                        } else {
                            AddWorkoutFlow {
                                state: AwState::ChooseExercise { muscle },
                                exercises: self.exercises,
                            }
                        }
                    },
                }
            },
            _ => AddWorkoutFlow { state: AwState::Failed, exercises: self.exercises },
        }
    }

    /// Take the set-count answer, trimmed and read as a small count.
    /// A number opens rep collection; anything else is fatal, as
    /// non-numeric counts have always been.
    pub fn on_sets_line(self, line: &str) -> (r: Self)
        requires
            self.state is ChooseSets,
            aw_wf(self.state),
        ensures
            r.exercises.deep_view() == self.exercises.deep_view(),
            aw_wf(r.state),
            parse_u8_spec(trimmed(line@)) matches Some(n) ==> {
                &&& r.state is CollectReps
                &&& aw_muscle(r.state) == aw_muscle(self.state)
                &&& aw_exercise(r.state) == aw_exercise(self.state)
                &&& aw_builder(r.state) == (WorkoutSetBuilderView {
                    num_of_sets: n,
                    reps: Seq::<u8>::empty(),
                })
            },
            parse_u8_spec(trimmed(line@)) is None ==> r.state is Failed,
    {
        match self.state {
            AwState::ChooseSets { muscle, exercise } => {
                let t = trim_str(line);
                match crate::text::parse_u8(t.as_str()) {
                    Option::Some(n) => AddWorkoutFlow {
                        state: AwState::CollectReps {
                            muscle,
                            exercise,
                            builder: WorkoutSetBuilder::new(n),
                        },
                        exercises: self.exercises,
                    },
                    Option::None => AddWorkoutFlow {
                        state: AwState::Failed,
                        exercises: self.exercises,
                    },
                }
            },
            _ => AddWorkoutFlow { state: AwState::Failed, exercises: self.exercises },
        }
    }

    /// The set index whose rep count is wanted next, or nothing once
    /// the record is full.
    pub fn next_rep_index(&self) -> (r: Option<u8>)
        requires
            self.state is CollectReps,
            aw_wf(self.state),
        ensures
            r == next_index_spec(aw_builder(self.state)),
    {
        match &self.state {
            AwState::CollectReps { builder, .. } => builder.next_set_index(),
            _ => Option::None,
        }
    }

    /// Take one rep-count answer, trimmed and read as a small count. A
    /// number is recorded in order; anything else is fatal.
    pub fn on_rep_line(self, line: &str) -> (r: Self)
        requires
            self.state is CollectReps,
            aw_wf(self.state),
            next_index_spec(aw_builder(self.state)) is Some,
        ensures
            r.exercises.deep_view() == self.exercises.deep_view(),
            aw_wf(r.state),
            parse_u8_spec(trimmed(line@)) matches Some(rep) ==> {
                &&& r.state is CollectReps
                &&& aw_muscle(r.state) == aw_muscle(self.state)
                &&& aw_exercise(r.state) == aw_exercise(self.state)
                &&& aw_builder(r.state) == (WorkoutSetBuilderView {
                    num_of_sets: aw_builder(self.state).num_of_sets,
                    reps: aw_builder(self.state).reps.push(rep),
                })
            },
            parse_u8_spec(trimmed(line@)) is None ==> r.state is Failed,
    {
        match self.state {
            AwState::CollectReps { muscle, exercise, mut builder } => {
                let t = trim_str(line);
                match crate::text::parse_u8(t.as_str()) {
                    Option::Some(rep) => {
                        builder.push_rep(rep);
                        AddWorkoutFlow {
                            state: AwState::CollectReps { muscle, exercise, builder },
                            exercises: self.exercises,
                        }
                    },
                    Option::None => AddWorkoutFlow {
                        state: AwState::Failed,
                        exercises: self.exercises,
                    },
                }
            },
            _ => AddWorkoutFlow { state: AwState::Failed, exercises: self.exercises },
        }
    }

    /// Close the full set record into a performed exercise, append it
    /// to this workout's list, and ask whether to add another.
    pub fn finish_exercise(self) -> (r: Self)
        requires
            self.state is CollectReps,
            aw_wf(self.state),
            next_index_spec(aw_builder(self.state)) is None,
        ensures
            r.state == (AwState::AskAnother { muscle: aw_muscle(self.state) }),
            aw_wf(r.state),
            r.exercises.deep_view() == self.exercises.deep_view().push(
                ExerciseView {
                    exc_type: aw_exercise(self.state),
                    sets: WorkoutSetView {
                        num_of_sets: aw_builder(self.state).num_of_sets,
                        reps: aw_builder(self.state).reps,
                    },
                    notes: Seq::<char>::empty(),
                },
            ),
    {
        match self.state {
            AwState::CollectReps { muscle, exercise, builder } => {
                let sets = builder.finish();
                let ex = Exercise::new(exercise, sets);
                let mut exercises = self.exercises;
                let ghost old_exercises = exercises.deep_view();
                exercises.push(ex);
                proof {
                    assert(exercises.deep_view() =~= old_exercises.push(
                        exercises@.last()@,
                    ));
                }
                AddWorkoutFlow { state: AwState::AskAnother { muscle }, exercises }
            },
            _ => AddWorkoutFlow { state: AwState::Failed, exercises: self.exercises },
        }
    }

    /// Take the "add another exercise?" answer: yes re-enters the inner
    /// loop with the SAME muscle — the muscle prompt is never shown
    /// again; anything else ends the flow normally.
    pub fn on_another(self, sys: &System, yes: bool) -> (r: Self)
        requires
            self.state is AskAnother,
            aw_wf(self.state),
        ensures
            r.exercises.deep_view() == self.exercises.deep_view(),
            aw_wf(r.state),
            yes ==> r.state == enter_inner_spec(sys@.available_exercises, aw_muscle(self.state)),
            !yes ==> r.state is Done,
    {
        match self.state {
            AwState::AskAnother { muscle } => {
                if yes {
                    if sys.available_exercises.len() == 0 {
                        AddWorkoutFlow {
                            state: AwState::OfferCreate { muscle },
                            exercises: self.exercises,
                        }
                    } else {
                        AddWorkoutFlow {
                            state: AwState::ChooseExercise { muscle },
                            exercises: self.exercises,
                        }
                    }
                } else {
                    AddWorkoutFlow { state: AwState::Done, exercises: self.exercises }
                }
            },
            _ => AddWorkoutFlow { state: AwState::Failed, exercises: self.exercises },
        }
    }

    /// Record the finished workout: everything accumulated goes into
    /// one timestamped workout appended to the current user's history.
    pub fn finish(self, sys: &mut System)
        requires
            self.state is Done,
        ensures
            added_workout(old(sys)@, final(sys)@, self.exercises.deep_view()),
    {
        sys.add_workout(self.exercises);
    }
}

} // verus!
