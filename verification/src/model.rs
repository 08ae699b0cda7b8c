//! The domain model: exercise definitions, per-workout set records,
//! performed exercises, workouts and user profiles.

use vstd::prelude::*;
use vstd::string::*;
use crate::body_part::BodyPart;
use crate::text::{dec_str, u8_to_string};

verus! {

/// A weekday tag, reserved for planning which days a profile trains on.
/// No flow reads these yet.
#[derive(Clone, Copy, PartialEq, Eq, Structural, Debug)]
pub enum Weekday {
    Monday,
    Tuesday,
    Wednesday,
    Thursday,
    Friday,
    Saturday,
    Sunday,
}

/// A named exercise definition, tagged with the muscle group it targets.
pub struct ExerciseType {
    pub name: String,
    pub target: BodyPart,
}

pub ghost struct ExerciseTypeView {
    pub name: Seq<char>,
    pub target: BodyPart,
}

impl View for ExerciseType {
    type V = ExerciseTypeView;

    open spec fn view(&self) -> ExerciseTypeView {
        ExerciseTypeView { name: self.name@, target: self.target }
    }
}

impl DeepView for ExerciseType {
    type V = ExerciseTypeView;

    open spec fn deep_view(&self) -> ExerciseTypeView {
        self.view()
    }
}

impl ExerciseType {
    pub fn new(name: String, target: BodyPart) -> (r: Self)
        ensures
            r@.name == name@,
            r@.target == target,
    {
        ExerciseType { name, target }
    }
}

impl Clone for ExerciseType {
    fn clone(&self) -> (r: Self)
        ensures
            r@ == self@,
    {
        ExerciseType { name: self.name.clone(), target: self.target }
    }
}

/// How many rep values a record for `n` sets holds: one per completed
/// set index from 1 up, which is one fewer than the set count itself.
pub open spec fn sets_to_record(n: u8) -> nat {
    if n == 0 {
        0
    } else {
        (n - 1) as nat
    }
}

/// The count of sets performed, with the rep count recorded per set.
pub struct WorkoutSet {
    pub num_of_sets: u8,
    pub reps: Vec<u8>,
}

pub ghost struct WorkoutSetView {
    pub num_of_sets: u8,
    pub reps: Seq<u8>,
}

impl View for WorkoutSet {
    type V = WorkoutSetView;

    open spec fn view(&self) -> WorkoutSetView {
        WorkoutSetView { num_of_sets: self.num_of_sets, reps: self.reps@ }
    }
}

impl DeepView for WorkoutSet {
    type V = WorkoutSetView;

    open spec fn deep_view(&self) -> WorkoutSetView {
        self.view()
    }
}

/// A finished set record holds exactly one rep value per recorded set.
pub open spec fn workout_set_wf(w: WorkoutSetView) -> bool {
    w.reps.len() == sets_to_record(w.num_of_sets)
}

fn clone_reps(v: &Vec<u8>) -> (r: Vec<u8>)
    ensures
        r@ == v@,
{
    let mut r: Vec<u8> = Vec::new();
    let mut i: usize = 0;
    while i < v.len()
        invariant
            i <= v.len(),
            r@ == v@.take(i as int),
        decreases v.len() - i,
    {
        r.push(v[i]);
        proof {
            assert(v@.take(i as int).push(v@[i as int]) =~= v@.take(i as int + 1));
        }
        i = i + 1;
    }
    proof {
        assert(v@.take(v@.len() as int) =~= v@);
    }
    r
}

impl Clone for WorkoutSet {
    fn clone(&self) -> (r: Self)
        ensures
            r@ == self@,
    {
        WorkoutSet { num_of_sets: self.num_of_sets, reps: clone_reps(&self.reps) }
    }
}

/// Collects the rep count of each set in turn, one prompt per set index
/// starting at 1 and ending one short of the set count.
pub struct WorkoutSetBuilder {
    pub num_of_sets: u8,
    pub reps: Vec<u8>,
}

pub ghost struct WorkoutSetBuilderView {
    pub num_of_sets: u8,
    pub reps: Seq<u8>,
}

impl View for WorkoutSetBuilder {
    type V = WorkoutSetBuilderView;

    open spec fn view(&self) -> WorkoutSetBuilderView {
        WorkoutSetBuilderView { num_of_sets: self.num_of_sets, reps: self.reps@ }
    }
}

/// A builder never holds more rep values than it will record.
pub open spec fn builder_wf(b: WorkoutSetBuilderView) -> bool {
    b.reps.len() <= sets_to_record(b.num_of_sets)
}

/// The set index to ask about next, or nothing once every set from 1 to
/// one short of the set count has its rep value.
pub open spec fn next_index_spec(b: WorkoutSetBuilderView) -> Option<u8> {
    if b.reps.len() + 1 < b.num_of_sets {
        Some((b.reps.len() + 1) as u8)
    } else {
        None
    }
}

impl WorkoutSetBuilder {
    pub fn new(num_of_sets: u8) -> (r: Self)
        ensures
            r@.num_of_sets == num_of_sets,
            r@.reps == Seq::<u8>::empty(),
            builder_wf(r@),
    {
        let r = WorkoutSetBuilder { num_of_sets, reps: Vec::new() };
        proof {
            assert(r@.reps =~= Seq::<u8>::empty());
        }
        r
    }

    /// The index of the set whose rep count is wanted next, if any.
    pub fn next_set_index(&self) -> (r: Option<u8>)
        requires
            builder_wf(self@),
        ensures
            r == next_index_spec(self@),
    {
        if self.reps.len() + 1 < self.num_of_sets as usize {
            Some((self.reps.len() + 1) as u8)
        } else {
            None
        }
    }

    /// Record the rep count of the next set, in order.
    pub fn push_rep(&mut self, rep: u8)
        requires
            builder_wf(old(self)@),
            next_index_spec(old(self)@) is Some,
        ensures
            final(self)@.num_of_sets == old(self)@.num_of_sets,
            final(self)@.reps == old(self)@.reps.push(rep),
            builder_wf(final(self)@),
    {
        self.reps.push(rep);
    }

    /// Close the record once every wanted rep value is in.
    pub fn finish(self) -> (r: WorkoutSet)
        requires
            builder_wf(self@),
            next_index_spec(self@) is None,
        ensures
            r@.num_of_sets == self@.num_of_sets,
            r@.reps == self@.reps,
            workout_set_wf(r@),
    {
        WorkoutSet { num_of_sets: self.num_of_sets, reps: self.reps }
    }
}

/// Rep values are asked for exactly once per set index from 1 to one
/// short of the set count: collection is complete precisely when that
/// many values are recorded, and the next prompt always bears the index
/// one past the values recorded so far.
pub proof fn lemma_rep_prompt_count(b: WorkoutSetBuilderView)
    requires
        builder_wf(b),
    ensures
        next_index_spec(b) is None <==> b.reps.len() == sets_to_record(b.num_of_sets),
        next_index_spec(b) is Some ==> next_index_spec(b) == Some((b.reps.len() + 1) as u8),
{
}

/// One performed exercise within a workout: the definition it was made
/// from (copied, so later edits do not reach it), its set record, and
/// free-text notes, empty at creation.
pub struct Exercise {
    pub exc_type: ExerciseType,
    pub sets: WorkoutSet,
    pub notes: String,
}

pub ghost struct ExerciseView {
    pub exc_type: ExerciseTypeView,
    pub sets: WorkoutSetView,
    pub notes: Seq<char>,
}

impl View for Exercise {
    type V = ExerciseView;

    open spec fn view(&self) -> ExerciseView {
        ExerciseView { exc_type: self.exc_type@, sets: self.sets@, notes: self.notes@ }
    }
}

impl DeepView for Exercise {
    type V = ExerciseView;

    open spec fn deep_view(&self) -> ExerciseView {
        self.view()
    }
}

/// The one-line rendering of a performed exercise.
pub open spec fn details_line(e: ExerciseView) -> Seq<char> {
    e.exc_type.name + ", number of sets: "@ + dec_str(e.sets.num_of_sets as int) + ", notes: "@
        + e.notes
}

impl Exercise {
    pub fn new(exc_type: ExerciseType, sets: WorkoutSet) -> (r: Self)
        ensures
            r@.exc_type == exc_type@,
            r@.sets == sets@,
            r@.notes == Seq::<char>::empty(),
    {
        Exercise { exc_type, sets, notes: String::new() }
    }

    /// The line the summary report shows for this exercise.
    pub fn details(&self) -> (r: String)
        ensures
            r@ == details_line(self@),
    {
        let mut r = self.exc_type.name.clone();
        r.append(", number of sets: ");
        r.append(u8_to_string(self.sets.num_of_sets).as_str());
        r.append(", notes: ");
        r.append(self.notes.as_str());
        r
    }
}

impl Clone for Exercise {
    fn clone(&self) -> (r: Self)
        ensures
            r@ == self@,
    {
        Exercise {
            exc_type: self.exc_type.clone(),
            sets: self.sets.clone(),
            notes: self.notes.clone(),
        }
    }
}

/// Relies on chrono::Local::now and chrono::DateTime::timestamp: the
/// current local date-time read from the system clock, as whole seconds
/// since the Unix epoch. Nothing is assumed of the value.
#[verifier::external_body]
fn current_timestamp() -> i64 {
    chrono::Local::now().timestamp()
}

/// A timestamped collection of exercises recorded in one session.
pub struct Workout {
    pub date: i64,
    pub exercises: Vec<Exercise>,
}

pub ghost struct WorkoutView {
    pub date: i64,
    pub exercises: Seq<ExerciseView>,
}

impl View for Workout {
    type V = WorkoutView;

    open spec fn view(&self) -> WorkoutView {
        WorkoutView { date: self.date, exercises: self.exercises.deep_view() }
    }
}

impl DeepView for Workout {
    type V = WorkoutView;

    open spec fn deep_view(&self) -> WorkoutView {
        self.view()
    }
}

fn clone_exercises(v: &Vec<Exercise>) -> (r: Vec<Exercise>)
    ensures
        r.deep_view() == v.deep_view(),
{
    let mut r: Vec<Exercise> = Vec::new();
    let mut i: usize = 0;
    while i < v.len()
        invariant
            i <= v.len(),
            r@.len() == i,
            forall|j: int| 0 <= j < i ==> r@[j]@ == v@[j]@,
        decreases v.len() - i,
    {
        r.push(v[i].clone());
        i = i + 1;
    }
    proof {
        assert(r.deep_view() =~= v.deep_view());
    }
    r
}

impl Workout {
    /// Build a workout from the exercises of one session, stamped with
    /// the time of construction.
    pub fn new(exercises: Vec<Exercise>) -> (r: Self)
        ensures
            r@.exercises == exercises.deep_view(),
    {
        Workout { date: current_timestamp(), exercises }
    }
}

impl Clone for Workout {
    fn clone(&self) -> (r: Self)
        ensures
            r@ == self@,
    {
        Workout { date: self.date, exercises: clone_exercises(&self.exercises) }
    }
}

/// A named user with accumulated workout history. The name is the
/// profile's key.
pub struct Profile {
    pub name: String,
    pub workout_days: Vec<Weekday>,
    pub workouts: Vec<Workout>,
}

pub ghost struct ProfileView {
    pub name: Seq<char>,
    pub workout_days: Seq<Weekday>,
    pub workouts: Seq<WorkoutView>,
}

impl View for Profile {
    type V = ProfileView;

    open spec fn view(&self) -> ProfileView {
        ProfileView {
            name: self.name@,
            workout_days: self.workout_days@,
            workouts: self.workouts.deep_view(),
        }
    }
}

impl DeepView for Profile {
    type V = ProfileView;

    open spec fn deep_view(&self) -> ProfileView {
        self.view()
    }
}

fn clone_workouts(v: &Vec<Workout>) -> (r: Vec<Workout>)
    ensures
        r.deep_view() == v.deep_view(),
{
    let mut r: Vec<Workout> = Vec::new();
    let mut i: usize = 0;
    while i < v.len()
        invariant
            i <= v.len(),
            r@.len() == i,
            forall|j: int| 0 <= j < i ==> r@[j]@ == v@[j]@,
        decreases v.len() - i,
    {
        r.push(v[i].clone());
        i = i + 1;
    }
    proof {
        assert(r.deep_view() =~= v.deep_view());
    }
    r
}

fn clone_weekdays(v: &Vec<Weekday>) -> (r: Vec<Weekday>)
    ensures
        r@ == v@,
{
    let mut r: Vec<Weekday> = Vec::new();
    let mut i: usize = 0;
    while i < v.len()
        invariant
            i <= v.len(),
            r@ == v@.take(i as int),
        decreases v.len() - i,
    {
        r.push(v[i]);
        proof {
            assert(v@.take(i as int).push(v@[i as int]) =~= v@.take(i as int + 1));
        }
        i = i + 1;
    }
    proof {
        assert(v@.take(v@.len() as int) =~= v@);
    }
    r
}

impl Profile {
    /// A fresh profile: empty history, no planned days.
    pub fn new(name: String) -> (r: Self)
        ensures
            r@.name == name@,
            r@.workout_days == Seq::<Weekday>::empty(),
            r@.workouts == Seq::<WorkoutView>::empty(),
    {
        let r = Profile { name, workout_days: Vec::new(), workouts: Vec::new() };
        proof {
            assert(r@.workout_days =~= Seq::<Weekday>::empty());
            assert(r@.workouts =~= Seq::<WorkoutView>::empty());
        }
        r
    }
}

impl Clone for Profile {
    fn clone(&self) -> (r: Self)
        ensures
            r@ == self@,
    {
        Profile {
            name: self.name.clone(),
            workout_days: clone_weekdays(&self.workout_days),
            workouts: clone_workouts(&self.workouts),
        }
    }
}

} // verus!
