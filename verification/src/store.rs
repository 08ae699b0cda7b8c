//! The session store: the registry of profiles and available exercise
//! definitions, the current user, and the content of the persistent
//! profile record.

use vstd::prelude::*;
use vstd::string::*;
use crate::body_part::BodyPart;
use crate::model::{
    Exercise, ExerciseType, ExerciseTypeView, Profile, ProfileView, Weekday, Workout, WorkoutView,
    details_line,
};
use crate::text::{split_semi, split_semicolons, trim_str, trimmed};

verus! {

/// A profile as freshly created: the given name, no history.
pub open spec fn fresh_profile(name: Seq<char>) -> ProfileView {
    ProfileView {
        name,
        workout_days: Seq::<Weekday>::empty(),
        workouts: Seq::<WorkoutView>::empty(),
    }
}

/// The first profile of the list bearing the name, if any.
pub open spec fn find_first_user(users: Seq<ProfileView>, name: Seq<char>) -> Option<ProfileView>
    decreases users.len(),
{
    if users.len() == 0 {
        None
    } else if users[0].name == name {
        Some(users[0])
    } else {
        find_first_user(users.drop_first(), name)
    }
}

/// The first exercise definition of the list bearing the name, if any.
pub open spec fn find_first_exercise(
    exercises: Seq<ExerciseTypeView>,
    name: Seq<char>,
) -> Option<ExerciseTypeView>
    decreases exercises.len(),
{
    if exercises.len() == 0 {
        None
    } else if exercises[0].name == name {
        Some(exercises[0])
    } else {
        find_first_exercise(exercises.drop_first(), name)
    }
}

/// The exercise definitions whose target is exactly the given muscle,
/// in registration order.
pub open spec fn matching_exercises(
    exercises: Seq<ExerciseTypeView>,
    muscle: BodyPart,
) -> Seq<ExerciseTypeView>
    decreases exercises.len(),
{
    if exercises.len() == 0 {
        Seq::<ExerciseTypeView>::empty()
    } else if exercises[0].target == muscle {
        seq![exercises[0]] + matching_exercises(exercises.drop_first(), muscle)
    } else {
        matching_exercises(exercises.drop_first(), muscle)
    }
}

/// The in-memory session state. `curr_user` is a detached copy of the
/// profile that logged in: nothing written to it flows back into
/// `registered_users`. `profile_file` is what the persistent profile
/// record holds, as last read or written; the surrounding program keeps
/// the file on disk in step with it.
pub struct System {
    pub curr_user: Profile,
    pub registered_users: Vec<Profile>,
    pub available_exercises: Vec<ExerciseType>,
    pub profile_file: String,
}

pub ghost struct SystemView {
    pub curr_user: ProfileView,
    pub registered_users: Seq<ProfileView>,
    pub available_exercises: Seq<ExerciseTypeView>,
    pub profile_file: Seq<char>,
}

impl View for System {
    type V = SystemView;

    open spec fn view(&self) -> SystemView {
        SystemView {
            curr_user: self.curr_user@,
            registered_users: self.registered_users.deep_view(),
            available_exercises: self.available_exercises.deep_view(),
            profile_file: self.profile_file@,
        }
    }
}

/// One user was created: a fresh profile with the given name joined the
/// registry, and the persistent record now holds that name alone,
/// whatever it held before.
pub open spec fn created_user(pre: SystemView, post: SystemView, name: Seq<char>) -> bool {
    &&& post.registered_users == pre.registered_users.push(fresh_profile(name))
    &&& post.profile_file == name + seq![';']
    &&& post.curr_user == pre.curr_user
    &&& post.available_exercises == pre.available_exercises
}

/// One workout was appended to the current user's history, carrying
/// exactly the given exercises; its date is whatever the clock gave.
pub open spec fn added_workout(
    pre: SystemView,
    post: SystemView,
    exercises: Seq<crate::model::ExerciseView>,
) -> bool {
    &&& post.curr_user.workouts.len() == pre.curr_user.workouts.len() + 1
    &&& forall|j: int|
        0 <= j < pre.curr_user.workouts.len() ==> post.curr_user.workouts[j]
            == pre.curr_user.workouts[j]
    &&& post.curr_user.workouts.last().exercises == exercises
    &&& post.curr_user.name == pre.curr_user.name
    &&& post.curr_user.workout_days == pre.curr_user.workout_days
    &&& post.registered_users == pre.registered_users
    &&& post.available_exercises == pre.available_exercises
    &&& post.profile_file == pre.profile_file
}

impl System {
    /// Build the store from the content of the persistent profile
    /// record, as the program read it at startup. Profiles are parsed
    /// out of the content only when the content is empty — so a
    /// non-empty record loads no profiles at all. That inverted
    /// condition is almost certainly a defect, but it is what startup
    /// has always done, so it is kept and documented here rather than
    /// silently corrected. No exercise definitions are ever loaded.
    pub fn new(profiles_content: String) -> (r: Self)
        ensures
            r@.curr_user == fresh_profile("None"@),
            r@.profile_file == profiles_content@,
            r@.available_exercises == Seq::<ExerciseTypeView>::empty(),
            profiles_content@.len() == 0 ==> r@.registered_users == split_semi(
                profiles_content@,
            ).map_values(|n: Seq<char>| fresh_profile(n)),
            profiles_content@.len() > 0 ==> r@.registered_users == Seq::<ProfileView>::empty(),
    {
        let mut profiles_list: Vec<Profile> = Vec::new();
        if profiles_content.as_str().is_empty() {
            let names = split_semicolons(profiles_content.as_str());
            let ghost pieces = split_semi(profiles_content@);
            let mut i: usize = 0;
            while i < names.len()
                invariant
                    i <= names.len(),
                    names@.map_values(|p: String| p@) == pieces,
                    profiles_list@.len() == i,
                    forall|j: int|
                        0 <= j < i ==> profiles_list@[j]@ == fresh_profile(pieces[j]),
                decreases names.len() - i,
            {
                proof {
                    assert(names@.map_values(|p: String| p@)[i as int] == names@[i as int]@);
                }
                profiles_list.push(Profile::new(names[i].clone()));
                i = i + 1;
            }
            proof {
                assert(profiles_list.deep_view() =~= pieces.map_values(
                    |n: Seq<char>| fresh_profile(n),
                ));
            }
        }
        let r = System {
            curr_user: Profile::new("None".to_owned()),
            registered_users: profiles_list,
            available_exercises: Vec::new(),
            profile_file: profiles_content,
        };
        proof {
            assert(r@.available_exercises =~= Seq::<ExerciseTypeView>::empty());
            if r@.registered_users.len() == 0 {
                assert(r@.registered_users =~= Seq::<ProfileView>::empty());
            }
        }
        r
    }

    /// Look a profile up by exact, case-sensitive name match; a copy of
    /// the first match comes back.
    pub fn find_user(&self, name: String) -> (r: Option<Profile>)
        ensures
            match r {
                Option::None => find_first_user(self@.registered_users, name@) is None,
                Option::Some(p) => find_first_user(self@.registered_users, name@) == Some(p@),
            },
    {
        let ghost users = self@.registered_users;
        let mut i: usize = 0;
        proof {
            assert(users.skip(0) =~= users);
        }
        while i < self.registered_users.len()
            invariant
                i <= self.registered_users.len(),
                users == self@.registered_users,
                find_first_user(users, name@) == find_first_user(users.skip(i as int), name@),
            decreases self.registered_users.len() - i,
        {
            proof {
                assert(users.skip(i as int)[0] == users[i as int]);
                assert(users.skip(i as int).drop_first() =~= users.skip(i as int + 1));
            }
            if crate::text::str_eq(self.registered_users[i].name.as_str(), name.as_str()) {
                return Some(self.registered_users[i].clone());
            }
            i = i + 1;
        }
        proof {
            assert(users.skip(self.registered_users@.len() as int) =~= Seq::<ProfileView>::empty());
        }
        None
    }

    /// Register a new, empty profile under the name and rewrite the
    /// persistent record to hold that name alone, with its trailing
    /// semicolon: creation truncates whatever was recorded before, so
    /// only the newest name survives. The returned profile is the
    /// caller's copy.
    pub fn create_new_user(&mut self, name: String) -> (r: Profile)
        ensures
            created_user(old(self)@, final(self)@, name@),
            r@ == fresh_profile(name@),
    {
        proof {
            reveal_strlit(";");
            assert(";"@ =~= seq![';']);
        }
        let new_profile = Profile::new(name.clone());
        let ghost old_users = self@.registered_users;
        self.registered_users.push(new_profile.clone());
        self.profile_file = name.concat(";");
        proof {
            assert(self.registered_users.deep_view() =~= old_users.push(
                fresh_profile(new_profile@.name),
            ));
        }
        new_profile
    }

    /// Log a user in: the line as read is looked up exactly; on a
    /// match, the current user becomes a detached copy of that profile;
    /// otherwise a new profile under the trimmed line is created and
    /// becomes the current user.
    pub fn login(&mut self, line: String)
        ensures
            ({
                let found = find_first_user(old(self)@.registered_users, line@);
                match found {
                    Option::Some(p) => final(self)@ == SystemView { curr_user: p, ..old(self)@ },
                    Option::None => {
                        &&& final(self)@.curr_user == fresh_profile(trimmed(line@))
                        &&& final(self)@.registered_users == old(self)@.registered_users.push(
                            fresh_profile(trimmed(line@)),
                        )
                        &&& final(self)@.profile_file == trimmed(line@) + seq![';']
                        &&& final(self)@.available_exercises == old(self)@.available_exercises
                    },
                }
            }),
    {
        match self.find_user(line.clone()) {
            Option::Some(user) => {
                self.curr_user = user;
            },
            Option::None => {
                let trimmed_name = trim_str(line.as_str());
                let p = self.create_new_user(trimmed_name);
                self.curr_user = p;
            },
        }
    }

    /// Look an exercise definition up by exact, case-sensitive name
    /// match; a copy of the first match comes back.
    pub fn find_exercise(&self, name: &str) -> (r: Option<ExerciseType>)
        ensures
            match r {
                Option::None => find_first_exercise(self@.available_exercises, name@) is None,
                Option::Some(e) => find_first_exercise(self@.available_exercises, name@) == Some(
                    e@,
                ),
            },
    {
        let ghost exercises = self@.available_exercises;
        let mut i: usize = 0;
        proof {
            assert(exercises.skip(0) =~= exercises);
        }
        while i < self.available_exercises.len()
            invariant
                i <= self.available_exercises.len(),
                exercises == self@.available_exercises,
                find_first_exercise(exercises, name@) == find_first_exercise(
                    exercises.skip(i as int),
                    name@,
                ),
            decreases self.available_exercises.len() - i,
        {
            proof {
                assert(exercises.skip(i as int)[0] == exercises[i as int]);
                assert(exercises.skip(i as int).drop_first() =~= exercises.skip(i as int + 1));
            }
            if crate::text::str_eq(self.available_exercises[i].name.as_str(), name) {
                return Some(self.available_exercises[i].clone());
            }
            i = i + 1;
        }
        proof {
            assert(exercises.skip(self.available_exercises@.len() as int) =~= Seq::<
                ExerciseTypeView,
            >::empty());
        }
        None
    }

    /// The exercise definitions targeting exactly the given muscle, in
    /// registration order, copied out for display.
    pub fn exercises_for(&self, muscle: BodyPart) -> (r: Vec<ExerciseType>)
        ensures
            r.deep_view() == matching_exercises(self@.available_exercises, muscle),
    {
        let ghost exercises = self@.available_exercises;
        let mut r: Vec<ExerciseType> = Vec::new();
        let mut i: usize = 0;
        proof {
            assert(exercises.skip(0) =~= exercises);
            assert(r.deep_view() + matching_exercises(exercises, muscle) =~= matching_exercises(
                exercises,
                muscle,
            ));
        }
        while i < self.available_exercises.len()
            invariant
                i <= self.available_exercises.len(),
                exercises == self@.available_exercises,
                matching_exercises(exercises, muscle) == r.deep_view() + matching_exercises(
                    exercises.skip(i as int),
                    muscle,
                ),
            decreases self.available_exercises.len() - i,
        {
            let ghost old_r = r.deep_view();
            proof {
                assert(exercises.skip(i as int)[0] == exercises[i as int]);
                assert(exercises.skip(i as int).drop_first() =~= exercises.skip(i as int + 1));
            }
            if self.available_exercises[i].target == muscle {
                r.push(self.available_exercises[i].clone());
                proof {
                    assert(r.deep_view() =~= old_r.push(exercises[i as int]));
                    assert(old_r + (seq![exercises[i as int]] + matching_exercises(
                        exercises.skip(i as int + 1),
                        muscle,
                    )) =~= r.deep_view() + matching_exercises(exercises.skip(i as int + 1), muscle));
                }
            }
            i = i + 1;
        }
        proof {
            assert(exercises.skip(self.available_exercises@.len() as int) =~= Seq::<
                ExerciseTypeView,
            >::empty());
            assert(r.deep_view() + Seq::<ExerciseTypeView>::empty() =~= r.deep_view());
        }
        r
    }

    /// Register one exercise definition.
    pub fn add_exercise(&mut self, name: String, target: BodyPart)
        ensures
            final(self)@.available_exercises == old(self)@.available_exercises.push(
                ExerciseTypeView { name: name@, target },
            ),
            final(self)@.registered_users == old(self)@.registered_users,
            final(self)@.curr_user == old(self)@.curr_user,
            final(self)@.profile_file == old(self)@.profile_file,
    {
        let ghost old_exercises = self@.available_exercises;
        self.available_exercises.push(ExerciseType::new(name, target));
        proof {
            assert(self.available_exercises.deep_view() =~= old_exercises.push(
                self.available_exercises@.last()@,
            ));
        }
    }

    /// Append a workout holding the given exercises to the current
    /// user's history, stamped with the time of construction. The
    /// registry and the persistent record are untouched: the current
    /// user is a detached copy.
    pub fn add_workout(&mut self, exercises: Vec<Exercise>)
        ensures
            added_workout(old(self)@, final(self)@, exercises.deep_view()),
    {
        let ghost old_workouts = self@.curr_user.workouts;
        let w = Workout::new(exercises);
        self.curr_user.workouts.push(w);
        proof {
            assert(self.curr_user.workouts.deep_view() =~= old_workouts.push(
                self.curr_user.workouts@.last()@,
            ));
        }
    }

    /// The summary report: one line per exercise of the FIRST workout
    /// ever recorded, however many followed. There is nothing to report
    /// before a workout exists, so callers must ensure one does; the
    /// surrounding program treats the empty case as the fatal
    /// out-of-bounds it has always been.
    pub fn curr_user_exercises(&self) -> (r: Vec<String>)
        requires
            self@.curr_user.workouts.len() > 0,
        ensures
            r.deep_view() == self@.curr_user.workouts[0].exercises.map_values(
                |e: crate::model::ExerciseView| details_line(e),
            ),
    {
        let first = &self.curr_user.workouts[0];
        let ghost goal = self@.curr_user.workouts[0].exercises.map_values(
            |e: crate::model::ExerciseView| details_line(e),
        );
        let mut r: Vec<String> = Vec::new();
        let mut i: usize = 0;
        while i < first.exercises.len()
            invariant
                i <= first.exercises.len(),
                first@ == self@.curr_user.workouts[0],
                self@.curr_user.workouts.len() > 0,
                goal == self@.curr_user.workouts[0].exercises.map_values(
                    |e: crate::model::ExerciseView| details_line(e),
                ),
                r@.len() == i,
                forall|j: int| 0 <= j < i ==> r@[j]@ == goal[j],
            decreases first.exercises.len() - i,
        {
            r.push(first.exercises[i].details());
            i = i + 1;
        }
        proof {
            assert(r.deep_view() =~= goal);
        }
        r
    }
}

/// User lookup is an exact, case-sensitive match: it hits precisely
/// when some registered profile bears the requested name, character
/// for character, and what comes back is such a profile.
pub proof fn lemma_user_lookup_exact(users: Seq<ProfileView>, name: Seq<char>)
    ensures
        find_first_user(users, name) is Some <==> exists|i: int|
            0 <= i < users.len() && #[trigger] users[i].name == name,
        find_first_user(users, name) matches Some(p) ==> p.name == name && users.contains(p),
    decreases users.len(),
{
    if users.len() > 0 {
        lemma_user_lookup_exact(users.drop_first(), name);
        let rest = users.drop_first();
        if users[0].name == name {
            assert(users[0].name == name);
        } else {
            if exists|i: int| 0 <= i < users.len() && #[trigger] users[i].name == name {
                let i = choose|i: int| 0 <= i < users.len() && #[trigger] users[i].name == name;
                assert(rest[i - 1].name == name);
            }
            if exists|i: int| 0 <= i < rest.len() && #[trigger] rest[i].name == name {
                let i = choose|i: int| 0 <= i < rest.len() && #[trigger] rest[i].name == name;
                assert(users[i + 1].name == name);
            }
            if let Some(p) = find_first_user(rest, name) {
                let k = choose|k: int| 0 <= k < rest.len() && rest[k] == p;
                assert(users[k + 1] == p);
            }
        }
    }
}

/// Exercise lookup is an exact, case-sensitive match, in the same way.
pub proof fn lemma_exercise_lookup_exact(exercises: Seq<ExerciseTypeView>, name: Seq<char>)
    ensures
        find_first_exercise(exercises, name) is Some <==> exists|i: int|
            0 <= i < exercises.len() && #[trigger] exercises[i].name == name,
        find_first_exercise(exercises, name) matches Some(e) ==> e.name == name
            && exercises.contains(e),
    decreases exercises.len(),
{
    if exercises.len() > 0 {
        lemma_exercise_lookup_exact(exercises.drop_first(), name);
        let rest = exercises.drop_first();
        if exercises[0].name == name {
            assert(exercises[0].name == name);
        } else {
            if exists|i: int| 0 <= i < exercises.len() && #[trigger] exercises[i].name == name {
                let i = choose|i: int|
                    0 <= i < exercises.len() && #[trigger] exercises[i].name == name;
                assert(rest[i - 1].name == name);
            }
            if exists|i: int| 0 <= i < rest.len() && #[trigger] rest[i].name == name {
                let i = choose|i: int| 0 <= i < rest.len() && #[trigger] rest[i].name == name;
                assert(exercises[i + 1].name == name);
            }
            if let Some(e) = find_first_exercise(rest, name) {
                let k = choose|k: int| 0 <= k < rest.len() && rest[k] == e;
                assert(exercises[k + 1] == e);
            }
        }
    }
}

/// Everything the display filter yields targets exactly the requested
/// muscle and comes from the registry.
pub proof fn lemma_matching_exact(exercises: Seq<ExerciseTypeView>, muscle: BodyPart)
    ensures
        forall|k: int|
            0 <= k < matching_exercises(exercises, muscle).len()
                ==> #[trigger] matching_exercises(exercises, muscle)[k].target == muscle
                && exercises.contains(matching_exercises(exercises, muscle)[k]),
    decreases exercises.len(),
{
    if exercises.len() > 0 {
        lemma_matching_exact(exercises.drop_first(), muscle);
        let rest = exercises.drop_first();
        let m = matching_exercises(exercises, muscle);
        let mr = matching_exercises(rest, muscle);
        assert forall|k: int| 0 <= k < m.len() implies #[trigger] m[k].target == muscle
            && exercises.contains(m[k]) by {
            if exercises[0].target == muscle {
                if k == 0 {
                    assert(exercises[0] == m[0]);
                } else {
                    assert(m[k] == mr[k - 1]);
                    let j = choose|j: int| 0 <= j < rest.len() && rest[j] == mr[k - 1];
                    assert(exercises[j + 1] == m[k]);
                }
            } else {
                assert(m[k] == mr[k]);
                let j = choose|j: int| 0 <= j < rest.len() && rest[j] == mr[k];
                assert(exercises[j + 1] == m[k]);
            }
        }
    }
}

/// Creating a user and then creating another leaves the persistent
/// record holding only the second name and its semicolon: every
/// creation truncates what came before.
pub proof fn lemma_profile_record_truncates(
    s0: SystemView,
    s1: SystemView,
    s2: SystemView,
    first: Seq<char>,
    second: Seq<char>,
)
    requires
        created_user(s0, s1, first),
        created_user(s1, s2, second),
    ensures
        s2.profile_file == second + seq![';'],
{
}

} // verus!
