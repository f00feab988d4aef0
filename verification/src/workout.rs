//! A gym workout composed of a cardio part and a weightlifting part.

use vstd::prelude::*;

verus! {

/// The machine a cardio exercise is performed on.
#[derive(Debug)]
pub enum CardioTool {
    Treadmill,
}

/// One cardio exercise: the day it is scheduled, the tool, and its length.
#[derive(Debug)]
pub struct CardioExercise {
    pub day: String,
    pub tool: CardioTool,
    pub duration_mins: u32,
}

impl CardioExercise {
    pub fn new(day: String, tool: CardioTool, duration_mins: u32) -> (exercise: Self)
        ensures
            exercise.day@ == day@,
            exercise.tool == tool,
            exercise.duration_mins == duration_mins,
    {
        Self { day, tool, duration_mins }
    }
}

/// One weightlifting exercise: its name and the number of repetitions.
#[derive(Debug)]
pub struct WeightliftingExercise {
    pub exercise_name: String,
    pub reps: u32,
}

impl WeightliftingExercise {
    pub fn new(exercise_name: String, reps: u32) -> (exercise: Self)
        ensures
            exercise.exercise_name@ == exercise_name@,
            exercise.reps == reps,
    {
        Self { exercise_name, reps }
    }
}

/// A full gym workout: treadmill cardio on Monday and a bench session.
#[derive(Debug)]
pub struct GymWorkout {
    pub cardio: CardioExercise,
    pub weightlifting: WeightliftingExercise,
}

impl GymWorkout {
    pub fn new() -> (workout: GymWorkout)
        ensures
            workout.cardio.day@ == "Monday"@,
            workout.cardio.tool is Treadmill,
            workout.cardio.duration_mins == 30,
            workout.weightlifting.exercise_name@ == "Bench"@,
            workout.weightlifting.reps == 10,
    {
        GymWorkout {
            cardio: CardioExercise::new("Monday".to_owned(), CardioTool::Treadmill, 30),
            weightlifting: WeightliftingExercise::new("Bench".to_owned(), 10),
        }
    }
}

} // verus!
