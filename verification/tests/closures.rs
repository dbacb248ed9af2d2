use primer::closures::{test_bibao, workout_plan, Cacher, WorkoutStep};

#[test]
fn the_cache_runs_the_calculation_once() {
    let mut c = Cacher::new(|num: u32| num);
    let first = c.value(1);
    let second = c.value(2);
    assert_eq!(first, 1);
    assert_eq!(second, 1);
}

#[test]
fn light_workouts_print_the_number_twice() {
    assert_eq!(
        workout_plan(10, 7),
        vec![WorkoutStep::Intensity(10), WorkoutStep::Intensity(10)]
    );
}

#[test]
fn lucky_days_cheer_instead() {
    assert_eq!(workout_plan(30, 3), vec![WorkoutStep::Cheer]);
}

#[test]
fn heavy_workouts_print_the_number_once() {
    assert_eq!(workout_plan(30, 7), vec![WorkoutStep::Intensity(30)]);
}

#[test]
fn closures_capture_their_surroundings() {
    test_bibao();
}
