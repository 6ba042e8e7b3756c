use secs::executor::retain_pending;
use secs::schedule::{plan_stages, StageError};

fn names(v: &[&str]) -> Vec<String> {
    v.iter().map(|s| s.to_string()).collect()
}

#[test]
fn stages_run_in_declared_order_and_systems_in_registration_order() {
    let stages = names(&["update", "render"]);
    let systems = names(&["render", "update", "render", "update"]);
    let plan = plan_stages(&stages, &systems).unwrap();
    assert_eq!(plan, vec![vec![1, 3], vec![0, 2]]);
}

#[test]
fn undeclared_stage_is_a_configuration_error() {
    let stages = names(&["update"]);
    let systems = names(&["update", "physics", "other"]);
    assert_eq!(plan_stages(&stages, &systems), Err(StageError::UnknownStage(1)));
}

#[test]
fn stage_without_systems_is_empty() {
    let stages = names(&["a", "b"]);
    let systems = names(&["b"]);
    assert_eq!(plan_stages(&stages, &systems).unwrap(), vec![vec![], vec![0]]);
    assert_eq!(plan_stages(&stages, &vec![]).unwrap(), vec![Vec::<usize>::new(), vec![]]);
}

#[test]
fn retain_pending_keeps_unfinished_last_first() {
    let mut pending = vec!['a', 'b', 'c', 'd'];
    retain_pending(&mut pending, &vec![false, true, false, false]);
    assert_eq!(pending, vec!['d', 'c', 'a']);
    retain_pending(&mut pending, &vec![true, true, true]);
    assert!(pending.is_empty());
}
