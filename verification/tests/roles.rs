use ticker_roles::error::ReconcileError;
use ticker_roles::reconcile::{check_roles, report_mutations};
use ticker_roles::roles::{holds, plan_roles, Direction, RolePair, RolePlan};

const GREEN: u64 = 621894745807126538;
const RED: u64 = 621894973360439299;
const OTHER: u64 = 286572805137498112;

fn carry_out(held: &mut Vec<u64>, plan: &RolePlan, add_ok: bool, remove_ok: bool) {
    if let Some(role) = plan.add {
        if add_ok {
            held.push(role);
        }
    }
    if let Some(role) = plan.remove {
        if remove_ok {
            held.retain(|r| *r != role);
        }
    }
}

#[test]
fn direction_is_the_sign_of_the_percentage() {
    assert_eq!(Direction::from_bits(1.5f64.to_bits()), Direction::Up);
    assert_eq!(Direction::from_bits(f64::MAX.to_bits()), Direction::Up);
    assert_eq!(Direction::from_bits(f64::MIN_POSITIVE.to_bits()), Direction::Up);
    assert_eq!(Direction::from_bits(f64::from_bits(1).to_bits()), Direction::Up);
    assert_eq!(Direction::from_bits((-1.98f64).to_bits()), Direction::Down);
    assert_eq!(Direction::from_bits(f64::MIN.to_bits()), Direction::Down);
    assert_eq!(Direction::from_bits((-f64::MIN_POSITIVE).to_bits()), Direction::Down);
    assert_eq!(Direction::from_bits(0.0f64.to_bits()), Direction::Flat);
    assert_eq!(Direction::from_bits((-0.0f64).to_bits()), Direction::Flat);
}

#[test]
fn direction_agrees_with_the_comparison_of_floats() {
    let samples = [
        0.0,
        -0.0,
        1.0,
        -1.0,
        0.25,
        -1.980198019801980,
        123456.789,
        -1e-300,
        1e-320,
        -1e-320,
        1e300,
        f64::MAX,
        f64::MIN,
        f64::EPSILON,
        f64::INFINITY,
        f64::NEG_INFINITY,
        f64::NAN,
        -f64::NAN,
    ];
    for percent in samples {
        let direction = Direction::from_bits(percent.to_bits());
        assert_eq!(direction == Direction::Up, percent > 0.0, "{}", percent);
        assert_eq!(direction == Direction::Flat, percent == 0.0, "{}", percent);
    }
}

#[test]
fn direction_of_a_change_that_is_not_finite() {
    // a previous close of zero gives infinity, or no number at all
    let rise = 100. * ((5.0f64 - 0.0) / 0.0);
    let nothing = 100. * ((0.0f64 - 0.0) / 0.0);
    let fall = 100. * ((-5.0f64 - 0.0) / 0.0);
    assert!(rise.is_infinite() && nothing.is_nan() && fall.is_infinite());
    let roles = RolePair::new(RED, GREEN).unwrap();
    assert_eq!(roles.desired_role(Direction::from_bits(rise.to_bits())), RED);
    assert_eq!(roles.desired_role(Direction::from_bits(nothing.to_bits())), GREEN);
    assert_eq!(roles.desired_role(Direction::from_bits(fall.to_bits())), GREEN);
}

#[test]
fn role_pair_needs_two_roles() {
    assert_eq!(RolePair::new(RED, RED), None);
    assert_eq!(RolePair::new(RED, GREEN), Some(RolePair { positive: RED, negative: GREEN }));
}

#[test]
fn sign_selects_the_role() {
    let roles = RolePair::new(RED, GREEN).unwrap();
    assert_eq!(roles.desired_role(Direction::Up), RED);
    assert_eq!(roles.desired_role(Direction::Flat), GREEN);
    assert_eq!(roles.desired_role(Direction::Down), GREEN);
    assert_eq!(roles.opposite_role(Direction::Up), GREEN);
    assert_eq!(roles.opposite_role(Direction::Flat), RED);
    assert_eq!(roles.opposite_role(Direction::Down), RED);
}

#[test]
fn holds_finds_a_role() {
    assert!(holds(&vec![OTHER, RED], RED));
    assert!(!holds(&vec![OTHER, RED], GREEN));
    assert!(!holds(&vec![], GREEN));
}

#[test]
fn plan_adds_what_is_absent_and_removes_what_is_present() {
    let roles = RolePair::new(RED, GREEN).unwrap();
    assert_eq!(
        plan_roles(&roles, Direction::Up, &vec![OTHER]),
        RolePlan { add: Some(RED), remove: None }
    );
    assert_eq!(
        plan_roles(&roles, Direction::Up, &vec![GREEN, OTHER]),
        RolePlan { add: Some(RED), remove: Some(GREEN) }
    );
    assert_eq!(
        plan_roles(&roles, Direction::Up, &vec![GREEN, RED]),
        RolePlan { add: None, remove: Some(GREEN) }
    );
    assert_eq!(
        plan_roles(&roles, Direction::Up, &vec![RED]),
        RolePlan { add: None, remove: None }
    );
    assert_eq!(
        plan_roles(&roles, Direction::Flat, &vec![RED]),
        RolePlan { add: Some(GREEN), remove: Some(RED) }
    );
    assert_eq!(
        plan_roles(&roles, Direction::Down, &vec![GREEN]),
        RolePlan { add: None, remove: None }
    );
}

#[test]
fn empty_plan_has_nothing_to_do() {
    assert!(RolePlan { add: None, remove: None }.nothing_to_do());
    assert!(!RolePlan { add: Some(RED), remove: None }.nothing_to_do());
    assert!(!RolePlan { add: None, remove: Some(RED) }.nothing_to_do());
}

#[test]
fn reconciling_twice_mutates_once() {
    let roles = RolePair::new(RED, GREEN).unwrap();
    for direction in [Direction::Up, Direction::Flat, Direction::Down] {
        for start in [vec![], vec![RED], vec![GREEN], vec![RED, GREEN], vec![OTHER, GREEN]] {
            let mut held = start.clone();
            let first = plan_roles(&roles, direction, &held);
            carry_out(&mut held, &first, true, true);
            let second = plan_roles(&roles, direction, &held);
            assert!(second.nothing_to_do());
            assert_eq!(second, RolePlan { add: None, remove: None });
        }
    }
}

#[test]
fn reconciled_identity_never_holds_both_roles() {
    let roles = RolePair::new(RED, GREEN).unwrap();
    for direction in [Direction::Up, Direction::Flat, Direction::Down] {
        for start in [vec![], vec![RED], vec![GREEN], vec![RED, GREEN], vec![OTHER]] {
            let mut held = start.clone();
            let plan = plan_roles(&roles, direction, &held);
            carry_out(&mut held, &plan, true, true);
            assert!(!(holds(&held, RED) && holds(&held, GREEN)));
            assert!(holds(&held, roles.desired_role(direction)));
            assert_eq!(holds(&held, OTHER), holds(&start, OTHER));
        }
    }
}

#[test]
fn failed_mutation_is_planned_again() {
    let roles = RolePair::new(RED, GREEN).unwrap();
    let mut held = vec![GREEN];
    let first = plan_roles(&roles, Direction::Up, &held);
    assert_eq!(first, RolePlan { add: Some(RED), remove: Some(GREEN) });
    // the add fails, the remove goes through
    carry_out(&mut held, &first, false, true);
    let second = plan_roles(&roles, Direction::Up, &held);
    assert_eq!(second, RolePlan { add: Some(RED), remove: None });
    carry_out(&mut held, &second, true, true);
    assert!(plan_roles(&roles, Direction::Up, &held).nothing_to_do());
}

#[test]
fn check_roles_finds_both() {
    let roles = RolePair::new(RED, GREEN).unwrap();
    assert_eq!(check_roles(&roles, &vec![OTHER, GREEN, RED]), Ok(()));
}

#[test]
fn check_roles_names_the_missing_role() {
    let roles = RolePair::new(RED, GREEN).unwrap();
    assert_eq!(
        check_roles(&roles, &vec![OTHER, GREEN]),
        Err(ReconcileError::RoleLookup { role: RED })
    );
    assert_eq!(
        check_roles(&roles, &vec![RED]),
        Err(ReconcileError::RoleLookup { role: GREEN })
    );
    assert_eq!(check_roles(&roles, &vec![]), Err(ReconcileError::RoleLookup { role: RED }));
}

#[test]
fn report_collects_both_failures() {
    assert_eq!(report_mutations(true, true), Ok(()));
    assert_eq!(
        report_mutations(false, true),
        Err(ReconcileError::MembershipMutation { add_failed: true, remove_failed: false })
    );
    assert_eq!(
        report_mutations(true, false),
        Err(ReconcileError::MembershipMutation { add_failed: false, remove_failed: true })
    );
    assert_eq!(
        report_mutations(false, false),
        Err(ReconcileError::MembershipMutation { add_failed: true, remove_failed: true })
    );
}
