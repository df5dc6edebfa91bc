use bench_hash_2023::scenario::Operation;
use bench_hash_2023::scenario::Scenario;
use bench_hash_2023::settings::GroupSettings;
use bench_hash_2023::settings::Sampling;

#[test]
fn there_are_six_scenarios_in_order() {
    assert_eq!(
        Scenario::all(),
        vec![
            Scenario::InsertAbsent,
            Scenario::InsertPresent,
            Scenario::LookupAbsent,
            Scenario::LookupPresent,
            Scenario::RemoveAbsent,
            Scenario::RemovePresent,
        ]
    );
}

#[test]
fn each_scenario_times_its_operation() {
    assert_eq!(Scenario::InsertAbsent.operation(), Operation::Insert);
    assert_eq!(Scenario::InsertPresent.operation(), Operation::Insert);
    assert_eq!(Scenario::LookupAbsent.operation(), Operation::Lookup);
    assert_eq!(Scenario::LookupPresent.operation(), Operation::Lookup);
    assert_eq!(Scenario::RemoveAbsent.operation(), Operation::Remove);
    assert_eq!(Scenario::RemovePresent.operation(), Operation::Remove);
}

#[test]
fn each_scenario_expects_its_state() {
    assert!(!Scenario::InsertAbsent.expects_present());
    assert!(Scenario::InsertPresent.expects_present());
    assert!(!Scenario::LookupAbsent.expects_present());
    assert!(Scenario::LookupPresent.expects_present());
    assert!(!Scenario::RemoveAbsent.expects_present());
    assert!(Scenario::RemovePresent.expects_present());
}

#[test]
fn the_setup_step_is_a_remove_or_an_insert() {
    for scenario in Scenario::all() {
        let expected = if scenario.expects_present() { Operation::Insert } else { Operation::Remove };
        assert_eq!(scenario.setup(), expected);
    }
}

#[test]
fn the_standard_settings() {
    let settings = GroupSettings::standard();
    assert_eq!(settings.measurement_millis, 500);
    assert_eq!(settings.sample_size, 100);
    assert_eq!(settings.confidence_percent, 98);
    assert_eq!(settings.sampling, Sampling::Linear);
    assert_eq!(settings.warm_up_millis, 100);
    assert_eq!(f64::from(settings.confidence_percent) / 100.0, 0.98);
}
