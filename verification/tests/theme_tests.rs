use desktop_settings::errors::{Error, ThemeValueName};
use desktop_settings::theme::{theme_registry_value, ThemePhase, ThemeRun, ThemeWrite};

/// Drives a run by answering every requested step with the given outcomes,
/// in order, and returns the writes that were requested.
fn drive(run: &mut ThemeRun, outcomes: &[bool]) -> Vec<ThemeWrite> {
    let mut next: usize = 0;
    while !matches!(run.phase(), ThemePhase::Done(_)) {
        let ok = outcomes[next];
        next += 1;
        run.report(ok);
    }
    run.writes().clone()
}

#[test]
fn value_convention_is_inverted() {
    assert_eq!(theme_registry_value(true), 0);
    assert_eq!(theme_registry_value(false), 1);
}

#[test]
fn dark_mode_writes_zero_to_both() {
    let mut run = ThemeRun::begin(true);
    let writes = drive(&mut run, &[true, true, true, true]);
    assert_eq!(run.outcome(), Some(Ok(())));
    assert_eq!(
        writes,
        vec![
            ThemeWrite { name: ThemeValueName::AppsUseLightTheme, value: 0 },
            ThemeWrite { name: ThemeValueName::SystemUsesLightTheme, value: 0 },
        ]
    );
}

#[test]
fn light_mode_writes_one_to_both() {
    let mut run = ThemeRun::begin(false);
    let writes = drive(&mut run, &[true, true, true, true]);
    assert_eq!(run.outcome(), Some(Ok(())));
    assert_eq!(
        writes,
        vec![
            ThemeWrite { name: ThemeValueName::AppsUseLightTheme, value: 1 },
            ThemeWrite { name: ThemeValueName::SystemUsesLightTheme, value: 1 },
        ]
    );
}

#[test]
fn pair_is_never_mismatched() {
    // Whatever the outcomes, every requested write carries the same value.
    let outcome_sets: [&[bool]; 4] =
        [&[false], &[true, false], &[true, true, false], &[true, true, true, true]];
    for outcomes in outcome_sets {
        let mut run = ThemeRun::begin(true);
        let writes = drive(&mut run, outcomes);
        for w in &writes {
            assert_eq!(w.value, 0);
        }
    }
}

#[test]
fn open_failure_leaves_values_unchanged() {
    let mut run = ThemeRun::begin(true);
    let writes = drive(&mut run, &[false]);
    assert_eq!(run.outcome(), Some(Err(Error::RegistryOpenFailed)));
    assert!(writes.is_empty());
}

#[test]
fn first_write_failure_names_apps_value() {
    let mut run = ThemeRun::begin(true);
    let writes = drive(&mut run, &[true, false]);
    assert_eq!(
        run.outcome(),
        Some(Err(Error::RegistryWriteFailed(ThemeValueName::AppsUseLightTheme)))
    );
    assert_eq!(writes.len(), 1);
}

#[test]
fn second_write_failure_names_system_value() {
    let mut run = ThemeRun::begin(true);
    let writes = drive(&mut run, &[true, true, false]);
    assert_eq!(
        run.outcome(),
        Some(Err(Error::RegistryWriteFailed(ThemeValueName::SystemUsesLightTheme)))
    );
    assert_eq!(writes.len(), 2);
}

#[test]
fn broadcast_outcome_is_discarded() {
    // A hung or failed broadcast does not fail the run.
    let mut run = ThemeRun::begin(false);
    let _ = drive(&mut run, &[true, true, true, false]);
    assert_eq!(run.outcome(), Some(Ok(())));
}
