use desktop_settings::errors::Error;
use desktop_settings::lockscreen::{LockScreenPhase, LockScreenRun};

#[test]
fn begin_asks_for_resolution_first() {
    let run = LockScreenRun::begin("C:\\images\\lock.png");
    assert!(matches!(run.phase(), LockScreenPhase::ResolvingFile));
    assert_eq!(run.path(), "C:\\images\\lock.png");
    assert_eq!(run.outcome(), None);
}

#[test]
fn missing_file_fails_before_image_service() {
    let mut run = LockScreenRun::begin("C:\\does\\not\\exist.png");
    run.report(false);
    assert_eq!(run.outcome(), Some(Err(Error::FileResolutionFailed)));
    // The run ended without ever reaching the image-set step.
    assert!(matches!(run.phase(), LockScreenPhase::Done(_)));
}

#[test]
fn successful_run_sets_image_after_resolution() {
    let mut run = LockScreenRun::begin("C:\\images\\lock.png");
    run.report(true);
    assert!(matches!(run.phase(), LockScreenPhase::SettingImage));
    run.report(true);
    assert_eq!(run.outcome(), Some(Ok(())));
}

#[test]
fn image_service_failure_is_lock_screen_update_failed() {
    let mut run = LockScreenRun::begin("C:\\images\\lock.png");
    run.report(true);
    run.report(false);
    assert_eq!(run.outcome(), Some(Err(Error::LockScreenUpdateFailed)));
}
