use marktext_ru_patcher::paths::SEARCHED_DIRS;
use marktext_ru_patcher::workflow::{
    after_patch_step, after_rollback_step, first_patch_step, first_rollback_step, installation,
    require_app_asar, require_npx, require_renderer_found, PatchStep, Progress, RollbackStep,
    ASAR_MISSING,
};
use marktext_ru_patcher::patch::RENDERER_NOT_FOUND;
use marktext_ru_patcher::{Error, FsPath, MARKTEXT_DIR_PROGRAM};

fn patch_run(fail_at: Option<PatchStep>) -> (Vec<PatchStep>, Result<(), Error>) {
    let mut seen = Vec::new();
    let mut progress = Progress::Run(first_patch_step());
    loop {
        match progress {
            Progress::Run(s) => {
                seen.push(s);
                let outcome = if Some(s) == fail_at { Err(Error::NpxNotFound) } else { Ok(()) };
                progress = after_patch_step(s, outcome);
            }
            Progress::Stop(r) => return (seen, r),
        }
    }
}

#[test]
fn patch_steps_in_order() {
    let (seen, result) = patch_run(None);
    assert!(result.is_ok());
    assert_eq!(
        seen,
        vec![
            PatchStep::CheckAppAsar,
            PatchStep::LocateLocale,
            PatchStep::CheckNpx,
            PatchStep::BackupAppAsar,
            PatchStep::ExtractAppAsar,
            PatchStep::PatchMainBundle,
            PatchStep::PatchRendererBundle,
            PatchStep::PackAppAsar,
            PatchStep::DeployLocale,
            PatchStep::RemoveUnpacked,
        ]
    );
}

#[test]
fn failed_backup_stops_before_repacking() {
    let (seen, result) = patch_run(Some(PatchStep::BackupAppAsar));
    assert!(matches!(result, Err(Error::NpxNotFound)));
    assert_eq!(seen.last(), Some(&PatchStep::BackupAppAsar));
    assert!(!seen.contains(&PatchStep::PackAppAsar));
}

#[test]
fn rollback_steps_in_order() {
    assert_eq!(first_rollback_step(), RollbackStep::RestoreAppAsar);
    assert!(matches!(
        after_rollback_step(RollbackStep::RestoreAppAsar, Ok(())),
        Progress::Run(RollbackStep::RemoveLocale)
    ));
    assert!(matches!(after_rollback_step(RollbackStep::RemoveLocale, Ok(())), Progress::Stop(Ok(()))));
    assert!(matches!(
        after_rollback_step(RollbackStep::RestoreAppAsar, Err(Error::NpxNotFound)),
        Progress::Stop(Err(Error::NpxNotFound))
    ));
}

#[test]
fn installation_given_root() {
    let p = installation(Some(FsPath::new("E:\\mt")), None, false, false).unwrap();
    assert_eq!(p.asar.parts, vec!["E:\\mt", "resources", "app.asar"]);
}

#[test]
fn installation_detected() {
    let p = installation(None, Some("L"), false, true).unwrap();
    assert_eq!(p.root.parts, vec![MARKTEXT_DIR_PROGRAM]);
    match installation(None, Some("L"), false, false) {
        Err(Error::MarkTextNotFound(m)) => assert_eq!(m, SEARCHED_DIRS),
        other => panic!("unexpected {:?}", other),
    }
}

#[test]
fn checks() {
    assert!(require_app_asar(true, "x").is_ok());
    match require_app_asar(false, "\"C:\\\\m\\\\app.asar\"") {
        Err(Error::MarkTextNotFound(m)) => {
            assert_eq!(m, format!("{}\"C:\\\\m\\\\app.asar\"", ASAR_MISSING))
        }
        other => panic!("unexpected {:?}", other),
    }
    assert!(require_npx(true).is_ok());
    assert!(require_renderer_found(true).is_ok());
    match require_renderer_found(false) {
        Err(Error::PatchFailed(m)) => assert_eq!(m, RENDERER_NOT_FOUND),
        other => panic!("unexpected {:?}", other),
    }
    assert!(matches!(require_npx(false), Err(Error::NpxNotFound)));
}
