use ptx_builder::{
    BuildAction, BuildErrorKind, BuildEvent, BuildStatus, Builder, CrateType, DeclaredType,
    Profile, Session, SourceCrate,
};

const MANIFEST: &str = "[package]\nname = \"sample-ptx_crate\"\n\n[[example]]\nname = \"sample-ptx_crate-ptx-builder\"\npath = \"src/lib.rs\"\n";

struct Disk {
    slot: String,
    manifest: String,
    locked: bool,
    artifact: bool,
    fail_manifest_read: bool,
    actions: Vec<String>,
    seen_by_driver: Vec<String>,
    driver_args: Vec<String>,
    driver_env: Vec<(String, String)>,
    checked: Vec<String>,
}

fn disk() -> Disk {
    Disk {
        slot: String::new(),
        manifest: String::from(MANIFEST),
        locked: false,
        artifact: true,
        fail_manifest_read: false,
        actions: Vec::new(),
        seen_by_driver: Vec::new(),
        driver_args: Vec::new(),
        driver_env: Vec::new(),
        checked: Vec::new(),
    }
}

fn drive<'a>(
    builder: &'a Builder,
    marker: Option<&str>,
    disk: &mut Disk,
    driver_ok: bool,
    stderr: &str,
) -> Result<BuildStatus<'a>, BuildErrorKind> {
    let (mut session, mut action) = Session::start(builder, marker);
    loop {
        let event = match action {
            BuildAction::Finish(result) => return result,
            BuildAction::CheckTool(args) => {
                disk.actions.push(String::from("check"));
                assert_eq!(args, vec!["-V"]);
                BuildEvent::Done
            }
            BuildAction::Lock(path) => {
                disk.actions.push(String::from("lock"));
                assert_eq!(path, "/out/sample_ptx_crate/.ptx-builder.lock");
                assert!(!disk.locked);
                disk.locked = true;
                BuildEvent::Done
            }
            BuildAction::ReadSlot(_) => {
                disk.actions.push(String::from("read-slot"));
                BuildEvent::Text(disk.slot.clone())
            }
            BuildAction::WriteSlot(_, text) => {
                disk.actions.push(String::from("write-slot"));
                disk.slot = text;
                BuildEvent::Done
            }
            BuildAction::ReadManifest(path) => {
                disk.actions.push(String::from("read-manifest"));
                assert_eq!(path, "/work/sample-crate/Cargo.toml");
                if disk.fail_manifest_read {
                    BuildEvent::Failed(BuildErrorKind::ManifestIoFailed(String::from("denied")))
                } else {
                    BuildEvent::Text(disk.manifest.clone())
                }
            }
            BuildAction::WriteManifest(_, text) => {
                disk.actions.push(String::from("write-manifest"));
                disk.manifest = text;
                BuildEvent::Done
            }
            BuildAction::RunDriver(args, cwd, env) => {
                disk.actions.push(String::from("run"));
                assert_eq!(cwd, "/work/sample-crate");
                disk.seen_by_driver.push(disk.manifest.clone());
                disk.driver_args = args;
                disk.driver_env = env;
                BuildEvent::DriverExited(driver_ok, String::from(stderr))
            }
            BuildAction::Unlock => {
                disk.actions.push(String::from("unlock"));
                assert!(disk.locked);
                disk.locked = false;
                disk.slot.clear();
                BuildEvent::Done
            }
            BuildAction::CheckArtifact(path) => {
                disk.actions.push(String::from("check-artifact"));
                disk.checked.push(path);
                BuildEvent::Exists(disk.artifact)
            }
        };
        action = session.step(event);
    }
}

fn builder(declared: DeclaredType) -> Builder {
    Builder::new(SourceCrate::new("sample-ptx_crate", "/work/sample-crate", declared, "/out"))
}

#[test]
fn successful_build_restores_the_manifest() {
    let b = builder(DeclaredType::Library).disable_colors();
    let mut d = disk();
    match drive(&b, None, &mut d, true, "") {
        Ok(BuildStatus::Success(output)) => {
            assert_eq!(
                output.get_assembly_path(),
                "/out/sample_ptx_crate/nvptx64-nvidia-cuda/release/examples/sample_ptx_crate_.ptx"
            );
        }
        _ => panic!("the build should succeed"),
    }
    assert_eq!(d.manifest, MANIFEST);
    assert_eq!(d.seen_by_driver, vec![MANIFEST.replace("sample-ptx_crate-ptx-builder", "sample-ptx_crate-")]);
    assert_eq!(
        d.actions,
        vec![
            "check", "lock", "read-slot", "write-slot", "read-manifest", "write-manifest", "run",
            "write-manifest", "unlock", "check-artifact",
        ]
    );
    assert_eq!(d.driver_args[3], "never");
    assert_eq!(
        d.driver_env,
        vec![
            (String::from("PTX_CRATE_BUILDING"), String::from("1")),
            (String::from("CARGO_TARGET_DIR"), String::from("/out/sample_ptx_crate")),
        ]
    );
    assert!(!d.locked);
}

#[test]
fn rebuild_without_changes_succeeds_and_restores() {
    let b = builder(DeclaredType::Library);
    let mut d = disk();
    assert!(matches!(drive(&b, None, &mut d, true, ""), Ok(BuildStatus::Success(_))));
    assert!(matches!(drive(&b, None, &mut d, true, ""), Ok(BuildStatus::Success(_))));
    assert_eq!(d.manifest, MANIFEST);
    assert_eq!(d.seen_by_driver[0], d.seen_by_driver[1]);
}

#[test]
fn debug_profile_artifact_path() {
    let b = builder(DeclaredType::Library).set_profile(Profile::Debug);
    let mut d = disk();
    assert!(matches!(drive(&b, None, &mut d, true, ""), Ok(BuildStatus::Success(_))));
    assert_eq!(
        d.checked,
        vec!["/out/sample_ptx_crate/nvptx64-nvidia-cuda/debug/examples/sample_ptx_crate_.ptx"]
    );
    assert!(!d.driver_args.contains(&String::from("--release")));
}

#[test]
fn nested_build_is_not_needed() {
    let b = builder(DeclaredType::Library);
    let mut d = disk();
    assert!(matches!(drive(&b, Some("1"), &mut d, true, ""), Ok(BuildStatus::NotNeeded)));
    assert!(d.actions.is_empty());
    assert_eq!(d.manifest, MANIFEST);
}

#[test]
fn mixed_module_without_crate_type_fails_first() {
    let b = builder(DeclaredType::Mixed);
    let mut d = disk();
    assert!(matches!(drive(&b, None, &mut d, true, ""), Err(BuildErrorKind::MissingCrateType)));
    assert!(d.actions.is_empty());
}

#[test]
fn mixed_module_with_crate_type_builds() {
    let b = builder(DeclaredType::Mixed).set_crate_type(CrateType::Library);
    let mut d = disk();
    assert!(matches!(drive(&b, None, &mut d, true, ""), Ok(BuildStatus::Success(_))));
    assert_eq!(d.driver_args.last().unwrap(), "cdylib");
}

#[test]
fn failed_build_reports_diagnostics_and_restores() {
    let b = builder(DeclaredType::Library);
    let mut d = disk();
    let stderr = "+ rustc\nerror: boom\n     Running `x`\n";
    match drive(&b, None, &mut d, false, stderr) {
        Err(BuildErrorKind::BuildFailed(lines)) => assert_eq!(lines, vec!["error: boom"]),
        _ => panic!("the build should fail with its diagnostics"),
    }
    assert_eq!(d.manifest, MANIFEST);
    assert!(!d.locked);
    assert!(!d.actions.contains(&String::from("check-artifact")));
}

#[test]
fn missing_artifact_is_an_internal_error() {
    let b = builder(DeclaredType::Library);
    let mut d = disk();
    d.artifact = false;
    assert!(matches!(drive(&b, None, &mut d, true, ""), Err(BuildErrorKind::InternalError(_))));
    assert_eq!(d.manifest, MANIFEST);
}

#[test]
fn manifest_read_failure_releases_the_lock() {
    let b = builder(DeclaredType::Library);
    let mut d = disk();
    d.fail_manifest_read = true;
    assert!(matches!(drive(&b, None, &mut d, true, ""), Err(BuildErrorKind::ManifestIoFailed(_))));
    assert!(!d.locked);
    assert!(!d.actions.contains(&String::from("run")));
}

#[test]
fn stale_slot_name_is_swapped_for_the_canonical_one() {
    let b = builder(DeclaredType::Library).set_prefix(String::from("k"));
    let mut d = disk();
    d.manifest = MANIFEST.replace("sample-ptx_crate-ptx-builder", "sample-ptx_crate-old");
    d.slot = String::from("sample-ptx_crate-old");
    assert!(matches!(drive(&b, None, &mut d, true, ""), Ok(BuildStatus::Success(_))));
    assert_eq!(d.seen_by_driver, vec![MANIFEST.replace("sample-ptx_crate-ptx-builder", "sample-ptx_crate-k")]);
    assert_eq!(d.manifest, MANIFEST);
}

#[test]
fn serialised_builds_see_only_their_own_name() {
    let first = builder(DeclaredType::Library).set_prefix(String::from("a"));
    let second = builder(DeclaredType::Library).set_prefix(String::from("b"));
    let mut d = disk();
    assert!(matches!(drive(&first, None, &mut d, true, ""), Ok(BuildStatus::Success(_))));
    assert!(matches!(drive(&second, None, &mut d, false, "error: x"), Err(BuildErrorKind::BuildFailed(_))));
    assert!(matches!(drive(&first, None, &mut d, true, ""), Ok(BuildStatus::Success(_))));
    assert_eq!(
        d.seen_by_driver,
        vec![
            MANIFEST.replace("sample-ptx_crate-ptx-builder", "sample-ptx_crate-a"),
            MANIFEST.replace("sample-ptx_crate-ptx-builder", "sample-ptx_crate-b"),
            MANIFEST.replace("sample-ptx_crate-ptx-builder", "sample-ptx_crate-a"),
        ]
    );
    assert_eq!(d.manifest, MANIFEST);
}

#[test]
fn missing_linker_stops_before_the_lock() {
    let b = builder(DeclaredType::Library);
    let (mut session, action) = Session::start(&b, None);
    assert!(matches!(action, BuildAction::CheckTool(_)));
    let next = session.step(BuildEvent::Failed(BuildErrorKind::ToolUnavailable(String::from("ptx-linker"))));
    assert!(matches!(next, BuildAction::Finish(Err(BuildErrorKind::ToolUnavailable(_)))));
}

#[test]
fn lock_failure_is_reported_without_unlock() {
    let b = builder(DeclaredType::Library);
    let (mut session, _) = Session::start(&b, None);
    assert!(matches!(session.step(BuildEvent::Done), BuildAction::Lock(_)));
    let next = session.step(BuildEvent::Failed(BuildErrorKind::LockFailed(String::from("busy"))));
    assert!(matches!(next, BuildAction::Finish(Err(BuildErrorKind::LockFailed(_)))));
}
