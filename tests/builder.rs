use ptx_builder::{
    BuildErrorKind, BuildOutput, Builder, CrateType, DeclaredType, MessageFormat, Profile,
    SourceCrate,
};

fn sample(declared: DeclaredType) -> Builder {
    Builder::new(SourceCrate::new("sample-ptx_crate", "/work/sample-crate", declared, "/out"))
}

#[test]
fn source_crate_derives_output_names() {
    let source = SourceCrate::new("faulty-ptx_crate", "/work/faulty", DeclaredType::Library, "/out");
    assert_eq!(source.get_name(), "faulty-ptx_crate");
    assert_eq!(source.get_path(), "/work/faulty");
    assert_eq!(source.get_output_file_prefix(), "faulty_ptx_crate");
    assert_eq!(source.get_output_path(), "/out/faulty_ptx_crate");
}

#[test]
fn crate_type_override_wins() {
    let source = SourceCrate::new("m", "/m", DeclaredType::Mixed, "/o");
    assert!(matches!(source.get_crate_type(None), Err(BuildErrorKind::MissingCrateType)));
    assert!(matches!(source.get_crate_type(Some(CrateType::Library)), Ok(CrateType::Library)));
    let bin = SourceCrate::new("m", "/m", DeclaredType::Binary, "/o");
    assert!(matches!(bin.get_crate_type(None), Ok(CrateType::Binary)));
    assert!(matches!(bin.get_crate_type(Some(CrateType::Library)), Ok(CrateType::Library)));
}

#[test]
fn profile_names() {
    assert_eq!(Profile::Debug.to_string(), "debug");
    assert_eq!(Profile::Release.to_string(), "release");
}

#[test]
fn crate_name_is_the_module_name() {
    assert_eq!(sample(DeclaredType::Library).get_crate_name(), "sample-ptx_crate");
}

#[test]
fn nested_marker_decides_need() {
    assert!(Builder::is_build_needed(None));
    assert!(!Builder::is_build_needed(Some("1")));
    assert!(Builder::is_build_needed(Some("")));
    assert!(Builder::is_build_needed(Some("0")));
    assert!(Builder::is_build_needed(Some("11")));
}

#[test]
fn default_arguments() {
    let b = sample(DeclaredType::Library);
    assert_eq!(
        b.build_args(CrateType::Library),
        vec![
            "rustc",
            "--release",
            "--color",
            "always",
            "--message-format=human",
            "--target",
            "nvptx64-nvidia-cuda",
            "--example",
            "sample-ptx_crate-",
            "-v",
            "--",
            "--crate-type",
            "cdylib",
        ]
    );
}

#[test]
fn configured_arguments() {
    let b = sample(DeclaredType::Binary)
        .set_profile(Profile::Debug)
        .disable_colors()
        .set_prefix(String::from("kernel"))
        .set_message_format(MessageFormat::Json { render_diagnostics: true, short: false, ansi: true });
    assert_eq!(
        b.build_args(CrateType::Binary),
        vec![
            "rustc",
            "--color",
            "never",
            "--message-format=json,json-render-diagnostics,json-diagnostic-rendered-ansi",
            "--target",
            "nvptx64-nvidia-cuda",
            "--example",
            "sample-ptx_crate-kernel",
            "-v",
            "--",
            "--crate-type",
            "bin",
        ]
    );
    let short = sample(DeclaredType::Library).set_message_format(MessageFormat::Short);
    assert_eq!(short.build_args(CrateType::Library)[4], "--message-format=short");
    let json = sample(DeclaredType::Library).set_message_format(MessageFormat::Json {
        render_diagnostics: false,
        short: true,
        ansi: false,
    });
    assert_eq!(json.build_args(CrateType::Library)[4], "--message-format=json,json-diagnostic-short");
}

#[test]
fn names_of_the_entry_point() {
    let b = sample(DeclaredType::Library).set_prefix(String::from("k2"));
    assert_eq!(b.example_name(), "sample-ptx_crate-k2");
    assert_eq!(b.canonical_name(), "sample-ptx_crate-ptx-builder");
}

#[test]
fn setters_leave_other_fields() {
    let b = sample(DeclaredType::Mixed).set_crate_type(CrateType::Library).set_profile(Profile::Debug);
    assert!(matches!(b.resolve_crate_type(), Ok(CrateType::Library)));
    let out = BuildOutput::new(&b, String::from("/out/sample_ptx_crate"), CrateType::Library);
    assert!(out.get_assembly_path().contains("/debug/"));
    assert_eq!(b.get_crate_name(), "sample-ptx_crate");
}

#[test]
fn assembly_path_in_release() {
    let b = sample(DeclaredType::Library);
    let out = BuildOutput::new(&b, String::from("/out/sample_ptx_crate"), CrateType::Library);
    assert_eq!(
        out.get_assembly_path(),
        "/out/sample_ptx_crate/nvptx64-nvidia-cuda/release/examples/sample_ptx_crate_.ptx"
    );
    assert_eq!(
        out.get_deps_file_path(),
        "/out/sample_ptx_crate/nvptx64-nvidia-cuda/release/examples/sample_ptx_crate_.d"
    );
}

#[test]
fn assembly_path_in_debug_for_a_binary() {
    let b = sample(DeclaredType::Binary).set_profile(Profile::Debug).set_prefix(String::from("p"));
    let out = BuildOutput::new(&b, String::from("/o"), CrateType::Binary);
    assert_eq!(
        out.get_assembly_path(),
        "/o/nvptx64-nvidia-cuda/debug/examples/sample-ptx_crate-p.ptx"
    );
}

#[test]
fn noise_lines_are_dropped() {
    assert!(!Builder::output_is_not_verbose("+ cargo rustc"));
    assert!(!Builder::output_is_not_verbose("     Running `rustc ...`"));
    assert!(!Builder::output_is_not_verbose("       Fresh core v0.0.0"));
    assert!(!Builder::output_is_not_verbose("Caused by:"));
    assert!(!Builder::output_is_not_verbose("  process didn't exit successfully: `rustc` (exit status: 1)"));
    assert!(Builder::output_is_not_verbose("error[E0425]: cannot find function"));
    assert!(Builder::output_is_not_verbose(" + not at the start"));
    assert!(Builder::output_is_not_verbose(""));
}

#[test]
fn diagnostics_of_a_broken_module() {
    let stderr = "\n   Compiling faulty-ptx_crate v0.1.0 (/work/faulty)\n     Running `rustc --crate-name faulty`\nerror[E0425]: cannot find function `external_fn` in this scope\n --> src/lib.rs:7:20\n  |\n7 |     *y.offset(0) = external_fn(*x.offset(0)) * a;\n  |                    ^^^^^^^^^^^ not found in this scope\n\nFor more information about this error, try `rustc --explain E0425`.\nerror: could not compile `faulty-ptx_crate` (lib) due to 1 previous error\n\nCaused by:\n  process didn't exit successfully: `rustc` (exit status: 1)\n\n";
    assert_eq!(
        Builder::diagnostics(stderr),
        vec![
            "   Compiling faulty-ptx_crate v0.1.0 (/work/faulty)",
            "error[E0425]: cannot find function `external_fn` in this scope",
            " --> src/lib.rs:7:20",
            "  |",
            "7 |     *y.offset(0) = external_fn(*x.offset(0)) * a;",
            "  |                    ^^^^^^^^^^^ not found in this scope",
            "",
            "For more information about this error, try `rustc --explain E0425`.",
            "error: could not compile `faulty-ptx_crate` (lib) due to 1 previous error",
            "",
        ]
    );
}

#[test]
fn diagnostics_of_an_empty_stream() {
    assert_eq!(Builder::diagnostics(""), vec![""]);
    assert_eq!(Builder::diagnostics("\n+ echo\n"), Vec::<String>::new());
}

#[test]
fn dependencies_of_a_fixture_module() {
    let b = sample(DeclaredType::Library);
    let out = BuildOutput::new(&b, String::from("/out/sample_ptx_crate"), CrateType::Library);
    let listing = "/out/sample_ptx_crate/nvptx64-nvidia-cuda/release/examples/sample_ptx_crate_.ptx: /work/sample-crate/src/lib.rs /work/sample-crate/src/mod1.rs /work/sample-crate/src/mod2.rs\n";
    let mut deps = out.dependencies(listing, "/work/sample-crate").unwrap();
    let mut expected = vec![
        "/work/sample-crate/src/lib.rs",
        "/work/sample-crate/src/mod1.rs",
        "/work/sample-crate/src/mod2.rs",
        "/work/sample-crate/Cargo.toml",
        "/work/sample-crate/Cargo.lock",
    ];
    deps.sort();
    expected.sort();
    assert_eq!(deps, expected);
}

#[test]
fn dependencies_keep_order_and_lock_from_an_ancestor() {
    let b = sample(DeclaredType::Library);
    let out = BuildOutput::new(&b, String::from("/o"), CrateType::Library);
    let deps = out.dependencies("x.d: b.rs a.rs\n", "/work").unwrap();
    assert_eq!(deps, vec!["b.rs", "a.rs", "/work/sample-crate/Cargo.toml", "/work/Cargo.lock"]);
}

#[test]
fn dependencies_skip_a_drive_letter() {
    let b = sample(DeclaredType::Library);
    let out = BuildOutput::new(&b, String::from("C:\\o"), CrateType::Library);
    let deps = out.dependencies("C:\\o\\k.d: C:\\src\\lib.rs", "C:\\w").unwrap();
    assert_eq!(deps[0], "C:\\src\\lib.rs");
    assert_eq!(deps.len(), 3);
}

#[test]
fn dependencies_without_label_or_files() {
    let b = sample(DeclaredType::Library);
    let out = BuildOutput::new(&b, String::from("/o"), CrateType::Library);
    let deps = out.dependencies("ab", "/w").unwrap();
    assert_eq!(deps, vec!["", "/work/sample-crate/Cargo.toml", "/w/Cargo.lock"]);
}

#[test]
fn empty_dependency_listing_is_an_error() {
    let b = sample(DeclaredType::Library);
    let out = BuildOutput::new(&b, String::from("/o"), CrateType::Library);
    assert!(matches!(out.dependencies("", "/w"), Err(BuildErrorKind::InternalError(_))));
}
