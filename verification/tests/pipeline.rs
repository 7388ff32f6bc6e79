use marker_bridge::pipeline::{
    bytes_eq, clear_guard, discover, extension_of, BuildPipeline, ExitStatus, PipelinePhase,
    Platform,
};

#[test]
fn extensions_follow_the_last_dot() {
    assert_eq!(extension_of(&b"lib.so".to_vec()), Some(b"so".to_vec()));
    assert_eq!(extension_of(&b"a.b.c".to_vec()), Some(b"c".to_vec()));
    assert_eq!(extension_of(&b"noext".to_vec()), None);
    assert_eq!(extension_of(&b".hidden".to_vec()), None);
    assert_eq!(extension_of(&b"trailing.".to_vec()), Some(b"".to_vec()));
    assert_eq!(extension_of(&b"".to_vec()), None);
    assert_eq!(extension_of(&b".".to_vec()), None);
}

#[test]
fn byte_strings_compare_by_contents() {
    assert!(bytes_eq(&b"abc".to_vec(), &b"abc".to_vec()));
    assert!(!bytes_eq(&b"abc".to_vec(), &b"abd".to_vec()));
    assert!(!bytes_eq(&b"abc".to_vec(), &b"ab".to_vec()));
    assert!(bytes_eq(&b"".to_vec(), &b"".to_vec()));
}

#[test]
fn each_platform_knows_its_dynamic_library_extension() {
    assert!(Platform::Linux.is_dylib(&b"plugin.so".to_vec()));
    assert!(!Platform::Linux.is_dylib(&b"plugin.dylib".to_vec()));
    assert!(Platform::MacOs.is_dylib(&b"plugin.dylib".to_vec()));
    assert!(!Platform::MacOs.is_dylib(&b"plugin.so".to_vec()));
    assert!(Platform::Windows.is_dylib(&b"plugin.dll".to_vec()));
    assert!(!Platform::Windows.is_dylib(&b"plugin.so".to_vec()));
}

#[test]
fn windows_allow_list_has_its_extra_link_artifacts() {
    for name in [&b"a.dll"[..], b"a.exp", b"a.lib", b"a.pdb"] {
        assert!(Platform::Windows.is_expected(&name.to_vec()));
    }
    assert!(!Platform::Windows.is_expected(&b"a.so".to_vec()));
    assert!(!Platform::Linux.is_expected(&b"a.pdb".to_vec()));
    assert!(Platform::Linux.is_expected(&b"a.so".to_vec()));
    assert!(!Platform::Linux.is_expected(&b"noext".to_vec()));
}

#[test]
fn clear_guard_refuses_a_foreign_occupant() {
    let files = vec![b"old_plugin.so".to_vec(), b"notes.txt".to_vec()];
    assert_eq!(clear_guard(Platform::Linux, &files), Err(ExitStatus::LintCrateBuildFail));
}

#[test]
fn clear_guard_accepts_only_expected_byproducts() {
    let files = vec![b"one.so".to_vec(), b"two.so".to_vec()];
    assert_eq!(clear_guard(Platform::Linux, &files), Ok(()));
    let empty: Vec<Vec<u8>> = vec![];
    assert_eq!(clear_guard(Platform::Linux, &empty), Ok(()));
}

#[test]
fn guard_failure_fails_the_pass_before_any_build() {
    let mut pipeline = BuildPipeline::new(2);
    let files = vec![b"keepsake.txt".to_vec()];
    let r = pipeline.clear_checked(Platform::Linux, &files);
    assert_eq!(r, Err(ExitStatus::LintCrateBuildFail));
    assert_eq!(pipeline.phase, PipelinePhase::Failed);
    assert!(pipeline.artifacts.is_empty());
}

#[test]
fn a_failing_build_is_terminal_and_yields_no_artifacts() {
    let mut pipeline = BuildPipeline::new(3);
    let empty: Vec<Vec<u8>> = vec![];
    assert_eq!(pipeline.clear_checked(Platform::Linux, &empty), Ok(()));
    assert_eq!(pipeline.phase, PipelinePhase::Build(0));
    assert_eq!(pipeline.build_finished(true), Ok(()));
    assert_eq!(pipeline.phase, PipelinePhase::Build(1));
    assert_eq!(pipeline.build_finished(false), Err(ExitStatus::LintCrateBuildFail));
    assert_eq!(pipeline.phase, PipelinePhase::Failed);
    assert!(pipeline.artifacts.is_empty());
}

#[test]
fn a_pass_with_all_builds_succeeding_reaches_discovery() {
    let mut pipeline = BuildPipeline::new(2);
    let empty: Vec<Vec<u8>> = vec![];
    assert_eq!(pipeline.clear_checked(Platform::Linux, &empty), Ok(()));
    assert_eq!(pipeline.build_finished(true), Ok(()));
    assert_eq!(pipeline.build_finished(true), Ok(()));
    assert_eq!(pipeline.phase, PipelinePhase::Discover);
    let produced = vec![b"a.so".to_vec(), b"b.so".to_vec()];
    pipeline.discover_artifacts(Platform::Linux, &produced);
    assert_eq!(pipeline.phase, PipelinePhase::Done);
    assert_eq!(pipeline.artifacts.len(), 2);
    assert_eq!(pipeline.artifacts[0].file, b"a.so".to_vec());
    assert_eq!(pipeline.artifacts[1].file, b"b.so".to_vec());
}

#[test]
fn discovery_collects_exactly_the_dynamic_libraries() {
    let files = vec![b"plugin.so".to_vec(), b"plugin.d".to_vec()];
    let artifacts = discover(Platform::Linux, &files);
    assert_eq!(artifacts.len(), 1);
    assert_eq!(artifacts[0].file, b"plugin.so".to_vec());

    let files = vec![b"plugin.dll".to_vec(), b"plugin.pdb".to_vec()];
    let artifacts = discover(Platform::Windows, &files);
    assert_eq!(artifacts.len(), 1);
    assert_eq!(artifacts[0].file, b"plugin.dll".to_vec());
}

#[test]
fn a_pass_without_sources_skips_straight_to_discovery() {
    let mut pipeline = BuildPipeline::new(0);
    let empty: Vec<Vec<u8>> = vec![];
    assert_eq!(pipeline.clear_checked(Platform::Linux, &empty), Ok(()));
    assert_eq!(pipeline.phase, PipelinePhase::Discover);
}
