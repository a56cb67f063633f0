use forge_runtime::builder::{
    finish_build, is_binary_name, lex_le_bytes, select_artifact, toolchain_outcome, BuildError,
};
use forge_runtime::deploy::{confirm_deployment, DeployError};
use forge_runtime::identity::{fresh_identity, Identity};

fn names(list: &[&str]) -> Vec<Vec<u8>> {
    list.iter().map(|n| n.as_bytes().to_vec()).collect()
}

#[test]
fn toolchain_success_is_ok() {
    assert_eq!(toolchain_outcome(true, String::new()), Ok(()));
}

#[test]
fn toolchain_failure_surfaces_stderr() {
    let stderr = String::from("error: linker exploded");
    assert_eq!(
        toolchain_outcome(false, stderr.clone()),
        Err(BuildError::ToolchainFailure(stderr))
    );
}

#[test]
fn binary_name_needs_the_extension() {
    assert!(is_binary_name(&b"program.so".to_vec()));
    assert!(is_binary_name(&b".so".to_vec()));
    assert!(!is_binary_name(&b"program.txt".to_vec()));
    assert!(!is_binary_name(&b"so".to_vec()));
    assert!(!is_binary_name(&b"".to_vec()));
}

#[test]
fn lexicographic_order_on_names() {
    assert!(lex_le_bytes(&b"alpha.so".to_vec(), &b"zeta.so".to_vec()));
    assert!(!lex_le_bytes(&b"zeta.so".to_vec(), &b"alpha.so".to_vec()));
    assert!(lex_le_bytes(&b"a".to_vec(), &b"ab".to_vec()));
    assert!(!lex_le_bytes(&b"ab".to_vec(), &b"a".to_vec()));
    assert!(lex_le_bytes(&b"same".to_vec(), &b"same".to_vec()));
    assert!(lex_le_bytes(&b"".to_vec(), &b"x".to_vec()));
}

#[test]
fn select_artifact_picks_lexicographically_first() {
    let entries = names(&["zeta.so", "readme.txt", "alpha.so", "beta.so"]);
    assert_eq!(select_artifact(&entries), Some(2));
}

#[test]
fn select_artifact_ignores_other_files() {
    let entries = names(&["notes.md", "beta.so", "archive.tar"]);
    assert_eq!(select_artifact(&entries), Some(1));
}

#[test]
fn select_artifact_none_without_binaries() {
    let entries = names(&["readme.txt", "keys.json"]);
    assert_eq!(select_artifact(&entries), None);
    assert_eq!(select_artifact(&names(&[])), None);
}

#[test]
fn finish_build_preserves_bytecode() {
    let raw = vec![0x7f, 0x45, 0x4c, 0x46, 0x01, 0x00];
    let artifact = finish_build(
        Identity::from_bytes([7; 32]),
        raw.clone(),
        String::from("target/deploy/program.so"),
    )
    .unwrap();
    assert_eq!(artifact.bytecode, raw);
    assert_eq!(artifact.program_id, Identity::from_bytes([7; 32]));
    assert_eq!(artifact.program_path, "target/deploy/program.so");
    assert!(!artifact.bytecode.is_empty());
}

#[test]
fn finish_build_rejects_empty_bytecode() {
    let r = finish_build(
        Identity::from_bytes([7; 32]),
        Vec::new(),
        String::from("target/deploy/program.so"),
    );
    assert_eq!(r, Err(BuildError::NoArtifactProduced));
}

#[test]
fn fresh_identity_is_full_length() {
    let a = fresh_identity();
    assert_eq!(a.bytes.len(), 32);
}

#[test]
fn fresh_identities_are_independent() {
    assert_ne!(fresh_identity(), fresh_identity());
}

#[test]
fn confirm_deployment_returns_artifact_identity() {
    let artifact = finish_build(
        Identity::from_bytes([9; 32]),
        vec![1, 2, 3],
        String::from("p.so"),
    )
    .unwrap();
    let deployed = confirm_deployment(&artifact, Ok(())).unwrap();
    assert_eq!(deployed, artifact.program_id);
}

#[test]
fn confirm_deployment_propagates_rejection() {
    let artifact = finish_build(
        Identity::from_bytes([9; 32]),
        vec![1, 2, 3],
        String::from("p.so"),
    )
    .unwrap();
    let rejected = DeployError::SubmissionRejected(String::from("payload too large"));
    assert_eq!(
        confirm_deployment(&artifact, Err(rejected.clone())),
        Err(rejected)
    );
    let unreachable_endpoint = DeployError::ConnectionFailure(String::from("refused"));
    assert_eq!(
        confirm_deployment(&artifact, Err(unreachable_endpoint.clone())),
        Err(unreachable_endpoint)
    );
}
