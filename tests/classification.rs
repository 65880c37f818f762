use action_refs::uses::{docker_text, repository_text, DockerUses, RepositoryUses, Uses};

const COMMIT: &str = "8f4b7f84864484a7bf31766abe9204da3cbe65b3";

fn repo(uses: &str) -> RepositoryUses<'_> {
    match Uses::from_step(uses) {
        Some(Uses::Repository(r)) => r,
        other => panic!("not a repository reference: {other:?}"),
    }
}

#[test]
fn commit_pinned_reference() {
    let input = format!("octo/widget@{COMMIT}");
    let r = repo(&input);
    assert_eq!(r.owner, "octo");
    assert_eq!(r.repo, "widget");
    assert_eq!(r.git_ref, Some(COMMIT));
    assert!(r.ref_is_commit());
    assert_eq!(r.commit_ref(), Some(COMMIT));
    assert_eq!(r.symbolic_ref(), None);
    assert!(!Uses::Repository(r).unpinned());
}

#[test]
fn uppercase_hex_is_a_commit() {
    let upper = COMMIT.to_uppercase();
    let input = format!("octo/widget@{upper}");
    assert!(repo(&input).ref_is_commit());
}

#[test]
fn symbolic_references_are_pinned_but_not_commits() {
    for input in [
        "octo/widget@v1.2.3",
        "octo/widget@main",
        "octo/widget@8f4b7f84864484a7bf31766abe9204da3cbe65b",
        "octo/widget@8f4b7f84864484a7bf31766abe9204da3cbe65b3a",
        "octo/widget@zf4b7f84864484a7bf31766abe9204da3cbe65b3",
    ] {
        let r = repo(input);
        assert!(!r.ref_is_commit(), "{input}");
        assert_eq!(r.commit_ref(), None);
        assert_eq!(r.symbolic_ref(), r.git_ref);
        assert!(!Uses::Repository(r).unpinned(), "{input}");
    }
}

#[test]
fn missing_ref_is_unpinned() {
    let r = repo("octo/widget");
    assert_eq!(r.git_ref, None);
    assert!(!r.ref_is_commit());
    assert_eq!(r.commit_ref(), None);
    assert_eq!(r.symbolic_ref(), None);
    assert!(Uses::Repository(r).unpinned());
}

#[test]
fn last_at_sign_splits_the_ref() {
    let r = repo("octo/wid@get/sub@v2");
    assert_eq!(r.owner, "octo");
    assert_eq!(r.repo, "wid@get");
    assert_eq!(r.subpath, Some("sub"));
    assert_eq!(r.git_ref, Some("v2"));
    // An empty ref after a trailing `@` is kept: it is still a ref.
    assert_eq!(repo("octo/widget@").git_ref, Some(""));
}

#[test]
fn docker_pinning() {
    assert!(Uses::from_step("docker://alpine").unwrap().unpinned());
    assert!(!Uses::from_step("docker://alpine:3.8").unwrap().unpinned());
    assert!(!Uses::from_step("docker://alpine@sha256:abc").unwrap().unpinned());
    assert!(Uses::from_step("docker://alpine:").unwrap().unpinned());
}

#[test]
fn docker_digest_wins_over_tag() {
    assert_eq!(
        Uses::from_image_ref("ghcr.io/foo/alpine:3.8@sha256:abc"),
        Some(Uses::Docker(DockerUses {
            registry: Some("ghcr.io"),
            image: "foo/alpine:3.8",
            tag: None,
            hash: Some("sha256:abc"),
        }))
    );
    // An empty digest is absent.
    assert_eq!(
        Uses::from_image_ref("alpine@"),
        Some(Uses::Docker(DockerUses { registry: None, image: "alpine", tag: None, hash: None }))
    );
}

#[test]
fn first_segment_without_registry_marks_is_part_of_the_image() {
    assert_eq!(
        Uses::from_image_ref("library/alpine:3.8"),
        Some(Uses::Docker(DockerUses {
            registry: None,
            image: "library/alpine",
            tag: Some("3.8"),
            hash: None,
        }))
    );
}

#[test]
fn registry_heuristic() {
    assert!(Uses::is_registry("localhost"));
    assert!(Uses::is_registry("ghcr.io"));
    assert!(Uses::is_registry("host:5000"));
    assert!(!Uses::is_registry("library"));
    assert!(!Uses::is_registry("localhos"));
    assert!(!Uses::is_registry(""));
}

#[test]
fn reusable_rejects_docker_and_unpinned() {
    assert_eq!(Uses::from_reusable("docker://alpine:3.8"), None);
    assert_eq!(Uses::from_reusable("docker://ghcr.io/foo/alpine@hash"), None);
    assert!(Uses::from_step("octo/widget/.github/workflows/w.yml").is_some());
    assert_eq!(Uses::from_reusable("octo/widget/.github/workflows/w.yml"), None);
}

#[test]
fn common_and_step_parse_alike() {
    for input in ["a/b@c", "docker://x:1", "./local", "nope", "a/b/c/d"] {
        assert_eq!(Uses::from_common(input), Uses::from_step(input));
    }
}

#[test]
fn parsing_is_idempotent() {
    for input in [
        "actions/checkout@v4",
        "docker://localhost:1337/alpine:3.8",
        "checkout",
        "./x",
    ] {
        assert_eq!(Uses::from_step(input), Uses::from_step(input));
        assert_eq!(Uses::from_reusable(input), Uses::from_reusable(input));
    }
}

#[test]
fn repository_text_round_trips() {
    assert_eq!(repository_text("octo", "widget", None, None), "octo/widget");
    let text = repository_text("octo", "widget", Some(".github/workflows/w.yml"), Some("v1"));
    assert_eq!(text, "octo/widget/.github/workflows/w.yml@v1");
    assert_eq!(
        Uses::from_reusable(&text),
        Some(RepositoryUses {
            owner: "octo",
            repo: "widget",
            subpath: Some(".github/workflows/w.yml"),
            git_ref: Some("v1"),
        })
    );
}

#[test]
fn docker_text_round_trips() {
    assert_eq!(docker_text(None, "alpine", None, None), "docker://alpine");
    assert_eq!(
        docker_text(Some("localhost:1337"), "alpine", Some("3.8"), None),
        "docker://localhost:1337/alpine:3.8"
    );
    let text = docker_text(Some("ghcr.io"), "foo/alpine", None, Some("sha256:abc"));
    assert_eq!(text, "docker://ghcr.io/foo/alpine@sha256:abc");
    assert_eq!(
        Uses::from_step(&text),
        Some(Uses::Docker(DockerUses {
            registry: Some("ghcr.io"),
            image: "foo/alpine",
            tag: None,
            hash: Some("sha256:abc"),
        }))
    );
}
