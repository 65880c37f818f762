use action_refs::uses::{DockerUses, RepositoryUses, Uses};

#[test]
fn uses_from_step() {
    let vectors = [
        (
            // Valid: fully pinned.
            "actions/checkout@8f4b7f84864484a7bf31766abe9204da3cbe65b3",
            Some(Uses::Repository(RepositoryUses {
                owner: "actions",
                repo: "checkout",
                subpath: None,
                git_ref: Some("8f4b7f84864484a7bf31766abe9204da3cbe65b3"),
            })),
        ),
        (
            // Valid: fully pinned, subpath
            "actions/aws/ec2@8f4b7f84864484a7bf31766abe9204da3cbe65b3",
            Some(Uses::Repository(RepositoryUses {
                owner: "actions",
                repo: "aws",
                subpath: Some("ec2"),
                git_ref: Some("8f4b7f84864484a7bf31766abe9204da3cbe65b3"),
            })),
        ),
        (
            // Valid: fully pinned, complex subpath
            "example/foo/bar/baz/quux@8f4b7f84864484a7bf31766abe9204da3cbe65b3",
            Some(Uses::Repository(RepositoryUses {
                owner: "example",
                repo: "foo",
                subpath: Some("bar/baz/quux"),
                git_ref: Some("8f4b7f84864484a7bf31766abe9204da3cbe65b3"),
            })),
        ),
        (
            // Valid: pinned with branch/tag
            "actions/checkout@v4",
            Some(Uses::Repository(RepositoryUses {
                owner: "actions",
                repo: "checkout",
                subpath: None,
                git_ref: Some("v4"),
            })),
        ),
        (
            "actions/checkout@abcd",
            Some(Uses::Repository(RepositoryUses {
                owner: "actions",
                repo: "checkout",
                subpath: None,
                git_ref: Some("abcd"),
            })),
        ),
        (
            // Valid: unpinned
            "actions/checkout",
            Some(Uses::Repository(RepositoryUses {
                owner: "actions",
                repo: "checkout",
                subpath: None,
                git_ref: None,
            })),
        ),
        (
            // Valid: Docker ref, implicit registry
            "docker://alpine:3.8",
            Some(Uses::Docker(DockerUses {
                registry: None,
                image: "alpine",
                tag: Some("3.8"),
                hash: None,
            })),
        ),
        (
            // Valid: Docker ref, localhost
            "docker://localhost/alpine:3.8",
            Some(Uses::Docker(DockerUses {
                registry: Some("localhost"),
                image: "alpine",
                tag: Some("3.8"),
                hash: None,
            })),
        ),
        (
            // Valid: Docker ref, localhost w/ port
            "docker://localhost:1337/alpine:3.8",
            Some(Uses::Docker(DockerUses {
                registry: Some("localhost:1337"),
                image: "alpine",
                tag: Some("3.8"),
                hash: None,
            })),
        ),
        (
            // Valid: Docker ref, custom registry
            "docker://ghcr.io/foo/alpine:3.8",
            Some(Uses::Docker(DockerUses {
                registry: Some("ghcr.io"),
                image: "foo/alpine",
                tag: Some("3.8"),
                hash: None,
            })),
        ),
        (
            // Valid: Docker ref, missing tag
            "docker://ghcr.io/foo/alpine",
            Some(Uses::Docker(DockerUses {
                registry: Some("ghcr.io"),
                image: "foo/alpine",
                tag: None,
                hash: None,
            })),
        ),
        (
            // Invalid, but allowed: Docker ref, empty tag
            "docker://ghcr.io/foo/alpine:",
            Some(Uses::Docker(DockerUses {
                registry: Some("ghcr.io"),
                image: "foo/alpine",
                tag: None,
                hash: None,
            })),
        ),
        (
            // Valid: Docker ref, bare
            "docker://alpine",
            Some(Uses::Docker(DockerUses {
                registry: None,
                image: "alpine",
                tag: None,
                hash: None,
            })),
        ),
        (
            // Valid: Docker ref, hash
            "docker://alpine@hash",
            Some(Uses::Docker(DockerUses {
                registry: None,
                image: "alpine",
                tag: None,
                hash: Some("hash"),
            })),
        ),
        // Invalid: missing user/repo
        ("checkout@8f4b7f84864484a7bf31766abe9204da3cbe65b3", None),
        // Invalid: local action refs not supported
        (
            "./.github/actions/hello-world-action@172239021f7ba04fe7327647b213799853a9eb89",
            None,
        ),
    ];

    for (input, expected) in vectors {
        assert_eq!(Uses::from_step(input), expected);
    }
}

#[test]
fn uses_from_reusable() {
    let vectors = [
        // Valid, as expected.
        (
            "octo-org/this-repo/.github/workflows/workflow-1.yml@\
             172239021f7ba04fe7327647b213799853a9eb89",
            Some(RepositoryUses {
                owner: "octo-org",
                repo: "this-repo",
                subpath: Some(".github/workflows/workflow-1.yml"),
                git_ref: Some("172239021f7ba04fe7327647b213799853a9eb89"),
            }),
        ),
        (
            "octo-org/this-repo/.github/workflows/workflow-1.yml@notahash",
            Some(RepositoryUses {
                owner: "octo-org",
                repo: "this-repo",
                subpath: Some(".github/workflows/workflow-1.yml"),
                git_ref: Some("notahash"),
            }),
        ),
        (
            "octo-org/this-repo/.github/workflows/workflow-1.yml@abcd",
            Some(RepositoryUses {
                owner: "octo-org",
                repo: "this-repo",
                subpath: Some(".github/workflows/workflow-1.yml"),
                git_ref: Some("abcd"),
            }),
        ),
        // Invalid: no ref at all
        ("octo-org/this-repo/.github/workflows/workflow-1.yml", None),
        // Invalid: missing user/repo
        (
            "workflow-1.yml@172239021f7ba04fe7327647b213799853a9eb89",
            None,
        ),
        // Invalid: local reusable workflow refs not supported
        (
            "./.github/workflows/workflow-1.yml@172239021f7ba04fe7327647b213799853a9eb89",
            None,
        ),
    ];

    for (input, expected) in vectors {
        assert_eq!(Uses::from_reusable(input), expected);
    }
}

#[test]
fn uses_ref_is_commit() {
    assert!(
        Uses::from_reusable("actions/checkout@8f4b7f84864484a7bf31766abe9204da3cbe65b3")
            .unwrap()
            .ref_is_commit()
    );

    assert!(!Uses::from_reusable("actions/checkout@v4")
        .unwrap()
        .ref_is_commit());

    assert!(!Uses::from_reusable("actions/checkout@abcd")
        .unwrap()
        .ref_is_commit());
}
