//! Parsing and classification of action references, the `uses:` values of
//! workflow steps and of jobs that call a reusable workflow.

use vstd::prelude::*;
use vstd::string::*;
use crate::text::{
    contains_char, find_char, first_index, has_prefix, last_index, rfind_char, same_text,
    starts_with,
};

verus! {

/// The parts of a container image reference, as character sequences.
pub struct DockerUsesView {
    pub registry: Option<Seq<char>>,
    pub image: Seq<char>,
    pub tag: Option<Seq<char>>,
    pub hash: Option<Seq<char>>,
}

/// The parts of a repository reference, as character sequences.
pub struct RepositoryUsesView {
    pub owner: Seq<char>,
    pub repo: Seq<char>,
    pub subpath: Option<Seq<char>>,
    pub git_ref: Option<Seq<char>>,
}

/// An action reference, as character sequences.
pub enum UsesView {
    Docker(DockerUsesView),
    Repository(RepositoryUsesView),
}

/// The characters of an optional string slice.
pub open spec fn opt_chars(o: Option<&str>) -> Option<Seq<char>> {
    match o {
        Some(s) => Some(s@),
        None => None,
    }
}

/// An empty sequence stands for an absent part.
pub open spec fn non_empty(s: Seq<char>) -> Option<Seq<char>> {
    if s.len() == 0 {
        None
    } else {
        Some(s)
    }
}

pub open spec fn localhost_chars() -> Seq<char> {
    seq!['l', 'o', 'c', 'a', 'l', 'h', 'o', 's', 't']
}

pub open spec fn local_prefix() -> Seq<char> {
    seq!['.', '/']
}

pub open spec fn docker_prefix() -> Seq<char> {
    seq!['d', 'o', 'c', 'k', 'e', 'r', ':', '/', '/']
}

/// The first path segment of an image names a registry when it is
/// `localhost`, or holds a `.` or a `:` (a host name or a port).
pub open spec fn spec_is_registry(s: Seq<char>) -> bool {
    s == localhost_chars() || s.contains('.') || s.contains(':')
}

/// An image reference (what follows `docker://`): an optional registry,
/// then the image, then `@digest` or else `:tag`; empty digests and tags
/// are absent.
pub open spec fn spec_image_ref(s: Seq<char>) -> DockerUsesView {
    let slash = first_index(s, '/');
    let registry = if slash.is_some() && spec_is_registry(s.take(slash.unwrap())) {
        Some(s.take(slash.unwrap()))
    } else {
        None
    };
    let image = if registry.is_some() {
        s.skip(slash.unwrap() + 1)
    } else {
        s
    };
    match first_index(image, '@') {
        Some(i) => DockerUsesView {
            registry,
            image: image.take(i),
            tag: None,
            hash: non_empty(image.skip(i + 1)),
        },
        None => match first_index(image, ':') {
            Some(i) => DockerUsesView {
                registry,
                image: image.take(i),
                tag: non_empty(image.skip(i + 1)),
                hash: None,
            },
            None => DockerUsesView { registry, image, tag: None, hash: None },
        },
    }
}

/// A repository reference: the text up to the last `@` is the path, the
/// rest the git ref; the path is `owner/repo` with an optional `/subpath`.
pub open spec fn spec_repository_ref(s: Seq<char>) -> Option<RepositoryUsesView> {
    let at = last_index(s, '@');
    let path = if at.is_some() {
        s.take(at.unwrap())
    } else {
        s
    };
    let git_ref = if at.is_some() {
        Some(s.skip(at.unwrap() + 1))
    } else {
        None
    };
    match first_index(path, '/') {
        None => None,
        Some(i) => {
            let rest = path.skip(i + 1);
            match first_index(rest, '/') {
                Some(j) => Some(
                    RepositoryUsesView {
                        owner: path.take(i),
                        repo: rest.take(j),
                        subpath: Some(rest.skip(j + 1)),
                        git_ref,
                    },
                ),
                None => Some(
                    RepositoryUsesView { owner: path.take(i), repo: rest, subpath: None, git_ref },
                ),
            }
        },
    }
}

/// What a `uses:` value denotes: nothing for a local `./` path, an image
/// after `docker://`, and otherwise a repository reference, if well formed.
pub open spec fn spec_from_common(s: Seq<char>) -> Option<UsesView> {
    if has_prefix(s, local_prefix()) {
        None
    } else if has_prefix(s, docker_prefix()) {
        Some(UsesView::Docker(spec_image_ref(s.skip(9))))
    } else {
        match spec_repository_ref(s) {
            Some(r) => Some(UsesView::Repository(r)),
            None => None,
        }
    }
}

/// What a reusable workflow's `uses:` value denotes: only a repository
/// reference that carries a git ref.
pub open spec fn spec_from_reusable(s: Seq<char>) -> Option<RepositoryUsesView> {
    match spec_from_common(s) {
        Some(UsesView::Repository(r)) => if r.git_ref.is_some() {
            Some(r)
        } else {
            None
        },
        _ => None,
    }
}

pub open spec fn is_hex_digit(c: char) -> bool {
    ('0' <= c && c <= '9') || ('a' <= c && c <= 'f') || ('A' <= c && c <= 'F')
}

/// A git ref that looks like a full commit: forty hexadecimal digits.
pub open spec fn spec_is_commit(r: Seq<char>) -> bool {
    r.len() == 40 && forall|i: int| 0 <= i < r.len() ==> is_hex_digit(#[trigger] r[i])
}

/// A reference is unpinned when it names no tag, digest or git ref.
pub open spec fn spec_unpinned(u: UsesView) -> bool {
    match u {
        UsesView::Docker(d) => d.hash.is_none() && d.tag.is_none(),
        UsesView::Repository(r) => r.git_ref.is_none(),
    }
}

/// The text of a repository reference: `owner/repo`, then `/subpath` and
/// `@git_ref` when present.
pub open spec fn spec_repository_text(
    owner: Seq<char>,
    repo: Seq<char>,
    subpath: Option<Seq<char>>,
    git_ref: Option<Seq<char>>,
) -> Seq<char> {
    let base = owner + seq!['/'] + repo;
    let with_subpath = match subpath {
        Some(p) => base + seq!['/'] + p,
        None => base,
    };
    match git_ref {
        Some(g) => with_subpath + seq!['@'] + g,
        None => with_subpath,
    }
}

/// The text of an image reference: `docker://`, then `registry/` when
/// present, the image, and `:tag` and `@hash` when present.
pub open spec fn spec_docker_text(
    registry: Option<Seq<char>>,
    image: Seq<char>,
    tag: Option<Seq<char>>,
    hash: Option<Seq<char>>,
) -> Seq<char> {
    let head = match registry {
        Some(r) => docker_prefix() + r + seq!['/'],
        None => docker_prefix(),
    };
    let with_tag = match tag {
        Some(t) => head + image + seq![':'] + t,
        None => head + image,
    };
    match hash {
        Some(h) => with_tag + seq!['@'] + h,
        None => with_tag,
    }
}

/// The parts of a `uses: docker://` value.
#[derive(Copy, Clone, Debug, PartialEq)]
pub struct DockerUses<'a> {
    pub registry: Option<&'a str>,
    pub image: &'a str,
    pub tag: Option<&'a str>,
    pub hash: Option<&'a str>,
}

impl<'a> View for DockerUses<'a> {
    type V = DockerUsesView;

    open spec fn view(&self) -> DockerUsesView {
        DockerUsesView {
            registry: opt_chars(self.registry),
            image: self.image@,
            tag: opt_chars(self.tag),
            hash: opt_chars(self.hash),
        }
    }
}

/// The parts of a `uses: owner/repo` value.
#[derive(Copy, Clone, Debug, PartialEq)]
pub struct RepositoryUses<'a> {
    pub owner: &'a str,
    pub repo: &'a str,
    pub subpath: Option<&'a str>,
    pub git_ref: Option<&'a str>,
}

impl<'a> View for RepositoryUses<'a> {
    type V = RepositoryUsesView;

    open spec fn view(&self) -> RepositoryUsesView {
        RepositoryUsesView {
            owner: self.owner@,
            repo: self.repo@,
            subpath: opt_chars(self.subpath),
            git_ref: opt_chars(self.git_ref),
        }
    }
}

/// An action reference: the value of a `uses:` clause of a step or of a
/// job that calls a reusable workflow. Local (`./`) references are not
/// represented.
#[derive(Copy, Clone, Debug, PartialEq)]
pub enum Uses<'a> {
    Docker(DockerUses<'a>),
    Repository(RepositoryUses<'a>),
}

impl<'a> View for Uses<'a> {
    type V = UsesView;

    open spec fn view(&self) -> UsesView {
        match self {
            Uses::Docker(d) => UsesView::Docker(d@),
            Uses::Repository(r) => UsesView::Repository(r@),
        }
    }
}

pub open spec fn opt_uses_view(o: Option<Uses>) -> Option<UsesView> {
    match o {
        Some(u) => Some(u@),
        None => None,
    }
}

pub open spec fn opt_repo_view(o: Option<RepositoryUses>) -> Option<RepositoryUsesView> {
    match o {
        Some(r) => Some(r@),
        None => None,
    }
}

/// Whether `c` is an ASCII hexadecimal digit.
fn hex_digit(c: char) -> (r: bool)
    ensures
        r == is_hex_digit(c),
{
    ('0' <= c && c <= '9') || ('a' <= c && c <= 'f') || ('A' <= c && c <= 'F')
}

/// The empty slice stands for an absent part.
fn non_empty_str<'a>(s: &'a str) -> (r: Option<&'a str>)
    ensures
        opt_chars(r) == non_empty(s@),
{
    if s.unicode_len() == 0 {
        None
    } else {
        Some(s)
    }
}

impl<'a> RepositoryUses<'a> {
    /// Whether the git ref looks like a full commit: forty hexadecimal digits.
    pub fn ref_is_commit(&self) -> (r: bool)
        ensures
            r == (self.git_ref.is_some() && spec_is_commit(self.git_ref.unwrap()@)),
    {
        match self.git_ref {
            Some(git_ref) => {
                let n = git_ref.unicode_len();
                if n != 40 {
                    return false;
                }
                let mut i: usize = 0;
                while i < n
                    invariant
                        self.git_ref == Some(git_ref),
                        n == git_ref@.len(),
                        i <= n,
                        forall|j: int| 0 <= j < i ==> is_hex_digit(#[trigger] git_ref@[j]),
                    decreases n - i,
                {
                    if !hex_digit(git_ref.get_char(i)) {
                        assert(!is_hex_digit(git_ref@[i as int]));
                        return false;
                    }
                    i = i + 1;
                }
                true
            },
            None => false,
        }
    }

    /// The git ref, when it looks like a full commit.
    pub fn commit_ref(&self) -> (r: Option<&'a str>)
        ensures
            r == (if self.git_ref.is_some() && spec_is_commit(self.git_ref.unwrap()@) {
                self.git_ref
            } else {
                None
            }),
    {
        match self.git_ref {
            Some(git_ref) => if self.ref_is_commit() {
                Some(git_ref)
            } else {
                None
            },
            None => None,
        }
    }

    /// The git ref, when it is present and does not look like a full commit
    /// (a branch or a tag).
    pub fn symbolic_ref(&self) -> (r: Option<&'a str>)
        ensures
            r == (if self.git_ref.is_some() && !spec_is_commit(self.git_ref.unwrap()@) {
                self.git_ref
            } else {
                None
            }),
    {
        match self.git_ref {
            Some(git_ref) => if !self.ref_is_commit() {
                Some(git_ref)
            } else {
                None
            },
            None => None,
        }
    }
}

impl<'a> Uses<'a> {
    /// Whether the first path segment of an image reference names a registry.
    pub fn is_registry(registry: &str) -> (r: bool)
        ensures
            r == spec_is_registry(registry@),
    {
        let localhost = "localhost";
        proof {
            reveal_strlit("localhost");
            assert(localhost@ =~= localhost_chars());
        }
        same_text(registry, localhost) || contains_char(registry, '.') || contains_char(
            registry,
            ':',
        )
    }

    /// Parses an image reference, the text after `docker://`.
    pub fn from_image_ref(image: &'a str) -> (r: Option<Self>)
        ensures
            r.is_some(),
            r.unwrap()@ == UsesView::Docker(spec_image_ref(image@)),
    {
        let n = image.unicode_len();
        let ghost s = image@;
        let ghost slash = first_index(s, '/');
        let (registry, image) = match find_char(image, '/') {
            Some(i) => {
                let head = image.substring_char(0, i);
                assert(head@ =~= s.take(i as int));
                if Self::is_registry(head) {
                    let tail = image.substring_char(i + 1, n);
                    assert(tail@ =~= s.skip(i + 1));
                    (Some(head), tail)
                } else {
                    (None, image)
                }
            },
            None => (None, image),
        };
        let m = image.unicode_len();
        match find_char(image, '@') {
            Some(i) => {
                let name = image.substring_char(0, i);
                let hash = image.substring_char(i + 1, m);
                assert(name@ =~= image@.take(i as int));
                assert(hash@ =~= image@.skip(i + 1));
                Some(Uses::Docker(DockerUses { registry, image: name, tag: None, hash: non_empty_str(hash) }))
            },
            None => match find_char(image, ':') {
                Some(i) => {
                    let name = image.substring_char(0, i);
                    let tag = image.substring_char(i + 1, m);
                    assert(name@ =~= image@.take(i as int));
                    assert(tag@ =~= image@.skip(i + 1));
                    Some(Uses::Docker(DockerUses { registry, image: name, tag: non_empty_str(tag), hash: None }))
                },
                None => Some(Uses::Docker(DockerUses { registry, image, tag: None, hash: None })),
            },
        }
    }

    /// Parses a `uses:` value as a step or a reusable workflow call may hold it.
    pub fn from_common(uses: &'a str) -> (r: Option<Self>)
        ensures
            opt_uses_view(r) == spec_from_common(uses@),
    {
        let local = "./";
        let docker = "docker://";
        proof {
            reveal_strlit("./");
            reveal_strlit("docker://");
            assert(local@ =~= local_prefix());
            assert(docker@ =~= docker_prefix());
        }
        let n = uses.unicode_len();
        if starts_with(uses, local) {
            None
        } else if starts_with(uses, docker) {
            let image = uses.substring_char(9, n);
            assert(image@ =~= uses@.skip(9));
            Self::from_image_ref(image)
        } else {
            let ghost s = uses@;
            let (path, git_ref) = match rfind_char(uses, '@') {
                Some(i) => {
                    let path = uses.substring_char(0, i);
                    let git_ref = uses.substring_char(i + 1, n);
                    assert(path@ =~= s.take(i as int));
                    assert(git_ref@ =~= s.skip(i + 1));
                    (path, Some(git_ref))
                },
                None => (uses, None),
            };
            let p = path.unicode_len();
            match find_char(path, '/') {
                None => None,
                Some(i) => {
                    let owner = path.substring_char(0, i);
                    let rest = path.substring_char(i + 1, p);
                    assert(owner@ =~= path@.take(i as int));
                    assert(rest@ =~= path@.skip(i + 1));
                    let q = rest.unicode_len();
                    match find_char(rest, '/') {
                        Some(j) => {
                            let repo = rest.substring_char(0, j);
                            let subpath = rest.substring_char(j + 1, q);
                            assert(repo@ =~= rest@.take(j as int));
                            assert(subpath@ =~= rest@.skip(j + 1));
                            Some(Uses::Repository(RepositoryUses { owner, repo, subpath: Some(subpath), git_ref }))
                        },
                        None => Some(Uses::Repository(RepositoryUses { owner, repo: rest, subpath: None, git_ref })),
                    }
                },
            }
        }
    }

    /// Parses the `uses:` value of a step.
    pub fn from_step(uses: &'a str) -> (r: Option<Self>)
        ensures
            opt_uses_view(r) == spec_from_common(uses@),
    {
        Self::from_common(uses)
    }

    /// Parses the `uses:` value of a job that calls a reusable workflow: only
    /// a repository reference with a git ref is accepted.
    pub fn from_reusable(uses: &'a str) -> (r: Option<RepositoryUses<'a>>)
        ensures
            opt_repo_view(r) == spec_from_reusable(uses@),
    {
        match Self::from_common(uses) {
            Some(Uses::Docker(_)) => None,
            Some(Uses::Repository(repo)) => if repo.git_ref.is_none() {
                None
            } else {
                Some(repo)
            },
            None => None,
        }
    }

    /// Whether the reference is pinned to nothing: an image without tag or
    /// digest, or a repository without a git ref.
    pub fn unpinned(&self) -> (r: bool)
        ensures
            r == spec_unpinned(self@),
    {
        match self {
            Uses::Docker(docker) => docker.hash.is_none() && docker.tag.is_none(),
            Uses::Repository(repo) => repo.git_ref.is_none(),
        }
    }
}

/// Writes a repository reference from its parts.
pub fn repository_text(owner: &str, repo: &str, subpath: Option<&str>, git_ref: Option<&str>) -> (r:
    String)
    ensures
        r@ == spec_repository_text(owner@, repo@, opt_chars(subpath), opt_chars(git_ref)),
{
    let slash = "/";
    let at = "@";
    proof {
        reveal_strlit("/");
        reveal_strlit("@");
    }
    let mut text = String::from_str(owner);
    text.append(slash);
    text.append(repo);
    match subpath {
        Some(p) => {
            text.append(slash);
            text.append(p);
        },
        None => {},
    }
    match git_ref {
        Some(g) => {
            text.append(at);
            text.append(g);
        },
        None => {},
    }
    text
}

/// Writes an image reference, with its `docker://` prefix, from its parts.
pub fn docker_text(registry: Option<&str>, image: &str, tag: Option<&str>, hash: Option<&str>) -> (r:
    String)
    ensures
        r@ == spec_docker_text(opt_chars(registry), image@, opt_chars(tag), opt_chars(hash)),
{
    let prefix = "docker://";
    let slash = "/";
    let colon = ":";
    let at = "@";
    proof {
        reveal_strlit("docker://");
        reveal_strlit("/");
        reveal_strlit(":");
        reveal_strlit("@");
        assert(prefix@ =~= docker_prefix());
    }
    let mut text = String::from_str(prefix);
    match registry {
        Some(r) => {
            text.append(r);
            text.append(slash);
        },
        None => {},
    }
    text.append(image);
    match tag {
        Some(t) => {
            text.append(colon);
            text.append(t);
        },
        None => {},
    }
    match hash {
        Some(h) => {
            text.append(at);
            text.append(h);
        },
        None => {},
    }
    text
}

} // verus!
