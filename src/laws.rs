//! Laws of the action-reference parser, proved over its specification.

use vstd::prelude::*;
use crate::text::{first_index, has_prefix, last_index, lemma_first_from_at, lemma_first_from_none, lemma_last_before_at};
use crate::uses::{
    docker_prefix, local_prefix, spec_from_common, spec_from_reusable, spec_is_commit,
    spec_repository_text, spec_unpinned, RepositoryUsesView, UsesView,
};

verus! {

/// `owner/repo...`, with an owner and a repo free of `/` and an owner other
/// than `.`, is neither a local nor an image reference, and its first `/`
/// follows the owner.
proof fn lemma_owner_repo_prefix(owner: Seq<char>, repo: Seq<char>, s: Seq<char>)
    requires
        !owner.contains('/'),
        !repo.contains('/'),
        owner != seq!['.'],
        s.len() >= owner.len() + 1 + repo.len(),
        s.take((owner.len() + 1 + repo.len()) as int) == owner + seq!['/'] + repo,
        s.len() > owner.len() + 1 + repo.len() ==> s[(owner.len() + 1 + repo.len()) as int] != '/',
    ensures
        !has_prefix(s, local_prefix()),
        !has_prefix(s, docker_prefix()),
{
    let k = owner.len() as int;
    let head = owner + seq!['/'] + repo;
    assert forall|j: int| 0 <= j < k implies s[j] != '/' by {
        assert(s[j] == s.take(head.len() as int)[j]);
        assert(head[j] == owner[j]);
    }
    assert(s[k] == '/') by {
        assert(s[k] == s.take(head.len() as int)[k]);
    }
    assert forall|j: int| k < j < head.len() implies s[j] != '/' by {
        assert(s[j] == s.take(head.len() as int)[j]);
        assert(head[j] == repo[j - k - 1]);
    }
    if has_prefix(s, local_prefix()) {
        assert(s[0] == s.take(2)[0]);
        assert(s[1] == s.take(2)[1]);
        assert(k == 1);
        assert(owner[0] == s[0]);
        assert(owner =~= seq!['.']);
    }
    if has_prefix(s, docker_prefix()) {
        assert(forall|j: int| 0 <= j < 9 ==> s[j] == #[trigger] s.take(9)[j]);
        assert(k == 7);
    }
}

/// `owner/repo@git_ref`, with a git ref free of `@`, parses as that
/// repository pinned to that ref.
pub proof fn lemma_pinned_repository(owner: Seq<char>, repo: Seq<char>, git_ref: Seq<char>)
    requires
        !owner.contains('/'),
        !repo.contains('/'),
        owner != seq!['.'],
        !git_ref.contains('@'),
    ensures
        spec_from_common(spec_repository_text(owner, repo, None, Some(git_ref))) == Some(
            UsesView::Repository(
                RepositoryUsesView { owner, repo, subpath: None, git_ref: Some(git_ref) },
            ),
        ),
{
    let s = spec_repository_text(owner, repo, None, Some(git_ref));
    let path = owner + seq!['/'] + repo;
    let k = owner.len() as int;
    let at = path.len() as int;
    assert(s.take(at) =~= path);
    lemma_owner_repo_prefix(owner, repo, s);
    assert forall|j: int| at < j < s.len() implies s[j] != '@' by {
        assert(s[j] == git_ref[j - at - 1]);
    }
    lemma_last_before_at(s, '@', s.len() as int, at);
    assert(last_index(s, '@') == Some(at));
    assert(s.skip(at + 1) =~= git_ref);
    assert(path[k] == '/');
    assert forall|j: int| 0 <= j < k implies path[j] != '/' by {
        assert(path[j] == owner[j]);
    }
    lemma_first_from_at(path, '/', 0, k);
    assert(path.take(k) =~= owner);
    assert(path.skip(k + 1) =~= repo);
    lemma_first_from_none(repo, '/', 0);
    assert(first_index(repo, '/').is_none());
}

/// A repository reference pinned to forty hexadecimal digits parses with
/// those digits, a commit, as its git ref.
pub proof fn lemma_commit_pinned(owner: Seq<char>, repo: Seq<char>, commit: Seq<char>)
    requires
        !owner.contains('/'),
        !repo.contains('/'),
        owner != seq!['.'],
        spec_is_commit(commit),
    ensures
        spec_from_common(spec_repository_text(owner, repo, None, Some(commit))) == Some(
            UsesView::Repository(
                RepositoryUsesView { owner, repo, subpath: None, git_ref: Some(commit) },
            ),
        ),
{
    if commit.contains('@') {
        let i = choose|i: int| 0 <= i < commit.len() && commit[i] == '@';
        assert(crate::uses::is_hex_digit(commit[i]));
    }
    lemma_pinned_repository(owner, repo, commit);
}

/// A repository reference pinned to a ref that is not a commit (a branch,
/// a tag, a short hash) is pinned symbolically: still pinned, not to a commit.
pub proof fn lemma_symbolic_pinned(owner: Seq<char>, repo: Seq<char>, git_ref: Seq<char>)
    requires
        !owner.contains('/'),
        !repo.contains('/'),
        owner != seq!['.'],
        !git_ref.contains('@'),
        !spec_is_commit(git_ref),
    ensures
        spec_from_common(spec_repository_text(owner, repo, None, Some(git_ref))) is Some,
        spec_from_common(spec_repository_text(owner, repo, None, Some(git_ref))).unwrap() == UsesView::Repository(
            RepositoryUsesView { owner, repo, subpath: None, git_ref: Some(git_ref) },
        ),
        !spec_unpinned(spec_from_common(spec_repository_text(owner, repo, None, Some(git_ref))).unwrap()),
{
    lemma_pinned_repository(owner, repo, git_ref);
}

/// `owner/repo` with no `@` parses with no git ref, and is unpinned.
pub proof fn lemma_unpinned_repository(owner: Seq<char>, repo: Seq<char>)
    requires
        !owner.contains('/'),
        !repo.contains('/'),
        !owner.contains('@'),
        !repo.contains('@'),
        owner != seq!['.'],
    ensures
        spec_from_common(spec_repository_text(owner, repo, None, None)) == Some(
            UsesView::Repository(RepositoryUsesView { owner, repo, subpath: None, git_ref: None }),
        ),
        spec_unpinned(spec_from_common(spec_repository_text(owner, repo, None, None)).unwrap()),
{
    let s = spec_repository_text(owner, repo, None, None);
    let k = owner.len() as int;
    assert(s.take(s.len() as int) =~= s);
    lemma_owner_repo_prefix(owner, repo, s);
    assert forall|j: int| 0 <= j < s.len() implies s[j] != '@' by {
        if j < k {
            assert(s[j] == owner[j]);
        } else if j > k {
            assert(s[j] == repo[j - k - 1]);
        }
    }
    crate::text::lemma_last_before_none(s, '@', s.len() as int);
    assert forall|j: int| 0 <= j < k implies s[j] != '/' by {
        assert(s[j] == owner[j]);
    }
    lemma_first_from_at(s, '/', 0, k);
    assert(s.take(k) =~= owner);
    assert(s.skip(k + 1) =~= repo);
    lemma_first_from_none(repo, '/', 0);
}

/// A reusable workflow call accepts no image reference, and no repository
/// reference without a git ref, though a step accepts the latter.
pub proof fn lemma_reusable_rejections(s: Seq<char>)
    ensures
        has_prefix(s, docker_prefix()) ==> spec_from_reusable(s).is_none(),
        (spec_from_common(s) matches Some(UsesView::Docker(_))) ==> spec_from_reusable(s).is_none(),
        (spec_from_common(s) matches Some(UsesView::Repository(r)) && r.git_ref.is_none())
            ==> spec_from_reusable(s).is_none(),
        (spec_from_common(s) matches Some(UsesView::Repository(r)) && r.git_ref.is_some())
            ==> spec_from_reusable(s) is Some,
{
}

/// Parsing holds no state: the same text always gives the same reference.
pub proof fn lemma_parse_idempotent(s: Seq<char>, t: Seq<char>)
    requires
        s == t,
    ensures
        spec_from_common(s) == spec_from_common(t),
        spec_from_reusable(s) == spec_from_reusable(t),
{
}

} // verus!
