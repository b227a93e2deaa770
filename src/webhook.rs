//! Payloads of the source-control provider's push notifications, and the
//! set of paths that a push changed.

use vstd::prelude::*;
use crate::changeset::{insert_all_sorted, strictly_sorted, views, lemma_sorted_unique};

verus! {

/// A push notification: the commits pushed to one ref of one repository.
#[derive(Clone, Debug, Default)]
pub struct GitHubWebhookPush {
    /// The full ref that was pushed, such as `refs/heads/master`.
    pub git_ref: String,
    /// The revision at the head of the ref before the push.
    pub before: String,
    /// The revision at the head of the ref after the push.
    pub after: String,
    pub created: bool,
    pub deleted: bool,
    pub forced: bool,
    pub base_ref: Option<String>,
    pub compare: String,
    /// The pushed commits, in the order the provider listed them.
    pub commits: Vec<GitHubWebhookCommit>,
    pub head_commit: GitHubWebhookCommit,
    pub repository: GitHubRepository,
    pub pusher: GitHubOwner,
    pub sender: GitHubWebhookSender,
}

/// One pushed commit and the paths it added, removed and modified.
#[derive(Clone, Debug, Default)]
pub struct GitHubWebhookCommit {
    pub id: String,
    pub tree_id: String,
    /// Whether this commit is distinct from any that were pushed before.
    pub distinct: bool,
    pub message: String,
    pub timestamp: String,
    pub url: String,
    pub author: GitHubAuthor,
    pub committer: GitHubAuthor,
    pub added: Vec<String>,
    pub removed: Vec<String>,
    pub modified: Vec<String>,
}

/// The author or committer of a commit.
#[derive(Clone, Debug, Default)]
pub struct GitHubAuthor {
    pub name: String,
    pub email: String,
    pub username: String,
}

/// The owner of a repository, or the account that pushed.
#[derive(Clone, Debug, Default)]
pub struct GitHubOwner {
    pub name: String,
    pub email: String,
}

/// The repository a push went to.
#[derive(Clone, Debug, Default)]
pub struct GitHubRepository {
    pub id: u64,
    pub name: String,
    pub full_name: String,
    pub owner: GitHubOwner,
    pub private: bool,
    pub html_url: String,
    pub description: Option<String>,
    pub fork: bool,
    pub url: String,
    pub forks_url: String,
    pub keys_url: String,
    pub collaborators_url: String,
    pub teams_url: String,
    pub hooks_url: String,
    pub issue_events_url: String,
    pub events_url: String,
    pub assignees_url: String,
    pub branches_url: String,
    pub tags_url: String,
    pub blobs_url: String,
    pub git_tags_url: String,
    pub git_refs_url: String,
    pub trees_url: String,
    pub statuses_url: String,
    pub languages_url: String,
    pub stargazers_url: String,
    pub contributors_url: String,
    pub subscribers_url: String,
    pub subscription_url: String,
    pub commits_url: String,
    pub git_commits_url: String,
    pub comments_url: String,
    pub issue_comment_url: String,
    pub contents_url: String,
    pub compare_url: String,
    pub merges_url: String,
    pub archive_url: String,
    pub downloads_url: String,
    pub issues_url: String,
    pub pulls_url: String,
    pub milestones_url: String,
    pub notifications_url: String,
    pub labels_url: String,
    pub releases_url: String,
    pub deployments_url: String,
    pub created_at: u32,
    pub updated_at: String,
    pub pushed_at: u32,
    pub git_url: String,
    pub ssh_url: String,
    pub clone_url: String,
    pub svn_url: String,
    pub homepage: Option<String>,
    pub size: u32,
    pub stargazers_count: u32,
    pub watchers_count: u32,
    pub language: Option<String>,
    pub has_issues: bool,
    pub has_downloads: bool,
    pub has_wiki: bool,
    pub has_pages: bool,
    pub forks_count: u32,
    pub mirror_url: Option<String>,
    pub open_issues_count: u32,
    pub forks: u32,
    pub open_issues: u32,
    pub watchers: u32,
    pub default_branch: String,
    pub stargazers: u32,
    pub master_branch: String,
    pub organization: String,
}

/// The account that sent a notification.
#[derive(Clone, Debug, Default)]
pub struct GitHubWebhookSender {
    pub login: String,
    pub id: u64,
    pub avatar_url: String,
    pub gravatar_id: Option<String>,
    pub url: String,
    pub html_url: String,
    pub followers_url: String,
    pub following_url: String,
    pub gists_url: String,
    pub starred_url: String,
    pub subscriptions_url: String,
    pub organizations_url: String,
    pub repos_url: String,
    pub events_url: String,
    pub received_events_url: String,
    pub site_admin: bool,
}

/// Whether commit `c` added, removed or modified path `x`.
pub open spec fn commit_touches(c: GitHubWebhookCommit, x: Seq<char>) -> bool {
    views(c.added@).contains(x) || views(c.removed@).contains(x) || views(c.modified@).contains(x)
}

/// Whether one of `commits` added, removed or modified path `x`.
pub open spec fn touched(commits: Seq<GitHubWebhookCommit>, x: Seq<char>) -> bool {
    exists|i: int| 0 <= i < commits.len() && commit_touches(#[trigger] commits[i], x)
}

/// `r` is the change set of `commits`: the paths that some commit touched,
/// sorted and without repetition.
pub open spec fn is_changeset(commits: Seq<GitHubWebhookCommit>, r: Seq<Seq<char>>) -> bool {
    &&& strictly_sorted(r)
    &&& forall|x: Seq<char>| #[trigger] r.contains(x) <==> touched(commits, x)
}

impl GitHubWebhookPush {
    /// The paths that the pushed commits added, removed or modified, sorted
    /// and without repetition.
    pub fn changed(&self) -> (r: Vec<String>)
        ensures
            is_changeset(self.commits@, views(r@)),
    {
        let mut paths: Vec<String> = Vec::new();
        let mut i: usize = 0;
        while i < self.commits.len()
            invariant
                i <= self.commits@.len(),
                strictly_sorted(views(paths@)),
                forall|x: Seq<char>|
                    #[trigger] views(paths@).contains(x) <==> touched(
                        self.commits@.subrange(0, i as int),
                        x,
                    ),
            decreases self.commits@.len() - i,
        {
            let commit = &self.commits[i];
            insert_all_sorted(&mut paths, &commit.added);
            insert_all_sorted(&mut paths, &commit.removed);
            insert_all_sorted(&mut paths, &commit.modified);
            let ghost pre = self.commits@.subrange(0, i as int);
            let ghost post = self.commits@.subrange(0, i + 1);
            assert forall|x: Seq<char>| touched(post, x) <==> (touched(pre, x) || commit_touches(
                self.commits@[i as int],
                x,
            )) by {
                if touched(post, x) {
                    let m = choose|m: int| 0 <= m < post.len() && commit_touches(post[m], x);
                    if m < i {
                        assert(pre[m] == post[m]);
                    }
                }
                if touched(pre, x) {
                    let m = choose|m: int| 0 <= m < pre.len() && commit_touches(pre[m], x);
                    assert(post[m] == pre[m]);
                }
                if commit_touches(self.commits@[i as int], x) {
                    assert(post[i as int] == self.commits@[i as int]);
                }
            }
            i = i + 1;
        }
        assert(self.commits@.subrange(0, i as int) =~= self.commits@);
        paths
    }
}

/// The change set of a push does not depend on the order in which its commits
/// are listed: two lists of the same commits, in any order, have the same
/// sorted, duplicate-free set of changed paths.
pub proof fn lemma_changed_ignores_commit_order(
    a: Seq<GitHubWebhookCommit>,
    b: Seq<GitHubWebhookCommit>,
    ra: Seq<Seq<char>>,
    rb: Seq<Seq<char>>,
)
    requires
        a.to_multiset() =~= b.to_multiset(),
        is_changeset(a, ra),
        is_changeset(b, rb),
    ensures
        ra == rb,
{
    broadcast use vstd::seq_lib::group_to_multiset_ensures;

    assert forall|x: Seq<char>| ra.contains(x) <==> rb.contains(x) by {
        if touched(a, x) {
            let m = choose|m: int| 0 <= m < a.len() && commit_touches(a[m], x);
            assert(a.contains(a[m]));
            assert(a.to_multiset().count(a[m]) > 0);
            assert(b.to_multiset().count(a[m]) > 0);
            assert(b.contains(a[m]));
            let n = choose|n: int| 0 <= n < b.len() && b[n] == a[m];
            assert(commit_touches(b[n], x));
        }
        if touched(b, x) {
            let m = choose|m: int| 0 <= m < b.len() && commit_touches(b[m], x);
            assert(b.contains(b[m]));
            assert(b.to_multiset().count(b[m]) > 0);
            assert(a.to_multiset().count(b[m]) > 0);
            assert(a.contains(b[m]));
            let n = choose|n: int| 0 <= n < a.len() && a[n] == b[m];
            assert(commit_touches(a[n], x));
        }
    }
    lemma_sorted_unique(ra, rb);
}

} // verus!
