//! Repositories, their owners, and the ownership filter.

use vstd::prelude::*;

verus! {

/// An account on the hosting platform.
#[derive(Debug, PartialEq, Eq)]
pub struct Owner {
    pub login: String,
}

/// What an [`Owner`] stands for in contracts.
pub struct OwnerView {
    pub login: Seq<char>,
}

impl View for Owner {
    type V = OwnerView;

    open spec fn view(&self) -> OwnerView {
        OwnerView { login: self.login@ }
    }
}

impl DeepView for Owner {
    type V = OwnerView;

    open spec fn deep_view(&self) -> OwnerView {
        self@
    }
}

impl Clone for Owner {
    fn clone(&self) -> (copy: Self)
        ensures
            copy@ == self@,
    {
        Owner { login: self.login.clone() }
    }
}

/// One repository as the listing describes it.
#[derive(Debug, PartialEq, Eq)]
pub struct Repository {
    pub owner: Owner,
    pub name: String,
    pub default_branch: String,
}

/// What a [`Repository`] stands for in contracts.
pub struct RepositoryView {
    pub owner: OwnerView,
    pub name: Seq<char>,
    pub default_branch: Seq<char>,
}

impl View for Repository {
    type V = RepositoryView;

    open spec fn view(&self) -> RepositoryView {
        RepositoryView {
            owner: self.owner@,
            name: self.name@,
            default_branch: self.default_branch@,
        }
    }
}

impl DeepView for Repository {
    type V = RepositoryView;

    open spec fn deep_view(&self) -> RepositoryView {
        self@
    }
}

impl Clone for Repository {
    fn clone(&self) -> (copy: Self)
        ensures
            copy@ == self@,
    {
        Repository {
            owner: self.owner.clone(),
            name: self.name.clone(),
            default_branch: self.default_branch.clone(),
        }
    }
}

/// The repositories of `list` whose owner's login is `login`, in the order of `list`.
pub open spec fn owned_by(list: Seq<RepositoryView>, login: Seq<char>) -> Seq<RepositoryView> {
    list.filter(|repo: RepositoryView| repo.owner.login == login)
}

/// Keeps the repositories that belong to `owner` and drops the others. The
/// repositories that stay keep their order.
pub fn filter_logins(repositories: Vec<Repository>, owner: Owner) -> (kept: Vec<Repository>)
    ensures
        kept.deep_view() == owned_by(repositories.deep_view(), owner@.login),
{
    let ghost all = repositories.deep_view();
    let ghost login = owner@.login;
    let ghost belongs = |repo: RepositoryView| repo.owner.login == login;
    let mut kept: Vec<Repository> = Vec::new();
    proof {
        reveal(Seq::filter);
        assert(all.take(0).filter(belongs) =~= kept.deep_view());
    }
    for repo in iter: repositories.into_iter()
        invariant
            iter.seq().len() == all.len(),
            forall|i: int| 0 <= i < all.len() ==> (#[trigger] iter.seq()[i])@ == all[i],
            kept.deep_view() == all.take(iter.index() as int).filter(belongs),
            belongs == (|repo: RepositoryView| repo.owner.login == login),
            login == owner@.login,
    {
        let ghost done = iter.index() as int;
        proof {
            let before = all.take(done);
            assert(all.take(done + 1) =~= before.push(all[done]));
            assert(before.push(all[done]).drop_last() =~= before);
            reveal(Seq::filter);
        }
        let ghost old_kept = kept.deep_view();
        if repo.owner.login == owner.login {
            kept.push(repo);
            assert(kept.deep_view() =~= old_kept.push(all[done]));
        }
    }
    proof {
        assert(all.take(all.len() as int) =~= all);
    }
    kept
}

/// The repositories of `list` that a run backs up for the account `login`:
/// all of them where other accounts are allowed, else those of the account.
pub open spec fn selected(allow_others_repos: bool, list: Seq<RepositoryView>, login: Seq<char>) -> Seq<
    RepositoryView,
> {
    if allow_others_repos {
        list
    } else {
        owned_by(list, login)
    }
}

/// Chooses from `listed`, the repositories that the platform listed, those
/// that are backed up for `owner`. With `allow_others_repos` all of them
/// are, else only the owner's own, in the order of the listing.
pub fn get_owner_repos(allow_others_repos: bool, owner: Owner, listed: Vec<Repository>) -> (repositories:
    Vec<Repository>)
    ensures
        repositories.deep_view() == selected(allow_others_repos, listed.deep_view(), owner@.login),
{
    if allow_others_repos {
        listed
    } else {
        filter_logins(listed, owner)
    }
}

/// Whether `part` is made of the items of `whole` at the positions `at`,
/// which are valid and strictly increasing: `part` is then a subsequence
/// of `whole` in the order of `whole`.
pub open spec fn picks_in_order<A>(part: Seq<A>, whole: Seq<A>, at: Seq<int>) -> bool {
    &&& at.len() == part.len()
    &&& forall|i: int| 0 <= i < at.len() ==> 0 <= #[trigger] at[i] < whole.len()
    &&& forall|i: int| 0 <= i < at.len() ==> #[trigger] part[i] == whole[at[i]]
    &&& forall|i: int, j: int| 0 <= i < j < at.len() ==> #[trigger] at[i] < #[trigger] at[j]
}

/// Where other accounts are not allowed, what is backed up is what the
/// ownership filter keeps. The filter keeps a subsequence of the list, in
/// the order of the list, and keeps exactly the repositories whose owner's
/// login is the target login: the positions `at` that it keeps are strictly
/// increasing, and a position of the list is among them if and only if the
/// repository there belongs to `login`.
pub proof fn lemma_owned_by_keeps_exactly_the_owned(list: Seq<RepositoryView>, login: Seq<char>) -> (at:
    Seq<int>)
    ensures
        selected(false, list, login) == owned_by(list, login),
        picks_in_order(owned_by(list, login), list, at),
        forall|k: int| 0 <= k < list.len() ==> (at.contains(k) <==> list[k].owner.login == login),
    decreases list.len(),
{
    reveal(Seq::filter);
    let belongs = |repo: RepositoryView| repo.owner.login == login;
    if list.len() == 0 {
        Seq::empty()
    } else {
        let front = list.drop_last();
        let last = list.len() - 1;
        let front_at = lemma_owned_by_keeps_exactly_the_owned(front, login);
        let at = if belongs(list.last()) {
            front_at.push(last)
        } else {
            front_at
        };
        assert forall|k: int| 0 <= k < list.len() implies (at.contains(k) <==> list[k].owner.login
            == login) by {
            if k < last {
                assert(front[k] == list[k]);
                if front_at.contains(k) {
                    let i = choose|i: int| 0 <= i < front_at.len() && front_at[i] == k;
                    assert(at[i] == k);
                }
                if at.contains(k) {
                    let i = choose|i: int| 0 <= i < at.len() && at[i] == k;
                    assert(front_at[i] == k);
                }
            } else {
                if belongs(list.last()) {
                    assert(at[at.len() - 1] == k);
                } else if at.contains(k) {
                    let i = choose|i: int| 0 <= i < at.len() && at[i] == k;
                    assert(front_at[i] < front.len());
                }
            }
        }
        assert forall|i: int| 0 <= i < at.len() implies #[trigger] owned_by(list, login)[i]
            == list[at[i]] by {
            if i < front_at.len() {
                assert(owned_by(front, login)[i] == front[front_at[i]]);
            }
        }
        at
    }
}

/// Where other accounts are allowed, the listing is backed up as it came.
pub proof fn lemma_allowing_others_keeps_all(list: Seq<RepositoryView>, login: Seq<char>)
    ensures
        selected(true, list, login) == list,
{
}

} // verus!
