//! How far a branch and its remote counterpart are apart.

use vstd::prelude::*;
use vstd::string::StringExecFns;

verus! {

/// Where the local branch stands relative to its last-fetched remote counterpart.
#[derive(Debug, Clone, Copy, PartialEq, Eq, Structural)]
pub struct RemoteDelta {
    pub ahead: usize,
    pub behind: usize,
}

/// The full name of a local branch.
pub open spec fn local_name(branch: Seq<char>) -> Seq<char> {
    "refs/heads/"@ + branch
}

/// The full name of the last-fetched state of a branch of the remote `origin`.
pub open spec fn remote_name(branch: Seq<char>) -> Seq<char> {
    "refs/remotes/origin/"@ + branch
}

/// The refspec that pushes a branch to the branch of the same name.
pub open spec fn refspec_of(branch: Seq<char>) -> Seq<char> {
    local_name(branch) + ":"@ + local_name(branch)
}

/// Names keep the branch whole: they end in it, different branches have different
/// names, and no local branch shares a name with one of the remote.
pub proof fn names_keep_the_branch(branch: Seq<char>, other: Seq<char>)
    ensures
        local_name(branch).len() == "refs/heads/"@.len() + branch.len(),
        local_name(branch).take("refs/heads/"@.len() as int) == "refs/heads/"@,
        local_name(branch).skip("refs/heads/"@.len() as int) == branch,
        remote_name(branch).len() == "refs/remotes/origin/"@.len() + branch.len(),
        remote_name(branch).take("refs/remotes/origin/"@.len() as int) == "refs/remotes/origin/"@,
        remote_name(branch).skip("refs/remotes/origin/"@.len() as int) == branch,
        local_name(branch) == local_name(other) ==> branch == other,
        remote_name(branch) == remote_name(other) ==> branch == other,
        local_name(branch) != remote_name(other),
{
    let heads = "refs/heads/"@;
    let remotes = "refs/remotes/origin/"@;
    assert(local_name(branch).take(heads.len() as int) =~= heads);
    assert(local_name(branch).skip(heads.len() as int) =~= branch);
    assert(local_name(other).skip(heads.len() as int) =~= other);
    assert(remote_name(branch).take(remotes.len() as int) =~= remotes);
    assert(remote_name(branch).skip(remotes.len() as int) =~= branch);
    assert(remote_name(other).skip(remotes.len() as int) =~= other);
    reveal_strlit("refs/heads/");
    reveal_strlit("refs/remotes/origin/");
    assert(local_name(branch)[5] == 'h');
    assert(remote_name(other)[5] == 'r');
}

/// A refspec pushes a branch to the branch of the same name: what stands before the
/// colon in the middle is what stands after it, the full name of the branch.
pub proof fn refspec_keeps_the_branch(branch: Seq<char>)
    ensures
        ({
            let refspec = refspec_of(branch);
            let half = "refs/heads/"@.len() + branch.len();
            &&& refspec.len() == half + 1 + half
            &&& refspec.take(half as int) == "refs/heads/"@ + branch
            &&& refspec[half as int] == ':'
            &&& refspec.skip((half + 1) as int) == "refs/heads/"@ + branch
        }),
{
    reveal_strlit(":");
    let name = "refs/heads/"@ + branch;
    let refspec = refspec_of(branch);
    assert(refspec.take(name.len() as int) =~= name);
    assert(refspec.skip((name.len() + 1) as int) =~= name);
}

/// The full name of a local branch.
pub fn local_ref(branch: &str) -> (name: String)
    ensures
        name@ == "refs/heads/"@ + branch@,
        name@ == local_name(branch@),
{
    let mut name = "refs/heads/".to_owned();
    name.append(branch);
    name
}

/// The full name of the last-fetched state of a branch of the remote `origin`.
pub fn remote_ref(branch: &str) -> (name: String)
    ensures
        name@ == "refs/remotes/origin/"@ + branch@,
        name@ == remote_name(branch@),
{
    let mut name = "refs/remotes/origin/".to_owned();
    name.append(branch);
    name
}

/// The refspec that pushes a branch to the branch of the same name.
pub fn push_refspec(branch: &str) -> (refspec: String)
    ensures
        refspec@ == ("refs/heads/"@ + branch@) + ":"@ + ("refs/heads/"@ + branch@),
        refspec@ == refspec_of(branch@),
{
    let name = local_ref(branch);
    let mut refspec = name.clone();
    refspec.append(":");
    refspec.append(name.as_str());
    refspec
}

/// A branch that exists here and at the remote. `T` names a commit.
#[derive(Debug)]
pub struct BothTips<T> {
    pub local: T,
    pub remote: T,
}

/// A branch that was never pushed.
#[derive(Debug)]
pub struct LocalTip<T> {
    pub commit: T,
}

/// A branch that is unborn here and exists at the remote.
#[derive(Debug)]
pub struct RemoteTip<T> {
    pub commit: T,
}

/// What has to be found out about the tips of a branch to tell how far apart they
/// are.
#[derive(Debug)]
pub enum DeltaStep<T> {
    /// How many commits each is ahead of the other.
    Compare(BothTips<T>),
    /// How many commits the branch has.
    CountLocal(LocalTip<T>),
    /// How many commits the remote has.
    CountRemote(RemoteTip<T>),
    /// Nothing: the branch exists on neither side.
    Done(RemoteDelta),
}

/// What has to be found out about a branch with these tips.
pub open spec fn step_for<T>(local: Option<T>, remote: Option<T>) -> DeltaStep<T> {
    match (local, remote) {
        (Some(local), Some(remote)) => DeltaStep::Compare(BothTips { local, remote }),
        (Some(commit), None) => DeltaStep::CountLocal(LocalTip { commit }),
        (None, Some(commit)) => DeltaStep::CountRemote(RemoteTip { commit }),
        (None, None) => DeltaStep::Done(RemoteDelta { ahead: 0, behind: 0 }),
    }
}

/// Decides what to find out about a branch, given its tips as far as they exist.
pub fn delta_step<T>(local: Option<T>, remote: Option<T>) -> (step: DeltaStep<T>)
    ensures
        step == step_for(local, remote),
        match step {
            DeltaStep::Compare(tips) => local == Some(tips.local) && remote == Some(tips.remote),
            DeltaStep::CountLocal(tip) => local == Some(tip.commit) && remote is None,
            DeltaStep::CountRemote(tip) => local is None && remote == Some(tip.commit),
            DeltaStep::Done(delta) => local is None && remote is None && delta.ahead == 0
                && delta.behind == 0,
        },
{
    match (local, remote) {
        (Some(local), Some(remote)) => DeltaStep::Compare(BothTips { local, remote }),
        (Some(commit), None) => DeltaStep::CountLocal(LocalTip { commit }),
        (None, Some(commit)) => DeltaStep::CountRemote(RemoteTip { commit }),
        (None, None) => DeltaStep::Done(RemoteDelta { ahead: 0, behind: 0 }),
    }
}

impl<T> BothTips<T> {
    /// The delta, once the tips have been compared.
    pub fn delta(&self, ahead: usize, behind: usize) -> (delta: RemoteDelta)
        ensures
            delta == (RemoteDelta { ahead, behind }),
            forall|commits: nat|
                (delta.ahead as nat, delta.behind as nat) == #[trigger] settled(
                    DeltaStep::Compare(*self),
                    (ahead as nat, behind as nat),
                    commits,
                ),
    {
        RemoteDelta { ahead, behind }
    }
}

impl<T> LocalTip<T> {
    /// The delta, once the commits of the branch have been counted.
    pub fn delta(&self, commits: usize) -> (delta: RemoteDelta)
        ensures
            delta == (RemoteDelta { ahead: commits, behind: 0 }),
            forall|compared: (nat, nat)|
                (delta.ahead as nat, delta.behind as nat) == #[trigger] settled(
                    DeltaStep::CountLocal(*self),
                    compared,
                    commits as nat,
                ),
    {
        RemoteDelta { ahead: commits, behind: 0 }
    }
}

impl<T> RemoteTip<T> {
    /// The delta, once the commits of the remote have been counted.
    pub fn delta(&self, commits: usize) -> (delta: RemoteDelta)
        ensures
            delta == (RemoteDelta { ahead: 0, behind: commits }),
            forall|compared: (nat, nat)|
                (delta.ahead as nat, delta.behind as nat) == #[trigger] settled(
                    DeltaStep::CountRemote(*self),
                    compared,
                    commits as nat,
                ),
    {
        RemoteDelta { ahead: 0, behind: commits }
    }
}

/// How far ahead and how far behind a branch is once `step` has been taken and
/// found `compared`, respectively `commits`.
pub open spec fn settled<T>(step: DeltaStep<T>, compared: (nat, nat), commits: nat) -> (nat, nat) {
    match step {
        DeltaStep::Compare(_) => compared,
        DeltaStep::CountLocal(_) => (commits, 0),
        DeltaStep::CountRemote(_) => (0, commits),
        DeltaStep::Done(delta) => (delta.ahead as nat, delta.behind as nat),
    }
}

/// What is found out is asked of the tips themselves, and lands on the side it is
/// about: a comparison as it came, a count of local commits ahead and nothing
/// behind, a count of remote commits behind and nothing ahead.
pub proof fn steps_are_about_their_tips<T>(
    local: Option<T>,
    remote: Option<T>,
    compared: (nat, nat),
    commits: nat,
)
    ensures
        match step_for(local, remote) {
            DeltaStep::Compare(tips) => local == Some(tips.local) && remote == Some(tips.remote),
            DeltaStep::CountLocal(tip) => local == Some(tip.commit) && remote is None,
            DeltaStep::CountRemote(tip) => local is None && remote == Some(tip.commit),
            DeltaStep::Done(_) => local is None && remote is None,
        },
        local is Some && remote is Some ==> settled(step_for(local, remote), compared, commits)
            == compared,
        local is Some && remote is None ==> settled(step_for(local, remote), compared, commits)
            == (commits, 0nat),
        local is None && remote is Some ==> settled(step_for(local, remote), compared, commits)
            == (0nat, commits),
        local is None && remote is None ==> settled(step_for(local, remote), compared, commits)
            == (0nat, 0nat),
{
}

/// The commits of a branch: none if it does not exist, else those that `reach`
/// gives for its tip.
pub open spec fn history<T, C>(tip: Option<T>, reach: spec_fn(T) -> Set<C>) -> Set<C> {
    match tip {
        Some(tip) => reach(tip),
        None => Set::empty(),
    }
}

/// How many commits of one history the other lacks, both ways.
pub open spec fn apart<C>(local: Set<C>, remote: Set<C>) -> (nat, nat) {
    (local.difference(remote).len(), remote.difference(local).len())
}

/// What was found out about the tips is true of the histories that `reach` gives:
/// `compared` where they are compared, `commits` where those of one are counted.
pub open spec fn found<T, C>(
    local: Option<T>,
    remote: Option<T>,
    reach: spec_fn(T) -> Set<C>,
    compared: (nat, nat),
    commits: nat,
) -> bool {
    match step_for(local, remote) {
        DeltaStep::Compare(tips) => compared == apart(reach(tips.local), reach(tips.remote)),
        DeltaStep::CountLocal(tip) => commits == reach(tip.commit).len(),
        DeltaStep::CountRemote(tip) => commits == reach(tip.commit).len(),
        DeltaStep::Done(_) => true,
    }
}

/// In each of the four cases, the delta is how many commits each side has that the
/// other lacks, where a branch that does not exist has none: an unborn branch is
/// never ahead, and one that was never pushed is never behind.
pub proof fn delta_measures_histories<T, C>(
    local: Option<T>,
    remote: Option<T>,
    reach: spec_fn(T) -> Set<C>,
    compared: (nat, nat),
    commits: nat,
)
    requires
        found(local, remote, reach, compared, commits),
    ensures
        settled(step_for(local, remote), compared, commits) == apart(
            history(local, reach),
            history(remote, reach),
        ),
{
    let ours = history(local, reach);
    let theirs = history(remote, reach);
    if local is None {
        assert(theirs.difference(ours) =~= theirs);
        assert(ours.difference(theirs) =~= Set::empty());
    }
    if remote is None {
        assert(ours.difference(theirs) =~= ours);
        assert(theirs.difference(ours) =~= Set::empty());
    }
}

/// To exchange the two tips is to exchange ahead and behind.
pub proof fn exchanged_tips_exchange_the_delta<T, C>(
    local: Option<T>,
    remote: Option<T>,
    reach: spec_fn(T) -> Set<C>,
    compared: (nat, nat),
    commits: nat,
    compared_back: (nat, nat),
    commits_back: nat,
)
    requires
        found(local, remote, reach, compared, commits),
        found(remote, local, reach, compared_back, commits_back),
    ensures
        ({
            let (ahead, behind) = settled(step_for(local, remote), compared, commits);
            settled(step_for(remote, local), compared_back, commits_back) == (behind, ahead)
        }),
{
    delta_measures_histories(local, remote, reach, compared, commits);
    delta_measures_histories(remote, local, reach, compared_back, commits_back);
}

/// A set is what another lacks of it and what they share.
proof fn difference_and_intersection<C>(one: Set<C>, other: Set<C>)
    requires
        one.finite(),
    ensures
        one.difference(other).len() + one.intersect(other).len() == one.len(),
    decreases one.len(),
{
    if one.len() == 0 {
        assert(one =~= Set::empty());
        assert(one.difference(other) =~= Set::empty());
        assert(one.intersect(other) =~= Set::empty());
    } else {
        let element = one.choose();
        let rest = one.remove(element);
        difference_and_intersection(rest, other);
        if other.contains(element) {
            assert(one.intersect(other) =~= rest.intersect(other).insert(element));
            assert(one.difference(other) =~= rest.difference(other));
        } else {
            assert(one.difference(other) =~= rest.difference(other).insert(element));
            assert(one.intersect(other) =~= rest.intersect(other));
        }
    }
}

/// The number of commits on each side and the delta account for one another: what
/// the local branch has and what it is behind by make up what the remote has and
/// what the local branch is ahead by. Neither side of the delta exceeds the history
/// it is counted in, and a branch is behind by nothing exactly if it has every
/// commit of the remote.
pub proof fn counts_account_for_the_delta<T, C>(
    local: Option<T>,
    remote: Option<T>,
    reach: spec_fn(T) -> Set<C>,
    compared: (nat, nat),
    commits: nat,
)
    requires
        found(local, remote, reach, compared, commits),
        history(local, reach).finite(),
        history(remote, reach).finite(),
    ensures
        ({
            let ours = history(local, reach);
            let theirs = history(remote, reach);
            let (ahead, behind) = settled(step_for(local, remote), compared, commits);
            &&& ours.len() + behind == theirs.len() + ahead
            &&& ahead <= ours.len()
            &&& behind <= theirs.len()
            &&& behind == 0 <==> theirs.subset_of(ours)
            &&& ahead == 0 <==> ours.subset_of(theirs)
        }),
{
    let ours = history(local, reach);
    let theirs = history(remote, reach);
    delta_measures_histories(local, remote, reach, compared, commits);
    difference_and_intersection(ours, theirs);
    difference_and_intersection(theirs, ours);
    assert(ours.intersect(theirs) =~= theirs.intersect(ours));
    nothing_lacking_is_subset(ours, theirs);
    nothing_lacking_is_subset(theirs, ours);
}

/// A set lacks nothing of a finite one exactly if it holds all of it.
proof fn nothing_lacking_is_subset<C>(one: Set<C>, other: Set<C>)
    requires
        one.finite(),
    ensures
        one.difference(other).len() == 0 <==> one.subset_of(other),
{
    let lacking = one.difference(other);
    if lacking.len() == 0 {
        assert(lacking =~= Set::empty());
        assert forall|c: C| one.contains(c) implies other.contains(c) by {
            assert(!lacking.contains(c));
        }
    } else if one.subset_of(other) {
        assert(lacking =~= Set::empty());
    }
}

/// A push fast-forwards, as the remote's tip is the local tip or an ancestor of it,
/// exactly if the branch is behind by nothing. A commit's history holds the commit
/// itself and the history of every commit in it.
pub proof fn fast_forward_is_behind_by_nothing<T>(
    local: T,
    remote: T,
    reach: spec_fn(T) -> Set<T>,
    compared: (nat, nat),
    commits: nat,
)
    requires
        found(Some(local), Some(remote), reach, compared, commits),
        reach(local).finite(),
        reach(remote).finite(),
        reach(remote).contains(remote),
        forall|c: T| #[trigger] reach(local).contains(c) ==> reach(c).subset_of(reach(local)),
    ensures
        settled(step_for(Some(local), Some(remote)), compared, commits).1 == 0 <==> reach(
            local,
        ).contains(remote),
{
    counts_account_for_the_delta(Some(local), Some(remote), reach, compared, commits);
}

/// How many commits a walk of the history could read.
pub open spec fn readable_commits<T, E>(walk: Seq<Result<T, E>>) -> nat {
    walk.filter(|step: Result<T, E>| step is Ok).len()
}

/// No walk reads no commit; a commit that can be read counts one, whichever it is
/// and whatever came before it, and one that cannot counts nothing.
pub proof fn every_readable_commit_counts_one<T, E>(
    walk: Seq<Result<T, E>>,
    commit: T,
    error: E,
)
    ensures
        readable_commits(Seq::<Result<T, E>>::empty()) == 0,
        readable_commits(walk.push(Ok(commit))) == readable_commits(walk) + 1,
        readable_commits(walk.push(Err(error))) == readable_commits(walk),
        readable_commits(walk) <= walk.len(),
    decreases walk.len(),
{
    reveal(Seq::filter);
    assert(walk.push(Ok(commit)).drop_last() =~= walk);
    assert(walk.push(Err(error)).drop_last() =~= walk);
    if walk.len() > 0 {
        every_readable_commit_counts_one(walk.drop_last(), commit, error);
    }
}

/// A walk in two parts counts what the parts count together.
pub proof fn walks_add_up<T, E>(walk: Seq<Result<T, E>>, rest: Seq<Result<T, E>>)
    ensures
        readable_commits(walk + rest) == readable_commits(walk) + readable_commits(rest),
    decreases rest.len(),
{
    reveal(Seq::filter);
    if rest.len() == 0 {
        assert(walk + rest =~= walk);
    } else {
        walks_add_up(walk, rest.drop_last());
        assert((walk + rest).drop_last() =~= walk + rest.drop_last());
        assert((walk + rest).last() == rest.last());
    }
}

/// Counts the commits that a walk of the history came by, leaving out the ones
/// that could not be read.
pub fn count_commits<T, E>(walk: &Vec<Result<T, E>>) -> (commits: usize)
    ensures
        commits == walk@.filter(|step: Result<T, E>| step is Ok).len(),
        commits == readable_commits(walk@),
{
    let mut commits: usize = 0;
    let ghost readable = |step: Result<T, E>| step is Ok;
    for i in 0..walk.len()
        invariant
            readable == (|step: Result<T, E>| step is Ok),
            commits == walk@.take(i as int).filter(readable).len(),
            commits <= i,
    {
        proof {
            reveal(Seq::filter);
            assert(walk@.take(i + 1).drop_last() =~= walk@.take(i as int));
        }
        if walk[i].is_ok() {
            commits = commits + 1;
        }
    }
    assert(walk@.take(walk@.len() as int) =~= walk@);
    commits
}

/// A walk that comes by every commit of a history once, and can read them all,
/// counts the history.
pub proof fn complete_walk_counts_the_history<C, E>(walk: Seq<Result<C, E>>, commits: Seq<C>)
    requires
        walk.len() == commits.len(),
        forall|i: int| 0 <= i < walk.len() ==> #[trigger] walk[i] == Ok::<C, E>(commits[i]),
        commits.no_duplicates(),
    ensures
        walk.filter(|step: Result<C, E>| step is Ok).len() == commits.to_set().len(),
{
    readable_walk_is_kept(walk);
    commits.unique_seq_to_set();
}

/// Nothing is left out of a walk that could read every commit.
proof fn readable_walk_is_kept<C, E>(walk: Seq<Result<C, E>>)
    requires
        forall|i: int| 0 <= i < walk.len() ==> #[trigger] walk[i] is Ok,
    ensures
        walk.filter(|step: Result<C, E>| step is Ok).len() == walk.len(),
    decreases walk.len(),
{
    reveal(Seq::filter);
    if walk.len() > 0 {
        assert(walk[walk.len() - 1] is Ok);
        assert forall|i: int| 0 <= i < walk.drop_last().len() implies #[trigger] walk.drop_last()[i] is Ok by {
            assert(walk.drop_last()[i] == walk[i]);
        }
        readable_walk_is_kept(walk.drop_last());
    }
}

} // verus!
