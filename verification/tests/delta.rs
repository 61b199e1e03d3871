use git_remote::delta::{
    count_commits, delta_step, local_ref, push_refspec, remote_ref, DeltaStep, RemoteDelta,
};
use git_remote::push::PushLog;

#[test]
fn reference_names() {
    assert_eq!(local_ref("main"), "refs/heads/main");
    assert_eq!(remote_ref("main"), "refs/remotes/origin/main");
    assert_eq!(push_refspec("a/b"), "refs/heads/a/b:refs/heads/a/b");
    assert_eq!(push_refspec(""), "refs/heads/:refs/heads/");
}

#[test]
fn both_tips_are_compared() {
    match delta_step(Some(1), Some(2)) {
        DeltaStep::Compare(tips) => {
            assert_eq!((tips.local, tips.remote), (1, 2));
            assert_eq!(tips.delta(3, 4), RemoteDelta { ahead: 3, behind: 4 });
        }
        other => panic!("{other:?}"),
    }
}

#[test]
fn a_branch_that_was_never_pushed_is_only_ahead() {
    match delta_step(Some(1), None) {
        DeltaStep::CountLocal(tip) => {
            assert_eq!(tip.commit, 1);
            assert_eq!(tip.delta(5), RemoteDelta { ahead: 5, behind: 0 });
        }
        other => panic!("{other:?}"),
    }
}

#[test]
fn an_unborn_branch_is_only_behind() {
    match delta_step(None, Some(2)) {
        DeltaStep::CountRemote(tip) => {
            assert_eq!(tip.commit, 2);
            assert_eq!(tip.delta(5), RemoteDelta { ahead: 0, behind: 5 });
        }
        other => panic!("{other:?}"),
    }
}

#[test]
fn a_branch_on_neither_side_is_level() {
    match delta_step::<u8>(None, None) {
        DeltaStep::Done(delta) => assert_eq!(delta, RemoteDelta { ahead: 0, behind: 0 }),
        other => panic!("{other:?}"),
    }
}

#[test]
fn exchanged_tips_exchange_the_delta() {
    let settle = |local: Option<u8>, remote: Option<u8>, compared: (usize, usize)| {
        match delta_step(local, remote) {
            DeltaStep::Compare(tips) => tips.delta(compared.0, compared.1),
            DeltaStep::CountLocal(tip) => tip.delta(4),
            DeltaStep::CountRemote(tip) => tip.delta(4),
            DeltaStep::Done(delta) => delta,
        }
    };
    for (local, remote) in [(Some(1), Some(2)), (Some(1), None), (None, Some(2)), (None, None)] {
        let there = settle(local, remote, (3, 5));
        let back = settle(remote, local, (5, 3));
        assert_eq!((back.ahead, back.behind), (there.behind, there.ahead));
    }
}

#[test]
fn unreadable_commits_are_not_counted() {
    assert_eq!(count_commits::<u8, &str>(&vec![]), 0);
    assert_eq!(count_commits(&vec![Ok(1), Err("x"), Ok(2), Err("y"), Ok(3)]), 3);
    assert_eq!(count_commits::<u8, &str>(&vec![Err("x")]), 0);
}

fn commit(repo: &git2::Repository, message: &str) -> git2::Oid {
    let who = git2::Signature::now("a", "a@example.com").unwrap();
    let tree = repo.treebuilder(None).unwrap().write().unwrap();
    let tree = repo.find_tree(tree).unwrap();
    let tip = repo
        .refname_to_id("refs/heads/main")
        .ok()
        .map(|id| repo.find_commit(id).unwrap());
    let parents: Vec<&git2::Commit> = tip.iter().collect();
    repo.commit(Some("refs/heads/main"), &who, &who, message, &tree, &parents).unwrap()
}

fn delta(repo: &git2::Repository) -> RemoteDelta {
    let local = repo.refname_to_id(&local_ref("main")).ok();
    let remote = repo.refname_to_id(&remote_ref("main")).ok();
    let count = |from: git2::Oid| {
        let mut walk = repo.revwalk().unwrap();
        walk.push(from).unwrap();
        count_commits(&walk.collect())
    };
    match delta_step(local, remote) {
        DeltaStep::Compare(tips) => {
            let (ahead, behind) = repo.graph_ahead_behind(tips.local, tips.remote).unwrap();
            tips.delta(ahead, behind)
        }
        DeltaStep::CountLocal(tip) => tip.delta(count(tip.commit)),
        DeltaStep::CountRemote(tip) => tip.delta(count(tip.commit)),
        DeltaStep::Done(delta) => delta,
    }
}

fn push(repo: &git2::Repository) -> git_remote::push::PushOutcome {
    let mut remote = repo.find_remote("origin").unwrap();
    let result = remote.push(&[push_refspec("main").as_str()], None);
    PushLog::new().conclude(result).unwrap()
}

fn fetch(repo: &git2::Repository) {
    repo.find_remote("origin").unwrap().fetch(&[] as &[&str], None, None).unwrap();
}

#[test]
fn two_devices_share_a_remote() {
    let bare = tempfile::tempdir().unwrap();
    git2::Repository::init_bare(bare.path()).unwrap();
    let url = bare.path().to_str().unwrap();
    let first_dir = tempfile::tempdir().unwrap();
    let first = git2::Repository::init(first_dir.path()).unwrap();
    first.remote("origin", url).unwrap();
    let second_dir = tempfile::tempdir().unwrap();
    let second = git2::Repository::init(second_dir.path()).unwrap();
    second.remote("origin", url).unwrap();

    assert_eq!(delta(&first), RemoteDelta { ahead: 0, behind: 0 });
    commit(&first, "one");
    commit(&first, "two");
    assert_eq!(delta(&first), RemoteDelta { ahead: 2, behind: 0 });
    assert!(push(&first).pushed);
    fetch(&first);
    assert_eq!(delta(&first), RemoteDelta { ahead: 0, behind: 0 });

    fetch(&second);
    assert_eq!(delta(&second), RemoteDelta { ahead: 0, behind: 2 });
    commit(&second, "other");
    assert_eq!(delta(&second), RemoteDelta { ahead: 1, behind: 2 });

    // The counts account for the delta, and exchanged tips exchange it.
    let local = second.refname_to_id(&local_ref("main")).unwrap();
    let remote = second.refname_to_id(&remote_ref("main")).unwrap();
    let count = |from: git2::Oid| {
        let mut walk = second.revwalk().unwrap();
        walk.push(from).unwrap();
        count_commits(&walk.collect())
    };
    assert_eq!((count(local), count(remote)), (1, 2));
    assert_eq!(count(local) + 2, count(remote) + 1);
    assert_eq!(second.graph_ahead_behind(remote, local).unwrap(), (2, 1));

    // The first device is already there: the second has to merge first.
    let outcome = push(&second);
    assert!(!outcome.pushed);
    assert!(outcome.non_fast_forward);
    assert!(outcome.rejection_message.is_some());
}
