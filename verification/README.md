# git_remote

The decisions behind backing a repository up to a git remote over HTTPS or SSH,
verified with Verus.

- `src/credential.rs`: what a credential callback answers to a host, with a
  sign-in token or without.
- `src/credential_laws.rs`: what holds of it over a whole conversation. A token
  never leaves HTTPS, the token and the SSH agent are each offered once, and a
  host that keeps asking is refused.
- `src/push.rs`, `src/push_laws.rs`: what a push comes to, given what the remote
  said.
- `src/delta.rs`: how far a branch is ahead of and behind its remote counterpart.
- `src/error.rs`, `src/text.rs`: errors of git2 as plain values, and functions on
  strings.
- `app/`: opens repositories and talks to hosts, with git2.

What is trusted rather than proved stands in functions marked `external_body` and
in `assume_specification` items. Each says in its doc comment which function of
git2 or of the standard library it is about and what it claims of it.
