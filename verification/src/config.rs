//! Configuration snapshots.
//!
//! The daemon's configuration is an immutable snapshot: a listen address,
//! one entry per repository (its webhook secret and handler command), and
//! an optional user to run as. A reload builds a whole new snapshot and
//! replaces the old one wholesale; a snapshot is never mutated in place.

use vstd::prelude::*;

verus! {

/// One repository's entry in the configuration.
pub struct RepoConfig {
    /// The repository name webhook requests are matched against.
    pub name: String,
    /// The secret the HMAC signature of a request is verified with.
    pub secret: Vec<u8>,
    /// The handler command the scheduler spawns for this repository's jobs.
    pub command: String,
}

/// An immutable configuration snapshot.
pub struct ConfigSnapshot {
    /// The address the HTTP listener binds to.
    pub listen_addr: String,
    /// The configured repositories; no two entries share a name.
    pub repos: Vec<RepoConfig>,
    /// The user to switch to before daemonising, if any.
    pub user: Option<String>,
}

/// The first entry of `repos` named `name`, if any. With unique names —
/// which `ConfigSnapshot::new` establishes — this is the entry for `name`.
pub open spec fn repo_lookup(repos: Seq<RepoConfig>, name: Seq<char>) -> Option<RepoConfig>
    decreases repos.len(),
{
    if repos.len() == 0 {
        None
    } else if repos[0].name@ == name {
        Some(repos[0])
    } else {
        repo_lookup(repos.skip(1), name)
    }
}

/// Do no two entries share a name?
pub open spec fn unique_repo_names(repos: Seq<RepoConfig>) -> bool {
    forall|i: int, j: int|
        0 <= i < j < repos.len() ==> (#[trigger] repos[i].name@) != (#[trigger] repos[j].name@)
}

/// What `repo_lookup` finds: the entry at the least index with the name.
pub proof fn lemma_repo_lookup_characterized(repos: Seq<RepoConfig>, name: Seq<char>)
    ensures
        repo_lookup(repos, name) is None <==> (forall|i: int|
            0 <= i < repos.len() ==> (#[trigger] repos[i].name@) != name),
        repo_lookup(repos, name) matches Some(rc) ==> exists|i: int|
            0 <= i < repos.len() && repos[i] == rc && rc.name@ == name,
    decreases repos.len(),
{
    if repos.len() > 0 {
        lemma_repo_lookup_characterized(repos.skip(1), name);
        if repos[0].name@ != name {
            if let Some(rc) = repo_lookup(repos.skip(1), name) {
                let i = choose|i: int|
                    0 <= i < repos.skip(1).len() && repos.skip(1)[i] == rc && rc.name@ == name;
                assert(repos[i + 1] == rc);
            }
            if repo_lookup(repos.skip(1), name) is None {
                assert forall|i: int| 0 <= i < repos.len() implies (#[trigger] repos[i].name@)
                    != name by {
                    if i > 0 {
                        assert(repos.skip(1)[i - 1] == repos[i]);
                    }
                }
            }
        }
    }
}

impl ConfigSnapshot {
    /// Build a snapshot after checking that no repository is configured
    /// twice; returns the offending name otherwise.
    pub fn new(listen_addr: String, repos: Vec<RepoConfig>, user: Option<String>) -> (r: Result<
        ConfigSnapshot,
        String,
    >)
        ensures
            r is Ok <==> unique_repo_names(repos@),
            r matches Ok(c) ==> c.listen_addr == listen_addr && c.repos == repos && c.user
                == user,
            r matches Err(name) ==> exists|i: int, j: int|
                0 <= i < j < repos@.len() && (#[trigger] repos@[i].name@) == (
                #[trigger] repos@[j].name@) && repos@[j].name@ == name@,
    {
        let n = repos.len();
        let mut j: usize = 1;
        while j < n
            invariant
                n == repos@.len(),
                1 <= j,
                j <= n || n == 0,
                forall|a: int, b: int|
                    0 <= a < b < j && b < n ==> (#[trigger] repos@[a].name@) != (
                    #[trigger] repos@[b].name@),
            decreases n - j,
        {
            let mut i: usize = 0;
            while i < j
                invariant
                    n == repos@.len(),
                    j < n,
                    i <= j,
                    forall|a: int| 0 <= a < i ==> (#[trigger] repos@[a].name@) != repos@[j as int].name@,
                decreases j - i,
            {
                if repos[i].name == repos[j].name {
                    proof {
                        assert(repos@[i as int].name@ == repos@[j as int].name@);
                    }
                    return Err(repos[j].name.clone());
                }
                i = i + 1;
            }
            j = j + 1;
        }
        Ok(ConfigSnapshot { listen_addr, repos, user })
    }

    /// The configured entry for `name`, if the snapshot has one.
    pub fn find_repo(&self, name: &String) -> (r: Option<&RepoConfig>)
        ensures
            r matches Some(rc) ==> repo_lookup(self.repos@, name@) == Some(*rc),
            r is None <==> repo_lookup(self.repos@, name@) is None,
    {
        proof {
            lemma_repo_lookup_characterized(self.repos@, name@);
        }
        let mut i: usize = 0;
        while i < self.repos.len()
            invariant
                i <= self.repos@.len(),
                forall|a: int| 0 <= a < i ==> (#[trigger] self.repos@[a].name@) != name@,
            decreases self.repos@.len() - i,
        {
            if self.repos[i].name == *name {
                proof {
                    lemma_repo_lookup_first_match(self.repos@, name@, i as int);
                }
                return Some(&self.repos[i]);
            }
            i = i + 1;
        }
        None
    }
}

/// If index `i` is the first whose entry is named `name`, `repo_lookup`
/// returns that entry.
pub proof fn lemma_repo_lookup_first_match(repos: Seq<RepoConfig>, name: Seq<char>, i: int)
    requires
        0 <= i < repos.len(),
        repos[i].name@ == name,
        forall|a: int| 0 <= a < i ==> (#[trigger] repos[a].name@) != name,
    ensures
        repo_lookup(repos, name) == Some(repos[i]),
    decreases repos.len(),
{
    if i > 0 {
        lemma_repo_lookup_first_match(repos.skip(1), name, i - 1);
        assert(repos.skip(1)[i - 1] == repos[i]);
        assert forall|a: int| 0 <= a < i - 1 implies (#[trigger] repos.skip(1)[a].name@) != name by {
            assert(repos.skip(1)[a] == repos[a + 1]);
        }
    }
}

} // verus!
