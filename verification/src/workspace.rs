//! The root directory of the workspace that a manifest directory belongs to,
//! asked for once and remembered after.
//!
//! Finding a root means running the build tool, which is left to the caller;
//! what is decided here is when that is needed and what is remembered.

use vstd::prelude::*;

use crate::text::{same_text, text_of};

verus! {

/// The roots found so far, by manifest directory. Nothing is ever forgotten.
#[derive(Debug)]
pub struct WorkspaceRootCache {
    entries: Vec<(String, String)>,
}

/// The characters of a root that may be missing.
pub open spec fn root_of(root: Option<String>) -> Option<Seq<char>> {
    match root {
        Some(root) => Some(root@),
        None => None,
    }
}

/// What is known once `root` was offered for `manifest_dir`: it is taken where
/// nothing is known for `manifest_dir`, and left aside where something is.
pub open spec fn remembered(
    known: Map<Seq<char>, Seq<char>>,
    manifest_dir: Seq<char>,
    root: Seq<char>,
) -> Map<Seq<char>, Seq<char>> {
    if known.contains_key(manifest_dir) {
        known
    } else {
        known.insert(manifest_dir, root)
    }
}

/// What a request for the root of `manifest_dir` comes to, and what is known
/// after it: a known root is served as it is; else the override, where there is
/// one, is taken and remembered; else the build tool has to be asked.
pub open spec fn root_lookup(
    known: Map<Seq<char>, Seq<char>>,
    manifest_dir: Seq<char>,
    override_dir: Option<Seq<char>>,
) -> (Option<Seq<char>>, Map<Seq<char>, Seq<char>>) {
    if known.contains_key(manifest_dir) {
        (Some(known[manifest_dir]), known)
    } else {
        match override_dir {
            Some(root) => (Some(root), remembered(known, manifest_dir, root)),
            None => (None, known),
        }
    }
}

impl View for WorkspaceRootCache {
    type V = Map<Seq<char>, Seq<char>>;

    closed spec fn view(&self) -> Map<Seq<char>, Seq<char>> {
        Map::new(
            |dir: Seq<char>| self.holds(dir),
            |dir: Seq<char>| self.entries@[self.place_of(dir)].1@,
        )
    }
}

impl WorkspaceRootCache {
    /// No manifest directory is held twice.
    #[verifier::type_invariant]
    spec fn wf(&self) -> bool {
        forall|i: int, j: int|
            0 <= i < j < self.entries@.len() ==> self.entries@[i].0@ != self.entries@[j].0@
    }

    spec fn held_at(&self, dir: Seq<char>, i: int) -> bool {
        0 <= i < self.entries@.len() && self.entries@[i].0@ == dir
    }

    spec fn holds(&self, dir: Seq<char>) -> bool {
        exists|i: int| self.held_at(dir, i)
    }

    spec fn place_of(&self, dir: Seq<char>) -> int {
        choose|i: int| self.held_at(dir, i)
    }

    /// A cache that knows no root yet.
    pub fn new() -> (cache: WorkspaceRootCache)
        ensures
            cache@ == Map::<Seq<char>, Seq<char>>::empty(),
    {
        let cache = WorkspaceRootCache { entries: Vec::new() };
        assert(cache@ =~= Map::<Seq<char>, Seq<char>>::empty());
        cache
    }

    /// A manifest directory is held at one place only.
    proof fn lemma_place(&self, dir: Seq<char>, i: int)
        requires
            self.wf(),
            self.held_at(dir, i),
        ensures
            self.holds(dir),
            self.place_of(dir) == i,
    {
        let chosen = self.place_of(dir);
        assert(self.held_at(dir, chosen));
        if chosen < i {
            assert(self.entries@[chosen].0@ != self.entries@[i].0@);
        } else if i < chosen {
            assert(self.entries@[i].0@ != self.entries@[chosen].0@);
        }
    }

    /// Where `manifest_dir` is held.
    fn find(&self, manifest_dir: &str) -> (r: Option<usize>)
        ensures
            match r {
                Some(i) => self.held_at(manifest_dir@, i as int),
                None => !self.holds(manifest_dir@),
            },
    {
        let mut i: usize = 0;
        while i < self.entries.len()
            invariant
                i <= self.entries@.len(),
                forall|j: int| 0 <= j < i ==> !self.held_at(manifest_dir@, j),
            decreases self.entries@.len() - i,
        {
            if same_text(self.entries[i].0.as_str(), manifest_dir) {
                return Some(i);
            }
            i += 1;
        }
        None
    }

    /// The root remembered for `manifest_dir`.
    pub fn get(&self, manifest_dir: &str) -> (root: Option<String>)
        ensures
            root_of(root) == if self@.contains_key(manifest_dir@) {
                Some(self@[manifest_dir@])
            } else {
                None
            },
    {
        match self.find(manifest_dir) {
            Some(i) => {
                proof {
                    use_type_invariant(self);
                    self.lemma_place(manifest_dir@, i as int);
                }
                Some(self.entries[i].1.clone())
            },
            None => None,
        }
    }

    /// Remembers `root` for `manifest_dir` where no root is known for it yet,
    /// and tells the root that is known for it from now on. What is known is
    /// never replaced.
    pub fn remember(&mut self, manifest_dir: &str, root: &str) -> (held: String)
        ensures
            final(self)@ == remembered(old(self)@, manifest_dir@, root@),
            held@ == final(self)@[manifest_dir@],
    {
        proof {
            use_type_invariant(&*self);
        }
        let ghost before = *self;
        let ghost wanted = before@.insert(manifest_dir@, root@);
        match self.find(manifest_dir) {
            Some(i) => {
                proof {
                    self.lemma_place(manifest_dir@, i as int);
                }
                self.entries[i].1.clone()
            },
            None => {
                let mut entries: Vec<(String, String)> = Vec::new();
                core::mem::swap(&mut self.entries, &mut entries);
                entries.push((manifest_dir.to_owned(), root.to_owned()));
                let ghost last = before.entries@.len() as int;
                assert forall|a: int| 0 <= a < last implies #[trigger] entries@[a].0@
                    != manifest_dir@ by {
                    assert(!before.held_at(manifest_dir@, a));
                }
                self.entries = entries;
                assert(self.held_at(manifest_dir@, last));
                assert forall|dir: Seq<char>| #[trigger]
                    self@.contains_key(dir) == wanted.contains_key(dir) by {
                    if before.holds(dir) {
                        assert(self.held_at(dir, before.place_of(dir)));
                    }
                    if self.holds(dir) && dir != manifest_dir@ {
                        assert(before.held_at(dir, self.place_of(dir)));
                    }
                }
                assert forall|dir: Seq<char>| #[trigger] self@.contains_key(dir) implies self@[dir]
                    == wanted[dir] by {
                    let at = self.place_of(dir);
                    assert(self.held_at(dir, at));
                    if dir == manifest_dir@ {
                        self.lemma_place(dir, last);
                    } else {
                        assert(before.held_at(dir, at));
                        before.lemma_place(dir, at);
                    }
                }
                assert(self@ =~= wanted);
                root.to_owned()
            },
        }
    }
}

/// Returns the Cargo workspace dir for the given manifest dir, where it can be
/// told without asking Cargo.
///
/// `override_dir` is the directory that the environment names as the root,
/// where it names one. `None` comes back where the root is neither remembered
/// nor named: the caller then asks Cargo and has the answer remembered with
/// [`WorkspaceRootCache::remember`].
pub fn cargo_workspace_dir(
    cache: &mut WorkspaceRootCache,
    manifest_dir: &str,
    override_dir: Option<&str>,
) -> (root: Option<String>)
    ensures
        (root_of(root), final(cache)@) == root_lookup(
            old(cache)@,
            manifest_dir@,
            text_of(override_dir),
        ),
{
    match cache.get(manifest_dir) {
        Some(root) => Some(root),
        None => match override_dir {
            Some(root) => Some(cache.remember(manifest_dir, root)),
            None => None,
        },
    }
}

/// A root that was told once is told again as it is, whatever the environment
/// names by then, and nothing more is remembered for it.
pub proof fn law_known_root_is_served_again(
    known: Map<Seq<char>, Seq<char>>,
    manifest_dir: Seq<char>,
    override_dir: Option<Seq<char>>,
    later_override: Option<Seq<char>>,
)
    requires
        root_lookup(known, manifest_dir, override_dir).0 is Some,
    ensures
        root_lookup(root_lookup(known, manifest_dir, override_dir).1, manifest_dir, later_override)
            == root_lookup(known, manifest_dir, override_dir),
{
    let after = root_lookup(known, manifest_dir, override_dir).1;
    if !known.contains_key(manifest_dir) {
        assert(after.contains_key(manifest_dir));
    }
}

/// Once an answer was offered for a manifest directory, every request for
/// that directory is served from memory, with the root that is held for it.
pub proof fn law_remembered_root_is_served(
    known: Map<Seq<char>, Seq<char>>,
    manifest_dir: Seq<char>,
    root: Seq<char>,
    override_dir: Option<Seq<char>>,
)
    ensures
        root_lookup(remembered(known, manifest_dir, root), manifest_dir, override_dir) == (
            Some(remembered(known, manifest_dir, root)[manifest_dir]),
            remembered(known, manifest_dir, root),
        ),
        !known.contains_key(manifest_dir) ==> remembered(known, manifest_dir, root)[manifest_dir]
            == root,
{
}

/// Nothing that is known is ever replaced or forgotten, neither by a request
/// nor by an answer that is offered, for whatever manifest directory.
pub proof fn law_roots_are_never_replaced(
    known: Map<Seq<char>, Seq<char>>,
    manifest_dir: Seq<char>,
    override_dir: Option<Seq<char>>,
    root: Seq<char>,
    held: Seq<char>,
)
    requires
        known.contains_key(held),
    ensures
        root_lookup(known, manifest_dir, override_dir).1.contains_key(held),
        root_lookup(known, manifest_dir, override_dir).1[held] == known[held],
        remembered(known, manifest_dir, root).contains_key(held),
        remembered(known, manifest_dir, root)[held] == known[held],
{
}

} // verus!
