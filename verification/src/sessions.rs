//! The registry of sessions: one session for each project root.

use dashmap::DashMap;
use vstd::prelude::*;

verus! {

/// `dashmap::DashMap`, the map that the registry keeps its index in.
#[verifier::external_type_specification]
#[verifier::external_body]
#[verifier::reject_recursive_types(K)]
#[verifier::reject_recursive_types(V)]
#[verifier::reject_recursive_types(S)]
pub struct ExDashMap<K, V, S>(DashMap<K, V, S>);

/// What an index holds: for each project root, the place of its session.
pub uninterp spec fn index_entries(index: DashMap<String, usize>) -> Map<Seq<char>, usize>;

/// `DashMap::new`: a new map holds nothing.
#[verifier::external_body]
fn index_new() -> (index: DashMap<String, usize>)
    ensures
        index_entries(index).dom() == Set::<Seq<char>>::empty(),
{
    DashMap::new()
}

/// `DashMap::get`: the value stored under `root`, copied out, or `None` where the
/// map has no such key. Keys are compared as strings.
#[verifier::external_body]
fn index_get(index: &DashMap<String, usize>, root: &str) -> (slot: Option<usize>)
    ensures
        slot == if index_entries(*index).dom().contains(root@) {
            Some(index_entries(*index)[root@])
        } else {
            None
        },
{
    match index.get(root) {
        Some(entry) => Some(*entry),
        None => None,
    }
}

/// `DashMap::insert`: afterwards `root` is mapped to `slot`, every other key is as
/// it was, and the value that `root` had before is returned. The map is borrowed
/// mutably, so no reference into it is held while it is changed.
#[verifier::external_body]
fn index_insert(index: &mut DashMap<String, usize>, root: String, slot: usize) -> (previous:
    Option<usize>)
    ensures
        index_entries(*final(index)) == index_entries(*old(index)).insert(root@, slot),
        previous == if index_entries(*old(index)).dom().contains(root@) {
            Some(index_entries(*old(index))[root@])
        } else {
            None
        },
{
    index.insert(root, slot)
}

/// The sessions of the projects that were opened, each under the root directory of
/// its project. A session is created when its root is first asked for and stays
/// until the service ends.
pub struct Sessions<S> {
    /// For each root, the place of its session in `slots`.
    index: DashMap<String, usize>,
    /// The root of each session, in the order of registration.
    roots: Vec<String>,
    /// The sessions, in the order of registration.
    slots: Vec<S>,
}

/// What looking for the session of a document led to.
#[derive(Debug)]
pub enum Located<'a, S> {
    /// The project's session is registered.
    Registered(&'a S),
    /// The project at `root` has no session yet: one is to be created and
    /// initialized, then registered.
    Unregistered { root: String },
}

/// What the search for a project's manifest, upwards from a directory, came to.
#[derive(Debug)]
pub enum ManifestLookup {
    /// No manifest was found.
    NotFound,
    /// A manifest was found; `manifest_dir` is the directory that holds it, or
    /// `None` where its path has no parent.
    Found { manifest_dir: Option<String> },
}

/// Why no session could be had for a document. `E` is the failure of a session's
/// initialization.
#[derive(Debug)]
pub enum SessionError<E> {
    /// No manifest was found from the directory `dir` upwards.
    ManifestFileNotFound { dir: String },
    /// The manifest that was found lies in no directory.
    ManifestDirNotFound,
    /// The new session could not be initialized.
    InitializationFailed(E),
}

impl<S> View for Sessions<S> {
    type V = Map<Seq<char>, S>;

    /// The registry as a map from project roots to sessions.
    closed spec fn view(&self) -> Map<Seq<char>, S> {
        Map::new(
            |root: Seq<char>| index_entries(self.index).dom().contains(root),
            |root: Seq<char>| self.slots@[index_entries(self.index)[root] as int],
        )
    }
}

impl<S> Sessions<S> {
    /// Roots and sessions correspond one to one: each root has its own place, and
    /// each place belongs to the root that is recorded for it.
    pub closed spec fn wf(&self) -> bool {
        &&& self.roots@.len() == self.slots@.len()
        &&& forall|root: Seq<char>| #[trigger]
            index_entries(self.index).dom().contains(root) ==> {
                &&& index_entries(self.index)[root] < self.slots@.len()
                &&& self.roots@[index_entries(self.index)[root] as int]@ == root
            }
        &&& forall|slot: int|
            0 <= slot < self.slots@.len() ==> {
                &&& index_entries(self.index).dom().contains((#[trigger] self.roots@[slot])@)
                &&& index_entries(self.index)[self.roots@[slot]@] == slot
            }
    }

    /// The sessions in the order in which they were registered.
    pub closed spec fn handles(&self) -> Seq<S> {
        self.slots@
    }

    /// The root under which each session was registered, in the same order.
    pub closed spec fn origins(&self) -> Seq<Seq<char>> {
        Seq::new(self.roots@.len(), |slot: int| self.roots@[slot]@)
    }

    /// No two sessions back the same root, and every session is the one registered
    /// for its root.
    pub proof fn law_one_session_per_root(&self)
        requires
            self.wf(),
        ensures
            self.origins().len() == self.handles().len(),
            forall|i: int, j: int|
                0 <= i < j < self.origins().len() ==> #[trigger] self.origins()[i]
                    != #[trigger] self.origins()[j],
            forall|i: int|
                0 <= i < self.origins().len() ==> self@.dom().contains(#[trigger] self.origins()[i])
                    && self@[self.origins()[i]] == self.handles()[i],
            forall|root: Seq<char>| #[trigger]
                self@.dom().contains(root) ==> self.origins().contains(root),
    {
        assert forall|i: int, j: int| 0 <= i < j < self.origins().len() implies #[trigger] self.origins()[i]
            != #[trigger] self.origins()[j] by {
            assert(index_entries(self.index)[self.roots@[i]@] == i);
            assert(index_entries(self.index)[self.roots@[j]@] == j);
        }
        assert forall|root: Seq<char>| #[trigger] self@.dom().contains(root) implies self.origins().contains(
            root,
        ) by {
            let slot = index_entries(self.index)[root] as int;
            assert(self.origins()[slot] == root);
        }
    }

    /// A registry without sessions.
    pub fn new() -> (sessions: Self)
        ensures
            sessions.wf(),
            sessions@ == Map::<Seq<char>, S>::empty(),
            sessions.handles().len() == 0,
    {
        let sessions = Sessions { index: index_new(), roots: Vec::new(), slots: Vec::new() };
        assert(sessions@ =~= Map::<Seq<char>, S>::empty());
        sessions
    }

    /// The number of sessions.
    pub fn len(&self) -> (n: usize)
        ensures
            n == self.handles().len(),
    {
        self.slots.len()
    }

    /// The session registered for `root`, if there is one.
    pub fn get(&self, root: &str) -> (session: Option<&S>)
        requires
            self.wf(),
        ensures
            session == if self@.dom().contains(root@) {
                Some(&self@[root@])
            } else {
                None
            },
    {
        match index_get(&self.index, root) {
            Some(slot) => Some(&self.slots[slot]),
            None => None,
        }
    }

    /// Whether a session is registered for `root`.
    pub fn contains(&self, root: &str) -> (present: bool)
        requires
            self.wf(),
        ensures
            present == self@.dom().contains(root@),
    {
        index_get(&self.index, root).is_some()
    }

    /// The session at place `slot` in the order of registration.
    pub fn session_at(&self, slot: usize) -> (session: &S)
        requires
            slot < self.handles().len(),
        ensures
            *session == self.handles()[slot as int],
    {
        &self.slots[slot]
    }

    /// Registers `session` for `root` unless `root` has a session already: a second
    /// registration for the same root changes nothing and its session is dropped.
    /// Returns whether `session` was registered.
    pub fn init(&mut self, root: String, session: S) -> (registered: bool)
        requires
            old(self).wf(),
        ensures
            final(self).wf(),
            registered == !old(self)@.dom().contains(root@),
            final(self)@ == if registered {
                old(self)@.insert(root@, session)
            } else {
                old(self)@
            },
            final(self).handles() == if registered {
                old(self).handles().push(session)
            } else {
                old(self).handles()
            },
            final(self).origins() == if registered {
                old(self).origins().push(root@)
            } else {
                old(self).origins()
            },
            final(self)@.dom().contains(root@),
    {
        if index_get(&self.index, root.as_str()).is_some() {
            return false;
        }
        let slot = self.slots.len();
        self.roots.push(root.clone());
        self.slots.push(session);
        index_insert(&mut self.index, root, slot);
        proof {
            let entries = index_entries(self.index);
            assert forall|r: Seq<char>| #[trigger] entries.dom().contains(r) implies {
                &&& entries[r] < self.slots@.len()
                &&& self.roots@[entries[r] as int]@ == r
            } by {
                if r != root@ {
                    assert(index_entries(old(self).index).dom().contains(r));
                }
            }
            assert forall|s: int| 0 <= s < self.slots@.len() implies {
                &&& entries.dom().contains((#[trigger] self.roots@[s])@)
                &&& entries[self.roots@[s]@] == s
            } by {
                if s < slot {
                    assert(old(self).roots@[s] == self.roots@[s]);
                    assert(index_entries(old(self).index).dom().contains(old(self).roots@[s]@));
                }
            }
            assert(self.origins() =~= old(self).origins().push(root@));
            assert(self@ =~= old(self)@.insert(root@, session)) by {
                assert forall|r: Seq<char>| self@.dom().contains(r) implies #[trigger] self@[r]
                    == old(self)@.insert(root@, session)[r] by {
                    if r != root@ {
                        assert(index_entries(old(self).index).dom().contains(r));
                    }
                }
            }
        }
        true
    }

    /// Finds the session of the project that a document belongs to.
    ///
    /// `dir` is the directory of the document and `manifest` what the search for the
    /// project's manifest from there came to. Without a manifest, or with a manifest
    /// that lies in no directory, there is no project and so no session. Otherwise
    /// the manifest's directory is the project's root: its session is handed out if
    /// it is registered, and if not the caller is told to register one.
    pub fn url_to_session<E>(&self, dir: String, manifest: ManifestLookup) -> (located: Result<
        Located<'_, S>,
        SessionError<E>,
    >)
        requires
            self.wf(),
        ensures
            manifest is NotFound ==> located == Err::<Located<'_, S>, SessionError<E>>(
                SessionError::ManifestFileNotFound { dir },
            ),
            manifest matches ManifestLookup::Found { manifest_dir: None } ==> located == Err::<
                Located<'_, S>,
                SessionError<E>,
            >(SessionError::ManifestDirNotFound),
            manifest matches ManifestLookup::Found { manifest_dir: Some(root) } ==> located == Ok::<
                Located<'_, S>,
                SessionError<E>,
            >(
                if self@.dom().contains(root@) {
                    Located::Registered(&self@[root@])
                } else {
                    Located::Unregistered { root }
                },
            ),
    {
        match manifest {
            ManifestLookup::NotFound => Err(SessionError::ManifestFileNotFound { dir }),
            ManifestLookup::Found { manifest_dir: None } => Err(SessionError::ManifestDirNotFound),
            ManifestLookup::Found { manifest_dir: Some(root) } => {
                match self.get(root.as_str()) {
                    Some(session) => Ok(Located::Registered(session)),
                    None => Ok(Located::Unregistered { root }),
                }
            },
        }
    }

    /// Takes in what the initialization of a new session for `root` came to. A
    /// session that was initialized is registered, unless `root` has got a session
    /// in the meantime, which then stays. A failure is handed on and the registry is
    /// left as it was.
    pub fn register<E>(&mut self, root: String, initialized: Result<S, E>) -> (outcome: Result<
        (),
        SessionError<E>,
    >)
        requires
            old(self).wf(),
        ensures
            final(self).wf(),
            match initialized {
                Ok(session) => {
                    &&& outcome is Ok
                    &&& final(self)@.dom().contains(root@)
                    &&& final(self)@ == if old(self)@.dom().contains(root@) {
                        old(self)@
                    } else {
                        old(self)@.insert(root@, session)
                    }
                    &&& final(self).handles() == if old(self)@.dom().contains(root@) {
                        old(self).handles()
                    } else {
                        old(self).handles().push(session)
                    }
                    &&& final(self).origins() == if old(self)@.dom().contains(root@) {
                        old(self).origins()
                    } else {
                        old(self).origins().push(root@)
                    }
                },
                Err(e) => {
                    &&& outcome == Err::<(), SessionError<E>>(SessionError::InitializationFailed(e))
                    &&& final(self)@ == old(self)@
                    &&& final(self).handles() == old(self).handles()
                    &&& final(self).origins() == old(self).origins()
                },
            },
    {
        match initialized {
            Ok(session) => {
                self.init(root, session);
                Ok(())
            },
            Err(e) => Err(SessionError::InitializationFailed(e)),
        }
    }
}

} // verus!
