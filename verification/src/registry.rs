//! The container lifecycle registry: an in-memory mapping from
//! engine-assigned container ids to their status, plus the active
//! workspace path. Entries are created only by a successful start and
//! destroyed only by a successful stop; removing an absent id is not an
//! error at this layer.

use vstd::prelude::*;

verus! {

/// Caller-supplied description of a new environment.
#[derive(Debug, Clone)]
pub struct ContainerConfig {
    pub name: String,
    pub image: String,
    pub workspace_path: String,
    pub extensions: Vec<String>,
    pub theme: String,
    pub role: String,
}

/// Mathematical model of a `ContainerConfig`.
pub struct ConfigModel {
    pub name: Seq<char>,
    pub image: Seq<char>,
    pub workspace_path: Seq<char>,
    pub extensions: Seq<Seq<char>>,
    pub theme: Seq<char>,
    pub role: Seq<char>,
}

impl View for ContainerConfig {
    type V = ConfigModel;

    open spec fn view(&self) -> ConfigModel {
        ConfigModel {
            name: self.name@,
            image: self.image@,
            workspace_path: self.workspace_path@,
            extensions: self.extensions.deep_view(),
            theme: self.theme@,
            role: self.role@,
        }
    }
}

/// The tracked state of one provisioned environment. Owned by the
/// registry once created; callers only ever obtain copies.
#[derive(Debug, Clone)]
pub struct ContainerStatus {
    pub id: String,
    pub name: String,
    pub status: String,
    pub created: String,
    pub ports: Vec<String>,
}

/// Mathematical model of a `ContainerStatus`.
pub struct StatusModel {
    pub id: Seq<char>,
    pub name: Seq<char>,
    pub status: Seq<char>,
    pub created: Seq<char>,
    pub ports: Seq<Seq<char>>,
}

impl View for ContainerStatus {
    type V = StatusModel;

    open spec fn view(&self) -> StatusModel {
        StatusModel {
            id: self.id@,
            name: self.name@,
            status: self.status@,
            created: self.created@,
            ports: self.ports.deep_view(),
        }
    }
}

/// The models of a sequence of tracked entries.
pub open spec fn entry_models(s: Seq<ContainerStatus>) -> Seq<StatusModel> {
    s.map_values(|c: ContainerStatus| c@)
}

/// No two entries share an id.
pub open spec fn unique_ids(s: Seq<StatusModel>) -> bool {
    forall|i: int, j: int| 0 <= i < j < s.len() ==> s[i].id != s[j].id
}

/// The mapping from id to entry described by a sequence of entries,
/// later entries winning on a key collision.
pub open spec fn entries_map(s: Seq<StatusModel>) -> Map<Seq<char>, StatusModel>
    decreases s.len(),
{
    if s.len() == 0 {
        Map::empty()
    } else {
        entries_map(s.drop_last()).insert(s.last().id, s.last())
    }
}

/// An id is in the mapping exactly when some entry carries it.
proof fn lemma_entries_map_dom(s: Seq<StatusModel>)
    ensures
        forall|id: Seq<char>|
            entries_map(s).dom().contains(id) <==> (exists|i: int|
                0 <= i < s.len() && s[i].id == id),
    decreases s.len(),
{
    if s.len() == 0 {
    } else {
        lemma_entries_map_dom(s.drop_last());
        assert forall|id: Seq<char>| entries_map(s).dom().contains(id) implies (exists|i: int|
            0 <= i < s.len() && s[i].id == id) by {
            if id == s.last().id {
                assert(s[s.len() - 1].id == id);
            } else {
                assert(entries_map(s.drop_last()).dom().contains(id));
                let i = choose|i: int| 0 <= i < s.drop_last().len() && s.drop_last()[i].id == id;
                assert(s[i].id == id);
            }
        }
        assert forall|id: Seq<char>|
            (exists|i: int| 0 <= i < s.len() && s[i].id == id) implies entries_map(
            s,
        ).dom().contains(id) by {
            let i = choose|i: int| 0 <= i < s.len() && s[i].id == id;
            if i < s.len() - 1 {
                assert(s.drop_last()[i].id == id);
                assert(entries_map(s.drop_last()).dom().contains(id));
            } else {
                assert(s.last().id == id);
            }
        }
    }
}

/// Under unique ids, the mapping sends each entry's id to that entry.
proof fn lemma_entries_map_at(s: Seq<StatusModel>, i: int)
    requires
        unique_ids(s),
        0 <= i < s.len(),
    ensures
        entries_map(s).dom().contains(s[i].id),
        entries_map(s)[s[i].id] == s[i],
    decreases s.len(),
{
    if i == s.len() - 1 {
    } else {
        assert(unique_ids(s.drop_last()));
        lemma_entries_map_at(s.drop_last(), i);
        assert(s.drop_last()[i] == s[i]);
        assert(s[i].id != s[s.len() - 1].id);
    }
}

/// Appending a fresh entry is a map insertion.
proof fn lemma_entries_map_push(s: Seq<StatusModel>, e: StatusModel)
    ensures
        entries_map(s.push(e)) == entries_map(s).insert(e.id, e),
{
    assert(s.push(e).drop_last() =~= s);
    assert(s.push(e).last() == e);
}

/// Removing an entry removes exactly its id from the mapping.
proof fn lemma_entries_map_remove(s: Seq<StatusModel>, i: int)
    requires
        unique_ids(s),
        0 <= i < s.len(),
    ensures
        entries_map(s.remove(i)) == entries_map(s).remove(s[i].id),
{
    let t = s.remove(i);
    s.remove_ensures(i);
    assert(unique_ids(t)) by {
        assert forall|a: int, b: int| 0 <= a < b < t.len() implies t[a].id != t[b].id by {
            let a0: int = if a < i {
                a
            } else {
                a + 1
            };
            let b0: int = if b < i {
                b
            } else {
                b + 1
            };
            assert(t[a] == s[a0] && t[b] == s[b0]);
        }
    }
    lemma_entries_map_dom(s);
    lemma_entries_map_dom(t);
    assert forall|id: Seq<char>|
        entries_map(t).dom().contains(id) == entries_map(s).remove(s[i].id).dom().contains(
        id,
    ) by {
        if entries_map(t).dom().contains(id) {
            let j = choose|j: int| 0 <= j < t.len() && t[j].id == id;
            let j0: int = if j < i {
                j
            } else {
                j + 1
            };
            assert(s[j0].id == id);
            assert(id != s[i].id);
        }
        if entries_map(s).remove(s[i].id).dom().contains(id) {
            let j = choose|j: int| 0 <= j < s.len() && s[j].id == id;
            assert(j != i);
            if j < i {
                assert(t[j].id == id);
            } else {
                assert(t[j - 1].id == id);
            }
        }
    }
    assert forall|id: Seq<char>| entries_map(t).dom().contains(id) implies entries_map(t)[id]
        == entries_map(s).remove(s[i].id)[id] by {
        let j = choose|j: int| 0 <= j < t.len() && t[j].id == id;
        lemma_entries_map_at(t, j);
        let j0: int = if j < i {
            j
        } else {
            j + 1
        };
        assert(s[j0] == t[j]);
        lemma_entries_map_at(s, j0);
    }
    assert(entries_map(t) =~= entries_map(s).remove(s[i].id));
}

/// Mathematical model of the registry: the id-to-status mapping and the
/// active workspace path.
pub struct RegistryModel {
    pub containers: Map<Seq<char>, StatusModel>,
    pub workspace: Seq<char>,
}

/// The container lifecycle registry. The mapping is reachable only
/// through the lifecycle operations below.
pub struct Registry {
    entries: Vec<ContainerStatus>,
    workspace_path: String,
}

impl View for Registry {
    type V = RegistryModel;

    closed spec fn view(&self) -> RegistryModel {
        RegistryModel {
            containers: entries_map(entry_models(self.entries@)),
            workspace: self.workspace_path@,
        }
    }
}

impl Registry {
    /// Internal well-formedness: entry ids are pairwise distinct.
    pub closed spec fn inv(&self) -> bool {
        unique_ids(entry_models(self.entries@))
    }

    /// An empty registry with no active workspace.
    pub fn new() -> (r: Registry)
        ensures
            r.inv(),
            r@.containers == Map::<Seq<char>, StatusModel>::empty(),
            r@.workspace == Seq::<char>::empty(),
    {
        Registry { entries: Vec::new(), workspace_path: String::new() }
    }

    /// The position of the entry with the given id, if any.
    fn find_index(&self, id: &str) -> (r: Option<usize>)
        ensures
            (r matches Some(i) ==> i < self.entries@.len() && entry_models(self.entries@)[i as int].id
                == id@),
            (r is None ==> forall|j: int|
                0 <= j < self.entries@.len() ==> entry_models(self.entries@)[j].id != id@),
    {
        let n = self.entries.len();
        let mut k: usize = 0;
        while k < n
            invariant
                k <= n,
                n == self.entries@.len(),
                forall|j: int| 0 <= j < k ==> entry_models(self.entries@)[j].id != id@,
            decreases n - k,
        {
            if crate::text::str_eq(self.entries[k].id.as_str(), id) {
                return Some(k);
            }
            k += 1;
        }
        None
    }

    /// Inserts an entry, replacing any entry that already carries its
    /// id (last write wins on a key collision).
    fn insert_entry(&mut self, entry: ContainerStatus)
        requires
            old(self).inv(),
        ensures
            final(self).inv(),
            final(self)@.containers == old(self)@.containers.insert(entry@.id, entry@),
            final(self)@.workspace == old(self)@.workspace,
    {
        let ghost s0 = entry_models(self.entries@);
        match self.find_index(entry.id.as_str()) {
            Some(i) => {
                proof {
                    lemma_entries_map_remove(s0, i as int);
                }
                self.entries.remove(i);
                proof {
                    assert(entry_models(self.entries@) =~= s0.remove(i as int));
                    s0.remove_ensures(i as int);
                    assert(unique_ids(entry_models(self.entries@))) by {
                        assert forall|a: int, b: int|
                            0 <= a < b < s0.remove(i as int).len() implies s0.remove(i as int)[a].id
                            != s0.remove(i as int)[b].id by {
                            let a0: int = if a < i as int {
                                a
                            } else {
                                a + 1
                            };
                            let b0: int = if b < i as int {
                                b
                            } else {
                                b + 1
                            };
                            assert(s0.remove(i as int)[a] == s0[a0] && s0.remove(i as int)[b]
                                == s0[b0]);
                        }
                    }
                }
                let ghost s1 = entry_models(self.entries@);
                proof {
                    lemma_entries_map_push(s1, entry@);
                    assert forall|j: int| 0 <= j < s1.len() implies s1[j].id != entry@.id by {
                        let j0: int = if j < i as int {
                            j
                        } else {
                            j + 1
                        };
                        assert(s1[j] == s0[j0]);
                        if j0 != i as int {
                            assert(s0[j0].id != s0[i as int].id);
                        }
                    }
                }
                self.entries.push(entry);
                proof {
                    assert(entry_models(self.entries@) =~= s1.push(s1.push(entry@).last()));
                    assert(entry_models(self.entries@) =~= s1.push(entry@));
                    assert(unique_ids(entry_models(self.entries@))) by {
                        assert forall|a: int, b: int|
                            0 <= a < b < s1.push(entry@).len() implies s1.push(entry@)[a].id
                            != s1.push(entry@)[b].id by {
                            if b == s1.len() as int {
                                assert(s1[a].id != entry@.id);
                            }
                        }
                    }
                    assert(entries_map(s0).remove(entry@.id).insert(entry@.id, entry@)
                        =~= entries_map(s0).insert(entry@.id, entry@));
                }
            },
            None => {
                let ghost s1 = s0;
                proof {
                    lemma_entries_map_push(s1, entry@);
                }
                self.entries.push(entry);
                proof {
                    assert(entry_models(self.entries@) =~= s1.push(entry@));
                    assert(unique_ids(entry_models(self.entries@))) by {
                        assert forall|a: int, b: int|
                            0 <= a < b < s1.push(entry@).len() implies s1.push(entry@)[a].id
                            != s1.push(entry@)[b].id by {
                            if b == s1.len() as int {
                                assert(s1[a].id != entry@.id);
                            }
                        }
                    }
                }
            },
        }
    }

    /// Records a successful start: tracks a new running entry under the
    /// engine-assigned id and makes the configured workspace the active
    /// one. The entry's creation timestamp is the time of the call.
    pub fn record_start(&mut self, config: &ContainerConfig, container_id: String,
        container_name: String)
        requires
            old(self).inv(),
        ensures
            final(self).inv(),
            final(self)@.containers == old(self)@.containers.insert(
                container_id@,
                final(self)@.containers[container_id@],
            ),
            final(self)@.containers.dom().contains(container_id@),
            ({
                let e = final(self)@.containers[container_id@];
                &&& e.id == container_id@
                &&& e.name == container_name@
                &&& e.status == "running"@
                &&& e.created.len() > 0
                &&& e.ports =~= seq!["2222:22"@, "8080:8080"@]
            }),
            final(self)@.workspace == config@.workspace_path,
    {
        let created = crate::engine::now_rfc3339();
        let mut ports: Vec<String> = Vec::new();
        ports.push("2222:22".to_owned());
        ports.push("8080:8080".to_owned());
        proof {
            assert(ports.deep_view() =~= seq!["2222:22"@, "8080:8080"@]);
        }
        let entry = ContainerStatus {
            id: container_id,
            name: container_name,
            status: "running".to_owned(),
            created,
            ports,
        };
        self.insert_entry(entry);
        self.workspace_path = clone_string(&config.workspace_path);
    }

    /// Records a successful stop: forgets the entry under the given id.
    /// Removing an id with no entry leaves the registry unchanged and is
    /// not an error.
    pub fn record_stop(&mut self, container_id: &str)
        requires
            old(self).inv(),
        ensures
            final(self).inv(),
            final(self)@.containers == old(self)@.containers.remove(container_id@),
            final(self)@.workspace == old(self)@.workspace,
            !old(self)@.containers.dom().contains(container_id@) ==> final(self)@.containers
                == old(self)@.containers,
    {
        let ghost s0 = entry_models(self.entries@);
        proof {
            lemma_entries_map_dom(s0);
        }
        match self.find_index(container_id) {
            Some(i) => {
                proof {
                    lemma_entries_map_remove(s0, i as int);
                }
                self.entries.remove(i);
                proof {
                    assert(entry_models(self.entries@) =~= s0.remove(i as int));
                    s0.remove_ensures(i as int);
                    assert(unique_ids(entry_models(self.entries@))) by {
                        assert forall|a: int, b: int|
                            0 <= a < b < s0.remove(i as int).len() implies s0.remove(i as int)[a].id
                            != s0.remove(i as int)[b].id by {
                            let a0: int = if a < i as int {
                                a
                            } else {
                                a + 1
                            };
                            let b0: int = if b < i as int {
                                b
                            } else {
                                b + 1
                            };
                            assert(s0.remove(i as int)[a] == s0[a0] && s0.remove(i as int)[b]
                                == s0[b0]);
                        }
                    }
                }
            },
            None => {
                proof {
                    assert(!entries_map(s0).dom().contains(container_id@));
                    assert(entries_map(s0).remove(container_id@) =~= entries_map(s0));
                }
            },
        }
    }

    /// Whether an entry is tracked under the given id.
    pub fn contains(&self, container_id: &str) -> (r: bool)
        requires
            self.inv(),
        ensures
            r == self@.containers.dom().contains(container_id@),
    {
        proof {
            lemma_entries_map_dom(entry_models(self.entries@));
        }
        match self.find_index(container_id) {
            Some(_) => true,
            None => false,
        }
    }

    /// The tracked entry under the given id, if any.
    pub fn get(&self, container_id: &str) -> (r: Option<&ContainerStatus>)
        requires
            self.inv(),
        ensures
            (r matches Some(e) ==> self@.containers.dom().contains(container_id@) && e@
                == self@.containers[container_id@]),
            (r is None ==> !self@.containers.dom().contains(container_id@)),
    {
        proof {
            lemma_entries_map_dom(entry_models(self.entries@));
        }
        match self.find_index(container_id) {
            Some(i) => {
                proof {
                    lemma_entries_map_at(entry_models(self.entries@), i as int);
                }
                Some(&self.entries[i])
            },
            None => None,
        }
    }

    /// Resolves a path relative to the active workspace; the empty
    /// relative path names the workspace root itself.
    pub fn resolve_workspace_path(&self, relative: &str) -> (r: String)
        ensures
            relative@.len() == 0 ==> r@ == self@.workspace,
            relative@.len() > 0 ==> r@ == self@.workspace + "/"@ + relative@,
    {
        if relative.unicode_len() == 0 {
            clone_string(&self.workspace_path)
        } else {
            let mut s = clone_string(&self.workspace_path);
            s.append("/");
            s.append(relative);
            s
        }
    }
}

/// A copy of a string, with its contents visible to callers.
fn clone_string(s: &String) -> (r: String)
    ensures
        r@ == s@,
{
    s.clone()
}

/// One successful lifecycle operation, by container id.
pub enum LifecycleEvent {
    StartOk(Seq<char>),
    StopOk(Seq<char>),
}

/// The tracked id set after a sequence of successful lifecycle
/// operations, starting from a given id set.
pub open spec fn keys_after(init: Set<Seq<char>>, es: Seq<LifecycleEvent>) -> Set<Seq<char>>
    decreases es.len(),
{
    if es.len() == 0 {
        init
    } else {
        match es.last() {
            LifecycleEvent::StartOk(id) => keys_after(init, es.drop_last()).insert(id),
            LifecycleEvent::StopOk(id) => keys_after(init, es.drop_last()).remove(id),
        }
    }
}

/// Whether the last lifecycle operation on `id` is a successful start
/// not yet followed by a successful stop.
pub open spec fn live_after(es: Seq<LifecycleEvent>, id: Seq<char>) -> bool
    decreases es.len(),
{
    if es.len() == 0 {
        false
    } else {
        match es.last() {
            LifecycleEvent::StartOk(i) => i == id || live_after(es.drop_last(), id),
            LifecycleEvent::StopOk(i) => i != id && live_after(es.drop_last(), id),
        }
    }
}

/// Registry invariant over traces: after any sequence of successful
/// start and stop operations on an initially empty registry, the set of
/// tracked ids is exactly the set of ids whose last operation was a
/// successful start not yet followed by a successful stop. The exec
/// operations realize the steps: `record_start` inserts exactly the
/// started id and `record_stop` removes exactly the stopped id.
pub proof fn lemma_registry_trace(es: Seq<LifecycleEvent>)
    ensures
        forall|id: Seq<char>|
            keys_after(Set::empty(), es).contains(id) <==> live_after(es, id),
    decreases es.len(),
{
    if es.len() == 0 {
    } else {
        lemma_registry_trace(es.drop_last());
        assert forall|id: Seq<char>|
            keys_after(Set::empty(), es).contains(id) <==> live_after(es, id) by {
            assert(keys_after(Set::empty(), es.drop_last()).contains(id) <==> live_after(
                es.drop_last(),
                id,
            ));
        }
    }
}

} // verus!
