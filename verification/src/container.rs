//! The process registry of one container: its primary process and the
//! further processes that were started in it, by id.

use vstd::prelude::*;
use vstd::string::*;
use crate::error::Error;
use crate::process::{Delivery, InitProcess, ProcessState, ProcessView, Timestamp};
use crate::text::same_text;

verus! {

/// The request to start a process.
#[derive(Debug, Clone)]
pub struct StartRequest {
    /// The container's id.
    pub id: String,
    /// The id under which the process is looked up: that of a further
    /// process, or empty for the primary one.
    pub exec_id: String,
}

/// The request to delete a process.
#[derive(Debug, Clone)]
pub struct DeleteRequest {
    /// The container's id.
    pub id: String,
    /// The id under which the process is looked up: that of a further
    /// process, or empty for the primary one.
    pub exec_id: String,
}

/// The request to signal a process.
#[derive(Debug, Clone)]
pub struct KillRequest {
    /// The container's id.
    pub id: String,
    /// The id under which the process is looked up: that of a further
    /// process, or empty for the primary one.
    pub exec_id: String,
    /// The signal's number.
    pub signal: u32,
    /// Whether every process of the container is to be signalled.
    pub all: bool,
}

/// What a registry holds.
pub struct ContainerView {
    /// The container's id.
    pub id: Seq<char>,
    /// The container's bundle directory.
    pub bundle: Seq<char>,
    /// The primary process.
    pub primary: ProcessView,
    /// The further processes, by id. No key is empty or the container's id.
    pub secondary: Map<Seq<char>, ProcessView>,
}

impl ContainerView {
    /// Whether `id` denotes the primary process: the empty id and the
    /// container's own id do.
    pub open spec fn names_primary(self, id: Seq<char>) -> bool {
        id.len() == 0 || id == self.id
    }

    /// The process that `id` denotes, if there is one.
    pub open spec fn resolve(self, id: Seq<char>) -> Option<ProcessView> {
        if self.names_primary(id) {
            Some(self.primary)
        } else if self.secondary.contains_key(id) {
            Some(self.secondary[id])
        } else {
            None
        }
    }

    /// The registry in which `id` denotes `process`. The id must denote a
    /// process already.
    pub open spec fn with(self, id: Seq<char>, process: ProcessView) -> ContainerView {
        if self.names_primary(id) {
            ContainerView { primary: process, ..self }
        } else {
            ContainerView { secondary: self.secondary.insert(id, process), ..self }
        }
    }
}

/// A further process under its id.
#[derive(Debug, Clone)]
struct Entry {
    id: String,
    process: InitProcess,
}

/// Whether some entry of `entries` has the id `key`.
spec fn has_key(entries: Seq<Entry>, key: Seq<char>) -> bool {
    exists|i: int| 0 <= i < entries.len() && #[trigger] entries[i].id@ == key
}

/// The place of an entry of `entries` with the id `key`.
spec fn place_of(entries: Seq<Entry>, key: Seq<char>) -> int {
    choose|i: int| 0 <= i < entries.len() && #[trigger] entries[i].id@ == key
}

/// The processes of `entries` by id.
spec fn by_id(entries: Seq<Entry>) -> Map<Seq<char>, ProcessView> {
    Map::new(
        |key: Seq<char>| has_key(entries, key),
        |key: Seq<char>| entries[place_of(entries, key)].process@,
    )
}

/// Whether no two entries of `entries` share an id.
spec fn distinct(entries: Seq<Entry>) -> bool {
    forall|i: int, j: int|
        0 <= i < entries.len() && 0 <= j < entries.len() && #[trigger] entries[i].id@
            == #[trigger] entries[j].id@ ==> i == j
}

/// With distinct ids, the process found under an entry's id is that entry's.
proof fn lemma_by_id_at(entries: Seq<Entry>, i: int)
    requires
        distinct(entries),
        0 <= i < entries.len(),
    ensures
        by_id(entries).contains_key(entries[i].id@),
        by_id(entries)[entries[i].id@] == entries[i].process@,
{
    assert(place_of(entries, entries[i].id@) == i);
}

/// Appending an entry under a fresh id adds it to the map.
proof fn lemma_by_id_push(entries: Seq<Entry>, entry: Entry)
    requires
        distinct(entries),
        !has_key(entries, entry.id@),
    ensures
        distinct(entries.push(entry)),
        by_id(entries.push(entry)) == by_id(entries).insert(entry.id@, entry.process@),
{
    let grown = entries.push(entry);
    assert(distinct(grown));
    assert forall|key: Seq<char>|
        has_key(grown, key) <==> (key == entry.id@ || has_key(entries, key)) by {
        if key == entry.id@ {
            assert(grown[entries.len() as int].id@ == key);
        }
        if has_key(entries, key) {
            assert(grown[place_of(entries, key)].id@ == key);
        }
    }
    assert forall|key: Seq<char>| has_key(grown, key) implies by_id(grown)[key] == by_id(
        entries,
    ).insert(entry.id@, entry.process@)[key] by {
        let i = place_of(grown, key);
        lemma_by_id_at(grown, i);
        if i < entries.len() {
            lemma_by_id_at(entries, i);
        }
    }
}

/// Taking an entry out takes its id out of the map.
proof fn lemma_by_id_remove(entries: Seq<Entry>, i: int)
    requires
        distinct(entries),
        0 <= i < entries.len(),
    ensures
        distinct(entries.remove(i)),
        by_id(entries.remove(i)) == by_id(entries).remove(entries[i].id@),
{
    let rest = entries.remove(i);
    let gone = entries[i].id@;
    // where the entry at a place of `rest` stands in `entries`
    let earlier = |a: int| if a < i { a } else { a + 1 };
    assert forall|a: int, b: int|
        0 <= a < rest.len() && 0 <= b < rest.len() && #[trigger] rest[a].id@
            == #[trigger] rest[b].id@ implies a == b by {
        assert(entries[earlier(a)].id@ == entries[earlier(b)].id@);
    }
    assert forall|key: Seq<char>|
        has_key(rest, key) <==> (key != gone && has_key(entries, key)) by {
        if has_key(rest, key) {
            assert(entries[earlier(place_of(rest, key))].id@ == key);
        }
        if key != gone && has_key(entries, key) {
            let a = place_of(entries, key);
            assert(rest[if a < i { a } else { a - 1 }].id@ == key);
        }
    }
    assert forall|key: Seq<char>| has_key(rest, key) implies by_id(rest)[key] == by_id(
        entries,
    )[key] by {
        let a = place_of(rest, key);
        lemma_by_id_at(rest, a);
        lemma_by_id_at(entries, earlier(a));
    }
}

/// Replacing the process of an entry replaces it in the map.
proof fn lemma_by_id_update(entries: Seq<Entry>, i: int, entry: Entry)
    requires
        distinct(entries),
        0 <= i < entries.len(),
        entry.id@ == entries[i].id@,
    ensures
        distinct(entries.update(i, entry)),
        by_id(entries.update(i, entry)) == by_id(entries).insert(entry.id@, entry.process@),
{
    let changed = entries.update(i, entry);
    assert forall|a: int, b: int|
        0 <= a < changed.len() && 0 <= b < changed.len() && #[trigger] changed[a].id@
            == #[trigger] changed[b].id@ implies a == b by {
        assert(entries[a].id@ == entries[b].id@);
    }
    assert forall|key: Seq<char>| has_key(changed, key) <==> has_key(entries, key) by {
        if has_key(changed, key) {
            assert(entries[place_of(changed, key)].id@ == key);
        }
        if has_key(entries, key) {
            assert(changed[place_of(entries, key)].id@ == key);
        }
    }
    assert(has_key(entries, entry.id@)) by {
        assert(entries[i].id@ == entry.id@);
    }
    assert forall|key: Seq<char>| has_key(changed, key) implies by_id(changed)[key] == by_id(
        entries,
    ).insert(entry.id@, entry.process@)[key] by {
        let a = place_of(changed, key);
        lemma_by_id_at(changed, a);
        if a != i {
            lemma_by_id_at(entries, a);
        }
    }
}

/// The registry of one container. It owns the primary process, which is
/// always there, and the further processes by id. The empty id and the
/// container's id denote the primary process and are never keys of a
/// further one.
#[derive(Debug)]
pub struct Container {
    id: String,
    bundle: String,
    process_self: InitProcess,
    processes: Vec<Entry>,
}

impl View for Container {
    type V = ContainerView;

    closed spec fn view(&self) -> ContainerView {
        ContainerView {
            id: self.id@,
            bundle: self.bundle@,
            primary: self.process_self@,
            secondary: by_id(self.processes@),
        }
    }
}

impl Container {
    /// Whether the registry is in order: no two further processes share an
    /// id, and none is registered under an id of the primary process. Every
    /// registry that `new` returns is, and every operation keeps it so.
    pub closed spec fn well_formed(&self) -> bool {
        &&& distinct(self.processes@)
        &&& forall|i: int|
            0 <= i < self.processes@.len() ==> !self@.names_primary(
                #[trigger] self.processes@[i].id@,
            )
    }

    /// The registry of the container `id` in `bundle`, whose primary process
    /// is `process_self`; it holds no further process.
    pub fn new(id: String, bundle: String, process_self: InitProcess) -> (r: Self)
        ensures
            r@ == (ContainerView {
                id: id@,
                bundle: bundle@,
                primary: process_self@,
                secondary: Map::empty(),
            }),
            r.well_formed(),
    {
        let r = Container { id, bundle, process_self, processes: Vec::new() };
        assert(r@.secondary =~= Map::empty());
        r
    }

    /// The place of the further process `id`, if there is one.
    fn position(&self, id: &str) -> (r: Option<usize>)
        ensures
            match r {
                Some(i) => i < self.processes@.len() && self.processes@[i as int].id@ == id@,
                None => !has_key(self.processes@, id@),
            },
    {
        let wanted = String::from_str(id);
        let mut i: usize = 0;
        while i < self.processes.len()
            invariant
                0 <= i <= self.processes@.len(),
                wanted@ == id@,
                forall|j: int| 0 <= j < i ==> self.processes@[j].id@ != id@,
            decreases self.processes@.len() - i,
        {
            if self.processes[i].id == wanted {
                return Some(i);
            }
            i += 1;
        }
        None
    }

    /// Whether `id` denotes the primary process.
    fn is_primary(&self, id: &str) -> (r: bool)
        ensures
            r == self@.names_primary(id@),
    {
        id.is_empty() || same_text(id, self.id.as_str())
    }

    /// The process id of the primary process.
    pub fn pid(&self) -> (r: isize)
        ensures
            r == self@.primary.pid,
    {
        self.process_self.pid()
    }

    /// The container's id.
    pub fn id(&self) -> (r: &str)
        ensures
            r@ == self@.id,
    {
        self.id.as_str()
    }

    /// The container's bundle directory.
    pub fn bundle(&self) -> (r: &str)
        ensures
            r@ == self@.bundle,
    {
        self.bundle.as_str()
    }

    /// Registers `process` as the further process `id`. Nothing is registered
    /// under an id that denotes the primary process or a process that is
    /// registered already: the call then returns `false` and changes nothing.
    pub fn process_add(&mut self, id: &str, process: InitProcess) -> (r: bool)
        requires
            old(self).well_formed(),
        ensures
            final(self).well_formed(),
            r == !(old(self)@.names_primary(id@) || old(self)@.secondary.contains_key(id@)),
            r ==> final(self)@ == (ContainerView {
                secondary: old(self)@.secondary.insert(id@, process@),
                ..old(self)@
            }),
            !r ==> final(self)@ == old(self)@,
    {
        if self.is_primary(id) {
            return false;
        }
        match self.position(id) {
            Some(_) => false,
            None => {
                let entry = Entry { id: String::from_str(id), process };
                proof {
                    lemma_by_id_push(self.processes@, entry);
                }
                self.processes.push(entry);
                true
            },
        }
    }

    /// Takes the further process `id` out of the registry and returns it.
    /// The primary process is never taken out: an id that denotes it, like
    /// one that denotes nothing, yields `None` and changes nothing.
    pub fn process_remove(&mut self, id: &str) -> (r: Option<InitProcess>)
        requires
            old(self).well_formed(),
        ensures
            final(self).well_formed(),
            match r {
                Some(process) => old(self)@.secondary.contains_key(id@) && process@ == old(
                    self,
                )@.secondary[id@] && final(self)@ == (ContainerView {
                    secondary: old(self)@.secondary.remove(id@),
                    ..old(self)@
                }),
                None => !old(self)@.secondary.contains_key(id@) && final(self)@ == old(self)@,
            },
    {
        match self.position(id) {
            Some(i) => {
                proof {
                    lemma_by_id_at(self.processes@, i as int);
                    lemma_by_id_remove(self.processes@, i as int);
                }
                let entry = self.processes.remove(i);
                Some(entry.process)
            },
            None => None,
        }
    }

    /// The process that `id` denotes: the primary process for the empty id
    /// and for the container's id, whatever further processes there are, and
    /// else the further process registered under `id`.
    pub fn process(&self, id: &str) -> (r: Result<&InitProcess, Error>)
        requires
            self.well_formed(),
        ensures
            match self@.resolve(id@) {
                Some(process) => r matches Ok(found) && found@ == process,
                None => r matches Err(Error::NotFound),
            },
    {
        if self.is_primary(id) {
            Ok(&self.process_self)
        } else {
            match self.position(id) {
                Some(i) => {
                    proof {
                        lemma_by_id_at(self.processes@, i as int);
                    }
                    Ok(&self.processes[i].process)
                },
                None => Err(Error::NotFound),
            }
        }
    }

    /// The process that `id` denotes, to act on: as `process`, and what the
    /// caller makes of the record is what the registry holds afterwards.
    pub fn process_mut(&mut self, id: &str) -> (r: Result<&mut InitProcess, Error>)
        requires
            old(self).well_formed(),
        ensures
            final(self).well_formed(),
            match old(self)@.resolve(id@) {
                Some(process) => r matches Ok(found) && found@ == process && final(self)@ == old(
                    self,
                )@.with(id@, final(found)@),
                None => (r matches Err(Error::NotFound)) && final(self)@ == old(self)@,
            },
    {
        if self.is_primary(id) {
            Ok(&mut self.process_self)
        } else {
            match self.position(id) {
                Some(i) => {
                    proof {
                        let entries = self.processes@;
                        lemma_by_id_at(entries, i as int);
                        assert forall|entry: Entry|
                            entry.id@ == entries[i as int].id@ implies by_id(
                            #[trigger] entries.update(i as int, entry),
                        ) == by_id(entries).insert(entry.id@, entry.process@) && distinct(
                            entries.update(i as int, entry),
                        ) by {
                            lemma_by_id_update(entries, i as int, entry);
                        }
                    }
                    Ok(&mut self.processes[i].process)
                },
                None => Err(Error::NotFound),
            }
        }
    }

    /// Whether the process which `req.exec_id` denotes can be started now: its
    /// process id if so, and else the error with which `start` would fail.
    /// The caller asks before it starts the process and calls `start` once
    /// that has succeeded.
    pub fn startable(&self, req: &StartRequest) -> (r: Result<isize, Error>)
        requires
            self.well_formed(),
        ensures
            match self@.resolve(req.exec_id@) {
                Some(process) => if process.state == ProcessState::Created {
                    r == Ok::<isize, Error>(process.pid)
                } else {
                    r matches Err(Error::InvalidState)
                },
                None => r matches Err(Error::NotFound),
            },
    {
        match self.process(req.exec_id.as_str()) {
            Ok(process) => match process.state() {
                ProcessState::Created => Ok(process.pid()),
                _ => Err(Error::InvalidState),
            },
            Err(e) => Err(e),
        }
    }

    /// Records that the process which `req.exec_id` denotes was started, and
    /// returns its process id. Fails, and changes nothing, where the id
    /// denotes no process or one that is not in the state to be started.
    pub fn start(&mut self, req: &StartRequest) -> (r: Result<isize, Error>)
        requires
            old(self).well_formed(),
        ensures
            final(self).well_formed(),
            match old(self)@.resolve(req.exec_id@) {
                Some(process) => if process.state == ProcessState::Created {
                    r == Ok::<isize, Error>(process.pid) && final(self)@ == old(self)@.with(
                        req.exec_id@,
                        process.started(),
                    )
                } else {
                    (r matches Err(Error::InvalidState)) && final(self)@ == old(self)@
                },
                None => (r matches Err(Error::NotFound)) && final(self)@ == old(self)@,
            },
    {
        let ghost before = self@;
        let r = match self.process_mut(req.exec_id.as_str()) {
            Ok(process) => match process.start() {
                Ok(()) => Ok(process.pid()),
                Err(e) => Err(e),
            },
            Err(e) => Err(e),
        };
        proof {
            if let Some(process) = before.resolve(req.exec_id@) {
                if process.state != ProcessState::Created {
                    assert(before.with(req.exec_id@, process).secondary =~= before.secondary);
                }
            }
        }
        r
    }

    /// Records that the process which `req.exec_id` denotes was torn down,
    /// having ended with `exit_status` at `exited_at`, and returns its process
    /// id with that status and time. A further process leaves the registry;
    /// the primary process stays in it, in the deleted state. Fails, and
    /// changes nothing, where the id denotes no process.
    pub fn delete(
        &mut self,
        req: &DeleteRequest,
        exit_status: isize,
        exited_at: Option<Timestamp>,
    ) -> (r: Result<(isize, isize, Option<Timestamp>), Error>)
        requires
            old(self).well_formed(),
        ensures
            final(self).well_formed(),
            match old(self)@.resolve(req.exec_id@) {
                Some(process) => r == Ok::<(isize, isize, Option<Timestamp>), Error>(
                    (process.pid, exit_status, exited_at),
                ) && final(self)@ == (if old(self)@.names_primary(req.exec_id@) {
                    ContainerView { primary: process.deleted(exit_status, exited_at), ..old(self)@ }
                } else {
                    ContainerView {
                        secondary: old(self)@.secondary.remove(req.exec_id@),
                        ..old(self)@
                    }
                }),
                None => (r matches Err(Error::NotFound)) && final(self)@ == old(self)@,
            },
            !old(self)@.names_primary(req.exec_id@) ==> final(self)@.resolve(req.exec_id@) is None,
    {
        if self.is_primary(req.exec_id.as_str()) {
            self.process_self.delete(exit_status, exited_at);
            let primary = &self.process_self;
            Ok((primary.pid(), primary.exit_status(), primary.exited_at()))
        } else {
            match self.process_remove(req.exec_id.as_str()) {
                Some(process) => {
                    let mut process = process;
                    process.delete(exit_status, exited_at);
                    Ok((process.pid(), process.exit_status(), process.exited_at()))
                },
                None => Err(Error::NotFound),
            }
        }
    }

    /// The instruction to deliver the signal of `req` to the process which
    /// `req.exec_id` denotes; with `req.all` it is meant for every process of the
    /// container's process group. Fails where the id denotes no process or
    /// one that has been deleted.
    pub fn kill(&self, req: &KillRequest) -> (r: Result<Delivery, Error>)
        requires
            self.well_formed(),
        ensures
            match self@.resolve(req.exec_id@) {
                Some(process) => if process.state != ProcessState::Deleted {
                    r == Ok::<Delivery, Error>(
                        Delivery { pid: process.pid, signal: req.signal, all: req.all },
                    )
                } else {
                    r matches Err(Error::InvalidState)
                },
                None => r matches Err(Error::NotFound),
            },
    {
        match self.process(req.exec_id.as_str()) {
            Ok(process) => process.kill(req.signal, req.all),
            Err(e) => Err(e),
        }
    }

    /// Running a further process is not provided at this layer.
    pub fn exec(&self) -> (r: Result<(), Error>)
        ensures
            r matches Err(Error::UnimplementedError(verb)) && verb@ == "exec"@,
    {
        Err(Error::UnimplementedError(String::from_str("exec")))
    }

    /// Suspending is not provided at this layer.
    pub fn pause(&self) -> (r: Result<(), Error>)
        ensures
            r matches Err(Error::UnimplementedError(verb)) && verb@ == "pause"@,
    {
        Err(Error::UnimplementedError(String::from_str("pause")))
    }

    /// Resuming is not provided at this layer.
    pub fn resume(&self) -> (r: Result<(), Error>)
        ensures
            r matches Err(Error::UnimplementedError(verb)) && verb@ == "resume"@,
    {
        Err(Error::UnimplementedError(String::from_str("resume")))
    }

    /// Resizing the terminal is not provided at this layer.
    pub fn resize_pty(&self) -> (r: Result<(), Error>)
        ensures
            r matches Err(Error::UnimplementedError(verb)) && verb@ == "resize_pty"@,
    {
        Err(Error::UnimplementedError(String::from_str("resize_pty")))
    }

    /// Closing the standard streams is not provided at this layer.
    pub fn close_io(&self) -> (r: Result<(), Error>)
        ensures
            r matches Err(Error::UnimplementedError(verb)) && verb@ == "close_io"@,
    {
        Err(Error::UnimplementedError(String::from_str("close_io")))
    }

    /// Checkpointing is not provided at this layer.
    pub fn checkpoint(&self) -> (r: Result<(), Error>)
        ensures
            r matches Err(Error::UnimplementedError(verb)) && verb@ == "checkpoint"@,
    {
        Err(Error::UnimplementedError(String::from_str("checkpoint")))
    }

    /// Updating resource limits is not provided at this layer.
    pub fn update(&self) -> (r: Result<(), Error>)
        ensures
            r matches Err(Error::UnimplementedError(verb)) && verb@ == "update"@,
    {
        Err(Error::UnimplementedError(String::from_str("update")))
    }

    /// Looking a process id up is not provided at this layer.
    pub fn has_pid(&self) -> (r: Result<(), Error>)
        ensures
            r matches Err(Error::UnimplementedError(verb)) && verb@ == "has_pid"@,
    {
        Err(Error::UnimplementedError(String::from_str("has_pid")))
    }
}

/// The empty id and the container's id denote the primary process, whatever
/// further processes the registry holds.
pub proof fn lemma_primary_resolves(registry: ContainerView)
    ensures
        registry.resolve(Seq::empty()) == Some(registry.primary),
        registry.resolve(registry.id) == Some(registry.primary),
{
}

/// In a registry that is in order, no further process is registered under an
/// id of the primary process.
pub proof fn lemma_primary_not_secondary(registry: &Container)
    requires
        registry.well_formed(),
    ensures
        !registry@.secondary.contains_key(Seq::empty()),
        !registry@.secondary.contains_key(registry@.id),
{
    let entries = registry.processes@;
    if has_key(entries, Seq::empty()) {
        let i = place_of(entries, Seq::empty());
    }
    if has_key(entries, registry@.id) {
        let i = place_of(entries, registry@.id);
    }
}

/// Once a further process has left the registry, its id denotes nothing.
pub proof fn lemma_removed_is_gone(registry: ContainerView, id: Seq<char>)
    requires
        !registry.names_primary(id),
    ensures
        (ContainerView { secondary: registry.secondary.remove(id), ..registry }).resolve(
            id,
        ) is None,
{
}

} // verus!
