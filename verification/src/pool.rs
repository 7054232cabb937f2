//! Processes that are kept for further requests

use crate::config::{ConfigEntry, ConfigEntryHash, ConfigKey, ImageEditorConfig, ImageLoaderConfig};
use crate::error::GlycinError;
use crate::path::PathBuf;
use crate::sandbox::SandboxMechanism;
use std::sync::Arc;
use vstd::prelude::*;

verus! {

/// Number by which a user of a process is known
pub type UserId = u64;

/// How long a loader is kept after its last use: 60 seconds, in nanoseconds
pub const LOADER_RETENTION_TIME: u64 = 60000000000;

/// A process that is kept, and what tells whether it is still needed
///
/// Points in time are given in nanoseconds on a clock that does not go
/// backwards.
pub struct PooledProcess<P> {
    pub last_use: u64,
    pub process: Arc<P>,
    pub users: Vec<UserId>,
}

impl<P> PooledProcess<P> {
    /// The process, which is used now
    pub fn use_(&mut self, now: u64) -> (r: Arc<P>)
        ensures
            r == old(self).process,
            *final(self) == (PooledProcess { last_use: now, ..*old(self) }),
    {
        self.last_use = now;
        self.process.clone()
    }

    /// Whether one of the given users uses the process
    pub open spec fn has_user(self, alive: Seq<UserId>) -> bool {
        exists|i: int| 0 <= i < self.users@.len() && alive.contains(#[trigger] self.users@[i])
    }

    /// Whether the process is not needed any more: none of its users is alive
    /// and it has not been used for longer than the retention time
    pub open spec fn is_obsolete(self, alive: Seq<UserId>, now: u64, retention_time: u64) -> bool {
        !self.has_user(alive) && now - self.last_use > retention_time
    }

    fn obsolete(&self, alive: &Vec<UserId>, now: u64, retention_time: u64) -> (r: bool)
        ensures
            r == self.is_obsolete(alive@, now, retention_time),
    {
        for i in 0..self.users.len()
            invariant
                forall|k: int| 0 <= k < i ==> !alive@.contains(#[trigger] self.users@[k]),
        {
            for j in 0..alive.len()
                invariant
                    i < self.users@.len(),
                    forall|k: int| 0 <= k < j ==> alive@[k] != self.users@[i as int],
            {
                if alive[j] == self.users[i] {
                    assert(alive@.contains(self.users@[i as int]));
                    return false;
                }
            }
        }
        now > self.last_use && now - self.last_use > retention_time
    }
}

/// Processes by what requests for them have in common
pub struct ProcessMap<P> {
    pub entries: Vec<(ConfigEntryHash, PooledProcess<P>)>,
}

impl<P> ProcessMap<P> {
    /// No two processes are for the same requests
    pub open spec fn wf(self) -> bool {
        forall|i: int, j: int|
            0 <= i < j < self.entries@.len() ==> (#[trigger] self.entries@[i]).0@ != (
            #[trigger] self.entries@[j]).0@
    }

    /// Whether there is a process for requests that have the given in common
    pub open spec fn has(self, key: ConfigKey) -> bool {
        exists|i: int| 0 <= i < self.entries@.len() && (#[trigger] self.entries@[i]).0@ == key
    }

    /// Position of the process for requests that have the given in common
    pub open spec fn position(self, key: ConfigKey) -> int {
        choose|i: int| 0 <= i < self.entries@.len() && (#[trigger] self.entries@[i]).0@ == key
    }
}

impl<P> View for ProcessMap<P> {
    type V = Map<ConfigKey, PooledProcess<P>>;

    open spec fn view(&self) -> Map<ConfigKey, PooledProcess<P>> {
        Map::new(|key: ConfigKey| self.has(key), |key: ConfigKey| self.entries@[self.position(key)].1)
    }
}

/// Every entry is found under what the requests for it have in common.
pub proof fn entry_is_in_view<P>(map: ProcessMap<P>, i: int)
    requires
        map.wf(),
        0 <= i < map.entries@.len(),
    ensures
        map@.contains_key(map.entries@[i].0@),
        map@[map.entries@[i].0@] == map.entries@[i].1,
{
    let key = map.entries@[i].0@;
    assert(map.has(key));
    let found = map.position(key);
    assert(map.entries@[found].0@ == key);
    if found < i {
        assert(map.entries@[found].0@ != map.entries@[i].0@);
    } else if i < found {
        assert(map.entries@[i].0@ != map.entries@[found].0@);
    }
}

impl<P> ProcessMap<P> {
    pub fn new() -> (r: Self)
        ensures
            r.wf(),
            r@ == Map::<ConfigKey, PooledProcess<P>>::empty(),
    {
        let r = ProcessMap { entries: Vec::new() };
        assert(r@ =~= Map::<ConfigKey, PooledProcess<P>>::empty());
        r
    }

    /// Position of the process for the given requests
    fn find(&self, config_hash: &ConfigEntryHash) -> (r: Option<usize>)
        requires
            self.wf(),
        ensures
            match r {
                Some(i) => {
                    &&& i < self.entries@.len()
                    &&& self.entries@[i as int].0@ == config_hash@
                    &&& self@.contains_key(config_hash@)
                    &&& self@[config_hash@] == self.entries@[i as int].1
                },
                None => {
                    &&& !self@.contains_key(config_hash@)
                    &&& forall|i: int|
                        0 <= i < self.entries@.len() ==> (#[trigger] self.entries@[i]).0@
                            != config_hash@
                },
            },
    {
        for i in 0..self.entries.len()
            invariant
                self.wf(),
                forall|j: int|
                    0 <= j < i ==> (#[trigger] self.entries@[j]).0@ != config_hash@,
        {
            if self.entries[i].0.is_same(config_hash) {
                proof {
                    entry_is_in_view(*self, i as int);
                }
                return Some(i);
            }
        }
        None
    }

    /// The process for the given requests
    pub fn get(&self, config_hash: &ConfigEntryHash) -> (r: Option<&PooledProcess<P>>)
        requires
            self.wf(),
        ensures
            match r {
                Some(process) => self@.contains_key(config_hash@) && *process
                    == self@[config_hash@],
                None => !self@.contains_key(config_hash@),
            },
    {
        match self.find(config_hash) {
            Some(i) => Some(&self.entries[i].1),
            None => None,
        }
    }

    /// Put a process in the place of the one for the same requests, if there
    /// is one
    pub fn insert(&mut self, config_hash: ConfigEntryHash, process: PooledProcess<P>)
        requires
            old(self).wf(),
        ensures
            final(self).wf(),
            final(self)@ == old(self)@.insert(config_hash@, process),
    {
        let ghost before = *self;
        let place = self.find(&config_hash);
        let ghost key = config_hash@;
        let i: usize;
        match place {
            Some(found) => {
                i = found;
                self.entries.set(found, (config_hash, process));
                assert forall|j: int| 0 <= j < self.entries@.len() implies (
                #[trigger] self.entries@[j]).0@ == before.entries@[j].0@ by {}
            },
            None => {
                i = self.entries.len();
                self.entries.push((config_hash, process));
                assert forall|j: int| 0 <= j < before.entries@.len() implies (
                #[trigger] self.entries@[j]) == before.entries@[j] by {}
            },
        }
        proof {
            assert(self.wf());
            entry_is_in_view(*self, i as int);
            let expected = before@.insert(key, process);
            assert forall|other: ConfigKey| #![trigger self@.dom().contains(other)]
                #![trigger expected.dom().contains(other)]
                self@.dom().contains(other) == expected.dom().contains(other) && (
            self@.dom().contains(other) ==> self@[other] == expected[other]) by {
                if other != key && self.has(other) {
                    let j = self.position(other);
                    assert(self.entries@[j].0@ == other);
                    assert(before.entries@[j].0@ == other);
                    entry_is_in_view(*self, j);
                    entry_is_in_view(before, j);
                }
                if other != key && before.has(other) {
                    let j = before.position(other);
                    assert(before.entries@[j].0@ == other);
                    assert(self.entries@[j].0@ == other);
                    entry_is_in_view(*self, j);
                    entry_is_in_view(before, j);
                }
            }
            assert(self@ =~= expected);
        }
    }

    /// The process for the given requests, which is used now
    pub fn use_(&mut self, config_hash: &ConfigEntryHash, now: u64) -> (r: Option<Arc<P>>)
        requires
            old(self).wf(),
        ensures
            final(self).wf(),
            match r {
                Some(process) => {
                    let pooled = old(self)@[config_hash@];
                    &&& old(self)@.contains_key(config_hash@)
                    &&& process == pooled.process
                    &&& final(self)@ == old(self)@.insert(
                        config_hash@,
                        PooledProcess { last_use: now, ..pooled },
                    )
                },
                None => !old(self)@.contains_key(config_hash@) && final(self)@ == old(self)@,
            },
    {
        let i: usize = match self.find(config_hash) {
            Some(i) => i,
            None => return None,
        };
        let ghost before = *self;
        let (hash, mut pooled) = self.entries.remove(i);
        let process = pooled.use_(now);
        self.entries.insert(i, (hash, pooled));
        proof {
            assert(self.entries@ =~= before.entries@.update(i as int, (hash, pooled)));
            assert forall|j: int| 0 <= j < self.entries@.len() implies (#[trigger] self.entries@[j]).0@
                == before.entries@[j].0@ by {}
            replacing_keeps_others(before, *self, i as int);
        }
        Some(process)
    }

    /// Drop the processes that are not needed any more and return what requests
    /// they were for
    pub fn retain_needed(&mut self, alive: &Vec<UserId>, now: u64, retention_time: u64) -> (r: Vec<
        ConfigEntryHash,
    >)
        requires
            old(self).wf(),
        ensures
            final(self).wf(),
            forall|key: ConfigKey| #[trigger]
                final(self)@.contains_key(key) <==> old(self)@.contains_key(key)
                    && !old(self)@[key].is_obsolete(alive@, now, retention_time),
            forall|key: ConfigKey| #[trigger]
                final(self)@.contains_key(key) ==> final(self)@[key] == old(self)@[key],
            forall|key: ConfigKey, i: int, j: int|
                #![trigger old(self)@[key].users@[i], alive@[j]]
                {
                    &&& old(self)@.contains_key(key)
                    &&& 0 <= i < old(self)@[key].users@.len()
                    &&& 0 <= j < alive@.len()
                    &&& old(self)@[key].users@[i] == alive@[j]
                } ==> final(self)@.contains_key(key),
            forall|key: ConfigKey|
                (exists|i: int| 0 <= i < r@.len() && #[trigger] r@[i]@ == key) <==> (
                #[trigger] old(self)@.contains_key(key) && old(self)@[key].is_obsolete(
                    alive@,
                    now,
                    retention_time,
                )),
            forall|i: int, j: int|
                0 <= i < j < r@.len() ==> (#[trigger] r@[i])@ != (#[trigger] r@[j])@,
    {
        let ghost before = *self;
        let mut entries: Vec<(ConfigEntryHash, PooledProcess<P>)> = Vec::new();
        let mut dropped: Vec<ConfigEntryHash> = Vec::new();
        std::mem::swap(&mut entries, &mut self.entries);
        let ghost mut kept_from: Seq<int> = seq![];
        let ghost mut dropped_from: Seq<int> = seq![];
        assert(self.entries@.len() == 0);
        for entry in all: entries
            invariant
                before.wf(),
                all.seq() == before.entries@,
                kept_from.len() == self.entries@.len(),
                dropped_from.len() == dropped@.len(),
                forall|k: int|
                    0 <= k < kept_from.len() ==> 0 <= #[trigger] kept_from[k] < all.index()
                        && self.entries@[k] == before.entries@[kept_from[k]]
                        && !before.entries@[kept_from[k]].1.is_obsolete(
                        alive@,
                        now,
                        retention_time,
                    ),
                forall|k: int, l: int|
                    0 <= k < l < kept_from.len() ==> #[trigger] kept_from[k]
                        < #[trigger] kept_from[l],
                forall|k: int, l: int|
                    0 <= k < l < dropped_from.len() ==> #[trigger] dropped_from[k]
                        < #[trigger] dropped_from[l],
                forall|k: int|
                    0 <= k < dropped_from.len() ==> 0 <= #[trigger] dropped_from[k] < all.index()
                        && dropped@[k] == before.entries@[dropped_from[k]].0
                        && before.entries@[dropped_from[k]].1.is_obsolete(
                        alive@,
                        now,
                        retention_time,
                    ),
                forall|j: int|
                    0 <= j < all.index() ==> if (#[trigger] before.entries@[j]).1.is_obsolete(
                        alive@,
                        now,
                        retention_time,
                    ) {
                        dropped_from.contains(j)
                    } else {
                        kept_from.contains(j)
                    },
        {
            let ghost kept_before = kept_from;
            let ghost dropped_before = dropped_from;
            let ghost index = all.index() as int;
            assert(entry == before.entries@[index]);
            let (hash, pooled) = entry;
            if pooled.obsolete(alive, now, retention_time) {
                dropped.push(hash);
                proof {
                    dropped_from = dropped_from.push(index);
                    assert(dropped_from[dropped_before.len() as int] == index);
                    assert forall|j: int| dropped_before.contains(j) implies dropped_from.contains(
                        j,
                    ) by {
                        let k = dropped_before.index_of(j);
                        assert(dropped_from[k] == j);
                    }
                }
            } else {
                self.entries.push((hash, pooled));
                proof {
                    kept_from = kept_from.push(index);
                    assert(kept_from[kept_before.len() as int] == index);
                    assert forall|j: int| kept_before.contains(j) implies kept_from.contains(j) by {
                        let k = kept_before.index_of(j);
                        assert(kept_from[k] == j);
                    }
                }
            }
        }
        proof {
            assert(self.wf()) by {
                assert forall|i: int, j: int| 0 <= i < j < self.entries@.len() implies (
                #[trigger] self.entries@[i]).0@ != (#[trigger] self.entries@[j]).0@ by {
                    assert(kept_from[i] < kept_from[j]);
                }
            }
            assert forall|i: int, j: int| 0 <= i < j < dropped@.len() implies (
            #[trigger] dropped@[i])@ != (#[trigger] dropped@[j])@ by {
                assert(dropped_from[i] < dropped_from[j]);
            }
            assert forall|key: ConfigKey| #[trigger] self@.contains_key(key) implies
                before@.contains_key(key) && !before@[key].is_obsolete(alive@, now, retention_time)
                && self@[key] == before@[key] by {
                let k = self.position(key);
                assert(self.has(key) && self.entries@[k].0@ == key);
                entry_is_in_view(*self, k);
                entry_is_in_view(before, kept_from[k]);
            }
            assert forall|key: ConfigKey| #[trigger] before@.contains_key(key) implies if before@[
                key
            ].is_obsolete(alive@, now, retention_time) {
                exists|i: int| 0 <= i < dropped@.len() && #[trigger] dropped@[i]@ == key
            } else {
                self@.contains_key(key)
            } by {
                let j = before.position(key);
                assert(before.has(key) && before.entries@[j].0@ == key);
                entry_is_in_view(before, j);
                if before@[key].is_obsolete(alive@, now, retention_time) {
                    let k = dropped_from.index_of(j);
                    assert(dropped_from[k] == j);
                    assert(dropped@[k]@ == key);
                } else {
                    let k = kept_from.index_of(j);
                    assert(kept_from[k] == j);
                    entry_is_in_view(*self, k);
                }
            }
            assert forall|key: ConfigKey, i: int| 0 <= i < dropped@.len() && #[trigger] dropped@[i]@
                == key implies #[trigger] before@.contains_key(key) && before@[key].is_obsolete(
                alive@,
                now,
                retention_time,
            ) by {
                entry_is_in_view(before, dropped_from[i]);
            }
        }
        dropped
    }
}

proof fn replacing_keeps_others<P>(before: ProcessMap<P>, after: ProcessMap<P>, i: int)
    requires
        before.wf(),
        0 <= i < before.entries@.len(),
        after.entries@.len() == before.entries@.len(),
        after.entries@[i].0@ == before.entries@[i].0@,
        forall|j: int|
            0 <= j < before.entries@.len() && j != i ==> #[trigger] after.entries@[j]
                == before.entries@[j],
    ensures
        after.wf(),
        after@ == before@.insert(before.entries@[i].0@, after.entries@[i].1),
{
    let key = before.entries@[i].0@;
    let expected = before@.insert(key, after.entries@[i].1);
    assert forall|j: int| 0 <= j < after.entries@.len() implies (#[trigger] after.entries@[j]).0@
        == before.entries@[j].0@ by {}
    assert(after.wf());
    entry_is_in_view(after, i);
    assert forall|other: ConfigKey|
        #![trigger after@.dom().contains(other)]
        #![trigger expected.dom().contains(other)]
        after@.dom().contains(other) == expected.dom().contains(other) && (after@.dom().contains(
            other,
        ) ==> after@[other] == expected[other]) by {
        if other != key && after.has(other) {
            let j = after.position(other);
            assert(after.entries@[j].0@ == other);
            assert(before.entries@[j].0@ == other);
            entry_is_in_view(after, j);
            entry_is_in_view(before, j);
        }
        if other != key && before.has(other) {
            let j = before.position(other);
            assert(before.entries@[j].0@ == other);
            assert(after.entries@[j].0@ == other);
            entry_is_in_view(after, j);
            entry_is_in_view(before, j);
        }
    }
    assert(after@ =~= expected);
}

/// Loaders and editors that are kept for further requests
pub struct Pool<L, E> {
    pub loaders: ProcessMap<L>,
    pub editors: ProcessMap<E>,
    /// In nanoseconds
    pub loader_retention_time: u64,
}

/// What a request for a process leads to
pub enum ProcessRequest<P> {
    /// A process that is kept can be used
    Existing(Arc<P>),
    /// A new process has to be started
    Spawn(ConfigEntryHash),
}

/// Whether a request for a process can lead to `outcome`, by what
/// `disconnected` says of the process that is kept
///
/// A process is used again as long as it is connected.
pub open spec fn is_answer<P, F: Fn(&P) -> bool>(
    processes: ProcessMap<P>,
    key: ConfigKey,
    disconnected: F,
    outcome: ProcessRequest<P>,
) -> bool {
    match outcome {
        ProcessRequest::Existing(process) => {
            &&& processes@.contains_key(key)
            &&& process == processes@[key].process
            &&& call_ensures(disconnected, (&*process,), false)
        },
        ProcessRequest::Spawn(config_hash) => {
            &&& config_hash@ == key
            &&& processes@.contains_key(key) ==> call_ensures(
                disconnected,
                (&*processes@[key].process,),
                true,
            )
        },
    }
}

impl<L, E> Pool<L, E> {
    /// Both kinds of processes are kept once for the same requests
    pub open spec fn wf(self) -> bool {
        self.loaders.wf() && self.editors.wf()
    }

    /// A pool without any processes
    pub fn new() -> (r: Self)
        ensures
            r.wf(),
            r.loaders@ == Map::<ConfigKey, PooledProcess<L>>::empty(),
            r.editors@ == Map::<ConfigKey, PooledProcess<E>>::empty(),
            r.loader_retention_time == LOADER_RETENTION_TIME,
            r.loader_retention_time == 60000000000,
    {
        Pool {
            loader_retention_time: LOADER_RETENTION_TIME,
            loaders: ProcessMap::new(),
            editors: ProcessMap::new(),
        }
    }

    /// Look for a loader that is kept
    pub fn get_loader<F: Fn(&L) -> bool>(
        &self,
        loader_config: ImageLoaderConfig,
        sandbox_mechanism: SandboxMechanism,
        base_dir: Option<PathBuf>,
        disconnected: F,
    ) -> (r: ProcessRequest<L>)
        requires
            self.wf(),
            forall|process: &L| #[trigger] call_requires(disconnected, (process,)),
        ensures
            is_answer(
                self.loaders,
                ConfigEntry::Loader(loader_config).key(
                    crate::config::path_bytes(base_dir),
                    sandbox_mechanism,
                ),
                disconnected,
                r,
            ),
    {
        self.get_process(
            &self.loaders,
            &ConfigEntry::Loader(loader_config),
            sandbox_mechanism,
            base_dir,
            disconnected,
        )
    }

    /// Look for an editor that is kept
    pub fn get_editor<F: Fn(&E) -> bool>(
        &self,
        editor_config: ImageEditorConfig,
        sandbox_mechanism: SandboxMechanism,
        base_dir: Option<PathBuf>,
        disconnected: F,
    ) -> (r: ProcessRequest<E>)
        requires
            self.wf(),
            forall|process: &E| #[trigger] call_requires(disconnected, (process,)),
        ensures
            is_answer(
                self.editors,
                ConfigEntry::Editor(editor_config).key(
                    crate::config::path_bytes(base_dir),
                    sandbox_mechanism,
                ),
                disconnected,
                r,
            ),
    {
        self.get_process(
            &self.editors,
            &ConfigEntry::Editor(editor_config),
            sandbox_mechanism,
            base_dir,
            disconnected,
        )
    }

    /// First step of getting a process: look for one that is kept
    ///
    /// A process that is disconnected is not used any more.
    pub fn get_process<P, F: Fn(&P) -> bool>(
        &self,
        pooled_processes: &ProcessMap<P>,
        config: &ConfigEntry,
        sandbox_mechanism: SandboxMechanism,
        base_dir: Option<PathBuf>,
        disconnected: F,
    ) -> (r: ProcessRequest<P>)
        requires
            pooled_processes.wf(),
            forall|process: &P| #[trigger] call_requires(disconnected, (process,)),
        ensures
            is_answer(
                *pooled_processes,
                config.key(crate::config::path_bytes(base_dir), sandbox_mechanism),
                disconnected,
                r,
            ),
    {
        let config_hash = config.hash_value(base_dir, sandbox_mechanism);

        if let Some(pooled) = pooled_processes.get(&config_hash) {
            if !disconnected(&*pooled.process) {
                return ProcessRequest::Existing(pooled.process.clone());
            }
        }

        ProcessRequest::Spawn(config_hash)
    }

    /// Second step of getting a process: keep the one that was started
    ///
    /// `process` is `None` if the request was canceled before a process was
    /// started.
    pub fn add_process<P>(
        pooled_processes: &mut ProcessMap<P>,
        config_hash: ConfigEntryHash,
        process: Option<Result<P, GlycinError>>,
        alive: UserId,
        now: u64,
    ) -> (r: Result<Arc<P>, GlycinError>)
        requires
            old(pooled_processes).wf(),
        ensures
            final(pooled_processes).wf(),
            match (process, r) {
                (Some(Ok(process)), Ok(kept)) => {
                    &&& *kept == process
                    &&& final(pooled_processes)@.contains_key(config_hash@)
                    &&& final(pooled_processes)@ == old(pooled_processes)@.insert(
                        config_hash@,
                        final(pooled_processes)@[config_hash@],
                    )
                    &&& final(pooled_processes)@[config_hash@].last_use == now
                    &&& final(pooled_processes)@[config_hash@].process == kept
                    &&& final(pooled_processes)@[config_hash@].users@ == seq![alive]
                },
                (Some(Err(error)), Err(returned)) => returned == error && final(pooled_processes)@
                    == old(pooled_processes)@,
                (None, Err(returned)) => returned == GlycinError::Canceled(None)
                    && final(pooled_processes)@ == old(pooled_processes)@,
                _ => false,
            },
    {
        match process {
            None => Err(GlycinError::Canceled(None)),
            Some(Err(error)) => Err(error),
            Some(Ok(process)) => {
                let process = Arc::new(process);
                let users: Vec<UserId> = vec![alive];
                assert(users@ =~= seq![alive]);
                pooled_processes.insert(
                    config_hash,
                    PooledProcess { last_use: now, process: process.clone(), users },
                );
                Ok(process)
            },
        }
    }

    /// Drop the loaders that are not needed any more and return what requests
    /// they were for
    pub fn clean_loaders(&mut self, alive: &Vec<UserId>, now: u64) -> (r: Vec<ConfigEntryHash>)
        requires
            old(self).wf(),
        ensures
            final(self).wf(),
            final(self).editors == old(self).editors,
            final(self).loader_retention_time == old(self).loader_retention_time,
            forall|key: ConfigKey| #[trigger]
                final(self).loaders@.contains_key(key) <==> old(self).loaders@.contains_key(key)
                    && !old(self).loaders@[key].is_obsolete(
                    alive@,
                    now,
                    old(self).loader_retention_time,
                ),
            forall|key: ConfigKey| #[trigger]
                final(self).loaders@.contains_key(key) ==> final(self).loaders@[key] == old(
                    self,
                ).loaders@[key],
            forall|key: ConfigKey, i: int, j: int|
                #![trigger old(self).loaders@[key].users@[i], alive@[j]]
                {
                    &&& old(self).loaders@.contains_key(key)
                    &&& 0 <= i < old(self).loaders@[key].users@.len()
                    &&& 0 <= j < alive@.len()
                    &&& old(self).loaders@[key].users@[i] == alive@[j]
                } ==> final(self).loaders@.contains_key(key),
            forall|key: ConfigKey|
                (exists|i: int| 0 <= i < r@.len() && #[trigger] r@[i]@ == key) <==> (#[trigger] old(
                    self,
                ).loaders@.contains_key(key) && old(self).loaders@[key].is_obsolete(
                    alive@,
                    now,
                    old(self).loader_retention_time,
                )),
            forall|i: int, j: int|
                0 <= i < j < r@.len() ==> (#[trigger] r@[i])@ != (#[trigger] r@[j])@,
    {
        let retention_time = self.loader_retention_time;
        self.loaders.retain_needed(alive, now, retention_time)
    }
}

/// A process that is kept and connected is used for every request that has in
/// common with it what is needed: no further one is started.
pub proof fn kept_process_is_used_again<P, F: Fn(&P) -> bool>(
    processes: ProcessMap<P>,
    key: ConfigKey,
    disconnected: F,
    outcome: ProcessRequest<P>,
)
    requires
        is_answer(processes, key, disconnected, outcome),
        processes@.contains_key(key),
        !call_ensures(disconnected, (&*processes@[key].process,), true),
    ensures
        outcome == ProcessRequest::Existing(processes@[key].process),
{
}

/// A new process is started if none is kept, or if the one that is kept is
/// disconnected.
pub proof fn disconnected_process_is_not_used<P, F: Fn(&P) -> bool>(
    processes: ProcessMap<P>,
    key: ConfigKey,
    disconnected: F,
    outcome: ProcessRequest<P>,
)
    requires
        is_answer(processes, key, disconnected, outcome),
        processes@.contains_key(key) ==> !call_ensures(
            disconnected,
            (&*processes@[key].process,),
            false,
        ),
    ensures
        outcome matches ProcessRequest::Spawn(config_hash) && config_hash@ == key,
{
}

/// Requests share a process only if they are for the same program, in the same
/// kind of sandbox and with the same directory exposed.
pub proof fn base_dirs_are_not_shared(
    one: ConfigEntry,
    other: ConfigEntry,
    base_dir: Option<Seq<u8>>,
    other_base_dir: Option<Seq<u8>>,
    mechanism: SandboxMechanism,
    other_mechanism: SandboxMechanism,
)
    requires
        one.key(base_dir, mechanism) == other.key(other_base_dir, other_mechanism),
    ensures
        base_dir == other_base_dir,
        mechanism == other_mechanism,
        one.program() == other.program(),
        one.uses_fontconfig() == other.uses_fontconfig(),
{
}

/// Nothing is found that is not an entry.
pub proof fn only_entries_are_in_view<P>(map: ProcessMap<P>, key: ConfigKey) -> (i: int)
    requires
        map@.contains_key(key),
    ensures
        0 <= i < map.entries@.len(),
        map.entries@[i].0@ == key,
        map.entries@[i].1 == map@[key],
{
    assert(map.has(key));
    map.position(key)
}

/// A process is not dropped as long as one of its users is alive, whatever the
/// time is and wherever the user stands in either list.
pub proof fn process_with_living_user_is_kept<P>(
    pooled: PooledProcess<P>,
    alive: Seq<UserId>,
    i: int,
    j: int,
    now: u64,
    retention_time: u64,
)
    requires
        0 <= i < pooled.users@.len(),
        0 <= j < alive.len(),
        pooled.users@[i] == alive[j],
    ensures
        !pooled.is_obsolete(alive, now, retention_time),
{
    assert(alive.contains(pooled.users@[i]));
}

/// A process none of whose users is alive is dropped exactly if it was last used
/// longer ago than the retention time.
pub proof fn process_without_living_user_is_dropped_in_time<P>(
    pooled: PooledProcess<P>,
    alive: Seq<UserId>,
    now: u64,
    retention_time: u64,
)
    requires
        forall|i: int, j: int|
            0 <= i < pooled.users@.len() && 0 <= j < alive.len() ==> #[trigger] pooled.users@[i]
                != #[trigger] alive[j],
    ensures
        pooled.is_obsolete(alive, now, retention_time) <==> pooled.last_use + retention_time < now,
{
    assert forall|i: int| 0 <= i < pooled.users@.len() implies !alive.contains(
        #[trigger] pooled.users@[i],
    ) by {
        if alive.contains(pooled.users@[i]) {
            let j = alive.index_of(pooled.users@[i]);
            assert(alive[j] == pooled.users@[i]);
        }
    }
}

/// A process that has a living user, or that was used within the retention
/// time, is never dropped.
pub proof fn needed_process_is_kept<P>(
    pooled: PooledProcess<P>,
    alive: Seq<UserId>,
    now: u64,
    retention_time: u64,
)
    requires
        pooled.has_user(alive) || now <= pooled.last_use + retention_time,
    ensures
        !pooled.is_obsolete(alive, now, retention_time),
{
}

/// A process without a living user is dropped once it has not been used for
/// longer than the retention time, and stays obsolete until it is used again.
pub proof fn unused_process_becomes_obsolete<P>(
    pooled: PooledProcess<P>,
    alive: Seq<UserId>,
    now: u64,
    later: u64,
    retention_time: u64,
)
    requires
        !pooled.has_user(alive),
        pooled.last_use + retention_time < now <= later,
    ensures
        pooled.is_obsolete(alive, now, retention_time),
        pooled.is_obsolete(alive, later, retention_time),
{
}

} // verus!
