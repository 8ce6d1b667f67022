use std::sync::Arc;
use vstd::prelude::*;
use vstd::rwlock::{RwLock, RwLockPredicate};

use crate::error::{combine, first_failure, Error, Result};
use crate::library::{
    bootstrap, bootstrapped, copied, next_generation, opened, remove_hrl_files, removed_both,
    slot_path,    slot_path_of, swap_module, ChangeEvent, CopyOutcome, Generation, OpenOutcome,
};

verus! {

/// The notifier's watch subscription on Linux.
#[verifier::external_type_specification]
#[verifier::external_body]
pub struct ExWatcher(notify::INotifyWatcher);

/// Relies on `notify::Watcher::unwatch`: stops delivering events for `path`;
/// it may fail.
#[verifier::external_body]
fn unwatch(watcher: &mut notify::RecommendedWatcher, path: &str) -> core::result::Result<
    (),
    notify::Error,
> {
    notify::Watcher::unwatch(watcher, std::path::Path::new(path))
}

/// The slot may hold a module or nothing.
pub struct AnyModule;

impl RwLockPredicate<Option<libloading::Library>> for AnyModule {
    open spec fn inv(self, v: Option<libloading::Library>) -> bool {
        true
    }
}

/// What `op` makes of the slot content `content`, as reported by `r`:
/// `LibraryUnloaded` on an empty slot, else the outcome of `op` on the module,
/// a resolution failure becoming `LoadSymbolError`.
pub open spec fn accessed<R, F>(content: Option<libloading::Library>, op: F, r: Result<R>) -> bool where
    F: FnOnce(&libloading::Library) -> core::result::Result<R, libloading::Error>,
 {
    match content {
        None => r is Err && r->Err_0 is LibraryUnloaded,
        Some(lib) => exists|res: core::result::Result<R, libloading::Error>|
            {
                &&& #[trigger] op.ensures((&lib,), res)
                &&& match res {
                    Ok(v) => r == Ok::<R, Error>(v),
                    Err(e) => r == Err::<R, Error>(Error::LoadSymbolError(e)),
                }
            },
    }
}

/// Runs `op` on the module in `content`, if there is one.
pub fn access_module<R, F>(content: &Option<libloading::Library>, op: F) -> (r: Result<R>) where
    F: FnOnce(&libloading::Library) -> core::result::Result<R, libloading::Error>,

    requires
        forall|l: &libloading::Library| op.requires((l,)),
    ensures
        accessed(*content, op, r),
{
    match content {
        None => Err(Error::LibraryUnloaded),
        Some(lib) => {
            let res = op(lib);
            assert(op.ensures((lib,), res));
            match res {
                Ok(v) => Ok(v),
                Err(e) => Err(Error::LoadSymbolError(e)),
            }
        },
    }
}

/// The module in use, shared between callers and the reload worker behind a
/// reader/writer lock. Readers hold the lock for a whole symbol operation;
/// the worker holds it exclusively only to swap the content.
pub struct ModuleSlot {
    lock: RwLock<Option<libloading::Library>, AnyModule>,
}

impl ModuleSlot {
    pub fn new(lib: libloading::Library) -> (r: ModuleSlot) {
        ModuleSlot { lock: RwLock::new(Some(lib), Ghost(AnyModule)) }
    }

    /// Runs `op` on the module in use while holding shared access, so that no
    /// swap can happen between resolving a symbol and using it: `op` sees one
    /// content of the slot from start to end.
    pub fn symbol_op<R, F>(&self, op: F) -> (r: Result<R>) where
        F: FnOnce(&libloading::Library) -> core::result::Result<R, libloading::Error>,

        requires
            forall|l: &libloading::Library| op.requires((l,)),
        ensures
            exists|content: Option<libloading::Library>| accessed(content, op, r),
    {
        let handle = self.lock.acquire_read();
        let r = access_module(handle.borrow(), op);
        handle.release_read();
        r
    }

    /// Replaces the content with `candidate` under exclusive access, after
    /// unloading the module it held, if any, in the same exclusive step. An
    /// unload failure is dropped: the worker has nobody to report it to.
    pub fn install(&self, candidate: Option<libloading::Library>) {
        let (mut content, handle) = self.lock.acquire_write();
        let _ = swap_module(&mut content, candidate);
        handle.release_write(content);
    }

    /// Empties the slot under exclusive access and unloads what it held.
    pub fn clear(&self) -> (r: Result<()>)
        ensures
            r is Err ==> r->Err_0 is LoadLibraryError,
    {
        let (mut content, handle) = self.lock.acquire_write();
        let r = swap_module(&mut content, None);
        handle.release_write(content);
        r
    }
}

/// The background reload state: which generation was written last, and the
/// slot that reloads go into.
pub struct ReloadWorker {
    watch_path: String,
    current: Generation,
    slot: Arc<ModuleSlot>,
}

impl ReloadWorker {
    /// The generation targeted by the last reload attempt.
    pub closed spec fn current_generation(&self) -> Generation {
        self.current
    }

    /// The watched path.
    pub closed spec fn watched(&self) -> Seq<char> {
        self.watch_path@
    }

    /// One reload attempt prepared from `pre` to `post`, whose result is
    /// `candidate`: the worker moves to the other generation, copies the
    /// watched file there and loads it; the candidate is the new module when
    /// both steps succeed, and nothing otherwise.
    pub open spec fn prepared<C, O>(
        pre: Self,
        post: Self,
        copy: C,
        open: O,
        candidate: Option<libloading::Library>,
    ) -> bool where
        C: Fn(&str, &str) -> CopyOutcome,
        O: Fn(&str) -> OpenOutcome,
     {
        let target = slot_path_of(pre.watched(), pre.current_generation().other());
        &&& post.watched() == pre.watched()
        &&& post.current_generation() == pre.current_generation().other()
        &&& exists|cr: CopyOutcome|
            {
                &&& #[trigger] copied(copy, pre.watched(), target, cr)
                &&& cr is Err ==> candidate is None
                &&& cr is Ok ==> exists|lr: OpenOutcome|
                    #[trigger] opened(open, target, lr) && candidate == lr.ok()
            }
    }

    pub fn new(watch_path: &str, slot: Arc<ModuleSlot>) -> (r: ReloadWorker)
        ensures
            r.watched() == watch_path@,
            r.current_generation() == Generation::A,
    {
        ReloadWorker { watch_path: watch_path.to_string(), current: Generation::A, slot }
    }

    /// Moves to the other generation, copies the watched file there and loads
    /// it, all outside the lock. The result is what the slot must hold next:
    /// the new module, or nothing when either step failed.
    pub fn prepare_reload<C, O>(&mut self, copy: C, open: O) -> (r: Option<libloading::Library>) where
        C: Fn(&str, &str) -> CopyOutcome,
        O: Fn(&str) -> OpenOutcome,

        requires
            forall|a: &str, b: &str| copy.requires((a, b)),
            forall|p: &str| open.requires((p,)),
        ensures
            Self::prepared(*old(self), *final(self), copy, open, r),
    {
        self.current = next_generation(Some(self.current));
        let target = slot_path(self.watch_path.as_str(), self.current);
        let cr = copy(self.watch_path.as_str(), target.as_str());
        assert(copied(copy, self.watched(), slot_path_of(self.watched(), self.current), cr));
        match cr {
            Err(_) => None,
            Ok(()) => {
                let lr = open(target.as_str());
                assert(opened(open, slot_path_of(self.watched(), self.current), lr));
                lr.ok()
            },
        }
    }

    /// Handles one event: a creation triggers one reload attempt whose result
    /// replaces the slot's content; any other event is ignored.
    pub fn on_event<C, O>(&mut self, event: ChangeEvent, copy: C, open: O) where
        C: Fn(&str, &str) -> CopyOutcome,
        O: Fn(&str) -> OpenOutcome,

        requires
            forall|a: &str, b: &str| copy.requires((a, b)),
            forall|p: &str| open.requires((p,)),
        ensures
            event == ChangeEvent::Ignored ==> *final(self) == *old(self),
            event == ChangeEvent::Created ==> exists|candidate: Option<libloading::Library>|
                Self::prepared(*old(self), *final(self), copy, open, candidate),
    {
        match event {
            ChangeEvent::Created => {
                let candidate = self.prepare_reload(copy, open);
                assert(Self::prepared(*old(self), *self, copy, open, candidate));
                self.slot.install(candidate);
            },
            ChangeEvent::Ignored => {},
        }
    }
}

/// A module reloaded in the background whenever a new version of the watched
/// file appears; callers reach it only through `symbol_op`.
pub struct AutoHotReloadLibrary {
    lib: Arc<ModuleSlot>,
    watch_path: String,
    watcher: Option<notify::RecommendedWatcher>,
}

impl AutoHotReloadLibrary {
    /// The watched path.
    pub closed spec fn watched(&self) -> Seq<char> {
        self.watch_path@
    }

    /// Whether the watch subscription is still running.
    pub closed spec fn watching(&self) -> bool {
        self.watcher is Some
    }

    /// Copies the watched file into generation `A`, loads it, and hands a
    /// reload worker bound to the new module's slot to `watch`, which starts
    /// watching `path` and feeds each event to the worker. Any failure aborts
    /// construction with its own error.
    pub fn load<E, C, O, W>(path: &str, is_file: E, copy: C, open: O, watch: W) -> (r: Result<
        Self,
    >) where
        E: Fn(&str) -> bool,
        C: Fn(&str, &str) -> CopyOutcome,
        O: Fn(&str) -> OpenOutcome,
        W: FnOnce(&str, ReloadWorker) -> core::result::Result<notify::RecommendedWatcher, notify::Error>,

        requires
            forall|p: &str| is_file.requires((p,)),
            forall|a: &str, b: &str| copy.requires((a, b)),
            forall|p: &str| open.requires((p,)),
            forall|p: &str, w: ReloadWorker| watch.requires((p, w)),
        ensures
            exists|first: Result<libloading::Library>|
                {
                    &&& bootstrapped(is_file, copy, open, path@, first)
                    &&& match first {
                        Err(e) => r == Err::<Self, Error>(e),
                        Ok(_) => exists|
                            p: &str,
                            worker: ReloadWorker,
                            res: core::result::Result<notify::RecommendedWatcher, notify::Error>,
                        |
                            {
                                &&& #[trigger] watch.ensures((p, worker), res)
                                &&& p@ == path@
                                &&& worker.watched() == path@
                                &&& worker.current_generation() == Generation::A
                                &&& match res {
                                    Ok(_) => r is Ok && r->Ok_0.watched() == path@
                                        && r->Ok_0.watching(),
                                    Err(e) => r == Err::<Self, Error>(Error::FileWatcherError(e)),
                                }
                            },
                    }
                },
    {
        let first = bootstrap(path, is_file, copy, open);
        match first {
            Err(e) => Err(e),
            Ok(module) => {
                let slot = Arc::new(ModuleSlot::new(module));
                let worker = ReloadWorker::new(path, slot.clone());
                let ghost handed = worker;
                let res = watch(path, worker);
                assert(watch.ensures((path, handed), res));
                match res {
                    Err(e) => Err(Error::FileWatcherError(e)),
                    Ok(watcher) => Ok(
                        AutoHotReloadLibrary {
                            lib: slot,
                            watch_path: path.to_string(),
                            watcher: Some(watcher),
                        },
                    ),
                }
            },
        }
    }

    /// Runs `op` on the module in use while no reload can swap it: see
    /// `ModuleSlot::symbol_op`. `LibraryUnloaded` after a failed reload, until
    /// a later one succeeds.
    pub fn symbol_op<R, F>(&self, op: F) -> (r: Result<R>) where
        F: FnOnce(&libloading::Library) -> core::result::Result<R, libloading::Error>,

        requires
            forall|l: &libloading::Library| op.requires((l,)),
        ensures
            exists|content: Option<libloading::Library>| accessed(content, op, r),
    {
        self.lib.symbol_op(op)
    }

    /// Stops the watch subscription if it runs.
    fn stop_watcher(&mut self) -> (r: Result<()>)
        ensures
            !final(self).watching(),
            final(self).watched() == old(self).watched(),
            !old(self).watching() ==> r is Ok,
            r is Err ==> r->Err_0 is FileWatcherError,
    {
        match self.watcher.take() {
            Some(mut watcher) => match unwatch(&mut watcher, self.watch_path.as_str()) {
                Ok(()) => Ok(()),
                Err(e) => Err(Error::FileWatcherError(e)),
            },
            None => Ok(()),
        }
    }

    /// The teardown of `pre` answered `r`: the watch subscription was
    /// stopped, the slot emptied and its module unloaded, and both generation
    /// files deleted through `remove_file`; each step was attempted and the
    /// first failure is reported. Stopping fails only when a subscription ran,
    /// and only with `FileWatcherError`; unloading only with `LoadLibraryError`.
    pub open spec fn closed_down<F: Fn(&str) -> Result<()>>(pre: Self, remove_file: F, r: Result<()>) -> bool {
        exists|stopped: Result<()>, cleared: Result<()>, deleted: Result<()>|
            {
                &&& #[trigger] removed_both(remove_file, pre.watched(), deleted)
                &&& r == #[trigger] first_failure(stopped, first_failure(cleared, deleted))
                &&& !pre.watching() ==> stopped is Ok
                &&& stopped is Err ==> stopped->Err_0 is FileWatcherError
                &&& cleared is Err ==> cleared->Err_0 is LoadLibraryError
            }
    }

    /// Stops watching, empties the slot and unloads its module, and deletes
    /// both generation files through `remove_file`. Afterwards nothing is
    /// watched, so a second call stops nothing.
    pub fn close_ref<F: Fn(&str) -> Result<()>>(&mut self, remove_file: F) -> (r: Result<()>)
        requires
            forall|p: &str| remove_file.requires((p,)),
        ensures
            !final(self).watching(),
            final(self).watched() == old(self).watched(),
            Self::closed_down(*old(self), remove_file, r),
    {
        let stopped = self.stop_watcher();
        let cleared = self.lib.clear();
        let deleted = remove_hrl_files(self.watch_path.as_str(), remove_file);
        let r = combine(stopped, combine(cleared, deleted));
        assert(removed_both(remove_file, old(self).watched(), deleted));
        r
    }

    /// Tears the coordinator down: see `close_ref`.
    pub fn close<F: Fn(&str) -> Result<()>>(self, remove_file: F) -> (r: Result<()>)
        requires
            forall|p: &str| remove_file.requires((p,)),
        ensures
            Self::closed_down(self, remove_file, r),
    {
        let mut this = self;
        this.close_ref(remove_file)
    }
}

/// A reload whose copy step failed leaves the slot empty: the candidate is
/// nothing, and the swap puts the candidate in the slot. Every symbol
/// operation on the emptied slot then reports `LibraryUnloaded` without
/// running its operation, until a later reload fills the slot again.
pub proof fn lemma_failed_copy_degrades<C, O, R, F>(
    pre: ReloadWorker,
    post: ReloadWorker,
    copy: C,
    open: O,
    candidate: Option<libloading::Library>,
    slot_after: Option<libloading::Library>,
    op: F,
    r: Result<R>,
) where
    C: Fn(&str, &str) -> CopyOutcome,
    O: Fn(&str) -> OpenOutcome,
    F: FnOnce(&libloading::Library) -> core::result::Result<R, libloading::Error>,

    requires
        ReloadWorker::prepared(pre, post, copy, open, candidate),
        forall|x: CopyOutcome|
            #[trigger] copied(
                copy,
                pre.watched(),
                slot_path_of(pre.watched(), pre.current_generation().other()),
                x,
            ) ==> x is Err,
        slot_after == candidate,
        accessed(slot_after, op, r),
    ensures
        slot_after is None,
        r is Err && r->Err_0 is LibraryUnloaded,
{
}

impl AutoHotReloadLibrary {
    /// Closing again once nothing is watched stops nothing: the answer is
    /// that of emptying the slot and of deleting both generation files.
    pub proof fn lemma_second_close_stops_nothing<F: Fn(&str) -> Result<()>>(
        pre: Self,
        remove_file: F,
        r: Result<()>,
    )
        requires
            !pre.watching(),
            Self::closed_down(pre, remove_file, r),
        ensures
            exists|cleared: Result<()>, deleted: Result<()>|
                {
                    &&& #[trigger] removed_both(remove_file, pre.watched(), deleted)
                    &&& r == #[trigger] first_failure(cleared, deleted)
                    &&& cleared is Err ==> cleared->Err_0 is LoadLibraryError
                },
    {
    }
}

} // verus!
