use vstd::prelude::*;

use crate::error::{combine, first_failure, Error, Result};
use crate::library::{
    bootstrap, bootstrapped, copied, has_creation, needs_reload, next_generation,
    next_generation_spec, opened, remove_hrl_files, removed_both, slot_path, slot_path_of, swap_module,
    ChangeEvent, CopyOutcome, Generation, OpenOutcome,
};

verus! {

/// A module reloaded only when its owner asks, from a single thread.
///
/// A module obtained before a reload must not be used after it: the old
/// module is dropped when the new one is installed.
pub struct HotReloadLibrary {
    lib: Option<libloading::Library>,
    loaded: Generation,
    watch_path: String,
}

impl HotReloadLibrary {
    /// The module in use, if any.
    pub closed spec fn active(&self) -> Option<libloading::Library> {
        self.lib
    }

    /// The generation whose file the module in use was loaded from.
    pub closed spec fn loaded_generation(&self) -> Generation {
        self.loaded
    }

    /// The watched path.
    pub closed spec fn watched(&self) -> Seq<char> {
        self.watch_path@
    }

    /// One reload attempt from `pre` to `post` that answered `r`: the other
    /// generation is copied from the watched path and loaded; only when both
    /// succeed does the new module, with its generation, replace the old one.
    pub open spec fn reloaded<C, O>(pre: Self, post: Self, copy: C, open: O, r: Result<()>) -> bool where
        C: Fn(&str, &str) -> CopyOutcome,
        O: Fn(&str) -> OpenOutcome,
     {
        let target = slot_path_of(pre.watched(), pre.loaded_generation().other());
        exists|cr: CopyOutcome|
            {
                &&& #[trigger] copied(copy, pre.watched(), target, cr)
                &&& match cr {
                    Err(e) => r == Err::<(), Error>(Error::IoFailure(e)) && post == pre,
                    Ok(_) => exists|lr: OpenOutcome|
                        {
                            &&& #[trigger] opened(open, target, lr)
                            &&& match lr {
                                Err(e) => r == Err::<(), Error>(Error::LoadLibraryError(e))
                                    && post == pre,
                                Ok(lib) => r is Ok && post.active() == Some(lib)
                                    && post.loaded_generation() == pre.loaded_generation().other()
                                    && post.watched() == pre.watched(),
                            }
                        },
                }
            }
    }

    /// A teardown from `pre` to `post` that answered `r`: the module in use,
    /// if any, was unloaded, and both generation files were deleted; both
    /// steps were attempted and the first failure is reported. No module
    /// remains; when there was none, nothing else changes and unloading
    /// cannot fail.
    pub open spec fn closed_down<F: Fn(&str) -> Result<()>>(
        pre: Self,
        post: Self,
        remove_file: F,
        r: Result<()>,
    ) -> bool {
        &&& post.active() is None
        &&& post.loaded_generation() == pre.loaded_generation()
        &&& post.watched() == pre.watched()
        &&& pre.active() is None ==> post == pre
        &&& exists|unloaded: Result<()>, deleted: Result<()>|
            {
                &&& #[trigger] removed_both(remove_file, pre.watched(), deleted)
                &&& r == #[trigger] first_failure(unloaded, deleted)
                &&& pre.active() is None ==> unloaded is Ok
                &&& unloaded is Err ==> unloaded->Err_0 is LoadLibraryError
            }
    }

    /// A successful reload moves to the other generation, the one that
    /// `next_generation` names, and loads the module from that generation's
    /// file.
    pub proof fn lemma_reload_alternates<C, O>(pre: Self, post: Self, copy: C, open: O, r: Result<()>)
        where
            C: Fn(&str, &str) -> CopyOutcome,
            O: Fn(&str) -> OpenOutcome,

        requires
            Self::reloaded(pre, post, copy, open, r),
            r is Ok,
        ensures
            post.loaded_generation() == next_generation_spec(Some(pre.loaded_generation())),
            post.loaded_generation() != pre.loaded_generation(),
            post.watched() == pre.watched(),
            exists|lib: libloading::Library|
                {
                    &&& post.active() == Some(lib)
                    &&& #[trigger] opened(
                        open,
                        slot_path_of(pre.watched(), post.loaded_generation()),
                        Ok::<libloading::Library, libloading::Error>(lib),
                    )
                },
    {
    }

    /// Closing twice is harmless: the second teardown finds no module,
    /// unloads nothing, changes nothing, and only repeats the deletions of
    /// the generation files, which are then absent.
    pub proof fn lemma_close_idempotent<F: Fn(&str) -> Result<()>>(
        first: Self,
        mid: Self,
        last: Self,
        remove_file: F,
        r1: Result<()>,
        r2: Result<()>,
    )
        requires
            Self::closed_down(first, mid, remove_file, r1),
            Self::closed_down(mid, last, remove_file, r2),
        ensures
            last == mid,
            last.active() is None,
            removed_both(remove_file, first.watched(), r2),
    {
    }

    /// Copies the watched file into generation `A` and loads that copy.
    ///
    /// `is_file` tells whether a path names a regular file, `copy` copies a
    /// file onto another, and `open` loads a file as a module.
    pub fn load<E, C, O>(path: &str, is_file: E, copy: C, open: O) -> (r: Result<Self>) where
        E: Fn(&str) -> bool,
        C: Fn(&str, &str) -> CopyOutcome,
        O: Fn(&str) -> OpenOutcome,

        requires
            forall|p: &str| is_file.requires((p,)),
            forall|a: &str, b: &str| copy.requires((a, b)),
            forall|p: &str| open.requires((p,)),
        ensures
            exists|first: Result<libloading::Library>|
                {
                    &&& bootstrapped(is_file, copy, open, path@, first)
                    &&& match first {
                        Err(e) => r == Err::<Self, Error>(e),
                        Ok(lib) => r is Ok && r->Ok_0.active() == Some(lib)
                            && r->Ok_0.loaded_generation() == Generation::A
                            && r->Ok_0.watched() == path@,
                    }
                },
    {
        let first = bootstrap(path, is_file, copy, open);
        match first {
            Err(e) => Err(e),
            Ok(lib) => Ok(
                HotReloadLibrary { lib: Some(lib), loaded: Generation::A, watch_path: path.to_string() },
            ),
        }
    }

    /// Reloads the module from the other generation, whatever the pending
    /// events. On failure the module in use stays as it was.
    ///
    /// The previous module is not unloaded first: it is dropped when the new
    /// one takes its place.
    pub fn force_reload<C, O>(&mut self, copy: C, open: O) -> (r: Result<()>) where
        C: Fn(&str, &str) -> CopyOutcome,
        O: Fn(&str) -> OpenOutcome,

        requires
            forall|a: &str, b: &str| copy.requires((a, b)),
            forall|p: &str| open.requires((p,)),
        ensures
            Self::reloaded(*old(self), *final(self), copy, open, r),
    {
        let next = next_generation(Some(self.loaded));
        let target = slot_path(self.watch_path.as_str(), next);
        let cr = copy(self.watch_path.as_str(), target.as_str());
        assert(copied(copy, self.watched(), slot_path_of(self.watched(), self.loaded.other()), cr));
        match cr {
            Err(e) => Err(Error::IoFailure(e)),
            Ok(()) => {
                let lr = open(target.as_str());
                assert(opened(open, target@, lr));
                match lr {
                    Err(e) => Err(Error::LoadLibraryError(e)),
                    Ok(lib) => {
                        self.lib = Some(lib);
                        self.loaded = next;
                        Ok(())
                    },
                }
            },
        }
    }

    /// Reloads when the drained `events` hold a creation of the watched file;
    /// otherwise does nothing. The caller hands over every event buffered so
    /// far, ignored ones included, so that the buffer does not grow.
    pub fn reload<C, O>(&mut self, events: &Vec<ChangeEvent>, copy: C, open: O) -> (r: Result<
        (),
    >) where
        C: Fn(&str, &str) -> CopyOutcome,
        O: Fn(&str) -> OpenOutcome,

        requires
            forall|a: &str, b: &str| copy.requires((a, b)),
            forall|p: &str| open.requires((p,)),
        ensures
            !has_creation(events@) ==> r is Ok && *final(self) == *old(self),
            has_creation(events@) ==> Self::reloaded(*old(self), *final(self), copy, open, r),
    {
        if needs_reload(events) {
            self.force_reload(copy, open)
        } else {
            Ok(())
        }
    }

    /// The module in use, to resolve symbols against. What is resolved from it
    /// stays valid until the next reload.
    pub fn library(&self) -> (r: Result<&libloading::Library>)
        ensures
            match self.active() {
                Some(lib) => r == Ok::<&libloading::Library, Error>(&lib),
                None => r is Err && r->Err_0 is LibraryUnloaded,
            },
    {
        match &self.lib {
            Some(lib) => Ok(lib),
            None => Err(Error::LibraryUnloaded),
        }
    }

    /// Unloads the module in use, if any, and deletes both generation files
    /// through `remove_file`, attempting both and reporting the first failure.
    /// Afterwards no module is in use, so a second call unloads nothing.
    pub fn close_ref<F: Fn(&str) -> Result<()>>(&mut self, remove_file: F) -> (r: Result<()>)
        requires
            forall|p: &str| remove_file.requires((p,)),
        ensures
            Self::closed_down(*old(self), *final(self), remove_file, r),
    {
        let unloaded = swap_module(&mut self.lib, None);
        let deleted = remove_hrl_files(self.watch_path.as_str(), remove_file);
        let r = combine(unloaded, deleted);
        assert(removed_both(remove_file, old(self).watched(), deleted));
        r
    }

    /// Tears the coordinator down: see `close_ref`.
    pub fn close<F: Fn(&str) -> Result<()>>(self, remove_file: F) -> (r: Result<()>)
        requires
            forall|p: &str| remove_file.requires((p,)),
        ensures
            exists|post: Self| Self::closed_down(self, post, remove_file, r),
    {
        let mut this = self;
        this.close_ref(remove_file)
    }
}

} // verus!
