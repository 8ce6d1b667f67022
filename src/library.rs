use vstd::prelude::*;

pub mod auto;
pub mod manual;

use crate::error::{combine, first_failure, Error, Result};

verus! {

/// A loaded module, as the dynamic-library loader hands it out.
#[verifier::external_type_specification]
#[verifier::external_body]
pub struct ExLibrary(libloading::Library);

/// Relies on `libloading::Library::close`: unloads the module; it may fail.
#[verifier::external_body]
pub(crate) fn unload(lib: libloading::Library) -> core::result::Result<(), libloading::Error> {
    lib.close()
}

/// Extension of the first generation file.
pub const HRL_EXT_A: &'static str = "hrla";
/// Extension of the second generation file.
pub const HRL_EXT_B: &'static str = "hrlb";

/// One of the two alternating shadow copies of the watched file.
#[derive(Clone, Copy, Debug, PartialEq, Eq, Structural)]
pub enum Generation {
    A,
    B,
}

impl Generation {
    /// The generation that is not this one.
    pub open spec fn other(self) -> Generation {
        match self {
            Generation::A => Generation::B,
            Generation::B => Generation::A,
        }
    }

    /// The extension that marks this generation's file.
    pub open spec fn ext(self) -> Seq<char> {
        match self {
            Generation::A => seq!['h', 'r', 'l', 'a'],
            Generation::B => seq!['h', 'r', 'l', 'b'],
        }
    }

    pub fn extension(self) -> (r: &'static str)
        ensures
            r@ == self.ext(),
    {
        proof {
            reveal_strlit("hrla");
            reveal_strlit("hrlb");
        }
        match self {
            Generation::A => HRL_EXT_A,
            Generation::B => HRL_EXT_B,
        }
    }
}

/// The generation a reload targets: the other one, or `A` when none is current.
pub open spec fn next_generation_spec(current: Option<Generation>) -> Generation {
    match current {
        Some(g) => g.other(),
        None => Generation::A,
    }
}

pub fn next_generation(current: Option<Generation>) -> (r: Generation)
    ensures
        r == next_generation_spec(current),
{
    match current {
        Some(Generation::A) => Generation::B,
        Some(Generation::B) => Generation::A,
        None => Generation::A,
    }
}

/// What `std::path::Path::with_extension` makes of a path and an extension.
pub uninterp spec fn with_extension_of(path: Seq<char>, ext: Seq<char>) -> Seq<char>;

/// No character of `ext` is a path separator.
pub open spec fn separator_free(ext: Seq<char>) -> bool {
    forall|i: int| 0 <= i < ext.len() ==> ext[i] != '/'
}

/// Relies on `std::path::Path::with_extension`: the path with its extension
/// replaced (or added); a path built from UTF-8 text stays UTF-8. It panics
/// on an extension holding a path separator, which `requires` rules out.
#[verifier::external_body]
fn with_extension(path: &str, ext: &str) -> (r: String)
    requires
        separator_free(ext@),
    ensures
        r@ == with_extension_of(path@, ext@),
{
    std::path::Path::new(path).with_extension(ext).to_string_lossy().into_owned()
}

/// Where a generation of the watched path lives on disk.
pub open spec fn slot_path_of(watch_path: Seq<char>, generation: Generation) -> Seq<char> {
    with_extension_of(watch_path, generation.ext())
}

pub fn slot_path(watch_path: &str, generation: Generation) -> (r: String)
    ensures
        r@ == slot_path_of(watch_path@, generation),
{
    let ext = generation.extension();
    assert(separator_free(ext@));
    with_extension(watch_path, ext)
}

/// `remove_file` was called on a path that reads as `path` and answered `res`.
pub open spec fn removed<F: Fn(&str) -> Result<()>>(
    remove_file: F,
    path: Seq<char>,
    res: Result<()>,
) -> bool {
    exists|p: &str| p@ == path && remove_file.ensures((p,), res)
}

/// `remove_file` was called on both generation files of `watch_path`, and
/// `r` is the first failure of the two, or success.
pub open spec fn removed_both<F: Fn(&str) -> Result<()>>(
    remove_file: F,
    watch_path: Seq<char>,
    r: Result<()>,
) -> bool {
    exists|ra: Result<()>, rb: Result<()>|
        {
            &&& #[trigger] removed(remove_file, slot_path_of(watch_path, Generation::A), ra)
            &&& #[trigger] removed(remove_file, slot_path_of(watch_path, Generation::B), rb)
            &&& r == first_failure(ra, rb)
        }
}

/// Deletes both generation files of `watch_path` through `remove_file`,
/// which treats a missing file as success. Both deletions are attempted; the
/// first failure is reported.
pub fn remove_hrl_files<F: Fn(&str) -> Result<()>>(watch_path: &str, remove_file: F) -> (r: Result<
    (),
>)
    requires
        forall|p: &str| remove_file.requires((p,)),
    ensures
        removed_both(remove_file, watch_path@, r),
{
    let path_a = slot_path(watch_path, Generation::A);
    let path_b = slot_path(watch_path, Generation::B);
    let ra = remove_file(path_a.as_str());
    let rb = remove_file(path_b.as_str());
    proof {
        assert(removed(remove_file, slot_path_of(watch_path@, Generation::A), ra));
        assert(removed(remove_file, slot_path_of(watch_path@, Generation::B), rb));
    }
    combine(ra, rb)
}

/// The swap done under exclusive access to a slot: unloads the module that
/// `content` holds, if any, and puts `candidate` in its place. The answer is
/// the unload's, `Ok` when there was nothing to unload.
pub fn swap_module(
    content: &mut Option<libloading::Library>,
    candidate: Option<libloading::Library>,
) -> (r: Result<()>)
    ensures
        *final(content) == candidate,
        *old(content) is None ==> r is Ok,
        r is Err ==> r->Err_0 is LoadLibraryError,
{
    let previous = content.take();
    *content = candidate;
    match previous {
        Some(lib) => match unload(lib) {
            Ok(()) => Ok(()),
            Err(e) => Err(Error::LoadLibraryError(e)),
        },
        None => Ok(()),
    }
}

/// What a filesystem copy reports.
pub type CopyOutcome = core::result::Result<(), std::io::Error>;

/// What the loader reports when asked to load a file.
pub type OpenOutcome = core::result::Result<libloading::Library, libloading::Error>;

/// `copy` was called to copy `from` onto `to` and answered `res`.
pub open spec fn copied<C: Fn(&str, &str) -> CopyOutcome>(
    copy: C,
    from: Seq<char>,
    to: Seq<char>,
    res: CopyOutcome,
) -> bool {
    exists|a: &str, b: &str| a@ == from && b@ == to && copy.ensures((a, b), res)
}

/// `open` was called to load `path` and answered `res`.
pub open spec fn opened<O: Fn(&str) -> OpenOutcome>(open: O, path: Seq<char>, res: OpenOutcome) -> bool {
    exists|p: &str| p@ == path && open.ensures((p,), res)
}

/// A change reported by the filesystem notifier for the watched path.
#[derive(Clone, Copy, Debug, PartialEq, Eq, Structural)]
pub enum ChangeEvent {
    /// A new version of the file has appeared: the one kind that asks for a reload.
    Created,
    /// Any other event, or a failed delivery.
    Ignored,
}

/// Some event of `events` asks for a reload.
pub open spec fn has_creation(events: Seq<ChangeEvent>) -> bool {
    exists|i: int| 0 <= i < events.len() && events[i] == ChangeEvent::Created
}

/// Whether a batch of events holds at least one creation.
pub fn needs_reload(events: &Vec<ChangeEvent>) -> (r: bool)
    ensures
        r == has_creation(events@),
{
    let mut i: usize = 0;
    while i < events.len()
        invariant
            i <= events@.len(),
            forall|j: int| 0 <= j < i ==> events@[j] != ChangeEvent::Created,
        decreases events@.len() - i,
    {
        if events[i] == ChangeEvent::Created {
            return true;
        }
        i += 1;
    }
    false
}

/// The first load of `path` answered `r`: `PathNotFound` unless `is_file`
/// found a regular file; then generation `A` is copied from the watched path
/// and loaded, and the first failure of those two steps is reported.
pub open spec fn bootstrapped<E, C, O>(
    is_file: E,
    copy: C,
    open: O,
    path: Seq<char>,
    r: Result<libloading::Library>,
) -> bool where
    E: Fn(&str) -> bool,
    C: Fn(&str, &str) -> CopyOutcome,
    O: Fn(&str) -> OpenOutcome,
 {
    let target = slot_path_of(path, Generation::A);
    exists|p: &str, found: bool|
        {
            &&& p@ == path
            &&& #[trigger] is_file.ensures((p,), found)
            &&& !found ==> (r is Err && r->Err_0 is PathNotFound)
            &&& found ==> (exists|cr: CopyOutcome|
                {
                    &&& #[trigger] copied(copy, path, target, cr)
                    &&& match cr {
                        Err(e) => r == Err::<libloading::Library, Error>(Error::IoFailure(e)),
                        Ok(_) => exists|lr: OpenOutcome|
                            {
                                &&& #[trigger] opened(open, target, lr)
                                &&& match lr {
                                    Err(e) => r == Err::<libloading::Library, Error>(
                                        Error::LoadLibraryError(e),
                                    ),
                                    Ok(lib) => r == Ok::<libloading::Library, Error>(lib),
                                }
                            },
                    }
                })
        }
}

/// Checks that `path` names a regular file, copies it into generation `A`
/// and loads that copy.
pub fn bootstrap<E, C, O>(path: &str, is_file: E, copy: C, open: O) -> (r: Result<
    libloading::Library,
>) where
    E: Fn(&str) -> bool,
    C: Fn(&str, &str) -> CopyOutcome,
    O: Fn(&str) -> OpenOutcome,

    requires
        forall|p: &str| is_file.requires((p,)),
        forall|a: &str, b: &str| copy.requires((a, b)),
        forall|p: &str| open.requires((p,)),
    ensures
        bootstrapped(is_file, copy, open, path@, r),
{
    let found = is_file(path);
    if !found {
        return Err(Error::PathNotFound);
    }
    let target = slot_path(path, Generation::A);
    let cr = copy(path, target.as_str());
    assert(copied(copy, path@, slot_path_of(path@, Generation::A), cr));
    match cr {
        Err(e) => Err(Error::IoFailure(e)),
        Ok(()) => {
            let lr = open(target.as_str());
            assert(opened(open, slot_path_of(path@, Generation::A), lr));
            match lr {
                Err(e) => Err(Error::LoadLibraryError(e)),
                Ok(lib) => Ok(lib),
            }
        },
    }
}

/// Generations alternate: in any run of successful reloads that starts from
/// the first load, the generation used by each reload is the one the reload
/// before it did not use, and the run goes `A`, `B`, `A`, ...
pub proof fn lemma_shadow_alternation(gens: Seq<Generation>)
    requires
        gens.len() > 0,
        gens[0] == next_generation_spec(None),
        forall|i: int|
            0 <= i < gens.len() - 1 ==> #[trigger] gens[i + 1] == next_generation_spec(Some(gens[i])),
    ensures
        forall|i: int| 0 <= i < gens.len() - 1 ==> #[trigger] gens[i + 1] != gens[i],
        forall|i: int|
            0 <= i < gens.len() ==> #[trigger] gens[i] == if i % 2 == 0 {
                Generation::A
            } else {
                Generation::B
            },
{
    assert forall|i: int| 0 <= i < gens.len() implies #[trigger] gens[i] == if i % 2 == 0 {
        Generation::A
    } else {
        Generation::B
    } by {
        lemma_generation_parity(gens, i);
    }
    assert forall|i: int| 0 <= i < gens.len() - 1 implies #[trigger] gens[i + 1] != gens[i] by {
        assert(gens[i + 1] == next_generation_spec(Some(gens[i])));
    }
}

proof fn lemma_generation_parity(gens: Seq<Generation>, k: int)
    requires
        0 <= k < gens.len(),
        gens[0] == next_generation_spec(None),
        forall|i: int|
            0 <= i < gens.len() - 1 ==> #[trigger] gens[i + 1] == next_generation_spec(Some(gens[i])),
    ensures
        gens[k] == if k % 2 == 0 {
            Generation::A
        } else {
            Generation::B
        },
    decreases k,
{
    if k > 0 {
        lemma_generation_parity(gens, k - 1);
        assert(gens[(k - 1) + 1] == next_generation_spec(Some(gens[k - 1])));
    }
}

/// A drain that brings no creation, an empty one in particular, asks for no
/// reload.
pub proof fn lemma_quiet_drain(events: Seq<ChangeEvent>)
    requires
        forall|i: int| 0 <= i < events.len() ==> #[trigger] events[i] == ChangeEvent::Ignored,
    ensures
        !has_creation(events),
{
}

} // verus!
