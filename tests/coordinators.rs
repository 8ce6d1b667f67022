use std::cell::{Cell, RefCell};

use hot_reload::library::auto::{access_module, AutoHotReloadLibrary, ReloadWorker};
use hot_reload::library::manual::HotReloadLibrary;
use hot_reload::library::{swap_module, ChangeEvent, CopyOutcome, OpenOutcome};
use hot_reload::Error;

fn this_process() -> libloading::Library {
    libloading::Library::from(libloading::os::unix::Library::this())
}

fn io_error() -> std::io::Error {
    std::io::Error::new(std::io::ErrorKind::NotFound, "gone")
}

struct Disk {
    copies: RefCell<Vec<(String, String)>>,
    opens: RefCell<Vec<String>>,
    removals: RefCell<Vec<String>>,
    copy_fails: Cell<bool>,
    open_fails: Cell<bool>,
}

impl Disk {
    fn new() -> Disk {
        Disk {
            copies: RefCell::new(Vec::new()),
            opens: RefCell::new(Vec::new()),
            removals: RefCell::new(Vec::new()),
            copy_fails: Cell::new(false),
            open_fails: Cell::new(false),
        }
    }

    fn copy(&self, from: &str, to: &str) -> CopyOutcome {
        if self.copy_fails.get() {
            return Err(io_error());
        }
        self.copies.borrow_mut().push((from.to_string(), to.to_string()));
        Ok(())
    }

    fn open(&self, path: &str) -> OpenOutcome {
        if self.open_fails.get() {
            return Err(libloading::Error::DlOpenUnknown);
        }
        self.opens.borrow_mut().push(path.to_string());
        Ok(this_process())
    }

    fn remove(&self, path: &str) -> hot_reload::Result<()> {
        self.removals.borrow_mut().push(path.to_string());
        Ok(())
    }

    fn last_copy_target(&self) -> String {
        self.copies.borrow().last().unwrap().1.clone()
    }
}

fn load_manual(disk: &Disk, path: &str) -> hot_reload::Result<HotReloadLibrary> {
    HotReloadLibrary::load(path, |_p: &str| true, |a: &str, b: &str| disk.copy(a, b), |p: &str| disk.open(p))
}

#[test]
fn manual_load_rejects_a_missing_path() {
    let disk = Disk::new();
    let r = HotReloadLibrary::load("mod.bin", |_p: &str| false, |a: &str, b: &str| disk.copy(a, b), |p: &str| disk.open(p));
    assert!(matches!(r, Err(Error::PathNotFound)));
    assert!(disk.copies.borrow().is_empty());
}

#[test]
fn manual_load_reports_a_failed_copy() {
    let disk = Disk::new();
    disk.copy_fails.set(true);
    assert!(matches!(load_manual(&disk, "mod.bin"), Err(Error::IoFailure(_))));
    assert!(disk.opens.borrow().is_empty());
}

#[test]
fn manual_load_reports_a_failed_load() {
    let disk = Disk::new();
    disk.open_fails.set(true);
    assert!(matches!(load_manual(&disk, "mod.bin"), Err(Error::LoadLibraryError(_))));
}

#[test]
fn manual_load_copies_into_generation_a() {
    let disk = Disk::new();
    let lib = load_manual(&disk, "mod.bin").unwrap();
    assert_eq!(*disk.copies.borrow(), vec![("mod.bin".to_string(), "mod.hrla".to_string())]);
    assert_eq!(*disk.opens.borrow(), vec!["mod.hrla".to_string()]);
    assert!(lib.library().is_ok());
}

#[test]
fn manual_force_reload_alternates_generations() {
    let disk = Disk::new();
    let mut lib = load_manual(&disk, "mod.bin").unwrap();
    let mut targets = Vec::new();
    for _ in 0..4 {
        lib.force_reload(|a: &str, b: &str| disk.copy(a, b), |p: &str| disk.open(p)).unwrap();
        targets.push(disk.last_copy_target());
    }
    assert_eq!(targets, vec!["mod.hrlb", "mod.hrla", "mod.hrlb", "mod.hrla"]);
}

#[test]
fn manual_failed_reload_keeps_the_module_and_generation() {
    let disk = Disk::new();
    let mut lib = load_manual(&disk, "mod.bin").unwrap();
    disk.copy_fails.set(true);
    let r = lib.force_reload(|a: &str, b: &str| disk.copy(a, b), |p: &str| disk.open(p));
    assert!(matches!(r, Err(Error::IoFailure(_))));
    assert!(lib.library().is_ok());
    disk.copy_fails.set(false);
    disk.open_fails.set(true);
    let r = lib.force_reload(|a: &str, b: &str| disk.copy(a, b), |p: &str| disk.open(p));
    assert!(matches!(r, Err(Error::LoadLibraryError(_))));
    assert!(lib.library().is_ok());
    disk.open_fails.set(false);
    lib.force_reload(|a: &str, b: &str| disk.copy(a, b), |p: &str| disk.open(p)).unwrap();
    assert_eq!(disk.last_copy_target(), "mod.hrlb");
}

#[test]
fn manual_reload_without_creation_is_a_no_op() {
    let disk = Disk::new();
    let mut lib = load_manual(&disk, "mod.bin").unwrap();
    lib.reload(&vec![ChangeEvent::Ignored], |a: &str, b: &str| disk.copy(a, b), |p: &str| disk.open(p)).unwrap();
    assert_eq!(disk.copies.borrow().len(), 1);
}

#[test]
fn manual_second_reload_after_a_drain_is_a_no_op() {
    let disk = Disk::new();
    let mut lib = load_manual(&disk, "mod.bin").unwrap();
    let first = vec![ChangeEvent::Created, ChangeEvent::Ignored, ChangeEvent::Created];
    lib.reload(&first, |a: &str, b: &str| disk.copy(a, b), |p: &str| disk.open(p)).unwrap();
    assert_eq!(disk.copies.borrow().len(), 2);
    assert_eq!(disk.last_copy_target(), "mod.hrlb");
    lib.reload(&vec![], |a: &str, b: &str| disk.copy(a, b), |p: &str| disk.open(p)).unwrap();
    assert_eq!(disk.copies.borrow().len(), 2);
}

#[test]
fn manual_symbol_access_does_not_reload() {
    let disk = Disk::new();
    let lib = load_manual(&disk, "mod.bin").unwrap();
    assert!(lib.library().is_ok());
    assert!(lib.library().is_ok());
    assert_eq!(disk.copies.borrow().len(), 1);
    assert_eq!(disk.opens.borrow().len(), 1);
}

#[test]
fn manual_close_removes_both_generations() {
    let disk = Disk::new();
    let lib = load_manual(&disk, "mod.bin").unwrap();
    lib.close(|p: &str| disk.remove(p)).unwrap();
    assert_eq!(*disk.removals.borrow(), vec!["mod.hrla".to_string(), "mod.hrlb".to_string()]);
}

#[test]
fn manual_close_twice_is_harmless() {
    let disk = Disk::new();
    let mut lib = load_manual(&disk, "mod.bin").unwrap();
    lib.close_ref(|p: &str| disk.remove(p)).unwrap();
    lib.close_ref(|p: &str| disk.remove(p)).unwrap();
    assert!(matches!(lib.library(), Err(Error::LibraryUnloaded)));
    assert_eq!(disk.removals.borrow().len(), 4);
}

#[test]
fn manual_scenario_mod_bin() {
    let disk = Disk::new();
    let mut lib = load_manual(&disk, "mod.bin").unwrap();
    assert_eq!(disk.last_copy_target(), "mod.hrla");
    lib.reload(&vec![ChangeEvent::Created], |a: &str, b: &str| disk.copy(a, b), |p: &str| disk.open(p)).unwrap();
    assert_eq!(disk.last_copy_target(), "mod.hrlb");
    assert!(disk.removals.borrow().is_empty());
    lib.close(|p: &str| disk.remove(p)).unwrap();
    assert_eq!(*disk.removals.borrow(), vec!["mod.hrla".to_string(), "mod.hrlb".to_string()]);
}

#[test]
fn access_module_on_an_empty_slot_reports_unloaded() {
    let r = access_module(&None, |_lib: &libloading::Library| Ok::<i32, libloading::Error>(1));
    assert!(matches!(r, Err(Error::LibraryUnloaded)));
}

#[test]
fn access_module_maps_a_resolution_failure() {
    let slot = Some(this_process());
    let r = access_module(&slot, |_lib: &libloading::Library| Err::<i32, libloading::Error>(libloading::Error::DlSymUnknown));
    assert!(matches!(r, Err(Error::LoadSymbolError(_))));
    let r = access_module(&slot, |_lib: &libloading::Library| Ok::<i32, libloading::Error>(7));
    assert_eq!(r.unwrap(), 7);
}

fn load_auto(disk: &Disk, path: &str, worker: &RefCell<Option<ReloadWorker>>) -> hot_reload::Result<AutoHotReloadLibrary> {
    AutoHotReloadLibrary::load(
        path,
        |_p: &str| true,
        |a: &str, b: &str| disk.copy(a, b),
        |p: &str| disk.open(p),
        |p: &str, w: ReloadWorker| {
            *worker.borrow_mut() = Some(w);
            let mut watcher = notify::recommended_watcher(|_e: notify::Result<notify::Event>| {})?;
            notify::Watcher::watch(&mut watcher, std::path::Path::new(p), notify::RecursiveMode::NonRecursive)?;
            Ok(watcher)
        },
    )
}

#[test]
fn auto_load_reports_a_failed_watch() {
    let disk = Disk::new();
    let r = AutoHotReloadLibrary::load(
        "mod.bin",
        |_p: &str| true,
        |a: &str, b: &str| disk.copy(a, b),
        |p: &str| disk.open(p),
        |_p: &str, _w: ReloadWorker| Err(notify::Error::generic("no watch")),
    );
    assert!(matches!(r, Err(Error::FileWatcherError(_))));
}

#[test]
fn auto_load_rejects_a_missing_path() {
    let disk = Disk::new();
    let worker = RefCell::new(None);
    let r = AutoHotReloadLibrary::load(
        "mod.bin",
        |_p: &str| false,
        |a: &str, b: &str| disk.copy(a, b),
        |p: &str| disk.open(p),
        |_p: &str, w: ReloadWorker| {
            *worker.borrow_mut() = Some(w);
            Err(notify::Error::generic("unreached"))
        },
    );
    assert!(matches!(r, Err(Error::PathNotFound)));
    assert!(worker.borrow().is_none());
}

#[test]
fn auto_failed_copy_degrades_until_a_later_reload() {
    let disk = Disk::new();
    let worker = RefCell::new(None);
    let lib = load_auto(&disk, "/etc/passwd", &worker).unwrap();
    let mut w = worker.borrow_mut().take().unwrap();
    assert_eq!(lib.symbol_op(|_l: &libloading::Library| Ok::<i32, libloading::Error>(3)).unwrap(), 3);
    disk.copy_fails.set(true);
    w.on_event(ChangeEvent::Created, |a: &str, b: &str| disk.copy(a, b), |p: &str| disk.open(p));
    let r = lib.symbol_op(|_l: &libloading::Library| Ok::<i32, libloading::Error>(3));
    assert!(matches!(r, Err(Error::LibraryUnloaded)));
    disk.copy_fails.set(false);
    w.on_event(ChangeEvent::Created, |a: &str, b: &str| disk.copy(a, b), |p: &str| disk.open(p));
    assert_eq!(lib.symbol_op(|_l: &libloading::Library| Ok::<i32, libloading::Error>(4)).unwrap(), 4);
    assert_eq!(disk.last_copy_target(), "/etc/passwd.hrla");
}

#[test]
fn auto_scenario_reload_and_close() {
    let disk = Disk::new();
    let worker = RefCell::new(None);
    let lib = load_auto(&disk, "/etc/passwd", &worker).unwrap();
    assert_eq!(disk.last_copy_target(), "/etc/passwd.hrla");
    let mut w = worker.borrow_mut().take().unwrap();
    w.on_event(ChangeEvent::Ignored, |a: &str, b: &str| disk.copy(a, b), |p: &str| disk.open(p));
    assert_eq!(disk.copies.borrow().len(), 1);
    w.on_event(ChangeEvent::Created, |a: &str, b: &str| disk.copy(a, b), |p: &str| disk.open(p));
    assert_eq!(disk.last_copy_target(), "/etc/passwd.hrlb");
    assert_eq!(*disk.opens.borrow(), vec!["/etc/passwd.hrla".to_string(), "/etc/passwd.hrlb".to_string()]);
    assert!(disk.removals.borrow().is_empty());
    lib.close(|p: &str| disk.remove(p)).unwrap();
    assert_eq!(*disk.removals.borrow(), vec!["/etc/passwd.hrla".to_string(), "/etc/passwd.hrlb".to_string()]);
}

#[test]
fn auto_close_twice_is_harmless() {
    let disk = Disk::new();
    let worker = RefCell::new(None);
    let mut lib = load_auto(&disk, "/etc/passwd", &worker).unwrap();
    lib.close_ref(|p: &str| disk.remove(p)).unwrap();
    lib.close_ref(|p: &str| disk.remove(p)).unwrap();
    let r = lib.symbol_op(|_l: &libloading::Library| Ok::<i32, libloading::Error>(1));
    assert!(matches!(r, Err(Error::LibraryUnloaded)));
}

#[test]
fn swap_module_installs_the_candidate() {
    let mut content = None;
    assert!(swap_module(&mut content, Some(this_process())).is_ok());
    assert!(content.is_some());
    assert!(swap_module(&mut content, None).is_ok());
    assert!(content.is_none());
}

#[test]
fn manual_close_reports_a_failed_deletion() {
    let disk = Disk::new();
    let lib = load_manual(&disk, "mod.bin").unwrap();
    let r = lib.close(|p: &str| {
        disk.removals.borrow_mut().push(p.to_string());
        Err(Error::IoFailure(io_error()))
    });
    assert!(matches!(r, Err(Error::IoFailure(_))));
    assert_eq!(disk.removals.borrow().len(), 2);
}

#[test]
fn auto_close_reports_a_failed_deletion() {
    let disk = Disk::new();
    let worker = RefCell::new(None);
    let lib = load_auto(&disk, "/etc/passwd", &worker).unwrap();
    let r = lib.close(|_p: &str| Err(Error::IoFailure(io_error())));
    assert!(matches!(r, Err(Error::IoFailure(_))));
}
