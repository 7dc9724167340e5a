use vstd::prelude::*;

use crate::error::{Fault, ModuleError};
use crate::paths::{file_name_to_string, final_component, join_path, joined};
use crate::permissions::{check_permissions, permits, PERMISSIONS_R, PERMISSIONS_RX};

verus! {

/// The configuration file at the root of every module.
pub const CONFIG_FILE: &'static str = "config.toml";

/// The script run after a module is installed.
pub const INIT_SCRIPT: &'static str = "init.sh";

/// The script run after a module is uninstalled.
pub const CLEANUP_SCRIPT: &'static str = "cleanup.sh";

/// A module's decoded configuration.
pub struct ModuleDef {
    pub description: Option<String>,
    /// Whether the init script must exist and run on install.
    pub init: bool,
    /// Whether the cleanup script must exist and run on uninstall.
    pub cleanup: bool,
    /// Pairs of a path under the module directory (the source of a link) and
    /// a path under the home directory (where the link goes).
    pub resources: Vec<(String, String)>,
}

pub struct DefView {
    pub description: Option<Seq<char>>,
    pub init: bool,
    pub cleanup: bool,
    pub resources: Seq<(Seq<char>, Seq<char>)>,
}

pub open spec fn pair_view(p: (String, String)) -> (Seq<char>, Seq<char>) {
    (p.0@, p.1@)
}

pub open spec fn option_view(o: Option<String>) -> Option<Seq<char>> {
    match o {
        Some(s) => Some(s@),
        None => None,
    }
}

impl View for ModuleDef {
    type V = DefView;

    open spec fn view(&self) -> DefView {
        DefView {
            description: option_view(self.description),
            init: self.init,
            cleanup: self.cleanup,
            resources: self.resources@.map_values(|p: (String, String)| pair_view(p)),
        }
    }
}

/// One file that a definition requires: its name under the module
/// directory, the owner access it needs, and whether it is a script (named
/// by `label` in a failure) or a resource (named by its own name).
pub struct Requirement {
    pub file: Seq<char>,
    pub desired: u32,
    pub script: bool,
    pub label: Seq<char>,
}

/// The files a definition requires, in the order they are checked: the init
/// script, the cleanup script, then each resource.
pub open spec fn requirements(d: DefView) -> Seq<Requirement> {
    let init = if d.init {
        seq![Requirement { file: INIT_SCRIPT@, desired: PERMISSIONS_RX, script: true, label: "init"@ }]
    } else {
        Seq::empty()
    };
    let cleanup = if d.cleanup {
        seq![
            Requirement {
                file: CLEANUP_SCRIPT@,
                desired: PERMISSIONS_RX,
                script: true,
                label: "cleanup"@,
            },
        ]
    } else {
        Seq::empty()
    };
    init + cleanup + d.resources.map_values(
        |p: (Seq<char>, Seq<char>)|
            Requirement { file: p.0, desired: PERMISSIONS_R, script: false, label: p.0 },
    )
}

/// The permission bits found for the `i`th required file; none where no
/// file was found, or where no observation was given.
pub open spec fn probe_at(probes: Seq<Option<u32>>, i: int) -> Option<u32> {
    if 0 <= i < probes.len() {
        probes[i]
    } else {
        None
    }
}

/// Whether a file found with `probe` gives the owner the access `desired`.
pub open spec fn satisfied(probe: Option<u32>, desired: u32) -> bool {
    probe matches Some(mode) && permits(mode, desired)
}

pub open spec fn meets(d: DefView, probes: Seq<Option<u32>>, i: int) -> bool {
    satisfied(probe_at(probes, i), requirements(d)[i].desired)
}

/// The failure that the `req` of module `name` gives when unmet.
pub open spec fn unmet(name: Seq<char>, req: Requirement) -> Fault {
    if req.script {
        Fault::Script(name, req.label)
    } else {
        Fault::Resource(name, req.label)
    }
}

/// The outcome of checking a definition against what was found on disk:
/// success where every required file is met, else the failure of the first
/// one that is not.
pub open spec fn verified(name: Seq<char>, d: DefView, probes: Seq<Option<u32>>, r: Result<(), Fault>) -> bool {
    let reqs = requirements(d);
    match r {
        Ok(()) => forall|i: int| 0 <= i < reqs.len() ==> #[trigger] meets(d, probes, i),
        Err(f) => exists|i: int|
            0 <= i < reqs.len() && !#[trigger] meets(d, probes, i) && (forall|j: int|
                0 <= j < i ==> meets(d, probes, j)) && f == unmet(name, reqs[i]),
    }
}

/// Why a configuration could not be had.
pub enum LoadError {
    /// The file could not be read.
    Read(std::io::Error),
    /// The bytes could not be decoded.
    Decode(toml::de::Error),
}

impl ModuleDef {
    /// The paths of the files this definition requires, for a module at
    /// `dir`, in the order `verify` checks them.
    pub fn required_files(&self, dir: &String) -> (r: Vec<String>)
        ensures
            r@.len() == requirements(self@).len(),
            forall|i: int|
                0 <= i < r@.len() ==> #[trigger] r@[i]@ == joined(
                    dir@,
                    requirements(self@)[i].file,
                ),
    {
        let mut r: Vec<String> = Vec::new();
        if self.init {
            r.push(join_path(dir.as_str(), INIT_SCRIPT));
        }
        if self.cleanup {
            r.push(join_path(dir.as_str(), CLEANUP_SCRIPT));
        }
        let ghost base = r@;
        let mut k: usize = 0;
        while k < self.resources.len()
            invariant
                k <= self.resources@.len(),
                r@.len() == base.len() + k,
                r@.subrange(0, base.len() as int) == base,
                forall|j: int|
                    0 <= j < k ==> #[trigger] r@[base.len() + j]@ == joined(
                        dir@,
                        self.resources@[j].0@,
                    ),
            decreases self.resources@.len() - k,
        {
            r.push(join_path(dir.as_str(), self.resources[k].0.as_str()));
            k = k + 1;
        }
        proof {
            let reqs = requirements(self@);
            assert forall|i: int| 0 <= i < r@.len() implies #[trigger] r@[i]@ == joined(
                dir@,
                reqs[i].file,
            ) by {
                if i >= base.len() {
                    assert(r@[base.len() + (i - base.len())] == r@[i]);
                } else {
                    assert(r@.subrange(0, base.len() as int)[i] == r@[i]);
                }
            }
        }
        r
    }

    /// Checks what was found for the files this definition requires
    /// (`probes`, in the order of `required_files`: the owner permission bits,
    /// or none where nothing exists). Stops at the first unmet file.
    pub fn verify(&self, module_name: &String, probes: &Vec<Option<u32>>) -> (r: Result<(), ModuleError>)
        ensures
            verified(module_name@, self@, probes@, crate::error::outcome_view(r, |u: ()| u)),
    {
        let ghost reqs = requirements(self@);
        let mut i: usize = 0;
        if self.init {
            if !self.probe_ok(probes, 0, 0, PERMISSIONS_RX) {
                proof {
                    reveal_strlit("init");
                    assert(!meets(self@, probes@, 0));
                }
                return Err(ModuleError::Script(module_name.clone(), "init".to_owned()));
            }
            i = 1;
        }
        if self.cleanup {
            if !self.probe_ok(probes, i, 0, PERMISSIONS_RX) {
                proof {
                    reveal_strlit("cleanup");
                    assert(!meets(self@, probes@, i as int));
                }
                return Err(ModuleError::Script(module_name.clone(), "cleanup".to_owned()));
            }
            i = i + 1;
        }
        let start: usize = i;
        let mut k: usize = 0;
        while k < self.resources.len()
            invariant
                start == (if self.init { 1int } else { 0 }) + (if self.cleanup { 1int } else { 0 }),
                reqs == requirements(self@),
                k <= self.resources@.len(),
                forall|j: int| 0 <= j < start + k ==> #[trigger] meets(self@, probes@, j),
            decreases self.resources@.len() - k,
        {
            assert(reqs[start + k] == Requirement {
                file: self.resources@[k as int].0@,
                desired: PERMISSIONS_R,
                script: false,
                label: self.resources@[k as int].0@,
            });
            if !self.probe_ok(probes, start, k, PERMISSIONS_R) {
                assert(!meets(self@, probes@, start + k));
                return Err(
                    ModuleError::Resource(module_name.clone(), self.resources[k].0.clone()),
                );
            }
            k = k + 1;
        }
        Ok(())
    }

    fn probe_ok(&self, probes: &Vec<Option<u32>>, start: usize, k: usize, desired: u32) -> (r: bool)
        ensures
            r == satisfied(probe_at(probes@, start + k), desired),
    {
        if start <= probes.len() && k < probes.len() - start {
            match probes[start + k] {
                Some(mode) => check_permissions(mode, desired),
                None => false,
            }
        } else {
            false
        }
    }
}

/// A module whose definition has been checked against its directory.
pub struct Module {
    path: String,
    name: String,
    definition: ModuleDef,
}

pub struct ModuleView {
    pub path: Seq<char>,
    pub name: Seq<char>,
    pub def: DefView,
}

impl View for Module {
    type V = ModuleView;

    closed spec fn view(&self) -> ModuleView {
        ModuleView { path: self.path@, name: self.name@, def: self.definition@ }
    }
}

/// The outcome of loading the module at `path`, given what became of its
/// configuration and what was found for the files it requires. A path with
/// no final component names no module, and is refused as a directory that
/// cannot be used.
pub open spec fn load_outcome(
    path: Seq<char>,
    loaded: Result<ModuleDef, LoadError>,
    probes: Seq<Option<u32>>,
) -> Result<ModuleView, Fault> {
    match final_component(path) {
        None => Err(Fault::Directory),
        Some(name) => match loaded {
            Err(LoadError::Read(e)) => Err(Fault::IO(name, e)),
            Err(LoadError::Decode(e)) => Err(Fault::Parse(name, e)),
            Ok(d) => if forall|i: int| 0 <= i < requirements(d@).len() ==> #[trigger] meets(d@, probes, i) {
                Ok(ModuleView { path, name, def: d@ })
            } else {
                Err(first_unmet(name, d@, probes))
            },
        },
    }
}

/// The failure of the first required file that is not met.
pub open spec fn first_unmet(name: Seq<char>, d: DefView, probes: Seq<Option<u32>>) -> Fault {
    let i = choose|i: int|
        0 <= i < requirements(d).len() && !#[trigger] meets(d, probes, i) && (forall|j: int|
            0 <= j < i ==> meets(d, probes, j));
    unmet(name, requirements(d)[i])
}

pub open spec fn module_view(m: Module) -> ModuleView {
    m@
}

impl Module {
    /// The module's name is the final component of its path.
    pub open spec fn wf(&self) -> bool {
        final_component(self@.path) == Some(self@.name)
    }

    /// Builds the module at `path` from what became of its configuration
    /// (`loaded`) and from the permission bits found for the files that the
    /// configuration requires (`probes`, in the order of
    /// `ModuleDef::required_files`).
    pub fn new(path: String, loaded: Result<ModuleDef, LoadError>, probes: &Vec<Option<u32>>) -> (r:
        Result<Module, ModuleError>)
        ensures
            crate::error::outcome_view(r, |m: Module| module_view(m)) == load_outcome(
                path@,
                loaded,
                probes@,
            ),
            r matches Ok(m) ==> m.wf(),
    {
        let name = match file_name_to_string(path.as_str()) {
            Some(n) => n,
            None => return Err(ModuleError::Directory),
        };
        let definition = match loaded {
            Err(LoadError::Read(e)) => return Err(ModuleError::IO(name, e)),
            Err(LoadError::Decode(e)) => return Err(ModuleError::Parse(name, e)),
            Ok(d) => d,
        };
        match definition.verify(&name, probes) {
            Ok(()) => Ok(Module { path, name, definition }),
            Err(e) => {
                proof {
                    let d = definition@;
                    let reqs = requirements(d);
                    let i = choose|i: int|
                        0 <= i < reqs.len() && !#[trigger] meets(d, probes@, i) && (forall|j: int|
                            0 <= j < i ==> meets(d, probes@, j)) && e@ == unmet(name@, reqs[i]);
                    let k = choose|k: int|
                        0 <= k < reqs.len() && !#[trigger] meets(d, probes@, k) && (forall|j: int|
                            0 <= j < k ==> meets(d, probes@, j));
                    if i < k {
                        assert(meets(d, probes@, i));
                    }
                    if k < i {
                        assert(meets(d, probes@, k));
                    }
                }
                Err(e)
            },
        }
    }

    /// The module's name: the final component of its path.
    pub fn name(&self) -> (r: &str)
        ensures
            r@ == self@.name,
    {
        self.name.as_str()
    }

    /// The module's directory.
    pub fn path(&self) -> (r: &str)
        ensures
            r@ == self@.path,
    {
        self.path.as_str()
    }

    /// The module's definition.
    pub fn definition(&self) -> (r: &ModuleDef)
        ensures
            r@ == self@.def,
    {
        &self.definition
    }

    /// An input or output failure, attributed to this module.
    pub fn wrap_io_error(&self, err: std::io::Error) -> (r: ModuleError)
        ensures
            r@ == Fault::IO(self@.name, err),
    {
        ModuleError::IO(self.name.clone(), err)
    }
}

/// One entry of a modules directory, as found by a scan.
pub enum Entry {
    /// Anything that is not a directory.
    Other,
    /// A directory at the given path, with what became of its configuration
    /// and the permission bits found for the files that it requires.
    Dir(String, Result<ModuleDef, LoadError>, Vec<Option<u32>>),
}

pub open spec fn loaded_view(r: Result<Module, ModuleError>) -> Result<ModuleView, Fault> {
    crate::error::outcome_view(r, |m: Module| module_view(m))
}

/// What listing `entries` gives: one outcome per directory, in order;
/// everything else is passed over.
pub open spec fn scanned(entries: Seq<Entry>) -> Seq<Result<ModuleView, Fault>>
    decreases entries.len(),
{
    if entries.len() == 0 {
        Seq::empty()
    } else {
        let rest = scanned(entries.drop_last());
        match entries.last() {
            Entry::Dir(path, loaded, probes) => rest.push(load_outcome(path@, loaded, probes@)),
            Entry::Other => rest,
        }
    }
}

impl Module {
    /// Lists the modules of a directory from a scan of its entries: a failed
    /// scan is one `Directory` error; otherwise each directory gives its own
    /// outcome, a module or the error that kept it from being one.
    pub fn list(scan: Result<Vec<Entry>, std::io::Error>) -> (r: Result<
        Vec<Result<Module, ModuleError>>,
        ModuleError,
    >)
        ensures
            match scan {
                Err(_) => r matches Err(e) && e@ == Fault::Directory,
                Ok(entries) => r matches Ok(out) && out@.map_values(
                    |x: Result<Module, ModuleError>| loaded_view(x),
                ) == scanned(entries@) && forall|i: int|
                    0 <= i < out@.len() ==> (#[trigger] out@[i] matches Ok(m) ==> m.wf()),
            },
    {
        let mut entries = match scan {
            Ok(entries) => entries,
            Err(_) => return Err(ModuleError::Directory),
        };
        let ghost all = entries@;
        let n: usize = entries.len();
        let mut out: Vec<Result<Module, ModuleError>> = Vec::new();
        let mut i: usize = 0;
        while entries.len() > 0
            invariant
                i + entries@.len() == all.len(),
                all.len() == n,
                entries@ == all.skip(i as int),
                out@.map_values(|x: Result<Module, ModuleError>| loaded_view(x)) == scanned(
                    all.take(i as int),
                ),
                forall|k: int| 0 <= k < out@.len() ==> (#[trigger] out@[k] matches Ok(m) ==> m.wf()),
            decreases entries@.len(),
        {
            let entry = entries.remove(0);
            proof {
                assert(all.take(i + 1).drop_last() =~= all.take(i as int));
                assert(entry == all[i as int]);
            }
            match entry {
                Entry::Dir(path, loaded, probes) => {
                    let m = Module::new(path, loaded, &probes);
                    out.push(m);
                    assert(out@.map_values(|x: Result<Module, ModuleError>| loaded_view(x))
                        =~= scanned(all.take(i as int)).push(loaded_view(m)));
                },
                Entry::Other => {},
            }
            i = i + 1;
            assert(entries@ =~= all.skip(i as int));
        }
        assert(all.take(i as int) =~= all);
        Ok(out)
    }
}

/// A module that declares an init script loads only where the script is
/// there and its owner may read and execute it; otherwise loading fails with
/// a script error naming "init".
pub proof fn lemma_init_script_required(path: Seq<char>, d: ModuleDef, probes: Seq<Option<u32>>)
    requires
        final_component(path) is Some,
        d.init,
        !satisfied(probe_at(probes, 0), PERMISSIONS_RX),
    ensures
        load_outcome(path, Ok(d), probes) == Err::<ModuleView, Fault>(
            Fault::Script(final_component(path)->0, "init"@),
        ),
{
    let reqs = requirements(d@);
    assert(!meets(d@, probes, 0));
    let i = choose|i: int|
        0 <= i < reqs.len() && !#[trigger] meets(d@, probes, i) && (forall|j: int|
            0 <= j < i ==> meets(d@, probes, j));
    if i > 0 {
        assert(meets(d@, probes, 0));
    }
}

/// A module that declares no resources and no scripts loads whatever was
/// found on disk.
pub proof fn lemma_minimal_module_loads(path: Seq<char>, d: ModuleDef, probes: Seq<Option<u32>>)
    requires
        final_component(path) is Some,
        !d.init,
        !d.cleanup,
        d.resources@.len() == 0,
    ensures
        load_outcome(path, Ok(d), probes) == Ok::<ModuleView, Fault>(
            ModuleView { path, name: final_component(path)->0, def: d@ },
        ),
{
    assert(requirements(d@).len() == 0);
}

} // verus!
