use vstd::prelude::*;

use crate::actions::{first_blocked, verify_module_creation, Act, Action, Event, Presence};
use crate::error::{Fault, ModuleError};
use crate::module::{Module, ModuleView, INIT_SCRIPT};
use crate::paths::{join_path, joined};

verus! {

/// Where an install stands, each stage waiting on one kind of event.
#[derive(Clone, Copy)]
pub enum InstallStage {
    /// Waiting to learn what is at the target of the resource.
    Checking(usize),
    /// Waiting to learn which ancestors block the target of the resource.
    Probing(usize),
    /// Waiting on the removal of what stood in the way of the resource.
    Clearing(usize),
    /// Waiting on the link of the resource.
    Linking(usize),
    /// Waiting on the init script.
    Running,
    Finished,
}

/// Where the link for the `i`th resource goes.
pub open spec fn target(m: ModuleView, home: Seq<char>, i: int) -> Seq<char> {
    joined(home, m.def.resources[i].1)
}

/// What the link for the `i`th resource points to.
pub open spec fn source(m: ModuleView, i: int) -> Seq<char> {
    joined(m.path, m.def.resources[i].0)
}

/// Checking the targets from the `i`th on.
pub open spec fn check_from(m: ModuleView, home: Seq<char>, i: int) -> (InstallStage, Act)
    recommends
        0 <= i <= m.def.resources.len(),
{
    if i < m.def.resources.len() {
        (InstallStage::Checking(i as usize), Act::Inspect(target(m, home, i)))
    } else {
        link_from(m, home, 0)
    }
}

/// Linking the resources from the `i`th on, then the init script.
pub open spec fn link_from(m: ModuleView, home: Seq<char>, i: int) -> (InstallStage, Act) {
    if i < m.def.resources.len() {
        (InstallStage::Linking(i as usize), Act::Link(source(m, i), target(m, home, i)))
    } else if m.def.init {
        (InstallStage::Running, Act::Run(joined(m.path, INIT_SCRIPT@)))
    } else {
        (InstallStage::Finished, Act::Done(Ok(())))
    }
}

pub open spec fn fail(f: Fault) -> (InstallStage, Act) {
    (InstallStage::Finished, Act::Done(Err(f)))
}

/// Whether an install at `stage` can take `event`.
pub open spec fn install_awaits(stage: InstallStage, event: Event) -> bool {
    match stage {
        InstallStage::Checking(_) => event is Seen,
        InstallStage::Probing(_) => event is Ancestors,
        InstallStage::Clearing(_) | InstallStage::Linking(_) => event is Completed || event is Failed,
        InstallStage::Running => event is Exited || event is Failed,
        InstallStage::Finished => false,
    }
}

/// The next stage of an install of `m`, and what the caller does next.
///
/// Every target is checked before any link is made. A target that exists is
/// a conflict, unless `force`, when it is removed; a missing target whose
/// first blocking ancestor exists is a conflict, unless `force`, when that
/// ancestor is removed. Then each resource is linked, and the init script,
/// if declared, is run. The first failure ends the install.
pub open spec fn install_next(
    m: ModuleView,
    home: Seq<char>,
    force: bool,
    stage: InstallStage,
    event: Event,
) -> (InstallStage, Act) {
    match stage {
        InstallStage::Checking(i) => match event {
            Event::Seen(Presence::Missing) => (
                InstallStage::Probing(i),
                Act::InspectAncestors(target(m, home, i as int)),
            ),
            Event::Seen(Presence::File) => if force {
                (InstallStage::Clearing(i), Act::RemoveFile(target(m, home, i as int)))
            } else {
                fail(Fault::Install(m.name, target(m, home, i as int)))
            },
            _ => if force {
                (InstallStage::Clearing(i), Act::RemoveDir(target(m, home, i as int)))
            } else {
                fail(Fault::Install(m.name, target(m, home, i as int)))
            },
        },
        InstallStage::Probing(i) => match event {
            Event::Ancestors(v) => match first_blocked(v@) {
                None => check_from(m, home, i + 1),
                Some(k) => if force {
                    (InstallStage::Clearing(i), Act::RemoveFile(v@[k].path@))
                } else {
                    fail(Fault::InstallPath(m.name, v@[k].path@))
                },
            },
            _ => (stage, Act::InspectAncestors(target(m, home, i as int))),
        },
        InstallStage::Clearing(i) => match event {
            Event::Failed(e) => fail(Fault::IO(m.name, e)),
            _ => check_from(m, home, i + 1),
        },
        InstallStage::Linking(i) => match event {
            Event::Failed(e) => fail(Fault::IO(m.name, e)),
            _ => link_from(m, home, i + 1),
        },
        InstallStage::Running => match event {
            Event::Exited(true) => (InstallStage::Finished, Act::Done(Ok(()))),
            Event::Failed(e) => fail(Fault::IO(m.name, e)),
            _ => fail(Fault::Exec(m.name, "init"@)),
        },
        InstallStage::Finished => (InstallStage::Finished, Act::Done(Ok(()))),
    }
}

/// An install of one module into one home directory, in progress.
pub struct Installer {
    stage: InstallStage,
    home: String,
    force: bool,
}

impl Installer {
    pub closed spec fn stage(&self) -> InstallStage {
        self.stage
    }

    pub closed spec fn home(&self) -> Seq<char> {
        self.home@
    }

    pub closed spec fn force(&self) -> bool {
        self.force
    }

    /// Whether the stage's resource index is within the module's resources.
    pub open spec fn wf(&self, m: ModuleView) -> bool {
        match self.stage() {
            InstallStage::Checking(i) | InstallStage::Probing(i) | InstallStage::Clearing(i)
            | InstallStage::Linking(i) => i < m.def.resources.len(),
            _ => true,
        }
    }

    /// Starts installing `module` into `home`; with `force`, what stands in
    /// the way of a link is removed.
    pub fn new(module: &Module, home: String, force: bool) -> (r: (Installer, Action))
        ensures
            r.0.home() == home@,
            r.0.force() == force,
            (r.0.stage(), r.1@) == check_from(module@, home@, 0),
            r.0.wf(module@),
    {
        let mut inst = Installer { stage: InstallStage::Finished, home, force };
        let a = inst.check_from(module, 0);
        (inst, a)
    }

    /// Whether `event` answers the action last handed out.
    pub fn awaits(&self, event: &Event) -> (r: bool)
        ensures
            r == install_awaits(self.stage(), *event),
    {
        match self.stage {
            InstallStage::Checking(_) => matches!(event, Event::Seen(_)),
            InstallStage::Probing(_) => matches!(event, Event::Ancestors(_)),
            InstallStage::Clearing(_) | InstallStage::Linking(_) => matches!(event, Event::Completed | Event::Failed(_)),
            InstallStage::Running => matches!(event, Event::Exited(_) | Event::Failed(_)),
            InstallStage::Finished => false,
        }
    }

    /// Takes the caller's report on the last action and hands out the next.
    pub fn step(&mut self, module: &Module, event: Event) -> (r: Action)
        requires
            install_awaits(old(self).stage(), event),
            old(self).wf(module@),
        ensures
            (final(self).stage(), r@) == install_next(
                module@,
                old(self).home(),
                old(self).force(),
                old(self).stage(),
                event,
            ),
            final(self).home() == old(self).home(),
            final(self).force() == old(self).force(),
            final(self).wf(module@),
    {
        let ghost m = module@;
        let n: usize = module.definition().resources.len();
        assert(n == m.def.resources.len());
        match self.stage {
            InstallStage::Checking(i) => {
                let t = self.target(module, i);
                match event {
                    Event::Seen(Presence::Missing) => {
                        self.stage = InstallStage::Probing(i);
                        Action::InspectAncestors(t)
                    },
                    Event::Seen(Presence::File) => {
                        if self.force {
                            self.stage = InstallStage::Clearing(i);
                            Action::RemoveFile(t)
                        } else {
                            self.finish(ModuleError::Install(module.name().to_owned(), t))
                        }
                    },
                    _ => {
                        if self.force {
                            self.stage = InstallStage::Clearing(i);
                            Action::RemoveDir(t)
                        } else {
                            self.finish(ModuleError::Install(module.name().to_owned(), t))
                        }
                    },
                }
            },
            InstallStage::Probing(i) => {
                match event {
                    Event::Ancestors(v) => {
                        match verify_module_creation(&v) {
                            Ok(()) => self.check_from(module, i + 1),
                            Err(p) => {
                                if self.force {
                                    self.stage = InstallStage::Clearing(i);
                                    Action::RemoveFile(p)
                                } else {
                                    self.finish(ModuleError::InstallPath(module.name().to_owned(), p))
                                }
                            },
                        }
                    },
                    _ => Action::InspectAncestors(self.target(module, i)),
                }
            },
            InstallStage::Clearing(i) => {
                match event {
                    Event::Failed(e) => self.finish(module.wrap_io_error(e)),
                    _ => self.check_from(module, i + 1),
                }
            },
            InstallStage::Linking(i) => {
                match event {
                    Event::Failed(e) => self.finish(module.wrap_io_error(e)),
                    _ => self.link_from(module, i + 1),
                }
            },
            InstallStage::Running => {
                match event {
                    Event::Exited(true) => {
                        self.stage = InstallStage::Finished;
                        Action::Done(Ok(()))
                    },
                    Event::Failed(e) => self.finish(module.wrap_io_error(e)),
                    _ => {
                        proof {
                            reveal_strlit("init");
                        }
                        self.finish(ModuleError::Exec(module.name().to_owned(), "init".to_owned()))
                    },
                }
            },
            InstallStage::Finished => Action::Done(Ok(())),
        }
    }

    fn finish(&mut self, e: ModuleError) -> (r: Action)
        ensures
            final(self).stage() == InstallStage::Finished,
            final(self).home() == old(self).home(),
            final(self).force() == old(self).force(),
            r@ == Act::Done(Err(e@)),
    {
        self.stage = InstallStage::Finished;
        Action::Done(Err(e))
    }

    fn target(&self, module: &Module, i: usize) -> (r: String)
        requires
            i < module@.def.resources.len(),
        ensures
            r@ == target(module@, self.home(), i as int),
    {
        join_path(self.home.as_str(), module.definition().resources[i].1.as_str())
    }

    fn check_from(&mut self, module: &Module, i: usize) -> (r: Action)
        requires
            i <= module@.def.resources.len(),
        ensures
            final(self).home() == old(self).home(),
            final(self).force() == old(self).force(),
            (final(self).stage(), r@) == check_from(module@, old(self).home(), i as int),
            final(self).wf(module@),
    {
        if i < module.definition().resources.len() {
            let t = self.target(module, i);
            self.stage = InstallStage::Checking(i);
            Action::Inspect(t)
        } else {
            self.link_from(module, 0)
        }
    }

    fn link_from(&mut self, module: &Module, i: usize) -> (r: Action)
        requires
            i <= module@.def.resources.len(),
        ensures
            final(self).home() == old(self).home(),
            final(self).force() == old(self).force(),
            (final(self).stage(), r@) == link_from(module@, old(self).home(), i as int),
            final(self).wf(module@),
    {
        if i < module.definition().resources.len() {
            let t = self.target(module, i);
            let s = join_path(module.path(), module.definition().resources[i].0.as_str());
            self.stage = InstallStage::Linking(i);
            Action::Link(s, t)
        } else if module.definition().init {
            self.stage = InstallStage::Running;
            Action::Run(join_path(module.path(), INIT_SCRIPT))
        } else {
            self.stage = InstallStage::Finished;
            Action::Done(Ok(()))
        }
    }
}

/// A target that is already taken stops an install that is not forced,
/// naming the target; a forced install removes it, goes on, and later links
/// the target to the module's resource.
pub proof fn lemma_occupied_target(m: ModuleView, home: Seq<char>, i: usize, p: Presence)
    requires
        i < m.def.resources.len(),
        !(p is Missing),
    ensures
        install_next(m, home, false, InstallStage::Checking(i), Event::Seen(p)) == fail(
            Fault::Install(m.name, target(m, home, i as int)),
        ),
        install_next(m, home, true, InstallStage::Checking(i), Event::Seen(p)) == (
            InstallStage::Clearing(i),
            if p is File {
                Act::RemoveFile(target(m, home, i as int))
            } else {
                Act::RemoveDir(target(m, home, i as int))
            },
        ),
        install_next(m, home, true, InstallStage::Clearing(i), Event::Completed)
            == check_from(m, home, i + 1),
        link_from(m, home, i as int) == (
            InstallStage::Linking(i),
            Act::Link(source(m, i as int), target(m, home, i as int)),
        ),
{
}

impl Module {
    /// Starts installing this module into `home`; with `force`, what stands
    /// in the way of a link is removed.
    pub fn install(&self, home: String, force: bool) -> (r: (Installer, Action))
        ensures
            r.0.home() == home@,
            r.0.force() == force,
            (r.0.stage(), r.1@) == check_from(self@, home@, 0),
            r.0.wf(self@),
    {
        Installer::new(self, home, force)
    }
}

} // verus!
