use vstd::prelude::*;

use crate::actions::{first_blocked, Act, Action, Ancestor, Event, Presence};
use crate::error::{Fault, ModuleError};
use crate::install::{check_from, install_next, link_from, source, target};
use crate::module::{Module, ModuleView, CLEANUP_SCRIPT};
use crate::paths::{join_path, joined, paths_equal, same_path};

verus! {

/// Where an uninstall stands, each stage waiting on one kind of event.
#[derive(Clone, Copy)]
pub enum UninstallStage {
    /// Waiting to learn whether the target of the resource exists.
    Verifying(usize),
    /// Waiting on the link at the target of the resource.
    Reading(usize),
    /// Waiting to learn what is at the target of the resource.
    Removing(usize),
    /// Waiting on the removal of the target of the resource.
    Deleting(usize),
    /// Waiting on the cleanup script.
    Running,
    Finished,
}

/// Checking the targets from the `i`th on, then removing them.
pub open spec fn verify_from(m: ModuleView, home: Seq<char>, i: int) -> (UninstallStage, Act) {
    if i < m.def.resources.len() {
        (UninstallStage::Verifying(i as usize), Act::Inspect(target(m, home, i)))
    } else {
        remove_from(m, home, 0)
    }
}

/// Removing the targets from the `i`th on, then the cleanup script.
pub open spec fn remove_from(m: ModuleView, home: Seq<char>, i: int) -> (UninstallStage, Act) {
    if i < m.def.resources.len() {
        (UninstallStage::Removing(i as usize), Act::Inspect(target(m, home, i)))
    } else if m.def.cleanup {
        (UninstallStage::Running, Act::Run(joined(m.path, CLEANUP_SCRIPT@)))
    } else {
        (UninstallStage::Finished, Act::Done(Ok(())))
    }
}

/// How an uninstall starts: with `force` no target is checked.
pub open spec fn uninstall_start(m: ModuleView, home: Seq<char>, force: bool) -> (UninstallStage, Act) {
    if force {
        remove_from(m, home, 0)
    } else {
        verify_from(m, home, 0)
    }
}

pub open spec fn fail(f: Fault) -> (UninstallStage, Act) {
    (UninstallStage::Finished, Act::Done(Err(f)))
}

/// Whether an uninstall at `stage` can take `event`.
pub open spec fn uninstall_awaits(stage: UninstallStage, event: Event) -> bool {
    match stage {
        UninstallStage::Verifying(_) | UninstallStage::Removing(_) => event is Seen,
        UninstallStage::Reading(_) => event is LinkRead,
        UninstallStage::Deleting(_) => event is Completed || event is Failed,
        UninstallStage::Running => event is Exited || event is Failed,
        UninstallStage::Finished => false,
    }
}

/// The next stage of an uninstall of `m`, and what the caller does next.
///
/// Unless forced, every existing target must first be a link whose stored
/// path is this module's resource; otherwise nothing is removed.
/// Then each existing target is removed, and the cleanup script, if
/// declared, is run. The first failure ends the uninstall.
pub open spec fn uninstall_next(m: ModuleView, home: Seq<char>, stage: UninstallStage, event: Event) -> (
    UninstallStage,
    Act,
) {
    match stage {
        UninstallStage::Verifying(i) => match event {
            Event::Seen(Presence::Missing) => verify_from(m, home, i + 1),
            _ => (UninstallStage::Reading(i), Act::ReadLink(target(m, home, i as int))),
        },
        UninstallStage::Reading(i) => match event {
            Event::LinkRead(Ok(s)) => if same_path(s@, source(m, i as int)) {
                verify_from(m, home, i + 1)
            } else {
                fail(Fault::Uninstall(m.name, s@))
            },
            Event::LinkRead(Err(e)) => fail(Fault::IO(m.name, e)),
            _ => (stage, Act::ReadLink(target(m, home, i as int))),
        },
        UninstallStage::Removing(i) => match event {
            Event::Seen(Presence::Missing) => remove_from(m, home, i + 1),
            Event::Seen(Presence::File) => (
                UninstallStage::Deleting(i),
                Act::RemoveFile(target(m, home, i as int)),
            ),
            _ => (UninstallStage::Deleting(i), Act::RemoveDir(target(m, home, i as int))),
        },
        UninstallStage::Deleting(i) => match event {
            Event::Failed(e) => fail(Fault::IO(m.name, e)),
            _ => remove_from(m, home, i + 1),
        },
        UninstallStage::Running => match event {
            Event::Exited(true) => (UninstallStage::Finished, Act::Done(Ok(()))),
            Event::Failed(e) => fail(Fault::IO(m.name, e)),
            _ => fail(Fault::Exec(m.name, "cleanup"@)),
        },
        UninstallStage::Finished => (UninstallStage::Finished, Act::Done(Ok(()))),
    }
}

/// An uninstall of one module from one home directory, in progress.
pub struct Uninstaller {
    stage: UninstallStage,
    home: String,
}

impl Uninstaller {
    pub closed spec fn stage(&self) -> UninstallStage {
        self.stage
    }

    pub closed spec fn home(&self) -> Seq<char> {
        self.home@
    }

    /// Whether the stage's resource index is within the module's resources.
    pub open spec fn wf(&self, m: ModuleView) -> bool {
        match self.stage() {
            UninstallStage::Verifying(i) | UninstallStage::Reading(i) | UninstallStage::Removing(i)
            | UninstallStage::Deleting(i) => i < m.def.resources.len(),
            _ => true,
        }
    }

    /// Starts uninstalling `module` from `home`; with `force`, targets are
    /// removed whatever they are.
    pub fn new(module: &Module, home: String, force: bool) -> (r: (Uninstaller, Action))
        ensures
            r.0.home() == home@,
            (r.0.stage(), r.1@) == uninstall_start(module@, home@, force),
            r.0.wf(module@),
    {
        let mut u = Uninstaller { stage: UninstallStage::Finished, home };
        let a = if force {
            u.remove_from(module, 0)
        } else {
            u.verify_from(module, 0)
        };
        (u, a)
    }

    /// Whether `event` answers the action last handed out.
    pub fn awaits(&self, event: &Event) -> (r: bool)
        ensures
            r == uninstall_awaits(self.stage(), *event),
    {
        match self.stage {
            UninstallStage::Verifying(_) | UninstallStage::Removing(_) => matches!(event, Event::Seen(_)),
            UninstallStage::Reading(_) => matches!(event, Event::LinkRead(_)),
            UninstallStage::Deleting(_) => matches!(event, Event::Completed | Event::Failed(_)),
            UninstallStage::Running => matches!(event, Event::Exited(_) | Event::Failed(_)),
            UninstallStage::Finished => false,
        }
    }

    /// Takes the caller's report on the last action and hands out the next.
    pub fn step(&mut self, module: &Module, event: Event) -> (r: Action)
        requires
            uninstall_awaits(old(self).stage(), event),
            old(self).wf(module@),
        ensures
            (final(self).stage(), r@) == uninstall_next(
                module@,
                old(self).home(),
                old(self).stage(),
                event,
            ),
            final(self).home() == old(self).home(),
            final(self).wf(module@),
    {
        let ghost m = module@;
        let n: usize = module.definition().resources.len();
        assert(n == m.def.resources.len());
        match self.stage {
            UninstallStage::Verifying(i) => {
                match event {
                    Event::Seen(Presence::Missing) => self.verify_from(module, i + 1),
                    _ => {
                        let t = self.target(module, i);
                        self.stage = UninstallStage::Reading(i);
                        Action::ReadLink(t)
                    },
                }
            },
            UninstallStage::Reading(i) => {
                match event {
                    Event::LinkRead(Ok(s)) => {
                        let expected = join_path(
                            module.path(),
                            module.definition().resources[i].0.as_str(),
                        );
                        if paths_equal(s.as_str(), expected.as_str()) {
                            self.verify_from(module, i + 1)
                        } else {
                            self.finish(ModuleError::Uninstall(module.name().to_owned(), s))
                        }
                    },
                    Event::LinkRead(Err(e)) => self.finish(module.wrap_io_error(e)),
                    _ => Action::ReadLink(self.target(module, i)),
                }
            },
            UninstallStage::Removing(i) => {
                let t = self.target(module, i);
                self.stage = UninstallStage::Deleting(i);
                match event {
                    Event::Seen(Presence::Missing) => self.remove_from(module, i + 1),
                    Event::Seen(Presence::File) => Action::RemoveFile(t),
                    _ => Action::RemoveDir(t),
                }
            },
            UninstallStage::Deleting(i) => {
                match event {
                    Event::Failed(e) => self.finish(module.wrap_io_error(e)),
                    _ => self.remove_from(module, i + 1),
                }
            },
            UninstallStage::Running => {
                match event {
                    Event::Exited(true) => {
                        self.stage = UninstallStage::Finished;
                        Action::Done(Ok(()))
                    },
                    Event::Failed(e) => self.finish(module.wrap_io_error(e)),
                    _ => {
                        proof {
                            reveal_strlit("cleanup");
                        }
                        self.finish(ModuleError::Exec(module.name().to_owned(), "cleanup".to_owned()))
                    },
                }
            },
            UninstallStage::Finished => Action::Done(Ok(())),
        }
    }

    fn finish(&mut self, e: ModuleError) -> (r: Action)
        ensures
            final(self).stage() == UninstallStage::Finished,
            final(self).home() == old(self).home(),
            r@ == Act::Done(Err(e@)),
    {
        self.stage = UninstallStage::Finished;
        Action::Done(Err(e))
    }

    fn target(&self, module: &Module, i: usize) -> (r: String)
        requires
            i < module@.def.resources.len(),
        ensures
            r@ == target(module@, self.home(), i as int),
    {
        join_path(self.home.as_str(), module.definition().resources[i].1.as_str())
    }

    fn verify_from(&mut self, module: &Module, i: usize) -> (r: Action)
        requires
            i <= module@.def.resources.len(),
        ensures
            final(self).home() == old(self).home(),
            (final(self).stage(), r@) == verify_from(module@, old(self).home(), i as int),
            final(self).wf(module@),
    {
        if i < module.definition().resources.len() {
            let t = self.target(module, i);
            self.stage = UninstallStage::Verifying(i);
            Action::Inspect(t)
        } else {
            self.remove_from(module, 0)
        }
    }

    fn remove_from(&mut self, module: &Module, i: usize) -> (r: Action)
        requires
            i <= module@.def.resources.len(),
        ensures
            final(self).home() == old(self).home(),
            (final(self).stage(), r@) == remove_from(module@, old(self).home(), i as int),
            final(self).wf(module@),
    {
        if i < module.definition().resources.len() {
            let t = self.target(module, i);
            self.stage = UninstallStage::Removing(i);
            Action::Inspect(t)
        } else if module.definition().cleanup {
            self.stage = UninstallStage::Running;
            Action::Run(join_path(module.path(), CLEANUP_SCRIPT))
        } else {
            self.stage = UninstallStage::Finished;
            Action::Done(Ok(()))
        }
    }
}

/// An uninstall that is not forced stops at a target whose link holds
/// anything but the module's resource, naming what it holds; and nothing is
/// removed while the targets are being checked.
pub proof fn lemma_foreign_link_kept(m: ModuleView, home: Seq<char>, i: usize, held: String)
    requires
        i < m.def.resources.len(),
        !same_path(held@, source(m, i as int)),
    ensures
        uninstall_next(m, home, UninstallStage::Reading(i), Event::LinkRead(Ok(held)))
            == fail(Fault::Uninstall(m.name, held@)),
        forall|e: Event|
            uninstall_awaits(UninstallStage::Verifying(i), e) ==> !removes(
                #[trigger] uninstall_next(m, home, UninstallStage::Verifying(i), e).1,
            ),
        forall|e: Event|
            uninstall_awaits(UninstallStage::Reading(i), e) ==> !removes(
                #[trigger] uninstall_next(m, home, UninstallStage::Reading(i), e).1,
            ),
{
    assert forall|e: Event|
        uninstall_awaits(UninstallStage::Verifying(i), e) implies !removes(
            #[trigger] uninstall_next(m, home, UninstallStage::Verifying(i), e).1,
        ) by {
        lemma_verify_from_keeps(m, home, i + 1);
    }
    assert forall|e: Event|
        uninstall_awaits(UninstallStage::Reading(i), e) implies !removes(
            #[trigger] uninstall_next(m, home, UninstallStage::Reading(i), e).1,
        ) by {
        lemma_verify_from_keeps(m, home, i + 1);
    }
}

/// Whether an action removes something.
pub open spec fn removes(a: Act) -> bool {
    a is RemoveFile || a is RemoveDir
}

proof fn lemma_verify_from_keeps(m: ModuleView, home: Seq<char>, i: int)
    ensures
        !removes(verify_from(m, home, i).1),
{
}

/// Where an install of `m` stands after `events`, starting from `start`.
pub open spec fn install_run(
    m: ModuleView,
    home: Seq<char>,
    force: bool,
    start: (crate::install::InstallStage, Act),
    events: Seq<Event>,
) -> (crate::install::InstallStage, Act)
    decreases events.len(),
{
    if events.len() == 0 {
        start
    } else {
        install_run(m, home, force, install_next(m, home, force, start.0, events[0]), events.drop_first())
    }
}

/// Where an uninstall of `m` stands after `events`, starting from `start`.
pub open spec fn uninstall_run(
    m: ModuleView,
    home: Seq<char>,
    start: (UninstallStage, Act),
    events: Seq<Event>,
) -> (UninstallStage, Act)
    decreases events.len(),
{
    if events.len() == 0 {
        start
    } else {
        uninstall_run(m, home, uninstall_next(m, home, start.0, events[0]), events.drop_first())
    }
}

/// What a clean home reports while an install checks the targets from the
/// `i`th on: nothing at each target, and the given ancestors.
pub open spec fn clean_checks(ancestors: Seq<Vec<Ancestor>>, i: int) -> Seq<Event>
    decreases ancestors.len() - i,
{
    if 0 <= i < ancestors.len() {
        seq![Event::Seen(Presence::Missing), Event::Ancestors(ancestors[i])] + clean_checks(
            ancestors,
            i + 1,
        )
    } else {
        Seq::empty()
    }
}

/// What the home reports while an uninstall checks the targets from the
/// `i`th on: something at each target, a link holding the given path.
pub open spec fn link_checks(found: Seq<Presence>, links: Seq<String>, i: int) -> Seq<Event>
    decreases found.len() - i,
{
    if 0 <= i < found.len() {
        seq![Event::Seen(found[i]), Event::LinkRead(Ok(links[i]))] + link_checks(found, links, i + 1)
    } else {
        Seq::empty()
    }
}

/// What the home reports while an uninstall removes the targets from the
/// `i`th on: something at each target, and each removal succeeding.
pub open spec fn removals(found: Seq<Presence>, i: int) -> Seq<Event>
    decreases found.len() - i,
{
    if 0 <= i < found.len() {
        seq![Event::Seen(found[i]), Event::Completed] + removals(found, i + 1)
    } else {
        Seq::empty()
    }
}

/// `k` successful completions.
pub open spec fn completions(k: nat) -> Seq<Event> {
    Seq::new(k, |j: int| Event::Completed)
}

/// A successful run of the script, where one is declared.
pub open spec fn script_exit(declared: bool) -> Seq<Event> {
    if declared {
        seq![Event::Exited(true)]
    } else {
        Seq::empty()
    }
}

proof fn lemma_install_run_append(
    m: ModuleView,
    home: Seq<char>,
    force: bool,
    start: (crate::install::InstallStage, Act),
    a: Seq<Event>,
    b: Seq<Event>,
)
    ensures
        install_run(m, home, force, start, a + b) == install_run(
            m,
            home,
            force,
            install_run(m, home, force, start, a),
            b,
        ),
    decreases a.len(),
{
    if a.len() > 0 {
        assert((a + b).drop_first() =~= a.drop_first() + b);
        lemma_install_run_append(
            m,
            home,
            force,
            install_next(m, home, force, start.0, a[0]),
            a.drop_first(),
            b,
        );
    } else {
        assert(a + b =~= b);
    }
}

proof fn lemma_uninstall_run_append(
    m: ModuleView,
    home: Seq<char>,
    start: (UninstallStage, Act),
    a: Seq<Event>,
    b: Seq<Event>,
)
    ensures
        uninstall_run(m, home, start, a + b) == uninstall_run(
            m,
            home,
            uninstall_run(m, home, start, a),
            b,
        ),
    decreases a.len(),
{
    if a.len() > 0 {
        assert((a + b).drop_first() =~= a.drop_first() + b);
        lemma_uninstall_run_append(m, home, uninstall_next(m, home, start.0, a[0]), a.drop_first(), b);
    } else {
        assert(a + b =~= b);
    }
}

proof fn lemma_install_run_two(
    m: ModuleView,
    home: Seq<char>,
    force: bool,
    start: (crate::install::InstallStage, Act),
    a: Event,
    b: Event,
)
    ensures
        install_run(m, home, force, start, seq![a, b]) == install_next(
            m,
            home,
            force,
            install_next(m, home, force, start.0, a).0,
            b,
        ),
{
    let s1 = install_next(m, home, force, start.0, a);
    let s2 = install_next(m, home, force, s1.0, b);
    assert(seq![a, b].drop_first() =~= seq![b]);
    assert(seq![b].drop_first() =~= Seq::<Event>::empty());
    assert(install_run(m, home, force, s1, seq![b]) == install_run(m, home, force, s2, Seq::empty()));
}

proof fn lemma_uninstall_run_two(
    m: ModuleView,
    home: Seq<char>,
    start: (UninstallStage, Act),
    a: Event,
    b: Event,
)
    ensures
        uninstall_run(m, home, start, seq![a, b]) == uninstall_next(
            m,
            home,
            uninstall_next(m, home, start.0, a).0,
            b,
        ),
{
    let s1 = uninstall_next(m, home, start.0, a);
    let s2 = uninstall_next(m, home, s1.0, b);
    assert(seq![a, b].drop_first() =~= seq![b]);
    assert(seq![b].drop_first() =~= Seq::<Event>::empty());
    assert(uninstall_run(m, home, s1, seq![b]) == uninstall_run(m, home, s2, Seq::empty()));
}

proof fn lemma_clean_checks(m: ModuleView, home: Seq<char>, ancestors: Seq<Vec<Ancestor>>, i: int)
    requires
        ancestors.len() == m.def.resources.len(),
        m.def.resources.len() <= usize::MAX,
        0 <= i <= ancestors.len(),
        forall|k: int| 0 <= k < ancestors.len() ==> first_blocked((#[trigger] ancestors[k])@) is None,
    ensures
        install_run(m, home, false, check_from(m, home, i), clean_checks(ancestors, i)) == link_from(
            m,
            home,
            0,
        ),
    decreases ancestors.len() - i,
{
    if i < ancestors.len() {
        let two = seq![Event::Seen(Presence::Missing), Event::Ancestors(ancestors[i])];
        lemma_install_run_append(m, home, false, check_from(m, home, i), two, clean_checks(ancestors, i + 1));
        lemma_install_run_two(m, home, false, check_from(m, home, i), two[0], two[1]);
        assert(two =~= seq![two[0], two[1]]);
        lemma_clean_checks(m, home, ancestors, i + 1);
    }
}

proof fn lemma_link_all(m: ModuleView, home: Seq<char>, i: int)
    requires
        0 <= i <= m.def.resources.len(),
        m.def.resources.len() <= usize::MAX,
    ensures
        install_run(m, home, false, link_from(m, home, i), completions((m.def.resources.len() - i) as nat))
            == link_from(m, home, m.def.resources.len() as int),
    decreases m.def.resources.len() - i,
{
    if i < m.def.resources.len() {
        let k = (m.def.resources.len() - i) as nat;
        assert(completions(k).drop_first() =~= completions((k - 1) as nat));
        lemma_link_all(m, home, i + 1);
    }
}

proof fn lemma_link_checks(m: ModuleView, home: Seq<char>, found: Seq<Presence>, links: Seq<String>, i: int)
    requires
        found.len() == m.def.resources.len(),
        links.len() == m.def.resources.len(),
        m.def.resources.len() <= usize::MAX,
        0 <= i <= found.len(),
        forall|k: int| 0 <= k < found.len() ==> !((#[trigger] found[k]) is Missing),
        forall|k: int| 0 <= k < links.len() ==> same_path((#[trigger] links[k])@, source(m, k)),
    ensures
        uninstall_run(m, home, verify_from(m, home, i), link_checks(found, links, i)) == remove_from(
            m,
            home,
            0,
        ),
    decreases found.len() - i,
{
    if i < found.len() {
        let two = seq![Event::Seen(found[i]), Event::LinkRead(Ok(links[i]))];
        lemma_uninstall_run_append(m, home, verify_from(m, home, i), two, link_checks(found, links, i + 1));
        lemma_uninstall_run_two(m, home, verify_from(m, home, i), two[0], two[1]);
        assert(two =~= seq![two[0], two[1]]);
        lemma_link_checks(m, home, found, links, i + 1);
    }
}

proof fn lemma_removals(m: ModuleView, home: Seq<char>, found: Seq<Presence>, i: int)
    requires
        found.len() == m.def.resources.len(),
        m.def.resources.len() <= usize::MAX,
        0 <= i <= found.len(),
        forall|k: int| 0 <= k < found.len() ==> !((#[trigger] found[k]) is Missing),
    ensures
        uninstall_run(m, home, remove_from(m, home, i), removals(found, i)) == remove_from(
            m,
            home,
            found.len() as int,
        ),
    decreases found.len() - i,
{
    if i < found.len() {
        let two = seq![Event::Seen(found[i]), Event::Completed];
        lemma_uninstall_run_append(m, home, remove_from(m, home, i), two, removals(found, i + 1));
        lemma_uninstall_run_two(m, home, remove_from(m, home, i), two[0], two[1]);
        assert(two =~= seq![two[0], two[1]]);
        lemma_removals(m, home, found, i + 1);
    }
}

/// Installing without force into a home where no target or blocking
/// ancestor exists, then uninstalling without force, both succeed: the links
/// that the install makes point each target at its resource, the uninstall
/// accepts links that hold those paths, and it removes every target.
pub proof fn lemma_round_trip(
    m: ModuleView,
    home: Seq<char>,
    ancestors: Seq<Vec<Ancestor>>,
    found: Seq<Presence>,
    links: Seq<String>,
)
    requires
        m.def.resources.len() <= usize::MAX,
        ancestors.len() == m.def.resources.len(),
        forall|k: int| 0 <= k < ancestors.len() ==> first_blocked((#[trigger] ancestors[k])@) is None,
        found.len() == m.def.resources.len(),
        forall|k: int| 0 <= k < found.len() ==> !((#[trigger] found[k]) is Missing),
        links.len() == m.def.resources.len(),
        forall|k: int| 0 <= k < links.len() ==> same_path((#[trigger] links[k])@, source(m, k)),
    ensures
        install_run(
            m,
            home,
            false,
            check_from(m, home, 0),
            clean_checks(ancestors, 0) + completions(m.def.resources.len()) + script_exit(m.def.init),
        ).1 == Act::Done(Ok(())),
        forall|k: int|
            0 <= k < m.def.resources.len() ==> #[trigger] link_from(m, home, k).1 == Act::Link(
                source(m, k),
                target(m, home, k),
            ),
        uninstall_run(
            m,
            home,
            uninstall_start(m, home, false),
            link_checks(found, links, 0) + removals(found, 0) + script_exit(m.def.cleanup),
        ).1 == Act::Done(Ok(())),
        forall|k: int|
            0 <= k < m.def.resources.len() ==> removes(
                #[trigger] uninstall_next(m, home, UninstallStage::Removing(k as usize), Event::Seen(found[k])).1,
            ) && (uninstall_next(m, home, UninstallStage::Removing(k as usize), Event::Seen(found[k])).1
                matches Act::RemoveFile(t) ==> t == target(m, home, k)) && (uninstall_next(
                m,
                home,
                UninstallStage::Removing(k as usize),
                Event::Seen(found[k]),
            ).1 matches Act::RemoveDir(t) ==> t == target(m, home, k)),
{
    let n = m.def.resources.len();
    let checks = clean_checks(ancestors, 0);
    let done = completions(n);
    let exit = script_exit(m.def.init);
    lemma_install_run_append(m, home, false, check_from(m, home, 0), checks + done, exit);
    lemma_install_run_append(m, home, false, check_from(m, home, 0), checks, done);
    lemma_clean_checks(m, home, ancestors, 0);
    lemma_link_all(m, home, 0);
    let linked = link_from(m, home, n as int);
    if m.def.init {
        assert(exit.drop_first() =~= Seq::<Event>::empty());
        assert(install_run(m, home, false, linked, exit) == install_run(
            m,
            home,
            false,
            install_next(m, home, false, linked.0, Event::Exited(true)),
            Seq::empty(),
        ));
    } else {
        assert(install_run(m, home, false, linked, exit) == linked);
    }
    let lc = link_checks(found, links, 0);
    let rm = removals(found, 0);
    let cexit = script_exit(m.def.cleanup);
    lemma_uninstall_run_append(m, home, uninstall_start(m, home, false), lc + rm, cexit);
    lemma_uninstall_run_append(m, home, uninstall_start(m, home, false), lc, rm);
    lemma_link_checks(m, home, found, links, 0);
    lemma_removals(m, home, found, 0);
    let removed = remove_from(m, home, n as int);
    if m.def.cleanup {
        assert(cexit.drop_first() =~= Seq::<Event>::empty());
        assert(uninstall_run(m, home, removed, cexit) == uninstall_run(
            m,
            home,
            uninstall_next(m, home, removed.0, Event::Exited(true)),
            Seq::empty(),
        ));
    } else {
        assert(uninstall_run(m, home, removed, cexit) == removed);
    }
}

impl Module {
    /// Starts uninstalling this module from `home`; with `force`, targets
    /// are removed whatever they are.
    pub fn uninstall(&self, home: String, force: bool) -> (r: (Uninstaller, Action))
        ensures
            r.0.home() == home@,
            (r.0.stage(), r.1@) == uninstall_start(self@, home@, force),
            r.0.wf(self@),
    {
        Uninstaller::new(self, home, force)
    }
}

} // verus!
