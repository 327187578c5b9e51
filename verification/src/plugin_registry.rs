//! Installing plugins with their dependencies, and the choices made around
//! an installation: which platform build to take and what a batch reports.
//!
//! Dependencies are installed depth first, in the order a plugin lists them;
//! a plugin already in the walk is not visited again (which also breaks
//! dependency cycles) and an installed plugin is skipped with its
//! dependencies. Querying the registry and installing stand outside this
//! library: the walk tells its driver what to do next and is told the outcome.
use vstd::prelude::*;
use crate::error::InstallerError;
use crate::text::owned;
use crate::protocol::copy_strings;
use crate::completions::{join, join_strings};

verus! {

/// The stack measure of a walk: every pending dependency and every level counts one.
pub open spec fn walk_measure(frames: Seq<Seq<Seq<char>>>) -> nat
    decreases frames.len(),
{
    if frames.len() == 0 {
        0
    } else {
        walk_measure(frames.drop_last()) + frames.last().len() + 1
    }
}

/// Where the walk goes next from `frames`: the first pending dependency of
/// the innermost level that is not yet in `seen`, with the levels left after
/// taking it; finished levels are dropped and dependencies already seen are
/// passed over.
pub open spec fn next_dependency(frames: Seq<Seq<Seq<char>>>, seen: Set<Seq<char>>) -> (Seq<Seq<Seq<char>>>, Option<Seq<char>>)
    decreases walk_measure(frames),
{
    if frames.len() == 0 {
        (frames, None)
    } else {
        let top = frames.last();
        if top.len() == 0 {
            next_dependency(frames.drop_last(), seen)
        } else {
            let f2 = frames.update(frames.len() - 1, top.drop_first());
            proof {
                assert(f2.drop_last() =~= frames.drop_last());
            }
            if seen.contains(top[0]) {
                next_dependency(f2, seen)
            } else {
                (f2, Some(top[0]))
            }
        }
    }
}

/// Whether `a` is what is left of `b` after some of its first entries.
pub open spec fn is_suffix_of(a: Seq<Seq<char>>, b: Seq<Seq<char>>) -> bool {
    a.len() <= b.len() && a == b.skip(b.len() - a.len())
}

/// Where the walk goes next keeps what is left of each level, and takes the
/// next plugin from the innermost level left: it is the entry of that level
/// just before what is left of it.
proof fn lemma_next_dependency_shape(frames: Seq<Seq<Seq<char>>>, seen: Set<Seq<char>>)
    ensures
        ({
            let (f, next) = next_dependency(frames, seen);
            &&& f.len() <= frames.len()
            &&& forall|l: int| 0 <= l < f.len() ==> is_suffix_of(#[trigger] f[l], frames[l])
            &&& next matches Some(d) ==> {
                let m = f.len() - 1;
                &&& f.len() >= 1
                &&& f[m].len() < frames[m].len()
                &&& frames[m][frames[m].len() - f[m].len() - 1] == d
            }
        }),
    decreases walk_measure(frames),
{
    if frames.len() > 0 {
        let n = frames.len() - 1;
        let top = frames.last();
        if top.len() == 0 {
            let t = frames.drop_last();
            lemma_next_dependency_shape(t, seen);
            let (f, next) = next_dependency(t, seen);
            assert forall|l: int| 0 <= l < f.len() implies is_suffix_of(#[trigger] f[l], frames[l]) by {
                assert(t[l] == frames[l]);
            }
            if next is Some {
                assert(t[f.len() - 1] == frames[f.len() - 1]);
            }
        } else {
            let f2 = frames.update(n, top.drop_first());
            assert(f2.drop_last() =~= frames.drop_last());
            assert(top.drop_first() =~= top.skip(top.len() - top.drop_first().len()));
            if seen.contains(top[0]) {
                lemma_next_dependency_shape(f2, seen);
                let (f, next) = next_dependency(f2, seen);
                assert forall|l: int| 0 <= l < f.len() implies is_suffix_of(#[trigger] f[l], frames[l]) by {
                    if l == n {
                        assert(f[l] =~= frames[l].skip(frames[l].len() - f[l].len()));
                    }
                }
                if next is Some {
                    let m = f.len() - 1;
                    if m == n {
                        assert(f2[m][f2[m].len() - f[m].len() - 1] == top[top.len() - f[m].len() - 1]);
                    }
                }
            } else {
                assert forall|l: int| 0 <= l < f2.len() implies is_suffix_of(#[trigger] f2[l], frames[l]) by {
                    if l != n {
                        assert(f2[l] =~= frames[l].skip(0));
                    }
                }
            }
        }
    }
}

/// The stage of a dependency walk.
#[derive(PartialEq, Eq, Structural, Debug, Clone, Copy)]
pub enum WalkStage {
    /// Waiting to learn whether the current plugin is installed.
    Checking,
    /// Waiting for the current plugin to be installed.
    Installing,
    /// Waiting for the current plugin's dependencies.
    Listing,
    /// Nothing is pending.
    Finished,
}

/// What the driver of a walk has to do next.
pub enum WalkStep {
    /// Report whether plugin `id` is installed (`on_checked`). A dependency
    /// is announced before it is checked.
    Check { id: String, dependency: bool },
    /// Install plugin `id` in `version`, or the latest (`on_installed`).
    Install { id: String, version: Option<String> },
    /// Report the dependencies of plugin `id` (`on_dependencies`).
    ListDependencies { id: String },
    /// The walk is over.
    Finished,
}

/// A depth-first walk that installs a plugin and its dependencies.
pub struct DependencyWalk {
    seen: Vec<String>,
    frames: Vec<Vec<String>>,
    current: String,
    version: Option<String>,
    stage: WalkStage,
    /// The plugins installed so far by the walk, in order.
    installed: Ghost<Seq<Seq<char>>>,
    /// For each pending level, the plugin whose dependencies it holds.
    owners: Ghost<Seq<Seq<char>>>,
    /// For each pending level, all the dependencies its owner listed.
    listings: Ghost<Seq<Seq<Seq<char>>>>,
    /// The plugin that listed the current plugin as a dependency, with what
    /// it listed; none for the plugin the walk started from.
    dependent: Ghost<Option<(Seq<char>, Seq<Seq<char>>)>>,
}

impl DependencyWalk {
    /// The plugins the walk has visited.
    pub closed spec fn seen(self) -> Set<Seq<char>> {
        self.seen.deep_view().to_set()
    }

    /// The pending dependencies, by level (innermost last).
    pub closed spec fn frames(self) -> Seq<Seq<Seq<char>>> {
        self.frames.deep_view()
    }

    /// The plugin being handled.
    pub closed spec fn current(self) -> Seq<char> {
        self.current@
    }

    /// The version to install the plugin being handled in.
    pub closed spec fn version(self) -> Option<Seq<char>> {
        self.version.deep_view()
    }

    /// The stage of the walk.
    pub closed spec fn stage(self) -> WalkStage {
        self.stage
    }

    /// The plugins the walk has installed so far, in order.
    pub closed spec fn installed(self) -> Seq<Seq<char>> {
        self.installed@
    }

    /// The plugin that listed the plugin being handled as a dependency, with
    /// the dependencies it listed; none for the plugin the walk started from.
    pub closed spec fn dependent(self) -> Option<(Seq<char>, Seq<Seq<char>>)> {
        self.dependent@
    }

    /// The walk proper: the plugin being handled has been visited.
    closed spec fn walk_ok(self) -> bool {
        self.stage != WalkStage::Finished ==> self.seen().contains(self.current())
    }

    /// What the walk has done so far: each installed plugin was visited and
    /// is installed once; every pending level belongs to an installed plugin
    /// and is what is left of the dependencies it listed; the plugin being
    /// checked or installed is not installed yet, and the plugin that listed
    /// it is; the plugin whose dependencies are awaited was installed last.
    closed spec fn history_ok(self) -> bool {
        let inst = self.installed@;
        &&& inst.no_duplicates()
        &&& forall|i: int| 0 <= i < inst.len() ==> self.seen().contains(#[trigger] inst[i])
        &&& self.owners@.len() == self.frames().len()
        &&& self.listings@.len() == self.frames().len()
        &&& forall|l: int| 0 <= l < self.frames().len() ==> inst.contains(#[trigger] self.owners@[l])
        &&& forall|l: int|
            0 <= l < self.frames().len() ==> is_suffix_of(#[trigger] self.frames()[l], self.listings@[l])
        &&& (self.stage == WalkStage::Checking || self.stage == WalkStage::Installing) ==> {
            &&& !inst.contains(self.current())
            &&& self.dependent@ matches Some((p, listed)) ==> inst.contains(p) && listed.contains(self.current())
        }
        &&& self.stage == WalkStage::Listing ==> inst.len() > 0 && inst.last() == self.current()
    }

    /// The walk is well formed.
    pub closed spec fn wf(self) -> bool {
        self.walk_ok() && self.history_ok()
    }

    /// A walk from plugin `id` in `version`: it starts by checking whether
    /// `id` is installed.
    pub fn start(id: &str, version: Option<&str>) -> (r: (Self, WalkStep))
        ensures
            r.0.wf(),
            r.0.seen() == Set::<Seq<char>>::empty().insert(id@),
            r.0.frames() == Seq::<Seq<Seq<char>>>::empty(),
            r.0.current() == id@,
            r.0.version() == (match version {
                Some(v) => Some(v@),
                None => None,
            }),
            r.0.stage() == WalkStage::Checking,
            r.0.installed() == Seq::<Seq<char>>::empty(),
            r.0.dependent() is None,
            r.1 matches WalkStep::Check { id: c, dependency } && c@ == id@ && !dependency,
    {
        let mut seen: Vec<String> = Vec::new();
        seen.push(owned(id));
        let frames: Vec<Vec<String>> = Vec::new();
        let w = DependencyWalk {
            seen,
            frames,
            current: owned(id),
            version: match version {
                Some(v) => Some(owned(v)),
                None => None,
            },
            stage: WalkStage::Checking,
            installed: Ghost(Seq::empty()),
            owners: Ghost(Seq::empty()),
            listings: Ghost(Seq::empty()),
            dependent: Ghost(None),
        };
        assert(w.seen.deep_view() =~= seq![id@]);
        assert(seq![id@].to_set() =~= Set::<Seq<char>>::empty().insert(id@)) by {
            assert forall|x: Seq<char>| seq![id@].to_set().contains(x) <==> x == id@ by {
                if x == id@ {
                    assert(seq![id@][0] == x);
                }
            }
        }
        assert(w.frames.deep_view() =~= Seq::<Seq<Seq<char>>>::empty());
        (w, WalkStep::Check { id: owned(id), dependency: false })
    }

    /// Whether `id` has been visited (executable).
    fn has_seen(&self, id: &String) -> (r: bool)
        ensures
            r == self.seen().contains(id@),
    {
        let mut i: usize = 0;
        while i < self.seen.len()
            invariant
                i <= self.seen@.len(),
                forall|j: int| 0 <= j < i ==> self.seen.deep_view()[j] != id@,
            decreases self.seen@.len() - i,
        {
            if self.seen[i] == *id {
                assert(self.seen.deep_view()[i as int] == id@);
                return true;
            }
            i = i + 1;
        }
        assert(!self.seen.deep_view().contains(id@));
        false
    }

    /// Moves to the next dependency to visit (see `next_dependency`), or
    /// finishes; the next plugin's dependent is the owner of the level it is
    /// taken from.
    fn advance(&mut self) -> (r: WalkStep)
        requires
            old(self).wf(),
            old(self).stage() == WalkStage::Checking || old(self).stage() == WalkStage::Listing,
        ensures
            final(self).wf(),
            final(self).installed() == old(self).installed(),
            ({
                let (f, next) = next_dependency(old(self).frames(), old(self).seen());
                &&& final(self).frames() == f
                &&& match next {
                    Some(d) => {
                        &&& final(self).seen() == old(self).seen().insert(d)
                        &&& final(self).current() == d
                        &&& final(self).version() is None
                        &&& final(self).stage() == WalkStage::Checking
                        &&& r matches WalkStep::Check { id, dependency } && id@ == d && dependency
                        &&& final(self).dependent() is Some
                    },
                    None => {
                        &&& final(self).seen() == old(self).seen()
                        &&& final(self).stage() == WalkStage::Finished
                        &&& r is Finished
                    },
                }
            }),
    {
        let ghost target = next_dependency(self.frames(), self.seen());
        let ghost frames0 = self.frames();
        let ghost seen0 = self.seen();
        let ghost owners0 = self.owners@;
        let ghost listings0 = self.listings@;
        proof {
            lemma_next_dependency_shape(frames0, seen0);
            law_walk_visits_each_plugin_once(frames0, seen0);
        }
        loop
            invariant
                self.seen() == old(self).seen(),
                self.seen() == seen0,
                self.installed@ == old(self).installed@,
                self.owners@ == owners0,
                self.listings@ == listings0,
                target == next_dependency(old(self).frames(), old(self).seen()),
                target == next_dependency(frames0, seen0),
                next_dependency(self.frames(), self.seen()) == target,
                self.walk_ok(),
                old(self).history_ok(),
                old(self).frames() == frames0,
                old(self).owners@ == owners0,
                old(self).listings@ == listings0,
                old(self).stage() == WalkStage::Checking || old(self).stage() == WalkStage::Listing,
            decreases walk_measure(self.frames()),
        {
            let n = self.frames.len();
            if n == 0 {
                assert(next_dependency(self.frames(), self.seen()) == (self.frames(), None::<Seq<char>>));
                self.stage = WalkStage::Finished;
                proof {
                    self.owners = Ghost(owners0.subrange(0, 0));
                    self.listings = Ghost(listings0.subrange(0, 0));
                }
                return WalkStep::Finished;
            }
            if self.frames[n - 1].len() == 0 {
                let ghost before = self.frames();
                self.frames.pop();
                assert(self.frames() =~= before.drop_last());
            } else {
                let ghost before = self.frames();
                let mut top = self.frames.pop().unwrap();
                let d = top.remove(0);
                assert(top.deep_view() =~= before.last().drop_first());
                self.frames.push(top);
                assert(self.frames() =~= before.update(before.len() - 1, before.last().drop_first()));
                assert(self.frames().drop_last() =~= before.drop_last());
                assert(before.last()[0] == d@);
                if !self.has_seen(&d) {
                    assert(next_dependency(before, self.seen()) == (self.frames(), Some(d@)));
                    let ghost prev = self.seen.deep_view();
                    self.seen.push(d.clone());
                    assert(self.seen.deep_view() =~= prev.push(d@));
                    assert(self.seen() =~= old(self).seen().insert(d@)) by {
                        assert forall|x: Seq<char>| #[trigger] self.seen().contains(x) <==> old(self).seen().insert(d@).contains(x) by {
                            if x == d@ {
                                assert(self.seen.deep_view()[prev.len() as int] == x);
                            }
                            if prev.contains(x) {
                                let k = choose|k: int| 0 <= k < prev.len() && prev[k] == x;
                                assert(self.seen.deep_view()[k] == x);
                            }
                            if self.seen.deep_view().contains(x) && x != d@ {
                                let k = choose|k: int| 0 <= k < self.seen.deep_view().len() && self.seen.deep_view()[k] == x;
                                assert(prev[k] == x);
                            }
                        }
                    }
                    self.current = d.clone();
                    self.version = None;
                    self.stage = WalkStage::Checking;
                    proof {
                        let f = self.frames();
                        let m = f.len() - 1;
                        let inst = self.installed@;
                        lemma_next_dependency_shape(frames0, seen0);
                        law_walk_visits_each_plugin_once(frames0, seen0);
                        assert(target == (f, Some(d@)));
                        assert(inst.contains(old(self).owners@[m]));
                        assert(is_suffix_of(old(self).frames()[m], old(self).listings@[m]));
                        self.owners = Ghost(owners0.subrange(0, f.len() as int));
                        self.listings = Ghost(listings0.subrange(0, f.len() as int));
                        self.dependent = Ghost(Some((owners0[m], listings0[m])));
                        assert(inst.contains(owners0[m]));
                        assert(is_suffix_of(frames0[m], listings0[m]));
                        let k = listings0[m].len() - frames0[m].len() + (frames0[m].len() - f[m].len() - 1);
                        assert(frames0[m][frames0[m].len() - f[m].len() - 1] == d@);
                        assert(listings0[m][k] == d@);
                        assert(!inst.contains(d@)) by {
                            if inst.contains(d@) {
                                let i = choose|i: int| 0 <= i < inst.len() && inst[i] == d@;
                                assert(seen0.contains(inst[i]));
                            }
                        }
                        assert forall|l: int| 0 <= l < f.len() implies is_suffix_of(
                            #[trigger] f[l],
                            self.listings@[l],
                        ) by {
                            assert(is_suffix_of(f[l], frames0[l]));
                            assert(is_suffix_of(frames0[l], listings0[l]));
                            assert(f[l] =~= listings0[l].skip(listings0[l].len() - f[l].len()));
                        }
                        assert forall|l: int| 0 <= l < f.len() implies inst.contains(#[trigger] self.owners@[l]) by {
                            assert(self.owners@[l] == owners0[l]);
                        }
                        assert forall|i: int| 0 <= i < inst.len() implies self.seen().contains(#[trigger] inst[i]) by {
                            assert(seen0.contains(inst[i]));
                        }
                    }
                    return WalkStep::Check { id: d, dependency: true };
                } else {
                    assert(next_dependency(before, self.seen()) == next_dependency(self.frames(), self.seen()));
                }
            }
        }
    }

    /// Told whether the current plugin is installed: an installed plugin is
    /// skipped with its dependencies and the walk moves on; otherwise it is
    /// to be installed.
    pub fn on_checked(&mut self, installed: bool) -> (r: WalkStep)
        requires
            old(self).wf(),
            old(self).stage() == WalkStage::Checking,
        ensures
            final(self).wf(),
            final(self).installed() == old(self).installed(),
            !installed ==> (r matches WalkStep::Install { id, version } && id@ == old(self).current()
                && version.deep_view() == old(self).version()) && final(self).stage()
                == WalkStage::Installing && final(self).seen() == old(self).seen() && final(self).frames()
                == old(self).frames() && final(self).current() == old(self).current()
                && final(self).dependent() == old(self).dependent(),
            installed ==> {
                let (f, next) = next_dependency(old(self).frames(), old(self).seen());
                &&& final(self).frames() == f
                &&& match next {
                    Some(d) => final(self).seen() == old(self).seen().insert(d) && final(self).current()
                        == d && final(self).version() is None && final(self).stage()
                        == WalkStage::Checking && (r matches WalkStep::Check { id, dependency } && id@
                        == d && dependency) && final(self).dependent() is Some,
                    None => final(self).seen() == old(self).seen() && final(self).stage()
                        == WalkStage::Finished && r is Finished,
                }
            },
    {
        if installed {
            self.advance()
        } else {
            self.stage = WalkStage::Installing;
            let version = match &self.version {
                Some(v) => Some(v.clone()),
                None => None,
            };
            WalkStep::Install { id: self.current.clone(), version }
        }
    }

    /// Told that the current plugin is installed: it joins the plugins the
    /// walk has installed, and its dependencies are asked for.
    pub fn on_installed(&mut self) -> (r: WalkStep)
        requires
            old(self).wf(),
            old(self).stage() == WalkStage::Installing,
        ensures
            final(self).wf(),
            r matches WalkStep::ListDependencies { id } && id@ == old(self).current(),
            final(self).stage() == WalkStage::Listing,
            final(self).seen() == old(self).seen(),
            final(self).frames() == old(self).frames(),
            final(self).current() == old(self).current(),
            final(self).installed() == old(self).installed().push(old(self).current()),
    {
        self.stage = WalkStage::Listing;
        proof {
            let inst = self.installed@;
            let c = self.current@;
            self.installed = Ghost(inst.push(c));
            assert(self.installed@.no_duplicates()) by {
                assert forall|i: int, j: int| 0 <= i < j < inst.len() + 1 implies self.installed@[i]
                    != self.installed@[j] by {
                    if j == inst.len() {
                        assert(inst[i] != c) by {
                            if inst[i] == c {
                                assert(inst.contains(c));
                            }
                        }
                    }
                }
            }
            assert forall|l: int| 0 <= l < self.frames().len() implies self.installed@.contains(
                #[trigger] self.owners@[l],
            ) by {
                let i = choose|i: int| 0 <= i < inst.len() && inst[i] == self.owners@[l];
                assert(self.installed@[i] == inst[i]);
            }
            assert forall|i: int| 0 <= i < self.installed@.len() implies self.seen().contains(
                #[trigger] self.installed@[i],
            ) by {
                if i < inst.len() {
                    assert(self.installed@[i] == inst[i]);
                }
            }
        }
        WalkStep::ListDependencies { id: self.current.clone() }
    }

    /// Told that installing the current plugin failed: the walk stops, and
    /// nothing more is installed.
    pub fn on_install_failed(&mut self) -> (r: WalkStep)
        requires
            old(self).wf(),
            old(self).stage() == WalkStage::Installing,
        ensures
            final(self).wf(),
            r is Finished,
            final(self).stage() == WalkStage::Finished,
            final(self).installed() == old(self).installed(),
    {
        self.stage = WalkStage::Finished;
        WalkStep::Finished
    }

    /// Told the dependencies of the current plugin: they become the innermost
    /// level, and the walk moves to the first of them not yet visited.
    pub fn on_dependencies(&mut self, deps: &Vec<String>) -> (r: WalkStep)
        requires
            old(self).wf(),
            old(self).stage() == WalkStage::Listing,
        ensures
            final(self).wf(),
            final(self).installed() == old(self).installed(),
            ({
                let (f, next) = next_dependency(old(self).frames().push(deps.deep_view()), old(self).seen());
                &&& final(self).frames() == f
                &&& match next {
                    Some(d) => final(self).seen() == old(self).seen().insert(d) && final(self).current()
                        == d && final(self).version() is None && final(self).stage()
                        == WalkStage::Checking && (r matches WalkStep::Check { id, dependency } && id@
                        == d && dependency) && final(self).dependent() is Some,
                    None => final(self).seen() == old(self).seen() && final(self).stage()
                        == WalkStage::Finished && r is Finished,
                }
            }),
    {
        let ghost before = self.frames();
        self.frames.push(copy_strings(deps));
        assert(self.frames() =~= before.push(deps.deep_view()));
        proof {
            let c = self.current@;
            let dv = deps.deep_view();
            self.owners = Ghost(self.owners@.push(c));
            self.listings = Ghost(self.listings@.push(dv));
            assert(self.installed@.contains(c)) by {
                assert(self.installed@[self.installed@.len() - 1] == c);
            }
            assert(dv.skip(0) =~= dv);
            assert forall|l: int| 0 <= l < self.frames().len() implies is_suffix_of(
                #[trigger] self.frames()[l],
                self.listings@[l],
            ) by {
                if l < before.len() {
                    assert(self.frames()[l] == before[l]);
                }
            }
            assert forall|l: int| 0 <= l < self.frames().len() implies self.installed@.contains(
                #[trigger] self.owners@[l],
            ) by {
                if l < before.len() {
                    assert(self.owners@[l] == old(self).owners@[l]);
                }
            }
        }
        self.advance()
    }
}

/// What a whole walk does, at every step: each plugin it installs is
/// installed once, and only after it was visited; the plugin it is about to
/// check or install has not been installed by it; and a dependency is
/// handled only after the plugin that lists it has been installed.
pub proof fn law_walk_history(w: DependencyWalk)
    requires
        w.wf(),
    ensures
        w.installed().no_duplicates(),
        forall|i: int| 0 <= i < w.installed().len() ==> w.seen().contains(#[trigger] w.installed()[i]),
        (w.stage() == WalkStage::Checking || w.stage() == WalkStage::Installing) ==> !w.installed().contains(
            w.current(),
        ),
        (w.stage() == WalkStage::Checking || w.stage() == WalkStage::Installing) ==> (
        w.dependent() matches Some((p, listed)) ==> w.installed().contains(p) && listed.contains(w.current())),
{
}

/// Every dependency that a walk visits was not visited before: the walk's
/// next plugin is never one it has seen, so no plugin is installed twice in
/// one walk and dependency cycles end.
pub proof fn law_walk_visits_each_plugin_once(frames: Seq<Seq<Seq<char>>>, seen: Set<Seq<char>>)
    ensures
        next_dependency(frames, seen).1 matches Some(d) ==> !seen.contains(d),
    decreases walk_measure(frames),
{
    if frames.len() > 0 {
        let top = frames.last();
        if top.len() == 0 {
            law_walk_visits_each_plugin_once(frames.drop_last(), seen);
        } else {
            let f2 = frames.update(frames.len() - 1, top.drop_first());
            assert(f2.drop_last() =~= frames.drop_last());
            if seen.contains(top[0]) {
                law_walk_visits_each_plugin_once(f2, seen);
            }
        }
    }
}

/// A walk finishes only when every pending dependency has been visited:
/// when there is no next plugin, each dependency of each level is among the
/// plugins seen.
pub proof fn law_walk_finishes_when_all_visited(frames: Seq<Seq<Seq<char>>>, seen: Set<Seq<char>>)
    ensures
        next_dependency(frames, seen).1 is None ==> forall|l: int, i: int|
            0 <= l < frames.len() && 0 <= i < frames[l].len() ==> seen.contains(#[trigger] frames[l][i]),
    decreases walk_measure(frames),
{
    if frames.len() > 0 {
        let n = frames.len() - 1;
        let top = frames.last();
        if top.len() == 0 {
            law_walk_finishes_when_all_visited(frames.drop_last(), seen);
            if next_dependency(frames, seen).1 is None {
                assert forall|l: int, i: int| 0 <= l < frames.len() && 0 <= i < frames[l].len() implies seen.contains(
                    #[trigger] frames[l][i],
                ) by {
                    assert(l < n);
                    assert(frames.drop_last()[l] == frames[l]);
                }
            }
        } else {
            let f2 = frames.update(n, top.drop_first());
            assert(f2.drop_last() =~= frames.drop_last());
            if seen.contains(top[0]) {
                law_walk_finishes_when_all_visited(f2, seen);
                if next_dependency(frames, seen).1 is None {
                    assert forall|l: int, i: int| 0 <= l < frames.len() && 0 <= i < frames[l].len() implies seen.contains(
                        #[trigger] frames[l][i],
                    ) by {
                        if l < n {
                            assert(f2[l] == frames[l]);
                        } else if i > 0 {
                            assert(f2[l][i - 1] == frames[l][i]);
                        }
                    }
                }
            }
        }
    }
}

/// A walk visits only listed dependencies: its next plugin is one that some
/// pending level lists.
pub proof fn law_walk_visits_only_listed(frames: Seq<Seq<Seq<char>>>, seen: Set<Seq<char>>)
    ensures
        next_dependency(frames, seen).1 matches Some(d) ==> exists|l: int, i: int|
            0 <= l < frames.len() && 0 <= i < frames[l].len() && #[trigger] frames[l][i] == d,
    decreases walk_measure(frames),
{
    if frames.len() > 0 {
        let n = frames.len() - 1;
        let top = frames.last();
        if top.len() == 0 {
            law_walk_visits_only_listed(frames.drop_last(), seen);
            if next_dependency(frames, seen).1 is Some {
                let d = next_dependency(frames, seen).1->0;
                let (l, i) = choose|l: int, i: int|
                    0 <= l < frames.drop_last().len() && 0 <= i < frames.drop_last()[l].len()
                        && #[trigger] frames.drop_last()[l][i] == d;
                assert(frames[l][i] == d);
            }
        } else {
            let f2 = frames.update(n, top.drop_first());
            assert(f2.drop_last() =~= frames.drop_last());
            if seen.contains(top[0]) {
                law_walk_visits_only_listed(f2, seen);
                if next_dependency(frames, seen).1 is Some {
                    let d = next_dependency(frames, seen).1->0;
                    let (l, i) = choose|l: int, i: int|
                        0 <= l < f2.len() && 0 <= i < f2[l].len() && #[trigger] f2[l][i] == d;
                    if l < n {
                        assert(frames[l][i] == d);
                    } else {
                        assert(frames[l][i + 1] == d);
                    }
                }
            } else {
                assert(frames[n][0] == top[0]);
            }
        }
    }
}

/// A build of a plugin for one platform.
pub struct PlatformBuild {
    pub platform: String,
    pub size_bytes: u64,
}

/// The build of plugin `id` for `platform`: the first listed for it, or an
/// error naming the plugin and the platform.
pub fn select_platform_build(id: &str, builds: &Vec<PlatformBuild>, platform: &str) -> (r: Result<
    usize,
    InstallerError,
>)
    ensures
        match r {
            Ok(i) => 0 <= i < builds@.len() && builds@[i as int].platform@ == platform@ && forall|j: int|
                0 <= j < i ==> #[trigger] builds@[j].platform@ != platform@,
            Err(e) => (e matches InstallerError::Other(m) && m@ == "Plugin "@ + id@
                + " does not support platform "@ + platform@) && forall|j: int|
                0 <= j < builds@.len() ==> #[trigger] builds@[j].platform@ != platform@,
        },
{
    let mut i: usize = 0;
    while i < builds.len()
        invariant
            i <= builds@.len(),
            forall|j: int| 0 <= j < i ==> #[trigger] builds@[j].platform@ != platform@,
        decreases builds@.len() - i,
    {
        if crate::text::str_eq(builds[i].platform.as_str(), platform) {
            return Ok(i);
        }
        i = i + 1;
    }
    let mut m = owned("Plugin ");
    m.append(id);
    m.append(" does not support platform ");
    m.append(platform);
    Err(InstallerError::Other(m))
}

/// The tally of a batch installation.
pub struct BatchReport {
    /// How many plugins were installed.
    pub installed: usize,
    /// The plugins that failed, in order.
    pub failed: Vec<String>,
}

/// The tally of a batch installation from the outcome of each plugin, in
/// order (`true` for an installed plugin).
pub fn tally_batch(ids: &Vec<String>, succeeded: &Vec<bool>) -> (r: BatchReport)
    requires
        ids@.len() == succeeded@.len(),
    ensures
        r.installed == succeeded@.filter(|b: bool| b).len(),
        r.failed.deep_view() == failed_ids(ids.deep_view(), succeeded@),
{
    let mut installed: usize = 0;
    let mut failed: Vec<String> = Vec::new();
    let mut i: usize = 0;
    while i < ids.len()
        invariant
            ids@.len() == succeeded@.len(),
            i <= ids@.len(),
            installed == succeeded@.take(i as int).filter(|b: bool| b).len(),
            installed <= i,
            failed.deep_view() == failed_ids(ids.deep_view().take(i as int), succeeded@.take(i as int)),
        decreases ids@.len() - i,
    {
        assert(succeeded@.take(i + 1).drop_last() =~= succeeded@.take(i as int));
        assert(ids.deep_view().take(i + 1).drop_last() =~= ids.deep_view().take(i as int));
        proof {
            reveal(Seq::filter);
        }
        if succeeded[i] {
            installed = installed + 1;
        } else {
            let ghost prev = failed.deep_view();
            failed.push(ids[i].clone());
            assert(failed.deep_view() =~= prev.push(ids@[i as int]@));
        }
        i = i + 1;
    }
    assert(succeeded@.take(ids@.len() as int) =~= succeeded@);
    assert(ids.deep_view().take(ids@.len() as int) =~= ids.deep_view());
    BatchReport { installed, failed }
}

/// The ids whose outcome is a failure, in order.
pub open spec fn failed_ids(ids: Seq<Seq<char>>, succeeded: Seq<bool>) -> Seq<Seq<char>>
    decreases ids.len(),
{
    if ids.len() == 0 || succeeded.len() == 0 {
        Seq::empty()
    } else {
        let r = failed_ids(ids.drop_last(), succeeded.drop_last());
        if succeeded.last() {
            r
        } else {
            r.push(ids.last())
        }
    }
}

/// A plugin as the registry lists it, as far as the plugin list shows it.
pub struct PluginSummary {
    pub id: String,
    pub latest_version: String,
    pub description: String,
    pub plugin_type: String,
    pub tags: Vec<String>,
}

/// A version as the plugin lists show it: `v` and the version.
pub open spec fn version_label_of(version: Seq<char>) -> Seq<char> {
    "v"@ + version
}

/// A version as the plugin lists show it (see `version_label_of`).
pub fn version_label(version: &str) -> (r: String)
    ensures
        r@ == version_label_of(version@),
{
    let mut r = owned("v");
    r.append(version);
    r
}

/// The row of the list of available plugins: the plugin's ID, its latest
/// version, its description and its type.
pub fn plugin_list_row(p: &PluginSummary) -> (r: Vec<String>)
    ensures
        r.deep_view() == seq![p.id@, version_label_of(p.latest_version@), p.description@, p.plugin_type@],
{
    let mut r: Vec<String> = Vec::new();
    r.push(p.id.clone());
    r.push(version_label(p.latest_version.as_str()));
    r.push(p.description.clone());
    r.push(p.plugin_type.clone());
    assert(r.deep_view() =~= seq![p.id@, version_label_of(p.latest_version@), p.description@, p.plugin_type@]);
    r
}

/// The tags of a plugin as the plugin list shows them, `Tags: ` and the tags
/// joined with `, `; none for a plugin without tags.
pub fn tags_text(p: &PluginSummary) -> (r: Option<String>)
    ensures
        p.tags@.len() == 0 ==> r is None,
        p.tags@.len() > 0 ==> (r matches Some(t) && t@ == "Tags: "@ + join(p.tags.deep_view(), ", "@)),
{
    if p.tags.len() == 0 {
        None
    } else {
        let mut t = owned("Tags: ");
        let j = join_strings(&p.tags, ", ");
        t.append(j.as_str());
        Some(t)
    }
}

/// The row of the list of installed plugins: the plugin's ID and its version.
pub fn installed_row(id: &str, version: &str) -> (r: Vec<String>)
    ensures
        r.deep_view() == seq![id@, version_label_of(version@)],
{
    let mut r: Vec<String> = Vec::new();
    r.push(owned(id));
    r.push(version_label(version));
    assert(r.deep_view() =~= seq![id@, version_label_of(version@)]);
    r
}

} // verus!
