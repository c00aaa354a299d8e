//! The registry of probes by which projects are recognised.

use vstd::prelude::*;
use crate::build_tools::{
    cargo, detect, elm, flutter, gradle, kind_names, mix, npm, BuildToolKind, BuildToolProbe,
    Probe, Tool, ToolTag, ToolView,
};
use crate::fs::Directory;

verus! {

/// Whether one of `kinds` is a name of the tool.
pub open spec fn wanted(tag: ToolTag, kinds: Seq<BuildToolKind>) -> bool {
    exists|i: int| 0 <= i < kinds.len() && kind_names(#[trigger] kinds[i], tag)
}

/// The tools that the probes recognise in `dir`, in the order of the probes.
pub open spec fn recognised(probes: Seq<Probe>, dir: &Directory) -> Seq<ToolView>
    decreases probes.len(),
{
    if probes.len() == 0 {
        Seq::empty()
    } else {
        match detect(probes.last().tag(), dir) {
            Some(tool) => recognised(probes.drop_last(), dir).push(tool),
            None => recognised(probes.drop_last(), dir),
        }
    }
}

/// The tools of a list, one for one.
pub open spec fn tool_views(tools: Seq<Tool>) -> Seq<ToolView> {
    Seq::new(tools.len(), |i: int| tools[i]@)
}

/// The probes that a fresh registry holds by default, in their order.
pub open spec fn default_probes() -> Seq<Probe> {
    seq![
        Probe::Cargo(cargo::CargoProbe),
        Probe::Elm(elm::ElmProbe),
        Probe::Flutter(flutter::FlutterProbe),
        Probe::Gradle(gradle::GradleProbe),
        Probe::Mix(mix::MixProbe),
        Probe::Npm(npm::NpmProbe),
    ]
}

/// An ordered collection of probes, each of which recognises the projects of
/// one build tool.
pub struct BuildToolManager {
    pub probes: Vec<Probe>,
}

impl View for BuildToolManager {
    type V = Seq<Probe>;

    open spec fn view(&self) -> Seq<Probe> {
        self.probes@
    }
}

impl Default for BuildToolManager {
    /// A registry with the probes for Cargo, Elm, Flutter, Gradle, Mix and
    /// NPM, in that order.
    fn default() -> (manager: BuildToolManager)
        ensures
            manager@ == default_probes(),
    {
        let mut manager = BuildToolManager::new();
        cargo::register(&mut manager);
        elm::register(&mut manager);
        flutter::register(&mut manager);
        gradle::register(&mut manager);
        mix::register(&mut manager);
        npm::register(&mut manager);
        assert(manager@ =~= default_probes());
        manager
    }
}

impl BuildToolManager {
    /// A registry without probes.
    pub fn new() -> (manager: BuildToolManager)
        ensures
            manager@ == Seq::<Probe>::empty(),
    {
        BuildToolManager { probes: Vec::new() }
    }

    /// Adds a probe behind those that are there. A probe that is added
    /// twice is asked twice for every directory.
    pub fn register(&mut self, probe: Probe)
        ensures
            final(self)@ == old(self)@.push(probe),
    {
        self.probes.push(probe);
    }

    /// Keeps the probes whose tool goes by one of the names in
    /// `project_types`, in their order, and drops the others.
    pub fn filter(&mut self, project_types: &[BuildToolKind])
        ensures
            final(self)@ == old(self)@.filter(|p: Probe| wanted(p.tag(), project_types@)),
    {
        let ghost pred = |p: Probe| wanted(p.tag(), project_types@);
        let mut probes: Vec<Probe> = Vec::new();
        let mut i: usize = 0;
        while i < self.probes.len()
            invariant
                i <= self.probes.len(),
                *self == *old(self),
                pred == (|p: Probe| wanted(p.tag(), project_types@)),
                probes@ == self.probes@.take(i as int).filter(pred),
            decreases self.probes.len() - i,
        {
            let probe = self.probes[i];
            proof {
                reveal(Seq::filter);
                assert(self.probes@.take(i + 1).drop_last() =~= self.probes@.take(i as int));
            }
            if applies_to_any(&probe, project_types) {
                probes.push(probe);
            }
            i += 1;
        }
        proof {
            assert(self.probes@.take(self.probes.len() as int) =~= self.probes@);
        }
        self.probes = probes;
    }

    /// The build tools recognised in `dir`: every probe is asked, in order,
    /// and every tool that one of them recognises is returned.
    pub fn probe(&self, dir: &Directory) -> (tools: Vec<Tool>)
        ensures
            tool_views(tools@) == recognised(self@, dir),
    {
        let mut tools: Vec<Tool> = Vec::new();
        let mut i: usize = 0;
        while i < self.probes.len()
            invariant
                i <= self.probes.len(),
                tools@.len() == recognised(self@.take(i as int), dir).len(),
                tool_views(tools@) == recognised(self@.take(i as int), dir),
            decreases self.probes.len() - i,
        {
            let ghost before = tools@;
            proof {
                assert(self@.take(i + 1).drop_last() =~= self@.take(i as int));
            }
            match self.probes[i].probe(dir) {
                Some(tool) => {
                    tools.push(tool);
                    proof {
                        let want = recognised(self@.take(i + 1), dir);
                        assert forall|j: int| 0 <= j < want.len() implies tool_views(tools@)[j]
                            == want[j] by {
                            if j < before.len() {
                                assert(tool_views(before)[j] == recognised(
                                    self@.take(i as int),
                                    dir,
                                )[j]);
                            }
                        }
                        assert(tool_views(tools@) =~= want);
                    }
                },
                None => {},
            }
            i += 1;
        }
        proof {
            assert(self@.take(self.probes.len() as int) =~= self@);
        }
        tools
    }
}

/// Whether the probe's tool goes by one of the names in `kinds`.
pub fn applies_to_any(probe: &Probe, kinds: &[BuildToolKind]) -> (yes: bool)
    ensures
        yes == wanted(probe.tag(), kinds@),
{
    let mut k: usize = 0;
    while k < kinds.len()
        invariant
            k <= kinds.len(),
            forall|j: int| 0 <= j < k ==> !kind_names(#[trigger] kinds@[j], probe.tag()),
        decreases kinds.len() - k,
    {
        if probe.applies_to(kinds[k]) {
            return true;
        }
        k += 1;
    }
    false
}

} // verus!
