use vstd::prelude::*;
use crate::config::{PanelCfg, PanelPlan};

verus! {

/// A named panel with several stored configurations, of which one is shown at
/// a time: the one whose index a caller picks, for instance from the width of
/// the screen.
pub struct DynamicPanel<L> {
    name: String,
    panels: Vec<PanelCfg<L>>,
}

impl<L> DynamicPanel<L> {
    /// The name the panel is known by to the toolkit.
    pub closed spec fn spec_name(&self) -> Seq<char> {
        self.name@
    }

    /// The stored configurations, by index.
    pub closed spec fn spec_panels(&self) -> Seq<PanelCfg<L>> {
        self.panels@
    }

    /// A panel called `name` with no configuration stored.
    pub fn new(name: &str) -> (r: Self)
        ensures
            r.spec_name() == name@,
            r.spec_panels() == Seq::<PanelCfg<L>>::empty(),
    {
        Self { name: name.to_string(), panels: Vec::new() }
    }

    /// Stores exactly the two configurations `first` (index 0) and `second`
    /// (index 1), in place of any stored before.
    pub fn dual(self, first: PanelCfg<L>, second: PanelCfg<L>) -> (r: Self)
        ensures
            r.spec_name() == self.spec_name(),
            r.spec_panels() == seq![first, second],
    {
        let mut s = self;
        s.panels = vec![first, second];
        s
    }

    /// Stores `panels` in place of any configuration stored before.
    pub fn with_panels(self, panels: Vec<PanelCfg<L>>) -> (r: Self)
        ensures
            r.spec_name() == self.spec_name(),
            r.spec_panels() == panels@,
    {
        let mut s = self;
        s.panels = panels;
        s
    }

    /// Stores `panel` after the others and returns its index.
    pub fn push_panel(&mut self, panel: PanelCfg<L>) -> (r: usize)
        ensures
            r == old(self).spec_panels().len(),
            final(self).spec_name() == old(self).spec_name(),
            final(self).spec_panels() == old(self).spec_panels().push(panel),
    {
        let index = self.panels.len();
        self.panels.push(panel);
        index
    }

    /// The index a threshold test picks: 1 where it holds, 0 where not.
    pub fn threshold_index(holds: bool) -> (r: usize)
        ensures
            r == (if holds {
                1usize
            } else {
                0usize
            }),
    {
        if holds {
            1
        } else {
            0
        }
    }
}

impl<L: Copy> DynamicPanel<L> {
    /// The plan for the expanded state of the configuration stored at
    /// `index`, under the panel's name; `None` where no configuration is
    /// stored there.
    pub fn plan(&self, index: usize) -> (r: Option<PanelPlan<L>>)
        ensures
            r is Some <==> index < self.spec_panels().len(),
            r matches Some(p) ==> p.builds(
                self.spec_panels()[index as int].spec_expanded(),
                self.spec_name(),
            ),
    {
        if index < self.panels.len() {
            Some(self.panels[index].expanded().plan(self.name.clone()))
        } else {
            None
        }
    }
}

} // verus!
