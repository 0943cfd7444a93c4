use vstd::prelude::*;
use crate::side::Side;
use egui::Frame;

verus! {

/// One builder setting of a docked panel, in the toolkit's own terms.
///
/// For a side panel the sizes are widths, for a top/bottom panel heights.
#[derive(Debug, PartialEq)]
pub enum PanelOp<L> {
    Resizable(bool),
    ShowSeparatorLine(bool),
    DefaultSize(L),
    MinSize(L),
    MaxSize(L),
    SizeRange(L, L),
    ExactSize(L),
    Frame(Frame),
}

/// The one setting `op` stands for, if any, as a sequence.
pub open spec fn present<L>(op: Option<PanelOp<L>>) -> Seq<PanelOp<L>> {
    match op {
        Some(o) => seq![o],
        None => seq![],
    }
}

/// The setting that `resizable` stands for, if it is set.
pub open spec fn resizable_op<L>(o: Option<bool>) -> Option<PanelOp<L>> {
    match o {
        Some(b) => Some(PanelOp::Resizable(b)),
        None => None,
    }
}

/// The setting that `show_separator_line` stands for, if it is set.
pub open spec fn show_separator_line_op<L>(o: Option<bool>) -> Option<PanelOp<L>> {
    match o {
        Some(b) => Some(PanelOp::ShowSeparatorLine(b)),
        None => None,
    }
}

/// The setting that `default_size` stands for, if it is set.
pub open spec fn default_size_op<L>(o: Option<L>) -> Option<PanelOp<L>> {
    match o {
        Some(v) => Some(PanelOp::DefaultSize(v)),
        None => None,
    }
}

/// The setting that `min_size` stands for, if it is set.
pub open spec fn min_size_op<L>(o: Option<L>) -> Option<PanelOp<L>> {
    match o {
        Some(v) => Some(PanelOp::MinSize(v)),
        None => None,
    }
}

/// The setting that `max_size` stands for, if it is set.
pub open spec fn max_size_op<L>(o: Option<L>) -> Option<PanelOp<L>> {
    match o {
        Some(v) => Some(PanelOp::MaxSize(v)),
        None => None,
    }
}

/// The setting that `size_range` stands for, if it is set.
pub open spec fn size_range_op<L>(o: Option<(L, L)>) -> Option<PanelOp<L>> {
    match o {
        Some(r) => Some(PanelOp::SizeRange(r.0, r.1)),
        None => None,
    }
}

/// The setting that `exact_size` stands for, if it is set.
pub open spec fn exact_size_op<L>(o: Option<L>) -> Option<PanelOp<L>> {
    match o {
        Some(v) => Some(PanelOp::ExactSize(v)),
        None => None,
    }
}

/// The setting that `frame` stands for, if it is set.
pub open spec fn frame_op<L>(o: Option<Frame>) -> Option<PanelOp<L>> {
    match o {
        Some(f) => Some(PanelOp::Frame(f)),
        None => None,
    }
}

/// The settings that a set of optional parameters stands for: one for each
/// parameter that is present, in this fixed order.
pub open spec fn setting_ops<L>(
    resizable: Option<bool>,
    show_separator_line: Option<bool>,
    default_size: Option<L>,
    min_size: Option<L>,
    max_size: Option<L>,
    size_range: Option<(L, L)>,
    exact_size: Option<L>,
    frame: Option<Frame>,
) -> Seq<PanelOp<L>> {
    present(resizable_op(resizable))
        + present(show_separator_line_op(show_separator_line))
        + present(default_size_op(default_size))
        + present(min_size_op(min_size))
        + present(max_size_op(max_size))
        + present(size_range_op(size_range))
        + present(exact_size_op(exact_size))
        + present(frame_op(frame))
}

/// Appends the setting `op` stands for, if any.
fn push_present<L>(ops: &mut Vec<PanelOp<L>>, op: Option<PanelOp<L>>)
    ensures
        final(ops)@ == old(ops)@ + present(op),
{
    if let Some(o) = op {
        ops.push(o);
    }
    assert(ops@ =~= old(ops)@ + present(op));
}

/// The settings for the given parameters, in the order `setting_ops` gives.
fn build_setting_ops<L: Copy>(
    resizable: Option<bool>,
    show_separator_line: Option<bool>,
    default_size: Option<L>,
    min_size: Option<L>,
    max_size: Option<L>,
    size_range: Option<(L, L)>,
    exact_size: Option<L>,
    frame: Option<Frame>,
) -> (r: Vec<PanelOp<L>>)
    ensures
        r@ == setting_ops(
            resizable,
            show_separator_line,
            default_size,
            min_size,
            max_size,
            size_range,
            exact_size,
            frame,
        ),
{
    let mut ops: Vec<PanelOp<L>> = Vec::new();
    assert(ops@ =~= seq![]);
    push_present(
        &mut ops,
        match resizable {
            Some(b) => Some(PanelOp::Resizable(b)),
            None => None,
        },
    );
    push_present(
        &mut ops,
        match show_separator_line {
            Some(b) => Some(PanelOp::ShowSeparatorLine(b)),
            None => None,
        },
    );
    push_present(
        &mut ops,
        match default_size {
            Some(v) => Some(PanelOp::DefaultSize(v)),
            None => None,
        },
    );
    push_present(
        &mut ops,
        match min_size {
            Some(v) => Some(PanelOp::MinSize(v)),
            None => None,
        },
    );
    push_present(
        &mut ops,
        match max_size {
            Some(v) => Some(PanelOp::MaxSize(v)),
            None => None,
        },
    );
    push_present(
        &mut ops,
        match size_range {
            Some(r) => Some(PanelOp::SizeRange(r.0, r.1)),
            None => None,
        },
    );
    push_present(
        &mut ops,
        match exact_size {
            Some(v) => Some(PanelOp::ExactSize(v)),
            None => None,
        },
    );
    push_present(
        &mut ops,
        match frame {
            Some(f) => Some(PanelOp::Frame(f)),
            None => None,
        },
    );
    ops
}

/// Every parameter a docked panel can be given, and the side it is docked to.
///
/// A parameter left at `None` is not set, and the toolkit's default holds.
/// `L` is the type of a length in screen points.
pub struct SinglePanelCfg<L> {
    side: Side,
    pub resizable: Option<bool>,
    pub show_separator_line: Option<bool>,
    pub default_width: Option<L>,
    pub min_width: Option<L>,
    pub max_width: Option<L>,
    pub width_range: Option<(L, L)>,
    pub exact_width: Option<L>,
    pub default_height: Option<L>,
    pub min_height: Option<L>,
    pub max_height: Option<L>,
    pub height_range: Option<(L, L)>,
    pub exact_height: Option<L>,
    pub frame: Option<Frame>,
}

/// The abstract value of a `SinglePanelCfg`: its side and every parameter.
pub struct SinglePanelCfgView<L> {
    pub side: Side,
    pub resizable: Option<bool>,
    pub show_separator_line: Option<bool>,
    pub default_width: Option<L>,
    pub min_width: Option<L>,
    pub max_width: Option<L>,
    pub width_range: Option<(L, L)>,
    pub exact_width: Option<L>,
    pub default_height: Option<L>,
    pub min_height: Option<L>,
    pub max_height: Option<L>,
    pub height_range: Option<(L, L)>,
    pub exact_height: Option<L>,
    pub frame: Option<Frame>,
}

impl<L> View for SinglePanelCfg<L> {
    type V = SinglePanelCfgView<L>;

    closed spec fn view(&self) -> SinglePanelCfgView<L> {
        SinglePanelCfgView {
            side: self.side,
            resizable: self.resizable,
            show_separator_line: self.show_separator_line,
            default_width: self.default_width,
            min_width: self.min_width,
            max_width: self.max_width,
            width_range: self.width_range,
            exact_width: self.exact_width,
            default_height: self.default_height,
            min_height: self.min_height,
            max_height: self.max_height,
            height_range: self.height_range,
            exact_height: self.exact_height,
            frame: self.frame,
        }
    }
}

impl<L> SinglePanelCfg<L> {
    /// Whether no parameter is set.
    pub open spec fn is_unset(&self) -> bool {
        &&& self@.resizable is None
        &&& self@.show_separator_line is None
        &&& self@.default_width is None
        &&& self@.min_width is None
        &&& self@.max_width is None
        &&& self@.width_range is None
        &&& self@.exact_width is None
        &&& self@.default_height is None
        &&& self@.min_height is None
        &&& self@.max_height is None
        &&& self@.height_range is None
        &&& self@.exact_height is None
        &&& self@.frame is None
    }

    /// The settings of a side panel: the common ones and the widths.
    pub open spec fn spec_side_ops(&self) -> Seq<PanelOp<L>> {
        setting_ops(
            self@.resizable,
            self@.show_separator_line,
            self@.default_width,
            self@.min_width,
            self@.max_width,
            self@.width_range,
            self@.exact_width,
            self@.frame,
        )
    }

    /// The settings of a top/bottom panel: the common ones and the heights.
    pub open spec fn spec_top_bottom_ops(&self) -> Seq<PanelOp<L>> {
        setting_ops(
            self@.resizable,
            self@.show_separator_line,
            self@.default_height,
            self@.min_height,
            self@.max_height,
            self@.height_range,
            self@.exact_height,
            self@.frame,
        )
    }

    /// The settings of the panel family that the side calls for.
    pub open spec fn spec_panel_ops(&self) -> Seq<PanelOp<L>> {
        if self@.side.spec_is_lr() {
            self.spec_side_ops()
        } else {
            self.spec_top_bottom_ops()
        }
    }

    /// A configuration for the left side with nothing set.
    pub fn left() -> (r: Self)
        ensures
            r@.side == Side::Left,
            r.is_unset(),
    {
        Self::new(Side::Left)
    }

    /// A configuration for the right side with nothing set.
    pub fn right() -> (r: Self)
        ensures
            r@.side == Side::Right,
            r.is_unset(),
    {
        Self::new(Side::Right)
    }

    /// A configuration for the top with nothing set.
    pub fn top() -> (r: Self)
        ensures
            r@.side == Side::Top,
            r.is_unset(),
    {
        Self::new(Side::Top)
    }

    /// A configuration for the bottom with nothing set.
    pub fn bottom() -> (r: Self)
        ensures
            r@.side == Side::Bottom,
            r.is_unset(),
    {
        Self::new(Side::Bottom)
    }

    /// A configuration for `side` with nothing set.
    pub fn new(side: Side) -> (r: Self)
        ensures
            r@.side == side,
            r.is_unset(),
    {
        Self {
            side,
            resizable: None,
            show_separator_line: None,
            default_width: None,
            min_width: None,
            max_width: None,
            width_range: None,
            exact_width: None,
            default_height: None,
            min_height: None,
            max_height: None,
            height_range: None,
            exact_height: None,
            frame: None,
        }
    }

    /// The side the panel is docked to.
    pub fn side(&self) -> (r: Side)
        ensures
            r == self@.side,
    {
        self.side
    }
}

impl<L: Copy> SinglePanelCfg<L> {
    /// The settings to give a side panel, in the order they are applied:
    /// resizable, separator line, default, minimum and maximum width, width
    /// range, exact width, frame; each only where it is set.
    pub fn side_ops(&self) -> (r: Vec<PanelOp<L>>)
        ensures
            r@ == self.spec_side_ops(),
    {
        build_setting_ops(
            self.resizable,
            self.show_separator_line,
            self.default_width,
            self.min_width,
            self.max_width,
            self.width_range,
            self.exact_width,
            self.frame,
        )
    }

    /// The settings to give a top/bottom panel, in the order they are
    /// applied: resizable, separator line, default, minimum and maximum
    /// height, height range, exact height, frame; each only where it is set.
    pub fn top_bottom_ops(&self) -> (r: Vec<PanelOp<L>>)
        ensures
            r@ == self.spec_top_bottom_ops(),
    {
        build_setting_ops(
            self.resizable,
            self.show_separator_line,
            self.default_height,
            self.min_height,
            self.max_height,
            self.height_range,
            self.exact_height,
            self.frame,
        )
    }
}

/// What it takes to build one docked panel: the side it is docked to, the
/// name it is known by, and its settings in the order they are applied.
///
/// A side panel is built for `Left` and `Right`, a top/bottom panel for `Top`
/// and `Bottom`.
pub struct PanelPlan<L> {
    pub side: Side,
    pub name: String,
    pub ops: Vec<PanelOp<L>>,
}

impl<L> PanelPlan<L> {
    /// Whether this plan builds the panel that `cfg` describes, under `name`.
    pub open spec fn builds(&self, cfg: SinglePanelCfg<L>, name: Seq<char>) -> bool {
        &&& self.side == cfg@.side
        &&& self.name@ == name
        &&& self.ops@ == cfg.spec_panel_ops()
    }
}

impl<L: Copy> SinglePanelCfg<L> {
    /// The plan for the panel this configuration describes, under `name`:
    /// width settings for a side panel, height settings for a top/bottom one.
    pub fn plan(&self, name: String) -> (r: PanelPlan<L>)
        ensures
            r.builds(*self, name@),
    {
        let ops = if self.side.is_lr() {
            self.side_ops()
        } else {
            self.top_bottom_ops()
        };
        PanelPlan { side: self.side, name, ops }
    }
}

/// Two configurations of one panel, for its collapsed and its expanded state.
pub struct CollapsiblePanelCfg<L> {
    pub collapsed: SinglePanelCfg<L>,
    pub expanded: SinglePanelCfg<L>,
}

impl<L> CollapsiblePanelCfg<L> {
    pub fn new(collapsed: SinglePanelCfg<L>, expanded: SinglePanelCfg<L>) -> (r: Self)
        ensures
            r.collapsed == collapsed,
            r.expanded == expanded,
    {
        Self { collapsed, expanded }
    }
}

/// The configuration of a panel: either one for every state, or one for the
/// collapsed and one for the expanded state.
pub enum PanelCfg<L> {
    Single(SinglePanelCfg<L>),
    Collapsible(CollapsiblePanelCfg<L>),
}

impl<L> PanelCfg<L> {
    pub open spec fn spec_collapsed(self) -> SinglePanelCfg<L> {
        match self {
            PanelCfg::Single(s) => s,
            PanelCfg::Collapsible(c) => c.collapsed,
        }
    }

    pub open spec fn spec_expanded(self) -> SinglePanelCfg<L> {
        match self {
            PanelCfg::Single(s) => s,
            PanelCfg::Collapsible(c) => c.expanded,
        }
    }

    /// Whether the collapsed and the expanded state are of one panel family,
    /// so that the toolkit can animate between them.
    pub open spec fn spec_is_animatable(self) -> bool {
        self.spec_collapsed()@.side.spec_is_lr() == self.spec_expanded()@.side.spec_is_lr()
    }

    /// The configuration of the collapsed state.
    pub fn collapsed(&self) -> (r: &SinglePanelCfg<L>)
        ensures
            *r == self.spec_collapsed(),
    {
        match self {
            PanelCfg::Single(s) => s,
            PanelCfg::Collapsible(c) => &c.collapsed,
        }
    }

    /// The configuration of the expanded state.
    pub fn expanded(&self) -> (r: &SinglePanelCfg<L>)
        ensures
            *r == self.spec_expanded(),
    {
        match self {
            PanelCfg::Single(s) => s,
            PanelCfg::Collapsible(c) => &c.expanded,
        }
    }
}

impl<L: Copy> PanelCfg<L> {
    /// The plans for the collapsed and the expanded state, both under `name`,
    /// where the two are of one panel family; `None` where one is a side panel
    /// and the other a top/bottom panel.
    pub fn plan_between(&self, name: &String) -> (r: Option<(PanelPlan<L>, PanelPlan<L>)>)
        ensures
            r is Some <==> self.spec_is_animatable(),
            r matches Some(p) ==> p.0.builds(self.spec_collapsed(), name@) && p.1.builds(
                self.spec_expanded(),
                name@,
            ),
    {
        let collapsed = self.collapsed();
        let expanded = self.expanded();
        if collapsed.side.is_lr() == expanded.side.is_lr() {
            Some((collapsed.plan(name.clone()), expanded.plan(name.clone())))
        } else {
            None
        }
    }
}

impl<L> From<SinglePanelCfg<L>> for PanelCfg<L> {
    fn from(cfg: SinglePanelCfg<L>) -> (r: Self) {
        PanelCfg::Single(cfg)
    }
}

impl<L> vstd::std_specs::convert::FromSpecImpl<SinglePanelCfg<L>> for PanelCfg<L> {
    open spec fn obeys_from_spec() -> bool {
        true
    }

    open spec fn from_spec(cfg: SinglePanelCfg<L>) -> Self {
        PanelCfg::Single(cfg)
    }
}

} // verus!
