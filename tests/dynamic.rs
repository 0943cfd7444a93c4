use dynamic_panel::{CollapsiblePanelCfg, DynamicPanel, PanelCfg, PanelOp, Side, SinglePanelCfg};

fn side(width: f32) -> PanelCfg<f32> {
    let mut cfg = SinglePanelCfg::left();
    cfg.exact_width = Some(width);
    cfg.into()
}

fn top(height: f32) -> PanelCfg<f32> {
    let mut cfg = SinglePanelCfg::top();
    cfg.exact_height = Some(height);
    cfg.into()
}

#[test]
fn new_panel_has_nothing_to_show() {
    let panel: DynamicPanel<f32> = DynamicPanel::new("menu");
    assert!(panel.plan(0).is_none());
}

#[test]
fn push_panel_returns_consecutive_indices() {
    let mut panel = DynamicPanel::new("menu");
    assert_eq!(panel.push_panel(side(100.0)), 0);
    assert_eq!(panel.push_panel(top(30.0)), 1);
    assert_eq!(panel.push_panel(side(50.0)), 2);
    let plan = panel.plan(1).unwrap();
    assert!(plan.side == Side::Top);
    assert_eq!(plan.name, "menu");
    assert_eq!(plan.ops, vec![PanelOp::ExactSize(30.0)]);
    let plan = panel.plan(2).unwrap();
    assert_eq!(plan.ops, vec![PanelOp::ExactSize(50.0)]);
    assert!(panel.plan(3).is_none());
}

#[test]
fn dual_stores_exactly_two() {
    let mut panel = DynamicPanel::new("dual").dual(side(200.0), top(40.0));
    let first = panel.plan(0).unwrap();
    assert!(first.side == Side::Left);
    assert_eq!(first.ops, vec![PanelOp::ExactSize(200.0)]);
    let second = panel.plan(1).unwrap();
    assert!(second.side == Side::Top);
    assert_eq!(second.ops, vec![PanelOp::ExactSize(40.0)]);
    assert!(panel.plan(2).is_none());
    assert_eq!(panel.push_panel(side(1.0)), 2);
}

#[test]
fn with_panels_replaces_stored_ones() {
    let panel = DynamicPanel::new("p")
        .dual(side(1.0), side(2.0))
        .with_panels(vec![top(9.0)]);
    assert_eq!(panel.plan(0).unwrap().ops, vec![PanelOp::ExactSize(9.0)]);
    assert!(panel.plan(1).is_none());
    let empty: DynamicPanel<f32> = DynamicPanel::new("p").with_panels(vec![]);
    assert!(empty.plan(0).is_none());
}

#[test]
fn plan_uses_expanded_state() {
    let mut collapsed = SinglePanelCfg::right();
    collapsed.exact_width = Some(20.0);
    let mut expanded = SinglePanelCfg::right();
    expanded.exact_width = Some(220.0);
    expanded.resizable = Some(true);
    let mut panel = DynamicPanel::new("c");
    let index = panel.push_panel(PanelCfg::Collapsible(CollapsiblePanelCfg::new(collapsed, expanded)));
    let plan = panel.plan(index).unwrap();
    assert!(plan.side == Side::Right);
    assert_eq!(plan.ops, vec![PanelOp::Resizable(true), PanelOp::ExactSize(220.0)]);
}

#[test]
fn threshold_picks_second_when_it_holds() {
    assert_eq!(DynamicPanel::<f32>::threshold_index(true), 1);
    assert_eq!(DynamicPanel::<f32>::threshold_index(false), 0);
}
