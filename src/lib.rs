//! Declarative configuration for docked panels (side panels and top/bottom
//! panels) and the choice between several such configurations.
//!
//! The library decides which panel family and which builder settings a
//! configuration stands for; the GUI toolkit does the drawing.

mod config;
mod dynamic;
mod side;
mod toolkit;

pub use config::{CollapsiblePanelCfg, PanelCfg, PanelOp, PanelPlan, SinglePanelCfg, SinglePanelCfgView};
pub use dynamic::DynamicPanel;
pub use side::Side;
