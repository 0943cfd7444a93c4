use vstd::prelude::*;

verus! {

/// The GUI toolkit's frame style (background, margins, rounding, stroke).
/// The library carries it through unchanged and never looks inside.
#[verifier::external_type_specification]
#[verifier::external_body]
pub struct ExFrame(egui::Frame);

} // verus!
