//! One-frame record of which of the network-widget buttons were pressed.

use vstd::prelude::*;

verus! {

/// Which buttons of the network widget were clicked during the current
/// frame; every flag starts out false and is set by the widget that owns it.
#[derive(Clone, Copy, Debug, PartialEq, Eq, Structural)]
pub struct ButtonClicks {
    pub reset: bool,
    pub create: bool,
    pub color_cones: bool,
    pub color_cycles: bool,
    pub export_dot: bool,
    pub export_svg: bool,
    pub delete_cone: bool,
    pub delete_cycles: bool,
    pub color_nodes_and_edges: bool,
    pub delete_nodes_and_edges: bool,
    pub history_go_up: bool,
    pub history_go_down: bool,
    pub history_go_sibling: bool,
}

impl ButtonClicks {
    /// True when no button was clicked.
    pub open spec fn spec_is_none_clicked(self) -> bool {
        &&& !self.reset && !self.create && !self.color_cones && !self.color_cycles
        &&& !self.export_dot && !self.export_svg && !self.delete_cone && !self.delete_cycles
        &&& !self.color_nodes_and_edges && !self.delete_nodes_and_edges
        &&& !self.history_go_up && !self.history_go_down && !self.history_go_sibling
    }

    /// The all-false record every frame starts from.
    pub fn none_clicked() -> (r: ButtonClicks)
        ensures
            !r.reset && !r.create && !r.color_cones && !r.color_cycles,
            !r.export_dot && !r.export_svg && !r.delete_cone && !r.delete_cycles,
            !r.color_nodes_and_edges && !r.delete_nodes_and_edges,
            !r.history_go_up && !r.history_go_down && !r.history_go_sibling,
    {
        ButtonClicks {
            reset: false,
            create: false,
            color_cones: false,
            color_cycles: false,
            export_dot: false,
            export_svg: false,
            delete_cone: false,
            delete_cycles: false,
            color_nodes_and_edges: false,
            delete_nodes_and_edges: false,
            history_go_up: false,
            history_go_down: false,
            history_go_sibling: false,
        }
    }
}

impl Default for ButtonClicks {
    /// The default record has no clicks.
    fn default() -> (r: ButtonClicks)
        ensures
            r.spec_is_none_clicked(),
    {
        ButtonClicks::none_clicked()
    }
}

} // verus!
