//! Verified core of an accessible component toolkit: keyboard navigation,
//! component state machines, value bookkeeping for grouped controls,
//! dismissable-layer stacking and attribute merging.

pub mod layout;
pub mod text;
pub mod value_list;
pub mod state_machine;
pub mod controllable;
pub mod collection;
pub mod slot;
pub mod roving_focus;
pub mod presence;
pub mod dismissable_layer;
pub mod focus_guards;
pub mod accordion;
pub mod avatar;
pub mod checkbox;
pub mod disclosure;
pub mod popper;
pub mod scroll_area;
pub mod separator;
pub mod slider;
pub mod tabs;
pub mod toggle;
pub mod toggle_group;
