//! What the terminal interface shows and where: geometry, lists and the plans
//! that a renderer draws.

pub mod agent_panel;
pub mod agent_laws;
pub mod agents;
pub mod client_overlays;
pub mod dialog_laws;
pub mod dialogs;
pub mod draw;
pub mod entries;
pub mod entry_laws;
pub mod frame;
pub mod geometry;
pub mod group_laws;
pub mod layout_laws;
pub mod open_worktree;
pub mod outcome_laws;
pub mod overlays;
pub mod panel_laws;
pub mod sections;
pub mod sidebar;
pub mod sidebar_laws;
pub mod space_list;
pub mod tokens;
