//! Verified core of a foreign-function binding for an accessibility tree.
//!
//! A managed-runtime caller builds accessibility nodes and tree-update
//! batches through opaque integer handles, then submits each finished batch
//! to a platform adapter. This crate holds the part of that binding that
//! carries real invariants: the handle lifecycle (create, mutate through the
//! handle, destroy or consume exactly once), the incremental construction of
//! an update batch, and the adapter's activation discipline, under which a
//! caller-supplied tree supplier runs only while an assistive-technology
//! client is actually listening. The platform work itself — marshaling
//! across the runtime boundary and raising native events — stays in the
//! unverified shell around this crate.

mod adapter;
mod codes;
mod error;
mod geometry;
mod node;
mod role;
mod session;
mod setters;
mod text;
mod update;

pub use adapter::resolve_initial_tree;
pub use adapter::Adapter;
pub use adapter::EventBatch;
pub use codes::Action;
pub use codes::Live;
pub use codes::TextDirection;
pub use codes::Toggled;
pub use error::ProtocolError;
pub use geometry::Rect;
pub use node::opt_seq;
pub use node::Node;
pub use node::NodeView;
pub use role::Role;
pub use session::Session;
pub use session::SessionView;
pub use setters::added_actions;
pub use setters::apply_setter;
pub use setters::apply_setters;
pub use setters::children_after;
pub use setters::last_bounds;
pub use setters::last_character_lengths;
pub use setters::last_character_positions;
pub use setters::last_character_widths;
pub use setters::last_label;
pub use setters::last_live;
pub use setters::last_max_numeric_value;
pub use setters::last_min_numeric_value;
pub use setters::last_numeric_value;
pub use setters::last_numeric_value_jump;
pub use setters::last_numeric_value_step;
pub use setters::last_text_direction;
pub use setters::last_text_selection;
pub use setters::last_toggled;
pub use setters::last_value;
pub use setters::last_word_lengths;
pub use setters::lemma_setter_sequence_semantics;
pub use setters::SetterCall;
pub use text::TextPosition;
pub use text::TextSelection;
pub use update::lemma_add_order_preserved;
pub use update::lemma_set_then_clear_tree;
pub use update::spec_add_all;
pub use update::spec_add_node;
pub use update::spec_clear_tree;
pub use update::spec_set_tree;
pub use update::TreeDescriptor;
pub use update::TreeUpdate;
pub use update::TreeUpdateView;
