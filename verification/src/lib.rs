use vstd::prelude::*;

pub mod avatars;
pub mod binary64;
pub mod chat_list;
pub mod chat_state;
pub mod composer;
pub mod conversation;
pub mod emoji;
pub mod forward;
pub mod group_admin;
pub mod large_db;
pub mod media_viewer;
pub mod message_actions;
pub mod message_details;
pub mod model;
pub mod new_group;
pub mod outbound;
pub mod pairing;
pub mod right_panel;
pub mod root;
pub mod session;
pub mod settings;
pub mod starred;
pub mod soak;
pub mod text;
pub mod typing;

verus! {

} // verus!
