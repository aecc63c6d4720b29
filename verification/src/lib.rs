//! Protocol library for the Line 6 HX Stomp XL USB editor: packet builders,
//! IN-frame classifiers, session counters and the small state machines that
//! drive the device, all verified.

pub mod bytes;
pub mod text;
pub mod packet;
pub mod slots;
pub mod state;
pub mod ed03_lane;
pub mod command_center_write;
pub mod pull_frames;
pub mod preset_dump_stream_ack;
pub mod pipeline;
pub mod slot_model_hw_pull;
pub mod firmware_scroll_ack;
pub mod hw_slot_notify;
pub mod amorcage;
pub mod editor_phase4_bootstrap;
pub mod editor_go_live;
pub mod keep_alive;
pub mod path1_io_live_write;
pub mod matrix_routing_move;
pub mod matrix_routing_dd;
pub mod clear_all_preset_blocks;
pub mod live_write;
pub mod live_write_config;
pub mod cab_dual_live_write;
pub mod edit_slot_model;
pub mod cab_dual;
pub mod modes;
pub mod matrix_slot_move;
pub mod path1_routing_structural;
pub mod amp_cab_cab_replace;
pub mod amp_cab_live_write;
pub mod legacy_cab_param_commit;
pub mod echo_in;
pub mod hx_edit_console_cmds;
pub mod model_catalog;
pub mod usb_assign;
