use vstd::prelude::*;
use crate::bytes::{wadd8, wadd16, lo8, hi8, lo_byte, hi_byte, from_le};
use crate::packet::OutPacket;

verus! {

/// Emitted when the active slot bus changes (`82 62 SS 1a` traffic).
pub struct HardwareSlotChangedPayload {
    pub sequence: u32,
    pub slot_index: Option<usize>,
    pub slot_bus: Option<u8>,
}

/// Path 1 input source learnt from an IN frame.
pub struct Path1InputSourceChangedPayload {
    pub wire_value: u8,
    /// `true` for a hardware scroll frame `21` (vs an echo after a write).
    pub from_scroll_21: bool,
}

/// Path 1 split type learnt from an IN frame.
pub struct Path1SplitTypeChangedPayload {
    pub wire_value: u8,
    pub from_scroll_21: bool,
}

/// Mode change requested by a mode (handed to the mode manager).
#[derive(PartialEq, Eq, Structural, Clone, Copy, Debug)]
pub enum ModeRequest {
    Connect,
    ReconfigureX1,
    RequestPresetName,
    RequestPresetNames,
    /// Finishes `RequestPresetNames`, then `RequestPresetName` when possible.
    FinalizePresetNames,
    /// Waits the post phase-4 settle, then `RequestPresetNames`.
    AwaitPostBootstrapSettle,
    Standard,
    /// `true`: UI read (back to Standard); `false`: dump of the active preset body.
    RequestPreset(bool),
    /// End of a preset read raised by the read's own timer; the value is the read generation.
    StandardPresetRead(u64),
}

/// Protocol phase of the session.
#[derive(PartialEq, Eq, Structural, Clone, Copy, Debug)]
pub enum SessionPhase {
    Bootstrapping,
    EditorReady,
}

/// Commands for the keep-alive manager.
#[derive(PartialEq, Eq, Structural, Clone, Copy, Debug)]
pub enum KeepAliveCommand {
    /// One cycle `ed:03` → `ef:03` → `f0:03` with fixed trailers.
    StartOrdered,
    StopAll,
}

/// Settle window after the phase-4 bootstrap, in milliseconds.
pub const POST_PHASE4_SETTLE_MS: u64 = 700;

/// Initial scroll-ack lane after the connect bootstrap (`09:10` on the wire).
pub const SCROLL_LANE_BOOT: u16 = 0x1009;

/// First wire value of the editor transaction double (`e8:64`).
pub const PRESET_ED03_TRANSACTION_FIRST: u16 = 0x64e8;

/// Anchor of the ED03 lane counter at the first bootstrap OUT (`09:10`).
pub const EDITOR_ED03_LANE_FIRST: u16 = 0x1009;

/// Step of the lane low byte for one phase-B command (`19`/`1b`/`1c`).
pub const EDITOR_ED03_LANE_CMD_DELTA: u16 = 0x0017;

/// Rolling counters of the three keep-alive lanes and of the live write lane.
pub struct Counters {
    pub x1_cnt: u8,
    pub x2_cnt: u8,
    pub x80_cnt: u8,
    pub session_no: u8,
    pub session_quadruple: [u8; 4],
    pub request_preset_session_id: u8,
    /// `cd:XX` counter of the ED03 session openings (byte 27).
    pub ed03_cmd_type: u8,
    /// Live write `27` counter (bytes 12-13).
    pub live_write_ctr: u16,
    /// Live write `yy` byte (byte 28).
    pub live_write_yy: u8,
    pub slot_model_lane_seq: Option<u8>,
    pub ed03_live_write_seq_sent: Option<u8>,
}

/// Editor lanes of the 36-byte `80:10:ed:03` traffic and the options that shape them.
pub struct EditorLanes {
    /// Editor double (bytes 28-29, `cd:03`).
    pub editor_ed03_double: u16,
    /// ED03 lane counter (bytes 12-13 of OUT `80:10:ed:03`).
    pub editor_ed03_lane: u16,
    /// Byte 14: high byte of the chunk counter (byte 13 = low).
    pub editor_ed03_lane_b14: u8,
    /// Preset chunk ACK lane (`f4:xx` witness).
    pub preset_dump_ack_ctr: u16,
    pub preset_last_ack_double: [u8; 2],
    /// Pins the high byte of the editor double at `0x64` (default on).
    pub editor_double_pin_hi: bool,
    /// Skips `0x00` when the low byte of the editor double wraps (default on).
    pub editor_double_skip_00: bool,
    /// Carries byte 13 overflow into byte 14 (default on).
    pub lane_b14_carry: bool,
    /// ACKs preset stream chunks on the editor lane (default on; off = `f4` witness).
    pub dump_ack_use_editor_lane: bool,
    /// Sends the two "go live" `ef:03` commands after the names read (default off).
    pub editor_go_live: bool,
}

/// Scroll ACK lanes (`1d`/`1f` → OUT `f0:03` sub=`08`, bytes 12-13 LE).
pub struct ScrollLanes {
    /// Background scroll ACK lane.
    pub firmware_scroll_ack_ctr: u16,
    pub firmware_scroll_ack_prev: Option<u8>,
    pub firmware_scroll_skip_inc_once: bool,
    pub firmware_scroll_armed: bool,
    /// Scroll ACK lane of the model pull.
    pub hw_model_scroll_ack_ctr: u16,
    pub hw_model_scroll_ack_prev: Option<u8>,
    pub hw_model_scroll_skip_inc_once: bool,
}

/// Hardware model pull (`1b` / `19` / `19` on a model scroll).
pub struct ModelPull {
    pub hw_model_pull_ed03_double: u16,
    pub hw_model_pull_ctr: u16,
    /// 0 = idle, 1 = waits the first reply, 2 = the second, 3 = the 272-byte bulk.
    pub hw_model_pull_step: u8,
    pub hw_model_pull_slot_bus: Option<u8>,
    pub hw_model_pull_capture: Vec<Vec<u8>>,
    pub hw_model_pull_capture_deadline: Option<u64>,
    /// `None` = `cd:03`; `Some(0x04)` after the low wrap of the double.
    pub hw_model_pull_cd_lane: Option<u8>,
    pub hw_model_pull_echo_double: Option<[u8; 2]>,
    pub hw_model_pull_retried_1b: bool,
    pub hw_model_pull_saw_final_bulk: bool,
    pub hw_model_pull_pending_slot_bus: Option<u8>,
    pub hw_model_pull_last_at: Option<u64>,
    pub hw_model_pull_quiet_until: Option<u64>,
    pub hw_model_post_pull_settling: bool,
    pub hw_model_post_pull_deadline: Option<u64>,
    pub hw_model_last_scroll_in_at: Option<u64>,
    pub hw_model_scroll_deferred_1d: Option<Vec<u8>>,
}

/// Connection and editor readiness.
pub struct SessionFlags {
    pub connecting: bool,
    pub connected: bool,
    /// `false` until the end of the bootstrap.
    pub editor_ready: bool,
    /// Preset read modes: no ACK of background `1d` notifications.
    pub suppress_1d_firmware_notify_ack: bool,
    pub post_arm_sequence_started: bool,
    /// End of the init settle window (clock value).
    pub init_usb_settle_until: Option<u64>,
    /// Sends the x2 `ARM_f0` during the connection already (default off).
    pub f0_arm_early: bool,
}

/// Preset names and body reads.
pub struct PresetRead {
    pub got_preset: bool,
    pub got_preset_names: bool,
    pub just_fetched_preset_names: bool,
    pub preset_data: Vec<u8>,
    pub preset_data_ready: bool,
    pub preset_content_only: bool,
    pub preset_read_generation: u64,
    pub want_content_only_after_x2: bool,
    pub preset_index: usize,
    /// Name of the active preset, once a read decoded it.
    pub active_preset_name: Option<String>,
    pub active_preset_name_index: Option<usize>,
}

/// Bootstrap gates (post-ARM_ef ACKs, end of phase 4).
pub struct BootGates {
    /// ACKs seen after ARM_ef (bit0 = ef, bit1 = ed, bit2 = f0).
    pub post_ef_arm_ack_mask: u8,
    pub post_ef_arm_gate_active: bool,
    pub post_ef_gate_signalled: bool,
    pub phase4_bootstrap_active: bool,
    pub phase4_complete_gate_armed: bool,
    pub phase4_complete_signalled: bool,
    pub phase4_dump_full_272_count: u16,
}

/// Active slot and device-side keep-alive counters learnt from IN traffic.
pub struct SlotTracking {
    /// Active slot as a grid index; `None` for structural blocks.
    pub hw_active_slot_index: Option<usize>,
    /// Raw bus of the active slot (`SS` in `82:62:SS:1a`).
    pub hw_active_slot_bus: Option<u8>,
    pub hw_active_slot_sequence: u32,
    pub hw_slot_notify_ed_in: Option<[u8; 16]>,
    pub hw_slot_notify_ef_in: Option<[u8; 16]>,
    pub hw_slot_notify_sequence: u32,
    pub hw_slot_content_sequence: u32,
    /// Last device counter (byte 9) seen on each keep-alive lane.
    pub dev_keepalive_cnt_ed: Option<u8>,
    pub dev_keepalive_cnt_ef: Option<u8>,
    pub dev_keepalive_cnt_f0: Option<u8>,
    pub path1_input_source_wire: Option<u8>,
    pub path1_split_type_wire: Option<u8>,
}

/// Amp+Cab and Cab dual write session (echo blocks, legacy hints, focus and handshake).
pub struct CabSession {
    pub last_ed03_echo_model: Option<[u8; 16]>,
    /// Model block `83:66:cd` per `(slot_bus, route_pp, param_selector)`, latest entry first.
    pub ed03_echo_model_by_slot_param: Vec<((u8, u8, u8), [u8; 16])>,
    /// Cab bytes after `c2:19` in the assign bulk, per slot (single legacy cab).
    pub standalone_legacy_cab_module_field_by_slot: Vec<(u32, Vec<u8>)>,
    /// Model block of the assign bulk, per slot (single legacy cab).
    pub standalone_legacy_assign_model_block_by_slot: Vec<(u32, [u8; 16])>,
    pub force_discrete_c2_for_legacy_single: bool,
    /// Dual legacy cab hint, per `(slot, cab_index)`.
    pub dual_legacy_cab_module_field_by_slot: Vec<((u32, u8), Vec<u8>)>,
    pub amp_cab_cab_focus_sent_for_slot: Option<u32>,
    pub cab_dual_cab2_focus_sent_for_slot: Option<u32>,
    pub cab_dual_live_write_tab_focus: Option<(u32, u8)>,
    pub last_cab_dual_cab2_focus_packet: Option<Vec<u8>>,
    pub cab_dual_cab2_handshake_ed08_ctr: Option<u16>,
    pub cab_dual_cab2_last_in36_ed08_ctr: Option<u16>,
    pub cab_dual_cab2_last_in36_frame: Option<Vec<u8>>,
    pub cab_dual_cab2_handshake_until: Option<u64>,
    pub cab_dual_cab2_suppress_standard_ed08_until: Option<u64>,
    /// Amp and cab focus tags per slot of an Amp+Cab block, latest entry first.
    pub amp_cab_focus_lane_tags_by_slot: Vec<(u32, (u8, u8))>,
    /// IN frames kept during a cab 2 handshake.
    pub cab_dual_cab2_handshake_capture: Vec<Vec<u8>>,
    /// Lane that cab focus packets carry (default: the editor lane).
    pub cab2_focus_lane: crate::cab_dual_live_write::Cab2FocusLane,
    /// Byte 11 of cab focus packets is `0x14` instead of `0x04` (default off).
    pub cab2_focus_sub14: bool,
}

/// Host transactions that hold the IN pipeline while they wait for device answers.
pub struct Transactions {
    /// A host transaction (routing D&D, clear-all) is running.
    pub usb_host_transaction_hold: bool,
    pub matrix_routing_dd_wait: Option<crate::matrix_routing_dd::MatrixRoutingDdWait>,
    pub clear_all_wait: Option<crate::clear_all_preset_blocks::ClearAllWait>,
    pub standalone_legacy_param_commit: Option<crate::legacy_cab_param_commit::StandaloneLegacyParamCommit>,
    /// After an inter-path move, primes the editor lane for the dump ACKs (default on).
    pub dd_dump_ack_prime: bool,
    /// A move that creates the split sends SELECT + MOVE without branch commits (default on).
    pub dd_create_split_faithful: bool,
    /// On an empty slot, a dual cab is created with the full `31` create frame (default on).
    pub cab_dual_create_head31: bool,
    /// On an empty slot, a legacy amp+cab is created with the `2d` create frame (default on).
    pub amp_cab_legacy_create_head2d: bool,
}

/// Shared protocol state of one USB session.
///
/// Time is the monotonic clock `now_ms` (milliseconds), which the caller refreshes before
/// handing the state to the library; every deadline is a value of that clock. Packets to
/// send are appended to `outbox`, mode requests to `mode_requests` and keep-alive commands
/// to `keepalive_commands`: the caller drains them to the USB writer and the managers.
pub struct HelixState {
    pub now_ms: u64,
    pub counters: Counters,
    pub lanes: EditorLanes,
    pub scroll: ScrollLanes,
    pub pull: ModelPull,
    pub session: SessionFlags,
    pub preset: PresetRead,
    pub gates: BootGates,
    pub slot: SlotTracking,
    pub cab: CabSession,
    pub tx: Transactions,
    /// Packets waiting for the USB writer.
    pub outbox: Vec<OutPacket>,
    /// Mode changes waiting for the mode manager.
    pub mode_requests: Vec<ModeRequest>,
    /// Commands waiting for the keep-alive manager.
    pub keepalive_commands: Vec<KeepAliveCommand>,
}

/// `now + ms`, saturating at the end of the clock.
pub open spec fn deadline_after(now: u64, ms: u64) -> u64 {
    if now <= u64::MAX - ms {
        (now + ms) as u64
    } else {
        u64::MAX
    }
}

/// `now` is before the optional deadline.
pub open spec fn before_deadline(now: u64, d: Option<u64>) -> bool {
    d matches Some(t) && now < t
}

/// Less than `ms` elapsed since `t` (a clock read before `t` counts as no time elapsed).
pub open spec fn elapsed_below(now: u64, t: u64, ms: u64) -> bool {
    (if now >= t {
        now - t
    } else {
        0
    }) < ms
}

/// `now + ms`, saturating at the end of the clock.
pub fn deadline_from(now: u64, ms: u64) -> (r: u64)
    ensures
        r == deadline_after(now, ms),
{
    now.saturating_add(ms)
}

/// `now` is before the optional deadline.
pub fn is_before(now: u64, d: Option<u64>) -> (r: bool)
    ensures
        r == before_deadline(now, d),
{
    match d {
        Some(t) => now < t,
        None => false,
    }
}

/// Less than `ms` elapsed since `t`.
pub fn elapsed_is_below(now: u64, t: u64, ms: u64) -> (r: bool)
    ensures
        r == elapsed_below(now, t, ms),
{
    now.saturating_sub(t) < ms
}

/// The editor double after one step.
pub open spec fn next_editor_double_spec(d: u16, pin_hi: bool, skip_00: bool) -> u16 {
    if pin_hi {
        let lo = (d % 256 + 1) % 256;
        let lo2 = if skip_00 && lo == 0 { 1 } else { lo };
        (0x6400 + lo2) as u16
    } else {
        wadd16(d, 1)
    }
}

/// With the high byte pinned, the editor double stays on `0x64xx` and its low byte steps by
/// one (`0x64ff` → `0x6400`, or `0x6401` when `00` is skipped, which it then never is).
pub proof fn law_pinned_editor_double(d: u16, skip_00: bool)
    ensures
        hi8(next_editor_double_spec(d, true, skip_00)) == 0x64,
        lo8(d) != 0xff ==> lo8(next_editor_double_spec(d, true, skip_00)) == lo8(d) + 1,
        lo8(d) == 0xff ==> lo8(next_editor_double_spec(d, true, skip_00)) == (if skip_00 { 1u8 } else { 0u8 }),
        skip_00 ==> lo8(next_editor_double_spec(d, true, skip_00)) != 0,
{
}

/// The session quadruple after `+0x11` on its first byte, with carries through the others.
pub open spec fn quadruple_plus_x11(q: Seq<u8>) -> Seq<u8> {
    let b0 = wadd8(q[0], 0x11);
    if b0 < 0x11 {
        let b1 = wadd8(q[1], 1);
        if b1 == 0 {
            let b2 = wadd8(q[2], 1);
            if b2 == 0 {
                seq![b0, b1, b2, wadd8(q[3], 1)]
            } else {
                seq![b0, b1, b2, q[3]]
            }
        } else {
            seq![b0, b1, q[2], q[3]]
        }
    } else {
        seq![b0, q[1], q[2], q[3]]
    }
}

/// Little-endian value of four bytes.
pub open spec fn le32(q: Seq<u8>) -> int {
    q[0] + 256 * q[1] + 65536 * q[2] + 16777216 * q[3]
}

/// A mode request that the init settle window holds back.
pub open spec fn settle_blocks_spec(req: ModeRequest) -> bool {
    req matches ModeRequest::RequestPreset(_) || req == ModeRequest::RequestPresetName
        || req == ModeRequest::RequestPresetNames || req == ModeRequest::ReconfigureX1
        || req == ModeRequest::Connect
}

/// `rand::random::<u8>()` (rand): a byte from the thread-local generator; any value may
/// come, so nothing is stated of it.
#[verifier::external_body]
pub(crate) fn random_u8() -> (r: u8) {
    rand::random::<u8>()
}

/// Session number from a random byte: the byte, raised to `0x04` at least.
pub open spec fn session_no_from_spec(r: u8) -> u8 {
    if r < 0x04 { 0x04 } else { r }
}

/// Session number from a random byte: the byte, raised to `0x04` at least.
pub fn session_no_from(r: u8) -> (s: u8)
    ensures
        s == session_no_from_spec(r),
{
    if r < 0x04 { 0x04 } else { r }
}

/// The mode requests once `req` is asked for in state `s` (dropped when the phase holds it back).
pub open spec fn mode_requests_after(s: HelixState, req: ModeRequest) -> Seq<ModeRequest> {
    if (!s.session.editor_ready && editor_ready_blocks_spec(req)) || (s.settle_active_spec() && settle_blocks_spec(req)) {
        s.mode_requests@
    } else {
        s.mode_requests@.push(req)
    }
}

/// Behaviour of a protocol mode: what it sends when it starts, how it handles each IN frame
/// (the result tells whether the frame was its own) and what it does when it stops.
pub trait Mode {
    fn start(&mut self, state: &mut HelixState);
    fn data_in(&mut self, data: &[u8], state: &mut HelixState) -> bool;
    fn shutdown(&mut self, state: &mut HelixState);
}

/// A mode request that waits for the editor to be ready.
pub open spec fn editor_ready_blocks_spec(req: ModeRequest) -> bool {
    req == ModeRequest::RequestPresetName || req == ModeRequest::RequestPresetNames
}

/// The chunk counter `(byte 13, byte 14)` of the ED03 lane as one 16-bit value.
pub open spec fn lane_chunk_counter(lane: u16, b14: u8) -> int {
    hi8(lane) + 256 * b14
}

/// Bit of the post-ARM_ef gate acknowledged by an IN frame (0 when none).
pub open spec fn tick_bit(data: Seq<u8>) -> u8 {
    if data.len() == 16 && data[0] == 0x08 && data[1] == 0x00 && data[2] == 0x00 && data[3]
        == 0x18 && data[11] == 0x08 {
        if data[4] == 0xef && data[5] == 0x03 && data[6] == 0x01 && data[7] == 0x10 {
            1
        } else if data[4] == 0xed && data[5] == 0x03 && data[6] == 0x80 && data[7] == 0x10 {
            2
        } else if data[4] == 0xf0 && data[5] == 0x03 && data[6] == 0x02 && data[7] == 0x10 {
            4
        } else {
            0
        }
    } else {
        0
    }
}

fn tick_bit_of(data: &[u8]) -> (r: u8)
    ensures
        r == tick_bit(data@),
{
    if data.len() != 16 || data[0] != 0x08 || data[1] != 0x00 || data[2] != 0x00 || data[3]
        != 0x18 || data[11] != 0x08 {
        return 0;
    }
    if data[4] == 0xef && data[5] == 0x03 && data[6] == 0x01 && data[7] == 0x10 {
        1
    } else if data[4] == 0xed && data[5] == 0x03 && data[6] == 0x80 && data[7] == 0x10 {
        2
    } else if data[4] == 0xf0 && data[5] == 0x03 && data[6] == 0x02 && data[7] == 0x10 {
        4
    } else {
        0
    }
}

impl HelixState {
    /// `true` when the init settle window is open at the current clock.
    pub open spec fn settle_active_spec(&self) -> bool {
        self.session.init_usb_settle_until matches Some(d) && self.now_ms < d
    }

    /// Fresh session state.
    pub fn new() -> (r: Self)
        ensures
            r.now_ms == 0,
            r.counters.x1_cnt == 2 && r.counters.x2_cnt == 2 && r.counters.x80_cnt == 2,
            r.counters.session_no == 0x1a,
            r.counters.live_write_ctr == 0x6cbd,
            r.counters.live_write_yy == 0x17,
            r.counters.request_preset_session_id == 0xf4,
            r.counters.ed03_cmd_type == 0x01,
            r.counters.session_quadruple@ == seq![0xf4u8, 0x1e, 0x00, 0x00],
            r.lanes.editor_ed03_double == 0x64e7,
            r.lanes.editor_ed03_lane == EDITOR_ED03_LANE_FIRST,
            r.lanes.editor_ed03_lane_b14 == 0,
            r.lanes.preset_dump_ack_ctr == 0x1df4,
            r.lanes.editor_double_pin_hi && r.lanes.editor_double_skip_00,
            r.lanes.lane_b14_carry && r.lanes.dump_ack_use_editor_lane && !r.lanes.editor_go_live,
            r.scroll.firmware_scroll_ack_ctr == SCROLL_LANE_BOOT,
            r.scroll.firmware_scroll_ack_prev.is_none(),
            !r.scroll.firmware_scroll_skip_inc_once && !r.scroll.firmware_scroll_armed,
            r.scroll.hw_model_scroll_ack_ctr == SCROLL_LANE_BOOT,
            r.scroll.hw_model_scroll_ack_prev.is_none(),
            !r.scroll.hw_model_scroll_skip_inc_once,
            r.pull.hw_model_pull_ctr == 0x6cbd,
            r.pull.hw_model_pull_ed03_double == 0xffff,
            r.pull.hw_model_pull_step == 0,
            r.pull.hw_model_pull_slot_bus.is_none(),
            r.pull.hw_model_pull_capture@.len() == 0,
            r.pull.hw_model_pull_capture_deadline.is_none(),
            r.pull.hw_model_pull_cd_lane.is_none(),
            r.pull.hw_model_pull_pending_slot_bus.is_none(),
            r.pull.hw_model_pull_last_at.is_none(),
            r.pull.hw_model_pull_quiet_until.is_none(),
            !r.pull.hw_model_post_pull_settling,
            r.pull.hw_model_post_pull_deadline.is_none(),
            r.pull.hw_model_scroll_deferred_1d.is_none(),
            r.session.connecting && !r.session.connected && !r.session.editor_ready,
            !r.session.suppress_1d_firmware_notify_ack,
            r.session.init_usb_settle_until.is_none(),
            !r.preset.preset_content_only && !r.preset.preset_data_ready,
            r.gates.post_ef_arm_ack_mask == 0 && !r.gates.post_ef_arm_gate_active,
            !r.gates.phase4_bootstrap_active,
            r.slot.hw_active_slot_bus.is_none() && r.slot.hw_active_slot_index.is_none(),
            r.slot.hw_active_slot_sequence == 0 && r.slot.hw_slot_content_sequence == 0,
            r.slot.dev_keepalive_cnt_ed.is_none() && r.slot.dev_keepalive_cnt_ef.is_none()
                && r.slot.dev_keepalive_cnt_f0.is_none(),
            r.slot.path1_input_source_wire.is_none() && r.slot.path1_split_type_wire.is_none(),
            r.cab.ed03_echo_model_by_slot_param@.len() == 0,
            r.cab.standalone_legacy_cab_module_field_by_slot@.len() == 0,
            r.cab.standalone_legacy_assign_model_block_by_slot@.len() == 0,
            r.cab.dual_legacy_cab_module_field_by_slot@.len() == 0,
            r.cab.cab_dual_cab2_handshake_until.is_none(),
            r.cab.cab_dual_cab2_suppress_standard_ed08_until.is_none(),
            r.cab.last_cab_dual_cab2_focus_packet.is_none(),
            r.cab.cab_dual_cab2_last_in36_ed08_ctr.is_none(),
            !r.tx.usb_host_transaction_hold && r.tx.matrix_routing_dd_wait.is_none(),
            r.tx.clear_all_wait.is_none() && r.tx.standalone_legacy_param_commit.is_none(),
            r.counters.slot_model_lane_seq.is_none() && r.counters.ed03_live_write_seq_sent.is_none(),
            r.lanes.preset_last_ack_double@ == seq![0u8, 0u8],
            r.pull.hw_model_pull_echo_double.is_none() && !r.pull.hw_model_pull_retried_1b,
            !r.pull.hw_model_pull_saw_final_bulk && r.pull.hw_model_last_scroll_in_at.is_none(),
            !r.session.post_arm_sequence_started && !r.session.f0_arm_early,
            !r.preset.got_preset && !r.preset.got_preset_names && !r.preset.just_fetched_preset_names,
            r.preset.preset_data@.len() == 0 && r.preset.preset_read_generation == 0,
            !r.preset.want_content_only_after_x2 && r.preset.preset_index == 0,
            r.preset.active_preset_name.is_none() && r.preset.active_preset_name_index.is_none(),
            !r.gates.post_ef_gate_signalled && !r.gates.phase4_complete_gate_armed,
            !r.gates.phase4_complete_signalled && r.gates.phase4_dump_full_272_count == 0,
            r.slot.hw_slot_notify_ed_in.is_none() && r.slot.hw_slot_notify_ef_in.is_none(),
            r.slot.hw_slot_notify_sequence == 0,
            r.cab.last_ed03_echo_model.is_none() && !r.cab.force_discrete_c2_for_legacy_single,
            r.cab.amp_cab_cab_focus_sent_for_slot.is_none() && r.cab.cab_dual_cab2_focus_sent_for_slot.is_none(),
            r.cab.cab_dual_live_write_tab_focus.is_none() && r.cab.cab_dual_cab2_handshake_ed08_ctr.is_none(),
            r.cab.cab_dual_cab2_last_in36_frame.is_none(),
            r.cab.amp_cab_focus_lane_tags_by_slot@.len() == 0,
            r.cab.cab_dual_cab2_handshake_capture@.len() == 0,
            r.cab.cab2_focus_lane == crate::cab_dual_live_write::Cab2FocusLane::Editor && !r.cab.cab2_focus_sub14,
            r.tx.dd_dump_ack_prime && r.tx.dd_create_split_faithful,
            r.tx.cab_dual_create_head31 && r.tx.amp_cab_legacy_create_head2d,
            r.outbox@.len() == 0,
            r.mode_requests@.len() == 0,
            r.keepalive_commands@.len() == 0,
    {
        HelixState {
            now_ms: 0,
            counters: Counters {
                x1_cnt: 0x02,
                x2_cnt: 0x02,
                x80_cnt: 0x02,
                session_no: 0x1a,
                session_quadruple: [0xf4, 0x1e, 0x00, 0x00],
                request_preset_session_id: 0xf4,
                ed03_cmd_type: 0x01,
                live_write_ctr: 0x6cbd,
                live_write_yy: 0x17,
                slot_model_lane_seq: None,
                ed03_live_write_seq_sent: None,
            },
            lanes: EditorLanes {
                editor_ed03_double: 0x64e7,
                editor_ed03_lane: EDITOR_ED03_LANE_FIRST,
                editor_ed03_lane_b14: 0x00,
                preset_dump_ack_ctr: 0x1df4,
                preset_last_ack_double: [0, 0],
                editor_double_pin_hi: true,
                editor_double_skip_00: true,
                lane_b14_carry: true,
                dump_ack_use_editor_lane: true,
                editor_go_live: false,
            },
            scroll: ScrollLanes {
                firmware_scroll_ack_ctr: SCROLL_LANE_BOOT,
                firmware_scroll_ack_prev: None,
                firmware_scroll_skip_inc_once: false,
                firmware_scroll_armed: false,
                hw_model_scroll_ack_ctr: SCROLL_LANE_BOOT,
                hw_model_scroll_ack_prev: None,
                hw_model_scroll_skip_inc_once: false,
            },
            pull: ModelPull {
                hw_model_pull_ed03_double: 0xffff,
                hw_model_pull_ctr: 0x6cbd,
                hw_model_pull_step: 0,
                hw_model_pull_slot_bus: None,
                hw_model_pull_capture: Vec::new(),
                hw_model_pull_capture_deadline: None,
                hw_model_pull_cd_lane: None,
                hw_model_pull_echo_double: None,
                hw_model_pull_retried_1b: false,
                hw_model_pull_saw_final_bulk: false,
                hw_model_pull_pending_slot_bus: None,
                hw_model_pull_last_at: None,
                hw_model_pull_quiet_until: None,
                hw_model_post_pull_settling: false,
                hw_model_post_pull_deadline: None,
                hw_model_last_scroll_in_at: None,
                hw_model_scroll_deferred_1d: None,
            },
            session: SessionFlags {
                connecting: true,
                connected: false,
                editor_ready: false,
                suppress_1d_firmware_notify_ack: false,
                post_arm_sequence_started: false,
                init_usb_settle_until: None,
                f0_arm_early: false,
            },
            preset: PresetRead {
                got_preset: false,
                got_preset_names: false,
                just_fetched_preset_names: false,
                preset_data: Vec::new(),
                preset_data_ready: false,
                preset_content_only: false,
                preset_read_generation: 0,
                want_content_only_after_x2: false,
                preset_index: 0,
                active_preset_name: None,
                active_preset_name_index: None,
            },
            gates: BootGates {
                post_ef_arm_ack_mask: 0,
                post_ef_arm_gate_active: false,
                post_ef_gate_signalled: false,
                phase4_bootstrap_active: false,
                phase4_complete_gate_armed: false,
                phase4_complete_signalled: false,
                phase4_dump_full_272_count: 0,
            },
            slot: SlotTracking {
                hw_active_slot_index: None,
                hw_active_slot_bus: None,
                hw_active_slot_sequence: 0,
                hw_slot_notify_ed_in: None,
                hw_slot_notify_ef_in: None,
                hw_slot_notify_sequence: 0,
                hw_slot_content_sequence: 0,
                dev_keepalive_cnt_ed: None,
                dev_keepalive_cnt_ef: None,
                dev_keepalive_cnt_f0: None,
                path1_input_source_wire: None,
                path1_split_type_wire: None,
            },
            cab: CabSession {
                last_ed03_echo_model: None,
                ed03_echo_model_by_slot_param: Vec::new(),
                standalone_legacy_cab_module_field_by_slot: Vec::new(),
                standalone_legacy_assign_model_block_by_slot: Vec::new(),
                force_discrete_c2_for_legacy_single: false,
                dual_legacy_cab_module_field_by_slot: Vec::new(),
                amp_cab_cab_focus_sent_for_slot: None,
                cab_dual_cab2_focus_sent_for_slot: None,
                cab_dual_live_write_tab_focus: None,
                last_cab_dual_cab2_focus_packet: None,
                cab_dual_cab2_handshake_ed08_ctr: None,
                cab_dual_cab2_last_in36_ed08_ctr: None,
                cab_dual_cab2_last_in36_frame: None,
                cab_dual_cab2_handshake_until: None,
                cab_dual_cab2_suppress_standard_ed08_until: None,
                amp_cab_focus_lane_tags_by_slot: Vec::new(),
                cab_dual_cab2_handshake_capture: Vec::new(),
                cab2_focus_lane: crate::cab_dual_live_write::Cab2FocusLane::Editor,
                cab2_focus_sub14: false,
            },
            tx: Transactions {
                usb_host_transaction_hold: false,
                matrix_routing_dd_wait: None,
                clear_all_wait: None,
                standalone_legacy_param_commit: None,
                dd_dump_ack_prime: true,
                dd_create_split_faithful: true,
                cab_dual_create_head31: true,
                amp_cab_legacy_create_head2d: true,
            },
            outbox: Vec::new(),
            mode_requests: Vec::new(),
            keepalive_commands: Vec::new(),
        }
    }

    /// Immediate ACK of IN `1d` notifications, except while a preset is read over USB.
    pub fn should_ack_firmware_1d_notify(&self) -> (r: bool)
        ensures
            r == (self.settle_active_spec() || !self.session.suppress_1d_firmware_notify_ack),
    {
        if self.init_usb_settle_active() {
            return true;
        }
        !self.session.suppress_1d_firmware_notify_ack
    }

    /// Protocol phase: bootstrapping until the editor is ready.
    pub fn session_phase(&self) -> (r: SessionPhase)
        ensures
            r == (if self.session.connecting || !self.session.editor_ready {
                SessionPhase::Bootstrapping
            } else {
                SessionPhase::EditorReady
            }),
    {
        if self.session.connecting || !self.session.editor_ready {
            SessionPhase::Bootstrapping
        } else {
            SessionPhase::EditorReady
        }
    }

    /// A preset name or body read is in progress.
    pub fn preset_usb_read_in_progress(&self) -> (r: bool)
        ensures
            r == self.session.suppress_1d_firmware_notify_ack,
    {
        self.session.suppress_1d_firmware_notify_ack
    }

    pub fn set_preset_usb_read_modes_active(&mut self, active: bool)
        ensures
            *final(self) == (HelixState {
                session: SessionFlags {
                    suppress_1d_firmware_notify_ack: active,
                    ..old(self).session
                },
                ..*old(self)
            }),
    {
        self.session.suppress_1d_firmware_notify_ack = active;
    }

    /// Opens the init settle window (`POST_PHASE4_SETTLE_MS` from now, saturating).
    pub fn begin_init_usb_settle(&mut self)
        ensures
            *final(self) == (HelixState {
                session: SessionFlags {
                    init_usb_settle_until: Some(
                        if old(self).now_ms <= u64::MAX - POST_PHASE4_SETTLE_MS {
                            (old(self).now_ms + POST_PHASE4_SETTLE_MS) as u64
                        } else {
                            u64::MAX
                        },
                    ),
                    ..old(self).session
                },
                ..*old(self)
            }),
    {
        self.session.init_usb_settle_until = Some(self.now_ms.saturating_add(POST_PHASE4_SETTLE_MS));
    }

    pub fn end_init_usb_settle(&mut self)
        ensures
            *final(self) == (HelixState {
                session: SessionFlags { init_usb_settle_until: None, ..old(self).session },
                ..*old(self)
            }),
    {
        self.session.init_usb_settle_until = None;
    }

    pub fn init_usb_settle_active(&self) -> (r: bool)
        ensures
            r == self.settle_active_spec(),
    {
        match self.session.init_usb_settle_until {
            Some(deadline) => self.now_ms < deadline,
            None => false,
        }
    }

    fn init_usb_settle_blocks_mode_request(req: &ModeRequest) -> (r: bool)
        ensures
            r == settle_blocks_spec(*req),
    {
        match req {
            ModeRequest::RequestPreset(_) => true,
            ModeRequest::RequestPresetName => true,
            ModeRequest::RequestPresetNames => true,
            ModeRequest::ReconfigureX1 => true,
            ModeRequest::Connect => true,
            _ => false,
        }
    }

    fn editor_ready_blocks_mode_request(req: &ModeRequest) -> (r: bool)
        ensures
            r == editor_ready_blocks_spec(*req),
    {
        match req {
            ModeRequest::RequestPresetName => true,
            ModeRequest::RequestPresetNames => true,
            _ => false,
        }
    }

    /// Resets the hardware model pull state (USB disconnect).
    pub fn reset_hw_model_pull_state(&mut self)
        ensures
            final(self).pull.hw_model_pull_ed03_double == 0xffff,
            final(self).pull.hw_model_pull_ctr == 0,
            final(self).pull.hw_model_pull_step == 0,
            final(self).pull.hw_model_pull_slot_bus.is_none(),
            final(self).pull.hw_model_pull_capture@.len() == 0,
            final(self).pull.hw_model_pull_capture_deadline.is_none(),
            final(self).pull.hw_model_pull_cd_lane.is_none(),
            final(self).pull.hw_model_pull_echo_double.is_none(),
            !final(self).pull.hw_model_pull_retried_1b,
            !final(self).pull.hw_model_pull_saw_final_bulk,
            final(self).pull.hw_model_pull_pending_slot_bus.is_none(),
            final(self).pull.hw_model_pull_last_at.is_none(),
            final(self).pull.hw_model_pull_quiet_until.is_none(),
            !final(self).pull.hw_model_post_pull_settling,
            final(self).pull.hw_model_post_pull_deadline.is_none(),
            final(self).pull.hw_model_last_scroll_in_at.is_none(),
            final(self).pull.hw_model_scroll_deferred_1d.is_none(),
            *final(self) == (HelixState { pull: final(self).pull, ..*old(self) }),
    {
        self.pull = ModelPull {
            hw_model_pull_ed03_double: 0xffff,
            hw_model_pull_ctr: 0x0000,
            hw_model_pull_step: 0,
            hw_model_pull_slot_bus: None,
            hw_model_pull_capture: Vec::new(),
            hw_model_pull_capture_deadline: None,
            hw_model_pull_cd_lane: None,
            hw_model_pull_echo_double: None,
            hw_model_pull_retried_1b: false,
            hw_model_pull_saw_final_bulk: false,
            hw_model_pull_pending_slot_bus: None,
            hw_model_pull_last_at: None,
            hw_model_pull_quiet_until: None,
            hw_model_post_pull_settling: false,
            hw_model_post_pull_deadline: None,
            hw_model_last_scroll_in_at: None,
            hw_model_scroll_deferred_1d: None,
        };
    }

    /// Adds `0x11` to the first byte of the session quadruple, carrying into the next bytes.
    pub fn increase_session_quadruple_x11(&mut self)
        ensures
            final(self).counters.session_quadruple@ == quadruple_plus_x11(
                old(self).counters.session_quadruple@,
            ),
            le32(final(self).counters.session_quadruple@) == (le32(
                old(self).counters.session_quadruple@,
            ) + 0x11) % 0x1_0000_0000,
            *final(self) == (HelixState {
                counters: Counters {
                    session_quadruple: final(self).counters.session_quadruple,
                    ..old(self).counters
                },
                ..*old(self)
            }),
    {
        let q0 = self.counters.session_quadruple[0];
        let q1 = self.counters.session_quadruple[1];
        let q2 = self.counters.session_quadruple[2];
        let q3 = self.counters.session_quadruple[3];
        let b0 = q0.wrapping_add(0x11);
        let mut b1 = q1;
        let mut b2 = q2;
        let mut b3 = q3;
        if b0 < 0x11 {
            b1 = q1.wrapping_add(0x01);
            if b1 == 0x00 {
                b2 = q2.wrapping_add(0x01);
                if b2 == 0x00 {
                    b3 = q3.wrapping_add(0x01);
                }
            }
        }
        self.counters.session_quadruple = [b0, b1, b2, b3];
        assert(self.counters.session_quadruple@ == seq![b0, b1, b2, b3]);
    }

    /// Internal value such that the next step yields `PRESET_ED03_TRANSACTION_FIRST`.
    pub fn preset_ed03_transaction_counter_before_first() -> (r: u16)
        ensures
            r == 0x64e7,
            next_editor_double_spec(r, true, true) == PRESET_ED03_TRANSACTION_FIRST,
            next_editor_double_spec(r, false, false) == PRESET_ED03_TRANSACTION_FIRST,
    {
        PRESET_ED03_TRANSACTION_FIRST - 1
    }

    /// Rewinds the editor lane so that the next OUT carries `e8:64`.
    pub fn reset_preset_ed03_transaction_counter(&mut self)
        ensures
            *final(self) == (HelixState {
                lanes: EditorLanes { editor_ed03_double: 0x64e7, ..old(self).lanes },
                ..*old(self)
            }),
    {
        self.lanes.editor_ed03_double = Self::preset_ed03_transaction_counter_before_first();
    }

    /// Historic alias of the editor double bytes.
    pub fn preset_data_packet_double(&self) -> (r: [u8; 2])
        ensures
            r@ == seq![lo8(self.lanes.editor_ed03_double), hi8(self.lanes.editor_ed03_double)],
    {
        self.editor_ed03_double_val()
    }

    /// Bytes of the editor double (low, high).
    pub fn editor_ed03_double_val(&self) -> (r: [u8; 2])
        ensures
            r@ == seq![lo8(self.lanes.editor_ed03_double), hi8(self.lanes.editor_ed03_double)],
    {
        let r = [lo_byte(self.lanes.editor_ed03_double), hi_byte(self.lanes.editor_ed03_double)];
        assert(r@ == seq![lo8(self.lanes.editor_ed03_double), hi8(self.lanes.editor_ed03_double)]);
        r
    }

    /// Advances the editor double by one step and returns its new bytes.
    ///
    /// With `editor_double_pin_hi` the high byte stays `0x64` (`0x64ff → 0x6401`, skipping
    /// `0x00` with `editor_double_skip_00`); without it the full 16 bits wrap.
    pub fn next_editor_ed03_double(&mut self) -> (r: [u8; 2])
        ensures
            final(self).lanes.editor_ed03_double == next_editor_double_spec(
                old(self).lanes.editor_ed03_double,
                old(self).lanes.editor_double_pin_hi,
                old(self).lanes.editor_double_skip_00,
            ),
            *final(self) == (HelixState {
                lanes: EditorLanes {
                    editor_ed03_double: final(self).lanes.editor_ed03_double,
                    ..old(self).lanes
                },
                ..*old(self)
            }),
            r@ == seq![
                lo8(final(self).lanes.editor_ed03_double),
                hi8(final(self).lanes.editor_ed03_double),
            ],
    {
        if self.lanes.editor_double_pin_hi {
            let mut lo: u16 = (self.lanes.editor_ed03_double % 256 + 1) % 256;
            if self.lanes.editor_double_skip_00 && lo == 0x00 {
                lo = 0x01;
            }
            self.lanes.editor_ed03_double = 0x6400 + lo;
        } else {
            self.lanes.editor_ed03_double = self.lanes.editor_ed03_double.wrapping_add(1);
        }
        self.editor_ed03_double_val()
    }

    /// Bytes 12-13 of the ED03 lane (low, high).
    pub fn editor_ed03_lane_bytes(&self) -> (r: [u8; 2])
        ensures
            r@ == seq![lo8(self.lanes.editor_ed03_lane), hi8(self.lanes.editor_ed03_lane)],
    {
        let r = [lo_byte(self.lanes.editor_ed03_lane), hi_byte(self.lanes.editor_ed03_lane)];
        assert(r@ == seq![lo8(self.lanes.editor_ed03_lane), hi8(self.lanes.editor_ed03_lane)]);
        r
    }

    /// Advances the low byte (byte 12) by `delta`, the high byte unchanged; returns the
    /// bytes before the step.
    pub fn advance_editor_ed03_lane_lo(&mut self, delta: u16) -> (r: [u8; 2])
        ensures
            r@ == seq![lo8(old(self).lanes.editor_ed03_lane), hi8(old(self).lanes.editor_ed03_lane)],
            lo8(final(self).lanes.editor_ed03_lane) == (lo8(old(self).lanes.editor_ed03_lane)
                + delta) % 256,
            hi8(final(self).lanes.editor_ed03_lane) == hi8(old(self).lanes.editor_ed03_lane),
            *final(self) == (HelixState {
                lanes: EditorLanes {
                    editor_ed03_lane: final(self).lanes.editor_ed03_lane,
                    ..old(self).lanes
                },
                ..*old(self)
            }),
    {
        let out = self.editor_ed03_lane_bytes();
        let lo = lo_byte(self.lanes.editor_ed03_lane);
        let hi = hi_byte(self.lanes.editor_ed03_lane);
        let new_lo: u8 = ((lo as u32 + delta as u32) % 256) as u8;
        self.lanes.editor_ed03_lane = from_le(new_lo, hi);
        out
    }

    /// Advances the chunk counter by one and returns `[byte 12, byte 13, byte 14]` before
    /// the step. Byte 12 (the transaction position) never changes; byte 13 wraps `ff → 00`
    /// and then carries into byte 14 when `lane_b14_carry` is set.
    pub fn advance_editor_ed03_lane_hi3(&mut self) -> (r: [u8; 3])
        ensures
            r@ == seq![
                lo8(old(self).lanes.editor_ed03_lane),
                hi8(old(self).lanes.editor_ed03_lane),
                old(self).lanes.editor_ed03_lane_b14,
            ],
            lo8(final(self).lanes.editor_ed03_lane) == lo8(old(self).lanes.editor_ed03_lane),
            hi8(final(self).lanes.editor_ed03_lane) == wadd8(hi8(old(self).lanes.editor_ed03_lane), 1),
            final(self).lanes.editor_ed03_lane_b14 == (if old(self).lanes.lane_b14_carry && hi8(
                old(self).lanes.editor_ed03_lane,
            ) == 0xff {
                wadd8(old(self).lanes.editor_ed03_lane_b14, 1)
            } else {
                old(self).lanes.editor_ed03_lane_b14
            }),
            *final(self) == (HelixState {
                lanes: EditorLanes {
                    editor_ed03_lane: final(self).lanes.editor_ed03_lane,
                    editor_ed03_lane_b14: final(self).lanes.editor_ed03_lane_b14,
                    ..old(self).lanes
                },
                ..*old(self)
            }),
    {
        let b12 = lo_byte(self.lanes.editor_ed03_lane);
        let b13 = hi_byte(self.lanes.editor_ed03_lane);
        let b14 = self.lanes.editor_ed03_lane_b14;
        let out = [b12, b13, b14];
        let b13_next = b13.wrapping_add(1);
        self.lanes.editor_ed03_lane = from_le(b12, b13_next);
        if self.lanes.lane_b14_carry && b13 == 0xff {
            self.lanes.editor_ed03_lane_b14 = self.lanes.editor_ed03_lane_b14.wrapping_add(1);
        }
        assert(out@ == seq![b12, b13, b14]);
        out
    }

    /// `[byte 12, byte 13]` shim of `advance_editor_ed03_lane_hi3`.
    pub fn advance_editor_ed03_lane_hi(&mut self) -> (r: [u8; 2])
        ensures
            r@ == seq![lo8(old(self).lanes.editor_ed03_lane), hi8(old(self).lanes.editor_ed03_lane)],
            lo8(final(self).lanes.editor_ed03_lane) == lo8(old(self).lanes.editor_ed03_lane),
            hi8(final(self).lanes.editor_ed03_lane) == wadd8(hi8(old(self).lanes.editor_ed03_lane), 1),
            final(self).lanes.editor_ed03_lane_b14 == (if old(self).lanes.lane_b14_carry && hi8(
                old(self).lanes.editor_ed03_lane,
            ) == 0xff {
                wadd8(old(self).lanes.editor_ed03_lane_b14, 1)
            } else {
                old(self).lanes.editor_ed03_lane_b14
            }),
            *final(self) == (HelixState {
                lanes: EditorLanes {
                    editor_ed03_lane: final(self).lanes.editor_ed03_lane,
                    editor_ed03_lane_b14: final(self).lanes.editor_ed03_lane_b14,
                    ..old(self).lanes
                },
                ..*old(self)
            }),
    {
        let three = self.advance_editor_ed03_lane_hi3();
        let r = [three[0], three[1]];
        assert(r@ == seq![three@[0], three@[1]]);
        r
    }

    /// Puts the lane counter back on its anchor (start of phase 4).
    pub fn reset_editor_ed03_lane(&mut self)
        ensures
            *final(self) == (HelixState {
                lanes: EditorLanes {
                    editor_ed03_lane: EDITOR_ED03_LANE_FIRST,
                    editor_ed03_lane_b14: 0,
                    ..old(self).lanes
                },
                ..*old(self)
            }),
    {
        self.lanes.editor_ed03_lane = EDITOR_ED03_LANE_FIRST;
        self.lanes.editor_ed03_lane_b14 = 0x00;
    }

    /// Witness lane `f4:xx` bytes (low, high).
    pub fn preset_dump_ack_double(&self) -> (r: [u8; 2])
        ensures
            r@ == seq![lo8(self.lanes.preset_dump_ack_ctr), hi8(self.lanes.preset_dump_ack_ctr)],
    {
        let r = [lo_byte(self.lanes.preset_dump_ack_ctr), hi_byte(self.lanes.preset_dump_ack_ctr)];
        assert(r@ == seq![lo8(self.lanes.preset_dump_ack_ctr), hi8(self.lanes.preset_dump_ack_ctr)]);
        r
    }

    /// Emits the `f4` lane, then moves its high byte on by one and sets its low byte to
    /// the preset session id.
    fn next_preset_dump_ack_f4_lane(&mut self) -> (r: [u8; 2])
        ensures
            r@ == seq![lo8(old(self).lanes.preset_dump_ack_ctr), hi8(old(self).lanes.preset_dump_ack_ctr)],
            lo8(final(self).lanes.preset_dump_ack_ctr) == old(self).counters.request_preset_session_id,
            hi8(final(self).lanes.preset_dump_ack_ctr) == wadd8(hi8(old(self).lanes.preset_dump_ack_ctr), 1),
            *final(self) == (HelixState {
                lanes: EditorLanes {
                    preset_dump_ack_ctr: final(self).lanes.preset_dump_ack_ctr,
                    ..old(self).lanes
                },
                ..*old(self)
            }),
    {
        let out = self.preset_dump_ack_double();
        let hi = hi_byte(self.lanes.preset_dump_ack_ctr).wrapping_add(1);
        self.lanes.preset_dump_ack_ctr = from_le(self.counters.request_preset_session_id, hi);
        out
    }

    /// ACK lane `f4:xx` for `f0:03` replies (preset switch).
    pub fn next_preset_dump_ack_double(&mut self) -> (r: [u8; 2])
        ensures
            r@ == seq![lo8(old(self).lanes.preset_dump_ack_ctr), hi8(old(self).lanes.preset_dump_ack_ctr)],
            lo8(final(self).lanes.preset_dump_ack_ctr) == old(self).counters.request_preset_session_id,
            hi8(final(self).lanes.preset_dump_ack_ctr) == wadd8(hi8(old(self).lanes.preset_dump_ack_ctr), 1),
            *final(self) == (HelixState {
                lanes: EditorLanes {
                    preset_dump_ack_ctr: final(self).lanes.preset_dump_ack_ctr,
                    ..old(self).lanes
                },
                ..*old(self)
            }),
    {
        self.next_preset_dump_ack_f4_lane()
    }

    /// `true` (default): stream chunks are ACKed on the editor lane.
    pub fn preset_dump_ack_use_editor_lane(&self) -> (r: bool)
        ensures
            r == self.lanes.dump_ack_use_editor_lane,
    {
        self.lanes.dump_ack_use_editor_lane
    }

    /// Bytes 12-13-14 of the OUT `ed:03` sub=`08` ACK of one 272-byte preset chunk.
    pub fn next_preset_stream_chunk_ack_lane(&mut self) -> (r: [u8; 3])
        ensures
            old(self).lanes.dump_ack_use_editor_lane ==> r@ == seq![
                lo8(old(self).lanes.editor_ed03_lane),
                hi8(old(self).lanes.editor_ed03_lane),
                old(self).lanes.editor_ed03_lane_b14,
            ],
            !old(self).lanes.dump_ack_use_editor_lane ==> r@ == seq![
                lo8(old(self).lanes.preset_dump_ack_ctr),
                hi8(old(self).lanes.preset_dump_ack_ctr),
                0u8,
            ],
            old(self).lanes.dump_ack_use_editor_lane ==> final(self).lanes.preset_dump_ack_ctr
                == old(self).lanes.preset_dump_ack_ctr,
            !old(self).lanes.dump_ack_use_editor_lane ==> (lo8(
                final(self).lanes.preset_dump_ack_ctr,
            ) == old(self).counters.request_preset_session_id && hi8(
                final(self).lanes.preset_dump_ack_ctr,
            ) == wadd8(hi8(old(self).lanes.preset_dump_ack_ctr), 1)),
            (old(self).lanes.dump_ack_use_editor_lane || old(self).gates.phase4_bootstrap_active)
                ==> (lo8(final(self).lanes.editor_ed03_lane) == lo8(old(self).lanes.editor_ed03_lane)
                && hi8(final(self).lanes.editor_ed03_lane) == wadd8(
                hi8(old(self).lanes.editor_ed03_lane),
                1,
            )),
            !(old(self).lanes.dump_ack_use_editor_lane || old(self).gates.phase4_bootstrap_active)
                ==> final(self).lanes.editor_ed03_lane == old(self).lanes.editor_ed03_lane,
            *final(self) == (HelixState { lanes: final(self).lanes, ..*old(self) }),
            final(self).lanes.editor_ed03_double == old(self).lanes.editor_ed03_double,
    {
        if self.lanes.dump_ack_use_editor_lane {
            return self.advance_editor_ed03_lane_hi3();
        }
        if self.gates.phase4_bootstrap_active {
            let _ = self.advance_editor_ed03_lane_hi3();
        }
        let f4 = self.next_preset_dump_ack_f4_lane();
        let r = [f4[0], f4[1], 0x00];
        assert(r@ == seq![f4@[0], f4@[1], 0u8]);
        r
    }

    /// `true` while the cab-dual Cab 2 replace handshake window is open.
    pub fn cab_dual_cab2_handshake_active(&self) -> (r: bool)
        ensures
            r == (self.cab.cab_dual_cab2_handshake_until matches Some(d) && self.now_ms < d),
    {
        match self.cab.cab_dual_cab2_handshake_until {
            Some(d) => self.now_ms < d,
            None => false,
        }
    }

    /// The standard mode must not auto-ACK an IN `19`/36 after a Cab 2 focus.
    pub fn cab_dual_cab2_block_standard_auto_ack(&self) -> (r: bool)
        ensures
            r == ((self.cab.cab_dual_cab2_handshake_until matches Some(d) && self.now_ms < d)
                || (self.cab.cab_dual_cab2_suppress_standard_ed08_until matches Some(d)
                && self.now_ms < d)),
    {
        if self.cab_dual_cab2_handshake_active() {
            return true;
        }
        match self.cab.cab_dual_cab2_suppress_standard_ed08_until {
            Some(d) => self.now_ms < d,
            None => false,
        }
    }

    /// Queues a packet for the USB writer.
    pub fn send(&mut self, packet: OutPacket)
        ensures
            final(self).outbox@ == old(self).outbox@.push(packet),
            *final(self) == (HelixState { outbox: final(self).outbox, ..*old(self) }),
    {
        self.outbox.push(packet);
    }

    /// Asks for a mode change; requests that the current phase holds back are dropped.
    pub fn switch_mode(&mut self, req: ModeRequest)
        ensures
            ((!old(self).session.editor_ready && editor_ready_blocks_spec(req)) || (old(self).settle_active_spec() && settle_blocks_spec(req))) ==> final(self).mode_requests@
                == old(self).mode_requests@,
            !((!old(self).session.editor_ready && editor_ready_blocks_spec(req)) || (old(self).settle_active_spec() && settle_blocks_spec(req))) ==> final(self).mode_requests@
                == old(self).mode_requests@.push(req),
            *final(self) == (HelixState { mode_requests: final(self).mode_requests, ..*old(self) }),
    {
        if !self.session.editor_ready && Self::editor_ready_blocks_mode_request(&req) {
            return;
        }
        if self.init_usb_settle_active() && Self::init_usb_settle_blocks_mode_request(&req) {
            return;
        }
        self.mode_requests.push(req);
    }

    /// Starts a keep-alive command; `StartOrdered` waits for the editor to be ready.
    pub fn start_keepalive(&mut self, cmd: KeepAliveCommand)
        ensures
            (!old(self).session.editor_ready && cmd == KeepAliveCommand::StartOrdered) ==> final(self).keepalive_commands@ == old(self).keepalive_commands@,
            !(!old(self).session.editor_ready && cmd == KeepAliveCommand::StartOrdered) ==> final(self).keepalive_commands@ == old(self).keepalive_commands@.push(cmd),
            *final(self) == (HelixState {
                keepalive_commands: final(self).keepalive_commands,
                ..*old(self)
            }),
    {
        let start = match cmd {
            KeepAliveCommand::StartOrdered => true,
            KeepAliveCommand::StopAll => false,
        };
        if !self.session.editor_ready && start {
            return;
        }
        self.keepalive_commands.push(cmd);
    }

    /// Arms the end-of-phase-4 gate (IN trailer `7a` 132 bytes).
    pub fn arm_phase4_complete_gate(&mut self)
        ensures
            *final(self) == (HelixState {
                gates: BootGates {
                    phase4_bootstrap_active: false,
                    phase4_complete_gate_armed: true,
                    phase4_complete_signalled: false,
                    ..old(self).gates
                },
                ..*old(self)
            }),
    {
        self.gates.phase4_bootstrap_active = false;
        self.gates.phase4_complete_gate_armed = true;
        self.gates.phase4_complete_signalled = false;
    }

    /// Called on the `7a` 132-byte trailer: closes phase 4 and signals an armed gate once.
    pub fn note_phase4_bootstrap_complete(&mut self)
        ensures
            !old(self).gates.phase4_bootstrap_active ==> *final(self) == *old(self),
            old(self).gates.phase4_bootstrap_active ==> *final(self) == (HelixState {
                gates: BootGates {
                    phase4_bootstrap_active: false,
                    phase4_complete_gate_armed: false,
                    phase4_complete_signalled: old(self).gates.phase4_complete_signalled || old(self).gates.phase4_complete_gate_armed,
                    ..old(self).gates
                },
                ..*old(self)
            }),
    {
        if !self.gates.phase4_bootstrap_active {
            return;
        }
        self.gates.phase4_bootstrap_active = false;
        if self.gates.phase4_complete_gate_armed {
            self.gates.phase4_complete_gate_armed = false;
            self.gates.phase4_complete_signalled = true;
        }
    }

    /// Arms the post-ARM_ef gate (after `send_arm_ef`).
    pub fn arm_post_ef_gate(&mut self)
        ensures
            *final(self) == (HelixState {
                gates: BootGates {
                    post_ef_arm_ack_mask: 0,
                    post_ef_arm_gate_active: true,
                    post_ef_gate_signalled: false,
                    ..old(self).gates
                },
                ..*old(self)
            }),
    {
        self.gates.post_ef_arm_ack_mask = 0;
        self.gates.post_ef_arm_gate_active = true;
        self.gates.post_ef_gate_signalled = false;
    }

    /// Notes one post-ARM_ef ACK from an IN 16-byte sub=`08` frame (ef, ed or f0); when all
    /// three lanes have answered, the post-ARM_ef wait is over and signalled.
    pub fn tick_post_ef_arm_gate(&mut self, data: &[u8]) -> (r: bool)
        ensures
            !old(self).gates.post_ef_arm_gate_active || tick_bit(data@) == 0 ==> !r && *final(self)
                == *old(self),
            old(self).gates.post_ef_arm_gate_active && tick_bit(data@) != 0 ==> {
                let mask = old(self).gates.post_ef_arm_ack_mask | tick_bit(data@);
                &&& r == (mask == 7)
                &&& *final(self) == (HelixState {
                    gates: BootGates {
                        post_ef_arm_ack_mask: mask,
                        post_ef_arm_gate_active: mask != 7,
                        post_ef_gate_signalled: old(self).gates.post_ef_gate_signalled || mask
                            == 7,
                        ..old(self).gates
                    },
                    ..*old(self)
                })
            },
    {
        if !self.gates.post_ef_arm_gate_active {
            return false;
        }
        let bit = tick_bit_of(data);
        if bit == 0 {
            return false;
        }
        self.gates.post_ef_arm_ack_mask = self.gates.post_ef_arm_ack_mask | bit;
        if self.gates.post_ef_arm_ack_mask == 7 {
            self.gates.post_ef_arm_gate_active = false;
            self.gates.post_ef_gate_signalled = true;
            return true;
        }
        false
    }

    /// Post-increment of the x1 counter (returns the old value, wraps at 256).
    pub fn next_x1_cnt(&mut self) -> (r: u8)
        ensures
            r == old(self).counters.x1_cnt,
            *final(self) == (HelixState {
                counters: Counters { x1_cnt: wadd8(old(self).counters.x1_cnt, 1), ..old(self).counters },
                ..*old(self)
            }),
    {
        let current = self.counters.x1_cnt;
        self.counters.x1_cnt = self.counters.x1_cnt.wrapping_add(1);
        current
    }

    /// Post-increment of the x2 counter (returns the old value, wraps at 256).
    pub fn next_x2_cnt(&mut self) -> (r: u8)
        ensures
            r == old(self).counters.x2_cnt,
            *final(self) == (HelixState {
                counters: Counters { x2_cnt: wadd8(old(self).counters.x2_cnt, 1), ..old(self).counters },
                ..*old(self)
            }),
    {
        let current = self.counters.x2_cnt;
        self.counters.x2_cnt = self.counters.x2_cnt.wrapping_add(1);
        current
    }

    /// New random session number, at least `0x04`.
    pub fn new_session_no(&mut self)
        ensures
            final(self).counters.session_no >= 0x04,
            exists|r: u8| final(self).counters.session_no == session_no_from_spec(r),
            *final(self) == (HelixState {
                counters: Counters { session_no: final(self).counters.session_no, ..old(self).counters },
                ..*old(self)
            }),
    {
        let r = random_u8();
        self.counters.session_no = session_no_from(r);
    }

    /// Post-increment of the x80 counter (returns the old value, wraps at 256).
    pub fn next_x80_cnt(&mut self) -> (r: u8)
        ensures
            r == old(self).counters.x80_cnt,
            *final(self) == (HelixState {
                counters: Counters {
                    x80_cnt: wadd8(old(self).counters.x80_cnt, 1),
                    ..old(self).counters
                },
                ..*old(self)
            }),
    {
        let current = self.counters.x80_cnt;
        self.counters.x80_cnt = self.counters.x80_cnt.wrapping_add(1);
        current
    }
}

} // verus!
