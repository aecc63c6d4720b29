//! x1 reconfiguration after the connection: subscribe `0c` on `ef:03`, `11` ACK of the
//! answer, and on the device `11` the ARM sequence that ends the USB bootstrap. Without an
//! answer within 2.5 s, the bootstrap is forced.
use vstd::prelude::*;
use crate::amorcage::{finish_usb_bootstrap, send_arm_f0};
use crate::bytes::wadd8;
use crate::modes::connect::{queued, subscribe_packet};
use crate::modes::standard::{head_lane, keep_alive_spec, Standard};
use crate::packet::OutPacket;
use crate::state::{Counters, HelixState, Mode};

verus! {

/// Fallback when the device does not answer the subscribe, in milliseconds.
pub const RECONFIGURE_BOOTSTRAP_TIMEOUT_MS: u64 = 2500;

/// x1 reconfiguration: when the phase started, and whether the bootstrap ended.
pub struct ReconfigureX1 {
    pub phase_since_ms: u64,
    pub done: bool,
}

/// `0c` answer on x1 (counter byte free).
pub open spec fn x1_subscribe_answer(d: Seq<u8>) -> bool {
    d.len() >= 20 && d[0] == 0x0c && d[1] == 0x00 && d[2] == 0x00 && d[3] == 0x28 && d[4] == 0xef && d[5] == 0x03
        && d[6] == 0x01 && d[7] == 0x10 && d[8] == 0x00 && d[10] == 0x00 && d[11] == 0x02
        && d[12] == 0x00 && d[13] == 0x01 && d[14] == 0x00 && d[15] == 0x01 && d[16] == 0x00 && d[17] == 0x02
        && d[18] == 0x00 && d[19] == 0x00
}

/// Device `11` on x1.
pub open spec fn x1_eleven(d: Seq<u8>) -> bool {
    d.len() >= 12 && d[0] == 0x11 && head_lane(d, 0xef, 0x03, 0x01, 0x10) && d[8] == 0x00 && d[10] == 0x00 && d[11] == 0x04
}

/// `11` ACK of the x1 answer.
pub open spec fn x1_eleven_ack(cnt: u8) -> Seq<u8> {
    seq![
        0x11u8, 0x00, 0x00, 0x18, 0x01, 0x10, 0xef, 0x03, 0x00, cnt, 0x00, 0x04, 0x00, 0x10, 0x00, 0x00,
        0x01, 0x00, 0x02, 0x00, 0x01, 0x00, 0x00, 0x00, 0x02, 0x00, 0x00, 0x00,
    ]
}

impl ReconfigureX1 {
    pub fn new(now_ms: u64) -> (r: Self)
        ensures
            r.phase_since_ms == now_ms && !r.done,
    {
        ReconfigureX1 { phase_since_ms: now_ms, done: false }
    }

    /// Starts the phase: x1 counter back to 2, subscribe queued.
    pub fn begin(&mut self, state: &mut HelixState)
        ensures
            final(self).phase_since_ms == old(state).now_ms && !final(self).done,
            queued(old(state).outbox@, final(state).outbox@, seq![subscribe_packet(0x01, 0x10, 0xef, 0x03)]),
            *final(state) == (HelixState {
                counters: Counters { x1_cnt: 2, ..old(state).counters },
                outbox: final(state).outbox,
                ..*old(state)
            }),
    {
        self.phase_since_ms = state.now_ms;
        self.done = false;
        state.counters.x1_cnt = 0x02;
        let pkt = vec![0x0c, 0x00, 0x00, 0x28, 0x01, 0x10, 0xef, 0x03, 0x00, 0x00, 0x00, 0x02, 0x00, 0x01, 0x00, 0x21, 0x00, 0x10, 0x00, 0x00];
        assert(pkt@ == subscribe_packet(0x01, 0x10, 0xef, 0x03));
        let ghost o0 = state.outbox@;
        state.send(OutPacket::new(pkt));
        assert(state.outbox@.subrange(0, o0.len() as int) == o0);
    }

    /// Ends the bootstrap once: `ARM_f0`, then `ARM_ef` and the settle request.
    pub fn finish_bootstrap(&mut self, state: &mut HelixState)
        ensures
            final(self).done,
            final(self).phase_since_ms == old(self).phase_since_ms,
            old(self).done ==> *final(state) == *old(state),
            !old(self).done ==> final(state).outbox@.len() == old(state).outbox@.len() + 2,
    {
        if self.done {
            return;
        }
        self.done = true;
        send_arm_f0(state);
        finish_usb_bootstrap(state, false);
    }

    /// Handles one IN frame of the phase; returns whether the frame was not a keep-alive.
    pub fn handle_in(&mut self, data: &[u8], state: &mut HelixState) -> (r: bool)
        ensures
            ({
                let s = *old(state);
                let timed_out = !old(self).done && s.now_ms >= old(self).phase_since_ms
                    && s.now_ms - old(self).phase_since_ms > 2500;
                if timed_out {
                    r && final(self).done && final(state).outbox@.len() == s.outbox@.len() + 2
                } else if x1_subscribe_answer(data@) {
                    &&& r && *final(self) == *old(self)
                    &&& queued(s.outbox@, final(state).outbox@, seq![x1_eleven_ack(s.counters.x1_cnt)])
                    &&& *final(state) == (HelixState {
                        counters: Counters { x1_cnt: wadd8(s.counters.x1_cnt, 1), ..s.counters },
                        outbox: final(state).outbox,
                        ..s
                    })
                } else if x1_eleven(data@) {
                    &&& r && final(self).done
                    &&& old(self).done ==> *final(state) == s
                    &&& !old(self).done ==> final(state).outbox@.len() == s.outbox@.len() + 2
                } else {
                    r == !keep_alive_spec(s.session.connecting, data@) && *final(state) == s && *final(self) == *old(self)
                }
            }),
    {
        if !self.done && state.now_ms >= self.phase_since_ms && state.now_ms - self.phase_since_ms > RECONFIGURE_BOOTSTRAP_TIMEOUT_MS {
            send_arm_f0(state);
            finish_usb_bootstrap(state, false);
            self.done = true;
            return true;
        }
        if data.len() >= 20 && data[0] == 0x0c && data[1] == 0x00 && data[2] == 0x00 && data[3] == 0x28 && data[4] == 0xef
            && data[5] == 0x03 && data[6] == 0x01 && data[7] == 0x10 && data[8] == 0x00 && data[10] == 0x00 && data[11] == 0x02
            && data[12] == 0x00 && data[13] == 0x01 && data[14] == 0x00 && data[15] == 0x01 && data[16] == 0x00
            && data[17] == 0x02 && data[18] == 0x00 && data[19] == 0x00 {
            let cnt = state.next_x1_cnt();
            let p = vec![
                0x11, 0x00, 0x00, 0x18, 0x01, 0x10, 0xef, 0x03, 0x00, cnt, 0x00, 0x04, 0x00, 0x10, 0x00, 0x00,
                0x01, 0x00, 0x02, 0x00, 0x01, 0x00, 0x00, 0x00, 0x02, 0x00, 0x00, 0x00,
            ];
            assert(p@ == x1_eleven_ack(cnt));
            let ghost o0 = state.outbox@;
            state.send(OutPacket::new(p));
            assert(state.outbox@.subrange(0, o0.len() as int) == o0);
            return true;
        }
        if data.len() >= 12 && data[0] == 0x11 && data[1] == 0x00 && data[2] == 0x00 && data[3] == 0x18 && data[4] == 0xef
            && data[5] == 0x03 && data[6] == 0x01 && data[7] == 0x10 && data[8] == 0x00 && data[10] == 0x00 && data[11] == 0x04 {
            self.finish_bootstrap(state);
            return true;
        }
        if Standard::check_keep_alive(data, state) {
            return false;
        }
        true
    }
}

impl Mode for ReconfigureX1 {
    fn start(&mut self, state: &mut HelixState) {
        self.begin(state)
    }

    fn data_in(&mut self, data: &[u8], state: &mut HelixState) -> bool {
        self.handle_in(data, state)
    }

    fn shutdown(&mut self, state: &mut HelixState) {
    }
}

} // verus!
