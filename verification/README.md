# hxlinux

A USB editor library for the Line 6 HX Stomp XL, written in Verus.

- `src/` is the verified library: the OUT packet builders, the IN frame classifiers, the
  session counters and lanes held in `HelixState`, and the small state machines (connection,
  phase-4 bootstrap and settle, preset reads, keep-alive cycle, clear-all run) that the host
  drives one step at a time. Every public function states what it returns and how it changes
  the state; the laws that relate several calls stand as public proof functions (`law_*`).
- `app/` is the host program around it: USB access (rusb), the configuration and catalogue
  files (serde_json), environment switches, the clock and the waits between steps, and the
  parts that need floating point.
- `tests/` exercise the library on captured frames.

Packets to send are appended to `HelixState::outbox`; the host drains it to the OUT endpoint,
honouring each packet's delay, and hands every IN frame back to the library.
