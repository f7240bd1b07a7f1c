use drmem::device::{Flt, ReadWriteCompat};
use drmem::driver::overridable_device::{Action, Event, OverridableDevice, OverrideConfig, State};
use std::collections::VecDeque;

const MS: u128 = 1_000_000;
const SEC: u128 = 1_000_000_000;

/// What came of waiting for a setting.
#[derive(Debug, PartialEq)]
enum Outcome<T> {
    Pending,
    Setting(T, Option<u32>),
    Closed,
}

/// A device in a world of its own: a clock, clients and a backend.
struct Sim<T> {
    dev: OverridableDevice<T, u32>,
    now: u128,
    inbox: VecDeque<(T, u32)>,
    closed: bool,
    backend: VecDeque<T>,
    capacity: usize,
    acks: Vec<(u32, T)>,
}

impl<T: ReadWriteCompat + Clone> Sim<T> {
    fn new(init: Option<T>, tmo: Option<u128>, envelope: Option<u128>) -> Self {
        let now = 1_000 * SEC;
        Sim {
            dev: OverridableDevice::new(init, tmo, envelope, now),
            now,
            inbox: VecDeque::new(),
            closed: false,
            backend: VecDeque::new(),
            capacity: 20,
            acks: Vec::new(),
        }
    }

    /// Asks for the next setting, for `timeout` at most.
    fn next_setting(&mut self, timeout: u128) -> Outcome<T> {
        let end = self.now + timeout;
        let mut event = Event::Poll;

        loop {
            let step = self.dev.next_setting(event, self.now);

            if let Some(ack) = step.ack {
                self.acks.push(ack);
            }
            event = match step.action {
                Action::Report(value) => {
                    if self.backend.len() >= self.capacity {
                        return Outcome::Pending;
                    }
                    self.backend.push_back(value);
                    Event::Reported
                }
                Action::ReportAt(value, at) => {
                    if self.backend.len() >= self.capacity {
                        return Outcome::Pending;
                    }
                    self.backend.push_back(value);
                    Event::ReportedAt(at)
                }
                Action::Wait(limit) => {
                    if let Some((value, client)) = self.inbox.pop_front() {
                        Event::Setting(value, client)
                    } else if self.closed {
                        Event::Closed
                    } else {
                        match limit {
                            Some(d) if self.now + d <= end => {
                                self.now += d;
                                Event::Elapsed
                            }
                            _ => {
                                self.now = end;
                                return Outcome::Pending;
                            }
                        }
                    }
                }
                Action::Again => Event::Poll,
                Action::Ready((value, client)) => return Outcome::Setting(value, client),
                Action::Finished => return Outcome::Closed,
            }
        }
    }

    /// Reports a reading. Returns whether that could be done.
    fn report_update(&mut self, value: T) -> bool {
        if let Some(due) = self.dev.report_due(&value) {
            if self.backend.len() >= self.capacity {
                return false;
            }
            self.backend.push_back(due);
        }
        if let Some(ack) = self.dev.report_update(value, self.now) {
            self.acks.push(ack);
        }
        true
    }

    fn send(&mut self, value: T, client: u32) {
        self.inbox.push_back((value, client));
    }

    fn reported(&mut self) -> Option<T> {
        self.backend.pop_front()
    }
}

#[test]
fn test_override_deadline_is_absolute() {
    let mut dev = Sim::<bool>::new(Some(true), Some(60 * SEC), None);
    let deadline = dev.now + 25 * MS;

    dev.dev.state = State::Overridden {
        setting: true,
        overridden: false,
        deadline,
    };

    let start = dev.now;
    assert_eq!(dev.next_setting(200 * MS), Outcome::Setting(true, None));
    assert_eq!(dev.reported(), Some(true));
    assert!(dev.now - start >= 25 * MS);
}

#[test]
fn test_initialized_shared_device() {
    let mut sh_dev = Sim::<i32>::new(Some(1), None, None);

    // A initialized shared device should assert the initial value.
    assert_eq!(sh_dev.reported(), None);
    assert_eq!(sh_dev.next_setting(0), Outcome::Setting(1, None));
    assert_eq!(sh_dev.reported(), Some(1));

    // Set the reading as 1 to close out the setting transaction.
    sh_dev.report_update(1);
    assert_eq!(sh_dev.reported(), None);
    assert_eq!(sh_dev.next_setting(0), Outcome::Pending);
    assert_eq!(sh_dev.reported(), None);

    // Set the "polled" reading to 2, which puts us in override mode.
    sh_dev.report_update(2);
    assert_eq!(sh_dev.reported(), Some(2));
    assert_eq!(sh_dev.next_setting(0), Outcome::Pending);
    assert_eq!(sh_dev.reported(), None);

    // Send a setting of 1. Since we're in override mode, it is simply saved
    // until we leave override mode.
    sh_dev.send(1, 7);
    assert_eq!(sh_dev.next_setting(0), Outcome::Pending);
    assert_eq!(sh_dev.acks, vec![(7, 1)]);
    assert_eq!(sh_dev.reported(), None);

    // Now force a timeout to see if the new setting is reasserted.
    sh_dev.dev.override_duration = Some(0);
    assert!(matches!(&sh_dev.dev.state, State::Overridden { .. }));
    sh_dev.dev.state = State::Overridden {
        setting: 1,
        overridden: 2,
        deadline: sh_dev.now,
    };
    assert_eq!(sh_dev.next_setting(0), Outcome::Setting(1, None));
    assert_eq!(sh_dev.reported(), Some(1));
}

#[test]
fn test_uninitialized_shared_device() {
    let mut sh_dev = Sim::<i32>::new(None, None, None);

    assert_eq!(sh_dev.next_setting(0), Outcome::Pending);

    // Send a setting of 1. It is announced with a way to reply, and the client
    // has no reply yet.
    sh_dev.send(1, 1);
    assert_eq!(sh_dev.next_setting(0), Outcome::Setting(1, Some(1)));
    assert!(sh_dev.acks.is_empty());
    assert_eq!(sh_dev.reported(), Some(1));

    // Send another setting of 1. The client will get a reply, but the function
    // is pending. The backend sees the setting attempt.
    sh_dev.send(1, 2);
    assert_eq!(sh_dev.next_setting(0), Outcome::Pending);
    assert_eq!(sh_dev.acks, vec![(2, 1)]);
    assert_eq!(sh_dev.reported(), Some(1));

    // Send a setting of 2. The function will return the new setting.
    sh_dev.send(2, 3);
    assert_eq!(sh_dev.next_setting(0), Outcome::Setting(2, Some(3)));
    assert_eq!(sh_dev.acks, vec![(2, 1)]);
    assert_eq!(sh_dev.reported(), Some(2));

    // Register the current value as 3. Since this isn't the setting value, the
    // next setting should be reported as 2.
    sh_dev.report_update(3);
    assert_eq!(sh_dev.reported(), None);
    assert_eq!(sh_dev.next_setting(0), Outcome::Setting(2, None));
    assert_eq!(sh_dev.reported(), None);

    // Register the current value as 2. Since this matches the setting, this
    // closes out the setting transaction.
    sh_dev.report_update(2);
    assert_eq!(sh_dev.reported(), None);
    assert_eq!(sh_dev.next_setting(0), Outcome::Pending);
    assert_eq!(sh_dev.reported(), None);

    // Now register the polled reading as 3. Since this is different from the
    // setting, we should go into override mode.
    sh_dev.report_update(3);
    assert_eq!(sh_dev.reported(), Some(3));
    assert_eq!(sh_dev.next_setting(0), Outcome::Pending);
    assert_eq!(sh_dev.reported(), None);

    // Now it reads the hardware as 2, which matches the current setting. It
    // should be reported but no new setting should appear.
    sh_dev.report_update(2);
    assert_eq!(sh_dev.reported(), Some(2));
    assert_eq!(sh_dev.next_setting(0), Outcome::Pending);
    assert_eq!(sh_dev.reported(), None);

    // Now a new setting (2). It matches the synced state so it should get
    // reported to the backend and the client should get a reply.
    sh_dev.send(2, 4);
    assert_eq!(sh_dev.next_setting(0), Outcome::Pending);
    assert_eq!(sh_dev.acks, vec![(2, 1), (4, 2)]);
    assert_eq!(sh_dev.reported(), Some(2));

    // Now a new setting (7) will get reported and returned, etc.
    sh_dev.send(7, 5);
    assert_eq!(sh_dev.next_setting(0), Outcome::Setting(7, Some(5)));
    assert_eq!(sh_dev.acks, vec![(2, 1), (4, 2)]);
    assert_eq!(sh_dev.reported(), Some(7));
}

#[test]
fn test_timed_overrides() {
    let mut sh_dev = Sim::<bool>::new(Some(true), Some(60 * SEC), None);

    // Was created with an initial value, so that should be presented as the
    // first setting.
    assert_eq!(sh_dev.reported(), None);
    assert_eq!(sh_dev.next_setting(0), Outcome::Setting(true, None));
    assert_eq!(sh_dev.reported(), Some(true));

    // Report the hardware as false. Since that's not the desired setting, it
    // should reassert the setting.
    sh_dev.report_update(false);
    assert_eq!(sh_dev.reported(), None);
    assert_eq!(sh_dev.next_setting(0), Outcome::Setting(true, None));
    assert_eq!(sh_dev.reported(), None);

    // Now report the hardware as 'true', which will close-out the setting
    // "transaction".
    sh_dev.report_update(true);
    assert_eq!(sh_dev.reported(), None);
    assert_eq!(sh_dev.next_setting(0), Outcome::Pending);
    assert_eq!(sh_dev.reported(), None);

    // Now the reading is 'false' which should put us in override mode.
    sh_dev.report_update(false);
    assert_eq!(sh_dev.reported(), Some(false));
    assert_eq!(sh_dev.next_setting(0), Outcome::Pending);
    assert_eq!(sh_dev.reported(), None);

    // Now force a timeout to see if the setting is reasserted.
    sh_dev.dev.override_duration = Some(0);
    assert!(matches!(&sh_dev.dev.state, State::Overridden { .. }));
    sh_dev.dev.state = State::Overridden {
        setting: true,
        overridden: false,
        deadline: sh_dev.now,
    };
    assert_eq!(sh_dev.next_setting(0), Outcome::Setting(true, None));
    assert_eq!(sh_dev.reported(), Some(true));
}

#[test]
fn test_envelope_holds_after_immediate_match() {
    let mut sh_dev = Sim::<bool>::new(Some(true), None, Some(100 * MS));

    assert_eq!(sh_dev.next_setting(0), Outcome::Setting(true, None));
    assert_eq!(sh_dev.reported(), Some(true));

    // A matching poll arrives right away. It must not be trusted immediately.
    sh_dev.report_update(true);
    assert_eq!(sh_dev.reported(), None);
    assert!(matches!(&sh_dev.dev.state, State::Applying { .. }));

    // The envelope is still open and no client setting has arrived.
    assert_eq!(sh_dev.next_setting(20 * MS), Outcome::Pending);
}

#[test]
fn test_envelope_reassert_on_mismatch() {
    let mut sh_dev = Sim::<bool>::new(Some(true), None, Some(200 * MS));

    assert_eq!(sh_dev.next_setting(0), Outcome::Setting(true, None));
    assert_eq!(sh_dev.reported(), Some(true));

    // A mismatched poll arrives. It must be remembered, but never pushed to the
    // backend.
    sh_dev.report_update(false);
    assert_eq!(sh_dev.reported(), None);

    // The reassert is handed straight back to the driver with no extra backend
    // report.
    assert_eq!(sh_dev.next_setting(0), Outcome::Setting(true, None));
    assert_eq!(sh_dev.reported(), None);
}

#[test]
fn test_envelope_reassert_extends_deadline() {
    let mut sh_dev = Sim::<bool>::new(Some(true), None, Some(150 * MS));

    assert_eq!(sh_dev.next_setting(0), Outcome::Setting(true, None));
    assert_eq!(sh_dev.reported(), Some(true));

    // Wait most of the way through the original envelope, then cause a mismatch.
    sh_dev.now += 100 * MS;
    sh_dev.report_update(false);
    assert_eq!(sh_dev.next_setting(0), Outcome::Setting(true, None));

    // At the *original* deadline the device must still be waiting.
    assert_eq!(sh_dev.next_setting(60 * MS), Outcome::Pending);

    // Let the hardware settle on the right value so the extended envelope can
    // resolve cleanly once it elapses.
    sh_dev.report_update(true);
    assert_eq!(sh_dev.next_setting(200 * MS), Outcome::Pending);
    assert!(matches!(&sh_dev.dev.state, State::Synced { value: true }));
}

#[test]
fn test_envelope_expiry_resolves_to_synced() {
    let mut sh_dev = Sim::<bool>::new(None, None, Some(60 * SEC));

    sh_dev.dev.state = State::Applying {
        setting: true,
        last_seen: true,
        deadline: sh_dev.now,
        needs_reaffirm: false,
    };
    assert_eq!(sh_dev.next_setting(50 * MS), Outcome::Pending);
    assert!(matches!(&sh_dev.dev.state, State::Synced { value: true }));
}

#[test]
fn test_envelope_expiry_resolves_to_overridden() {
    let mut sh_dev = Sim::<bool>::new(None, Some(60 * SEC), Some(60 * SEC));

    sh_dev.dev.state = State::Applying {
        setting: true,
        last_seen: false,
        deadline: sh_dev.now,
        needs_reaffirm: false,
    };
    assert_eq!(sh_dev.next_setting(50 * MS), Outcome::Pending);
    assert!(matches!(
        &sh_dev.dev.state,
        State::Overridden { setting: true, overridden: false, .. }
    ));
}

#[test]
fn test_envelope_expiry_to_overridden_reports_value() {
    let mut sh_dev = Sim::<bool>::new(None, Some(60 * SEC), Some(60 * SEC));

    sh_dev.dev.state = State::Applying {
        setting: true,
        last_seen: false,
        deadline: sh_dev.now,
        needs_reaffirm: false,
    };
    assert_eq!(sh_dev.next_setting(50 * MS), Outcome::Pending);
    assert!(matches!(
        &sh_dev.dev.state,
        State::Overridden { setting: true, overridden: false, .. }
    ));
    assert_eq!(sh_dev.reported(), Some(false));
}

#[test]
fn test_envelope_expiry_via_sleep_reports_value() {
    let mut sh_dev = Sim::<bool>::new(None, Some(60 * SEC), Some(30 * MS));

    sh_dev.dev.state = State::Applying {
        setting: true,
        last_seen: false,
        deadline: sh_dev.now + 30 * MS,
        needs_reaffirm: false,
    };
    assert_eq!(sh_dev.next_setting(200 * MS), Outcome::Pending);
    assert!(matches!(
        &sh_dev.dev.state,
        State::Overridden { setting: true, overridden: false, .. }
    ));
    assert_eq!(sh_dev.reported(), Some(false));
}

#[test]
fn test_envelope_multiple_reasserts_then_settles() {
    let mut sh_dev = Sim::<bool>::new(Some(true), None, Some(80 * MS));

    assert_eq!(sh_dev.next_setting(0), Outcome::Setting(true, None));
    assert_eq!(sh_dev.reported(), Some(true));

    // Several mismatch/reassert cycles in a row. Each one extends the envelope
    // and none of them touch the backend.
    for _ in 0..3 {
        sh_dev.report_update(false);
        assert_eq!(sh_dev.next_setting(0), Outcome::Setting(true, None));
        assert_eq!(sh_dev.reported(), None);
    }

    // Finally the hardware settles on the right value.
    sh_dev.report_update(true);
    assert_eq!(sh_dev.next_setting(300 * MS), Outcome::Pending);
    assert!(matches!(&sh_dev.dev.state, State::Synced { value: true }));
}

#[test]
fn test_new_setting_arrives_mid_envelope() {
    let mut sh_dev = Sim::<i32>::new(Some(1), None, Some(200 * MS));

    assert_eq!(sh_dev.next_setting(0), Outcome::Setting(1, None));
    assert_eq!(sh_dev.reported(), Some(1));

    // A client sends a different setting (2) while we're still waiting out the
    // envelope for 1.
    sh_dev.send(2, 9);
    assert_eq!(sh_dev.next_setting(0), Outcome::Setting(2, Some(9)));
    assert!(sh_dev.acks.is_empty());
    assert_eq!(sh_dev.reported(), Some(2));
    assert!(matches!(sh_dev.dev.get_last(), Some(2)));
}

#[test]
fn test_duplicate_setting_mid_envelope_acks_immediately() {
    let mut sh_dev = Sim::<i32>::new(Some(1), None, Some(200 * MS));

    assert_eq!(sh_dev.next_setting(0), Outcome::Setting(1, None));
    assert_eq!(sh_dev.reported(), Some(1));

    // A client re-sends the value we're already applying. It's ack'd immediately
    // without bothering the driver again...
    sh_dev.send(1, 9);
    assert_eq!(sh_dev.next_setting(0), Outcome::Pending);
    assert_eq!(sh_dev.acks, vec![(9, 1)]);

    // ...but it does get re-reported to the backend.
    assert_eq!(sh_dev.reported(), Some(1));
}

#[test]
fn test_next_setting_cancel_safe_during_unknown_trans_report() {
    let mut sh_dev = Sim::<i32>::new(None, None, None);

    // Pre-fill the backend channel so the pending report blocks.
    sh_dev.capacity = 1;
    sh_dev.backend.push_back(0);
    sh_dev.send(1, 9);

    // First poll: the setting is consumed, but the report cannot be made.
    assert_eq!(sh_dev.next_setting(0), Outcome::Pending);
    assert!(matches!(&sh_dev.dev.state, State::UnknownTrans { .. }));

    // Second poll: tries to report, but the backend is full.
    assert_eq!(sh_dev.next_setting(0), Outcome::Pending);
    assert!(matches!(&sh_dev.dev.state, State::UnknownTrans { .. }));
    assert!(sh_dev.acks.is_empty());

    // Drain the dummy value so the retried report can proceed.
    assert_eq!(sh_dev.reported(), Some(0));
    assert_eq!(sh_dev.next_setting(0), Outcome::Setting(1, Some(9)));
    assert_eq!(sh_dev.reported(), Some(1));
    assert_eq!(sh_dev.reported(), None);
}

#[test]
fn test_next_setting_cancel_safe_during_applying_trans_report() {
    let mut sh_dev = Sim::<i32>::new(None, None, None);

    sh_dev.capacity = 1;
    sh_dev.backend.push_back(0);
    sh_dev.dev.state = State::Synced { value: 1 };
    sh_dev.send(2, 9);

    assert_eq!(sh_dev.next_setting(0), Outcome::Pending);
    assert!(matches!(&sh_dev.dev.state, State::ApplyingTrans { .. }));
    assert_eq!(sh_dev.next_setting(0), Outcome::Pending);
    assert!(matches!(&sh_dev.dev.state, State::ApplyingTrans { .. }));
    assert!(sh_dev.acks.is_empty());

    assert_eq!(sh_dev.reported(), Some(0));
    assert_eq!(sh_dev.next_setting(0), Outcome::Setting(2, Some(9)));
    assert_eq!(sh_dev.reported(), Some(2));
    assert_eq!(sh_dev.reported(), None);
}

#[test]
fn test_next_setting_cancel_safe_during_envelope_select() {
    let mut sh_dev = Sim::<bool>::new(None, None, Some(100 * MS));
    let deadline = sh_dev.now + 100 * MS;

    sh_dev.dev.state = State::Applying {
        setting: true,
        last_seen: true,
        deadline,
        needs_reaffirm: false,
    };

    // Nothing is ready yet (no incoming setting, envelope not elapsed).
    assert_eq!(sh_dev.next_setting(0), Outcome::Pending);

    // The deadline (and the rest of the state) must be untouched.
    assert!(matches!(
        &sh_dev.dev.state,
        State::Applying { deadline: d, .. } if *d == deadline
    ));

    // Re-poll: it must still resolve against the *original* deadline.
    assert_eq!(sh_dev.next_setting(300 * MS), Outcome::Pending);
    assert!(matches!(&sh_dev.dev.state, State::Synced { value: true }));
}

#[test]
fn test_report_update_cancel_safe() {
    let mut sh_dev = Sim::<i32>::new(None, None, None);

    sh_dev.capacity = 1;
    sh_dev.backend.push_back(0);
    sh_dev.dev.state = State::Synced { value: 1 };

    // The channel is full, so the report can't complete.
    assert!(!sh_dev.report_update(2));
    assert!(matches!(&sh_dev.dev.state, State::Synced { value: 1 }));

    // Drain the dummy and retry.
    assert_eq!(sh_dev.reported(), Some(0));
    assert!(sh_dev.report_update(2));
    assert!(matches!(
        &sh_dev.dev.state,
        State::Overridden { setting: 1, overridden: 2, .. }
    ));
    assert_eq!(sh_dev.reported(), Some(2));
    assert_eq!(sh_dev.reported(), None);
}

#[test]
fn override_goes_back_to_the_setting_after_several_changes() {
    let mut sim = Sim::<i32>::new(None, Some(10 * SEC), None);
    sim.dev.state = State::Synced { value: 1 };

    sim.report_update(2);
    sim.now += 4 * SEC;
    sim.report_update(3);
    sim.now += 4 * SEC;
    sim.report_update(4);
    let last_change = sim.now;
    assert_eq!(sim.backend, VecDeque::from(vec![2, 3, 4]));

    // Each change starts the timer anew, and the setting is still the first one.
    assert_eq!(sim.next_setting(60 * SEC), Outcome::Setting(1, None));
    assert_eq!(sim.now, last_change + 10 * SEC);
}

#[test]
fn same_override_does_not_extend_the_timer() {
    let mut sim = Sim::<i32>::new(None, Some(10 * SEC), None);
    sim.dev.state = State::Synced { value: 1 };

    sim.report_update(2);
    let start = sim.now;
    sim.now += 4 * SEC;
    sim.report_update(2);
    assert_eq!(sim.backend, VecDeque::from(vec![2]));
    assert_eq!(sim.next_setting(60 * SEC), Outcome::Setting(1, None));
    assert_eq!(sim.now, start + 10 * SEC);
}

#[test]
fn unchanged_value_is_not_written_again() {
    let mut sim = Sim::<i32>::new(None, Some(10 * SEC), None);
    sim.dev.state = State::Synced { value: 1 };

    // A client asks for the very value by which the device is overridden.
    sim.report_update(2);
    sim.send(2, 5);
    assert_eq!(sim.next_setting(0), Outcome::Pending);
    assert_eq!(sim.acks, vec![(5, 2)]);

    // The reading has not changed, but now the device is in sync.
    sim.report_update(2);
    assert_eq!(sim.backend, VecDeque::from(vec![2]));
    assert!(matches!(&sim.dev.state, State::Synced { value: 2 }));
}

#[test]
fn override_that_became_the_setting_ends_in_sync() {
    let mut sim = Sim::<i32>::new(None, Some(10 * SEC), None);
    sim.dev.state = State::Synced { value: 1 };

    sim.report_update(2);
    sim.send(2, 5);
    assert_eq!(sim.next_setting(60 * SEC), Outcome::Pending);
    assert!(matches!(&sim.dev.state, State::Synced { value: 2 }));
    assert_eq!(sim.backend, VecDeque::from(vec![2]));
}

#[test]
fn reading_answers_a_client_whose_setting_is_there_already() {
    let mut sim = Sim::<i32>::new(None, None, Some(SEC));
    sim.capacity = 0;
    sim.dev.state = State::Synced { value: 1 };
    sim.send(2, 5);
    assert_eq!(sim.next_setting(0), Outcome::Pending);

    assert!(sim.report_update(3));
    assert!(sim.acks.is_empty());
    assert!(matches!(
        &sim.dev.state,
        State::ApplyingTrans { responder: Some(5), needs_report: true, last_seen: 3, .. }
    ));
    assert!(sim.report_update(2));
    assert_eq!(sim.acks, vec![(5, 2)]);
    assert!(matches!(&sim.dev.state, State::Applying { setting: 2, last_seen: 2, .. }));
    assert!(sim.backend.is_empty());
}

#[test]
fn reading_does_not_disturb_an_unknown_transition() {
    let mut sim = Sim::<i32>::new(None, None, None);
    sim.capacity = 0;
    sim.send(2, 5);
    assert_eq!(sim.next_setting(0), Outcome::Pending);
    assert!(sim.report_update(3));
    assert!(matches!(
        &sim.dev.state,
        State::UnknownTrans { value: 2, report: Some(5) }
    ));
}

#[test]
fn first_reading_is_written() {
    let mut sim = Sim::<i32>::new(None, None, None);
    assert!(sim.dev.get_last().is_none());
    sim.report_update(3);
    assert_eq!(sim.reported(), Some(3));
    assert!(matches!(sim.dev.get_last(), Some(3)));
    sim.report_update(3);
    assert_eq!(sim.reported(), None);
}

#[test]
fn no_more_clients() {
    let mut sim = Sim::<i32>::new(None, None, Some(SEC));
    sim.closed = true;
    assert_eq!(sim.next_setting(0), Outcome::Closed);
    sim.dev.state = State::Synced { value: 1 };
    assert_eq!(sim.next_setting(0), Outcome::Closed);
    sim.report_update(2);
    assert_eq!(sim.next_setting(0), Outcome::Closed);
    sim.dev.state = State::Applying {
        setting: 1,
        last_seen: 1,
        deadline: sim.now + SEC,
        needs_reaffirm: false,
    };
    assert_eq!(sim.next_setting(0), Outcome::Closed);
}

#[test]
fn synced_device_is_overridden_while_a_repeat_waits() {
    let mut sim = Sim::<i32>::new(None, Some(SEC), None);
    sim.capacity = 0;
    sim.dev.state = State::Synced { value: 1 };
    sim.send(1, 5);
    assert_eq!(sim.next_setting(0), Outcome::Pending);
    assert_eq!(sim.acks, vec![(5, 1)]);
    assert!(matches!(&sim.dev.state, State::SyncedTrans { value: 1 }));
    sim.capacity = 20;
    sim.report_update(2);
    assert_eq!(sim.reported(), Some(2));
    assert!(matches!(
        &sim.dev.state,
        State::Overridden { setting: 1, overridden: 2, deadline } if *deadline == sim.now + SEC
    ));
}

#[test]
fn reset_forgets_everything() {
    let mut sim = Sim::<i32>::new(Some(1), Some(SEC), Some(2 * SEC));
    sim.dev.reset_state();
    assert!(matches!(&sim.dev.state, State::Unknown));
    assert_eq!(sim.dev.override_duration, Some(SEC));
    assert_eq!(sim.dev.envelope, 2 * SEC);
    assert!(sim.dev.get_last().is_none());
}

#[test]
fn states_have_labels() {
    let mut sim = Sim::<i32>::new(Some(1), None, None);
    assert_eq!(sim.dev.state.label(), "<<ApplyingTrans>>");
    assert_eq!(sim.next_setting(0), Outcome::Setting(1, None));
    assert_eq!(sim.dev.state.label(), "<<Applying>>");
    assert_eq!(sim.next_setting(0), Outcome::Pending);
    assert_eq!(sim.dev.state.label(), "<<Synced>>");
    sim.report_update(2);
    assert_eq!(sim.dev.state.label(), "<<Overridden>>");
    sim.dev.state = State::SyncedTrans { value: 1 };
    assert_eq!(sim.dev.state.label(), "<<SyncedTrans>>");
    sim.dev.state = State::UnknownTrans { value: 1, report: None };
    assert_eq!(sim.dev.state.label(), "<<UnknownTrans>>");
    sim.dev.reset_state();
    assert_eq!(sim.dev.state.label(), "<<Unknown>>");
}

#[test]
fn no_timeouts_by_default() {
    let cfg = OverrideConfig::default();
    assert_eq!(cfg.override_duration, None);
    assert_eq!(cfg.envelope, None);
}

#[test]
fn numbers_that_are_not_numbers_differ_from_themselves() {
    let nan = Flt { bits: f64::NAN.to_bits() };
    let mut sim = Sim::<Flt>::new(None, None, None);
    sim.dev.state = State::Synced { value: nan };
    sim.report_update(nan);
    assert!(matches!(&sim.dev.state, State::Overridden { .. }));
    assert_eq!(sim.reported(), Some(nan));
}

#[test]
fn no_envelope_decides_at_once() {
    let mut sim = Sim::<i32>::new(None, None, None);
    sim.inbox.push_back((7, 1));
    assert_eq!(sim.next_setting(0), Outcome::Setting(7, Some(1)));
    assert!(matches!(sim.dev.state, State::Applying { .. }));
    // No time passes, and the device is in sync.
    assert_eq!(sim.next_setting(0), Outcome::Pending);
    assert!(matches!(sim.dev.state, State::Synced { value: 7 }));
}

#[test]
fn no_envelope_trusts_a_matching_reading() {
    let mut dev = OverridableDevice::<i32, u32>::new(Some(1), None, None, 100);
    dev.next_setting(Event::Reported, 100);
    assert!(matches!(dev.state, State::Applying { .. }));
    assert_eq!(dev.report_due(&1), None);
    assert_eq!(dev.report_update(1, 101), None);
    assert!(matches!(dev.state, State::Synced { value: 1 }));
    // The next reading is an override.
    assert_eq!(dev.report_due(&2), Some(2));
    assert_eq!(dev.report_update(2, 102), None);
    assert_eq!(dev.get_last(), Some(&2));
    assert!(matches!(dev.state, State::Overridden { setting: 1, overridden: 2, .. }));
}

#[test]
fn no_envelope_keeps_an_owed_report() {
    let mut dev = OverridableDevice::<i32, u32>::new(Some(1), None, None, 100);
    dev.next_setting(Event::Reported, 100);
    let step = dev.next_setting(Event::Setting(1, 5), 100);
    assert_eq!(step.ack, Some((5, 1)));
    assert_eq!(dev.report_update(1, 101), None);
    let step = dev.next_setting(Event::Poll, 102);
    assert!(matches!(step.action, Action::Report(1)));
    dev.next_setting(Event::Reported, 102);
    assert!(matches!(dev.state, State::Synced { value: 1 }));
}

#[test]
fn no_envelope_answers_a_client_whose_setting_is_there_already() {
    let mut dev = OverridableDevice::<i32, u32>::new(None, None, None, 100);
    dev.report_update(1, 100);
    dev.next_setting(Event::Setting(2, 5), 100);
    assert_eq!(dev.report_update(2, 101), Some((5, 2)));
    assert!(matches!(dev.state, State::Synced { value: 2 }));
    assert_eq!(dev.get_last(), Some(&2));
}

#[test]
fn handed_out_settings_are_written_first() {
    let zero = Flt { bits: 0.0f64.to_bits() };
    let minus = Flt { bits: (-0.0f64).to_bits() };
    let ten = Flt { bits: 10.0f64.to_bits() };
    let mut sim = Sim::<Flt>::new(Some(zero), None, Some(SEC));
    for (value, client) in [(minus, 1), (ten, 2)] {
        sim.inbox.push_back((value, client));
    }
    for value in [zero, ten] {
        assert!(matches!(sim.next_setting(MS), Outcome::Setting(v, _) if v == value));
        assert_eq!(sim.backend.back(), Some(&value));
        assert_eq!(sim.dev.get_last(), Some(&value));
    }
    // A mismatch has the value handed out again.
    sim.dev.report_update(zero, sim.now);
    assert!(matches!(sim.next_setting(MS), Outcome::Setting(v, None) if v == ten));
    assert_eq!(sim.backend.back(), Some(&ten));
}

#[test]
fn last_value_follows_what_is_written() {
    let mut dev = OverridableDevice::<i32, u32>::new(None, None, None, 100);
    for value in [1, 1, 2, 2, 3, 1, 1] {
        let before = dev.get_last().copied();
        let due = dev.report_due(&value);
        dev.report_update(value, 100);
        match due {
            Some(v) => {
                assert_eq!(v, value);
                assert_eq!(dev.get_last(), Some(&value));
            }
            None => assert_eq!(dev.get_last().copied(), before),
        }
    }
}

#[test]
fn override_starts_before_the_write_if_the_envelope_was_over() {
    let mut dev = OverridableDevice::<i32, u32>::new(Some(1), Some(50), Some(10), 100);
    dev.report_update(2, 100);
    dev.next_setting(Event::Reported, 100);
    let step = dev.next_setting(Event::Poll, 120);
    assert!(matches!(step.action, Action::ReportAt(2, 120)));
    // A write that is given up is asked for again.
    let step = dev.next_setting(Event::Poll, 121);
    assert!(matches!(step.action, Action::ReportAt(2, 121)));
    dev.next_setting(Event::ReportedAt(121), 130);
    assert!(matches!(dev.state, State::Overridden { setting: 1, overridden: 2, deadline: 171 }));
}

#[test]
fn override_starts_after_the_write_if_the_envelope_was_waited_for() {
    let mut dev = OverridableDevice::<i32, u32>::new(Some(1), Some(50), Some(10), 100);
    dev.report_update(2, 100);
    dev.next_setting(Event::Reported, 100);
    let step = dev.next_setting(Event::Poll, 104);
    assert!(matches!(step.action, Action::Wait(Some(6))));
    let step = dev.next_setting(Event::Elapsed, 110);
    assert!(matches!(step.action, Action::Report(2)));
    dev.next_setting(Event::Reported, 113);
    assert!(matches!(dev.state, State::Overridden { setting: 1, overridden: 2, deadline: 163 }));
}

#[test]
fn override_end_stays_whatever_comes_before_it() {
    let mut dev = OverridableDevice::<i32, u32>::new(None, Some(50), None, 100);
    dev.report_update(1, 100);
    dev.report_update(2, 100);
    dev.next_setting(Event::Poll, 110);
    dev.next_setting(Event::Setting(3, 7), 120);
    dev.report_update(2, 130);
    dev.next_setting(Event::Setting(4, 8), 140);
    let step = dev.next_setting(Event::Poll, 149);
    assert!(matches!(step.action, Action::Wait(Some(1))));
    assert!(matches!(dev.state, State::Overridden { setting: 4, overridden: 2, deadline: 150 }));
}

#[test]
fn reading_that_is_repeated_is_not_written_again() {
    let mut dev = OverridableDevice::<i32, u32>::new(None, None, None, 100);
    for value in [1, 2, 3, 1, 2] {
        assert_eq!(dev.report_due(&value), Some(value));
        dev.report_update(value, 100);
        assert_eq!(dev.report_due(&value), None);
    }
}
