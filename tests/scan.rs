use pybadge_high::scan::{
    ScanAction, ShiftScan, CLOCK_PULSE_CYCLES, LATCH_HOLD_CYCLES, LATCH_SETUP_CYCLES, SCAN_STEPS,
};

/// Runs a scan against a register whose serial output shifts out `byte`,
/// most significant bit first. Returns the actions and the result.
fn run(byte: u8) -> (Vec<ScanAction>, u8) {
    let mut scan = ShiftScan::new();
    let mut actions = Vec::new();
    let mut shifted = 0u32;
    loop {
        let a = scan.action();
        actions.push(a);
        let mut level = false;
        match a {
            ScanAction::Finished(v) => return (actions, v),
            ScanAction::ReadData => {
                level = byte & (0x80 >> shifted) != 0;
                shifted += 1;
            }
            _ => {}
        }
        // an unrelated level on other steps must be ignored
        scan.advance(level || matches!(a, ScanAction::ClockHigh));
    }
}

#[test]
fn scan_script_is_latch_pulse_then_eight_clocked_reads() {
    let (actions, _) = run(0);
    let mut expected = vec![
        ScanAction::LatchLow,
        ScanAction::Wait(LATCH_SETUP_CYCLES),
        ScanAction::LatchHigh,
        ScanAction::Wait(LATCH_HOLD_CYCLES),
    ];
    for _ in 0..8 {
        expected.push(ScanAction::ClockLow);
        expected.push(ScanAction::Wait(CLOCK_PULSE_CYCLES));
        expected.push(ScanAction::ReadData);
        expected.push(ScanAction::ClockHigh);
    }
    expected.push(ScanAction::Finished(0));
    assert_eq!(actions, expected);
    assert_eq!(actions.len(), SCAN_STEPS as usize + 1);
}

#[test]
fn scan_timing_constants() {
    assert_eq!(LATCH_SETUP_CYCLES, 7);
    assert_eq!(LATCH_HOLD_CYCLES, 1);
    assert_eq!(CLOCK_PULSE_CYCLES, 5);
}

#[test]
fn scan_assembles_first_bit_as_most_significant() {
    for byte in 0..=255u8 {
        let (_, v) = run(byte);
        assert_eq!(v, byte);
    }
    assert_eq!(run(0b1000_0000).1, 0x80);
    assert_eq!(run(0b0000_0001).1, 0x01);
}

#[test]
fn finished_scan_keeps_reporting_its_result() {
    let mut scan = ShiftScan::new();
    for _ in 0..SCAN_STEPS {
        let high = scan.action() == ScanAction::ReadData;
        scan.advance(high);
    }
    assert_eq!(scan.action(), ScanAction::Finished(0xff));
    assert_eq!(scan.action(), ScanAction::Finished(0xff));
}
