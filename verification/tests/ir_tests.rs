use nightfire::ir::ir_pulse_reader::IRPulseReader;
use nightfire::ir::pulse::Pulse;
use nightfire::ir::signal::Signal;

fn pulses(code: &str) -> Vec<Pulse> {
    code.chars().map(|c| if c == 'L' { Pulse::Long } else { Pulse::Short }).collect()
}

#[test]
fn pulse_lengths() {
    assert_eq!(Pulse::from_micros(0), Pulse::Unrecognized);
    assert_eq!(Pulse::from_micros(1), Pulse::Short);
    assert_eq!(Pulse::from_micros(560), Pulse::Short);
    assert_eq!(Pulse::from_micros(999), Pulse::Short);
    assert_eq!(Pulse::from_micros(1000), Pulse::Unrecognized);
    assert_eq!(Pulse::from_micros(1690), Pulse::Long);
    assert_eq!(Pulse::from_micros(2000), Pulse::Unrecognized);
    assert_eq!(Pulse::from_micros(4500), Pulse::Start);
    assert_eq!(Pulse::from_micros(5000), Pulse::Unrecognized);
    assert_eq!(Pulse::from_micros(90000), Pulse::Unrecognized);
}

#[test]
fn signals_from_pulse_sequences() {
    assert_eq!(Signal::from_pulse_seq(&pulses("SSSSSSSSLLLLLLLLSSSSSSLSLLLLLLSL")), Signal::Power);
    assert_eq!(Signal::from_pulse_seq(&pulses("SSSSSSSSLLLLLLLLLSLSSSLSSLSLLLSL")), Signal::Blue);
    assert_eq!(Signal::from_pulse_seq(&pulses("SSSSSSSSLLLLLLLLSLSLSSSSLSLSLLLL")), Signal::Diy6);
    assert_eq!(Signal::from_pulse_seq(&pulses("SSSSSSSSLLLLLLLLLLLSSSSSSSSLLLLL")), Signal::Fade7);
    // an unknown code, a short sequence and a long one
    assert_eq!(Signal::from_pulse_seq(&pulses("SSSSSSSSSSSSSSSSSSSSSSSSSSSSSSSS")), Signal::Unrecognized);
    assert_eq!(Signal::from_pulse_seq(&pulses("SSSSSSSSLLLLLLLLSSSSSSLSLLLLLLS")), Signal::Unrecognized);
    assert_eq!(Signal::from_pulse_seq(&pulses("SSSSSSSSLLLLLLLLSSSSSSLSLLLLLLSLS")), Signal::Unrecognized);
    // other pulses do not carry bits
    let mut p = pulses("SSSSSSSSLLLLLLLLSSSSSSLSLLLLLLSL");
    p.insert(5, Pulse::Start);
    assert_eq!(Signal::from_pulse_seq(&p), Signal::Power);
}

#[test]
fn reader_decodes_after_32_pulses() {
    let mut r = IRPulseReader::new(4);
    assert_eq!(r.push_pulse(Pulse::Start), None);
    let p = pulses("SSSSSSSSLLLLLLLLSSSLLSLSLLLSSLSL");
    for (i, pulse) in p.iter().enumerate() {
        let s = r.push_pulse(*pulse);
        if i < 31 {
            assert_eq!(s, None);
        } else {
            assert_eq!(s, Some(Signal::Red));
        }
    }
    // the queue starts over
    for pulse in p.iter().take(31) {
        assert_eq!(r.push_pulse(*pulse), None);
    }
    assert_eq!(r.push_pulse(Pulse::Long), Some(Signal::Red));
}

#[test]
fn reader_restarts_on_broken_pulses() {
    let mut r = IRPulseReader::new(4);
    let p = pulses("SSSSSSSSLLLLLLLLSSSLLSLSLLLSSLSL");
    for pulse in p.iter().take(20) {
        assert_eq!(r.push_pulse(*pulse), None);
    }
    assert_eq!(r.push_pulse(Pulse::Unrecognized), None);
    for pulse in p.iter().take(31) {
        assert_eq!(r.push_pulse(*pulse), None);
    }
    assert_eq!(r.push_pulse(Pulse::Long), Some(Signal::Red));
}

#[test]
fn reader_level_changes() {
    let mut r = IRPulseReader::new(4);
    // low levels ending are pauses, not pulses
    assert_eq!(r.level_changed(0, 560), None);
    let code = "SSSSSSSSLLLLLLLLSSSSSSLSLLLLLLSL";
    let mut last = None;
    for c in code.chars() {
        let micros = if c == 'L' { 1690 } else { 560 };
        last = r.level_changed(1, micros);
        assert_eq!(r.level_changed(0, 560), None);
    }
    assert_eq!(last, Some(Signal::Power));
}
