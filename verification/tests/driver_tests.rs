use ak09915::Ak09915;
use ak09915::Mode;
use ak09915::Transport;

/// One recorded transport call.
#[derive(Debug, Clone, PartialEq)]
enum Call {
    Write(u8, Vec<u8>),
    WriteRead(u8, Vec<u8>, usize),
    Delay(u32),
}

/// A scripted in-memory transport: records every call, hands out queued
/// responses to write-then-reads, and can be told to fail the nth write or
/// the nth write-then-read.
struct FakeBus {
    calls: Vec<Call>,
    responses: Vec<Vec<u8>>,
    write_fail_at: Option<usize>,
    read_fail_at: Option<usize>,
    n_writes: usize,
    n_reads: usize,
}

impl FakeBus {
    fn new() -> FakeBus {
        FakeBus {
            calls: Vec::new(),
            responses: Vec::new(),
            write_fail_at: None,
            read_fail_at: None,
            n_writes: 0,
            n_reads: 0,
        }
    }

    fn with_responses(responses: Vec<Vec<u8>>) -> FakeBus {
        let mut bus = FakeBus::new();
        bus.responses = responses;
        bus
    }
}

impl Transport for FakeBus {
    type Error = u8;

    fn write(&mut self, addr: u8, bytes: &[u8]) -> Result<(), u8> {
        let idx = self.n_writes;
        self.n_writes += 1;
        self.calls.push(Call::Write(addr, bytes.to_vec()));
        if self.write_fail_at == Some(idx) {
            Err(7)
        } else {
            Ok(())
        }
    }

    fn write_read(&mut self, addr: u8, out: &[u8], buf: &mut Vec<u8>) -> Result<(), u8> {
        let idx = self.n_reads;
        self.n_reads += 1;
        self.calls.push(Call::WriteRead(addr, out.to_vec(), buf.len()));
        if self.read_fail_at == Some(idx) {
            return Err(9);
        }
        let resp = if self.responses.is_empty() {
            vec![0u8; buf.len()]
        } else {
            self.responses.remove(0)
        };
        for i in 0..buf.len() {
            buf[i] = if i < resp.len() { resp[i] } else { 0 };
        }
        Ok(())
    }

    fn delay_us(&mut self, us: u32) {
        self.calls.push(Call::Delay(us));
    }
}

fn mode_pattern_pairs() -> Vec<(Mode, u8)> {
    vec![
        (Mode::PowerDown, 0x00),
        (Mode::SingleMeasurement, 0x01),
        (Mode::ContMeasurement10, 0x02),
        (Mode::ContMeasurement20, 0x04),
        (Mode::ContMeasurement50, 0x06),
        (Mode::ContMeasurement100, 0x08),
        (Mode::ContMeasurement200, 0x0A),
        (Mode::ContMeasurement1, 0x0C),
        (Mode::SelfTest, 0x10),
    ]
}

#[test]
fn construct_issues_no_traffic() {
    let sensor = Ak09915::new(FakeBus::new());
    assert_eq!(sensor.address, 0x0C);
    assert!(sensor.i2c.calls.is_empty());
}

#[test]
fn set_mode_writes_powerdown_then_target_for_every_mode() {
    for (mode, pattern) in mode_pattern_pairs() {
        let mut sensor = Ak09915::new(FakeBus::new());
        assert_eq!(sensor.set_mode(mode), Ok(()));
        assert_eq!(
            sensor.i2c.calls,
            vec![
                Call::Write(0x0C, vec![0x31, 0x00]),
                Call::Delay(100),
                Call::Write(0x0C, vec![0x31, pattern]),
            ]
        );
    }
}

#[test]
fn reset_writes_soft_reset_command() {
    let mut sensor = Ak09915::new(FakeBus::new());
    assert_eq!(sensor.reset(), Ok(()));
    assert_eq!(sensor.i2c.calls, vec![Call::Write(0x0C, vec![0x32, 0x01])]);
}

#[test]
fn reset_surfaces_transport_error() {
    let mut bus = FakeBus::new();
    bus.write_fail_at = Some(0);
    let mut sensor = Ak09915::new(bus);
    assert_eq!(sensor.reset(), Err(7));
}

#[test]
fn set_mode_surfaces_error_of_first_write() {
    let mut bus = FakeBus::new();
    bus.write_fail_at = Some(0);
    let mut sensor = Ak09915::new(bus);
    assert_eq!(sensor.set_mode(Mode::ContMeasurement50), Err(7));
    assert_eq!(sensor.i2c.calls, vec![Call::Write(0x0C, vec![0x31, 0x00])]);
}

#[test]
fn set_mode_surfaces_error_of_second_write_after_powerdown() {
    let mut bus = FakeBus::new();
    bus.write_fail_at = Some(1);
    let mut sensor = Ak09915::new(bus);
    assert_eq!(sensor.set_mode(Mode::ContMeasurement50), Err(7));
    assert_eq!(
        sensor.i2c.calls,
        vec![
            Call::Write(0x0C, vec![0x31, 0x00]),
            Call::Delay(100),
            Call::Write(0x0C, vec![0x31, 0x06]),
        ]
    );
}

#[test]
fn init_resets_then_enters_continuous_50hz() {
    let mut sensor = Ak09915::new(FakeBus::new());
    assert_eq!(sensor.init(), Ok(()));
    assert_eq!(
        sensor.i2c.calls,
        vec![
            Call::Write(0x0C, vec![0x32, 0x01]),
            Call::Write(0x0C, vec![0x31, 0x00]),
            Call::Delay(100),
            Call::Write(0x0C, vec![0x31, 0x06]),
        ]
    );
}

#[test]
fn is_data_ready_true_on_first_ready_poll() {
    let mut sensor = Ak09915::new(FakeBus::with_responses(vec![vec![0x01]]));
    assert_eq!(sensor.is_data_ready(), Ok(true));
    assert_eq!(sensor.i2c.calls, vec![Call::WriteRead(0x0C, vec![0x10], 1)]);
}

#[test]
fn is_data_ready_false_after_exactly_ten_unready_polls() {
    let mut sensor = Ak09915::new(FakeBus::new());
    assert_eq!(sensor.is_data_ready(), Ok(false));
    let mut expected = Vec::new();
    for _ in 0..10 {
        expected.push(Call::WriteRead(0x0C, vec![0x10], 1));
        expected.push(Call::Delay(100));
    }
    assert_eq!(sensor.i2c.calls, expected);
}

#[test]
fn is_data_ready_true_on_a_later_poll() {
    let mut sensor = Ak09915::new(FakeBus::with_responses(vec![
        vec![0x00],
        vec![0x00],
        vec![0x01],
    ]));
    assert_eq!(sensor.is_data_ready(), Ok(true));
    assert_eq!(
        sensor.i2c.calls,
        vec![
            Call::WriteRead(0x0C, vec![0x10], 1),
            Call::Delay(100),
            Call::WriteRead(0x0C, vec![0x10], 1),
            Call::Delay(100),
            Call::WriteRead(0x0C, vec![0x10], 1),
        ]
    );
}

#[test]
fn is_data_ready_aborts_on_transport_error() {
    let mut bus = FakeBus::new();
    bus.read_fail_at = Some(1);
    let mut sensor = Ak09915::new(bus);
    assert_eq!(sensor.is_data_ready(), Err(9));
    assert_eq!(
        sensor.i2c.calls,
        vec![
            Call::WriteRead(0x0C, vec![0x10], 1),
            Call::Delay(100),
            Call::WriteRead(0x0C, vec![0x10], 1),
        ]
    );
}

#[test]
fn read_mag_decodes_little_endian_sample() {
    let mut sensor = Ak09915::new(FakeBus::with_responses(vec![vec![
        0x34, 0x12, 0xFF, 0xFF, 0x00, 0x80,
    ]]));
    assert_eq!(sensor.read_mag(), Ok((0x1234, -1, -32768)));
    assert_eq!(sensor.i2c.calls, vec![Call::WriteRead(0x0C, vec![0x11], 6)]);
}

#[test]
fn read_mag_round_trips_boundary_triples() {
    let triples: Vec<(i16, i16, i16)> = vec![
        (-32768, -1, 0),
        (1, 32767, -32768),
        (0, 0, 0),
        (32767, -32768, -1),
        (-1, 1, 32767),
    ];
    for (x, y, z) in triples {
        let mut sample = Vec::new();
        sample.extend_from_slice(&(x as u16).to_le_bytes());
        sample.extend_from_slice(&(y as u16).to_le_bytes());
        sample.extend_from_slice(&(z as u16).to_le_bytes());
        let mut sensor = Ak09915::new(FakeBus::with_responses(vec![sample]));
        assert_eq!(sensor.read_mag(), Ok((x, y, z)));
    }
}

#[test]
fn read_mag_surfaces_transport_error() {
    let mut bus = FakeBus::new();
    bus.read_fail_at = Some(0);
    let mut sensor = Ak09915::new(bus);
    assert_eq!(sensor.read_mag(), Err(9));
}

fn sample_response(x: i16, y: i16, z: i16) -> Vec<u8> {
    let mut sample = Vec::new();
    sample.extend_from_slice(&(x as u16).to_le_bytes());
    sample.extend_from_slice(&(y as u16).to_le_bytes());
    sample.extend_from_slice(&(z as u16).to_le_bytes());
    sample
}

#[test]
fn self_test_passes_on_in_range_reading() {
    let mut sensor = Ak09915::new(FakeBus::with_responses(vec![
        vec![0x01],
        sample_response(0, 0, -500),
    ]));
    assert_eq!(sensor.self_test(), Ok(true));
    assert_eq!(
        sensor.i2c.calls,
        vec![
            Call::Write(0x0C, vec![0x31, 0x00]),
            Call::Delay(100),
            Call::Write(0x0C, vec![0x31, 0x10]),
            Call::WriteRead(0x0C, vec![0x10], 1),
            Call::WriteRead(0x0C, vec![0x11], 6),
        ]
    );
}

#[test]
fn self_test_fails_on_out_of_range_reading() {
    let mut sensor = Ak09915::new(FakeBus::with_responses(vec![
        vec![0x01],
        sample_response(201, 0, -500),
    ]));
    assert_eq!(sensor.self_test(), Ok(false));
}

#[test]
fn self_test_surfaces_error_of_mode_write() {
    let mut bus = FakeBus::new();
    bus.write_fail_at = Some(0);
    let mut sensor = Ak09915::new(bus);
    assert_eq!(sensor.self_test(), Err(7));
}

#[test]
fn is_data_ready_ignores_other_status_bits_when_ready_bit_clear() {
    let mut sensor = Ak09915::new(FakeBus::with_responses(vec![vec![0xFE]; 10]));
    assert_eq!(sensor.is_data_ready(), Ok(false));
    assert_eq!(sensor.i2c.calls.len(), 20);
}

#[test]
fn is_data_ready_sees_ready_bit_among_other_bits() {
    let mut sensor = Ak09915::new(FakeBus::with_responses(vec![vec![0xFF]]));
    assert_eq!(sensor.is_data_ready(), Ok(true));
    assert_eq!(sensor.i2c.calls.len(), 1);
}
