use soc_devices::devices::timer::control::{Clock, Control, Mode};
use soc_devices::devices::timer::Timer;
use soc_devices::memory::{MemException, Misuse};
use std::time::{Duration, Instant};

const LOAD: u32 = 0x00;
const VALUE: u32 = 0x04;
const CONTROL: u32 = 0x08;
const CLEAR: u32 = 0x0C;

const ENABLE: u32 = 0x80;
const PERIODIC: u32 = 0x40;
const FAST: u32 = 0x08;

const MS: u64 = 1_000_000;

fn loaded(bits: usize, load: u32, control: u32) -> Timer {
    let mut timer = Timer::new("timer", bits);
    assert_eq!(timer.write_after(0, LOAD, load), Ok(()));
    assert_eq!(timer.write_after(0, CONTROL, control), Ok(()));
    timer
}

#[test]
fn new_timer_is_stopped_and_zero() {
    let mut timer = Timer::new("timer1", 16);
    assert_eq!(timer.read_after(0, VALUE), Ok(0));
    assert_eq!(timer.read_after(0, CONTROL), Ok(0));
    assert_eq!(
        timer.control(),
        Control { clock: Clock::Khz2, mode: Mode::FreeRunning, enabled: false }
    );
}

#[test]
fn label_and_device() {
    let timer = Timer::new("timer3", 32);
    assert_eq!(timer.label(), Some("timer3"));
    assert_eq!(timer.device(), "Timer");
}

#[test]
fn load_read_before_write_is_fatal() {
    let mut timer = Timer::new("timer", 32);
    let r = timer.read_after(0, LOAD);
    assert_eq!(r, Err(MemException::Fatal(Misuse::LoadUnset)));
    assert!(r.unwrap_err().is_fatal());
}

#[test]
fn load_write_sets_load_and_value() {
    let mut timer = Timer::new("timer", 32);
    assert_eq!(timer.write_after(0, LOAD, 0x1234_5678), Ok(()));
    assert_eq!(timer.read_after(0, LOAD), Ok(0x1234_5678));
    assert_eq!(timer.read_after(0, VALUE), Ok(0x1234_5678));
    // A stopped timer does not decay, however much later it is read.
    assert_eq!(timer.read_after(3_000 * MS, VALUE), Ok(0x1234_5678));
    assert_eq!(timer.read_after(3_000 * MS, LOAD), Ok(0x1234_5678));
}

#[test]
fn load_write_is_masked_to_the_width() {
    let mut timer = Timer::new("timer", 16);
    assert_eq!(timer.write_after(0, LOAD, 0x0012_3456), Ok(()));
    assert_eq!(timer.read_after(0, LOAD), Ok(0x3456));
    assert_eq!(timer.read_after(0, VALUE), Ok(0x3456));

    let mut narrow = Timer::new("timer", 4);
    assert_eq!(narrow.write_after(0, LOAD, 0xFF), Ok(()));
    assert_eq!(narrow.read_after(0, VALUE), Ok(0xF));

    let mut empty = Timer::new("timer", 0);
    assert_eq!(empty.write_after(0, LOAD, 0xFFFF_FFFF), Ok(()));
    assert_eq!(empty.read_after(0, VALUE), Ok(0));
}

#[test]
fn free_running_half_second_at_2khz() {
    let mut timer = Timer::new("timer", 32);
    assert_eq!(timer.write_after(0, LOAD, 0xFFFF_FFFF), Ok(()));
    assert_eq!(timer.read_after(0, VALUE), Ok(0xFFFF_FFFF));
    assert_eq!(timer.write_after(0, CONTROL, ENABLE), Ok(()));
    assert_eq!(timer.read_after(500 * MS, VALUE), Ok(0xFFFF_FFFF - 1000));
}

#[test]
fn free_running_rate_508khz() {
    let mut timer = loaded(32, 1_000_000, ENABLE | FAST);
    assert_eq!(timer.read_after(MS, VALUE), Ok(1_000_000 - 508));
    assert_eq!(timer.read_after(10 * MS, VALUE), Ok(1_000_000 - 508 - 5080));
}

#[test]
fn free_running_wraps_at_the_width() {
    let mut timer = loaded(16, 5, ENABLE);
    // 5 ms at 2 kHz are 10 ticks: 5 - 10 wraps to 2^16 - 5.
    assert_eq!(timer.read_after(5 * MS, VALUE), Ok(0xFFFB));

    let mut wide = loaded(32, 5, ENABLE);
    assert_eq!(wide.read_after(5 * MS, VALUE), Ok(0xFFFF_FFFB));
}

#[test]
fn free_running_wraps_many_times() {
    let mut timer = loaded(16, 0, ENABLE);
    // 65536 * 3 + 7 ticks at 2 kHz.
    let ticks: u64 = 65_536 * 3 + 7;
    assert_eq!(timer.read_after(ticks * MS / 2, VALUE), Ok(0x1_0000 - 7));
}

#[test]
fn free_running_longest_interval() {
    let mut timer = loaded(32, 0, ENABLE | FAST);
    // u64::MAX ns at 508 kHz.
    let ticks: u128 = (u64::MAX as u128 * 508) / 1_000_000;
    let expected = ((1u128 << 32) - (ticks % (1u128 << 32))) % (1u128 << 32);
    assert_eq!(timer.read_after(u64::MAX, VALUE), Ok(expected as u32));
}

#[test]
fn fraction_is_carried_between_updates() {
    let mut timer = loaded(32, 100, ENABLE);
    // A quarter of a millisecond is half a tick at 2 kHz.
    assert_eq!(timer.read_after(250_000, VALUE), Ok(100));
    assert_eq!(timer.read_after(250_000, VALUE), Ok(99));
    assert_eq!(timer.read_after(499_999, VALUE), Ok(99));
    assert_eq!(timer.read_after(1, VALUE), Ok(98));
}

#[test]
fn observing_in_between_loses_no_tick() {
    let mut stepped = loaded(32, 1_000_000, ENABLE | FAST);
    let mut direct = loaded(32, 1_000_000, ENABLE | FAST);
    let mut total: u64 = 0;
    for step in [1u64, 999, 1_968, 123_456, 7, 1_000_003] {
        stepped.read_after(step, VALUE).unwrap();
        total += step;
    }
    assert_eq!(direct.read_after(total, VALUE), stepped.read_after(0, VALUE));
}

#[test]
fn enabling_clears_the_fraction() {
    let mut timer = loaded(32, 100, ENABLE);
    // Leave 0.9 tick in the accumulator, then stop and start again.
    assert_eq!(timer.read_after(450_000, VALUE), Ok(100));
    assert_eq!(timer.write_after(0, CONTROL, 0), Ok(()));
    assert_eq!(timer.write_after(0, LOAD, 100), Ok(()));
    assert_eq!(timer.write_after(0, CONTROL, ENABLE), Ok(()));
    // 0.9 tick again: without the reset this would complete a tick.
    assert_eq!(timer.read_after(450_000, VALUE), Ok(100));

    let mut fresh = loaded(32, 100, ENABLE);
    assert_eq!(fresh.read_after(450_000, VALUE), Ok(100));
}

#[test]
fn writing_control_while_running_keeps_the_fraction() {
    let mut timer = loaded(32, 100, ENABLE);
    assert_eq!(timer.read_after(450_000, VALUE), Ok(100));
    assert_eq!(timer.write_after(0, CONTROL, ENABLE), Ok(()));
    assert_eq!(timer.read_after(50_000, VALUE), Ok(99));
}

#[test]
fn stopped_timer_does_not_decay() {
    let mut timer = loaded(32, 500, 0);
    assert_eq!(timer.read_after(10_000 * MS, VALUE), Ok(500));
    assert_eq!(timer.advance(u64::MAX), Ok(()));
    assert_eq!(timer.read_register(VALUE), Ok(500));
}

#[test]
fn periodic_counts_down_then_reloads() {
    let mut timer = loaded(32, 100, ENABLE | PERIODIC);
    // 30 ticks.
    assert_eq!(timer.read_after(15 * MS, VALUE), Ok(70));
    // 70 ticks reach zero exactly: no reload yet.
    assert_eq!(timer.read_after(35 * MS, VALUE), Ok(0));
    // One more tick passes zero: reload, less the tick left over.
    assert_eq!(timer.read_after(MS / 2, VALUE), Ok(99));
    // 80 ticks from 99: no reload.
    assert_eq!(timer.read_after(40 * MS, VALUE), Ok(19));
    // 30 ticks from 19: reload, 11 left over.
    assert_eq!(timer.read_after(15 * MS, VALUE), Ok(89));
    assert_eq!(timer.read_after(0, LOAD), Ok(100));
}

#[test]
fn periodic_reload_can_land_on_zero() {
    let mut timer = loaded(16, 10, ENABLE | PERIODIC);
    // 20 ticks from 10: the 10 left over use up the whole load value.
    assert_eq!(timer.read_after(10 * MS, VALUE), Ok(0));
}

#[test]
fn periodic_overrun_is_fatal_and_changes_nothing() {
    let mut timer = loaded(16, 10, ENABLE | PERIODIC);
    // 21 ticks from 10: 11 left over, more than the load value.
    assert_eq!(
        timer.read_after(10 * MS + MS / 2, VALUE),
        Err(MemException::Fatal(Misuse::ReloadOverrun))
    );
    assert_eq!(timer.read_register(VALUE), Ok(10));
    assert_eq!(timer.advance(10 * MS + MS / 2), Err(Misuse::ReloadOverrun));
    assert_eq!(timer.read_after(MS, VALUE), Ok(8));
}

#[test]
fn periodic_without_load_is_fatal() {
    let mut timer = Timer::new("timer", 32);
    assert_eq!(timer.write_after(0, CONTROL, ENABLE | PERIODIC), Ok(()));
    // No tick yet: nothing to reload.
    assert_eq!(timer.read_after(MS / 4, VALUE), Ok(0));
    // The first tick passes zero and needs the load value.
    assert_eq!(
        timer.read_after(MS / 4, VALUE),
        Err(MemException::Fatal(Misuse::LoadUnset))
    );
    // The failed update comes before the address is looked at.
    assert_eq!(
        timer.read_after(MS, 0x40),
        Err(MemException::Fatal(Misuse::LoadUnset))
    );
    assert_eq!(
        timer.write_after(MS, CONTROL, 0),
        Err(MemException::Fatal(Misuse::LoadUnset))
    );
    assert_eq!(timer.read_register(CONTROL), Ok(ENABLE | PERIODIC));
}

#[test]
fn load_write_while_running_is_fatal() {
    let mut timer = loaded(32, 100, ENABLE);
    assert_eq!(
        timer.write_after(0, LOAD, 7),
        Err(MemException::Fatal(Misuse::LoadWriteWhileEnabled))
    );
    assert_eq!(timer.read_after(0, LOAD), Ok(100));
    assert_eq!(timer.read_after(0, VALUE), Ok(100));
}

#[test]
fn value_write_is_fatal() {
    let mut timer = loaded(32, 100, 0);
    assert_eq!(
        timer.write_after(0, VALUE, 7),
        Err(MemException::Fatal(Misuse::ValueWrite))
    );
    assert_eq!(timer.read_after(0, VALUE), Ok(100));
}

#[test]
fn clear_register_is_unimplemented() {
    let mut timer = loaded(32, 100, 0);
    assert_eq!(timer.read_after(0, CLEAR), Err(MemException::Unimplemented));
    assert_eq!(timer.write_after(0, CLEAR, 1), Err(MemException::Unimplemented));
    assert!(!MemException::Unimplemented.is_fatal());
    assert_eq!(timer.read_after(0, VALUE), Ok(100));
}

#[test]
fn other_offsets_are_unexpected() {
    let mut timer = loaded(32, 100, 0);
    for offset in [0x01u32, 0x02, 0x03, 0x05, 0x10, 0x100, 0xFFFF_FFFC] {
        assert_eq!(timer.read_after(0, offset), Err(MemException::Unexpected));
        assert_eq!(timer.write_after(0, offset, 1), Err(MemException::Unexpected));
    }
    assert_eq!(timer.read_after(0, VALUE), Ok(100));
}

#[test]
fn control_reads_back_its_three_bits() {
    let mut timer = Timer::new("timer", 32);
    for (written, read) in [
        (0x00u32, 0x00u32),
        (0x08, 0x08),
        (0x40, 0x40),
        (0x80, 0x80),
        (0xC8, 0xC8),
        (0xFFFF_FFFF, 0xC8),
        (0x37, 0x00),
        (0x1_0088, 0x88),
    ] {
        assert_eq!(timer.write_register(CONTROL, written), Ok(()));
        assert_eq!(timer.read_register(CONTROL), Ok(read));
    }
}

#[test]
fn control_decodes_and_encodes() {
    let control = Control::decode(0x88);
    assert_eq!(
        control,
        Control { clock: Clock::Khz508, mode: Mode::FreeRunning, enabled: true }
    );
    assert_eq!(control.encode(), 0x88);
    assert_eq!(Control::decode(0x40).mode, Mode::Periodic);
    assert_eq!(Control::decode(0x40).encode(), 0x40);
    assert_eq!(Control::decode(0xFFFF_FF37).encode(), 0);
    assert_eq!(Clock::Khz2.rate_khz(), 2);
    assert_eq!(Clock::Khz508.rate_khz(), 508);
    for clock in [Clock::Khz2, Clock::Khz508] {
        for mode in [Mode::FreeRunning, Mode::Periodic] {
            for enabled in [false, true] {
                let control = Control { clock, mode, enabled };
                assert_eq!(Control::decode(control.encode()), control);
            }
        }
    }
}

#[test]
fn stopping_clears_the_load_value() {
    let mut timer = loaded(32, 100, ENABLE);
    assert_eq!(timer.read_after(0, LOAD), Ok(100));
    assert_eq!(timer.write_after(0, CONTROL, 0), Ok(()));
    assert_eq!(
        timer.read_after(0, LOAD),
        Err(MemException::Fatal(Misuse::LoadUnset))
    );
    // The counter itself stays.
    assert_eq!(timer.read_after(0, VALUE), Ok(100));
}

#[test]
fn control_write_to_a_stopped_timer_clears_the_load_value() {
    let mut timer = Timer::new("timer", 32);
    assert_eq!(timer.write_after(0, LOAD, 9), Ok(()));
    assert_eq!(timer.write_after(0, CONTROL, PERIODIC), Ok(()));
    assert_eq!(
        timer.read_after(0, LOAD),
        Err(MemException::Fatal(Misuse::LoadUnset))
    );
}

#[test]
fn value_stays_within_the_width() {
    let mut timer = Timer::new("timer", 16);
    let mut state: u64 = 0x2545_F491_4F6C_DD1D;
    for _ in 0..2_000 {
        state ^= state << 13;
        state ^= state >> 7;
        state ^= state << 17;
        let offset = [LOAD, VALUE, CONTROL, CLEAR, 0x10][(state % 5) as usize];
        let elapsed = (state >> 8) % (40 * MS);
        let word = (state >> 24) as u32;
        if state & 1 == 0 {
            let _ = timer.write_after(elapsed, offset, word);
        } else {
            let _ = timer.read_after(elapsed, offset);
        }
        let value = timer.read_register(VALUE).unwrap();
        assert!(value <= 0xFFFF);
    }
}

/// Starts a timer from `0xFFFF_FFFF` with the given control word, waits for
/// at least `wait_ms` on the wall clock and reads the value register. Returns
/// the decrement read and the fewest and the most ticks that the time
/// measured around the two accesses allows.
fn run_on_wall_clock(control: u32, khz: u128, wait_ms: u64) -> (u128, u128, u128) {
    let mut timer = Timer::new("timer", 32);
    assert_eq!(timer.w32(LOAD, 0xFFFF_FFFF), Ok(()));
    assert_eq!(timer.r32(LOAD), Ok(0xFFFF_FFFF));
    assert_eq!(timer.r32(VALUE), Ok(0xFFFF_FFFF));
    let before = std::time::Instant::now();
    assert_eq!(timer.w32(CONTROL, control), Ok(()));
    let started = std::time::Instant::now();
    while started.elapsed() < std::time::Duration::from_millis(wait_ms) {}
    let shortest = started.elapsed().as_nanos();
    let value = timer.r32(VALUE).unwrap();
    let longest = before.elapsed().as_nanos();
    let later = timer.r32(VALUE).unwrap();
    assert!(later <= value);
    assert_eq!(timer.r32(CONTROL), Ok(control));
    (
        (0xFFFF_FFFFu32 - value) as u128,
        shortest * khz / 1_000_000,
        longest * khz / 1_000_000,
    )
}

#[test]
fn wall_clock_access_counts_down() {
    let (decrement, fewest, most) = run_on_wall_clock(ENABLE | FAST, 508, 20);
    assert!(fewest >= 20 * 508);
    assert!(fewest <= decrement, "{} ticks, at least {}", decrement, fewest);
    assert!(decrement <= most, "{} ticks, at most {}", decrement, most);
}

#[test]
fn wall_clock_half_second_at_2khz() {
    let (decrement, fewest, most) = run_on_wall_clock(ENABLE, 2, 500);
    assert!(fewest >= 1000);
    assert!(fewest <= decrement, "{} ticks, at least {}", decrement, fewest);
    assert!(decrement <= most, "{} ticks, at most {}", decrement, most);
}

#[test]
fn wall_clock_access_to_other_registers() {
    let mut timer = Timer::new("timer", 32);
    assert_eq!(timer.r32(0x10), Err(MemException::Unexpected));
    assert_eq!(timer.w32(0x10, 0), Err(MemException::Unexpected));
    assert_eq!(timer.r32(CLEAR), Err(MemException::Unimplemented));
    assert_eq!(timer.w32(CLEAR, 0), Err(MemException::Unimplemented));
    assert_eq!(
        timer.w32(VALUE, 0),
        Err(MemException::Fatal(Misuse::ValueWrite))
    );
    assert_eq!(
        timer.r32(LOAD),
        Err(MemException::Fatal(Misuse::LoadUnset))
    );
}

#[test]
fn wall_clock_update_of_a_stopped_timer() {
    let mut timer = Timer::new("timer", 16);
    assert_eq!(timer.w32(LOAD, 77), Ok(()));
    let started = std::time::Instant::now();
    while started.elapsed() < std::time::Duration::from_millis(2) {}
    assert_eq!(timer.update_regs(), Ok(()));
    assert_eq!(timer.r32(VALUE), Ok(77));
}

#[test]
fn exception_kinds() {
    assert!(MemException::Fatal(Misuse::ValueWrite).is_fatal());
    assert!(!MemException::InvalidAccess.is_fatal());
    assert!(!MemException::Unexpected.is_fatal());
    assert!(!MemException::StubRead(0).is_fatal());
    assert!(MemException::StubRead(0).is_stub());
    assert!(MemException::StubWrite.is_stub());
    assert!(!MemException::Unimplemented.is_stub());
    assert!(!MemException::Fatal(Misuse::LoadUnset).is_stub());
}

#[test]
fn half_second_between_two_instants() {
    let mut timer = Timer::new("timer", 32);
    let start = Instant::now();
    assert_eq!(timer.w32_at(start, LOAD, 0xFFFF_FFFF), Ok(()));
    assert_eq!(timer.r32_at(start, VALUE), Ok(0xFFFF_FFFF));
    let enabled = start + Duration::from_millis(250);
    assert_eq!(timer.w32_at(enabled, CONTROL, ENABLE), Ok(()));
    assert_eq!(
        timer.r32_at(enabled + Duration::from_millis(500), VALUE),
        Ok(0xFFFF_FFFF - 1000)
    );
    // The time already counted is not counted again.
    assert_eq!(
        timer.r32_at(enabled + Duration::from_millis(501), VALUE),
        Ok(0xFFFF_FFFF - 1002)
    );
}

#[test]
fn nanoseconds_between_instants_are_exact() {
    let mut timer = Timer::new("timer", 32);
    let start = Instant::now();
    assert_eq!(timer.w32_at(start, LOAD, 1_000_000), Ok(()));
    assert_eq!(timer.w32_at(start, CONTROL, ENABLE | FAST), Ok(()));
    // One tick at 508 kHz takes 1968.5 ns.
    let first = start + Duration::from_nanos(1_968);
    assert_eq!(timer.r32_at(first, VALUE), Ok(1_000_000));
    assert_eq!(timer.r32_at(first + Duration::from_nanos(1), VALUE), Ok(999_999));
    // 3 s and 7 ns more are 1_524_000 ticks, and the counter wraps.
    let later = first + Duration::new(3, 8);
    assert_eq!(
        timer.r32_at(later, VALUE),
        Ok(999_999u32.wrapping_sub(1_524_000))
    );
    // The 3808 sub-tick units left over complete a tick 1962 ns later:
    // 3808 + 1961 * 508 is 999_996, and 508 more pass a million.
    assert_eq!(
        timer.r32_at(later + Duration::from_nanos(1_961), VALUE),
        Ok(999_999u32.wrapping_sub(1_524_000))
    );
    assert_eq!(
        timer.r32_at(later + Duration::from_nanos(1_962), VALUE),
        Ok(999_999u32.wrapping_sub(1_524_001))
    );
}

#[test]
fn time_spent_stopped_is_never_charged() {
    let mut timer = Timer::new("timer", 32);
    let start = Instant::now();
    assert_eq!(timer.w32_at(start, LOAD, 500), Ok(()));
    // Ten seconds pass before the timer is started.
    let enabled = start + Duration::from_secs(10);
    assert_eq!(timer.w32_at(enabled, CONTROL, ENABLE), Ok(()));
    assert_eq!(timer.r32_at(enabled + Duration::from_millis(5), VALUE), Ok(490));

    // The same with an update or a read of the stopped timer in between.
    let mut other = Timer::new("timer", 32);
    assert_eq!(other.w32_at(start, LOAD, 500), Ok(()));
    assert_eq!(other.update_regs_at(start + Duration::from_secs(4)), Ok(()));
    assert_eq!(other.r32_at(start + Duration::from_secs(9), VALUE), Ok(500));
    assert_eq!(other.w32_at(enabled, CONTROL, ENABLE), Ok(()));
    assert_eq!(other.r32_at(enabled + Duration::from_millis(5), VALUE), Ok(490));

    // Stopping and starting again leaves out the time in between.
    let stopped = enabled + Duration::from_millis(10);
    assert_eq!(other.w32_at(stopped, CONTROL, 0), Ok(()));
    assert_eq!(other.r32_at(stopped, VALUE), Ok(480));
    let restarted = stopped + Duration::from_secs(60);
    assert_eq!(other.w32_at(restarted, LOAD, 480), Ok(()));
    assert_eq!(other.w32_at(restarted, CONTROL, ENABLE), Ok(()));
    assert_eq!(other.r32_at(restarted + Duration::from_millis(1), VALUE), Ok(478));
}

#[test]
fn update_at_an_instant_counts_down() {
    let mut timer = Timer::new("timer", 16);
    let start = Instant::now();
    assert_eq!(timer.w32_at(start, LOAD, 100), Ok(()));
    assert_eq!(timer.w32_at(start, CONTROL, ENABLE), Ok(()));
    assert_eq!(timer.update_regs_at(start + Duration::from_millis(20)), Ok(()));
    assert_eq!(timer.read_register(VALUE), Ok(60));
    assert_eq!(timer.sample_at(start + Duration::from_millis(23)), 3_000_000);
    assert_eq!(timer.sample_at(start + Duration::from_millis(23)), 0);
    assert_eq!(timer.read_register(VALUE), Ok(60));
}

#[test]
fn an_earlier_instant_counts_as_no_time() {
    let mut timer = Timer::new("timer", 32);
    let start = Instant::now();
    let later = start + Duration::from_millis(50);
    assert_eq!(timer.w32_at(later, LOAD, 1000), Ok(()));
    assert_eq!(timer.w32_at(later, CONTROL, ENABLE), Ok(()));
    assert_eq!(timer.r32_at(start, VALUE), Ok(1000));
    assert_eq!(timer.sample_at(start), 0);
}

#[test]
fn a_failed_update_still_takes_the_sample() {
    let mut timer = Timer::new("timer", 32);
    let start = Instant::now();
    assert_eq!(timer.w32_at(start, CONTROL, ENABLE | PERIODIC), Ok(()));
    let first = start + Duration::from_millis(1);
    assert_eq!(timer.update_regs_at(first), Err(Misuse::LoadUnset));
    assert_eq!(timer.read_register(VALUE), Ok(0));
    // Less than a tick since the failed update: nothing to reload.
    assert_eq!(timer.update_regs_at(first + Duration::from_micros(400)), Ok(()));
    assert_eq!(
        timer.w32_at(first + Duration::from_micros(900), CONTROL, 0),
        Err(MemException::Fatal(Misuse::LoadUnset))
    );
}
