use kneplant::hw::{
    init_hw, set_with_polarity, HwInit, Level, Output, PinWrite, PolarityConfig, Wiring,
};

const ACTIVE_LOW: PolarityConfig = PolarityConfig { active_low: true };
const ACTIVE_HIGH: PolarityConfig = PolarityConfig { active_low: false };

#[test]
fn active_low_output_is_on_when_low() {
    assert_eq!(set_with_polarity(true, true), Level::Low);
    assert_eq!(set_with_polarity(false, true), Level::High);
}

#[test]
fn active_high_output_is_on_when_high() {
    assert_eq!(set_with_polarity(true, false), Level::High);
    assert_eq!(set_with_polarity(false, false), Level::Low);
}

#[test]
fn relay_follows_its_own_polarity() {
    for pump in [ACTIVE_LOW, ACTIVE_HIGH] {
        let wiring = Wiring::RelayAndPump { relay: ACTIVE_LOW, pump };
        assert_eq!(wiring.set_relay(true), PinWrite { output: Output::Relay, level: Level::Low });
        assert_eq!(wiring.set_relay(false), PinWrite { output: Output::Relay, level: Level::High });
        let wiring = Wiring::RelayAndPump { relay: ACTIVE_HIGH, pump };
        assert_eq!(wiring.set_relay(true), PinWrite { output: Output::Relay, level: Level::High });
        assert_eq!(wiring.set_relay(false), PinWrite { output: Output::Relay, level: Level::Low });
    }
}

#[test]
fn pump_output_follows_its_own_polarity() {
    for relay in [ACTIVE_LOW, ACTIVE_HIGH] {
        let wiring = Wiring::RelayAndPump { relay, pump: ACTIVE_LOW };
        assert_eq!(
            wiring.set_pump(true),
            Some(PinWrite { output: Output::Pump, level: Level::Low })
        );
        assert_eq!(
            wiring.set_pump(false),
            Some(PinWrite { output: Output::Pump, level: Level::High })
        );
        let wiring = Wiring::RelayAndPump { relay, pump: ACTIVE_HIGH };
        assert_eq!(
            wiring.set_pump(true),
            Some(PinWrite { output: Output::Pump, level: Level::High })
        );
        assert_eq!(
            wiring.set_pump(false),
            Some(PinWrite { output: Output::Pump, level: Level::Low })
        );
    }
}

#[test]
fn relay_only_wiring_has_no_pump_output() {
    let wiring = Wiring::RelayOnly { relay: ACTIVE_LOW };
    assert!(!wiring.has_pump());
    assert_eq!(wiring.set_pump(true), None);
    assert_eq!(wiring.set_pump(false), None);
    assert_eq!(wiring.set_relay(true), PinWrite { output: Output::Relay, level: Level::Low });
    let wiring = Wiring::RelayOnly { relay: ACTIVE_HIGH };
    assert_eq!(wiring.set_relay(true), PinWrite { output: Output::Relay, level: Level::High });
    assert!(Wiring::RelayAndPump { relay: ACTIVE_LOW, pump: ACTIVE_LOW }.has_pump());
}

#[test]
fn init_hw_switches_every_output_off() {
    let wiring = Wiring::RelayAndPump { relay: ACTIVE_LOW, pump: ACTIVE_HIGH };
    assert_eq!(
        init_hw(&wiring, 400_000),
        HwInit {
            i2c_baud_hz: 400_000,
            relay: PinWrite { output: Output::Relay, level: Level::High },
            pump: Some(PinWrite { output: Output::Pump, level: Level::Low }),
        }
    );
    let wiring = Wiring::RelayAndPump { relay: ACTIVE_HIGH, pump: ACTIVE_LOW };
    let init = init_hw(&wiring, 100_000);
    assert_eq!(init.relay.level, Level::Low);
    assert_eq!(init.pump.unwrap().level, Level::High);
}

#[test]
fn init_hw_on_relay_only_wiring() {
    let init = init_hw(&Wiring::RelayOnly { relay: ACTIVE_HIGH }, 400_000);
    assert_eq!(init.relay, PinWrite { output: Output::Relay, level: Level::Low });
    assert_eq!(init.pump, None);
}

#[test]
fn init_hw_keeps_the_bus_rate_above_zero() {
    let wiring = Wiring::RelayOnly { relay: ACTIVE_LOW };
    assert_eq!(init_hw(&wiring, 0).i2c_baud_hz, 1);
    assert_eq!(init_hw(&wiring, 1).i2c_baud_hz, 1);
    assert_eq!(init_hw(&wiring, 2).i2c_baud_hz, 2);
    assert_eq!(init_hw(&wiring, u32::MAX).i2c_baud_hz, u32::MAX);
}
