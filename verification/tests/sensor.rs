use kneplant::sensor::{
    avg_moisture, read_moisture, read_temp_c, SensorError, Temperature, SETTLE_MS,
    STATUS_BASE, STATUS_TEMP, STEPS_PER_DEGREE, TOUCH_BASE, TOUCH_CHANNEL,
};

fn be(value: u16) -> Option<[u8; 2]> {
    Some(value.to_be_bytes())
}

#[test]
fn sensor_registers_and_delays() {
    assert_eq!([TOUCH_BASE, TOUCH_CHANNEL], [0x0F, 0x10]);
    assert_eq!([STATUS_BASE, STATUS_TEMP], [0x00, 0x04]);
    assert_eq!(SETTLE_MS, 10);
    assert_eq!(STEPS_PER_DEGREE, 65_536);
}

#[test]
fn read_moisture_decodes_big_endian() {
    assert_eq!(read_moisture(Some([0x02, 0xE4])), Ok(740));
    assert_eq!(read_moisture(Some([0x01, 0x00])), Ok(256));
    assert_eq!(read_moisture(Some([0x00, 0x01])), Ok(1));
}

#[test]
fn read_moisture_covers_the_whole_range() {
    assert_eq!(read_moisture(Some([0x00, 0x00])), Ok(0));
    assert_eq!(read_moisture(Some([0xFF, 0xFF])), Ok(65_535));
    assert_eq!(read_moisture(Some([0xFF, 0x00])), Ok(65_280));
}

#[test]
fn read_moisture_agrees_with_std_on_every_high_byte() {
    for high in 0..=255u8 {
        for low in [0u8, 1, 127, 128, 255] {
            assert_eq!(read_moisture(Some([high, low])), Ok(u16::from_be_bytes([high, low])));
        }
    }
}

#[test]
fn read_moisture_reports_a_failed_transaction() {
    assert_eq!(read_moisture(None), Err(SensorError::TransientFault));
}

#[test]
fn read_temp_c_decodes_fixed_point() {
    let t = read_temp_c(Some([0x00, 0x19, 0x80, 0x00])).unwrap();
    assert_eq!(t, Temperature { raw: 0x0019_8000 });
    assert_eq!(t.degrees(), 25);
    assert_eq!(t.fraction(), 0x8000);
    assert_eq!(t.raw as f32 / 65_536.0, 25.5);
}

#[test]
fn read_temp_c_is_big_endian_in_every_byte() {
    assert_eq!(read_temp_c(Some([0x01, 0x02, 0x03, 0x04])), Ok(Temperature { raw: 0x0102_0304 }));
    assert_eq!(read_temp_c(Some([0, 0, 0, 0])), Ok(Temperature { raw: 0 }));
    assert_eq!(read_temp_c(Some([0xFF, 0xFF, 0xFF, 0xFF])), Ok(Temperature { raw: u32::MAX }));
    assert_eq!(
        read_temp_c(Some([0x12, 0x34, 0x56, 0x78])),
        Ok(Temperature { raw: u32::from_be_bytes([0x12, 0x34, 0x56, 0x78]) })
    );
}

#[test]
fn read_temp_c_reports_a_failed_transaction() {
    assert_eq!(read_temp_c(None), Err(SensorError::TransientFault));
}

#[test]
fn temperature_splits_into_degrees_and_fraction() {
    let t = Temperature { raw: 21 * 65_536 + 16_384 };
    assert_eq!(t.degrees(), 21);
    assert_eq!(t.fraction(), 16_384);
    let top = Temperature { raw: u32::MAX };
    assert_eq!(top.degrees(), 65_535);
    assert_eq!(top.fraction(), 65_535);
    let zero = Temperature { raw: 0 };
    assert_eq!(zero.degrees(), 0);
    assert_eq!(zero.fraction(), 0);
}

#[test]
fn avg_moisture_is_the_mean_of_all_samples() {
    assert_eq!(avg_moisture(&[be(700), be(740), be(780)]), Ok(740));
    assert_eq!(avg_moisture(&[be(512)]), Ok(512));
}

#[test]
fn avg_moisture_rounds_down() {
    assert_eq!(avg_moisture(&[be(1), be(2)]), Ok(1));
    assert_eq!(avg_moisture(&[be(0), be(0), be(2)]), Ok(0));
    assert_eq!(avg_moisture(&[be(10), be(11), be(11)]), Ok(10));
}

#[test]
fn avg_moisture_discards_failed_samples() {
    assert_eq!(avg_moisture(&[be(700), None, be(741)]), Ok(720));
    assert_eq!(avg_moisture(&[None, None, be(333)]), Ok(333));
    assert_eq!(avg_moisture(&[None, be(100), None, be(300), None]), Ok(200));
}

#[test]
fn avg_moisture_fails_only_if_every_sample_failed() {
    assert_eq!(avg_moisture(&[None, None, None]), Err(SensorError::AllSamplesFailed));
    assert_eq!(avg_moisture(&[None]), Err(SensorError::AllSamplesFailed));
    assert_eq!(avg_moisture(&[None, be(0)]), Ok(0));
}

#[test]
fn avg_moisture_of_no_samples_fails() {
    assert_eq!(avg_moisture(&[]), Err(SensorError::AllSamplesFailed));
}

#[test]
fn avg_moisture_does_not_overflow_on_long_rounds() {
    let replies = vec![be(65_535); 70_000];
    assert_eq!(avg_moisture(&replies), Ok(65_535));
    let mut mixed = vec![be(65_535); 70_000];
    mixed.extend(vec![be(0); 70_000]);
    mixed.extend(vec![None; 10]);
    assert_eq!(avg_moisture(&mixed), Ok(32_767));
}
