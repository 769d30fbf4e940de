use tmag5170::alert_config::{AlertConfig, AlertLatch, AlertMode, ThrxCount};
use tmag5170::bits::{flag_code, put_field};
use tmag5170::device_config::{ConvAvg, DeviceConfig, MagTempco, OperatingMode, TRate};
use tmag5170::sensor_config::{AngleEn, MagChEn, Range, SensorConfig, SleepTime};
use tmag5170::system_config::{DataType, DiagSel, SystemConfig, TriggerMode};

#[test]
fn put_field_writes_the_field_and_nothing_else() {
    assert_eq!(put_field(0x0000, 0b111, 12, 5), 0x5000);
    assert_eq!(put_field(0xFFFF, 0b111, 12, 5), 0xDFFF);
    assert_eq!(put_field(0xFFFF, 0b111, 12, 0), 0x8FFF);
    assert_eq!(put_field(0x0000, 0b1, 15, 1), 0x8000);
    assert_eq!(put_field(0xFFFF, 0b1, 0, 0), 0xFFFE);
    assert_eq!(put_field(0x1234, 0b1111, 4, 0xA), 0x12A4);
    assert_eq!(put_field(0x1234, 0b11, 14, 3), 0xD234);
}

#[test]
fn put_field_last_write_wins() {
    let first = put_field(0xA5A5, 0b1111, 6, 0xF);
    assert_eq!(put_field(first, 0b1111, 6, 0x3), put_field(0xA5A5, 0b1111, 6, 0x3));
}

#[test]
fn flag_code_is_zero_or_one() {
    assert_eq!(flag_code(false), 0);
    assert_eq!(flag_code(true), 1);
}

#[test]
fn defaults_are_zero() {
    assert_eq!(DeviceConfig::new().to_u16(), 0x0000);
    assert_eq!(SensorConfig::new().to_u16(), 0x0000);
    assert_eq!(SystemConfig::new().to_u16(), 0x0000);
    assert_eq!(AlertConfig::new().to_u16(), 0x0000);
}

#[test]
fn words_pass_through_unchanged() {
    for word in [0x0000u16, 0x0001, 0x8000, 0x1234, 0xA5A5, 0xFFFF] {
        assert_eq!(DeviceConfig::form_u16(word).to_u16(), word);
        assert_eq!(SensorConfig::form_u16(word).to_u16(), word);
        assert_eq!(SystemConfig::form_u16(word).to_u16(), word);
        assert_eq!(AlertConfig::form_u16(word).to_u16(), word);
    }
}

#[test]
fn device_codes() {
    assert_eq!(ConvAvg::Avg1x.code(), 0);
    assert_eq!(ConvAvg::Avg2x.code(), 1);
    assert_eq!(ConvAvg::Avg4x.code(), 2);
    assert_eq!(ConvAvg::Avg8x.code(), 3);
    assert_eq!(ConvAvg::Avg16x.code(), 4);
    assert_eq!(ConvAvg::Avg32x.code(), 5);
    assert_eq!(MagTempco::CurrentSensor.code(), 0);
    assert_eq!(MagTempco::NdBFe.code(), 1);
    assert_eq!(MagTempco::Ceramic.code(), 3);
    assert_eq!(OperatingMode::Configuration.code(), 0);
    assert_eq!(OperatingMode::Standby.code(), 1);
    assert_eq!(OperatingMode::Active.code(), 2);
    assert_eq!(OperatingMode::ActiveTrigger.code(), 3);
    assert_eq!(OperatingMode::WakeupAndSleep.code(), 4);
    assert_eq!(OperatingMode::Sleep.code(), 5);
    assert_eq!(OperatingMode::DeepSleep.code(), 6);
    assert_eq!(TRate::SameRate.code(), 0);
    assert_eq!(TRate::OncePerConvSet.code(), 1);
}

#[test]
fn device_setters_on_the_default() {
    assert_eq!(DeviceConfig::new().set_conv_avg(ConvAvg::Avg32x).to_u16(), 0x5000);
    assert_eq!(DeviceConfig::new().set_mag_tempco(MagTempco::Ceramic).to_u16(), 0x0300);
    assert_eq!(DeviceConfig::new().set_operating_mode(OperatingMode::DeepSleep).to_u16(), 0x0060);
    assert_eq!(DeviceConfig::new().set_t_en(true).to_u16(), 0x0008);
    assert_eq!(DeviceConfig::new().set_t_rate(TRate::OncePerConvSet).to_u16(), 0x0004);
    assert_eq!(DeviceConfig::new().set_t_limit_check_en(true).to_u16(), 0x0002);
    assert_eq!(DeviceConfig::new().set_t_comp_en(true).to_u16(), 0x0001);
}

#[test]
fn device_setters_clear_their_field_only() {
    let full = DeviceConfig::form_u16(0xFFFF);
    assert_eq!(full.set_conv_avg(ConvAvg::Avg1x).to_u16(), 0x8FFF);
    assert_eq!(full.set_mag_tempco(MagTempco::CurrentSensor).to_u16(), 0xFCFF);
    assert_eq!(full.set_operating_mode(OperatingMode::Configuration).to_u16(), 0xFF8F);
    assert_eq!(full.set_t_en(false).to_u16(), 0xFFF7);
    assert_eq!(full.set_t_rate(TRate::SameRate).to_u16(), 0xFFFB);
    assert_eq!(full.set_t_limit_check_en(false).to_u16(), 0xFFFD);
    assert_eq!(full.set_t_comp_en(false).to_u16(), 0xFFFE);
}

#[test]
fn device_chain() {
    let config = DeviceConfig::new()
        .set_conv_avg(ConvAvg::Avg32x)
        .set_mag_tempco(MagTempco::NdBFe)
        .set_operating_mode(OperatingMode::Active)
        .set_t_en(true)
        .set_t_rate(TRate::OncePerConvSet)
        .set_t_limit_check_en(false)
        .set_t_comp_en(true);
    assert_eq!(config.to_u16(), 0x512D);
}

#[test]
fn device_last_write_wins() {
    let config = DeviceConfig::new()
        .set_operating_mode(OperatingMode::DeepSleep)
        .set_conv_avg(ConvAvg::Avg16x)
        .set_operating_mode(OperatingMode::Standby);
    assert_eq!(config.to_u16(), 0x4010);
}

#[test]
fn sensor_codes() {
    assert_eq!(AngleEn::NoAngle.code(), 0);
    assert_eq!(AngleEn::XY.code(), 1);
    assert_eq!(AngleEn::YZ.code(), 2);
    assert_eq!(AngleEn::ZX.code(), 3);
    let sleep = [
        SleepTime::Ms1,
        SleepTime::Ms5,
        SleepTime::Ms10,
        SleepTime::Ms15,
        SleepTime::Ms20,
        SleepTime::Ms30,
        SleepTime::Ms50,
        SleepTime::Ms100,
        SleepTime::Ms500,
        SleepTime::Ms1000,
    ];
    for (code, setting) in sleep.iter().enumerate() {
        assert_eq!(setting.code() as usize, code);
    }
    let channels = [
        MagChEn::Off,
        MagChEn::X,
        MagChEn::Y,
        MagChEn::XY,
        MagChEn::Z,
        MagChEn::ZX,
        MagChEn::YZ,
        MagChEn::XYZ,
        MagChEn::XYX,
        MagChEn::YXY,
        MagChEn::YZY,
        MagChEn::ZYZ,
        MagChEn::ZXZ,
        MagChEn::XZX,
        MagChEn::XYZYX,
        MagChEn::XYZZYX,
    ];
    for (code, setting) in channels.iter().enumerate() {
        assert_eq!(setting.code() as usize, code);
    }
    assert_eq!(Range::A1_50mT_A2_200mT.code(), 0);
    assert_eq!(Range::A1_25mT_A2_133mT.code(), 1);
    assert_eq!(Range::A1_100mT_A2_300mT.code(), 2);
}

#[test]
fn sensor_setters_on_the_default() {
    assert_eq!(SensorConfig::new().set_angle_en(AngleEn::ZX).to_u16(), 0xC000);
    assert_eq!(SensorConfig::new().set_sleep_time(SleepTime::Ms1000).to_u16(), 0x2400);
    assert_eq!(SensorConfig::new().set_mag_ch_en(MagChEn::XYZZYX).to_u16(), 0x03C0);
    assert_eq!(SensorConfig::new().set_z_range(Range::A1_100mT_A2_300mT).to_u16(), 0x0020);
    assert_eq!(SensorConfig::new().set_y_range(Range::A1_100mT_A2_300mT).to_u16(), 0x0008);
    assert_eq!(SensorConfig::new().set_x_range(Range::A1_100mT_A2_300mT).to_u16(), 0x0002);
}

#[test]
fn sensor_setters_clear_their_field_only() {
    let full = SensorConfig::form_u16(0xFFFF);
    assert_eq!(full.set_angle_en(AngleEn::NoAngle).to_u16(), 0x3FFF);
    assert_eq!(full.set_sleep_time(SleepTime::Ms1).to_u16(), 0xC3FF);
    assert_eq!(full.set_mag_ch_en(MagChEn::Off).to_u16(), 0xFC3F);
    assert_eq!(full.set_z_range(Range::A1_50mT_A2_200mT).to_u16(), 0xFFCF);
    assert_eq!(full.set_y_range(Range::A1_50mT_A2_200mT).to_u16(), 0xFFF3);
    assert_eq!(full.set_x_range(Range::A1_50mT_A2_200mT).to_u16(), 0xFFFC);
}

#[test]
fn sensor_chain() {
    let config = SensorConfig::new()
        .set_angle_en(AngleEn::XY)
        .set_sleep_time(SleepTime::Ms500)
        .set_mag_ch_en(MagChEn::XYZ)
        .set_z_range(Range::A1_100mT_A2_300mT)
        .set_y_range(Range::A1_100mT_A2_300mT)
        .set_x_range(Range::A1_100mT_A2_300mT);
    assert_eq!(config.to_u16(), 0x61EA);
}

#[test]
fn system_codes() {
    assert_eq!(DiagSel::AllData.code(), 0);
    assert_eq!(DiagSel::EnabledData.code(), 1);
    assert_eq!(DiagSel::AllDataInSeq.code(), 2);
    assert_eq!(DiagSel::EnabledDataInSeq.code(), 3);
    assert_eq!(TriggerMode::SPI.code(), 0);
    assert_eq!(TriggerMode::CS.code(), 1);
    assert_eq!(TriggerMode::ALERT.code(), 2);
    assert_eq!(DataType::Default.code(), 0);
    assert_eq!(DataType::XY.code(), 1);
    assert_eq!(DataType::XZ.code(), 2);
    assert_eq!(DataType::ZY.code(), 3);
    assert_eq!(DataType::XT.code(), 4);
    assert_eq!(DataType::YT.code(), 5);
    assert_eq!(DataType::ZT.code(), 6);
    assert_eq!(DataType::AM.code(), 7);
}

#[test]
fn system_setters_on_the_default() {
    assert_eq!(SystemConfig::new().set_diag_sel(DiagSel::EnabledDataInSeq).to_u16(), 0x3000);
    assert_eq!(SystemConfig::new().set_trigger_mode(TriggerMode::ALERT).to_u16(), 0x0400);
    assert_eq!(SystemConfig::new().set_data_type(DataType::AM).to_u16(), 0x01C0);
    assert_eq!(SystemConfig::new().set_diag_en(true).to_u16(), 0x0020);
    assert_eq!(SystemConfig::new().set_t_z_limit_check(true).to_u16(), 0x0004);
    assert_eq!(SystemConfig::new().set_t_y_limit_check(true).to_u16(), 0x0002);
    assert_eq!(SystemConfig::new().set_t_x_limit_check(true).to_u16(), 0x0001);
}

#[test]
fn system_setters_clear_their_field_only() {
    let full = SystemConfig::form_u16(0xFFFF);
    assert_eq!(full.set_diag_sel(DiagSel::AllData).to_u16(), 0xCFFF);
    assert_eq!(full.set_trigger_mode(TriggerMode::SPI).to_u16(), 0xF9FF);
    assert_eq!(full.set_data_type(DataType::Default).to_u16(), 0xFE3F);
    assert_eq!(full.set_diag_en(false).to_u16(), 0xFFDF);
    assert_eq!(full.set_t_z_limit_check(false).to_u16(), 0xFFFB);
    assert_eq!(full.set_t_y_limit_check(false).to_u16(), 0xFFFD);
    assert_eq!(full.set_t_x_limit_check(false).to_u16(), 0xFFFE);
}

#[test]
fn system_chain() {
    let config = SystemConfig::new()
        .set_diag_sel(DiagSel::AllDataInSeq)
        .set_trigger_mode(TriggerMode::SPI)
        .set_data_type(DataType::AM)
        .set_diag_sel(DiagSel::AllDataInSeq)
        .set_diag_en(false)
        .set_t_z_limit_check(false)
        .set_t_y_limit_check(false)
        .set_t_x_limit_check(false);
    assert_eq!(config.to_u16(), 0x21C0);
}

#[test]
fn alert_codes() {
    assert_eq!(AlertLatch::NotLatched.code(), 0);
    assert_eq!(AlertLatch::Latched.code(), 1);
    assert_eq!(AlertMode::Interrupt.code(), 0);
    assert_eq!(AlertMode::Comparator.code(), 1);
    assert_eq!(ThrxCount::ConvResult1.code(), 0);
    assert_eq!(ThrxCount::ConvResult2.code(), 1);
    assert_eq!(ThrxCount::ConvResult3.code(), 2);
    assert_eq!(ThrxCount::ConvResult4.code(), 3);
}

#[test]
fn alert_setters_on_the_default() {
    assert_eq!(AlertConfig::new().set_alert_latch(AlertLatch::Latched).to_u16(), 0x2000);
    assert_eq!(AlertConfig::new().set_alert_mode(AlertMode::Comparator).to_u16(), 0x1000);
    assert_eq!(AlertConfig::new().set_status_alrt_enable(true).to_u16(), 0x0800);
    assert_eq!(AlertConfig::new().set_rslt_alrt_enable(true).to_u16(), 0x0100);
    assert_eq!(AlertConfig::new().set_thrx_count(ThrxCount::ConvResult4).to_u16(), 0x0030);
    assert_eq!(AlertConfig::new().set_t_thrx_alrt_enable(true).to_u16(), 0x0008);
    assert_eq!(AlertConfig::new().set_z_thrx_alrt_enable(true).to_u16(), 0x0004);
    assert_eq!(AlertConfig::new().set_y_thrx_alrt_enable(true).to_u16(), 0x0002);
    assert_eq!(AlertConfig::new().set_x_thrx_alrt_enable(true).to_u16(), 0x0001);
}

#[test]
fn alert_setters_clear_their_field_only() {
    let full = AlertConfig::form_u16(0xFFFF);
    assert_eq!(full.set_alert_latch(AlertLatch::NotLatched).to_u16(), 0xDFFF);
    assert_eq!(full.set_alert_mode(AlertMode::Interrupt).to_u16(), 0xEFFF);
    assert_eq!(full.set_status_alrt_enable(false).to_u16(), 0xF7FF);
    assert_eq!(full.set_rslt_alrt_enable(false).to_u16(), 0xFEFF);
    assert_eq!(full.set_thrx_count(ThrxCount::ConvResult1).to_u16(), 0xFFCF);
    assert_eq!(full.set_t_thrx_alrt_enable(false).to_u16(), 0xFFF7);
    assert_eq!(full.set_z_thrx_alrt_enable(false).to_u16(), 0xFFFB);
    assert_eq!(full.set_y_thrx_alrt_enable(false).to_u16(), 0xFFFD);
    assert_eq!(full.set_x_thrx_alrt_enable(false).to_u16(), 0xFFFE);
}

#[test]
fn alert_chain() {
    let config = AlertConfig::new()
        .set_alert_latch(AlertLatch::NotLatched)
        .set_alert_mode(AlertMode::Interrupt)
        .set_rslt_alrt_enable(true);
    assert_eq!(config.to_u16(), 0x0100);
}

#[test]
fn setting_a_field_twice_equals_setting_it_once() {
    let word = 0x9E37;
    assert_eq!(
        SensorConfig::form_u16(word)
            .set_sleep_time(SleepTime::Ms15)
            .set_sleep_time(SleepTime::Ms100)
            .to_u16(),
        SensorConfig::form_u16(word).set_sleep_time(SleepTime::Ms100).to_u16()
    );
}

#[test]
fn setters_of_different_fields_commute() {
    let word = 0x9E37;
    assert_eq!(
        AlertConfig::form_u16(word)
            .set_thrx_count(ThrxCount::ConvResult3)
            .set_alert_latch(AlertLatch::Latched)
            .to_u16(),
        AlertConfig::form_u16(word)
            .set_alert_latch(AlertLatch::Latched)
            .set_thrx_count(ThrxCount::ConvResult3)
            .to_u16()
    );
}
