use fortelion::{
    BatteryState, Error, FailState, FailStatus, FailStatus1, FailStatus2, FailStatus3,
    FailStatusItem, Temperature,
};

#[test]
fn test_over_current_discharge_detection_65a() {
    let status = FailStatus1(0x00);
    assert_eq!(status.over_current_discharge_detection_65a(), FailState::Good);
    let status = FailStatus1(0xff);
    assert_eq!(status.over_current_discharge_detection_65a(), FailState::Ng);
    let status = FailStatus1(0b00000001);
    assert_eq!(status.over_current_discharge_detection_65a(), FailState::Ng);
    let status = FailStatus1(0b11111110);
    assert_eq!(status.over_current_discharge_detection_65a(), FailState::Good);
}

#[test]
fn test_over_current_discharge_detection_90a() {
    let status = FailStatus1(0x00);
    assert_eq!(status.over_current_discharge_detection_90a(), FailState::Good);
    let status = FailStatus1(0xff);
    assert_eq!(status.over_current_discharge_detection_90a(), FailState::Ng);
    let status = FailStatus1(0b00000010);
    assert_eq!(status.over_current_discharge_detection_90a(), FailState::Ng);
    let status = FailStatus1(0b11111101);
    assert_eq!(status.over_current_discharge_detection_90a(), FailState::Good);
}

#[test]
fn test_over_charge_protection() {
    let status = FailStatus1(0x00);
    assert_eq!(status.over_charge_protection(), FailState::Good);
    let status = FailStatus1(0xff);
    assert_eq!(status.over_charge_protection(), FailState::Ng);
    let status = FailStatus1(0b00000100);
    assert_eq!(status.over_charge_protection(), FailState::Ng);
    let status = FailStatus1(0b11111011);
    assert_eq!(status.over_charge_protection(), FailState::Good);
}

#[test]
fn test_over_current_charge_detection_45a() {
    let status = FailStatus1(0x00);
    assert_eq!(status.over_current_charge_detection_45a(), FailState::Good);
    let status = FailStatus1(0xff);
    assert_eq!(status.over_current_charge_detection_45a(), FailState::Ng);
    let status = FailStatus1(0b00001000);
    assert_eq!(status.over_current_charge_detection_45a(), FailState::Ng);
    let status = FailStatus1(0b11110111);
    assert_eq!(status.over_current_charge_detection_45a(), FailState::Good);
}

#[test]
fn test_over_temperature_discharge_detection() {
    let status = FailStatus1(0x00);
    assert_eq!(status.over_temperature_discharge_detection(), FailState::Good);
    let status = FailStatus1(0xff);
    assert_eq!(status.over_temperature_discharge_detection(), FailState::Ng);
    let status = FailStatus1(0b00010000);
    assert_eq!(status.over_temperature_discharge_detection(), FailState::Ng);
    let status = FailStatus1(0b11101111);
    assert_eq!(status.over_temperature_discharge_detection(), FailState::Good);
}

#[test]
fn test_low_voltage_detection() {
    let status = FailStatus1(0x00);
    assert_eq!(status.low_voltage_detection(), FailState::Good);
    let status = FailStatus1(0xff);
    assert_eq!(status.low_voltage_detection(), FailState::Ng);
    let status = FailStatus1(0b00100000);
    assert_eq!(status.low_voltage_detection(), FailState::Ng);
    let status = FailStatus1(0b11011111);
    assert_eq!(status.low_voltage_detection(), FailState::Good);
}

#[test]
fn test_fully_charge_detection() {
    let status = FailStatus1(0x00);
    assert_eq!(status.fully_charge_detection(), FailState::Good);
    let status = FailStatus1(0xff);
    assert_eq!(status.fully_charge_detection(), FailState::Ng);
    let status = FailStatus1(0b01000000);
    assert_eq!(status.fully_charge_detection(), FailState::Ng);
    let status = FailStatus1(0b10111111);
    assert_eq!(status.fully_charge_detection(), FailState::Good);
}

#[test]
fn test_over_current_discharge_detection_200a() {
    let status = FailStatus1(0x00);
    assert_eq!(
        status.over_current_discharge_detection_200a(),
        FailState::Good
    );
    let status = FailStatus1(0xff);
    assert_eq!(
        status.over_current_discharge_detection_200a(),
        FailState::Ng
    );
    let status = FailStatus1(0b10000000);
    assert_eq!(
        status.over_current_discharge_detection_200a(),
        FailState::Ng
    );
    let status = FailStatus1(0b01111111);
    assert_eq!(
        status.over_current_discharge_detection_200a(),
        FailState::Good
    );
}

#[test]
fn test_over_current_discharge_detection_110a() {
    let status = FailStatus2(0x00);
    assert_eq!(
        status.over_current_discharge_detection_110a(),
        FailState::Good
    );
    let status = FailStatus2(0xff);
    assert_eq!(
        status.over_current_discharge_detection_110a(),
        FailState::Ng
    );
    let status = FailStatus2(0b00000001);
    assert_eq!(
        status.over_current_discharge_detection_110a(),
        FailState::Ng
    );
    let status = FailStatus2(0b11111110);
    assert_eq!(
        status.over_current_discharge_detection_110a(),
        FailState::Good
    );
}

#[test]
fn test_over_current_charge_detection_65a() {
    let status = FailStatus2(0x00);
    assert_eq!(status.over_current_charge_detection_65a(), FailState::Good);
    let status = FailStatus2(0xff);
    assert_eq!(status.over_current_charge_detection_65a(), FailState::Ng);
    let status = FailStatus2(0b00000010);
    assert_eq!(status.over_current_charge_detection_65a(), FailState::Ng);
    let status = FailStatus2(0b11111101);
    assert_eq!(status.over_current_charge_detection_65a(), FailState::Good);
}

#[test]
fn test_over_temperature_charge_detection() {
    let status = FailStatus2(0x00);
    assert_eq!(status.over_temperature_charge_detection(), FailState::Good);
    let status = FailStatus2(0xff);
    assert_eq!(status.over_temperature_charge_detection(), FailState::Ng);
    let status = FailStatus2(0b00000100);
    assert_eq!(status.over_temperature_charge_detection(), FailState::Ng);
    let status = FailStatus2(0b11111011);
    assert_eq!(status.over_temperature_charge_detection(), FailState::Good);
}

#[test]
fn test_cell_unbalance_detection() {
    let status = FailStatus2(0x00);
    assert_eq!(status.cell_unbalance_detection(), FailState::Good);
    let status = FailStatus2(0xff);
    assert_eq!(status.cell_unbalance_detection(), FailState::Ng);
    let status = FailStatus2(0b00001000);
    assert_eq!(status.cell_unbalance_detection(), FailState::Ng);
    let status = FailStatus2(0b11110111);
    assert_eq!(status.cell_unbalance_detection(), FailState::Good);
}

#[test]
fn test_over_charge() {
    let status = FailStatus2(0x00);
    assert_eq!(status.over_charge(), FailState::Good);
    let status = FailStatus2(0xff);
    assert_eq!(status.over_charge(), FailState::Ng);
    let status = FailStatus2(0b00010000);
    assert_eq!(status.over_charge(), FailState::Ng);
    let status = FailStatus2(0b11101111);
    assert_eq!(status.over_charge(), FailState::Good);
}

#[test]
fn test_deep_discharge() {
    let status = FailStatus2(0x00);
    assert_eq!(status.deep_discharge(), FailState::Good);
    let status = FailStatus2(0xff);
    assert_eq!(status.deep_discharge(), FailState::Ng);
    let status = FailStatus2(0b00100000);
    assert_eq!(status.deep_discharge(), FailState::Ng);
    let status = FailStatus2(0b11011111);
    assert_eq!(status.deep_discharge(), FailState::Good);
}

#[test]
fn test_fuse_blown() {
    let status = FailStatus2(0x00);
    assert_eq!(status.fuse_blown(), FailState::Good);
    let status = FailStatus2(0xff);
    assert_eq!(status.fuse_blown(), FailState::Ng);
    let status = FailStatus2(0b01000000);
    assert_eq!(status.fuse_blown(), FailState::Ng);
    let status = FailStatus2(0b10111111);
    assert_eq!(status.fuse_blown(), FailState::Good);
}

#[test]
fn test_fet_uncontrol() {
    let status = FailStatus2(0x00);
    assert_eq!(status.fet_uncontrol(), FailState::Good);
    let status = FailStatus2(0xff);
    assert_eq!(status.fet_uncontrol(), FailState::Ng);
    let status = FailStatus2(0b10000000);
    assert_eq!(status.fet_uncontrol(), FailState::Ng);
    let status = FailStatus2(0b01111111);
    assert_eq!(status.fet_uncontrol(), FailState::Good);
}

#[test]
fn test_self_test_clock_fail() {
    let status = FailStatus3(0x00);
    assert_eq!(status.self_test_clock_fail(), FailState::Good);
    let status = FailStatus3(0xff);
    assert_eq!(status.self_test_clock_fail(), FailState::Ng);
    let status = FailStatus3(0b00000001);
    assert_eq!(status.self_test_clock_fail(), FailState::Ng);
    let status = FailStatus3(0b11111110);
    assert_eq!(status.self_test_clock_fail(), FailState::Good);
}

#[test]
fn test_self_test_rom_fail() {
    let status = FailStatus3(0x00);
    assert_eq!(status.self_test_rom_fail(), FailState::Good);
    let status = FailStatus3(0xff);
    assert_eq!(status.self_test_rom_fail(), FailState::Ng);
    let status = FailStatus3(0b00000010);
    assert_eq!(status.self_test_rom_fail(), FailState::Ng);
    let status = FailStatus3(0b11111101);
    assert_eq!(status.self_test_rom_fail(), FailState::Good);
}

#[test]
fn test_self_test_register_fail() {
    let status = FailStatus3(0x00);
    assert_eq!(status.self_test_register_fail(), FailState::Good);
    let status = FailStatus3(0xff);
    assert_eq!(status.self_test_register_fail(), FailState::Ng);
    let status = FailStatus3(0b00000100);
    assert_eq!(status.self_test_register_fail(), FailState::Ng);
    let status = FailStatus3(0b11111011);
    assert_eq!(status.self_test_register_fail(), FailState::Good);
}

#[test]
fn test_self_test_psw_register_fail() {
    let status = FailStatus3(0x00);
    assert_eq!(status.self_test_psw_register_fail(), FailState::Good);
    let status = FailStatus3(0xff);
    assert_eq!(status.self_test_psw_register_fail(), FailState::Ng);
    let status = FailStatus3(0b00001000);
    assert_eq!(status.self_test_psw_register_fail(), FailState::Ng);
    let status = FailStatus3(0b11110111);
    assert_eq!(status.self_test_psw_register_fail(), FailState::Good);
}

#[test]
fn test_self_test_stack_register_fail() {
    let status = FailStatus3(0x00);
    assert_eq!(status.self_test_stack_register_fail(), FailState::Good);
    let status = FailStatus3(0xff);
    assert_eq!(status.self_test_stack_register_fail(), FailState::Ng);
    let status = FailStatus3(0b00010000);
    assert_eq!(status.self_test_stack_register_fail(), FailState::Ng);
    let status = FailStatus3(0b11101111);
    assert_eq!(status.self_test_stack_register_fail(), FailState::Good);
}

#[test]
fn test_self_test_cs_register_fail() {
    let status = FailStatus3(0x00);
    assert_eq!(status.self_test_cs_register_fail(), FailState::Good);
    let status = FailStatus3(0xff);
    assert_eq!(status.self_test_cs_register_fail(), FailState::Ng);
    let status = FailStatus3(0b00100000);
    assert_eq!(status.self_test_cs_register_fail(), FailState::Ng);
    let status = FailStatus3(0b11011111);
    assert_eq!(status.self_test_cs_register_fail(), FailState::Good);
}

#[test]
fn test_self_test_es_register_fail() {
    let status = FailStatus3(0x00);
    assert_eq!(status.self_test_es_register_fail(), FailState::Good);
    let status = FailStatus3(0xff);
    assert_eq!(status.self_test_es_register_fail(), FailState::Ng);
    let status = FailStatus3(0b01000000);
    assert_eq!(status.self_test_es_register_fail(), FailState::Ng);
    let status = FailStatus3(0b10111111);
    assert_eq!(status.self_test_es_register_fail(), FailState::Good);
}

#[test]
fn test_self_test_ram_fail_df_fail() {
    let status = FailStatus3(0x00);
    assert_eq!(status.self_test_ram_fail_df_fail(), FailState::Good);
    let status = FailStatus3(0xff);
    assert_eq!(status.self_test_ram_fail_df_fail(), FailState::Ng);
    let status = FailStatus3(0b10000000);
    assert_eq!(status.self_test_ram_fail_df_fail(), FailState::Ng);
    let status = FailStatus3(0b01111111);
    assert_eq!(status.self_test_ram_fail_df_fail(), FailState::Good);
}


struct MockBatteryState(Option<u8>, Option<u8>, Option<u8>);

impl BatteryState for MockBatteryState {
    fn cell_voltages(&self) -> Result<Vec<u32>, Error> {
        Ok(Default::default())
    }

    fn current(&self) -> Result<i32, Error> {
        Ok(Default::default())
    }

    fn temperature(&self) -> Result<Temperature, Error> {
        Ok(Temperature::Degrees(0))
    }

    fn remaining_capacity(&self) -> Result<u32, Error> {
        Ok(Default::default())
    }

    fn full_charge_capacity(&self) -> Result<u32, Error> {
        Ok(Default::default())
    }

    fn design_capacity(&self) -> Result<u32, Error> {
        Ok(Default::default())
    }

    fn absolute_state_of_charge(&self) -> Result<u32, Error> {
        Ok(Default::default())
    }

    fn relative_state_of_charge(&self) -> Result<u32, Error> {
        Ok(Default::default())
    }

    fn state_of_health(&self) -> Result<u32, Error> {
        Ok(Default::default())
    }

    fn bm_voltage(&self) -> Result<u32, Error> {
        Ok(Default::default())
    }

    fn fail_status_1(&self) -> Result<FailStatus1, Error> {
        self.0
            .map(FailStatus1)
            .ok_or_else(|| Error::DataBytesShortage("test".to_owned()))
    }

    fn fail_status_2(&self) -> Result<FailStatus2, Error> {
        self.1
            .map(FailStatus2)
            .ok_or_else(|| Error::DataBytesShortage("test".to_owned()))
    }

    fn fail_status_3(&self) -> Result<FailStatus3, Error> {
        self.2
            .map(FailStatus3)
            .ok_or_else(|| Error::DataBytesShortage("test".to_owned()))
    }
}

#[test]
fn test_fail_status() {
    let battery_state = MockBatteryState(Some(0x00), Some(0x00), Some(0x00));
    for item in FailStatusItem::iter() {
        let fail_status = battery_state.fail_status(item);
        assert_eq!(fail_status, FailState::Good);
    }

    let battery_state = MockBatteryState(Some(0xff), Some(0xff), Some(0xff));
    for item in FailStatusItem::iter() {
        let fail_status = battery_state.fail_status(item);
        assert_eq!(fail_status, FailState::Ng);
    }
}

#[test]
fn test_fail_status_individually() {

    let battery_state = MockBatteryState(Some(0b00000001), Some(0x00), Some(0x00));
    for item in FailStatusItem::iter() {
        let fail_status = battery_state.fail_status(item);
        match item {
            FailStatusItem::OverCurrentDischargeDetection65A => assert_eq!(fail_status, FailState::Ng),
            _ => assert_eq!(fail_status, FailState::Good),
        }
    }

    let battery_state = MockBatteryState(Some(0b00000010), Some(0x00), Some(0x00));
    for item in FailStatusItem::iter() {
        let fail_status = battery_state.fail_status(item);
        match item {
            FailStatusItem::OverCurrentDischargeDetection90A => assert_eq!(fail_status, FailState::Ng),
            _ => assert_eq!(fail_status, FailState::Good),
        }
    }

    let battery_state = MockBatteryState(Some(0b00000100), Some(0x00), Some(0x00));
    for item in FailStatusItem::iter() {
        let fail_status = battery_state.fail_status(item);
        match item {
            FailStatusItem::OverChargeProtection => assert_eq!(fail_status, FailState::Ng),
            _ => assert_eq!(fail_status, FailState::Good),
        }
    }

    let battery_state = MockBatteryState(Some(0b00001000), Some(0x00), Some(0x00));
    for item in FailStatusItem::iter() {
        let fail_status = battery_state.fail_status(item);
        match item {
            FailStatusItem::OverCurrentChargeDetection45A => assert_eq!(fail_status, FailState::Ng),
            _ => assert_eq!(fail_status, FailState::Good),
        }
    }

    let battery_state = MockBatteryState(Some(0b00010000), Some(0x00), Some(0x00));
    for item in FailStatusItem::iter() {
        let fail_status = battery_state.fail_status(item);
        match item {
            FailStatusItem::OverTemperatureDischargeDetection => assert_eq!(fail_status, FailState::Ng),
            _ => assert_eq!(fail_status, FailState::Good),
        }
    }

    let battery_state = MockBatteryState(Some(0b00100000), Some(0x00), Some(0x00));
    for item in FailStatusItem::iter() {
        let fail_status = battery_state.fail_status(item);
        match item {
            FailStatusItem::LowVoltageDetection => assert_eq!(fail_status, FailState::Ng),
            _ => assert_eq!(fail_status, FailState::Good),
        }
    }

    let battery_state = MockBatteryState(Some(0b01000000), Some(0x00), Some(0x00));
    for item in FailStatusItem::iter() {
        let fail_status = battery_state.fail_status(item);
        match item {
            FailStatusItem::FullyChargeDetection => assert_eq!(fail_status, FailState::Ng),
            _ => assert_eq!(fail_status, FailState::Good),
        }
    }

    let battery_state = MockBatteryState(Some(0b10000000), Some(0x00), Some(0x00));
    for item in FailStatusItem::iter() {
        let fail_status = battery_state.fail_status(item);
        match item {
            FailStatusItem::OverCurrentDischargeDetection200A => assert_eq!(fail_status, FailState::Ng),
            _ => assert_eq!(fail_status, FailState::Good),
        }
    }

    let battery_state = MockBatteryState(Some(0x00), Some(0b00000001), Some(0x00));
    for item in FailStatusItem::iter() {
        let fail_status = battery_state.fail_status(item);
        match item {
            FailStatusItem::OverCurrentDischargeDetection110A => assert_eq!(fail_status, FailState::Ng),
            _ => assert_eq!(fail_status, FailState::Good),
        }
    }

    let battery_state = MockBatteryState(Some(0x00), Some(0b00000010), Some(0x00));
    for item in FailStatusItem::iter() {
        let fail_status = battery_state.fail_status(item);
        match item {
            FailStatusItem::OverCurrentChargeDetection65A => assert_eq!(fail_status, FailState::Ng),
            _ => assert_eq!(fail_status, FailState::Good),
        }
    }

    let battery_state = MockBatteryState(Some(0x00), Some(0b00000100), Some(0x00));
    for item in FailStatusItem::iter() {
        let fail_status = battery_state.fail_status(item);
        match item {
            FailStatusItem::OverTemperatureChargeDetection => assert_eq!(fail_status, FailState::Ng),
            _ => assert_eq!(fail_status, FailState::Good),
        }
    }

    let battery_state = MockBatteryState(Some(0x00), Some(0b00001000), Some(0x00));
    for item in FailStatusItem::iter() {
        let fail_status = battery_state.fail_status(item);
        match item {
            FailStatusItem::CellUnbalanceDetection => assert_eq!(fail_status, FailState::Ng),
            _ => assert_eq!(fail_status, FailState::Good),
        }
    }

    let battery_state = MockBatteryState(Some(0x00), Some(0b00010000), Some(0x00));
    for item in FailStatusItem::iter() {
        let fail_status = battery_state.fail_status(item);
        match item {
            FailStatusItem::OverCharge => assert_eq!(fail_status, FailState::Ng),
            _ => assert_eq!(fail_status, FailState::Good),
        }
    }

    let battery_state = MockBatteryState(Some(0x00), Some(0b00100000), Some(0x00));
    for item in FailStatusItem::iter() {
        let fail_status = battery_state.fail_status(item);
        match item {
            FailStatusItem::DeepDischarge => assert_eq!(fail_status, FailState::Ng),
            _ => assert_eq!(fail_status, FailState::Good),
        }
    }

    let battery_state = MockBatteryState(Some(0x00), Some(0b01000000), Some(0x00));
    for item in FailStatusItem::iter() {
        let fail_status = battery_state.fail_status(item);
        match item {
            FailStatusItem::FuseBlown => assert_eq!(fail_status, FailState::Ng),
            _ => assert_eq!(fail_status, FailState::Good),
        }
    }

    let battery_state = MockBatteryState(Some(0x00), Some(0b10000000), Some(0x00));
    for item in FailStatusItem::iter() {
        let fail_status = battery_state.fail_status(item);
        match item {
            FailStatusItem::FetUncontrol => assert_eq!(fail_status, FailState::Ng),
            _ => assert_eq!(fail_status, FailState::Good),
        }
    }

    let battery_state = MockBatteryState(Some(0x00), Some(0x00), Some(0b00000001));
    for item in FailStatusItem::iter() {
        let fail_status = battery_state.fail_status(item);
        match item {
            FailStatusItem::SelfTestClockFail => assert_eq!(fail_status, FailState::Ng),
            _ => assert_eq!(fail_status, FailState::Good),
        }
    }

    let battery_state = MockBatteryState(Some(0x00), Some(0x00), Some(0b00000010));
    for item in FailStatusItem::iter() {
        let fail_status = battery_state.fail_status(item);
        match item {
            FailStatusItem::SelfTestRomFail => assert_eq!(fail_status, FailState::Ng),
            _ => assert_eq!(fail_status, FailState::Good),
        }
    }

    let battery_state = MockBatteryState(Some(0x00), Some(0x00), Some(0b00000100));
    for item in FailStatusItem::iter() {
        let fail_status = battery_state.fail_status(item);
        match item {
            FailStatusItem::SelfTestRegisterFail => assert_eq!(fail_status, FailState::Ng),
            _ => assert_eq!(fail_status, FailState::Good),
        }
    }

    let battery_state = MockBatteryState(Some(0x00), Some(0x00), Some(0b00001000));
    for item in FailStatusItem::iter() {
        let fail_status = battery_state.fail_status(item);
        match item {
            FailStatusItem::SelfTestPswRegisterFail => assert_eq!(fail_status, FailState::Ng),
            _ => assert_eq!(fail_status, FailState::Good),
        }
    }

    let battery_state = MockBatteryState(Some(0x00), Some(0x00), Some(0b00010000));
    for item in FailStatusItem::iter() {
        let fail_status = battery_state.fail_status(item);
        match item {
            FailStatusItem::SelfTestStackRegisterFail => assert_eq!(fail_status, FailState::Ng),
            _ => assert_eq!(fail_status, FailState::Good),
        }
    }

    let battery_state = MockBatteryState(Some(0x00), Some(0x00), Some(0b00100000));
    for item in FailStatusItem::iter() {
        let fail_status = battery_state.fail_status(item);
        match item {
            FailStatusItem::SelfTestCsRegisterFail => assert_eq!(fail_status, FailState::Ng),
            _ => assert_eq!(fail_status, FailState::Good),
        }
    }

    let battery_state = MockBatteryState(Some(0x00), Some(0x00), Some(0b01000000));
    for item in FailStatusItem::iter() {
        let fail_status = battery_state.fail_status(item);
        match item {
            FailStatusItem::SelfTestEsRegisterFail => assert_eq!(fail_status, FailState::Ng),
            _ => assert_eq!(fail_status, FailState::Good),
        }
    }

    let battery_state = MockBatteryState(Some(0x00), Some(0x00), Some(0b10000000));
    for item in FailStatusItem::iter() {
        let fail_status = battery_state.fail_status(item);
        match item {
            FailStatusItem::SelfTestRamFailDfFail => assert_eq!(fail_status, FailState::Ng),
            _ => assert_eq!(fail_status, FailState::Good),
        }
    }
}

#[test]
fn test_fail_status_unknown() {

    let battery_state = MockBatteryState(None, Some(0x00), Some(0x00));
    for item in FailStatusItem::iter() {
        let fail_status = battery_state.fail_status(item);
        match item {
            FailStatusItem::OverCurrentDischargeDetection65A => assert_eq!(fail_status, FailState::Unknown),
            FailStatusItem::OverCurrentDischargeDetection90A => assert_eq!(fail_status, FailState::Unknown),
            FailStatusItem::OverChargeProtection => assert_eq!(fail_status, FailState::Unknown),
            FailStatusItem::OverCurrentChargeDetection45A => assert_eq!(fail_status, FailState::Unknown),
            FailStatusItem::OverTemperatureDischargeDetection => assert_eq!(fail_status, FailState::Unknown),
            FailStatusItem::LowVoltageDetection => assert_eq!(fail_status, FailState::Unknown),
            FailStatusItem::FullyChargeDetection => assert_eq!(fail_status, FailState::Unknown),
            FailStatusItem::OverCurrentDischargeDetection200A => assert_eq!(fail_status, FailState::Unknown),
            _ => assert_eq!(fail_status, FailState::Good),
        }
    }

    let battery_state = MockBatteryState(Some(0x00), None, Some(0x00));
    for item in FailStatusItem::iter() {
        let fail_status = battery_state.fail_status(item);
        match item {
            FailStatusItem::OverCurrentDischargeDetection110A => assert_eq!(fail_status, FailState::Unknown),
            FailStatusItem::OverCurrentChargeDetection65A => assert_eq!(fail_status, FailState::Unknown),
            FailStatusItem::OverTemperatureChargeDetection => assert_eq!(fail_status, FailState::Unknown),
            FailStatusItem::CellUnbalanceDetection => assert_eq!(fail_status, FailState::Unknown),
            FailStatusItem::OverCharge => assert_eq!(fail_status, FailState::Unknown),
            FailStatusItem::DeepDischarge => assert_eq!(fail_status, FailState::Unknown),
            FailStatusItem::FuseBlown => assert_eq!(fail_status, FailState::Unknown),
            FailStatusItem::FetUncontrol => assert_eq!(fail_status, FailState::Unknown),
            _ => assert_eq!(fail_status, FailState::Good),
        }
    }

    let battery_state = MockBatteryState(Some(0x00), Some(0x00), None);
    for item in FailStatusItem::iter() {
        let fail_status = battery_state.fail_status(item);
        match item {
            FailStatusItem::SelfTestClockFail => assert_eq!(fail_status, FailState::Unknown),
            FailStatusItem::SelfTestRomFail => assert_eq!(fail_status, FailState::Unknown),
            FailStatusItem::SelfTestRegisterFail => assert_eq!(fail_status, FailState::Unknown),
            FailStatusItem::SelfTestPswRegisterFail => assert_eq!(fail_status, FailState::Unknown),
            FailStatusItem::SelfTestStackRegisterFail => assert_eq!(fail_status, FailState::Unknown),
            FailStatusItem::SelfTestCsRegisterFail => assert_eq!(fail_status, FailState::Unknown),
            FailStatusItem::SelfTestEsRegisterFail => assert_eq!(fail_status, FailState::Unknown),
            FailStatusItem::SelfTestRamFailDfFail => assert_eq!(fail_status, FailState::Unknown),
            _ => assert_eq!(fail_status, FailState::Good),
        }
    }
}
