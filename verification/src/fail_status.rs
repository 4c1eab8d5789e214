use vstd::prelude::*;

use crate::battery_state::BatteryState;
use crate::error::Error;

verus! {

/// What is known of one fault.
#[derive(Clone, Copy, Debug, PartialEq, Eq, Structural)]
pub enum FailState {
    /// The fault's bit is clear.
    Good,
    /// The fault's bit is set.
    Ng,
    /// The register that holds the fault's bit could not be had.
    Unknown,
}

impl Default for FailState {
    fn default() -> (state: FailState)
        ensures
            state == FailState::Unknown,
    {
        FailState::Unknown
    }
}

/// The first fault register, as the module sent it.
pub struct FailStatus1(pub u8);

/// The second fault register, as the module sent it.
pub struct FailStatus2(pub u8);

/// The third fault register, as the module sent it.
pub struct FailStatus3(pub u8);

/// What bit `pos` of `byte` says: `Good` where it is clear, `Ng` where it is
/// set.
pub open spec fn bit_state(byte: u8, pos: u8) -> FailState {
    if byte & (1u8 << pos) == 0 {
        FailState::Good
    } else {
        FailState::Ng
    }
}

fn fail_state_from_byte_and_bit_pos(byte: u8, pos: u8) -> (state: FailState)
    requires
        pos < 8,
    ensures
        state == bit_state(byte, pos),
{
    if byte & (0x01u8 << pos) == 0 {
        FailState::Good
    } else {
        FailState::Ng
    }
}

impl FailStatus1 {
    /// Discharge current over 65 A was detected.
    pub fn over_current_discharge_detection_65a(&self) -> (state: FailState)
        ensures
            state == bit_state(self.0, 0),
            state == spec_fail_state_of(
                FailStatusItem::OverCurrentDischargeDetection65A,
                Some(self.0),
            ),
    {
        fail_state_from_byte_and_bit_pos(
            self.0,
            FailStatusItem::OverCurrentDischargeDetection65A.bit(),
        )
    }

    /// Discharge current over 90 A was detected.
    pub fn over_current_discharge_detection_90a(&self) -> (state: FailState)
        ensures
            state == bit_state(self.0, 1),
            state == spec_fail_state_of(
                FailStatusItem::OverCurrentDischargeDetection90A,
                Some(self.0),
            ),
    {
        fail_state_from_byte_and_bit_pos(
            self.0,
            FailStatusItem::OverCurrentDischargeDetection90A.bit(),
        )
    }

    /// The over-charge protection acted.
    pub fn over_charge_protection(&self) -> (state: FailState)
        ensures
            state == bit_state(self.0, 2),
            state == spec_fail_state_of(FailStatusItem::OverChargeProtection, Some(self.0)),
    {
        fail_state_from_byte_and_bit_pos(self.0, FailStatusItem::OverChargeProtection.bit())
    }

    /// Charge current over 45 A was detected.
    pub fn over_current_charge_detection_45a(&self) -> (state: FailState)
        ensures
            state == bit_state(self.0, 3),
            state == spec_fail_state_of(
                FailStatusItem::OverCurrentChargeDetection45A,
                Some(self.0),
            ),
    {
        fail_state_from_byte_and_bit_pos(
            self.0,
            FailStatusItem::OverCurrentChargeDetection45A.bit(),
        )
    }

    /// Over-temperature while discharging was detected.
    pub fn over_temperature_discharge_detection(&self) -> (state: FailState)
        ensures
            state == bit_state(self.0, 4),
            state == spec_fail_state_of(
                FailStatusItem::OverTemperatureDischargeDetection,
                Some(self.0),
            ),
    {
        fail_state_from_byte_and_bit_pos(
            self.0,
            FailStatusItem::OverTemperatureDischargeDetection.bit(),
        )
    }

    /// Low voltage was detected.
    pub fn low_voltage_detection(&self) -> (state: FailState)
        ensures
            state == bit_state(self.0, 5),
            state == spec_fail_state_of(FailStatusItem::LowVoltageDetection, Some(self.0)),
    {
        fail_state_from_byte_and_bit_pos(self.0, FailStatusItem::LowVoltageDetection.bit())
    }

    /// The module was found fully charged.
    pub fn fully_charge_detection(&self) -> (state: FailState)
        ensures
            state == bit_state(self.0, 6),
            state == spec_fail_state_of(FailStatusItem::FullyChargeDetection, Some(self.0)),
    {
        fail_state_from_byte_and_bit_pos(self.0, FailStatusItem::FullyChargeDetection.bit())
    }

    /// Discharge current over 200 A was detected.
    pub fn over_current_discharge_detection_200a(&self) -> (state: FailState)
        ensures
            state == bit_state(self.0, 7),
            state == spec_fail_state_of(
                FailStatusItem::OverCurrentDischargeDetection200A,
                Some(self.0),
            ),
    {
        fail_state_from_byte_and_bit_pos(
            self.0,
            FailStatusItem::OverCurrentDischargeDetection200A.bit(),
        )
    }

}

impl FailStatus2 {
    /// Discharge current over 110 A was detected.
    pub fn over_current_discharge_detection_110a(&self) -> (state: FailState)
        ensures
            state == bit_state(self.0, 0),
            state == spec_fail_state_of(
                FailStatusItem::OverCurrentDischargeDetection110A,
                Some(self.0),
            ),
    {
        fail_state_from_byte_and_bit_pos(
            self.0,
            FailStatusItem::OverCurrentDischargeDetection110A.bit(),
        )
    }

    /// Charge current over 65 A was detected.
    pub fn over_current_charge_detection_65a(&self) -> (state: FailState)
        ensures
            state == bit_state(self.0, 1),
            state == spec_fail_state_of(
                FailStatusItem::OverCurrentChargeDetection65A,
                Some(self.0),
            ),
    {
        fail_state_from_byte_and_bit_pos(
            self.0,
            FailStatusItem::OverCurrentChargeDetection65A.bit(),
        )
    }

    /// Over-temperature while charging was detected.
    pub fn over_temperature_charge_detection(&self) -> (state: FailState)
        ensures
            state == bit_state(self.0, 2),
            state == spec_fail_state_of(
                FailStatusItem::OverTemperatureChargeDetection,
                Some(self.0),
            ),
    {
        fail_state_from_byte_and_bit_pos(
            self.0,
            FailStatusItem::OverTemperatureChargeDetection.bit(),
        )
    }

    /// The cells were found out of balance.
    pub fn cell_unbalance_detection(&self) -> (state: FailState)
        ensures
            state == bit_state(self.0, 3),
            state == spec_fail_state_of(FailStatusItem::CellUnbalanceDetection, Some(self.0)),
    {
        fail_state_from_byte_and_bit_pos(self.0, FailStatusItem::CellUnbalanceDetection.bit())
    }

    /// The module is over-charged.
    pub fn over_charge(&self) -> (state: FailState)
        ensures
            state == bit_state(self.0, 4),
            state == spec_fail_state_of(FailStatusItem::OverCharge, Some(self.0)),
    {
        fail_state_from_byte_and_bit_pos(self.0, FailStatusItem::OverCharge.bit())
    }

    /// The module is deeply discharged.
    pub fn deep_discharge(&self) -> (state: FailState)
        ensures
            state == bit_state(self.0, 5),
            state == spec_fail_state_of(FailStatusItem::DeepDischarge, Some(self.0)),
    {
        fail_state_from_byte_and_bit_pos(self.0, FailStatusItem::DeepDischarge.bit())
    }

    /// The fuse is blown.
    pub fn fuse_blown(&self) -> (state: FailState)
        ensures
            state == bit_state(self.0, 6),
            state == spec_fail_state_of(FailStatusItem::FuseBlown, Some(self.0)),
    {
        fail_state_from_byte_and_bit_pos(self.0, FailStatusItem::FuseBlown.bit())
    }

    /// The FET is out of control.
    pub fn fet_uncontrol(&self) -> (state: FailState)
        ensures
            state == bit_state(self.0, 7),
            state == spec_fail_state_of(FailStatusItem::FetUncontrol, Some(self.0)),
    {
        fail_state_from_byte_and_bit_pos(self.0, FailStatusItem::FetUncontrol.bit())
    }

}

impl FailStatus3 {
    /// The self test found the clock failing.
    pub fn self_test_clock_fail(&self) -> (state: FailState)
        ensures
            state == bit_state(self.0, 0),
            state == spec_fail_state_of(FailStatusItem::SelfTestClockFail, Some(self.0)),
    {
        fail_state_from_byte_and_bit_pos(self.0, FailStatusItem::SelfTestClockFail.bit())
    }

    /// The self test found the ROM failing.
    pub fn self_test_rom_fail(&self) -> (state: FailState)
        ensures
            state == bit_state(self.0, 1),
            state == spec_fail_state_of(FailStatusItem::SelfTestRomFail, Some(self.0)),
    {
        fail_state_from_byte_and_bit_pos(self.0, FailStatusItem::SelfTestRomFail.bit())
    }

    /// The self test found a register failing.
    pub fn self_test_register_fail(&self) -> (state: FailState)
        ensures
            state == bit_state(self.0, 2),
            state == spec_fail_state_of(FailStatusItem::SelfTestRegisterFail, Some(self.0)),
    {
        fail_state_from_byte_and_bit_pos(self.0, FailStatusItem::SelfTestRegisterFail.bit())
    }

    /// The self test found the PSW register failing.
    pub fn self_test_psw_register_fail(&self) -> (state: FailState)
        ensures
            state == bit_state(self.0, 3),
            state == spec_fail_state_of(FailStatusItem::SelfTestPswRegisterFail, Some(self.0)),
    {
        fail_state_from_byte_and_bit_pos(self.0, FailStatusItem::SelfTestPswRegisterFail.bit())
    }

    /// The self test found the stack register failing.
    pub fn self_test_stack_register_fail(&self) -> (state: FailState)
        ensures
            state == bit_state(self.0, 4),
            state == spec_fail_state_of(FailStatusItem::SelfTestStackRegisterFail, Some(self.0)),
    {
        fail_state_from_byte_and_bit_pos(self.0, FailStatusItem::SelfTestStackRegisterFail.bit())
    }

    /// The self test found the CS register failing.
    pub fn self_test_cs_register_fail(&self) -> (state: FailState)
        ensures
            state == bit_state(self.0, 5),
            state == spec_fail_state_of(FailStatusItem::SelfTestCsRegisterFail, Some(self.0)),
    {
        fail_state_from_byte_and_bit_pos(self.0, FailStatusItem::SelfTestCsRegisterFail.bit())
    }

    /// The self test found the ES register failing.
    pub fn self_test_es_register_fail(&self) -> (state: FailState)
        ensures
            state == bit_state(self.0, 6),
            state == spec_fail_state_of(FailStatusItem::SelfTestEsRegisterFail, Some(self.0)),
    {
        fail_state_from_byte_and_bit_pos(self.0, FailStatusItem::SelfTestEsRegisterFail.bit())
    }

    /// The self test found the RAM or the data flash failing.
    pub fn self_test_ram_fail_df_fail(&self) -> (state: FailState)
        ensures
            state == bit_state(self.0, 7),
            state == spec_fail_state_of(FailStatusItem::SelfTestRamFailDfFail, Some(self.0)),
    {
        fail_state_from_byte_and_bit_pos(self.0, FailStatusItem::SelfTestRamFailDfFail.bit())
    }

}

/// The faults that the three registers report, in register and bit order.
#[derive(Clone, Copy, Debug, PartialEq, Eq, Structural)]
pub enum FailStatusItem {
    OverCurrentDischargeDetection65A,
    OverCurrentDischargeDetection90A,
    OverChargeProtection,
    OverCurrentChargeDetection45A,
    OverTemperatureDischargeDetection,
    LowVoltageDetection,
    FullyChargeDetection,
    OverCurrentDischargeDetection200A,
    OverCurrentDischargeDetection110A,
    OverCurrentChargeDetection65A,
    OverTemperatureChargeDetection,
    CellUnbalanceDetection,
    OverCharge,
    DeepDischarge,
    FuseBlown,
    FetUncontrol,
    SelfTestClockFail,
    SelfTestRomFail,
    SelfTestRegisterFail,
    SelfTestPswRegisterFail,
    SelfTestStackRegisterFail,
    SelfTestCsRegisterFail,
    SelfTestEsRegisterFail,
    SelfTestRamFailDfFail,
}

impl FailStatusItem {
    /// Every fault once: the first register's from its lowest bit to its
    /// highest, then the second register's, then the third's.
    pub open spec fn spec_all() -> Seq<FailStatusItem> {
        seq![
            FailStatusItem::OverCurrentDischargeDetection65A,
            FailStatusItem::OverCurrentDischargeDetection90A,
            FailStatusItem::OverChargeProtection,
            FailStatusItem::OverCurrentChargeDetection45A,
            FailStatusItem::OverTemperatureDischargeDetection,
            FailStatusItem::LowVoltageDetection,
            FailStatusItem::FullyChargeDetection,
            FailStatusItem::OverCurrentDischargeDetection200A,
            FailStatusItem::OverCurrentDischargeDetection110A,
            FailStatusItem::OverCurrentChargeDetection65A,
            FailStatusItem::OverTemperatureChargeDetection,
            FailStatusItem::CellUnbalanceDetection,
            FailStatusItem::OverCharge,
            FailStatusItem::DeepDischarge,
            FailStatusItem::FuseBlown,
            FailStatusItem::FetUncontrol,
            FailStatusItem::SelfTestClockFail,
            FailStatusItem::SelfTestRomFail,
            FailStatusItem::SelfTestRegisterFail,
            FailStatusItem::SelfTestPswRegisterFail,
            FailStatusItem::SelfTestStackRegisterFail,
            FailStatusItem::SelfTestCsRegisterFail,
            FailStatusItem::SelfTestEsRegisterFail,
            FailStatusItem::SelfTestRamFailDfFail,
        ]
    }

    /// The register that holds this fault's bit: 1, 2 or 3.
    pub open spec fn spec_register(self) -> u8 {
        match self {
            FailStatusItem::OverCurrentDischargeDetection65A
            | FailStatusItem::OverCurrentDischargeDetection90A
            | FailStatusItem::OverChargeProtection
            | FailStatusItem::OverCurrentChargeDetection45A
            | FailStatusItem::OverTemperatureDischargeDetection
            | FailStatusItem::LowVoltageDetection
            | FailStatusItem::FullyChargeDetection
            | FailStatusItem::OverCurrentDischargeDetection200A => 1,
            FailStatusItem::OverCurrentDischargeDetection110A
            | FailStatusItem::OverCurrentChargeDetection65A
            | FailStatusItem::OverTemperatureChargeDetection
            | FailStatusItem::CellUnbalanceDetection
            | FailStatusItem::OverCharge
            | FailStatusItem::DeepDischarge
            | FailStatusItem::FuseBlown
            | FailStatusItem::FetUncontrol => 2,
            FailStatusItem::SelfTestClockFail
            | FailStatusItem::SelfTestRomFail
            | FailStatusItem::SelfTestRegisterFail
            | FailStatusItem::SelfTestPswRegisterFail
            | FailStatusItem::SelfTestStackRegisterFail
            | FailStatusItem::SelfTestCsRegisterFail
            | FailStatusItem::SelfTestEsRegisterFail
            | FailStatusItem::SelfTestRamFailDfFail => 3,
        }
    }

    /// The place of this fault's bit in its register, 0 for the lowest.
    pub open spec fn spec_bit(self) -> u8 {
        match self {
            FailStatusItem::OverCurrentDischargeDetection65A => 0,
            FailStatusItem::OverCurrentDischargeDetection90A => 1,
            FailStatusItem::OverChargeProtection => 2,
            FailStatusItem::OverCurrentChargeDetection45A => 3,
            FailStatusItem::OverTemperatureDischargeDetection => 4,
            FailStatusItem::LowVoltageDetection => 5,
            FailStatusItem::FullyChargeDetection => 6,
            FailStatusItem::OverCurrentDischargeDetection200A => 7,
            FailStatusItem::OverCurrentDischargeDetection110A => 0,
            FailStatusItem::OverCurrentChargeDetection65A => 1,
            FailStatusItem::OverTemperatureChargeDetection => 2,
            FailStatusItem::CellUnbalanceDetection => 3,
            FailStatusItem::OverCharge => 4,
            FailStatusItem::DeepDischarge => 5,
            FailStatusItem::FuseBlown => 6,
            FailStatusItem::FetUncontrol => 7,
            FailStatusItem::SelfTestClockFail => 0,
            FailStatusItem::SelfTestRomFail => 1,
            FailStatusItem::SelfTestRegisterFail => 2,
            FailStatusItem::SelfTestPswRegisterFail => 3,
            FailStatusItem::SelfTestStackRegisterFail => 4,
            FailStatusItem::SelfTestCsRegisterFail => 5,
            FailStatusItem::SelfTestEsRegisterFail => 6,
            FailStatusItem::SelfTestRamFailDfFail => 7,
        }
    }

    /// The name of this fault, as the type spells it.
    pub open spec fn spec_name(self) -> Seq<char> {
        match self {
            FailStatusItem::OverCurrentDischargeDetection65A => "OverCurrentDischargeDetection65A"@,
            FailStatusItem::OverCurrentDischargeDetection90A => "OverCurrentDischargeDetection90A"@,
            FailStatusItem::OverChargeProtection => "OverChargeProtection"@,
            FailStatusItem::OverCurrentChargeDetection45A => "OverCurrentChargeDetection45A"@,
            FailStatusItem::OverTemperatureDischargeDetection => {
                "OverTemperatureDischargeDetection"@
            },
            FailStatusItem::LowVoltageDetection => "LowVoltageDetection"@,
            FailStatusItem::FullyChargeDetection => "FullyChargeDetection"@,
            FailStatusItem::OverCurrentDischargeDetection200A => {
                "OverCurrentDischargeDetection200A"@
            },
            FailStatusItem::OverCurrentDischargeDetection110A => {
                "OverCurrentDischargeDetection110A"@
            },
            FailStatusItem::OverCurrentChargeDetection65A => "OverCurrentChargeDetection65A"@,
            FailStatusItem::OverTemperatureChargeDetection => "OverTemperatureChargeDetection"@,
            FailStatusItem::CellUnbalanceDetection => "CellUnbalanceDetection"@,
            FailStatusItem::OverCharge => "OverCharge"@,
            FailStatusItem::DeepDischarge => "DeepDischarge"@,
            FailStatusItem::FuseBlown => "FuseBlown"@,
            FailStatusItem::FetUncontrol => "FetUncontrol"@,
            FailStatusItem::SelfTestClockFail => "SelfTestClockFail"@,
            FailStatusItem::SelfTestRomFail => "SelfTestRomFail"@,
            FailStatusItem::SelfTestRegisterFail => "SelfTestRegisterFail"@,
            FailStatusItem::SelfTestPswRegisterFail => "SelfTestPswRegisterFail"@,
            FailStatusItem::SelfTestStackRegisterFail => "SelfTestStackRegisterFail"@,
            FailStatusItem::SelfTestCsRegisterFail => "SelfTestCsRegisterFail"@,
            FailStatusItem::SelfTestEsRegisterFail => "SelfTestEsRegisterFail"@,
            FailStatusItem::SelfTestRamFailDfFail => "SelfTestRamFailDfFail"@,
        }
    }

    /// The register that holds this fault's bit: 1, 2 or 3.
    #[verifier::when_used_as_spec(spec_register)]
    pub fn register(self) -> (register: u8)
        ensures
            register == self.spec_register(),
    {
        match self {
            FailStatusItem::OverCurrentDischargeDetection65A
            | FailStatusItem::OverCurrentDischargeDetection90A
            | FailStatusItem::OverChargeProtection
            | FailStatusItem::OverCurrentChargeDetection45A
            | FailStatusItem::OverTemperatureDischargeDetection
            | FailStatusItem::LowVoltageDetection
            | FailStatusItem::FullyChargeDetection
            | FailStatusItem::OverCurrentDischargeDetection200A => 1,
            FailStatusItem::OverCurrentDischargeDetection110A
            | FailStatusItem::OverCurrentChargeDetection65A
            | FailStatusItem::OverTemperatureChargeDetection
            | FailStatusItem::CellUnbalanceDetection
            | FailStatusItem::OverCharge
            | FailStatusItem::DeepDischarge
            | FailStatusItem::FuseBlown
            | FailStatusItem::FetUncontrol => 2,
            FailStatusItem::SelfTestClockFail
            | FailStatusItem::SelfTestRomFail
            | FailStatusItem::SelfTestRegisterFail
            | FailStatusItem::SelfTestPswRegisterFail
            | FailStatusItem::SelfTestStackRegisterFail
            | FailStatusItem::SelfTestCsRegisterFail
            | FailStatusItem::SelfTestEsRegisterFail
            | FailStatusItem::SelfTestRamFailDfFail => 3,
        }
    }

    /// The place of this fault's bit in its register, 0 for the lowest.
    #[verifier::when_used_as_spec(spec_bit)]
    pub fn bit(self) -> (pos: u8)
        ensures
            pos == self.spec_bit(),
            pos < 8,
    {
        match self {
            FailStatusItem::OverCurrentDischargeDetection65A => 0,
            FailStatusItem::OverCurrentDischargeDetection90A => 1,
            FailStatusItem::OverChargeProtection => 2,
            FailStatusItem::OverCurrentChargeDetection45A => 3,
            FailStatusItem::OverTemperatureDischargeDetection => 4,
            FailStatusItem::LowVoltageDetection => 5,
            FailStatusItem::FullyChargeDetection => 6,
            FailStatusItem::OverCurrentDischargeDetection200A => 7,
            FailStatusItem::OverCurrentDischargeDetection110A => 0,
            FailStatusItem::OverCurrentChargeDetection65A => 1,
            FailStatusItem::OverTemperatureChargeDetection => 2,
            FailStatusItem::CellUnbalanceDetection => 3,
            FailStatusItem::OverCharge => 4,
            FailStatusItem::DeepDischarge => 5,
            FailStatusItem::FuseBlown => 6,
            FailStatusItem::FetUncontrol => 7,
            FailStatusItem::SelfTestClockFail => 0,
            FailStatusItem::SelfTestRomFail => 1,
            FailStatusItem::SelfTestRegisterFail => 2,
            FailStatusItem::SelfTestPswRegisterFail => 3,
            FailStatusItem::SelfTestStackRegisterFail => 4,
            FailStatusItem::SelfTestCsRegisterFail => 5,
            FailStatusItem::SelfTestEsRegisterFail => 6,
            FailStatusItem::SelfTestRamFailDfFail => 7,
        }
    }

    /// The name of this fault, as the type spells it.
    pub fn name(self) -> (name: &'static str)
        ensures
            name@ == self.spec_name(),
    {
        match self {
            FailStatusItem::OverCurrentDischargeDetection65A => "OverCurrentDischargeDetection65A",
            FailStatusItem::OverCurrentDischargeDetection90A => "OverCurrentDischargeDetection90A",
            FailStatusItem::OverChargeProtection => "OverChargeProtection",
            FailStatusItem::OverCurrentChargeDetection45A => "OverCurrentChargeDetection45A",
            FailStatusItem::OverTemperatureDischargeDetection => {
                "OverTemperatureDischargeDetection"
            },
            FailStatusItem::LowVoltageDetection => "LowVoltageDetection",
            FailStatusItem::FullyChargeDetection => "FullyChargeDetection",
            FailStatusItem::OverCurrentDischargeDetection200A => {
                "OverCurrentDischargeDetection200A"
            },
            FailStatusItem::OverCurrentDischargeDetection110A => {
                "OverCurrentDischargeDetection110A"
            },
            FailStatusItem::OverCurrentChargeDetection65A => "OverCurrentChargeDetection65A",
            FailStatusItem::OverTemperatureChargeDetection => "OverTemperatureChargeDetection",
            FailStatusItem::CellUnbalanceDetection => "CellUnbalanceDetection",
            FailStatusItem::OverCharge => "OverCharge",
            FailStatusItem::DeepDischarge => "DeepDischarge",
            FailStatusItem::FuseBlown => "FuseBlown",
            FailStatusItem::FetUncontrol => "FetUncontrol",
            FailStatusItem::SelfTestClockFail => "SelfTestClockFail",
            FailStatusItem::SelfTestRomFail => "SelfTestRomFail",
            FailStatusItem::SelfTestRegisterFail => "SelfTestRegisterFail",
            FailStatusItem::SelfTestPswRegisterFail => "SelfTestPswRegisterFail",
            FailStatusItem::SelfTestStackRegisterFail => "SelfTestStackRegisterFail",
            FailStatusItem::SelfTestCsRegisterFail => "SelfTestCsRegisterFail",
            FailStatusItem::SelfTestEsRegisterFail => "SelfTestEsRegisterFail",
            FailStatusItem::SelfTestRamFailDfFail => "SelfTestRamFailDfFail",
        }
    }

    /// The fault at place `index` of the fixed order, if there is one.
    pub fn from_index(index: usize) -> (item: Option<FailStatusItem>)
        ensures
            index < 24 ==> item == Some(FailStatusItem::spec_all()[index as int]),
            index >= 24 ==> item is None,
    {
        match index {
            0 => Some(FailStatusItem::OverCurrentDischargeDetection65A),
            1 => Some(FailStatusItem::OverCurrentDischargeDetection90A),
            2 => Some(FailStatusItem::OverChargeProtection),
            3 => Some(FailStatusItem::OverCurrentChargeDetection45A),
            4 => Some(FailStatusItem::OverTemperatureDischargeDetection),
            5 => Some(FailStatusItem::LowVoltageDetection),
            6 => Some(FailStatusItem::FullyChargeDetection),
            7 => Some(FailStatusItem::OverCurrentDischargeDetection200A),
            8 => Some(FailStatusItem::OverCurrentDischargeDetection110A),
            9 => Some(FailStatusItem::OverCurrentChargeDetection65A),
            10 => Some(FailStatusItem::OverTemperatureChargeDetection),
            11 => Some(FailStatusItem::CellUnbalanceDetection),
            12 => Some(FailStatusItem::OverCharge),
            13 => Some(FailStatusItem::DeepDischarge),
            14 => Some(FailStatusItem::FuseBlown),
            15 => Some(FailStatusItem::FetUncontrol),
            16 => Some(FailStatusItem::SelfTestClockFail),
            17 => Some(FailStatusItem::SelfTestRomFail),
            18 => Some(FailStatusItem::SelfTestRegisterFail),
            19 => Some(FailStatusItem::SelfTestPswRegisterFail),
            20 => Some(FailStatusItem::SelfTestStackRegisterFail),
            21 => Some(FailStatusItem::SelfTestCsRegisterFail),
            22 => Some(FailStatusItem::SelfTestEsRegisterFail),
            23 => Some(FailStatusItem::SelfTestRamFailDfFail),
            _ => None,
        }
    }

    /// Every fault once, in the fixed order.
    pub fn iter() -> (items: Vec<FailStatusItem>)
        ensures
            items@ == FailStatusItem::spec_all(),
    {
        let mut items: Vec<FailStatusItem> = Vec::new();
        let mut index: usize = 0;
        while index < 24
            invariant
                index <= 24,
                items@ == FailStatusItem::spec_all().take(index as int),
            decreases 24 - index,
        {
            match FailStatusItem::from_index(index) {
                Some(item) => items.push(item),
                None => {},
            }
            index += 1;
        }
        items
    }
}

/// What `item` reads as, given the byte of its register, or `None` where
/// that register could not be had.
pub open spec fn spec_fail_state_of(item: FailStatusItem, register: Option<u8>) -> FailState {
    match register {
        Some(byte) => bit_state(byte, item.spec_bit()),
        None => FailState::Unknown,
    }
}

/// What `item` reads as, given the byte of its register, or `None` where
/// that register could not be had.
pub fn fail_state_of(item: FailStatusItem, register: Option<u8>) -> (state: FailState)
    ensures
        state == spec_fail_state_of(item, register),
{
    match register {
        Some(byte) => fail_state_from_byte_and_bit_pos(byte, item.bit()),
        None => FailState::default(),
    }
}

/// Two faults that share a register and a bit are one fault: no bit of a
/// register stands for two faults.
pub proof fn lemma_register_and_bit_name_one_fault(a: FailStatusItem, b: FailStatusItem)
    requires
        a.spec_register() == b.spec_register(),
        a.spec_bit() == b.spec_bit(),
    ensures
        a == b,
{
}

/// The fixed order holds all 24 faults, the fault of register `r` and bit
/// `b` at place `8 * (r - 1) + b`.
pub proof fn lemma_fixed_order(item: FailStatusItem)
    ensures
        FailStatusItem::spec_all().len() == 24,
        FailStatusItem::spec_all()[8 * (item.spec_register() - 1) + item.spec_bit()] == item,
{
}

/// A register with every bit clear reads `Good` for each of its faults.
pub proof fn lemma_clear_register_reads_good(item: FailStatusItem)
    ensures
        spec_fail_state_of(item, Some(0x00u8)) == FailState::Good,
{
    let pos = item.spec_bit();
    assert(0x00u8 & (1u8 << pos) == 0) by (bit_vector);
}

/// A register with every bit set reads `Ng` for each of its faults.
pub proof fn lemma_full_register_reads_ng(item: FailStatusItem)
    ensures
        spec_fail_state_of(item, Some(0xffu8)) == FailState::Ng,
{
    let pos = item.spec_bit();
    assert(pos < 8 ==> 0xffu8 & (1u8 << pos) != 0) by (bit_vector);
}

/// The byte of register `register` when the bit of the fault `set` is set
/// and every other bit of the three registers is clear.
pub open spec fn register_with_only(set: FailStatusItem, register: u8) -> u8 {
    if set.spec_register() == register {
        1u8 << set.spec_bit()
    } else {
        0x00u8
    }
}

/// Reading is by place alone: with only the bit of the fault `set` set,
/// `set` reads `Ng` and each of the 23 other faults reads `Good`.
pub proof fn lemma_single_bit_reads_one_fault(set: FailStatusItem, asked: FailStatusItem)
    ensures
        spec_fail_state_of(asked, Some(register_with_only(set, asked.spec_register()))) == if asked
            == set {
            FailState::Ng
        } else {
            FailState::Good
        },
{
    let i = set.spec_bit();
    let j = asked.spec_bit();
    if set.spec_register() == asked.spec_register() {
        assert(i < 8 && j < 8 ==> (((1u8 << i) & (1u8 << j) == 0) <==> i != j)) by (bit_vector);
        if i == j {
            lemma_register_and_bit_name_one_fault(set, asked);
        }
    } else {
        lemma_clear_register_reads_good(asked);
    }
}

/// The byte of the first register, where asking for it gave one.
pub open spec fn status_1_byte(status: Result<FailStatus1, Error>) -> Option<u8> {
    match status {
        Ok(status) => Some(status.0),
        Err(_) => None,
    }
}

/// The byte of the second register, where asking for it gave one.
pub open spec fn status_2_byte(status: Result<FailStatus2, Error>) -> Option<u8> {
    match status {
        Ok(status) => Some(status.0),
        Err(_) => None,
    }
}

/// The byte of the third register, where asking for it gave one.
pub open spec fn status_3_byte(status: Result<FailStatus3, Error>) -> Option<u8> {
    match status {
        Ok(status) => Some(status.0),
        Err(_) => None,
    }
}

/// The faults of a battery module by name.
pub trait FailStatus {
    /// What is known of the fault `item`.
    fn fail_status(&self, item: FailStatusItem) -> FailState;

    /// Every fault with what is known of it, in the fixed order.
    fn fail_status_values(&self) -> (values: FailStatusValuesIter<'_, Self>)
        ensures
            values.source() == self,
            values.position() == 0,
    {
        FailStatusValuesIter::new(self)
    }
}

/// A walk over every fault of `S`, each with what is known of it.
pub struct FailStatusValuesIter<'a, S> where S: ?Sized {
    fail_status: &'a S,
    next_index: usize,
}

impl<'a, S> FailStatusValuesIter<'a, S> where S: ?Sized {
    /// What the walk asks.
    pub closed spec fn source(&self) -> &S {
        self.fail_status
    }

    /// How many faults the walk has passed.
    pub closed spec fn position(&self) -> nat {
        self.next_index as nat
    }

    /// A walk that starts at the first fault.
    pub fn new(fail_status: &'a S) -> (values: Self)
        ensures
            values.source() == fail_status,
            values.position() == 0,
    {
        Self { fail_status, next_index: 0 }
    }
}

impl<'a, S> FailStatusValuesIter<'a, S> where S: FailStatus + ?Sized {
    /// The next fault with its state as `S` gives it, or `None` once all 24
    /// have been given.
    pub fn next(&mut self) -> (value: Option<(FailStatusItem, FailState)>)
        ensures
            final(self).source() == old(self).source(),
            old(self).position() < 24 ==> final(self).position() == old(self).position() + 1,
            old(self).position() < 24 ==> (value matches Some((item, state)) && item
                == FailStatusItem::spec_all()[old(self).position() as int]
                && S::fail_status.ensures((old(self).source(), item), state)),
            old(self).position() >= 24 ==> value is None && final(self).position() == old(
                self,
            ).position(),
    {
        match FailStatusItem::from_index(self.next_index) {
            Some(item) => {
                self.next_index += 1;
                Some((item, self.fail_status.fail_status(item)))
            },
            None => None,
        }
    }
}

impl<B: BatteryState> FailStatus for B {
    /// Asks for the register that holds the bit of `item` and reads the bit.
    /// A register that cannot be had makes the fault `Unknown`.
    fn fail_status(&self, item: FailStatusItem) -> (state: FailState)
        ensures
            item.spec_register() == 1 ==> exists|status: Result<FailStatus1, Error>|
                #[trigger] B::fail_status_1.ensures((self,), status) && state
                    == spec_fail_state_of(item, status_1_byte(status)),
            item.spec_register() == 2 ==> exists|status: Result<FailStatus2, Error>|
                #[trigger] B::fail_status_2.ensures((self,), status) && state
                    == spec_fail_state_of(item, status_2_byte(status)),
            item.spec_register() == 3 ==> exists|status: Result<FailStatus3, Error>|
                #[trigger] B::fail_status_3.ensures((self,), status) && state
                    == spec_fail_state_of(item, status_3_byte(status)),
    {
        let register = match item.register() {
            1 => match self.fail_status_1() {
                Ok(status) => Some(status.0),
                Err(_) => None,
            },
            2 => match self.fail_status_2() {
                Ok(status) => Some(status.0),
                Err(_) => None,
            },
            _ => match self.fail_status_3() {
                Ok(status) => Some(status.0),
                Err(_) => None,
            },
        };
        fail_state_of(item, register)
    }
}

} // verus!
