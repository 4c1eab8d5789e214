use vstd::prelude::*;

use crate::error::Error;
use crate::fail_status::{FailStatus1, FailStatus2, FailStatus3};

verus! {

/// A temperature as the module sends it: a whole number, and the unit that
/// it counts.
#[derive(Clone, Copy, Debug, PartialEq, Eq, Structural)]
pub enum Temperature {
    /// So many degrees Celsius.
    Degrees(i16),
    /// So many tenths of a degree Celsius.
    Tenths(i16),
}

impl Temperature {
    /// The temperature in tenths of a degree Celsius.
    pub open spec fn spec_tenths(self) -> int {
        match self {
            Temperature::Degrees(degrees) => 10 * degrees,
            Temperature::Tenths(tenths) => tenths as int,
        }
    }

    /// The temperature in tenths of a degree Celsius.
    pub fn tenths(self) -> (tenths: i32)
        ensures
            tenths == self.spec_tenths(),
    {
        match self {
            Temperature::Degrees(degrees) => 10 * (degrees as i32),
            Temperature::Tenths(tenths) => tenths as i32,
        }
    }
}

/// What a battery module can be asked about.
///
/// An implementation answers each question with a value or with the reason
/// why it has none.
pub trait BatteryState {
    /// The voltage of each cell, in mV.
    fn cell_voltages(&self) -> Result<Vec<u32>, Error>;

    /// The current in mA: positive while charging, negative while
    /// discharging.
    fn current(&self) -> Result<i32, Error>;

    /// The temperature of the module.
    fn temperature(&self) -> Result<Temperature, Error>;

    /// The charge that is left, in mAh.
    fn remaining_capacity(&self) -> Result<u32, Error>;

    /// The charge that the module holds when full, in mAh.
    fn full_charge_capacity(&self) -> Result<u32, Error>;

    /// The charge that the module was built to hold, in mAh.
    fn design_capacity(&self) -> Result<u32, Error>;

    /// Remaining capacity over design capacity, in percent.
    fn absolute_state_of_charge(&self) -> Result<u32, Error>;

    /// Remaining capacity over full charge capacity, in percent.
    fn relative_state_of_charge(&self) -> Result<u32, Error>;

    /// Full charge capacity over design capacity, in percent.
    fn state_of_health(&self) -> Result<u32, Error>;

    /// The voltage of the whole module, in mV.
    fn bm_voltage(&self) -> Result<u32, Error>;

    /// The first fault register.
    fn fail_status_1(&self) -> Result<FailStatus1, Error>;

    /// The second fault register.
    fn fail_status_2(&self) -> Result<FailStatus2, Error>;

    /// The third fault register.
    fn fail_status_3(&self) -> Result<FailStatus3, Error>;
}

} // verus!
