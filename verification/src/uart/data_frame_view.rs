use vstd::prelude::*;

use super::command::Command;
use super::data_frame::DataFrame;
use crate::battery_state::{BatteryState, Temperature};
use crate::error::{Error, ErrorView};
use crate::fail_status::{
    spec_fail_state_of, FailState, FailStatus, FailStatus1, FailStatus2, FailStatus3,
    FailStatusItem,
};
use crate::utils::{bytes_to_i16, bytes_to_u16, cut_slice, spec_be_i16, spec_be_u16};

verus! {

/// How many cells the module has, as an all-in-one module does.
pub const NUMBER_OF_CELLS: usize = 8;

/// Where the module information holds the first cell's voltage.
pub const CELL_VOLTAGE_INDEX_IN_BM_INFORMATION: usize = 1;

/// Where the module information holds the current, in units of 10 mA.
pub const CURRENT_INDEX_IN_BM_INFORMATION: usize = 17;

/// Where the module information holds the temperature, in tenths of a
/// degree.
pub const TEMPERATURE_INDEX_IN_BM_INFORMATION: usize = 19;

/// Where the module information holds the remaining capacity.
pub const REMAINING_CAPACITY_INDEX_IN_BM_INFORMATION: usize = 21;

/// Where the module information holds the full charge capacity.
pub const FULL_CHARGE_CAPACITY_INDEX_IN_BM_INFORMATION: usize = 23;

/// Where the module information holds the design capacity.
pub const DESIGN_CAPACITY_INDEX_IN_BM_INFORMATION: usize = 25;

/// Where the module information holds the state of health.
pub const STATE_OF_HEALTH_INDEX_IN_BM_INFORMATION: usize = 28;

/// Where the module information holds the first fault register.
pub const FAIL_STATUS_1_INDEX_IN_BM_INFORMATION: usize = 0;

/// Where the module information holds the second fault register.
pub const FAIL_STATUS_2_INDEX_IN_BM_INFORMATION: usize = 27;

/// Where the summary holds the current, in units of 10 mA.
pub const CURRENT_INDEX_IN_SUMMARY_DATA: usize = 7;

/// Where the summary holds the absolute state of charge.
pub const ABSOLUTE_STATE_OF_CHARGE_INDEX_IN_SUMMARY_DATA: usize = 2;

/// Where the summary holds the relative state of charge.
pub const RELATIVE_STATE_OF_CHARGE_INDEX_IN_SUMMARY_DATA: usize = 3;

/// Where the summary holds the state of health.
pub const STATE_OF_HEALTH_INDEX_IN_SUMMARY_DATA: usize = 4;

/// Where the summary holds the voltage of the whole module.
pub const BM_VOLTAGE_MAX_INDEX_IN_SUMMARY_DATA: usize = 11;

/// Where the summary holds the design capacity, in units of 10 mAh.
pub const DESIGN_CAPACITY_INDEX_IN_SUMMARY_DATA: usize = 17;

/// Where the summary holds the full charge capacity, in units of 10 mAh.
pub const FULL_CHARGE_CAPACITY_INDEX_IN_SUMMARY_DATA: usize = 19;

/// Where the summary holds the remaining capacity, in units of 10 mAh.
pub const REMAINING_CAPACITY_INDEX_IN_SUMMARY_DATA: usize = 21;

/// Where the summary holds the highest temperature, in tenths of a degree.
pub const MAX_TEMPERATURE_INDEX_IN_SUMMARY_DATA: usize = 32;

/// Where the summary holds the first fault register.
pub const FAIL_STATUS_1_INDEX_IN_SUMMARY_DATA: usize = 0;

/// Where the summary holds the second fault register.
pub const FAIL_STATUS_2_INDEX_IN_SUMMARY_DATA: usize = 13;

/// Where the summary holds the third fault register.
pub const FAIL_STATUS_3_INDEX_IN_SUMMARY_DATA: usize = 14;

/// The unsigned number that the two bytes of `data` at `offset` spell.
pub open spec fn u16_at(data: Seq<u8>, offset: int) -> int {
    spec_be_u16(data.subrange(offset, offset + 2))
}

/// The signed number that the two bytes of `data` at `offset` spell.
pub open spec fn i16_at(data: Seq<u8>, offset: int) -> int {
    spec_be_i16(data.subrange(offset, offset + 2))
}

/// The error of an accessor whose value the frame's command does not carry.
pub open spec fn no_appropriate_data(command: Command, sources: Seq<Command>) -> ErrorView {
    ErrorView::NoAppropriateData { response_command: command, must_be_any_of: sources }
}

/// Where the answer to `command` holds the first cell's voltage, if it
/// holds the cells' voltages.
pub open spec fn cell_voltages_offset(command: Command) -> Option<int> {
    match command {
        Command::CellVoltage => Some(0),
        Command::BmInformation => Some(CELL_VOLTAGE_INDEX_IN_BM_INFORMATION as int),
        _ => None,
    }
}

/// The voltage of cell `cell` in mV, counted from 0, where the cells'
/// voltages start at `offset`.
pub open spec fn cell_voltage_at(data: Seq<u8>, offset: int, cell: int) -> int {
    u16_at(data, offset + 2 * cell)
}

/// The sum of the voltages of the first `cells` cells.
pub open spec fn cell_voltage_sum(data: Seq<u8>, offset: int, cells: nat) -> int
    decreases cells,
{
    if cells == 0 {
        0
    } else {
        cell_voltage_sum(data, offset, (cells - 1) as nat) + cell_voltage_at(
            data,
            offset,
            cells - 1,
        )
    }
}

/// The commands whose answer holds the cells' voltages.
pub open spec fn cell_voltages_sources() -> Seq<Command> {
    seq![Command::CellVoltage, Command::BmInformation]
}

/// The current in mA that the answer `data` to `command` reports.
pub open spec fn spec_current(command: Command, data: Seq<u8>) -> Option<int> {
    match command {
        Command::Current => Some(i16_at(data, 0)),
        Command::BmInformation => Some(10 * i16_at(data, CURRENT_INDEX_IN_BM_INFORMATION as int)),
        Command::SummaryData => Some(10 * i16_at(data, CURRENT_INDEX_IN_SUMMARY_DATA as int)),
        _ => None,
    }
}

/// The commands whose answer holds the current.
pub open spec fn current_sources() -> Seq<Command> {
    seq![Command::Current, Command::BmInformation, Command::SummaryData]
}

/// The temperature that the answer `data` to `command` reports: whole
/// degrees in the answer to the temperature command, tenths elsewhere. The
/// summary holds several; the highest is taken.
pub open spec fn spec_temperature(command: Command, data: Seq<u8>) -> Option<Temperature> {
    match command {
        Command::Temperature => Some(Temperature::Degrees(i16_at(data, 0) as i16)),
        Command::BmInformation => Some(
            Temperature::Tenths(i16_at(data, TEMPERATURE_INDEX_IN_BM_INFORMATION as int) as i16),
        ),
        Command::SummaryData => Some(
            Temperature::Tenths(i16_at(data, MAX_TEMPERATURE_INDEX_IN_SUMMARY_DATA as int) as i16),
        ),
        _ => None,
    }
}

/// The commands whose answer holds a temperature.
pub open spec fn temperature_sources() -> Seq<Command> {
    seq![Command::Temperature, Command::BmInformation, Command::SummaryData]
}

/// The remaining capacity in mAh that the answer `data` to `command`
/// reports.
pub open spec fn spec_remaining_capacity(command: Command, data: Seq<u8>) -> Option<int> {
    match command {
        Command::RemainingCapacity => Some(u16_at(data, 0)),
        Command::BmInformation => Some(
            u16_at(data, REMAINING_CAPACITY_INDEX_IN_BM_INFORMATION as int),
        ),
        Command::SummaryData => Some(
            10 * u16_at(data, REMAINING_CAPACITY_INDEX_IN_SUMMARY_DATA as int),
        ),
        _ => None,
    }
}

/// The commands whose answer holds the remaining capacity.
pub open spec fn remaining_capacity_sources() -> Seq<Command> {
    seq![Command::RemainingCapacity, Command::BmInformation, Command::SummaryData]
}

/// The design capacity in mAh that the answer `data` to `command` reports.
pub open spec fn spec_design_capacity(command: Command, data: Seq<u8>) -> Option<int> {
    match command {
        Command::DesignCapacity => Some(u16_at(data, 0)),
        Command::BmInformation => {
            Some(u16_at(data, DESIGN_CAPACITY_INDEX_IN_BM_INFORMATION as int))
        },
        Command::SummaryData => Some(
            10 * u16_at(data, DESIGN_CAPACITY_INDEX_IN_SUMMARY_DATA as int),
        ),
        _ => None,
    }
}

/// The commands whose answer holds the design capacity.
pub open spec fn design_capacity_sources() -> Seq<Command> {
    seq![Command::DesignCapacity, Command::BmInformation, Command::SummaryData]
}

/// The full charge capacity in mAh that the answer `data` to `command`
/// reports.
pub open spec fn spec_full_charge_capacity(command: Command, data: Seq<u8>) -> Option<int> {
    match command {
        Command::FullChargeCapacity => Some(u16_at(data, 0)),
        Command::BmInformation => Some(
            u16_at(data, FULL_CHARGE_CAPACITY_INDEX_IN_BM_INFORMATION as int),
        ),
        Command::SummaryData => Some(
            10 * u16_at(data, FULL_CHARGE_CAPACITY_INDEX_IN_SUMMARY_DATA as int),
        ),
        _ => None,
    }
}

/// The commands whose answer holds the full charge capacity.
pub open spec fn full_charge_capacity_sources() -> Seq<Command> {
    seq![Command::FullChargeCapacity, Command::BmInformation, Command::SummaryData]
}

/// `part` over `whole` in percent, rounded to the nearest whole number, a
/// half upwards. Over a `whole` of zero, nothing is 0 percent and anything
/// else is as many percent as a `u32` can count.
pub open spec fn percent_rounded(part: int, whole: int) -> int {
    if whole != 0 {
        (200 * part + whole) / (2 * whole)
    } else if part == 0 {
        0
    } else {
        u32::MAX as int
    }
}

/// The absolute state of charge in percent that the answer `data` to
/// `command` reports: worked out from the capacities of the module
/// information, read as it stands from the summary.
pub open spec fn spec_absolute_state_of_charge(command: Command, data: Seq<u8>) -> Option<int> {
    match command {
        Command::BmInformation => Some(
            percent_rounded(
                u16_at(data, REMAINING_CAPACITY_INDEX_IN_BM_INFORMATION as int),
                u16_at(data, DESIGN_CAPACITY_INDEX_IN_BM_INFORMATION as int),
            ),
        ),
        Command::SummaryData => Some(
            data[ABSOLUTE_STATE_OF_CHARGE_INDEX_IN_SUMMARY_DATA as int] as int,
        ),
        _ => None,
    }
}

/// The commands whose answer holds what the states of charge are made of.
pub open spec fn state_of_charge_sources() -> Seq<Command> {
    seq![Command::BmInformation, Command::SummaryData]
}

/// The relative state of charge in percent that the answer `data` to
/// `command` reports: in the module information a hundred times the
/// remaining capacity over the full charge capacity, the fraction dropped,
/// and nothing where the full charge capacity is zero; in the summary the
/// byte as it stands.
pub open spec fn spec_relative_state_of_charge(command: Command, data: Seq<u8>) -> Option<int> {
    match command {
        Command::BmInformation => {
            let remaining = u16_at(data, REMAINING_CAPACITY_INDEX_IN_BM_INFORMATION as int);
            let full_charge = u16_at(data, FULL_CHARGE_CAPACITY_INDEX_IN_BM_INFORMATION as int);
            if full_charge == 0 {
                None
            } else {
                Some(100 * remaining / full_charge)
            }
        },
        Command::SummaryData => Some(
            data[RELATIVE_STATE_OF_CHARGE_INDEX_IN_SUMMARY_DATA as int] as int,
        ),
        _ => None,
    }
}

/// The state of health in percent that the answer `data` to `command`
/// reports.
pub open spec fn spec_state_of_health(command: Command, data: Seq<u8>) -> Option<int> {
    match command {
        Command::StateOfHealth => Some(data[0] as int),
        Command::BmInformation => Some(data[STATE_OF_HEALTH_INDEX_IN_BM_INFORMATION as int] as int),
        Command::SummaryData => Some(data[STATE_OF_HEALTH_INDEX_IN_SUMMARY_DATA as int] as int),
        _ => None,
    }
}

/// The commands whose answer holds the state of health.
pub open spec fn state_of_health_sources() -> Seq<Command> {
    seq![Command::StateOfHealth, Command::BmInformation, Command::SummaryData]
}

/// The voltage of the whole module in mV that the answer `data` to
/// `command` reports: the sum of the cells in the module information, a
/// number of its own in the summary.
pub open spec fn spec_bm_voltage(command: Command, data: Seq<u8>) -> Option<int> {
    match command {
        Command::BmInformation => Some(
            cell_voltage_sum(
                data,
                CELL_VOLTAGE_INDEX_IN_BM_INFORMATION as int,
                NUMBER_OF_CELLS as nat,
            ),
        ),
        Command::SummaryData => Some(u16_at(data, BM_VOLTAGE_MAX_INDEX_IN_SUMMARY_DATA as int)),
        _ => None,
    }
}

/// The commands whose answer holds what the module's voltage is made of.
pub open spec fn bm_voltage_sources() -> Seq<Command> {
    seq![Command::BmInformation, Command::SummaryData]
}

/// The first fault register that the answer `data` to `command` reports.
pub open spec fn spec_fail_status_1(command: Command, data: Seq<u8>) -> Option<u8> {
    match command {
        Command::FailStatus1 => Some(data[0]),
        Command::BmInformation => Some(data[FAIL_STATUS_1_INDEX_IN_BM_INFORMATION as int]),
        Command::SummaryData => Some(data[FAIL_STATUS_1_INDEX_IN_SUMMARY_DATA as int]),
        _ => None,
    }
}

/// The commands whose answer holds the first fault register.
pub open spec fn fail_status_1_sources() -> Seq<Command> {
    seq![Command::FailStatus1, Command::BmInformation, Command::SummaryData]
}

/// The second fault register that the answer `data` to `command` reports.
pub open spec fn spec_fail_status_2(command: Command, data: Seq<u8>) -> Option<u8> {
    match command {
        Command::FailStatus2 => Some(data[0]),
        Command::BmInformation => Some(data[FAIL_STATUS_2_INDEX_IN_BM_INFORMATION as int]),
        Command::SummaryData => Some(data[FAIL_STATUS_2_INDEX_IN_SUMMARY_DATA as int]),
        _ => None,
    }
}

/// The commands whose answer holds the second fault register.
pub open spec fn fail_status_2_sources() -> Seq<Command> {
    seq![Command::FailStatus2, Command::BmInformation, Command::SummaryData]
}

/// The third fault register that the answer `data` to `command` reports.
pub open spec fn spec_fail_status_3(command: Command, data: Seq<u8>) -> Option<u8> {
    match command {
        Command::SummaryData => Some(data[FAIL_STATUS_3_INDEX_IN_SUMMARY_DATA as int]),
        _ => None,
    }
}

/// The commands whose answer holds the third fault register.
pub open spec fn fail_status_3_sources() -> Seq<Command> {
    seq![Command::SummaryData]
}

/// The fault register with number `register` that the answer `data` to
/// `command` reports.
pub open spec fn spec_fail_register(command: Command, data: Seq<u8>, register: u8) -> Option<u8> {
    if register == 1 {
        spec_fail_status_1(command, data)
    } else if register == 2 {
        spec_fail_status_2(command, data)
    } else {
        spec_fail_status_3(command, data)
    }
}

/// What the answer `data` to `command` says of the fault `item`.
pub open spec fn spec_fail_status(
    command: Command,
    data: Seq<u8>,
    item: FailStatusItem,
) -> FailState {
    spec_fail_state_of(item, spec_fail_register(command, data, item.spec_register()))
}

/// A valid data frame, read as the values that its command carries.
#[derive(Debug)]
pub struct DataFrameView<'a> {
    data_frame: &'a DataFrame,
}

impl<'a> DataFrameView<'a> {
    #[verifier::type_invariant]
    spec fn well_formed(&self) -> bool {
        self.data_frame.spec_fault() is None
    }

    /// The frame that is read.
    pub closed spec fn spec_data_frame(&self) -> &'a DataFrame {
        self.data_frame
    }

    /// The command that the frame answers.
    pub open spec fn command(&self) -> Command {
        self.spec_data_frame().spec_response_command()
    }

    /// The data bytes of the frame.
    pub open spec fn data(&self) -> Seq<u8> {
        self.spec_data_frame().spec_data()
    }

    /// A view of `data_frame` where it keeps the framing rules, the first
    /// rule that it breaks otherwise.
    pub fn try_new(data_frame: &'a DataFrame) -> (view: Result<Self, Error>)
        ensures
            match view {
                Ok(view) => data_frame.spec_fault() is None && view.spec_data_frame()
                    == data_frame,
                Err(e) => data_frame.spec_fault() matches Some(fault) && e@
                    == ErrorView::InvalidUartDataFrame(fault.message()),
            },
    {
        data_frame.is_valid()?;
        Ok(Self { data_frame })
    }

    /// The frame that is read. It keeps the framing rules.
    #[verifier::when_used_as_spec(spec_data_frame)]
    pub fn data_frame(&self) -> (data_frame: &'a DataFrame)
        ensures
            data_frame == self.spec_data_frame(),
            data_frame.spec_fault() is None,
    {
        proof {
            use_type_invariant(self);
        }
        self.data_frame
    }
}

impl<'a> BatteryState for DataFrameView<'a> {
    /// The voltage of each of the eight cells, in mV.
    fn cell_voltages(&self) -> (voltages: Result<Vec<u32>, Error>)
        ensures
            match voltages {
                Ok(voltages) => cell_voltages_offset(self.command()) matches Some(offset)
                    && voltages@.len() == NUMBER_OF_CELLS && forall|cell: int|
                    0 <= cell < NUMBER_OF_CELLS ==> voltages@[cell] == cell_voltage_at(
                        self.data(),
                        offset,
                        cell,
                    ),
                Err(e) => cell_voltages_offset(self.command()) is None && e@
                    == no_appropriate_data(self.command(), cell_voltages_sources()),
            },
    {
        let data = self.data_frame.data();
        let data = match self.data_frame.response_command() {
            Command::CellVoltage => data,
            Command::BmInformation => cut_slice(
                data,
                CELL_VOLTAGE_INDEX_IN_BM_INFORMATION,
                NUMBER_OF_CELLS * 2,
            )?,
            _ => {
                return Err(
                    Error::NoAppropriateData {
                        response_command: self.data_frame.response_command(),
                        must_be_any_of: vec![Command::CellVoltage, Command::BmInformation],
                    },
                )
            },
        };
        let ghost offset = cell_voltages_offset(self.command())->0;
        let mut voltages: Vec<u32> = Vec::new();
        let mut cell: usize = 0;
        while cell < NUMBER_OF_CELLS
            invariant
                cell <= NUMBER_OF_CELLS,
                data@.len() == NUMBER_OF_CELLS * 2,
                data@ == self.data().subrange(offset, offset + NUMBER_OF_CELLS * 2),
                0 <= offset,
                offset + NUMBER_OF_CELLS * 2 <= self.data().len(),
                voltages@.len() == cell,
                forall|i: int|
                    0 <= i < cell ==> voltages@[i] == cell_voltage_at(self.data(), offset, i),
            decreases NUMBER_OF_CELLS - cell,
        {
            let chunk = cut_slice(data, cell * 2, 2)?;
            assert(chunk@ == self.data().subrange(offset + 2 * cell, offset + 2 * cell + 2));
            voltages.push(bytes_to_u16(chunk)? as u32);
            cell += 1;
        }
        Ok(voltages)
    }

    /// The current in mA: positive while charging, negative while
    /// discharging.
    fn current(&self) -> (current: Result<i32, Error>)
        ensures
            match current {
                Ok(current) => spec_current(self.command(), self.data()) == Some(current as int),
                Err(e) => spec_current(self.command(), self.data()) is None && e@
                    == no_appropriate_data(self.command(), current_sources()),
            },
    {
        let data = self.data_frame.data();
        match self.data_frame.response_command() {
            Command::Current => Ok(bytes_to_i16(data)? as i32),
            Command::BmInformation => Ok(
                bytes_to_i16(cut_slice(data, CURRENT_INDEX_IN_BM_INFORMATION, 2)?)? as i32 * 10,
            ),
            Command::SummaryData => Ok(
                bytes_to_i16(cut_slice(data, CURRENT_INDEX_IN_SUMMARY_DATA, 2)?)? as i32 * 10,
            ),
            _ => Err(
                Error::NoAppropriateData {
                    response_command: self.data_frame.response_command(),
                    must_be_any_of: vec![
                        Command::Current,
                        Command::BmInformation,
                        Command::SummaryData,
                    ],
                },
            ),
        }
    }

    /// The temperature of the module.
    fn temperature(&self) -> (temperature: Result<Temperature, Error>)
        ensures
            match temperature {
                Ok(temperature) => spec_temperature(self.command(), self.data()) == Some(
                    temperature,
                ),
                Err(e) => spec_temperature(self.command(), self.data()) is None && e@
                    == no_appropriate_data(self.command(), temperature_sources()),
            },
    {
        let data = self.data_frame.data();
        match self.data_frame.response_command() {
            Command::Temperature => Ok(Temperature::Degrees(bytes_to_i16(data)?)),
            Command::BmInformation => Ok(
                Temperature::Tenths(
                    bytes_to_i16(cut_slice(data, TEMPERATURE_INDEX_IN_BM_INFORMATION, 2)?)?,
                ),
            ),
            Command::SummaryData => Ok(
                Temperature::Tenths(
                    bytes_to_i16(cut_slice(data, MAX_TEMPERATURE_INDEX_IN_SUMMARY_DATA, 2)?)?,
                ),
            ),
            _ => Err(
                Error::NoAppropriateData {
                    response_command: self.data_frame.response_command(),
                    must_be_any_of: vec![
                        Command::Temperature,
                        Command::BmInformation,
                        Command::SummaryData,
                    ],
                },
            ),
        }
    }

    /// The charge that is left, in mAh.
    fn remaining_capacity(&self) -> (value: Result<u32, Error>)
        ensures
            match value {
                Ok(value) => {
                    spec_remaining_capacity(self.command(), self.data()) == Some(value as int)
                },
                Err(e) => spec_remaining_capacity(self.command(), self.data()) is None && e@
                    == no_appropriate_data(self.command(), remaining_capacity_sources()),
            },
    {
        let data = self.data_frame.data();
        match self.data_frame.response_command() {
            Command::RemainingCapacity => Ok(bytes_to_u16(data)? as u32),
            Command::BmInformation => Ok(
                bytes_to_u16(
                    cut_slice(data, REMAINING_CAPACITY_INDEX_IN_BM_INFORMATION, 2)?,
                )? as u32,
            ),
            Command::SummaryData => Ok(
                bytes_to_u16(
                    cut_slice(data, REMAINING_CAPACITY_INDEX_IN_SUMMARY_DATA, 2)?,
                )? as u32 * 10,
            ),
            _ => Err(
                Error::NoAppropriateData {
                    response_command: self.data_frame.response_command(),
                    must_be_any_of: vec![
                        Command::RemainingCapacity,
                        Command::BmInformation,
                        Command::SummaryData,
                    ],
                },
            ),
        }
    }

    /// The charge that the module holds when full, in mAh.
    fn full_charge_capacity(&self) -> (value: Result<u32, Error>)
        ensures
            match value {
                Ok(value) => {
                    spec_full_charge_capacity(self.command(), self.data()) == Some(value as int)
                },
                Err(e) => spec_full_charge_capacity(self.command(), self.data()) is None && e@
                    == no_appropriate_data(self.command(), full_charge_capacity_sources()),
            },
    {
        let data = self.data_frame.data();
        match self.data_frame.response_command() {
            Command::FullChargeCapacity => Ok(bytes_to_u16(data)? as u32),
            Command::BmInformation => Ok(
                bytes_to_u16(
                    cut_slice(data, FULL_CHARGE_CAPACITY_INDEX_IN_BM_INFORMATION, 2)?,
                )? as u32,
            ),
            Command::SummaryData => Ok(
                bytes_to_u16(
                    cut_slice(data, FULL_CHARGE_CAPACITY_INDEX_IN_SUMMARY_DATA, 2)?,
                )? as u32 * 10,
            ),
            _ => Err(
                Error::NoAppropriateData {
                    response_command: self.data_frame.response_command(),
                    must_be_any_of: vec![
                        Command::FullChargeCapacity,
                        Command::BmInformation,
                        Command::SummaryData,
                    ],
                },
            ),
        }
    }

    /// The charge that the module was built to hold, in mAh.
    fn design_capacity(&self) -> (value: Result<u32, Error>)
        ensures
            match value {
                Ok(value) => {
                    spec_design_capacity(self.command(), self.data()) == Some(value as int)
                },
                Err(e) => spec_design_capacity(self.command(), self.data()) is None && e@
                    == no_appropriate_data(self.command(), design_capacity_sources()),
            },
    {
        let data = self.data_frame.data();
        match self.data_frame.response_command() {
            Command::DesignCapacity => Ok(bytes_to_u16(data)? as u32),
            Command::BmInformation => Ok(
                bytes_to_u16(cut_slice(data, DESIGN_CAPACITY_INDEX_IN_BM_INFORMATION, 2)?)? as u32,
            ),
            Command::SummaryData => Ok(
                bytes_to_u16(
                    cut_slice(data, DESIGN_CAPACITY_INDEX_IN_SUMMARY_DATA, 2)?,
                )? as u32 * 10,
            ),
            _ => Err(
                Error::NoAppropriateData {
                    response_command: self.data_frame.response_command(),
                    must_be_any_of: vec![
                        Command::DesignCapacity,
                        Command::BmInformation,
                        Command::SummaryData,
                    ],
                },
            ),
        }
    }

    /// Remaining capacity over design capacity, in percent.
    fn absolute_state_of_charge(&self) -> (percent: Result<u32, Error>)
        ensures
            match percent {
                Ok(percent) => spec_absolute_state_of_charge(self.command(), self.data()) == Some(
                    percent as int,
                ),
                Err(e) => spec_absolute_state_of_charge(self.command(), self.data()) is None && e@
                    == no_appropriate_data(self.command(), state_of_charge_sources()),
            },
    {
        match self.data_frame.response_command() {
            Command::BmInformation => {
                let remaining = self.remaining_capacity()?;
                let designed = self.design_capacity()?;
                if designed != 0 {
                    Ok((200 * remaining + designed) / (2 * designed))
                } else if remaining == 0 {
                    Ok(0)
                } else {
                    Ok(u32::MAX)
                }
            },
            Command::SummaryData => Ok(
                self.data_frame.data()[ABSOLUTE_STATE_OF_CHARGE_INDEX_IN_SUMMARY_DATA] as u32,
            ),
            _ => Err(
                Error::NoAppropriateData {
                    response_command: self.data_frame.response_command(),
                    must_be_any_of: vec![Command::BmInformation, Command::SummaryData],
                },
            ),
        }
    }

    /// Remaining capacity over full charge capacity, in percent. A module
    /// information that reports a full charge capacity of zero has no such
    /// percentage and is refused as an invalid frame.
    fn relative_state_of_charge(&self) -> (percent: Result<u32, Error>)
        ensures
            match percent {
                Ok(percent) => spec_relative_state_of_charge(self.command(), self.data()) == Some(
                    percent as int,
                ),
                Err(e) => spec_relative_state_of_charge(self.command(), self.data()) is None && e@
                    == (if self.command() == Command::BmInformation {
                    ErrorView::InvalidUartDataFrame("Full charge capacity is zero"@)
                } else {
                    no_appropriate_data(self.command(), state_of_charge_sources())
                }),
            },
    {
        match self.data_frame.response_command() {
            Command::BmInformation => {
                let remaining = self.remaining_capacity()?;
                let full_charge = self.full_charge_capacity()?;
                if full_charge == 0 {
                    Err(Error::InvalidUartDataFrame("Full charge capacity is zero".to_owned()))
                } else {
                    Ok(100 * remaining / full_charge)
                }
            },
            Command::SummaryData => Ok(
                self.data_frame.data()[RELATIVE_STATE_OF_CHARGE_INDEX_IN_SUMMARY_DATA] as u32,
            ),
            _ => Err(
                Error::NoAppropriateData {
                    response_command: self.data_frame.response_command(),
                    must_be_any_of: vec![Command::BmInformation, Command::SummaryData],
                },
            ),
        }
    }

    /// Full charge capacity over design capacity, in percent, as the module
    /// reports it.
    fn state_of_health(&self) -> (percent: Result<u32, Error>)
        ensures
            match percent {
                Ok(percent) => spec_state_of_health(self.command(), self.data()) == Some(
                    percent as int,
                ),
                Err(e) => spec_state_of_health(self.command(), self.data()) is None && e@
                    == no_appropriate_data(self.command(), state_of_health_sources()),
            },
    {
        let data = self.data_frame.data();
        match self.data_frame.response_command() {
            Command::StateOfHealth => Ok(data[0] as u32),
            Command::BmInformation => Ok(data[STATE_OF_HEALTH_INDEX_IN_BM_INFORMATION] as u32),
            Command::SummaryData => Ok(data[STATE_OF_HEALTH_INDEX_IN_SUMMARY_DATA] as u32),
            _ => Err(
                Error::NoAppropriateData {
                    response_command: self.data_frame.response_command(),
                    must_be_any_of: vec![
                        Command::StateOfHealth,
                        Command::BmInformation,
                        Command::SummaryData,
                    ],
                },
            ),
        }
    }

    /// The voltage of the whole module, in mV.
    fn bm_voltage(&self) -> (voltage: Result<u32, Error>)
        ensures
            match voltage {
                Ok(voltage) => spec_bm_voltage(self.command(), self.data()) == Some(
                    voltage as int,
                ),
                Err(e) => spec_bm_voltage(self.command(), self.data()) is None && e@
                    == no_appropriate_data(self.command(), bm_voltage_sources()),
            },
    {
        match self.data_frame.response_command() {
            Command::BmInformation => {
                let voltages = self.cell_voltages()?;
                let ghost offset = CELL_VOLTAGE_INDEX_IN_BM_INFORMATION as int;
                let mut sum: u32 = 0;
                let mut cell: usize = 0;
                while cell < voltages.len()
                    invariant
                        cell <= voltages@.len(),
                        voltages@.len() == NUMBER_OF_CELLS,
                        forall|i: int|
                            0 <= i < NUMBER_OF_CELLS ==> voltages@[i] == cell_voltage_at(
                                self.data(),
                                offset,
                                i,
                            ),
                        sum == cell_voltage_sum(self.data(), offset, cell as nat),
                        sum <= 0xffff * cell,
                    decreases voltages@.len() - cell,
                {
                    assert(voltages@[cell as int] <= 0xffff);
                    sum = sum + voltages[cell];
                    cell += 1;
                }
                Ok(sum)
            },
            Command::SummaryData => Ok(
                bytes_to_u16(
                    cut_slice(self.data_frame.data(), BM_VOLTAGE_MAX_INDEX_IN_SUMMARY_DATA, 2)?,
                )? as u32,
            ),
            _ => Err(
                Error::NoAppropriateData {
                    response_command: self.data_frame.response_command(),
                    must_be_any_of: vec![Command::BmInformation, Command::SummaryData],
                },
            ),
        }
    }

    /// The first fault register.
    fn fail_status_1(&self) -> (status: Result<FailStatus1, Error>)
        ensures
            match status {
                Ok(status) => spec_fail_status_1(self.command(), self.data()) == Some(status.0),
                Err(e) => spec_fail_status_1(self.command(), self.data()) is None && e@
                    == no_appropriate_data(self.command(), fail_status_1_sources()),
            },
    {
        let data = self.data_frame.data();
        let index = match self.data_frame.response_command() {
            Command::FailStatus1 => 0,
            Command::BmInformation => FAIL_STATUS_1_INDEX_IN_BM_INFORMATION,
            Command::SummaryData => FAIL_STATUS_1_INDEX_IN_SUMMARY_DATA,
            _ => {
                return Err(
                    Error::NoAppropriateData {
                        response_command: self.data_frame.response_command(),
                        must_be_any_of: vec![
                        Command::FailStatus1,
                        Command::BmInformation,
                        Command::SummaryData,
                        ],
                    },
                )
            },
        };
        Ok(FailStatus1(data[index]))
    }

    /// The second fault register.
    fn fail_status_2(&self) -> (status: Result<FailStatus2, Error>)
        ensures
            match status {
                Ok(status) => spec_fail_status_2(self.command(), self.data()) == Some(status.0),
                Err(e) => spec_fail_status_2(self.command(), self.data()) is None && e@
                    == no_appropriate_data(self.command(), fail_status_2_sources()),
            },
    {
        let data = self.data_frame.data();
        let index = match self.data_frame.response_command() {
            Command::FailStatus2 => 0,
            Command::BmInformation => FAIL_STATUS_2_INDEX_IN_BM_INFORMATION,
            Command::SummaryData => FAIL_STATUS_2_INDEX_IN_SUMMARY_DATA,
            _ => {
                return Err(
                    Error::NoAppropriateData {
                        response_command: self.data_frame.response_command(),
                        must_be_any_of: vec![
                        Command::FailStatus2,
                        Command::BmInformation,
                        Command::SummaryData,
                        ],
                    },
                )
            },
        };
        Ok(FailStatus2(data[index]))
    }

    /// The third fault register, which only the summary holds.
    fn fail_status_3(&self) -> (status: Result<FailStatus3, Error>)
        ensures
            match status {
                Ok(status) => spec_fail_status_3(self.command(), self.data()) == Some(status.0),
                Err(e) => spec_fail_status_3(self.command(), self.data()) is None && e@
                    == no_appropriate_data(self.command(), fail_status_3_sources()),
            },
    {
        let data = self.data_frame.data();
        let index = match self.data_frame.response_command() {
            Command::SummaryData => FAIL_STATUS_3_INDEX_IN_SUMMARY_DATA,
            _ => {
                let must_be_any_of = vec![Command::SummaryData];
                assert(must_be_any_of@ == fail_status_3_sources());
                return Err(
                    Error::NoAppropriateData {
                        response_command: self.data_frame.response_command(),
                        must_be_any_of,
                    },
                )
            },
        };
        Ok(FailStatus3(data[index]))
    }
}

proof fn lemma_every_entry_is_contained(sources: Seq<Command>)
    ensures
        forall|i: int| 0 <= i < sources.len() ==> sources.contains(#[trigger] sources[i]),
{
}

/// The list that an accessor's error carries holds the commands whose
/// answer has the value, and no other. The relative state of charge has
/// one case more: a module information whose full charge capacity is zero
/// has none.
pub proof fn lemma_sources_are_the_commands_that_serve(command: Command, data: Seq<u8>)
    ensures
        cell_voltages_offset(command) is Some <==> cell_voltages_sources().contains(command),
        spec_current(command, data) is Some <==> current_sources().contains(command),
        spec_temperature(command, data) is Some <==> temperature_sources().contains(command),
        spec_remaining_capacity(command, data) is Some
            <==> remaining_capacity_sources().contains(command),
        spec_design_capacity(command, data) is Some
            <==> design_capacity_sources().contains(command),
        spec_full_charge_capacity(command, data) is Some
            <==> full_charge_capacity_sources().contains(command),
        spec_absolute_state_of_charge(command, data) is Some
            <==> state_of_charge_sources().contains(command),
        spec_state_of_health(command, data) is Some
            <==> state_of_health_sources().contains(command),
        spec_bm_voltage(command, data) is Some <==> bm_voltage_sources().contains(command),
        spec_fail_status_1(command, data) is Some <==> fail_status_1_sources().contains(command),
        spec_fail_status_2(command, data) is Some <==> fail_status_2_sources().contains(command),
        spec_fail_status_3(command, data) is Some <==> fail_status_3_sources().contains(command),
        spec_relative_state_of_charge(command, data) is Some ==> state_of_charge_sources().contains(
            command,
        ),
        state_of_charge_sources().contains(command) && !(command == Command::BmInformation
            && u16_at(data, FULL_CHARGE_CAPACITY_INDEX_IN_BM_INFORMATION as int) == 0)
            ==> spec_relative_state_of_charge(command, data) is Some,
{
    lemma_every_entry_is_contained(bm_voltage_sources());
    lemma_every_entry_is_contained(cell_voltages_sources());
    lemma_every_entry_is_contained(current_sources());
    lemma_every_entry_is_contained(design_capacity_sources());
    lemma_every_entry_is_contained(fail_status_1_sources());
    lemma_every_entry_is_contained(fail_status_2_sources());
    lemma_every_entry_is_contained(fail_status_3_sources());
    lemma_every_entry_is_contained(full_charge_capacity_sources());
    lemma_every_entry_is_contained(remaining_capacity_sources());
    lemma_every_entry_is_contained(state_of_charge_sources());
    lemma_every_entry_is_contained(state_of_health_sources());
    lemma_every_entry_is_contained(temperature_sources());
    assert(fail_status_3_sources()[0] == Command::SummaryData);
}

/// What `fail_status` returns for a view is what the bytes of its frame
/// say of the fault: whatever call of it gave `state`, `state` is the
/// reading of the frame.
pub proof fn lemma_fail_status_reads_the_frame(
    view: &DataFrameView,
    item: FailStatusItem,
    state: FailState,
)
    requires
        call_ensures(<DataFrameView as FailStatus>::fail_status, (view, item), state),
    ensures
        state == spec_fail_status(view.command(), view.data(), item),
{
}

/// A fault whose register the frame's command does not carry reads
/// `Unknown`: the first and second registers come with their own command,
/// the module information and the summary, the third with the summary
/// alone.
pub proof fn lemma_missing_register_reads_unknown(
    command: Command,
    data: Seq<u8>,
    item: FailStatusItem,
)
    requires
        spec_fail_register(command, data, item.spec_register()) is None,
    ensures
        spec_fail_status(command, data, item) == FailState::Unknown,
        item.spec_register() == 1 ==> !fail_status_1_sources().contains(command),
        item.spec_register() == 2 ==> !fail_status_2_sources().contains(command),
        item.spec_register() == 3 ==> !fail_status_3_sources().contains(command),
{
}

/// A fault whose register the frame's command carries never reads
/// `Unknown`.
pub proof fn lemma_present_register_reads_its_bit(
    command: Command,
    data: Seq<u8>,
    item: FailStatusItem,
)
    requires
        spec_fail_register(command, data, item.spec_register()) is Some,
    ensures
        spec_fail_status(command, data, item) != FailState::Unknown,
{
}

} // verus!
