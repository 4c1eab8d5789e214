mod battery_state;
mod error;
mod fail_status;
mod text;
pub mod uart;
pub mod utils;

pub use battery_state::{BatteryState, Temperature};
pub use error::{command_names, quoted, Error, ErrorView};
pub use fail_status::{
    bit_state, fail_state_of, lemma_clear_register_reads_good, lemma_fixed_order,
    lemma_full_register_reads_ng, lemma_register_and_bit_name_one_fault,
    lemma_single_bit_reads_one_fault, register_with_only, spec_fail_state_of, status_1_byte,
    status_2_byte, status_3_byte, FailState, FailStatus, FailStatus1, FailStatus2, FailStatus3,
    FailStatusItem, FailStatusValuesIter,
};
pub use text::{spec_decimal, spec_digit};
