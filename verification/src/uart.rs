mod command;
mod command_frame;
mod data_frame;
mod data_frame_view;
mod utils;

pub use command::{lemma_code_names_one_command, Command};
pub use command_frame::{
    command_frame_bytes, lemma_command_frame_checksum, CommandFrame, COMMAND_FRAME_START_CODE,
    LEADER_BM_ID,
};
pub use data_frame::{
    frame_fault, lemma_bit_flip_invalidates, lemma_faults_come_in_order,
    lemma_fresh_checksum_validates, lemma_start_code_is_tried_first, mismatch_text, DataFrame,
    FrameFault, DATA_FRAME_START_CODE, DATA_OFFSET, NUMBER_OF_BYTES_EXCEPT_FOR_DATA,
};
pub use data_frame_view::{
    bm_voltage_sources, cell_voltage_at, cell_voltage_sum, cell_voltages_offset,
    cell_voltages_sources, current_sources, design_capacity_sources, fail_status_1_sources,
    fail_status_2_sources, fail_status_3_sources, full_charge_capacity_sources, i16_at,
    lemma_fail_status_reads_the_frame, lemma_missing_register_reads_unknown,
    lemma_present_register_reads_its_bit, lemma_sources_are_the_commands_that_serve,
    no_appropriate_data, percent_rounded, remaining_capacity_sources,
    spec_absolute_state_of_charge, spec_bm_voltage, spec_current, spec_design_capacity,
    spec_fail_register, spec_fail_status, spec_fail_status_1, spec_fail_status_2,
    spec_fail_status_3, spec_full_charge_capacity, spec_relative_state_of_charge,
    spec_remaining_capacity, spec_state_of_health, spec_temperature, state_of_charge_sources,
    state_of_health_sources, temperature_sources, u16_at, DataFrameView,
    ABSOLUTE_STATE_OF_CHARGE_INDEX_IN_SUMMARY_DATA, BM_VOLTAGE_MAX_INDEX_IN_SUMMARY_DATA,
    CELL_VOLTAGE_INDEX_IN_BM_INFORMATION, CURRENT_INDEX_IN_BM_INFORMATION,
    CURRENT_INDEX_IN_SUMMARY_DATA, DESIGN_CAPACITY_INDEX_IN_BM_INFORMATION,
    DESIGN_CAPACITY_INDEX_IN_SUMMARY_DATA, FAIL_STATUS_1_INDEX_IN_BM_INFORMATION,
    FAIL_STATUS_1_INDEX_IN_SUMMARY_DATA, FAIL_STATUS_2_INDEX_IN_BM_INFORMATION,
    FAIL_STATUS_2_INDEX_IN_SUMMARY_DATA, FAIL_STATUS_3_INDEX_IN_SUMMARY_DATA,
    FULL_CHARGE_CAPACITY_INDEX_IN_BM_INFORMATION, FULL_CHARGE_CAPACITY_INDEX_IN_SUMMARY_DATA,
    MAX_TEMPERATURE_INDEX_IN_SUMMARY_DATA, NUMBER_OF_CELLS,
    RELATIVE_STATE_OF_CHARGE_INDEX_IN_SUMMARY_DATA, REMAINING_CAPACITY_INDEX_IN_BM_INFORMATION,
    REMAINING_CAPACITY_INDEX_IN_SUMMARY_DATA, STATE_OF_HEALTH_INDEX_IN_BM_INFORMATION,
    STATE_OF_HEALTH_INDEX_IN_SUMMARY_DATA, TEMPERATURE_INDEX_IN_BM_INFORMATION,
};
pub use utils::{
    checksum, lemma_checksum_detects_bit_flip, lemma_checksum_flip, lemma_checksum_push,
    lemma_checksum_round_trip, spec_checksum,
};
