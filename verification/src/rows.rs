//! Rows of the store, as plain values.

use vstd::prelude::*;

verus! {

/// A single-precision number as its IEEE 754 bit pattern. The library carries
/// such numbers from the store to the response and never computes with them.
#[derive(Clone, Copy, Debug, PartialEq, Eq, Structural, Hash)]
pub struct FloatBits(pub u32);

/// What reading one column of a joined row gave.
#[derive(Clone, Debug, PartialEq)]
pub enum Column<T> {
    /// The column held this value.
    Value(T),
    /// The column held SQL `NULL`.
    Null,
    /// The column is missing from the row, or holds a value of another type.
    Unreadable,
}

impl<T> Column<T> {
    /// The value of the column, where it holds one.
    pub open spec fn optional(self) -> Option<T> {
        match self {
            Column::Value(value) => Some(value),
            Column::Null => None,
            Column::Unreadable => None,
        }
    }

    /// Reads a column that may be empty: a column that cannot be read counts
    /// as empty.
    pub fn into_option(self) -> (value: Option<T>)
        ensures
            value == self.optional(),
    {
        match self {
            Column::Value(value) => Some(value),
            Column::Null => None,
            Column::Unreadable => None,
        }
    }

    /// Reads a column that must hold a value.
    pub fn required(self) -> (value: T)
        requires
            self is Value,
        ensures
            self == Column::Value(value),
    {
        match self {
            Column::Value(value) => value,
            _ => vstd::pervasive::unreached(),
        }
    }
}

/// A row of the table `DataCollectionFileAttachment`.
#[derive(Clone, Debug, PartialEq)]
pub struct DataCollectionFileAttachmentRow {
    pub data_collection_file_attachment_id: u32,
    pub data_collection_id: u32,
    pub file_full_path: String,
}

/// The kinds of file that the table `AutoProcProgramAttachment` knows.
#[derive(Clone, Copy, Debug, PartialEq, Eq, Structural, Hash)]
pub enum FileType {
    Log,
    Result,
    Graph,
    Debug,
    Input,
}

/// A row of the table `AutoProcProgramAttachment`.
#[derive(Clone, Debug, PartialEq)]
pub struct AutoProcProgramAttachmentRow {
    pub auto_proc_program_attachment_id: u32,
    pub auto_proc_program_id: u32,
    pub file_type: Option<FileType>,
    pub file_name: Option<String>,
    pub file_path: Option<String>,
}

/// A row of the table `AutoProcScaling`.
#[derive(Clone, Debug, PartialEq)]
pub struct AutoProcScalingRow {
    pub auto_proc_scaling_id: u32,
    pub auto_proc_id: Option<u32>,
}

/// The shells that the table `AutoProcScalingStatistics` tells apart.
#[derive(Clone, Copy, Debug, PartialEq, Eq, Structural, Hash)]
pub enum ScalingStatisticsType {
    Overall,
    InnerShell,
    OuterShell,
}

/// A row of the table `AutoProcScalingStatistics`.
#[derive(Clone, Debug, PartialEq)]
pub struct AutoProcScalingStatisticsRow {
    pub auto_proc_scaling_statistics_id: u32,
    pub auto_proc_scaling_id: Option<u32>,
    pub scaling_statistics_type: ScalingStatisticsType,
    pub resolution_limit_low: Option<FloatBits>,
    pub resolution_limit_high: Option<FloatBits>,
    pub r_merge: Option<FloatBits>,
    pub r_meas_all_i_plus_i_minus: Option<FloatBits>,
    pub n_total_observations: Option<i32>,
    pub n_total_unique_observations: Option<i32>,
    pub mean_i_over_sig_i: Option<FloatBits>,
    pub completeness: Option<FloatBits>,
    pub multiplicity: Option<FloatBits>,
    pub anomalous_completeness: Option<FloatBits>,
    pub anomalous_multiplicity: Option<FloatBits>,
    pub cc_half: Option<FloatBits>,
    pub cc_anomalous: Option<FloatBits>,
}

/// A row of `ProcessingJob` joined with `ProcessingJobParameter`, column by
/// column.
#[derive(Clone, Debug, PartialEq)]
pub struct ProcessingJobRow {
    pub processing_job_id: Column<u32>,
    pub data_collection_id: Column<u32>,
    pub display_name: Column<String>,
    pub automatic: Column<i8>,
    pub processing_job_parameter_id: Column<u32>,
    pub parameter_key: Column<String>,
    pub parameter_value: Column<String>,
}

/// A row of `AutoProcIntegration` joined with `AutoProcProgram`, `AutoProc`
/// and `AutoProcScaling`, column by column.
#[derive(Clone, Debug, PartialEq)]
pub struct AutoProcessingRow {
    pub auto_proc_integration_id: Column<u32>,
    pub data_collection_id: Column<u32>,
    pub auto_proc_program_id: Column<u32>,
    pub refined_x_beam: Column<FloatBits>,
    pub refined_y_beam: Column<FloatBits>,
    pub processing_programs: Column<String>,
    pub processing_status: Column<i8>,
    pub processing_message: Column<String>,
    pub processing_job_id: Column<u32>,
    pub auto_proc_id: Column<u32>,
    pub space_group: Column<String>,
    pub refined_cell_a: Column<FloatBits>,
    pub refined_cell_b: Column<FloatBits>,
    pub refined_cell_c: Column<FloatBits>,
    pub refined_cell_alpha: Column<FloatBits>,
    pub refined_cell_beta: Column<FloatBits>,
    pub refined_cell_gamma: Column<FloatBits>,
    pub auto_proc_scaling_id: Column<u32>,
}

} // verus!
