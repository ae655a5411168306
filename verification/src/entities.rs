//! The entities of the graph, and how the rows of the store become them.

use crate::object_key::object_key;
use crate::object_key::object_key_of;
use crate::rows::AutoProcProgramAttachmentRow;
use crate::rows::AutoProcScalingRow;
use crate::rows::AutoProcScalingStatisticsRow;
use crate::rows::AutoProcessingRow;
use crate::rows::DataCollectionFileAttachmentRow;
use crate::rows::FileType;
use crate::rows::FloatBits;
use crate::rows::ProcessingJobRow;
use crate::rows::ScalingStatisticsType;
use vstd::prelude::*;
use vstd::std_specs::convert::FromSpecImpl;
use vstd::string::StringExecFns;

verus! {

/// A data collection as this subgraph knows it: its key, and nothing else
/// until a field below it is asked for.
#[derive(Clone, Debug, PartialEq)]
pub struct DataCollection {
    /// An opaque unique identifier for the data collection
    pub id: u32,
}

/// A processed image file held in the object store.
#[derive(Clone, Debug, PartialEq)]
pub struct DataProcessing {
    /// An opaque unique identifier for the collected file attachment
    pub id: u32,
    /// Full path where the processed image is stored
    pub file_full_path: String,
}

impl DataProcessing {
    /// The entity that a row of `DataCollectionFileAttachment` describes.
    pub open spec fn of(values: DataCollectionFileAttachmentRow) -> Self {
        DataProcessing {
            id: values.data_collection_file_attachment_id,
            file_full_path: values.file_full_path,
        }
    }

    /// The key under which the object store holds the file: its full path, as
    /// stored.
    pub fn object_key(&self) -> (key: String)
        ensures
            key@ == self.file_full_path@,
    {
        self.file_full_path.clone()
    }
}

impl From<DataCollectionFileAttachmentRow> for DataProcessing {
    fn from(values: DataCollectionFileAttachmentRow) -> (data: Self) {
        Self { id: values.data_collection_file_attachment_id, file_full_path: values.file_full_path }
    }
}

impl FromSpecImpl<DataCollectionFileAttachmentRow> for DataProcessing {
    open spec fn obeys_from_spec() -> bool {
        true
    }

    open spec fn from_spec(values: DataCollectionFileAttachmentRow) -> Self {
        Self::of(values)
    }
}

/// Type of file attachment for auto processing
#[derive(Clone, Copy, Debug, PartialEq, Eq, Structural, Hash)]
pub enum AttachmentFileType {
    Log,
    Result,
    Graph,
    Debug,
    Input,
}

impl AttachmentFileType {
    /// The name of the type of file, as it is shown.
    pub open spec fn text(self) -> Seq<char> {
        match self {
            AttachmentFileType::Log => "Log"@,
            AttachmentFileType::Result => "Result"@,
            AttachmentFileType::Graph => "Graph"@,
            AttachmentFileType::Debug => "Debug"@,
            AttachmentFileType::Input => "Input"@,
        }
    }

    /// The type of file that the store's own type stands for.
    pub open spec fn of(value: FileType) -> Self {
        match value {
            FileType::Log => AttachmentFileType::Log,
            FileType::Result => AttachmentFileType::Result,
            FileType::Graph => AttachmentFileType::Graph,
            FileType::Debug => AttachmentFileType::Debug,
            FileType::Input => AttachmentFileType::Input,
        }
    }

    pub fn to_string(&self) -> (text: String)
        ensures
            text@ == self.text(),
    {
        match self {
            AttachmentFileType::Log => String::from_str("Log"),
            AttachmentFileType::Result => String::from_str("Result"),
            AttachmentFileType::Graph => String::from_str("Graph"),
            AttachmentFileType::Debug => String::from_str("Debug"),
            AttachmentFileType::Input => String::from_str("Input"),
        }
    }

    /// The type of file of a row. A row without one has no type of file to
    /// give, so the caller must have one.
    pub fn from(value: Option<FileType>) -> (file_type: Self)
        requires
            value is Some,
        ensures
            file_type == Self::of(value->Some_0),
    {
        match value {
            Some(FileType::Log) => AttachmentFileType::Log,
            Some(FileType::Result) => AttachmentFileType::Result,
            Some(FileType::Graph) => AttachmentFileType::Graph,
            Some(FileType::Debug) => AttachmentFileType::Debug,
            Some(FileType::Input) => AttachmentFileType::Input,
            None => vstd::pervasive::unreached(),
        }
    }
}

/// Represents processed image file stored in s3 bucket
#[derive(Clone, Debug, PartialEq)]
pub struct AutoProcFileAttachment {
    /// An opaque unique identifier for the autoproc file attachment
    pub id: u32,
    /// An opaque unique identifier for auto proc program
    pub auto_proc_program_id: u32,
    /// Type of file attachment
    pub file_type: Option<AttachmentFileType>,
    /// Full name of the file
    pub file_name: Option<String>,
    /// Path of the file stored in the file system
    pub file_path: Option<String>,
}

impl AutoProcFileAttachment {
    /// The entity that a row of `AutoProcProgramAttachment` describes, for a
    /// row that names its type of file.
    pub open spec fn of(value: AutoProcProgramAttachmentRow) -> Self {
        AutoProcFileAttachment {
            id: value.auto_proc_program_attachment_id,
            auto_proc_program_id: value.auto_proc_program_id,
            file_type: Some(AttachmentFileType::of(value.file_type->Some_0)),
            file_name: value.file_name,
            file_path: value.file_path,
        }
    }

    pub fn from(value: AutoProcProgramAttachmentRow) -> (attachment: Self)
        requires
            value.file_type is Some,
        ensures
            attachment == Self::of(value),
    {
        Self {
            id: value.auto_proc_program_attachment_id,
            auto_proc_program_id: value.auto_proc_program_id,
            file_type: Some(AttachmentFileType::from(value.file_type)),
            file_name: value.file_name,
            file_path: value.file_path,
        }
    }

    /// S3 bucket object key: the file's name under its path, without a
    /// leading separator. Both must be known.
    pub fn object_key(&self) -> (key: String)
        requires
            self.file_path is Some,
            self.file_name is Some,
        ensures
            key@ == object_key_of(self.file_path->Some_0@, self.file_name->Some_0@),
    {
        match (&self.file_path, &self.file_name) {
            (Some(path), Some(name)) => object_key(path.as_str(), name.as_str()),
            _ => vstd::pervasive::unreached(),
        }
    }
}

/// Represents a processing job
#[derive(Clone, Debug, PartialEq)]
pub struct ProcessingJob {
    /// An opaque unique identifier for the processing job
    pub processing_job_id: Option<u32>,
    /// An opaque unique identifier for the data collection
    pub data_collection_id: Option<u32>,
    /// Processing job display name
    pub display_name: Option<String>,
    /// Represents if the job is automatic or downstream
    pub automatic: Option<i8>,
    /// An opaque unique identifier for the processing job parameter
    pub processing_job_parameter_id: Option<u32>,
    /// Parameter key
    pub parameter_key: Option<String>,
    /// Parameter values
    pub parameter_value: Option<String>,
}

impl ProcessingJob {
    /// The job that a joined row describes. A column that cannot be read is
    /// taken as empty.
    pub open spec fn of(value: ProcessingJobRow) -> Self {
        ProcessingJob {
            processing_job_id: value.processing_job_id.optional(),
            data_collection_id: value.data_collection_id.optional(),
            display_name: value.display_name.optional(),
            automatic: value.automatic.optional(),
            processing_job_parameter_id: value.processing_job_parameter_id.optional(),
            parameter_key: value.parameter_key.optional(),
            parameter_value: value.parameter_value.optional(),
        }
    }
}

impl From<ProcessingJobRow> for ProcessingJob {
    fn from(value: ProcessingJobRow) -> (job: Self) {
        Self {
            processing_job_id: value.processing_job_id.into_option(),
            data_collection_id: value.data_collection_id.into_option(),
            display_name: value.display_name.into_option(),
            automatic: value.automatic.into_option(),
            processing_job_parameter_id: value.processing_job_parameter_id.into_option(),
            parameter_key: value.parameter_key.into_option(),
            parameter_value: value.parameter_value.into_option(),
        }
    }
}

impl FromSpecImpl<ProcessingJobRow> for ProcessingJob {
    open spec fn obeys_from_spec() -> bool {
        true
    }

    open spec fn from_spec(value: ProcessingJobRow) -> Self {
        Self::of(value)
    }
}

/// Represents and auto processing scaling
#[derive(Clone, Debug, PartialEq)]
pub struct AutoProcScaling {
    /// An opaque unique identifier for the auto processing scaling
    pub auto_proc_scaling_id: u32,
    /// An opaque unique identifier for the auto processing
    pub auto_proc_id: Option<u32>,
}

impl AutoProcScaling {
    /// The entity that a row of `AutoProcScaling` describes.
    pub open spec fn of(value: AutoProcScalingRow) -> Self {
        AutoProcScaling {
            auto_proc_scaling_id: value.auto_proc_scaling_id,
            auto_proc_id: value.auto_proc_id,
        }
    }
}

impl From<AutoProcScalingRow> for AutoProcScaling {
    fn from(value: AutoProcScalingRow) -> (scaling: Self) {
        Self { auto_proc_scaling_id: value.auto_proc_scaling_id, auto_proc_id: value.auto_proc_id }
    }
}

impl FromSpecImpl<AutoProcScalingRow> for AutoProcScaling {
    open spec fn obeys_from_spec() -> bool {
        true
    }

    open spec fn from_spec(value: AutoProcScalingRow) -> Self {
        Self::of(value)
    }
}

/// Which resolution shell a row of scaling statistics describes.
#[derive(Clone, Copy, Debug, PartialEq, Eq, Structural, Hash)]
pub enum StatisticsType {
    Overall,
    InnerShell,
    OuterShell,
}

impl StatisticsType {
    /// The text by which the store is asked for rows of this shell. It is part
    /// of the filter, so it is fixed letter for letter.
    pub open spec fn text(self) -> Seq<char> {
        match self {
            StatisticsType::Overall => "overall"@,
            StatisticsType::InnerShell => "innershell"@,
            StatisticsType::OuterShell => "outershell"@,
        }
    }

    /// The shell that the store's own type stands for.
    pub open spec fn of(value: ScalingStatisticsType) -> Self {
        match value {
            ScalingStatisticsType::Overall => StatisticsType::Overall,
            ScalingStatisticsType::InnerShell => StatisticsType::InnerShell,
            ScalingStatisticsType::OuterShell => StatisticsType::OuterShell,
        }
    }

    pub fn to_string(&self) -> (text: String)
        ensures
            text@ == self.text(),
    {
        match self {
            StatisticsType::Overall => String::from_str("overall"),
            StatisticsType::InnerShell => String::from_str("innershell"),
            StatisticsType::OuterShell => String::from_str("outershell"),
        }
    }

    /// Two shells with the same text are the same shell: the text of a shell
    /// can stand for it in a filter.
    pub proof fn lemma_text_tells_apart(one: Self, other: Self)
        requires
            one.text() == other.text(),
        ensures
            one == other,
    {
        reveal_strlit("overall");
        reveal_strlit("innershell");
        reveal_strlit("outershell");
        assert("overall"@[0] == 'o' && "overall"@[1] == 'v');
        assert("innershell"@[0] == 'i');
        assert("outershell"@[0] == 'o' && "outershell"@[1] == 'u');
        assert(one.text()[0] == other.text()[0] && one.text()[1] == other.text()[1]);
    }
}

impl From<ScalingStatisticsType> for StatisticsType {
    fn from(value: ScalingStatisticsType) -> (shell: Self) {
        match value {
            ScalingStatisticsType::Overall => StatisticsType::Overall,
            ScalingStatisticsType::InnerShell => StatisticsType::InnerShell,
            ScalingStatisticsType::OuterShell => StatisticsType::OuterShell,
        }
    }
}

impl FromSpecImpl<ScalingStatisticsType> for StatisticsType {
    open spec fn obeys_from_spec() -> bool {
        true
    }

    open spec fn from_spec(value: ScalingStatisticsType) -> Self {
        Self::of(value)
    }
}

/// Represents auto processing scaling statics
#[derive(Clone, Debug, PartialEq)]
pub struct AutoProcScalingStatics {
    pub auto_proc_scaling_statistics_id: u32,
    pub auto_proc_scaling_id: Option<u32>,
    pub scaling_statistics_type: StatisticsType,
    pub resolution_limit_low: Option<FloatBits>,
    pub resolution_limit_high: Option<FloatBits>,
    pub r_merge: Option<FloatBits>,
    pub r_meas_all_i_plus_i_minus: Option<FloatBits>,
    pub n_total_observations: Option<i32>,
    pub n_total_unique_observations: Option<i32>,
    pub mean_i_over_sig_i: Option<FloatBits>,
    pub completeness: Option<FloatBits>,
    pub multiplicity: Option<FloatBits>,
    pub anomalous_completeness: Option<FloatBits>,
    pub anomalous_multiplicity: Option<FloatBits>,
    pub cc_half: Option<FloatBits>,
    pub cc_anomalous: Option<FloatBits>,
}

impl AutoProcScalingStatics {
    /// The statistics that a row of `AutoProcScalingStatistics` holds.
    pub open spec fn of(value: AutoProcScalingStatisticsRow) -> Self {
        AutoProcScalingStatics {
            auto_proc_scaling_statistics_id: value.auto_proc_scaling_statistics_id,
            auto_proc_scaling_id: value.auto_proc_scaling_id,
            scaling_statistics_type: StatisticsType::of(value.scaling_statistics_type),
            resolution_limit_low: value.resolution_limit_low,
            resolution_limit_high: value.resolution_limit_high,
            r_merge: value.r_merge,
            r_meas_all_i_plus_i_minus: value.r_meas_all_i_plus_i_minus,
            n_total_observations: value.n_total_observations,
            n_total_unique_observations: value.n_total_unique_observations,
            mean_i_over_sig_i: value.mean_i_over_sig_i,
            completeness: value.completeness,
            multiplicity: value.multiplicity,
            anomalous_completeness: value.anomalous_completeness,
            anomalous_multiplicity: value.anomalous_multiplicity,
            cc_half: value.cc_half,
            cc_anomalous: value.cc_anomalous,
        }
    }
}

impl From<AutoProcScalingStatisticsRow> for AutoProcScalingStatics {
    fn from(value: AutoProcScalingStatisticsRow) -> (statistics: Self) {
        Self {
            auto_proc_scaling_id: value.auto_proc_scaling_id,
            auto_proc_scaling_statistics_id: value.auto_proc_scaling_statistics_id,
            resolution_limit_low: value.resolution_limit_low,
            resolution_limit_high: value.resolution_limit_high,
            r_merge: value.r_merge,
            r_meas_all_i_plus_i_minus: value.r_meas_all_i_plus_i_minus,
            n_total_observations: value.n_total_observations,
            n_total_unique_observations: value.n_total_unique_observations,
            mean_i_over_sig_i: value.mean_i_over_sig_i,
            completeness: value.completeness,
            multiplicity: value.multiplicity,
            anomalous_completeness: value.anomalous_completeness,
            anomalous_multiplicity: value.anomalous_multiplicity,
            cc_half: value.cc_half,
            cc_anomalous: value.cc_anomalous,
            scaling_statistics_type: StatisticsType::from(value.scaling_statistics_type),
        }
    }
}

impl FromSpecImpl<AutoProcScalingStatisticsRow> for AutoProcScalingStatics {
    open spec fn obeys_from_spec() -> bool {
        true
    }

    open spec fn from_spec(value: AutoProcScalingStatisticsRow) -> Self {
        Self::of(value)
    }
}

/// Combines autoproc integration, autoproc program, autoproc and autoproc scaling
#[derive(Clone, Debug, PartialEq)]
pub struct AutoProcessing {
    /// An opaque unique identifier for the auto processing integration
    pub auto_proc_integration_id: u32,
    /// An opaque unique identifier for the data collection
    pub data_collection_id: u32,
    /// An opaque unique identifier for the auto processing program
    pub auto_proc_program_id: Option<u32>,
    /// Refined X position of the beam
    pub refined_x_beam: Option<FloatBits>,
    /// Refined Y position of the beam
    pub refined_y_beam: Option<FloatBits>,
    /// Name of the processing programs
    pub processing_programs: Option<String>,
    /// Processing program status
    pub processing_status: Option<i8>,
    /// Processing program message
    pub processing_message: Option<String>,
    /// An opaque unique identifier for the  processing processing job
    pub processing_job_id: Option<u32>,
    /// An opaque unique identifier for the auto processing
    pub auto_proc_id: Option<u32>,
    /// Space group of the processing job
    pub space_group: Option<String>,
    /// Refined cell a in the auto processing job
    pub refined_cell_a: Option<FloatBits>,
    /// Refined cell b in the auto processing job
    pub refined_cell_b: Option<FloatBits>,
    /// Refined cell c in the auto processing job
    pub refined_cell_c: Option<FloatBits>,
    /// Refined cell alpha in the auto processing job
    pub refined_cell_alpha: Option<FloatBits>,
    /// Refined cell beta in the auto processing job
    pub refined_cell_beta: Option<FloatBits>,
    /// Refined cell gamma in the auto processing job
    pub refined_cell_gamma: Option<FloatBits>,
    /// An opaque unique identifier for the auto processing scaling
    pub auto_proc_scaling_id: Option<u32>,
}

impl AutoProcessing {
    /// The entity that a joined row describes, for a row that names its
    /// integration and its data collection.
    pub open spec fn of(value: AutoProcessingRow) -> Self {
        AutoProcessing {
            auto_proc_integration_id: value.auto_proc_integration_id->Value_0,
            data_collection_id: value.data_collection_id->Value_0,
            auto_proc_program_id: value.auto_proc_program_id.optional(),
            refined_x_beam: value.refined_x_beam.optional(),
            refined_y_beam: value.refined_y_beam.optional(),
            processing_programs: value.processing_programs.optional(),
            processing_status: value.processing_status.optional(),
            processing_message: value.processing_message.optional(),
            processing_job_id: value.processing_job_id.optional(),
            auto_proc_id: value.auto_proc_id.optional(),
            space_group: value.space_group.optional(),
            refined_cell_a: value.refined_cell_a.optional(),
            refined_cell_b: value.refined_cell_b.optional(),
            refined_cell_c: value.refined_cell_c.optional(),
            refined_cell_alpha: value.refined_cell_alpha.optional(),
            refined_cell_beta: value.refined_cell_beta.optional(),
            refined_cell_gamma: value.refined_cell_gamma.optional(),
            auto_proc_scaling_id: value.auto_proc_scaling_id.optional(),
        }
    }

    /// The entity that a joined row describes. The two identifiers must be
    /// there; any other column that cannot be read is taken as empty.
    pub fn from(value: AutoProcessingRow) -> (processing: Self)
        requires
            value.auto_proc_integration_id is Value,
            value.data_collection_id is Value,
        ensures
            processing == Self::of(value),
    {
        Self {
            auto_proc_integration_id: value.auto_proc_integration_id.required(),
            data_collection_id: value.data_collection_id.required(),
            auto_proc_program_id: value.auto_proc_program_id.into_option(),
            refined_x_beam: value.refined_x_beam.into_option(),
            refined_y_beam: value.refined_y_beam.into_option(),
            processing_programs: value.processing_programs.into_option(),
            processing_status: value.processing_status.into_option(),
            processing_message: value.processing_message.into_option(),
            processing_job_id: value.processing_job_id.into_option(),
            auto_proc_id: value.auto_proc_id.into_option(),
            space_group: value.space_group.into_option(),
            refined_cell_a: value.refined_cell_a.into_option(),
            refined_cell_b: value.refined_cell_b.into_option(),
            refined_cell_c: value.refined_cell_c.into_option(),
            refined_cell_alpha: value.refined_cell_alpha.into_option(),
            refined_cell_beta: value.refined_cell_beta.into_option(),
            refined_cell_gamma: value.refined_cell_gamma.into_option(),
            auto_proc_scaling_id: value.auto_proc_scaling_id.into_option(),
        }
    }
}

} // verus!
