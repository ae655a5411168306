use processed_data::entities::AttachmentFileType;
use processed_data::entities::AutoProcFileAttachment;
use processed_data::entities::AutoProcScaling;
use processed_data::entities::AutoProcScalingStatics;
use processed_data::entities::AutoProcessing;
use processed_data::entities::DataProcessing;
use processed_data::entities::ProcessingJob;
use processed_data::entities::StatisticsType;
use processed_data::object_key::join;
use processed_data::object_key::object_key;
use processed_data::object_key::strip_root;
use processed_data::rows::AutoProcProgramAttachmentRow;
use processed_data::rows::AutoProcScalingRow;
use processed_data::rows::AutoProcScalingStatisticsRow;
use processed_data::rows::AutoProcessingRow;
use processed_data::rows::Column;
use processed_data::rows::DataCollectionFileAttachmentRow;
use processed_data::rows::FileType;
use processed_data::rows::FloatBits;
use processed_data::rows::ProcessingJobRow;
use processed_data::rows::ScalingStatisticsType;

fn attachment(path: &str, name: &str) -> AutoProcFileAttachment {
    AutoProcFileAttachment {
        id: 1,
        auto_proc_program_id: 2,
        file_type: Some(AttachmentFileType::Result),
        file_name: Some(name.to_string()),
        file_path: Some(path.to_string()),
    }
}

#[test]
fn object_key_drops_the_leading_separator() {
    assert_eq!(attachment("/data/run1", "img.h5").object_key(), "data/run1/img.h5");
}

#[test]
fn object_key_of_a_relative_path_is_the_joined_path() {
    assert_eq!(attachment("data/run1", "img.h5").object_key(), "data/run1/img.h5");
}

#[test]
fn object_key_adds_no_second_separator() {
    assert_eq!(attachment("/data/run1/", "img.h5").object_key(), "data/run1/img.h5");
    assert_eq!(attachment("/", "img.h5").object_key(), "img.h5");
}

#[test]
fn object_key_drops_one_separator_only() {
    assert_eq!(attachment("//data", "img.h5").object_key(), "/data/img.h5");
}

#[test]
fn object_key_of_a_rooted_file_name_forgets_the_path() {
    assert_eq!(attachment("/data/run1", "/other/img.h5").object_key(), "other/img.h5");
}

#[test]
fn object_key_of_empty_parts() {
    assert_eq!(attachment("", "img.h5").object_key(), "img.h5");
    assert_eq!(attachment("/data", "").object_key(), "data/");
    assert_eq!(attachment("", "").object_key(), "");
}

#[test]
fn object_key_keeps_characters_outside_ascii() {
    assert_eq!(attachment("/données/é", "ß.h5").object_key(), "données/é/ß.h5");
}

#[test]
fn join_and_strip_root_are_the_two_steps_of_the_key() {
    assert_eq!(join("/a", "b"), "/a/b");
    assert_eq!(join("a/", "b"), "a/b");
    assert_eq!(join("a", "/b"), "/b");
    assert_eq!(strip_root("/a/b".to_string()), "a/b");
    assert_eq!(strip_root("a/b".to_string()), "a/b");
    assert_eq!(strip_root("/".to_string()), "");
    assert_eq!(object_key("/a", "b"), "a/b");
}

#[test]
fn the_object_key_of_processed_data_is_its_full_path() {
    let data = DataProcessing { id: 3, file_full_path: "/dls/i03/data/file.h5".to_string() };
    assert_eq!(data.object_key(), "/dls/i03/data/file.h5");
}

#[test]
fn statistics_types_are_written_in_lower_case() {
    assert_eq!(StatisticsType::Overall.to_string(), "overall");
    assert_eq!(StatisticsType::InnerShell.to_string(), "innershell");
    assert_eq!(StatisticsType::OuterShell.to_string(), "outershell");
}

#[test]
fn statistics_types_follow_the_types_of_the_store() {
    assert_eq!(StatisticsType::from(ScalingStatisticsType::Overall), StatisticsType::Overall);
    assert_eq!(StatisticsType::from(ScalingStatisticsType::InnerShell), StatisticsType::InnerShell);
    assert_eq!(StatisticsType::from(ScalingStatisticsType::OuterShell), StatisticsType::OuterShell);
}

#[test]
fn attachment_file_types_are_written_as_named() {
    assert_eq!(AttachmentFileType::Log.to_string(), "Log");
    assert_eq!(AttachmentFileType::Result.to_string(), "Result");
    assert_eq!(AttachmentFileType::Graph.to_string(), "Graph");
    assert_eq!(AttachmentFileType::Debug.to_string(), "Debug");
    assert_eq!(AttachmentFileType::Input.to_string(), "Input");
}

#[test]
fn attachment_file_types_follow_the_types_of_the_store() {
    assert_eq!(AttachmentFileType::from(Some(FileType::Log)), AttachmentFileType::Log);
    assert_eq!(AttachmentFileType::from(Some(FileType::Result)), AttachmentFileType::Result);
    assert_eq!(AttachmentFileType::from(Some(FileType::Graph)), AttachmentFileType::Graph);
    assert_eq!(AttachmentFileType::from(Some(FileType::Debug)), AttachmentFileType::Debug);
    assert_eq!(AttachmentFileType::from(Some(FileType::Input)), AttachmentFileType::Input);
}

#[test]
fn processed_data_takes_its_fields_from_the_row() {
    let row = DataCollectionFileAttachmentRow {
        data_collection_file_attachment_id: 11,
        data_collection_id: 4,
        file_full_path: "/a/b.h5".to_string(),
    };
    assert_eq!(
        DataProcessing::from(row),
        DataProcessing { id: 11, file_full_path: "/a/b.h5".to_string() }
    );
}

#[test]
fn a_file_attachment_takes_its_fields_from_the_row() {
    let row = AutoProcProgramAttachmentRow {
        auto_proc_program_attachment_id: 21,
        auto_proc_program_id: 8,
        file_type: Some(FileType::Graph),
        file_name: Some("plot.png".to_string()),
        file_path: None,
    };
    assert_eq!(
        AutoProcFileAttachment::from(row),
        AutoProcFileAttachment {
            id: 21,
            auto_proc_program_id: 8,
            file_type: Some(AttachmentFileType::Graph),
            file_name: Some("plot.png".to_string()),
            file_path: None,
        }
    );
}

#[test]
fn a_scaling_takes_its_fields_from_the_row() {
    let row = AutoProcScalingRow { auto_proc_scaling_id: 5, auto_proc_id: Some(6) };
    assert_eq!(
        AutoProcScaling::from(row),
        AutoProcScaling { auto_proc_scaling_id: 5, auto_proc_id: Some(6) }
    );
}

#[test]
fn a_processing_job_reads_unreadable_columns_as_empty() {
    let row = ProcessingJobRow {
        processing_job_id: Column::Value(1),
        data_collection_id: Column::Value(2),
        display_name: Column::Value("xia2".to_string()),
        automatic: Column::Null,
        processing_job_parameter_id: Column::Unreadable,
        parameter_key: Column::Value("d_min".to_string()),
        parameter_value: Column::Unreadable,
    };
    assert_eq!(
        ProcessingJob::from(row),
        ProcessingJob {
            processing_job_id: Some(1),
            data_collection_id: Some(2),
            display_name: Some("xia2".to_string()),
            automatic: None,
            processing_job_parameter_id: None,
            parameter_key: Some("d_min".to_string()),
            parameter_value: None,
        }
    );
}

#[test]
fn a_column_is_read_as_its_value_or_as_nothing() {
    assert_eq!(Column::Value(3u8).into_option(), Some(3));
    assert_eq!(Column::<u8>::Null.into_option(), None);
    assert_eq!(Column::<u8>::Unreadable.into_option(), None);
    assert_eq!(Column::Value(9i8).required(), 9);
}

#[test]
fn scaling_statistics_take_their_fields_from_the_row() {
    let half = FloatBits(0.5f32.to_bits());
    let two = FloatBits(2.0f32.to_bits());
    let row = AutoProcScalingStatisticsRow {
        auto_proc_scaling_statistics_id: 31,
        auto_proc_scaling_id: Some(7),
        scaling_statistics_type: ScalingStatisticsType::OuterShell,
        resolution_limit_low: Some(two),
        resolution_limit_high: Some(half),
        r_merge: None,
        r_meas_all_i_plus_i_minus: Some(half),
        n_total_observations: Some(-4),
        n_total_unique_observations: Some(12),
        mean_i_over_sig_i: None,
        completeness: Some(two),
        multiplicity: None,
        anomalous_completeness: None,
        anomalous_multiplicity: Some(half),
        cc_half: Some(half),
        cc_anomalous: None,
    };
    let statistics = AutoProcScalingStatics::from(row);
    assert_eq!(
        statistics,
        AutoProcScalingStatics {
            auto_proc_scaling_statistics_id: 31,
            auto_proc_scaling_id: Some(7),
            scaling_statistics_type: StatisticsType::OuterShell,
            resolution_limit_low: Some(two),
            resolution_limit_high: Some(half),
            r_merge: None,
            r_meas_all_i_plus_i_minus: Some(half),
            n_total_observations: Some(-4),
            n_total_unique_observations: Some(12),
            mean_i_over_sig_i: None,
            completeness: Some(two),
            multiplicity: None,
            anomalous_completeness: None,
            anomalous_multiplicity: Some(half),
            cc_half: Some(half),
            cc_anomalous: None,
        }
    );
    assert_eq!(f32::from_bits(statistics.resolution_limit_low.unwrap().0), 2.0);
}

#[test]
fn an_auto_processing_run_takes_its_fields_from_the_row() {
    let x = FloatBits(1.25f32.to_bits());
    let row = AutoProcessingRow {
        auto_proc_integration_id: Column::Value(1),
        data_collection_id: Column::Value(2),
        auto_proc_program_id: Column::Value(3),
        refined_x_beam: Column::Value(x),
        refined_y_beam: Column::Null,
        processing_programs: Column::Value("fast_dp".to_string()),
        processing_status: Column::Value(1),
        processing_message: Column::Unreadable,
        processing_job_id: Column::Null,
        auto_proc_id: Column::Value(9),
        space_group: Column::Value("P 1".to_string()),
        refined_cell_a: Column::Value(x),
        refined_cell_b: Column::Null,
        refined_cell_c: Column::Null,
        refined_cell_alpha: Column::Unreadable,
        refined_cell_beta: Column::Null,
        refined_cell_gamma: Column::Value(x),
        auto_proc_scaling_id: Column::Value(10),
    };
    assert_eq!(
        AutoProcessing::from(row),
        AutoProcessing {
            auto_proc_integration_id: 1,
            data_collection_id: 2,
            auto_proc_program_id: Some(3),
            refined_x_beam: Some(x),
            refined_y_beam: None,
            processing_programs: Some("fast_dp".to_string()),
            processing_status: Some(1),
            processing_message: None,
            processing_job_id: None,
            auto_proc_id: Some(9),
            space_group: Some("P 1".to_string()),
            refined_cell_a: Some(x),
            refined_cell_b: None,
            refined_cell_c: None,
            refined_cell_alpha: None,
            refined_cell_beta: None,
            refined_cell_gamma: Some(x),
            auto_proc_scaling_id: Some(10),
        }
    );
}
