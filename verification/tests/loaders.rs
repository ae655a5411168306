use processed_data::collector::Outcome;
use processed_data::entities::AutoProcScalingStatics;
use processed_data::entities::AutoProcessing;
use processed_data::entities::DataProcessing;
use processed_data::entities::ProcessingJob;
use processed_data::entities::StatisticsType;
use processed_data::loaders::AutoProcScalingDataLoader;
use processed_data::loaders::AutoProcessingDataLoader;
use processed_data::loaders::DataLoaders;
use processed_data::loaders::ProcessedDataLoader;
use processed_data::loaders::ProcessingJobDataLoader;
use processed_data::plan::copy_ids;
use processed_data::plan::FetchPlan;
use processed_data::plan::Filter;
use processed_data::plan::KeyColumn;
use processed_data::plan::LeftJoin;
use processed_data::plan::Table;
use processed_data::rows::AutoProcScalingStatisticsRow;
use processed_data::rows::AutoProcessingRow;
use processed_data::rows::Column;
use processed_data::rows::DataCollectionFileAttachmentRow;
use processed_data::rows::ProcessingJobRow;
use processed_data::rows::ScalingStatisticsType;

fn file_row(id: u32, data_collection: u32, path: &str) -> DataCollectionFileAttachmentRow {
    DataCollectionFileAttachmentRow {
        data_collection_file_attachment_id: id,
        data_collection_id: data_collection,
        file_full_path: path.to_string(),
    }
}

fn job_row(job: u32, data_collection: u32, key: &str) -> ProcessingJobRow {
    ProcessingJobRow {
        processing_job_id: Column::Value(job),
        data_collection_id: Column::Value(data_collection),
        display_name: Column::Null,
        automatic: Column::Value(1),
        processing_job_parameter_id: Column::Unreadable,
        parameter_key: Column::Value(key.to_string()),
        parameter_value: Column::Null,
    }
}

fn job(job: u32, data_collection: u32, key: &str) -> ProcessingJob {
    ProcessingJob {
        processing_job_id: Some(job),
        data_collection_id: Some(data_collection),
        display_name: None,
        automatic: Some(1),
        processing_job_parameter_id: None,
        parameter_key: Some(key.to_string()),
        parameter_value: None,
    }
}

fn run_row(integration: u32, data_collection: u32, result: Option<u32>) -> AutoProcessingRow {
    AutoProcessingRow {
        auto_proc_integration_id: Column::Value(integration),
        data_collection_id: Column::Value(data_collection),
        auto_proc_program_id: Column::Null,
        refined_x_beam: Column::Null,
        refined_y_beam: Column::Null,
        processing_programs: Column::Null,
        processing_status: Column::Null,
        processing_message: Column::Null,
        processing_job_id: Column::Null,
        auto_proc_id: match result {
            Some(id) => Column::Value(id),
            None => Column::Null,
        },
        space_group: Column::Null,
        refined_cell_a: Column::Null,
        refined_cell_b: Column::Null,
        refined_cell_c: Column::Null,
        refined_cell_alpha: Column::Null,
        refined_cell_beta: Column::Null,
        refined_cell_gamma: Column::Null,
        auto_proc_scaling_id: Column::Null,
    }
}

fn run(integration: u32, data_collection: u32, result: Option<u32>) -> AutoProcessing {
    AutoProcessing {
        auto_proc_integration_id: integration,
        data_collection_id: data_collection,
        auto_proc_program_id: None,
        refined_x_beam: None,
        refined_y_beam: None,
        processing_programs: None,
        processing_status: None,
        processing_message: None,
        processing_job_id: None,
        auto_proc_id: result,
        space_group: None,
        refined_cell_a: None,
        refined_cell_b: None,
        refined_cell_c: None,
        refined_cell_alpha: None,
        refined_cell_beta: None,
        refined_cell_gamma: None,
        auto_proc_scaling_id: None,
    }
}

fn statistics_row(
    id: u32,
    scaling: u32,
    shell: ScalingStatisticsType,
) -> AutoProcScalingStatisticsRow {
    AutoProcScalingStatisticsRow {
        auto_proc_scaling_statistics_id: id,
        auto_proc_scaling_id: Some(scaling),
        scaling_statistics_type: shell,
        resolution_limit_low: None,
        resolution_limit_high: None,
        r_merge: None,
        r_meas_all_i_plus_i_minus: None,
        n_total_observations: Some(100),
        n_total_unique_observations: None,
        mean_i_over_sig_i: None,
        completeness: None,
        multiplicity: None,
        anomalous_completeness: None,
        anomalous_multiplicity: None,
        cc_half: None,
        cc_anomalous: None,
    }
}

#[test]
fn the_query_for_processed_data_filters_one_table_by_data_collection() {
    assert_eq!(
        ProcessedDataLoader::query(&vec![4, 2]),
        FetchPlan {
            from: Table::DataCollectionFileAttachment,
            joins: vec![],
            filter: Filter::IdIn { column: KeyColumn::DataCollectionId, ids: vec![4, 2] },
        }
    );
}

#[test]
fn the_query_for_processing_jobs_joins_their_parameters() {
    assert_eq!(
        ProcessingJobDataLoader::query(&vec![7]),
        FetchPlan {
            from: Table::ProcessingJob,
            joins: vec![LeftJoin {
                table: Table::ProcessingJobParameter,
                on: KeyColumn::ProcessingJobId,
                with: Table::ProcessingJob,
            }],
            filter: Filter::IdIn { column: KeyColumn::DataCollectionId, ids: vec![7] },
        }
    );
}

#[test]
fn the_query_for_auto_processing_joins_program_result_and_scaling() {
    assert_eq!(
        AutoProcessingDataLoader::query(&vec![1, 2, 3]),
        FetchPlan {
            from: Table::AutoProcIntegration,
            joins: vec![
                LeftJoin {
                    table: Table::AutoProcProgram,
                    on: KeyColumn::AutoProcProgramId,
                    with: Table::AutoProcIntegration,
                },
                LeftJoin {
                    table: Table::AutoProc,
                    on: KeyColumn::AutoProcProgramId,
                    with: Table::AutoProcProgram,
                },
                LeftJoin {
                    table: Table::AutoProcScaling,
                    on: KeyColumn::AutoProcId,
                    with: Table::AutoProc,
                },
            ],
            filter: Filter::IdIn { column: KeyColumn::DataCollectionId, ids: vec![1, 2, 3] },
        }
    );
}

#[test]
fn the_query_for_statistics_asks_for_pairs() {
    let keys = vec![(1, StatisticsType::Overall), (2, StatisticsType::InnerShell)];
    assert_eq!(
        AutoProcScalingDataLoader::query(&keys),
        FetchPlan {
            from: Table::AutoProcScalingStatistics,
            joins: vec![],
            filter: Filter::PairIn {
                id_column: KeyColumn::AutoProcScalingId,
                text_column: KeyColumn::ScalingStatisticsType,
                pairs: vec![(1, "overall".to_string()), (2, "innershell".to_string())],
            },
        }
    );
}

#[test]
fn a_pair_that_nobody_asked_for_is_not_selected() {
    let keys = vec![(1, StatisticsType::Overall), (2, StatisticsType::InnerShell)];
    let plan = AutoProcScalingDataLoader::query(&keys);
    assert!(plan.filter.selects(1, "overall"));
    assert!(plan.filter.selects(2, "innershell"));
    assert!(!plan.filter.selects(1, "innershell"));
    assert!(!plan.filter.selects(2, "overall"));
    assert!(!plan.filter.selects(1, "outershell"));
    assert!(!plan.filter.selects(3, "overall"));
}

#[test]
fn the_text_of_a_shell_is_matched_letter_for_letter() {
    let plan = AutoProcScalingDataLoader::query(&vec![(2, StatisticsType::InnerShell)]);
    assert!(plan.filter.selects(2, "innershell"));
    assert!(!plan.filter.selects(2, "innerShell"));
    assert!(!plan.filter.selects(2, "INNERSHELL"));
    assert!(!plan.filter.selects(2, "innershell "));
}

#[test]
fn a_filter_on_identifiers_selects_the_listed_ones() {
    let plan = ProcessingJobDataLoader::query(&vec![5, 9]);
    assert!(plan.filter.selects(5, ""));
    assert!(plan.filter.selects(9, "anything"));
    assert!(!plan.filter.selects(6, ""));
    assert!(!ProcessedDataLoader::query(&vec![]).filter.selects(0, ""));
}

#[test]
fn tables_and_columns_have_the_names_of_the_store() {
    assert_eq!(Table::DataCollectionFileAttachment.name(), "DataCollectionFileAttachment");
    assert_eq!(Table::ProcessingJob.name(), "ProcessingJob");
    assert_eq!(Table::ProcessingJobParameter.name(), "ProcessingJobParameter");
    assert_eq!(Table::AutoProcIntegration.name(), "AutoProcIntegration");
    assert_eq!(Table::AutoProcProgram.name(), "AutoProcProgram");
    assert_eq!(Table::AutoProc.name(), "AutoProc");
    assert_eq!(Table::AutoProcScaling.name(), "AutoProcScaling");
    assert_eq!(Table::AutoProcScalingStatistics.name(), "AutoProcScalingStatistics");
    assert_eq!(KeyColumn::DataCollectionId.name(), "dataCollectionId");
    assert_eq!(KeyColumn::ProcessingJobId.name(), "processingJobId");
    assert_eq!(KeyColumn::AutoProcProgramId.name(), "autoProcProgramId");
    assert_eq!(KeyColumn::AutoProcId.name(), "autoProcId");
    assert_eq!(KeyColumn::AutoProcScalingId.name(), "autoProcScalingId");
    assert_eq!(KeyColumn::ScalingStatisticsType.name(), "scalingStatisticsType");
}

#[test]
fn copy_ids_copies() {
    assert_eq!(copy_ids(&vec![3, 1, 3]), vec![3, 1, 3]);
    assert_eq!(copy_ids(&vec![]), Vec::<u32>::new());
}

#[test]
fn jobs_are_grouped_by_data_collection_in_the_order_of_the_rows() {
    let rows = vec![
        job_row(1, 10, "a"),
        job_row(2, 20, "b"),
        job_row(1, 10, "c"),
        job_row(3, 10, "d"),
        job_row(2, 20, "e"),
    ];
    let grouped = ProcessingJobDataLoader::collect(rows);
    assert_eq!(grouped.len(), 2);
    assert_eq!(
        grouped.get(&10),
        Some(&vec![job(1, 10, "a"), job(1, 10, "c"), job(3, 10, "d")])
    );
    assert_eq!(grouped.get(&20), Some(&vec![job(2, 20, "b"), job(2, 20, "e")]));
    assert_eq!(grouped.get(&30), None);
}

#[test]
fn runs_are_grouped_by_data_collection_in_the_order_of_the_rows() {
    let rows = vec![
        run_row(1, 5, Some(50)),
        run_row(2, 6, None),
        run_row(3, 5, None),
        run_row(3, 5, None),
    ];
    let grouped = AutoProcessingDataLoader::collect(rows);
    assert_eq!(grouped.len(), 2);
    assert_eq!(
        grouped.get(&5),
        Some(&vec![run(1, 5, Some(50)), run(3, 5, None), run(3, 5, None)])
    );
    assert_eq!(grouped.get(&6), Some(&vec![run(2, 6, None)]));
}

#[test]
fn no_rows_make_no_groups() {
    assert_eq!(ProcessingJobDataLoader::collect(vec![]).len(), 0);
    assert_eq!(AutoProcessingDataLoader::collect(vec![]).len(), 0);
    assert_eq!(ProcessedDataLoader::collect(vec![]).len(), 0);
    assert_eq!(AutoProcScalingDataLoader::collect(vec![]).len(), 0);
}

#[test]
fn the_last_file_of_a_data_collection_stands_for_it() {
    let rows = vec![file_row(1, 10, "/a"), file_row(2, 20, "/b"), file_row(3, 10, "/c")];
    let filed = ProcessedDataLoader::collect(rows);
    assert_eq!(filed.len(), 2);
    assert_eq!(filed.get(&10), Some(&DataProcessing { id: 3, file_full_path: "/c".to_string() }));
    assert_eq!(filed.get(&20), Some(&DataProcessing { id: 2, file_full_path: "/b".to_string() }));
    assert_eq!(filed.get(&30), None);
}

#[test]
fn statistics_are_filed_under_scaling_and_shell() {
    let rows = vec![
        statistics_row(1, 7, ScalingStatisticsType::Overall),
        statistics_row(2, 7, ScalingStatisticsType::InnerShell),
        statistics_row(3, 8, ScalingStatisticsType::Overall),
        statistics_row(4, 7, ScalingStatisticsType::Overall),
    ];
    let filed = AutoProcScalingDataLoader::collect(rows);
    assert_eq!(filed.len(), 3);
    assert_eq!(filed.get(&(7, StatisticsType::Overall)).unwrap().auto_proc_scaling_statistics_id, 4);
    assert_eq!(
        filed.get(&(7, StatisticsType::InnerShell)).unwrap().auto_proc_scaling_statistics_id,
        2
    );
    assert_eq!(filed.get(&(8, StatisticsType::Overall)).unwrap().auto_proc_scaling_statistics_id, 3);
    assert_eq!(filed.get(&(8, StatisticsType::InnerShell)), None);
    assert_eq!(filed.get(&(7, StatisticsType::OuterShell)), None);
    let held: &AutoProcScalingStatics = filed.get(&(8, StatisticsType::Overall)).unwrap();
    assert_eq!(held.scaling_statistics_type, StatisticsType::Overall);
    assert_eq!(held.auto_proc_scaling_id, Some(8));
    assert_eq!(held.n_total_observations, Some(100));
}

#[test]
fn new_loaders_have_nothing_resolved_and_nobody_waiting() {
    let mut loaders = DataLoaders::new();
    assert_eq!(loaders.processed_data.collector.waiting(), 0);
    assert_eq!(loaders.processing_jobs.collector.waiting(), 0);
    assert_eq!(loaders.auto_processing.collector.waiting(), 0);
    assert_eq!(loaders.auto_proc_scaling.collector.waiting(), 0);
    assert_eq!(loaders.processed_data.collector.get(&1), None);
    assert!(loaders.processing_jobs.collector.begin_fetch().is_none());
    assert!(ProcessedDataLoader::new().collector.begin_fetch().is_none());
    assert!(ProcessingJobDataLoader::new().collector.begin_fetch().is_none());
    assert!(AutoProcessingDataLoader::new().collector.begin_fetch().is_none());
    assert!(AutoProcScalingDataLoader::new().collector.begin_fetch().is_none());
}

#[test]
fn a_fetch_that_fails_leaves_the_other_loaders_to_succeed() {
    let mut loaders = DataLoaders::new();
    loaders.processing_jobs.collector.register(10);
    loaders.processed_data.collector.register(10);
    loaders.processed_data.collector.register(11);

    let jobs = loaders.processing_jobs.collector.begin_fetch().unwrap();
    let files = loaders.processed_data.collector.begin_fetch().unwrap();

    let failed = loaders.processing_jobs.collector.fail(jobs);
    assert_eq!(failed, vec![Outcome::Failed]);

    let rows = vec![file_row(1, 10, "/a")];
    let served = loaders.processed_data.collector.complete(files, ProcessedDataLoader::collect(rows));
    assert_eq!(served, vec![Outcome::Value, Outcome::Absent]);
    assert_eq!(
        loaders.processed_data.collector.get(&10),
        Some(&DataProcessing { id: 1, file_full_path: "/a".to_string() })
    );
    assert_eq!(loaders.processing_jobs.collector.get(&10), None);
}

#[test]
fn a_batch_goes_from_keys_to_query_to_rows_to_waiters() {
    let mut loader = ProcessingJobDataLoader::new();
    loader.collector.register(20);
    loader.collector.register(10);
    loader.collector.register(20);
    let batch = loader.collector.begin_fetch().unwrap();
    let plan = ProcessingJobDataLoader::query(batch.keys());
    assert_eq!(plan.filter, Filter::IdIn { column: KeyColumn::DataCollectionId, ids: vec![20, 10] });

    let rows = vec![job_row(1, 20, "a"), job_row(2, 20, "b")];
    let outcomes = loader.collector.complete(batch, ProcessingJobDataLoader::collect(rows));
    assert_eq!(outcomes, vec![Outcome::Value, Outcome::Absent, Outcome::Value]);
    assert_eq!(loader.collector.get(&20), Some(&vec![job(1, 20, "a"), job(2, 20, "b")]));
}

#[test]
fn a_row_for_a_pair_that_nobody_asked_for_reaches_nobody() {
    let mut loader = AutoProcScalingDataLoader::new();
    loader.collector.register((1, StatisticsType::Overall));
    loader.collector.register((2, StatisticsType::InnerShell));
    let batch = loader.collector.begin_fetch().unwrap();
    let plan = AutoProcScalingDataLoader::query(batch.keys());

    let stored = vec![
        statistics_row(10, 1, ScalingStatisticsType::Overall),
        statistics_row(11, 1, ScalingStatisticsType::InnerShell),
        statistics_row(12, 2, ScalingStatisticsType::InnerShell),
        statistics_row(13, 2, ScalingStatisticsType::OuterShell),
    ];
    let returned: Vec<AutoProcScalingStatisticsRow> = stored
        .iter()
        .filter(|row| {
            let shell = StatisticsType::from(row.scaling_statistics_type);
            plan.filter.selects(row.auto_proc_scaling_id.unwrap(), &shell.to_string())
        })
        .cloned()
        .collect();
    assert_eq!(
        returned.iter().map(|row| row.auto_proc_scaling_statistics_id).collect::<Vec<u32>>(),
        vec![10, 12]
    );

    let outcomes = loader.collector.complete(batch, AutoProcScalingDataLoader::collect(stored));
    assert_eq!(outcomes, vec![Outcome::Value, Outcome::Value]);
    assert_eq!(
        loader.collector.get(&(1, StatisticsType::Overall)).unwrap().auto_proc_scaling_statistics_id,
        10
    );
    assert_eq!(
        loader.collector.get(&(2, StatisticsType::InnerShell)).unwrap().auto_proc_scaling_statistics_id,
        12
    );
    assert_eq!(loader.collector.get(&(1, StatisticsType::InnerShell)), None);
    assert_eq!(loader.collector.get(&(2, StatisticsType::OuterShell)), None);
}

#[test]
fn rows_are_accepted_when_they_name_what_they_are_filed_under() {
    assert!(ProcessingJobDataLoader::accepts(&vec![]));
    assert!(ProcessingJobDataLoader::accepts(&vec![job_row(1, 2, "a"), job_row(3, 4, "b")]));
    let mut nameless = job_row(5, 6, "c");
    nameless.data_collection_id = Column::Null;
    assert!(!ProcessingJobDataLoader::accepts(&vec![job_row(1, 2, "a"), nameless]));

    assert!(AutoProcessingDataLoader::accepts(&vec![]));
    assert!(AutoProcessingDataLoader::accepts(&vec![run_row(1, 2, None)]));
    let mut unreadable = run_row(1, 2, None);
    unreadable.auto_proc_integration_id = Column::Unreadable;
    assert!(!AutoProcessingDataLoader::accepts(&vec![unreadable, run_row(1, 2, None)]));
    let mut homeless = run_row(1, 2, None);
    homeless.data_collection_id = Column::Null;
    assert!(!AutoProcessingDataLoader::accepts(&vec![run_row(1, 2, None), homeless]));

    assert!(AutoProcScalingDataLoader::accepts(&vec![]));
    assert!(AutoProcScalingDataLoader::accepts(&vec![statistics_row(
        1,
        2,
        ScalingStatisticsType::Overall
    )]));
    let mut loose = statistics_row(1, 2, ScalingStatisticsType::Overall);
    loose.auto_proc_scaling_id = None;
    assert!(!AutoProcScalingDataLoader::accepts(&vec![loose]));
}
