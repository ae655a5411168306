//! The loaders of a request, one for each kind of relationship: the query
//! that each sends for a batch, and how it files the rows that return.

use crate::collector::BatchLoader;
use crate::collector::LoaderState;
use crate::entities::AutoProcScalingStatics;
use crate::entities::AutoProcessing;
use crate::entities::DataProcessing;
use crate::entities::ProcessingJob;
use crate::entities::StatisticsType;
use crate::keyed::list_at;
use crate::keyed::Fetched;
use crate::keyed::KeyMap;
use crate::plan::copy_ids;
use crate::plan::FetchPlan;
use crate::plan::Filter;
use crate::plan::KeyColumn;
use crate::plan::LeftJoin;
use crate::plan::Table;
use crate::rows::AutoProcScalingStatisticsRow;
use crate::rows::AutoProcessingRow;
use crate::rows::Column;
use crate::rows::DataCollectionFileAttachmentRow;
use crate::rows::ProcessingJobRow;
use std::collections::HashMap;
use vstd::prelude::*;

verus! {

broadcast use vstd::std_specs::hash::group_hash_axioms;

/// The items of the pairs that are filed under `key`, in the order of the
/// pairs.
spec fn filed_under<K, T>(pairs: Seq<(K, T)>, key: K) -> Seq<T> {
    pairs.filter(|pair: (K, T)| pair.0 == key).map_values(|pair: (K, T)| pair.1)
}

/// Whether no pair after the pair `i` has the same key.
spec fn is_last_of_key<K, V>(pairs: Seq<(K, V)>, i: int) -> bool {
    forall|j: int| i < j < pairs.len() ==> (#[trigger] pairs[j]).0 != pairs[i].0
}

/// Where each pair holds an item with the key it belongs to, the items filed
/// under a key are the items that belong to it.
proof fn lemma_filed_under<K, T>(
    pairs: Seq<(K, T)>,
    items: Seq<T>,
    key: K,
    belongs: spec_fn(T) -> bool,
)
    requires
        pairs.len() == items.len(),
        forall|i: int|
            0 <= i < pairs.len() ==> (#[trigger] pairs[i]).1 == items[i] && (pairs[i].0 == key
                <==> belongs(items[i])),
    ensures
        filed_under(pairs, key) == items.filter(belongs),
    decreases pairs.len(),
{
    let of_key = |pair: (K, T)| pair.0 == key;
    let item_of = |pair: (K, T)| pair.1;
    if pairs.len() == 0 {
        reveal(Seq::filter);
    } else {
        let front = pairs.drop_last();
        assert(front.push(pairs.last()) =~= pairs);
        assert(items.drop_last().push(items.last()) =~= items);
        assert forall|i: int| 0 <= i < front.len() implies (#[trigger] front[i]).1
            == items.drop_last()[i] && (front[i].0 == key <==> belongs(items.drop_last()[i])) by {
            assert(front[i] == pairs[i]);
        }
        lemma_filed_under(front, items.drop_last(), key, belongs);
        front.lemma_filter_push(pairs.last(), of_key);
        items.drop_last().lemma_filter_push(items.last(), belongs);
        assert(front.filter(of_key).push(pairs.last()).map_values(item_of) =~= front.filter(
            of_key,
        ).map_values(item_of).push(pairs.last().1));
    }
}

/// Where the pair of each row has the key `key` exactly if the row has it,
/// some pair has the key exactly if some row has it.
proof fn lemma_keys_of_rows<K, V, R>(
    pairs: Seq<(K, V)>,
    rows: Seq<R>,
    key: K,
    has_key: spec_fn(R) -> bool,
)
    requires
        pairs.len() == rows.len(),
        forall|i: int|
            0 <= i < pairs.len() ==> ((#[trigger] pairs[i]).0 == key <==> has_key(rows[i])),
    ensures
        (exists|i: int| 0 <= i < pairs.len() && (#[trigger] pairs[i]).0 == key) <==> (exists|
            i: int,
        |
            0 <= i < rows.len() && has_key(#[trigger] rows[i])),
{
    if exists|i: int| 0 <= i < pairs.len() && (#[trigger] pairs[i]).0 == key {
        let i = choose|i: int| 0 <= i < pairs.len() && (#[trigger] pairs[i]).0 == key;
        assert(has_key(rows[i]));
    }
    if exists|i: int| 0 <= i < rows.len() && has_key(#[trigger] rows[i]) {
        let i = choose|i: int| 0 <= i < rows.len() && has_key(#[trigger] rows[i]);
        assert(pairs[i].0 == key);
    }
}

/// Where each pair holds the key of its row, the pair of a row that is the
/// last with its key is the last pair with that key.
proof fn lemma_last_of_rows<K, V, R>(
    pairs: Seq<(K, V)>,
    rows: Seq<R>,
    key_of: spec_fn(R) -> K,
    i: int,
)
    requires
        pairs.len() == rows.len(),
        forall|j: int| 0 <= j < pairs.len() ==> (#[trigger] pairs[j]).0 == key_of(rows[j]),
        0 <= i < rows.len(),
        forall|j: int| i < j < rows.len() ==> key_of(#[trigger] rows[j]) != key_of(rows[i]),
    ensures
        is_last_of_key(pairs, i),
{
    assert forall|j: int| i < j < pairs.len() implies (#[trigger] pairs[j]).0 != pairs[i].0 by {
        assert(key_of(rows[j]) != key_of(rows[i]));
    }
}

/// Files each item in the list of its key, in the order of the pairs.
fn group<K, T, M: Fetched<K, Vec<T>>>(pairs: Vec<(K, T)>, empty: M) -> (grouped: M)
    requires
        empty.found() == Map::<K, Vec<T>>::empty(),
    ensures
        forall|key: K| #[trigger] list_at(grouped.found(), key) == filed_under(pairs@, key),
        forall|key: K| #[trigger]
            grouped.found().contains_key(key) <==> exists|i: int|
                0 <= i < pairs.len() && (#[trigger] pairs[i]).0 == key,
{
    let ghost all = pairs@;
    let mut grouped = empty;
    proof {
        assert forall|key: K| #[trigger]
            list_at(grouped.found(), key) == filed_under(all.take(0), key) by {
            reveal(Seq::filter);
        }
    }
    for pair in it: pairs
        invariant
            it.seq() == all,
            forall|key: K| #[trigger]
                list_at(grouped.found(), key) == filed_under(all.take(it.index() as int), key),
            forall|key: K| #[trigger]
                grouped.found().contains_key(key) <==> exists|i: int|
                    0 <= i < it.index() && (#[trigger] all[i]).0 == key,
    {
        let ghost i = it.index() as int;
        let ghost before = grouped.found();
        let (key, item) = pair;
        let mut list = match grouped.take(&key) {
            Some(list) => list,
            None => Vec::new(),
        };
        list.push(item);
        grouped.put(key, list);
        proof {
            let earlier = all.take(i);
            assert(all.take(i + 1) =~= earlier.push(all[i]));
            assert forall|k: K| #[trigger]
                list_at(grouped.found(), k) == filed_under(all.take(i + 1), k) by {
                let of_key = |pair: (K, T)| pair.0 == k;
                let item_of = |pair: (K, T)| pair.1;
                earlier.lemma_filter_push(all[i], of_key);
                assert(list_at(before, k) == filed_under(earlier, k));
                assert(earlier.filter(of_key).push(all[i]).map_values(item_of)
                    =~= earlier.filter(of_key).map_values(item_of).push(item));
            }
            assert forall|k: K| #[trigger]
                grouped.found().contains_key(k) <==> exists|j: int|
                    0 <= j < i + 1 && (#[trigger] all[j]).0 == k by {
                if k == key {
                    assert(all[i].0 == k);
                } else if before.contains_key(k) {
                    let j = choose|j: int| 0 <= j < i && (#[trigger] all[j]).0 == k;
                    assert(all[j].0 == k);
                }
            }
        }
    }
    proof {
        assert(all.take(all.len() as int) =~= all);
    }
    grouped
}

/// Files each value under its key; of several values with one key the last
/// stands.
fn file_latest<K, V, M: Fetched<K, V>>(pairs: Vec<(K, V)>, empty: M) -> (filed: M)
    requires
        empty.found() == Map::<K, V>::empty(),
    ensures
        forall|key: K| #[trigger]
            filed.found().contains_key(key) <==> exists|i: int|
                0 <= i < pairs.len() && (#[trigger] pairs[i]).0 == key,
        forall|i: int|
            0 <= i < pairs.len() && is_last_of_key(pairs@, i) ==> filed.found()[(
                #[trigger] pairs[i]).0] == pairs[i].1,
{
    let ghost all = pairs@;
    let mut filed = empty;
    for pair in it: pairs
        invariant
            it.seq() == all,
            forall|key: K| #[trigger]
                filed.found().contains_key(key) <==> exists|i: int|
                    0 <= i < it.index() && (#[trigger] all[i]).0 == key,
            forall|i: int|
                0 <= i < it.index() && is_last_of_key(all.take(it.index() as int), i)
                    ==> filed.found()[(#[trigger] all[i]).0] == all[i].1,
    {
        let ghost n = it.index() as int;
        let ghost before = filed.found();
        let (key, value) = pair;
        filed.put(key, value);
        proof {
            assert forall|k: K| #[trigger]
                filed.found().contains_key(k) <==> exists|j: int|
                    0 <= j < n + 1 && (#[trigger] all[j]).0 == k by {
                if k != key && before.contains_key(k) {
                    let j = choose|j: int| 0 <= j < n && (#[trigger] all[j]).0 == k;
                    assert(all[j].0 == k);
                }
            }
            assert forall|i: int|
                0 <= i < n && is_last_of_key(all.take(n + 1), i) implies is_last_of_key(
                all.take(n),
                i,
            ) && (#[trigger] all[i]).0 != key by {
                assert(all.take(n + 1)[n].0 == key);
                assert forall|j: int| i < j < n implies (#[trigger] all.take(n)[j]).0
                    != all.take(n)[i].0 by {
                    assert(all.take(n + 1)[j] == all.take(n)[j]);
                }
            }
        }
    }
    filed
}

/// The query for the rows of `from`, joined with `joins`, whose data
/// collection is one of `keys`.
fn by_data_collection(from: Table, joins: Vec<LeftJoin>, keys: &Vec<u32>) -> (plan: FetchPlan)
    ensures
        plan.from == from,
        plan.joins == joins,
        plan.filter matches Filter::IdIn { column, ids } && column == KeyColumn::DataCollectionId
            && ids@ == keys@,
        forall|id: u32, text: Seq<char>| #[trigger] plan.filter.admits(id, text) <==> keys@.contains(id),
{
    FetchPlan {
        from,
        joins,
        filter: Filter::IdIn { column: KeyColumn::DataCollectionId, ids: copy_ids(keys) },
    }
}

/// Loads the automatic processing runs of data collections: for each data
/// collection, its integrations with their programs, results and scalings.
pub struct AutoProcessingDataLoader {
    pub collector: BatchLoader<u32, Vec<AutoProcessing>>,
}

impl AutoProcessingDataLoader {
    pub fn new() -> (loader: Self)
        ensures
            loader.collector@ == LoaderState::<u32, Vec<AutoProcessing>>::fresh(),
    {
        Self { collector: BatchLoader::new() }
    }

    /// The tables that every integration is matched with.
    pub open spec fn joins() -> Seq<LeftJoin> {
        seq![
            LeftJoin {
                table: Table::AutoProcProgram,
                on: KeyColumn::AutoProcProgramId,
                with: Table::AutoProcIntegration,
            },
            LeftJoin {
                table: Table::AutoProc,
                on: KeyColumn::AutoProcProgramId,
                with: Table::AutoProcProgram,
            },
            LeftJoin {
                table: Table::AutoProcScaling,
                on: KeyColumn::AutoProcId,
                with: Table::AutoProc,
            },
        ]
    }

    /// The one query for a batch: the integrations of the data collections
    /// `keys`, each matched with its program, its result and its scaling.
    pub fn query(keys: &Vec<u32>) -> (plan: FetchPlan)
        ensures
            plan.from == Table::AutoProcIntegration,
            plan.joins@ == Self::joins(),
            plan.filter matches Filter::IdIn { column, ids } && column
                == KeyColumn::DataCollectionId && ids@ == keys@,
            forall|id: u32, text: Seq<char>| #[trigger]
                plan.filter.admits(id, text) <==> keys@.contains(id),
    {
        let mut joins: Vec<LeftJoin> = Vec::new();
        joins.push(
            LeftJoin {
                table: Table::AutoProcProgram,
                on: KeyColumn::AutoProcProgramId,
                with: Table::AutoProcIntegration,
            },
        );
        joins.push(
            LeftJoin {
                table: Table::AutoProc,
                on: KeyColumn::AutoProcProgramId,
                with: Table::AutoProcProgram,
            },
        );
        joins.push(
            LeftJoin {
                table: Table::AutoProcScaling,
                on: KeyColumn::AutoProcId,
                with: Table::AutoProc,
            },
        );
        by_data_collection(Table::AutoProcIntegration, joins, keys)
    }

    /// Whether a row names its integration and its data collection.
    pub open spec fn identified(row: AutoProcessingRow) -> bool {
        row.auto_proc_integration_id is Value && row.data_collection_id is Value
    }

    /// Whether every row of `rows` names its integration and its data
    /// collection, as `collect` asks.
    pub fn accepts(rows: &Vec<AutoProcessingRow>) -> (accepted: bool)
        ensures
            accepted == forall|i: int| 0 <= i < rows.len() ==> Self::identified(#[trigger] rows[i]),
    {
        let mut i: usize = 0;
        while i < rows.len()
            invariant
                i <= rows.len(),
                forall|j: int| 0 <= j < i ==> Self::identified(#[trigger] rows[j]),
            decreases rows.len() - i,
        {
            let named = match (&rows[i].auto_proc_integration_id, &rows[i].data_collection_id) {
                (Column::Value(_), Column::Value(_)) => true,
                _ => false,
            };
            if !named {
                return false;
            }
            i += 1;
        }
        true
    }

    /// The runs that `rows` describe, row by row.
    pub open spec fn runs(rows: Seq<AutoProcessingRow>) -> Seq<AutoProcessing> {
        rows.map_values(|row: AutoProcessingRow| AutoProcessing::of(row))
    }

    /// Whether a run belongs to the data collection `id`.
    pub open spec fn of_collection(id: u32) -> spec_fn(AutoProcessing) -> bool {
        |run: AutoProcessing| run.data_collection_id == id
    }

    /// Groups the rows that the query returned by their data collection. Each
    /// data collection with a row gets the list of its runs, in the order of
    /// the rows; one without a row gets no entry.
    pub fn collect(rows: Vec<AutoProcessingRow>) -> (grouped: HashMap<u32, Vec<AutoProcessing>>)
        requires
            forall|i: int| 0 <= i < rows.len() ==> Self::identified(#[trigger] rows[i]),
        ensures
            forall|id: u32| #[trigger]
                list_at(grouped@, id) == Self::runs(rows@).filter(Self::of_collection(id)),
            forall|id: u32| #[trigger]
                grouped@.contains_key(id) <==> exists|i: int|
                    0 <= i < rows.len() && (#[trigger] rows[i]).data_collection_id
                        == Column::Value(id),
    {
        let ghost all = rows@;
        let mut pairs: Vec<(u32, AutoProcessing)> = Vec::new();
        for row in it: rows
            invariant
                it.seq() == all,
                forall|i: int| 0 <= i < all.len() ==> Self::identified(#[trigger] all[i]),
                pairs@.len() == it.index(),
                forall|i: int|
                    0 <= i < pairs@.len() ==> (#[trigger] pairs@[i]) == (
                        AutoProcessing::of(all[i]).data_collection_id,
                        AutoProcessing::of(all[i]),
                    ),
        {
            let run = AutoProcessing::from(row);
            pairs.push((run.data_collection_id, run));
        }
        let ghost filed = pairs@;
        let grouped = group(pairs, HashMap::new());
        proof {
            assert forall|id: u32| #[trigger]
                list_at(grouped@, id) == Self::runs(all).filter(Self::of_collection(id)) by {
                lemma_filed_under(filed, Self::runs(all), id, Self::of_collection(id));
                assert(list_at(grouped.found(), id) == filed_under(filed, id));
            }
            assert forall|id: u32| #[trigger]
                grouped@.contains_key(id) <==> exists|i: int|
                    0 <= i < all.len() && (#[trigger] all[i]).data_collection_id == Column::Value(
                        id,
                    ) by {
                lemma_keys_of_rows(
                    filed,
                    all,
                    id,
                    |row: AutoProcessingRow| row.data_collection_id == Column::Value(id),
                );
                assert(grouped.found().contains_key(id) == grouped@.contains_key(id));
            }
        }
        grouped
    }
}

/// Loads the processing jobs of data collections: for each data collection,
/// its jobs with their parameters.
pub struct ProcessingJobDataLoader {
    pub collector: BatchLoader<u32, Vec<ProcessingJob>>,
}

impl ProcessingJobDataLoader {
    pub fn new() -> (loader: Self)
        ensures
            loader.collector@ == LoaderState::<u32, Vec<ProcessingJob>>::fresh(),
    {
        Self { collector: BatchLoader::new() }
    }

    /// The table that every job is matched with.
    pub open spec fn joins() -> Seq<LeftJoin> {
        seq![
            LeftJoin {
                table: Table::ProcessingJobParameter,
                on: KeyColumn::ProcessingJobId,
                with: Table::ProcessingJob,
            },
        ]
    }

    /// The one query for a batch: the jobs of the data collections `keys`,
    /// each matched with its parameters.
    pub fn query(keys: &Vec<u32>) -> (plan: FetchPlan)
        ensures
            plan.from == Table::ProcessingJob,
            plan.joins@ == Self::joins(),
            plan.filter matches Filter::IdIn { column, ids } && column
                == KeyColumn::DataCollectionId && ids@ == keys@,
            forall|id: u32, text: Seq<char>| #[trigger]
                plan.filter.admits(id, text) <==> keys@.contains(id),
    {
        let mut joins: Vec<LeftJoin> = Vec::new();
        joins.push(
            LeftJoin {
                table: Table::ProcessingJobParameter,
                on: KeyColumn::ProcessingJobId,
                with: Table::ProcessingJob,
            },
        );
        by_data_collection(Table::ProcessingJob, joins, keys)
    }

    /// Whether every row of `rows` names its data collection, as `collect`
    /// asks.
    pub fn accepts(rows: &Vec<ProcessingJobRow>) -> (accepted: bool)
        ensures
            accepted == forall|i: int|
                0 <= i < rows.len() ==> (#[trigger] rows[i]).data_collection_id is Value,
    {
        let mut i: usize = 0;
        while i < rows.len()
            invariant
                i <= rows.len(),
                forall|j: int| 0 <= j < i ==> (#[trigger] rows[j]).data_collection_id is Value,
            decreases rows.len() - i,
        {
            let named = match &rows[i].data_collection_id {
                Column::Value(_) => true,
                _ => false,
            };
            if !named {
                return false;
            }
            i += 1;
        }
        true
    }

    /// The jobs that `rows` describe, row by row.
    pub open spec fn jobs(rows: Seq<ProcessingJobRow>) -> Seq<ProcessingJob> {
        rows.map_values(|row: ProcessingJobRow| ProcessingJob::of(row))
    }

    /// Whether a job belongs to the data collection `id`.
    pub open spec fn of_collection(id: u32) -> spec_fn(ProcessingJob) -> bool {
        |job: ProcessingJob| job.data_collection_id == Some(id)
    }

    /// Groups the rows that the query returned by their data collection,
    /// which each row must name. Each data collection with a row gets the
    /// list of its jobs, in the order of the rows; one without a row gets no
    /// entry.
    pub fn collect(rows: Vec<ProcessingJobRow>) -> (grouped: HashMap<u32, Vec<ProcessingJob>>)
        requires
            forall|i: int| 0 <= i < rows.len() ==> (#[trigger] rows[i]).data_collection_id is Value,
        ensures
            forall|id: u32| #[trigger]
                list_at(grouped@, id) == Self::jobs(rows@).filter(Self::of_collection(id)),
            forall|id: u32| #[trigger]
                grouped@.contains_key(id) <==> exists|i: int|
                    0 <= i < rows.len() && (#[trigger] rows[i]).data_collection_id
                        == Column::Value(id),
    {
        let ghost all = rows@;
        let mut pairs: Vec<(u32, ProcessingJob)> = Vec::new();
        for row in it: rows
            invariant
                it.seq() == all,
                forall|i: int|
                    0 <= i < all.len() ==> (#[trigger] all[i]).data_collection_id is Value,
                pairs@.len() == it.index(),
                forall|i: int|
                    0 <= i < pairs@.len() ==> (#[trigger] pairs@[i]) == (
                        all[i].data_collection_id->Value_0,
                        ProcessingJob::of(all[i]),
                    ),
        {
            let job = ProcessingJob::from(row);
            let key = match job.data_collection_id {
                Some(id) => id,
                None => vstd::pervasive::unreached(),
            };
            pairs.push((key, job));
        }
        let ghost filed = pairs@;
        let grouped = group(pairs, HashMap::new());
        proof {
            assert forall|id: u32| #[trigger]
                list_at(grouped@, id) == Self::jobs(all).filter(Self::of_collection(id)) by {
                lemma_filed_under(filed, Self::jobs(all), id, Self::of_collection(id));
                assert(list_at(grouped.found(), id) == filed_under(filed, id));
            }
            assert forall|id: u32| #[trigger]
                grouped@.contains_key(id) <==> exists|i: int|
                    0 <= i < all.len() && (#[trigger] all[i]).data_collection_id == Column::Value(
                        id,
                    ) by {
                lemma_keys_of_rows(
                    filed,
                    all,
                    id,
                    |row: ProcessingJobRow| row.data_collection_id == Column::Value(id),
                );
                assert(grouped.found().contains_key(id) == grouped@.contains_key(id));
            }
        }
        grouped
    }
}

/// Loads the processed file of data collections: for each data collection,
/// one file attachment.
pub struct ProcessedDataLoader {
    pub collector: BatchLoader<u32, DataProcessing>,
}

impl ProcessedDataLoader {
    pub fn new() -> (loader: Self)
        ensures
            loader.collector@ == LoaderState::<u32, DataProcessing>::fresh(),
    {
        Self { collector: BatchLoader::new() }
    }

    /// The one query for a batch: the file attachments of the data
    /// collections `keys`.
    pub fn query(keys: &Vec<u32>) -> (plan: FetchPlan)
        ensures
            plan.from == Table::DataCollectionFileAttachment,
            plan.joins@ == Seq::<LeftJoin>::empty(),
            plan.filter matches Filter::IdIn { column, ids } && column
                == KeyColumn::DataCollectionId && ids@ == keys@,
            forall|id: u32, text: Seq<char>| #[trigger]
                plan.filter.admits(id, text) <==> keys@.contains(id),
    {
        by_data_collection(Table::DataCollectionFileAttachment, Vec::new(), keys)
    }

    /// Whether no row after the row `i` belongs to the same data collection.
    pub open spec fn is_latest(rows: Seq<DataCollectionFileAttachmentRow>, i: int) -> bool {
        forall|j: int|
            i < j < rows.len() ==> (#[trigger] rows[j]).data_collection_id
                != rows[i].data_collection_id
    }

    /// Files the rows that the query returned under their data collection.
    /// Where several rows belong to one data collection, the last of them
    /// stands for it; a data collection without a row gets no entry.
    pub fn collect(rows: Vec<DataCollectionFileAttachmentRow>) -> (filed: HashMap<
        u32,
        DataProcessing,
    >)
        ensures
            forall|id: u32| #[trigger]
                filed@.contains_key(id) <==> exists|i: int|
                    0 <= i < rows.len() && (#[trigger] rows[i]).data_collection_id == id,
            forall|i: int|
                0 <= i < rows.len() && Self::is_latest(rows@, i) ==> filed@[(
                    #[trigger] rows[i]).data_collection_id] == DataProcessing::of(rows[i]),
    {
        let ghost all = rows@;
        let mut pairs: Vec<(u32, DataProcessing)> = Vec::new();
        for row in it: rows
            invariant
                it.seq() == all,
                pairs@.len() == it.index(),
                forall|i: int|
                    0 <= i < pairs@.len() ==> (#[trigger] pairs@[i]) == (
                        all[i].data_collection_id,
                        DataProcessing::of(all[i]),
                    ),
        {
            let key = row.data_collection_id;
            pairs.push((key, DataProcessing::from(row)));
        }
        let ghost keyed = pairs@;
        let filed = file_latest(pairs, HashMap::new());
        proof {
            let key_of = |row: DataCollectionFileAttachmentRow| row.data_collection_id;
            assert forall|id: u32| #[trigger]
                filed@.contains_key(id) <==> exists|i: int|
                    0 <= i < all.len() && (#[trigger] all[i]).data_collection_id == id by {
                lemma_keys_of_rows(
                    keyed,
                    all,
                    id,
                    |row: DataCollectionFileAttachmentRow| row.data_collection_id == id,
                );
                assert(filed.found().contains_key(id) == filed@.contains_key(id));
            }
            assert forall|i: int| 0 <= i < all.len() && Self::is_latest(all, i) implies filed@[(
                #[trigger] all[i]).data_collection_id] == DataProcessing::of(all[i]) by {
                lemma_last_of_rows(keyed, all, key_of, i);
                assert(filed.found()[keyed[i].0] == keyed[i].1);
            }
        }
        filed
    }
}

/// Loads scaling statistics: for each scaling and shell that is asked for,
/// the statistics of the scaling in that shell.
pub struct AutoProcScalingDataLoader {
    pub collector: BatchLoader<(u32, StatisticsType), AutoProcScalingStatics>,
}

impl AutoProcScalingDataLoader {
    pub fn new() -> (loader: Self)
        ensures
            loader.collector@ == LoaderState::<
                (u32, StatisticsType),
                AutoProcScalingStatics,
            >::fresh(),
    {
        Self { collector: BatchLoader::new() }
    }

    /// The one query for a batch: the statistics rows whose scaling and
    /// shell, taken together, are one of `keys`. A scaling that is asked for
    /// in one shell is not thereby asked for in another.
    pub fn query(keys: &Vec<(u32, StatisticsType)>) -> (plan: FetchPlan)
        ensures
            plan.from == Table::AutoProcScalingStatistics,
            plan.joins@ == Seq::<LeftJoin>::empty(),
            plan.filter matches Filter::PairIn { id_column, text_column, pairs } && id_column
                == KeyColumn::AutoProcScalingId && text_column == KeyColumn::ScalingStatisticsType
                && pairs@.len() == keys@.len() && forall|i: int|
                0 <= i < keys@.len() ==> (#[trigger] pairs@[i]).0 == keys@[i].0 && pairs@[i].1@
                    == keys@[i].1.text(),
            forall|id: u32, shell: StatisticsType| #[trigger]
                plan.filter.admits(id, shell.text()) <==> keys@.contains((id, shell)),
    {
        let mut pairs: Vec<(u32, String)> = Vec::new();
        let mut i: usize = 0;
        while i < keys.len()
            invariant
                i <= keys.len(),
                pairs@.len() == i,
                forall|j: int|
                    0 <= j < i ==> (#[trigger] pairs@[j]).0 == keys@[j].0 && pairs@[j].1@
                        == keys@[j].1.text(),
            decreases keys.len() - i,
        {
            pairs.push((keys[i].0, keys[i].1.to_string()));
            i += 1;
        }
        let ghost asked = pairs@;
        let plan = FetchPlan {
            from: Table::AutoProcScalingStatistics,
            joins: Vec::new(),
            filter: Filter::PairIn {
                id_column: KeyColumn::AutoProcScalingId,
                text_column: KeyColumn::ScalingStatisticsType,
                pairs,
            },
        };
        proof {
            assert(plan.filter matches Filter::PairIn { pairs, .. } && pairs@ == asked);
            assert forall|id: u32, shell: StatisticsType| #[trigger]
                plan.filter.admits(id, shell.text()) <==> keys@.contains((id, shell)) by {
                if plan.filter.admits(id, shell.text()) {
                    let j = choose|j: int|
                        0 <= j < asked.len() && (#[trigger] asked[j]).0 == id && asked[j].1@
                            == shell.text();
                    StatisticsType::lemma_text_tells_apart(keys@[j].1, shell);
                    assert(keys@[j] == (id, shell));
                }
                if keys@.contains((id, shell)) {
                    let j = keys@.index_of((id, shell));
                    assert(asked[j].0 == id && asked[j].1@ == shell.text());
                }
            }
        }
        plan
    }

    /// Whether every row of `rows` names its scaling, as `collect` asks.
    pub fn accepts(rows: &Vec<AutoProcScalingStatisticsRow>) -> (accepted: bool)
        ensures
            accepted == forall|i: int|
                0 <= i < rows.len() ==> (#[trigger] rows[i]).auto_proc_scaling_id is Some,
    {
        let mut i: usize = 0;
        while i < rows.len()
            invariant
                i <= rows.len(),
                forall|j: int| 0 <= j < i ==> (#[trigger] rows[j]).auto_proc_scaling_id is Some,
            decreases rows.len() - i,
        {
            if rows[i].auto_proc_scaling_id.is_none() {
                return false;
            }
            i += 1;
        }
        true
    }

    /// The key under which a row is filed, for a row that names its scaling.
    pub open spec fn key_of(row: AutoProcScalingStatisticsRow) -> (u32, StatisticsType) {
        (row.auto_proc_scaling_id->Some_0, StatisticsType::of(row.scaling_statistics_type))
    }

    /// Whether no row after the row `i` has the same scaling and shell.
    pub open spec fn is_latest(rows: Seq<AutoProcScalingStatisticsRow>, i: int) -> bool {
        forall|j: int| i < j < rows.len() ==> Self::key_of(#[trigger] rows[j]) != Self::key_of(rows[i])
    }

    /// Files the rows that the query returned under their scaling and shell;
    /// each row must name its scaling. Where several rows have the same
    /// scaling and shell, the last of them stands; a scaling and shell
    /// without a row gets no entry.
    pub fn collect(rows: Vec<AutoProcScalingStatisticsRow>) -> (filed: KeyMap<
        (u32, StatisticsType),
        AutoProcScalingStatics,
    >)
        requires
            forall|i: int| 0 <= i < rows.len() ==> (#[trigger] rows[i]).auto_proc_scaling_id is Some,
        ensures
            forall|key: (u32, StatisticsType)| #[trigger]
                filed@.contains_key(key) <==> exists|i: int|
                    0 <= i < rows.len() && Self::key_of(#[trigger] rows[i]) == key,
            forall|i: int|
                0 <= i < rows.len() && Self::is_latest(rows@, i) ==> filed@[Self::key_of(
                    #[trigger] rows[i],
                )] == AutoProcScalingStatics::of(rows[i]),
    {
        let ghost all = rows@;
        let mut pairs: Vec<((u32, StatisticsType), AutoProcScalingStatics)> = Vec::new();
        for row in it: rows
            invariant
                it.seq() == all,
                forall|i: int|
                    0 <= i < all.len() ==> (#[trigger] all[i]).auto_proc_scaling_id is Some,
                pairs@.len() == it.index(),
                forall|i: int|
                    0 <= i < pairs@.len() ==> (#[trigger] pairs@[i]) == (
                        Self::key_of(all[i]),
                        AutoProcScalingStatics::of(all[i]),
                    ),
        {
            let scaling = match row.auto_proc_scaling_id {
                Some(id) => id,
                None => vstd::pervasive::unreached(),
            };
            let key = (scaling, StatisticsType::from(row.scaling_statistics_type));
            pairs.push((key, AutoProcScalingStatics::from(row)));
        }
        let ghost keyed = pairs@;
        let filed = file_latest(pairs, KeyMap::new());
        proof {
            let key_of = |row: AutoProcScalingStatisticsRow| Self::key_of(row);
            assert forall|key: (u32, StatisticsType)| #[trigger]
                filed@.contains_key(key) <==> exists|i: int|
                    0 <= i < all.len() && Self::key_of(#[trigger] all[i]) == key by {
                lemma_keys_of_rows(
                    keyed,
                    all,
                    key,
                    |row: AutoProcScalingStatisticsRow| Self::key_of(row) == key,
                );
                assert(filed.found().contains_key(key) == filed@.contains_key(key));
            }
            assert forall|i: int|
                0 <= i < all.len() && Self::is_latest(all, i) implies filed@[Self::key_of(
                #[trigger] all[i],
            )] == AutoProcScalingStatics::of(all[i]) by {
                lemma_last_of_rows(keyed, all, key_of, i);
                assert(filed.found()[keyed[i].0] == keyed[i].1);
            }
        }
        filed
    }
}

/// What the four loaders of a request hold, as mathematics.
pub struct LoadersState {
    pub processed_data: LoaderState<u32, DataProcessing>,
    pub processing_jobs: LoaderState<u32, Vec<ProcessingJob>>,
    pub auto_processing: LoaderState<u32, Vec<AutoProcessing>>,
    pub auto_proc_scaling: LoaderState<(u32, StatisticsType), AutoProcScalingStatics>,
}

/// The loaders of one request, one for each kind of relationship. They are
/// made when the request arrives, shared by every resolver that works on it,
/// and dropped with it: nothing that one request resolved is seen by another.
pub struct DataLoaders {
    pub processed_data: ProcessedDataLoader,
    pub processing_jobs: ProcessingJobDataLoader,
    pub auto_processing: AutoProcessingDataLoader,
    pub auto_proc_scaling: AutoProcScalingDataLoader,
}

impl View for DataLoaders {
    type V = LoadersState;

    open spec fn view(&self) -> LoadersState {
        LoadersState {
            processed_data: self.processed_data.collector@,
            processing_jobs: self.processing_jobs.collector@,
            auto_processing: self.auto_processing.collector@,
            auto_proc_scaling: self.auto_proc_scaling.collector@,
        }
    }
}

impl LoadersState {
    /// The state at the start of a request: nothing resolved, nobody waiting.
    pub open spec fn fresh() -> Self {
        LoadersState {
            processed_data: LoaderState::fresh(),
            processing_jobs: LoaderState::fresh(),
            auto_processing: LoaderState::fresh(),
            auto_proc_scaling: LoaderState::fresh(),
        }
    }
}

impl DataLoaders {
    /// The loaders for a request that has just arrived.
    pub fn new() -> (loaders: Self)
        ensures
            loaders@ == LoadersState::fresh(),
    {
        DataLoaders {
            processed_data: ProcessedDataLoader::new(),
            processing_jobs: ProcessingJobDataLoader::new(),
            auto_processing: AutoProcessingDataLoader::new(),
            auto_proc_scaling: AutoProcScalingDataLoader::new(),
        }
    }
}

} // verus!
