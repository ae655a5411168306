//! Queries as the loaders describe them: which table, joined with which,
//! filtered by which keys.

use vstd::prelude::*;
use vstd::string::StringExecFns;

verus! {

/// The tables that the loaders read.
#[derive(Clone, Copy, Debug, PartialEq, Eq, Structural, Hash)]
pub enum Table {
    DataCollectionFileAttachment,
    ProcessingJob,
    ProcessingJobParameter,
    AutoProcIntegration,
    AutoProcProgram,
    AutoProc,
    AutoProcScaling,
    AutoProcScalingStatistics,
}

impl Table {
    /// The name of the table in the store.
    pub open spec fn text(self) -> Seq<char> {
        match self {
            Table::DataCollectionFileAttachment => "DataCollectionFileAttachment"@,
            Table::ProcessingJob => "ProcessingJob"@,
            Table::ProcessingJobParameter => "ProcessingJobParameter"@,
            Table::AutoProcIntegration => "AutoProcIntegration"@,
            Table::AutoProcProgram => "AutoProcProgram"@,
            Table::AutoProc => "AutoProc"@,
            Table::AutoProcScaling => "AutoProcScaling"@,
            Table::AutoProcScalingStatistics => "AutoProcScalingStatistics"@,
        }
    }

    pub fn name(&self) -> (name: String)
        ensures
            name@ == self.text(),
    {
        match self {
            Table::DataCollectionFileAttachment => String::from_str("DataCollectionFileAttachment"),
            Table::ProcessingJob => String::from_str("ProcessingJob"),
            Table::ProcessingJobParameter => String::from_str("ProcessingJobParameter"),
            Table::AutoProcIntegration => String::from_str("AutoProcIntegration"),
            Table::AutoProcProgram => String::from_str("AutoProcProgram"),
            Table::AutoProc => String::from_str("AutoProc"),
            Table::AutoProcScaling => String::from_str("AutoProcScaling"),
            Table::AutoProcScalingStatistics => String::from_str("AutoProcScalingStatistics"),
        }
    }
}

/// The columns that the loaders join and filter on.
#[derive(Clone, Copy, Debug, PartialEq, Eq, Structural, Hash)]
pub enum KeyColumn {
    DataCollectionId,
    ProcessingJobId,
    AutoProcProgramId,
    AutoProcId,
    AutoProcScalingId,
    ScalingStatisticsType,
}

impl KeyColumn {
    /// The name of the column in the store.
    pub open spec fn text(self) -> Seq<char> {
        match self {
            KeyColumn::DataCollectionId => "dataCollectionId"@,
            KeyColumn::ProcessingJobId => "processingJobId"@,
            KeyColumn::AutoProcProgramId => "autoProcProgramId"@,
            KeyColumn::AutoProcId => "autoProcId"@,
            KeyColumn::AutoProcScalingId => "autoProcScalingId"@,
            KeyColumn::ScalingStatisticsType => "scalingStatisticsType"@,
        }
    }

    pub fn name(&self) -> (name: String)
        ensures
            name@ == self.text(),
    {
        match self {
            KeyColumn::DataCollectionId => String::from_str("dataCollectionId"),
            KeyColumn::ProcessingJobId => String::from_str("processingJobId"),
            KeyColumn::AutoProcProgramId => String::from_str("autoProcProgramId"),
            KeyColumn::AutoProcId => String::from_str("autoProcId"),
            KeyColumn::AutoProcScalingId => String::from_str("autoProcScalingId"),
            KeyColumn::ScalingStatisticsType => String::from_str("scalingStatisticsType"),
        }
    }
}

/// One more table in a query: every row found so far is kept, and matched
/// with the rows of `table` for which the column `on` of `table` equals the
/// same column of the table `with`.
#[derive(Clone, Copy, Debug, PartialEq, Eq, Structural, Hash)]
pub struct LeftJoin {
    pub table: Table,
    pub on: KeyColumn,
    pub with: Table,
}

/// Which rows a query asks for.
#[derive(Clone, Debug, PartialEq)]
pub enum Filter {
    /// The rows whose `column` holds one of `ids`.
    IdIn { column: KeyColumn, ids: Vec<u32> },
    /// The rows whose `id_column` and `text_column` together hold one of
    /// `pairs`.
    PairIn { id_column: KeyColumn, text_column: KeyColumn, pairs: Vec<(u32, String)> },
}

impl Filter {
    /// Whether the filter lets a row through that holds `id` and `text` in the
    /// columns it looks at. A filter on identifiers alone does not look at
    /// `text`.
    pub open spec fn admits(self, id: u32, text: Seq<char>) -> bool {
        match self {
            Filter::IdIn { column, ids } => ids@.contains(id),
            Filter::PairIn { id_column, text_column, pairs } => exists|i: int|
                0 <= i < pairs@.len() && (#[trigger] pairs@[i]).0 == id && pairs@[i].1@ == text,
        }
    }

    /// Whether the filter lets a row through that holds `id` and `text` in the
    /// columns it looks at.
    pub fn selects(&self, id: u32, text: &str) -> (selected: bool)
        ensures
            selected == self.admits(id, text@),
    {
        match self {
            Filter::IdIn { column, ids } => has_id(ids, id),
            Filter::PairIn { id_column, text_column, pairs } => has_pair(pairs, id, text),
        }
    }
}

/// Whether `id` is one of `ids`.
fn has_id(ids: &Vec<u32>, id: u32) -> (found: bool)
    ensures
        found == ids@.contains(id),
{
    let mut i: usize = 0;
    while i < ids.len()
        invariant
            i <= ids.len(),
            forall|j: int| 0 <= j < i ==> ids@[j] != id,
        decreases ids.len() - i,
    {
        if ids[i] == id {
            return true;
        }
        i += 1;
    }
    false
}

/// Whether `id` with `text` is one of `pairs`.
fn has_pair(pairs: &Vec<(u32, String)>, id: u32, text: &str) -> (found: bool)
    ensures
        found == exists|i: int|
            0 <= i < pairs@.len() && (#[trigger] pairs@[i]).0 == id && pairs@[i].1@ == text@,
{
    let wanted = String::from_str(text);
    let mut i: usize = 0;
    while i < pairs.len()
        invariant
            i <= pairs.len(),
            wanted@ == text@,
            forall|j: int|
                0 <= j < i ==> !((#[trigger] pairs@[j]).0 == id && pairs@[j].1@ == text@),
        decreases pairs.len() - i,
    {
        if pairs[i].0 == id && pairs[i].1 == wanted {
            return true;
        }
        i += 1;
    }
    false
}

/// The one query that a loader sends for a batch: every column of the rows
/// of `from`, joined with `joins` in turn, that `filter` lets through.
#[derive(Clone, Debug, PartialEq)]
pub struct FetchPlan {
    pub from: Table,
    pub joins: Vec<LeftJoin>,
    pub filter: Filter,
}

/// A copy of `ids`.
pub fn copy_ids(ids: &Vec<u32>) -> (copy: Vec<u32>)
    ensures
        copy@ == ids@,
{
    let mut copy: Vec<u32> = Vec::new();
    let mut i: usize = 0;
    while i < ids.len()
        invariant
            i <= ids.len(),
            copy@ == ids@.take(i as int),
        decreases ids.len() - i,
    {
        copy.push(ids[i]);
        i += 1;
    }
    copy
}

} // verus!
