//! Resolution of the gateway's references into stubs, and of the fields of
//! a stub into keys asked of the loaders.

use crate::collector::Registration;
use crate::entities::AutoProcessing;
use crate::entities::DataCollection;
use crate::entities::StatisticsType;
use crate::loaders::DataLoaders;
use crate::loaders::LoadersState;
use vstd::prelude::*;
use vstd::string::StringExecFns;

verus! {

/// The root query of the service
#[derive(Clone, Debug, Default)]
pub struct Query;

/// A value of a key field, as the gateway sends it.
#[derive(Clone, Debug, PartialEq)]
pub enum KeyValue {
    Null,
    Boolean(bool),
    Integer(i64),
    Text(String),
}

/// The key fields by which the gateway refers to an entity of this service,
/// each with its name.
#[derive(Clone, Debug, PartialEq)]
pub struct Representation {
    pub fields: Vec<(String, KeyValue)>,
}

/// Why a reference of the gateway could not be resolved.
#[derive(Clone, Copy, Debug, PartialEq, Eq, Structural)]
pub enum ReferenceError {
    /// This service has no entity of the type that the reference names.
    UnknownEntity,
    /// The representation lacks the key field of the entity.
    MissingKey,
    /// The key field holds no identifier.
    InvalidKey,
}

/// The name of the one type of entity that this service resolves by
/// reference.
pub open spec fn entity_name() -> Seq<char> {
    "DataCollection"@
}

/// The name of its key field.
pub open spec fn key_name() -> Seq<char> {
    "id"@
}

/// The value of the first field of `fields` that is named as the key field.
pub open spec fn key_field(fields: Seq<(String, KeyValue)>) -> Option<KeyValue>
    decreases fields.len(),
{
    if fields.len() == 0 {
        None
    } else if fields[0].0@ == key_name() {
        Some(fields[0].1)
    } else {
        key_field(fields.drop_first())
    }
}

/// The identifier that a key value holds, if it holds one.
pub open spec fn identifier(value: KeyValue) -> Option<u32> {
    match value {
        KeyValue::Integer(number) => if 0 <= number <= u32::MAX {
            Some(number as u32)
        } else {
            None
        },
        _ => None,
    }
}

/// What a reference resolves to.
pub open spec fn resolved(entity_type_name: Seq<char>, fields: Seq<(String, KeyValue)>) -> Result<
    DataCollection,
    ReferenceError,
> {
    if entity_type_name != entity_name() {
        Err(ReferenceError::UnknownEntity)
    } else {
        match key_field(fields) {
            None => Err(ReferenceError::MissingKey),
            Some(value) => match identifier(value) {
                None => Err(ReferenceError::InvalidKey),
                Some(id) => Ok(DataCollection { id }),
            },
        }
    }
}

/// Finds the key field among `fields`.
fn find_key(fields: &Vec<(String, KeyValue)>) -> (found: Option<&KeyValue>)
    ensures
        match found {
            Some(value) => key_field(fields@) == Some(*value),
            None => key_field(fields@) is None,
        },
{
    let name = String::from_str("id");
    let mut i: usize = 0;
    proof {
        assert(fields@.skip(0) =~= fields@);
    }
    while i < fields.len()
        invariant
            i <= fields.len(),
            name@ == key_name(),
            key_field(fields@) == key_field(fields@.skip(i as int)),
        decreases fields.len() - i,
    {
        proof {
            assert(fields@.skip(i as int).drop_first() =~= fields@.skip(i + 1));
        }
        if fields[i].0 == name {
            return Some(&fields[i].1);
        }
        i += 1;
    }
    None
}

impl Query {
    /// Reference datasets resolver for the router: the data collection with
    /// the identifier `id`, as a stub that holds the identifier alone. It has
    /// no access to the loaders, so no fetch can follow from it.
    pub fn router_data_collection(&self, id: u32) -> (stub: DataCollection)
        ensures
            stub == (DataCollection { id }),
    {
        DataCollection { id }
    }

    /// Resolves one reference of the gateway: the name of a type of entity
    /// with the key fields of one entity of that type.
    pub fn resolve_reference(&self, entity_type_name: &str, representation: &Representation) -> (stub:
        Result<DataCollection, ReferenceError>)
        ensures
            stub == resolved(entity_type_name@, representation.fields@),
    {
        let known = String::from_str("DataCollection");
        if String::from_str(entity_type_name) != known {
            return Err(ReferenceError::UnknownEntity);
        }
        match find_key(&representation.fields) {
            None => Err(ReferenceError::MissingKey),
            Some(KeyValue::Integer(number)) => {
                if 0 <= *number && *number <= 0xffff_ffff {
                    Ok(self.router_data_collection(*number as u32))
                } else {
                    Err(ReferenceError::InvalidKey)
                }
            },
            Some(_) => Err(ReferenceError::InvalidKey),
        }
    }

    /// Resolves the references of one request, each for itself: one that
    /// fails leaves the others as they are.
    pub fn resolve_references(&self, references: &Vec<(String, Representation)>) -> (stubs: Vec<
        Result<DataCollection, ReferenceError>,
    >)
        ensures
            stubs@.len() == references@.len(),
            forall|i: int|
                0 <= i < references@.len() ==> #[trigger] stubs@[i] == resolved(
                    references@[i].0@,
                    references@[i].1.fields@,
                ),
    {
        let mut stubs: Vec<Result<DataCollection, ReferenceError>> = Vec::new();
        let mut i: usize = 0;
        while i < references.len()
            invariant
                i <= references.len(),
                stubs@.len() == i,
                forall|j: int|
                    0 <= j < i ==> #[trigger] stubs@[j] == resolved(
                        references@[j].0@,
                        references@[j].1.fields@,
                    ),
            decreases references.len() - i,
        {
            let stub = self.resolve_reference(references[i].0.as_str(), &references[i].1);
            stubs.push(stub);
            i += 1;
        }
        stubs
    }
}

impl DataCollection {
    /// Fetched all the processed data from data collection during a session:
    /// asks the loader of processed files for this data collection.
    pub fn processed_data(&self, loaders: &mut DataLoaders) -> (registration: Registration)
        ensures
            registration == old(loaders)@.processed_data.answer(self.id),
            final(loaders)@ == (LoadersState {
                processed_data: old(loaders)@.processed_data.registered(self.id),
                ..old(loaders)@
            }),
    {
        loaders.processed_data.collector.register(self.id)
    }

    /// Fetched all the processing jobs: asks the loader of processing jobs
    /// for this data collection.
    pub fn processing_jobs(&self, loaders: &mut DataLoaders) -> (registration: Registration)
        ensures
            registration == old(loaders)@.processing_jobs.answer(self.id),
            final(loaders)@ == (LoadersState {
                processing_jobs: old(loaders)@.processing_jobs.registered(self.id),
                ..old(loaders)@
            }),
    {
        loaders.processing_jobs.collector.register(self.id)
    }

    /// Fetches all the automatic process: asks the loader of automatic
    /// processing runs for this data collection.
    pub fn auto_processing(&self, loaders: &mut DataLoaders) -> (registration: Registration)
        ensures
            registration == old(loaders)@.auto_processing.answer(self.id),
            final(loaders)@ == (LoadersState {
                auto_processing: old(loaders)@.auto_processing.registered(self.id),
                ..old(loaders)@
            }),
    {
        loaders.auto_processing.collector.register(self.id)
    }
}

impl AutoProcessing {
    /// Asks the loader of scaling statistics for the statistics of the
    /// scaling of this run in the shell `shell`: the key is the identifier of
    /// the scaling with the shell. A run without a scaling has no statistics:
    /// then nothing is asked, and the field resolves to no value.
    pub fn statistics(&self, loaders: &mut DataLoaders, shell: StatisticsType) -> (registration:
        Option<Registration>)
        ensures
            match self.auto_proc_scaling_id {
                Some(id) => {
                    &&& registration == Some(old(loaders)@.auto_proc_scaling.answer((id, shell)))
                    &&& final(loaders)@ == (LoadersState {
                        auto_proc_scaling: old(loaders)@.auto_proc_scaling.registered((id, shell)),
                        ..old(loaders)@
                    })
                },
                None => registration is None && final(loaders)@ == old(loaders)@,
            },
    {
        match self.auto_proc_scaling_id {
            Some(id) => Some(loaders.auto_proc_scaling.collector.register((id, shell))),
            None => None,
        }
    }

    /// Fetches the overall scaling statistics type
    pub fn overall(&self, loaders: &mut DataLoaders) -> (registration: Option<Registration>)
        ensures
            match self.auto_proc_scaling_id {
                Some(id) => {
                    &&& registration == Some(
                        old(loaders)@.auto_proc_scaling.answer((id, StatisticsType::Overall)),
                    )
                    &&& final(loaders)@ == (LoadersState {
                        auto_proc_scaling: old(loaders)@.auto_proc_scaling.registered(
                            (id, StatisticsType::Overall),
                        ),
                        ..old(loaders)@
                    })
                },
                None => registration is None && final(loaders)@ == old(loaders)@,
            },
    {
        self.statistics(loaders, StatisticsType::Overall)
    }

    /// Fetches the innershell scaling statistics type
    pub fn inner_shell(&self, loaders: &mut DataLoaders) -> (registration: Option<Registration>)
        ensures
            match self.auto_proc_scaling_id {
                Some(id) => {
                    &&& registration == Some(
                        old(loaders)@.auto_proc_scaling.answer((id, StatisticsType::InnerShell)),
                    )
                    &&& final(loaders)@ == (LoadersState {
                        auto_proc_scaling: old(loaders)@.auto_proc_scaling.registered(
                            (id, StatisticsType::InnerShell),
                        ),
                        ..old(loaders)@
                    })
                },
                None => registration is None && final(loaders)@ == old(loaders)@,
            },
    {
        self.statistics(loaders, StatisticsType::InnerShell)
    }

    /// Fetches the outershell scaling statistics type
    pub fn outer_shell(&self, loaders: &mut DataLoaders) -> (registration: Option<Registration>)
        ensures
            match self.auto_proc_scaling_id {
                Some(id) => {
                    &&& registration == Some(
                        old(loaders)@.auto_proc_scaling.answer((id, StatisticsType::OuterShell)),
                    )
                    &&& final(loaders)@ == (LoadersState {
                        auto_proc_scaling: old(loaders)@.auto_proc_scaling.registered(
                            (id, StatisticsType::OuterShell),
                        ),
                        ..old(loaders)@
                    })
                },
                None => registration is None && final(loaders)@ == old(loaders)@,
            },
    {
        self.statistics(loaders, StatisticsType::OuterShell)
    }
}

} // verus!
