//! The dispatcher: what is done for an action, step by step.
//!
//! A request runs through the states received, decoded, prepared,
//! sanitized, submitted and responded, and ends at its first failure. The
//! dispatcher decides; its surroundings decode the envelope, read the
//! clock, serialize entities and talk to the store. Each [`Step`] says what
//! the surroundings are to do next, and each function here takes what they
//! report back.

use crate::attr::{AttrMap, Value};
use crate::data_structs::{
    classify, Account, Dataset, DatasetView, Edge, EdgeView, Profile, Subset, User, UserView,
};
use crate::edges::{edge_records, generate_edge_items, records_view, relation_labels};
use crate::errors::RequestError;
use crate::keys::{prepare_dataset, prepare_user, prepared_dataset, prepared_user};
use crate::sanitize::{clean_item, lemma_edge_record_clean, sanitized};
use crate::text::{copy_of, opt_text};
use vstd::prelude::*;
use vstd::string::*;

verus! {

/// The actions that a request can ask for.
#[derive(Debug)]
pub enum Actions {
    CreateDataset(Dataset),
    UpdateDataset(Dataset),
    DeleteDataset(String),
    CreateUser(User),
    UpdateUser(User),
    DeleteUser(String),
    CreateSubset(Subset),
    DeleteSubset(String),
    CreateAccount(Account),
    DeleteAccount(String),
    CreateProfile(Profile),
    CreateEdge(String, String),
    CreateProfileEdge(String, String, String),
}

/// The mathematical value of an action.
pub enum ActionsView {
    CreateDataset(DatasetView),
    UpdateDataset(DatasetView),
    DeleteDataset(Seq<char>),
    CreateUser(UserView),
    UpdateUser(UserView),
    DeleteUser(Seq<char>),
    CreateSubset,
    DeleteSubset(Seq<char>),
    CreateAccount,
    DeleteAccount(Seq<char>),
    CreateProfile,
    CreateEdge(Seq<char>, Seq<char>),
    CreateProfileEdge(Seq<char>, Seq<char>, Seq<char>),
}

impl View for Actions {
    type V = ActionsView;

    open spec fn view(&self) -> ActionsView {
        match self {
            Actions::CreateDataset(ds) => ActionsView::CreateDataset(ds@),
            Actions::UpdateDataset(ds) => ActionsView::UpdateDataset(ds@),
            Actions::DeleteDataset(name) => ActionsView::DeleteDataset(name@),
            Actions::CreateUser(user) => ActionsView::CreateUser(user@),
            Actions::UpdateUser(user) => ActionsView::UpdateUser(user@),
            Actions::DeleteUser(name) => ActionsView::DeleteUser(name@),
            Actions::CreateSubset(_) => ActionsView::CreateSubset,
            Actions::DeleteSubset(name) => ActionsView::DeleteSubset(name@),
            Actions::CreateAccount(_) => ActionsView::CreateAccount,
            Actions::DeleteAccount(name) => ActionsView::DeleteAccount(name@),
            Actions::CreateProfile(_) => ActionsView::CreateProfile,
            Actions::CreateEdge(pk1, pk2) => ActionsView::CreateEdge(pk1@, pk2@),
            Actions::CreateProfileEdge(pk1, pk2, profile) => ActionsView::CreateProfileEdge(
                pk1@,
                pk2@,
                profile@,
            ),
        }
    }
}

/// The envelope of a request.
#[derive(Debug)]
pub struct ActionEvent {
    pub action: Actions,
}

/// The answer to a request: a status code and the one member of the body.
#[derive(Debug)]
pub struct Reply {
    pub status_code: i32,
    pub key: String,
    pub value: String,
}

/// The mathematical value of a [`Reply`].
pub struct ReplyView {
    pub status_code: i32,
    pub key: Seq<char>,
    pub value: Seq<char>,
}

impl View for Reply {
    type V = ReplyView;

    open spec fn view(&self) -> ReplyView {
        ReplyView { status_code: self.status_code, key: self.key@, value: self.value@ }
    }
}

/// What the store reports of a submission.
#[derive(Clone, Copy, Debug, PartialEq, Eq, Structural)]
pub enum WriteOutcome {
    /// Every record was stored.
    Complete,
    /// Some records were stored and some were not.
    Partial,
    /// The store reported a failure.
    Failed,
}

/// An entity that is ready to be serialized.
#[derive(Debug)]
pub enum Entity {
    Dataset(Dataset),
    User(User),
}

/// The mathematical value of an [`Entity`].
pub enum EntityView {
    Dataset(DatasetView),
    User(UserView),
}

impl View for Entity {
    type V = EntityView;

    open spec fn view(&self) -> EntityView {
        match self {
            Entity::Dataset(ds) => EntityView::Dataset(ds@),
            Entity::User(user) => EntityView::User(user@),
        }
    }
}

/// What is to be done next for a request.
#[derive(Debug)]
pub enum Step {
    /// An entity is prepared: serialize it into a generic attribute map and
    /// hand the map, with `pk`, to [`sanitize_entity`].
    Serialize { entity: Entity, pk: Option<String> },
    /// A record is sanitized: submit it as a single-item write and hand the
    /// store's report, with `reply`, to [`conclude`].
    Put { item: AttrMap, reply: Reply },
    /// Records are sanitized: submit them as one batch write and hand the
    /// store's report, with `reply`, to [`conclude`].
    BatchWrite { items: Vec<AttrMap>, reply: Reply },
    /// The request is answered.
    Respond(Reply),
    /// The request has failed.
    Fail(RequestError),
}

/// The mathematical value of a [`Step`].
pub enum StepView {
    Serialize { entity: EntityView, pk: Option<Seq<char>> },
    Put { item: Map<Seq<char>, Value>, reply: ReplyView },
    BatchWrite { items: Seq<Map<Seq<char>, Value>>, reply: ReplyView },
    Respond(ReplyView),
    Fail(RequestError),
}

impl View for Step {
    type V = StepView;

    open spec fn view(&self) -> StepView {
        match self {
            Step::Serialize { entity, pk } => StepView::Serialize { entity: entity@, pk: opt_text(*pk) },
            Step::Put { item, reply } => StepView::Put { item: item@, reply: reply@ },
            Step::BatchWrite { items, reply } => StepView::BatchWrite {
                items: records_view(items@),
                reply: reply@,
            },
            Step::Respond(reply) => StepView::Respond(reply@),
            Step::Fail(error) => StepView::Fail(*error),
        }
    }
}

/// Whether a step asks for a write to the store.
pub open spec fn is_storage_call(step: StepView) -> bool {
    step is Put || step is BatchWrite
}

/// The actions that are carried out. Every other action is answered as not
/// implemented.
pub open spec fn is_implemented(action: ActionsView) -> bool {
    action is CreateDataset || action is CreateUser || action is CreateEdge
        || action is CreateProfileEdge
}

/// The answer to an action that is not implemented.
pub open spec fn not_implemented() -> ReplyView {
    ReplyView { status_code: 400, key: "status"@, value: "Not implemented"@ }
}

/// The answer to the creation of an edge.
pub open spec fn edge_created() -> ReplyView {
    ReplyView { status_code: 200, key: "status"@, value: "Edge created"@ }
}

/// The answer to the creation of an entity: its key, or the complaint that
/// it has none.
pub open spec fn key_reply(pk: Option<Seq<char>>) -> ReplyView {
    match pk {
        Some(key) => ReplyView { status_code: 200, key: "pk"@, value: key },
        None => ReplyView { status_code: 500, key: "status"@, value: "pk is unset"@ },
    }
}

/// The step for an edge: the batch write of its sanitized records, or the
/// failure of a pair of types that cannot be linked.
pub open spec fn edge_plan(edge: EdgeView, now: u64) -> StepView {
    match edge_records(edge, now) {
        Some(records) => StepView::BatchWrite {
            items: records.map_values(|record: Map<Seq<char>, Value>| sanitized(record)),
            reply: edge_created(),
        },
        None => StepView::Fail(RequestError::IncompatibleTypes),
    }
}

/// The first step for a decoded action at the time `now`.
pub open spec fn planned(action: ActionsView, now: u64) -> StepView {
    match action {
        ActionsView::CreateDataset(ds) => StepView::Serialize {
            entity: EntityView::Dataset(prepared_dataset(ds, now)),
            pk: prepared_dataset(ds, now).pk,
        },
        ActionsView::CreateUser(user) => StepView::Serialize {
            entity: EntityView::User(prepared_user(user, now)),
            pk: prepared_user(user, now).pk,
        },
        ActionsView::CreateEdge(pk1, pk2) => edge_plan(
            EdgeView {
                pk1,
                pk2,
                profile: None,
                pk1_type: classify(pk1),
                pk2_type: classify(pk2),
            },
            now,
        ),
        ActionsView::CreateProfileEdge(pk1, pk2, profile) => edge_plan(
            EdgeView {
                pk1,
                pk2,
                profile: Some(profile),
                pk1_type: classify(pk1),
                pk2_type: classify(pk2),
            },
            now,
        ),
        _ => StepView::Respond(not_implemented()),
    }
}

/// The view of an optional envelope.
pub open spec fn opt_action(event: Option<ActionEvent>) -> Option<ActionsView> {
    match event {
        Some(e) => Some(e.action@),
        None => None,
    }
}

/// The first step for a request: that of its action, or the failure of an
/// envelope that could not be decoded.
pub open spec fn received(event: Option<ActionsView>, now: u64) -> StepView {
    match event {
        Some(action) => planned(action, now),
        None => StepView::Fail(RequestError::Decode),
    }
}

/// The step after an entity was serialized: the single-item write of the
/// sanitized record.
pub open spec fn entity_sanitized(item: Map<Seq<char>, Value>, pk: Option<Seq<char>>) -> StepView {
    StepView::Put { item: sanitized(item), reply: key_reply(pk) }
}

/// The step after the store has reported: the answer after a complete
/// write, a failure of its own kind after a partial one and after a failed
/// one.
pub open spec fn concluded(reply: ReplyView, outcome: WriteOutcome) -> StepView {
    match outcome {
        WriteOutcome::Complete => StepView::Respond(reply),
        WriteOutcome::Partial => StepView::Fail(RequestError::PartialWrite),
        WriteOutcome::Failed => StepView::Fail(RequestError::WriteFailed),
    }
}

fn reply(status_code: i32, key: &str, value: String) -> (r: Reply)
    ensures
        r@ == (ReplyView { status_code, key: key@, value: value@ }),
{
    Reply { status_code, key: String::from_str(key), value }
}

/// Sanitizes each of a sequence of records.
pub fn clean_items(items: Vec<AttrMap>) -> (cleaned: Vec<AttrMap>)
    ensures
        records_view(cleaned@) == records_view(items@).map_values(
            |record: Map<Seq<char>, Value>| sanitized(record),
        ),
{
    let mut cleaned: Vec<AttrMap> = Vec::new();
    let ghost all = records_view(items@);
    for item in iter: items
        invariant
            all == records_view(iter.seq()),
            cleaned@.len() == iter.index(),
            forall|i: int|
                0 <= i < cleaned@.len() ==> (#[trigger] cleaned@[i])@ == sanitized(all[i]),
    {
        let c = clean_item(item);
        cleaned.push(c);
    }
    assert(records_view(cleaned@) =~= all.map_values(
        |record: Map<Seq<char>, Value>| sanitized(record),
    ));
    cleaned
}

fn dispatch_edge(edge: Edge, now: u64) -> (step: Step)
    ensures
        step@ == edge_plan(edge@, now),
{
    match generate_edge_items(edge, now) {
        Ok(items) => Step::BatchWrite {
            items: clean_items(items),
            reply: reply(200, "status", String::from_str("Edge created")),
        },
        Err(error) => Step::Fail(error),
    }
}

/// Decides the first step for a decoded action at the time `now`.
pub fn dispatch(action: Actions, now: u64) -> (step: Step)
    ensures
        step@ == planned(action@, now),
{
    match action {
        Actions::CreateDataset(ds) => {
            let prepared = prepare_dataset(ds, now);
            let pk = copy_of(&prepared.pk);
            Step::Serialize { entity: Entity::Dataset(prepared), pk }
        },
        Actions::CreateUser(user) => {
            let prepared = prepare_user(user, now);
            let pk = copy_of(&prepared.pk);
            Step::Serialize { entity: Entity::User(prepared), pk }
        },
        Actions::CreateEdge(pk1, pk2) => dispatch_edge(Edge::new(pk1, pk2), now),
        Actions::CreateProfileEdge(pk1, pk2, profile) => {
            let mut edge = Edge::new(pk1, pk2);
            edge.profile = Some(profile);
            dispatch_edge(edge, now)
        },
        _ => Step::Respond(reply(400, "status", String::from_str("Not implemented"))),
    }
}

/// Decides the first step for a request: `event` is its envelope, or
/// `None` where the envelope could not be decoded.
pub fn receive(event: Option<ActionEvent>, now: u64) -> (step: Step)
    ensures
        step@ == received(opt_action(event), now),
{
    match event {
        Some(e) => dispatch(e.action, now),
        None => Step::Fail(RequestError::Decode),
    }
}

/// Decides the step after an entity was serialized into `item`: the
/// record is sanitized and goes to the store, and the answer that follows
/// the write is the entity's key `pk`.
pub fn sanitize_entity(item: AttrMap, pk: Option<String>) -> (step: Step)
    ensures
        step@ == entity_sanitized(item@, opt_text(pk)),
{
    let answer = match pk {
        Some(key) => reply(200, "pk", key),
        None => reply(500, "status", String::from_str("pk is unset")),
    };
    Step::Put { item: clean_item(item), reply: answer }
}

/// Decides the step after the store has reported on a submission.
pub fn conclude(reply: Reply, outcome: WriteOutcome) -> (step: Step)
    ensures
        step@ == concluded(reply@, outcome),
{
    match outcome {
        WriteOutcome::Complete => Step::Respond(reply),
        WriteOutcome::Partial => Step::Fail(RequestError::PartialWrite),
        WriteOutcome::Failed => Step::Fail(RequestError::WriteFailed),
    }
}

/// A request that has gone to the store is answered only after a complete
/// write, and then with the reply that was waiting; after any other report
/// it fails.
pub proof fn lemma_concluded(reply: ReplyView, outcome: WriteOutcome)
    ensures
        concluded(reply, outcome) is Respond <==> outcome == WriteOutcome::Complete,
        outcome == WriteOutcome::Complete ==> concluded(reply, outcome) == StepView::Respond(reply),
        outcome != WriteOutcome::Complete ==> concluded(reply, outcome) is Fail,
        !is_storage_call(concluded(reply, outcome)),
{
}

/// An action that is not implemented is answered at once with the status
/// code 400 and the status message that says so; no write to the store is
/// asked for.
pub proof fn lemma_unimplemented(action: ActionsView, now: u64)
    requires
        !is_implemented(action),
    ensures
        planned(action, now) == StepView::Respond(not_implemented()),
        not_implemented().status_code == 400,
        !is_storage_call(planned(action, now)),
{
}

/// The creation of an edge between two keys asks for the batch write of
/// the edge's records as they are, answered after the write with the
/// status code 200; where the types of the keys cannot be linked it fails,
/// and no write to the store is asked for.
pub proof fn lemma_create_edge(pk1: Seq<char>, pk2: Seq<char>, now: u64)
    ensures
        match edge_records(
            EdgeView {
                pk1,
                pk2,
                profile: None,
                pk1_type: classify(pk1),
                pk2_type: classify(pk2),
            },
            now,
        ) {
            Some(records) => planned(ActionsView::CreateEdge(pk1, pk2), now)
                == (StepView::BatchWrite { items: records, reply: edge_created() }),
            None => planned(ActionsView::CreateEdge(pk1, pk2), now) == StepView::Fail(
                RequestError::IncompatibleTypes,
            ) && !is_storage_call(planned(ActionsView::CreateEdge(pk1, pk2), now)),
        },
{
    let edge = EdgeView {
        pk1,
        pk2,
        profile: None,
        pk1_type: classify(pk1),
        pk2_type: classify(pk2),
    };
    lemma_edge_plan(edge, now);
}

/// The records of an edge go to the store as they are: the sanitizer
/// changes none of them.
pub proof fn lemma_edge_plan(edge: EdgeView, now: u64)
    ensures
        edge_records(edge, now) matches Some(records) ==> edge_plan(edge, now)
            == (StepView::BatchWrite { items: records, reply: edge_created() }),
{
    if let Some(records) = edge_records(edge, now) {
        let labels = relation_labels(edge.pk1_type, edge.pk2_type)->0;
        let forward = labels.0;
        let cleaned = records.map_values(|record: Map<Seq<char>, Value>| sanitized(record));
        lemma_edge_record_clean(edge.pk1, edge.pk2, forward, edge.profile, now);
        if let Some(backward) = labels.1 {
            lemma_edge_record_clean(edge.pk2, edge.pk1, backward, edge.profile, now);
        }
        assert(cleaned =~= records);
    }
}

} // verus!
