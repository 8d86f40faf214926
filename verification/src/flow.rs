use vstd::prelude::*;
use crate::error::NatureError;
use crate::model::{
    RawTaskView, Carrier, ConverterReturned, Converted, Instance, Meta, PlanInfo, RawTask, SerialBatchInstance,
    SerialFinished, StoreInfo, TaskForConvert, TaskType,
};
use crate::route::{Mapping, RouteInfo};
use crate::task_store::TaskForStore;

verus! {

/// An outside operation a flow asks for: a database access, a cache read,
/// a converter call, a serialisation or a channel send.
///
/// A flow either waits for the reply of one effect (`Command::Await`), or
/// ends with a list of effects whose outcomes nobody looks at
/// (`Command::Finish`).
#[derive(Debug)]
pub enum Effect {
    /// Save an instance; replied with `Reply::Done`.
    SaveInstance(Instance),
    /// Hand a stored task to the stored-task channel; replied with `Reply::Done`.
    SendStored(TaskForStore, RawTask),
    /// Build the conversion tasks of a stored task; replied with `Reply::ConvertTasks`.
    GenConvertTasks(TaskForStore),
    /// Persist new raw tasks and drop the raw task with the given id; replied with `Reply::Done`.
    SaveBatch(Vec<RawTask>, Vec<u8>),
    /// Hand a conversion task to the convert channel.
    SendConvert(TaskForConvert, RawTask),
    /// Delete the raw task with the given id; replied with `Reply::Done`.
    DeleteTask(Vec<u8>),
    /// Record an error against a raw task.
    RawToError(NatureError, RawTask),
    /// Postpone the raw task with the given id by the given number of seconds.
    UpdateExecuteTime(Vec<u8>, i64),
    /// Call the converter of a task; replied with `Reply::Returned`.
    CallOut(TaskForConvert, Vec<u8>),
    /// Check converted instances against their task; replied with `Reply::Converted`.
    GenConverted(TaskForConvert, RawTask, Vec<Instance>),
    /// Save the plan of converted instances; replied with `Reply::Plan`.
    SavePlan(TaskForConvert, Vec<Instance>),
    /// Build the store task of an instance; replied with `Reply::StoreTask`.
    GenStoreTask(Instance),
    /// Build (without saving) the raw task of a store task under a key; replied with `Reply::Raw`.
    NewRawTask(TaskForStore, String, TaskType),
    /// Build and save the raw task of a store task under a key; replied with `Reply::Raw`.
    SaveRawTask(TaskForStore, String, TaskType),
    /// Hand a store task to the store channel.
    SendStore(TaskForStore, RawTask),
    /// Store the instances of a serial batch; replied with `Reply::SerialSaved`.
    SaveSerial(SerialBatchInstance),
    /// Make the virtual instance of a finished batch under a context key; replied with `Reply::Instance`.
    ToVirtualInstance(SerialFinished, String),
    /// Persist the first raw task and drop the second; replied with `Reply::Raw`.
    FinishOld(RawTask, RawTask),
    /// Read the relations of a kind; replied with `Reply::Relations`.
    GetRelations(Meta),
    /// Make a carrier for a route; replied with `Reply::RouteCarrier`.
    NewRouteCarrier(RouteInfo),
    /// Persist a route carrier; replied with `Reply::Done`.
    InsertCarrier(Carrier<RouteInfo>),
    /// Delete the carrier with the given id; replied with `Reply::Done`.
    DeleteCarrier(Vec<u8>),
    /// Hand a route carrier to the dispatch channel.
    SendDispatch(Carrier<RouteInfo>),
    /// Move a store carrier to the error list.
    MoveStoreToErr(NatureError, Carrier<StoreInfo>),
    /// Make and persist a carrier for a serial batch; replied with `Reply::SerialCarrier`.
    CreateCarrier(SerialBatchInstance),
    /// Hand a serial carrier to the serial channel.
    SendSerial(Carrier<SerialBatchInstance>),
    /// Verify an instance before it is stored; replied with `Reply::Instance`.
    VerifyInstance(Instance),
    /// Insert an instance; replied with `Reply::Done`.
    InsertInstance(Instance),
    /// Serialise the outcome of a batch; replied with `Reply::Json`.
    SerializeFinished(SerialFinished),
    /// Make a carrier for a store info and finish the serial carrier; replied with `Reply::StoreCarrier`.
    CreateAndFinishCarrier(StoreInfo, Carrier<SerialBatchInstance>),
    /// Move a serial carrier to the error list.
    MoveSerialToErr(NatureError, Carrier<SerialBatchInstance>),
    /// Hand a store carrier to the route channel.
    SendRoute(Carrier<StoreInfo>),
}

/// The outcome of an awaited effect, handed back to the flow that asked for it.
///
/// A reply that does not answer the effect a flow awaits, and any reply to a
/// flow that is over, ends the flow with no effect and success.
#[derive(Debug)]
pub enum Reply {
    Done(Result<(), NatureError>),
    ConvertTasks(Result<Vec<(TaskForConvert, RawTask)>, NatureError>),
    Returned(Result<ConverterReturned, NatureError>),
    Converted(Result<Converted, NatureError>),
    Plan(Result<PlanInfo, NatureError>),
    StoreTask(Result<TaskForStore, NatureError>),
    Raw(Result<RawTask, NatureError>),
    SerialSaved(Result<SerialFinished, NatureError>),
    Instance(Result<Instance, NatureError>),
    Relations(Result<Vec<Mapping>, NatureError>),
    RouteCarrier(Result<Carrier<RouteInfo>, NatureError>),
    SerialCarrier(Result<Carrier<SerialBatchInstance>, NatureError>),
    StoreCarrier(Result<Carrier<StoreInfo>, NatureError>),
    Json(Result<String, NatureError>),
}

/// What a flow asks for next.
#[derive(Debug)]
pub enum Command {
    /// Perform the effect and hand its reply to the flow.
    Await(Effect),
    /// Perform the effects in order, ignoring their outcomes; the flow is over
    /// and its result is the second field.
    Finish(Vec<Effect>, Result<(), NatureError>),
}

/// Whether a reply says that an effect succeeded.
pub open spec fn is_done_ok(reply: Reply) -> bool {
    reply matches Reply::Done(Ok(_))
}

/// The effects a command ends its flow with (none for an awaiting command).
pub open spec fn notes_of(cmd: Command) -> Seq<Effect> {
    match cmd {
        Command::Finish(notes, _) => notes@,
        Command::Await(_) => Seq::empty(),
    }
}

/// The command that ends a flow with no effect and success.
pub open spec fn finish_quietly(cmd: Command) -> bool {
    cmd matches Command::Finish(notes, Ok(())) && notes@.len() == 0
}

/// The command that ends a flow with the single effect `e` and success.
pub open spec fn finish_with(cmd: Command, e: Effect) -> bool {
    cmd matches Command::Finish(notes, Ok(())) && notes@ == seq![e]
}

/// The command that ends a flow with no effect and the error `e` as its result.
pub open spec fn finish_failing(cmd: Command, e: NatureError) -> bool {
    cmd matches Command::Finish(notes, Err(e2)) && e2 == e && notes@.len() == 0
}

/// `note` records the error `e` against a copy of the raw task viewed as `raw`.
pub open spec fn records_error(note: Effect, e: NatureError, raw: RawTaskView) -> bool {
    note matches Effect::RawToError(e2, r) && e2 == e && r@ == raw
}

/// The command that ends a flow, with success, by recording `e` against a copy of `raw`.
pub open spec fn finish_recording(cmd: Command, e: NatureError, raw: RawTaskView) -> bool {
    cmd matches Command::Finish(notes, Ok(())) && notes@.len() == 1 && records_error(notes@[0], e, raw)
}

pub fn quiet_finish() -> (cmd: Command)
    ensures
        finish_quietly(cmd),
{
    Command::Finish(Vec::new(), Ok(()))
}

pub fn finish_one(e: Effect) -> (cmd: Command)
    ensures
        finish_with(cmd, e),
{
    let mut notes = Vec::new();
    notes.push(e);
    assert(notes@ =~= seq![e]);
    Command::Finish(notes, Ok(()))
}

} // verus!
