use nature::error::{debug_text, NatureError};
use nature::flow::{Command, Effect, Reply};
use nature::inner_controller::InnerController;
use nature::model::{
    Carrier, ContextEntry, ConverterReturned, Converted, Instance, Meta, Mission, PlanInfo, RawTask,
    SerialBatchInstance, SerialFinished, StoreInfo, TaskForConvert, TaskForParallel, TaskType,
};
use nature::route::{do_route, Demand, Mapping, RouteInfo};
use nature::serial::{do_serial, new_virtual_instance, store_batch_items, submit_serial, BatchStage};
use nature::task_store::TaskForStore;

fn a_meta(key: &str) -> Meta {
    Meta { key: key.to_string(), version: 1 }
}

fn an_instance(id: u128, key: &str) -> Instance {
    Instance {
        id,
        thing: a_meta(key),
        event_time: 0,
        execute_time: 0,
        create_time: 0,
        content: String::new(),
        context: vec![ContextEntry { key: "k".to_string(), value: "v".to_string() }],
        status: Vec::new(),
        status_version: 0,
        from: None,
    }
}

fn a_raw(id: u8) -> RawTask {
    RawTask {
        task_id: vec![id],
        task_key: "/B/t".to_string(),
        task_type: 1,
        data: String::new(),
        create_time: 0,
        execute_time: 0,
        retried_times: 0,
    }
}

fn a_store_task(i: Instance) -> TaskForStore {
    TaskForStore { instance: i, upstream: None, mission: None }
}

fn a_convert_task() -> TaskForConvert {
    TaskForConvert { from: an_instance(1, "/B/up"), target: Mission { to: a_meta("/B/down"), executor: "http://c".to_string() } }
}

fn finished(cmd: Command) -> (Vec<Effect>, Result<(), NatureError>) {
    match cmd {
        Command::Finish(notes, r) => (notes, r),
        Command::Await(e) => panic!("still awaiting {:?}", e),
    }
}

fn awaited(cmd: Command) -> Effect {
    match cmd {
        Command::Await(e) => e,
        Command::Finish(n, _) => panic!("finished with {:?}", n),
    }
}

#[test]
fn parallel_hands_on_every_saved_task() {
    let batch = TaskForParallel { instances: vec![an_instance(1, "/B/a"), an_instance(2, "/B/b")] };
    let (flow, cmd) = InnerController::channel_parallel((batch, a_raw(9)));
    assert!(matches!(awaited(cmd), Effect::GenStoreTask(ref i) if i.id == 1));
    let (flow, cmd) = flow.step(Reply::StoreTask(Ok(a_store_task(an_instance(1, "/B/a")))));
    match awaited(cmd) {
        Effect::SaveRawTask(t, key, ty) => {
            assert_eq!(t.instance.id, 1);
            assert_eq!(key, "/B/a");
            assert_eq!(ty, TaskType::Store);
        },
        e => panic!("{:?}", e),
    }
    let (flow, cmd) = flow.step(Reply::Raw(Ok(a_raw(11))));
    assert!(matches!(awaited(cmd), Effect::GenStoreTask(ref i) if i.id == 2));
    let (flow, cmd) = flow.step(Reply::StoreTask(Ok(a_store_task(an_instance(2, "/B/b")))));
    assert!(matches!(awaited(cmd), Effect::SaveRawTask(_, ref k, _) if k == "/B/b"));
    let (flow, cmd) = flow.step(Reply::Raw(Ok(a_raw(12))));
    assert!(matches!(awaited(cmd), Effect::DeleteTask(ref id) if *id == vec![9u8]));
    let (_, cmd) = flow.step(Reply::Done(Ok(())));
    let (notes, r) = finished(cmd);
    assert!(r.is_ok());
    assert_eq!(notes.len(), 2);
    assert!(matches!(&notes[0], Effect::SendStore(t, raw) if t.instance.id == 1 && raw.task_id == vec![11u8]));
    assert!(matches!(&notes[1], Effect::SendStore(t, raw) if t.instance.id == 2 && raw.task_id == vec![12u8]));
}

#[test]
fn parallel_stops_on_any_failure() {
    let batch = TaskForParallel { instances: vec![an_instance(1, "/B/a"), an_instance(2, "/B/b")] };
    let (flow, _) = InnerController::channel_parallel((batch, a_raw(9)));
    let (flow, _) = flow.step(Reply::StoreTask(Ok(a_store_task(an_instance(1, "/B/a")))));
    let (flow, _) = flow.step(Reply::Raw(Ok(a_raw(11))));
    let (flow, _) = flow.step(Reply::StoreTask(Ok(a_store_task(an_instance(2, "/B/b")))));
    let (_, cmd) = flow.step(Reply::Raw(Err(NatureError::DaoEnvironmentError("down".to_string()))));
    let (notes, r) = finished(cmd);
    assert!(notes.is_empty());
    assert!(r.is_ok());
}

#[test]
fn parallel_failed_delete_hands_on_nothing() {
    let batch = TaskForParallel { instances: vec![an_instance(1, "/B/a")] };
    let (flow, _) = InnerController::channel_parallel((batch, a_raw(9)));
    let (flow, _) = flow.step(Reply::StoreTask(Ok(a_store_task(an_instance(1, "/B/a")))));
    let (flow, _) = flow.step(Reply::Raw(Ok(a_raw(11))));
    let (_, cmd) = flow.step(Reply::Done(Err(NatureError::DaoEnvironmentError("x".to_string()))));
    assert!(finished(cmd).0.is_empty());
}

#[test]
fn parallel_empty_batch_only_deletes() {
    let (flow, cmd) = InnerController::channel_parallel((TaskForParallel { instances: Vec::new() }, a_raw(3)));
    assert!(matches!(awaited(cmd), Effect::DeleteTask(ref id) if *id == vec![3u8]));
    let (_, cmd) = flow.step(Reply::Done(Ok(())));
    assert!(finished(cmd).0.is_empty());
}

#[test]
fn unexpected_reply_ends_flow_quietly() {
    let batch = TaskForParallel { instances: vec![an_instance(1, "/B/a")] };
    let (flow, _) = InnerController::channel_parallel((batch, a_raw(9)));
    let (flow, cmd) = flow.step(Reply::Json(Ok("{}".to_string())));
    let (notes, r) = finished(cmd);
    assert!(notes.is_empty() && r.is_ok());
    let (_, cmd) = flow.step(Reply::Done(Ok(())));
    assert!(finished(cmd).0.is_empty());
}

#[test]
fn convert_retries_only_environment_errors() {
    let (flow, cmd) = InnerController::channel_convert(a_convert_task(), a_raw(5));
    assert!(matches!(awaited(cmd), Effect::CallOut(ref t, ref id) if t.target.to.key == "/B/down" && *id == vec![5u8]));
    let (_, cmd) = flow.step(Reply::Returned(Err(NatureError::ConverterEnvironmentError("net".to_string()))));
    assert!(finished(cmd).0.is_empty());

    let (flow, _) = InnerController::channel_convert(a_convert_task(), a_raw(5));
    let (_, cmd) = flow.step(Reply::Returned(Err(NatureError::ConverterProtocalError("bad".to_string()))));
    let (notes, _) = finished(cmd);
    assert_eq!(notes.len(), 1);
    assert!(matches!(&notes[0], Effect::RawToError(NatureError::ConverterProtocalError(s), raw) if s == "bad" && raw.task_id == vec![5u8]));
}

#[test]
fn convert_answers_other_than_instances() {
    let (flow, _) = InnerController::channel_convert(a_convert_task(), a_raw(5));
    let (_, cmd) = flow.step(Reply::Returned(Ok(ConverterReturned::Delay(30))));
    let (notes, _) = finished(cmd);
    assert!(matches!(&notes[0], Effect::UpdateExecuteTime(id, 30) if *id == vec![5u8]));

    let (flow, _) = InnerController::channel_convert(a_convert_task(), a_raw(5));
    let (_, cmd) = flow.step(Reply::Returned(Ok(ConverterReturned::LogicalError("no".to_string()))));
    let (notes, _) = finished(cmd);
    assert!(matches!(&notes[0], Effect::RawToError(NatureError::ConverterLogicalError(s), _) if s == "no"));

    for r in [ConverterReturned::EnvError, ConverterReturned::Nothing] {
        let (flow, _) = InnerController::channel_convert(a_convert_task(), a_raw(5));
        let (_, cmd) = flow.step(Reply::Returned(Ok(r)));
        assert!(finished(cmd).0.is_empty());
    }
}

#[test]
fn convert_stores_returned_instances() {
    let (flow, _) = InnerController::channel_convert(a_convert_task(), a_raw(5));
    let (flow, cmd) = flow.step(Reply::Returned(Ok(ConverterReturned::Instances(vec![an_instance(3, "/B/down")]))));
    assert!(matches!(awaited(cmd), Effect::GenConverted(_, ref r, ref v) if r.task_id == vec![5u8] && v.len() == 1));
    let converted = Converted { done_task: a_raw(6), converted: vec![an_instance(3, "/B/down")] };
    let (flow, cmd) = flow.step(Reply::Converted(Ok(converted)));
    assert!(matches!(awaited(cmd), Effect::SavePlan(_, ref v) if v[0].id == 3));
    let plan = PlanInfo { to: a_meta("/B/down"), plan: vec![an_instance(3, "/B/down")] };
    let (flow, cmd) = flow.step(Reply::Plan(Ok(plan)));
    assert!(matches!(awaited(cmd), Effect::GenStoreTask(ref i) if i.id == 3));
    let (flow, cmd) = flow.step(Reply::StoreTask(Ok(a_store_task(an_instance(3, "/B/down")))));
    assert!(matches!(awaited(cmd), Effect::NewRawTask(_, ref k, TaskType::Store) if k == "/B/down"));
    let (flow, cmd) = flow.step(Reply::Raw(Ok(a_raw(21))));
    match awaited(cmd) {
        Effect::SaveBatch(raws, id) => {
            assert_eq!(raws.len(), 1);
            assert_eq!(raws[0].task_id, vec![21u8]);
            assert_eq!(id, vec![6u8]);
        },
        e => panic!("{:?}", e),
    }
    let (_, cmd) = flow.step(Reply::Done(Ok(())));
    let (notes, r) = finished(cmd);
    assert!(r.is_ok());
    assert!(matches!(&notes[..], [Effect::SendStore(t, raw)] if t.instance.id == 3 && raw.task_id == vec![21u8]));
}

#[test]
fn received_instance_reports_failures() {
    let (flow, _) = InnerController::received_instance(&a_convert_task(), &a_raw(5), Vec::new());
    let (_, cmd) = flow.step(Reply::Converted(Err(NatureError::VerifyError("v".to_string()))));
    let (notes, r) = finished(cmd);
    assert!(matches!(r, Err(NatureError::VerifyError(_))));
    assert!(matches!(&notes[..], [Effect::RawToError(NatureError::VerifyError(_), raw)] if raw.task_id == vec![5u8]));

    let (flow, _) = InnerController::received_instance(&a_convert_task(), &a_raw(5), Vec::new());
    let (flow, _) = flow.step(Reply::Converted(Ok(Converted { done_task: a_raw(6), converted: Vec::new() })));
    let (_, cmd) = flow.step(Reply::Plan(Err(NatureError::DaoLogicalError("p".to_string()))));
    let (notes, r) = finished(cmd);
    assert!(notes.is_empty());
    assert!(matches!(r, Err(NatureError::DaoLogicalError(_))));
}

#[test]
fn plan_with_failed_raw_task_records_error_against_done_task() {
    let (flow, _) = InnerController::received_instance(&a_convert_task(), &a_raw(5), Vec::new());
    let (flow, _) = flow.step(Reply::Converted(Ok(Converted { done_task: a_raw(6), converted: Vec::new() })));
    let plan = PlanInfo { to: a_meta("/B/down"), plan: vec![an_instance(3, "/B/down")] };
    let (flow, _) = flow.step(Reply::Plan(Ok(plan)));
    let (flow, _) = flow.step(Reply::StoreTask(Ok(a_store_task(an_instance(3, "/B/down")))));
    let (_, cmd) = flow.step(Reply::Raw(Err(NatureError::SystemError("s".to_string()))));
    let (notes, _) = finished(cmd);
    assert!(matches!(&notes[..], [Effect::RawToError(NatureError::SystemError(_), raw)] if raw.task_id == vec![6u8]));
}

#[test]
fn stored_without_missions_deletes_raw_task() {
    let (_, cmd) = InnerController::channel_stored(a_store_task(an_instance(1, "/B/a")), a_raw(4));
    let (notes, _) = finished(cmd);
    assert!(matches!(&notes[..], [Effect::DeleteTask(id)] if *id == vec![4u8]));
}

#[test]
fn stored_hands_on_conversions_after_batch() {
    let mut task = a_store_task(an_instance(1, "/B/a"));
    task.mission = Some(vec![Mission { to: a_meta("/B/down"), executor: "x".to_string() }]);
    let (flow, cmd) = InnerController::channel_stored(task, a_raw(4));
    assert!(matches!(awaited(cmd), Effect::GenConvertTasks(_)));
    let pairs = vec![(a_convert_task(), a_raw(31)), (a_convert_task(), a_raw(32))];
    let (flow, cmd) = flow.step(Reply::ConvertTasks(Ok(pairs)));
    match awaited(cmd) {
        Effect::SaveBatch(raws, id) => {
            assert_eq!(raws.iter().map(|r| r.task_id[0]).collect::<Vec<_>>(), vec![31, 32]);
            assert_eq!(id, vec![4u8]);
        },
        e => panic!("{:?}", e),
    }
    let (_, cmd) = flow.step(Reply::Done(Ok(())));
    let (notes, _) = finished(cmd);
    assert_eq!(notes.len(), 2);
    assert!(matches!(&notes[1], Effect::SendConvert(_, r) if r.task_id == vec![32u8]));

    let mut task = a_store_task(an_instance(1, "/B/a"));
    task.mission = Some(Vec::new());
    let (flow, _) = InnerController::channel_stored(task, a_raw(4));
    let (_, cmd) = flow.step(Reply::ConvertTasks(Err(NatureError::DaoLogicalError("d".to_string()))));
    let (notes, _) = finished(cmd);
    assert!(matches!(&notes[..], [Effect::RawToError(NatureError::DaoLogicalError(_), r)] if r.task_id == vec![4u8]));
}

#[test]
fn save_instance_saves_then_sends() {
    let (flow, cmd) = InnerController::save_instance(a_store_task(an_instance(1, "/B/a")), a_raw(2));
    assert!(matches!(awaited(cmd), Effect::SaveInstance(ref i) if i.id == 1));
    let (flow, cmd) = flow.step(Reply::Done(Ok(())));
    assert!(matches!(awaited(cmd), Effect::SendStored(ref t, ref r) if t.instance.id == 1 && r.task_id == vec![2u8]));
    let (_, cmd) = flow.step(Reply::Done(Ok(())));
    let (notes, r) = finished(cmd);
    assert!(notes.is_empty() && r.is_ok());

    let (flow, _) = InnerController::save_instance(a_store_task(an_instance(1, "/B/a")), a_raw(2));
    let (_, cmd) = flow.step(Reply::Done(Err(NatureError::DaoEnvironmentError("e".to_string()))));
    assert!(matches!(finished(cmd).1, Err(NatureError::DaoEnvironmentError(_))));

    let (flow, _) = InnerController::save_instance(a_store_task(an_instance(1, "/B/a")), a_raw(2));
    let (flow, _) = flow.step(Reply::Done(Ok(())));
    let (_, cmd) = flow.step(Reply::Done(Err(NatureError::SystemError("closed".to_string()))));
    assert!(matches!(finished(cmd).1, Err(NatureError::SystemError(_))));
}

#[test]
fn channel_store_drops_failures() {
    let (flow, cmd) = InnerController::channel_store((a_store_task(an_instance(1, "/B/a")), a_raw(2)));
    assert!(matches!(awaited(cmd), Effect::SaveInstance(ref i) if i.id == 1));
    let (_, cmd) = flow.step(Reply::Done(Err(NatureError::DaoEnvironmentError("e".to_string()))));
    let (notes, r) = finished(cmd);
    assert!(notes.is_empty() && r.is_ok());

    let (flow, _) = InnerController::channel_store((a_store_task(an_instance(1, "/B/a")), a_raw(2)));
    let (flow, cmd) = flow.step(Reply::Done(Ok(())));
    assert!(matches!(awaited(cmd), Effect::SendStored(_, _)));
    let (_, cmd) = flow.step(Reply::Done(Err(NatureError::SystemError("closed".to_string()))));
    let (notes, r) = finished(cmd);
    assert!(notes.is_empty() && r.is_ok());
}

#[test]
fn convert_ignores_result_of_received_instances() {
    let (flow, _) = InnerController::channel_convert(a_convert_task(), a_raw(5));
    let (flow, _) = flow.step(Reply::Returned(Ok(ConverterReturned::Instances(vec![an_instance(3, "/B/down")]))));
    let (_, cmd) = flow.step(Reply::Converted(Err(NatureError::VerifyError("v".to_string()))));
    let (notes, r) = finished(cmd);
    assert!(r.is_ok());
    assert!(matches!(&notes[..], [Effect::RawToError(NatureError::VerifyError(_), raw)] if raw.task_id == vec![5u8]));

    let (flow, _) = InnerController::channel_convert(a_convert_task(), a_raw(5));
    let (flow, _) = flow.step(Reply::Returned(Ok(ConverterReturned::Instances(Vec::new()))));
    let (flow, _) = flow.step(Reply::Converted(Ok(Converted { done_task: a_raw(6), converted: Vec::new() })));
    let (_, cmd) = flow.step(Reply::Plan(Err(NatureError::DaoLogicalError("p".to_string()))));
    let (notes, r) = finished(cmd);
    assert!(notes.is_empty() && r.is_ok());
}

#[test]
fn serial_chain_replaces_batch_task() {
    let batch = SerialBatchInstance { context_for_finish: "done".to_string(), instances: vec![an_instance(1, "/B/a")] };
    let (flow, cmd) = InnerController::channel_serial((batch, a_raw(8)));
    assert!(matches!(awaited(cmd), Effect::SaveSerial(ref b) if b.instances.len() == 1));
    let sf = SerialFinished { succeeded_id: vec![1], errors: Vec::new() };
    let (flow, cmd) = flow.step(Reply::SerialSaved(Ok(sf)));
    assert!(matches!(awaited(cmd), Effect::ToVirtualInstance(_, ref f) if f == "done"));
    let (flow, cmd) = flow.step(Reply::Instance(Ok(an_instance(0, "/sys/batch/serial"))));
    assert!(matches!(awaited(cmd), Effect::GenStoreTask(_)));
    let (flow, cmd) = flow.step(Reply::StoreTask(Ok(a_store_task(an_instance(0, "/sys/batch/serial")))));
    assert!(matches!(awaited(cmd), Effect::NewRawTask(_, ref k, TaskType::QueueBatch) if k == "/sys/batch/serial"));
    let (flow, cmd) = flow.step(Reply::Raw(Ok(a_raw(40))));
    assert!(matches!(awaited(cmd), Effect::FinishOld(ref n, ref c) if n.task_id == vec![40u8] && c.task_id == vec![8u8]));
    let (_, cmd) = flow.step(Reply::Raw(Ok(a_raw(41))));
    let (notes, _) = finished(cmd);
    assert!(matches!(&notes[..], [Effect::SendStored(_, r)] if r.task_id == vec![41u8]));
}

#[test]
fn serial_chain_records_failed_virtual_instance() {
    let batch = SerialBatchInstance { context_for_finish: "done".to_string(), instances: Vec::new() };
    let (flow, _) = InnerController::channel_serial((batch, a_raw(8)));
    let (flow, _) = flow.step(Reply::SerialSaved(Ok(SerialFinished { succeeded_id: Vec::new(), errors: Vec::new() })));
    let (_, cmd) = flow.step(Reply::Instance(Err(NatureError::SystemError("json".to_string()))));
    let (notes, _) = finished(cmd);
    assert!(matches!(&notes[..], [Effect::RawToError(NatureError::SystemError(_), r)] if r.task_id == vec![8u8]));
}

fn a_store_carrier() -> Carrier<StoreInfo> {
    let mut i = an_instance(5, "/B/a");
    i.status = vec!["new".to_string()];
    Carrier { id: vec![70], data: StoreInfo { instance: i, converter: None } }
}

fn a_relation(to: &str, status_include: &[&str]) -> Mapping {
    Mapping {
        to: a_meta(to),
        demand: Demand {
            context_include: Vec::new(),
            context_exclude: Vec::new(),
            status_include: status_include.iter().map(|s| s.to_string()).collect(),
            status_exclude: Vec::new(),
        },
    }
}

#[test]
fn route_without_relations_deletes_carrier() {
    let (flow, cmd) = do_route(a_store_carrier());
    assert!(matches!(awaited(cmd), Effect::GetRelations(ref m) if m.key == "/B/a"));
    let (_, cmd) = flow.step(Reply::Relations(Ok(Vec::new())));
    let (notes, _) = finished(cmd);
    assert!(matches!(&notes[..], [Effect::DeleteCarrier(id)] if *id == vec![70u8]));
}

#[test]
fn route_delivers_selected_relations() {
    let (flow, _) = do_route(a_store_carrier());
    let rels = vec![a_relation("/B/x", &["new"]), a_relation("/B/y", &["paid"])];
    let (flow, cmd) = flow.step(Reply::Relations(Ok(rels)));
    let route = match awaited(cmd) {
        Effect::NewRouteCarrier(r) => r,
        e => panic!("{:?}", e),
    };
    assert_eq!(route.maps.len(), 1);
    assert_eq!(route.maps[0].to.key, "/B/x");
    assert_eq!(route.instance.id, 5);
    let nc = Carrier { id: vec![71], data: route };
    let (flow, cmd) = flow.step(Reply::RouteCarrier(Ok(nc)));
    assert!(matches!(awaited(cmd), Effect::InsertCarrier(ref c) if c.id == vec![71u8]));
    let (flow, cmd) = flow.step(Reply::Done(Ok(())));
    assert!(matches!(awaited(cmd), Effect::DeleteCarrier(ref id) if *id == vec![70u8]));
    let (_, cmd) = flow.step(Reply::Done(Ok(())));
    let (notes, _) = finished(cmd);
    assert!(matches!(&notes[..], [Effect::SendDispatch(c)] if c.id == vec![71u8]));
}

#[test]
fn route_failures() {
    let (flow, _) = do_route(a_store_carrier());
    let (flow, _) = flow.step(Reply::Relations(Ok(vec![a_relation("/B/x", &[])])));
    let (_, cmd) = flow.step(Reply::RouteCarrier(Err(NatureError::SystemError("id".to_string()))));
    let (notes, _) = finished(cmd);
    assert!(matches!(&notes[..], [Effect::MoveStoreToErr(NatureError::SystemError(_), c)] if c.id == vec![70u8]));

    let (flow, _) = do_route(a_store_carrier());
    let (flow, _) = flow.step(Reply::Relations(Ok(vec![a_relation("/B/x", &[])])));
    let empty = RouteInfo { instance: an_instance(5, "/B/a"), maps: Vec::new() };
    let (flow, _) = flow.step(Reply::RouteCarrier(Ok(Carrier { id: vec![71], data: empty })));
    let (_, cmd) = flow.step(Reply::Done(Err(NatureError::DaoEnvironmentError("i".to_string()))));
    assert!(finished(cmd).0.is_empty());

    let (flow, _) = do_route(a_store_carrier());
    let (_, cmd) = flow.step(Reply::Relations(Err(NatureError::DaoEnvironmentError("r".to_string()))));
    assert!(finished(cmd).0.is_empty());
}

#[test]
fn submit_serial_hands_carrier_on() {
    let batch = SerialBatchInstance { context_for_finish: "f".to_string(), instances: Vec::new() };
    let (flow, cmd) = submit_serial(batch);
    assert!(matches!(awaited(cmd), Effect::CreateCarrier(ref b) if b.context_for_finish == "f"));
    let c = Carrier { id: vec![1], data: SerialBatchInstance { context_for_finish: "f".to_string(), instances: Vec::new() } };
    let (_, cmd) = flow.step(Reply::SerialCarrier(Ok(c)));
    let (notes, r) = finished(cmd);
    assert!(r.is_ok());
    assert!(matches!(&notes[..], [Effect::SendSerial(c)] if c.id == vec![1u8]));

    let batch = SerialBatchInstance { context_for_finish: "f".to_string(), instances: Vec::new() };
    let (flow, _) = submit_serial(batch);
    let (_, cmd) = flow.step(Reply::SerialCarrier(Err(NatureError::DaoEnvironmentError("c".to_string()))));
    let (notes, r) = finished(cmd);
    assert!(notes.is_empty());
    assert!(matches!(r, Err(NatureError::DaoEnvironmentError(_))));
}

fn a_serial_carrier(n: u128) -> Carrier<SerialBatchInstance> {
    let instances = (1..=n).map(|i| an_instance(i, "/B/item")).collect();
    Carrier { id: vec![90], data: SerialBatchInstance { context_for_finish: "serial.done".to_string(), instances } }
}

#[test]
fn do_serial_lists_every_item_once() {
    let (flow, cmd) = do_serial(a_serial_carrier(3));
    assert!(matches!(awaited(cmd), Effect::VerifyInstance(ref i) if i.id == 1));
    let bad = NatureError::VerifyError("no thing".to_string());
    let expected_text = format!("{:?}", bad);
    let (flow, cmd) = flow.step(Reply::Instance(Err(bad)));
    assert!(matches!(awaited(cmd), Effect::VerifyInstance(ref i) if i.id == 2));
    let (flow, cmd) = flow.step(Reply::Instance(Ok(an_instance(22, "/B/item"))));
    assert!(matches!(awaited(cmd), Effect::InsertInstance(ref i) if i.id == 22));
    let (flow, cmd) = flow.step(Reply::Done(Ok(())));
    assert!(matches!(awaited(cmd), Effect::VerifyInstance(ref i) if i.id == 3));
    let (flow, _) = flow.step(Reply::Instance(Ok(an_instance(33, "/B/item"))));
    let (flow, cmd) = flow.step(Reply::Done(Err(NatureError::DaoDuplicated)));
    let sf = match awaited(cmd) {
        Effect::SerializeFinished(sf) => sf,
        e => panic!("{:?}", e),
    };
    assert_eq!(sf.succeeded_id, vec![22, 33]);
    assert_eq!(sf.errors, vec![expected_text.clone()]);
    assert_eq!(expected_text, "VerifyError(\"no thing\")");

    let before = chrono::Local::now().timestamp();
    let (flow, cmd) = flow.step(Reply::Json(Ok("{\"ok\":1}".to_string())));
    let after = chrono::Local::now().timestamp();
    let (si, c) = match awaited(cmd) {
        Effect::CreateAndFinishCarrier(si, c) => (si, c),
        e => panic!("{:?}", e),
    };
    assert_eq!(c.id, vec![90u8]);
    assert!(si.converter.is_none());
    assert_eq!(si.instance.thing.key, "/sys/batch/serial");
    assert_eq!(si.instance.context.len(), 1);
    assert_eq!(si.instance.context[0].key, "serial.done");
    assert_eq!(si.instance.context[0].value, "{\"ok\":1}");
    assert!(before <= si.instance.create_time && si.instance.create_time <= after);
    let route = Carrier { id: vec![91], data: si };
    let (_, cmd) = flow.step(Reply::StoreCarrier(Ok(route)));
    let (notes, _) = finished(cmd);
    assert!(matches!(&notes[..], [Effect::SendRoute(c)] if c.id == vec![91u8]));
}

#[test]
fn do_serial_insert_errors_are_listed() {
    let (flow, _) = do_serial(a_serial_carrier(1));
    let (flow, _) = flow.step(Reply::Instance(Ok(an_instance(1, "/B/item"))));
    let (_, cmd) = flow.step(Reply::Done(Err(NatureError::DaoLogicalError("dup key".to_string()))));
    match awaited(cmd) {
        Effect::SerializeFinished(sf) => {
            assert!(sf.succeeded_id.is_empty());
            assert_eq!(sf.errors, vec!["DaoLogicalError(\"dup key\")".to_string()]);
        },
        e => panic!("{:?}", e),
    }
}

#[test]
fn do_serial_stops_on_environment_error() {
    let (flow, _) = do_serial(a_serial_carrier(2));
    let (flow, _) = flow.step(Reply::Instance(Ok(an_instance(1, "/B/item"))));
    let (_, cmd) = flow.step(Reply::Done(Err(NatureError::DaoEnvironmentError("db".to_string()))));
    let (notes, r) = finished(cmd);
    assert!(notes.is_empty() && r.is_ok());
}

#[test]
fn do_serial_empty_batch_and_failed_json() {
    let (flow, cmd) = do_serial(a_serial_carrier(0));
    assert!(matches!(awaited(cmd), Effect::SerializeFinished(ref sf) if sf.succeeded_id.is_empty() && sf.errors.is_empty()));
    let (_, cmd) = flow.step(Reply::Json(Err(NatureError::SystemError("serde".to_string()))));
    let (notes, _) = finished(cmd);
    assert!(matches!(&notes[..], [Effect::MoveSerialToErr(NatureError::SystemError(_), c)] if c.id == vec![90u8]));
}

#[test]
fn new_virtual_instance_reports_batch_now() {
    let before = chrono::Local::now().timestamp();
    let i = new_virtual_instance(&a_serial_carrier(0), "[1]".to_string());
    let after = chrono::Local::now().timestamp();
    assert_eq!(i.id, 0);
    assert_eq!(i.thing.version, 1);
    assert_eq!(i.event_time, i.create_time);
    assert_eq!(i.execute_time, i.create_time);
    assert!(before <= i.create_time && i.create_time <= after);
    assert!(i.status.is_empty() && i.content.is_empty() && i.from.is_none());
    assert_eq!(i.context[0].key, "serial.done");
}

#[test]
fn error_texts_match_debug_formatting() {
    let cases = vec![
        NatureError::SystemError("plain".to_string()),
        NatureError::VerifyError("quote \" back \\ tab \t cr \r nl \n nul \0 bell \x07 del \x7f it's".to_string()),
        NatureError::DaoLogicalError(String::new()),
        NatureError::ConverterLogicalError("x".to_string()),
        NatureError::ConverterEnvironmentError("e".to_string()),
        NatureError::ConverterProtocalError("p".to_string()),
        NatureError::DaoEnvironmentError("\x1f".to_string()),
        NatureError::VerifyError("\u{85}".to_string()),
        NatureError::SystemError("e\u{301} and \u{200b} and \u{e9}".to_string()),
        NatureError::DaoDuplicated,
    ];
    for e in cases {
        assert_eq!(debug_text(&e), format!("{:?}", e));
    }
    assert_eq!(debug_text(&NatureError::VerifyError("a\nb".to_string())), "VerifyError(\"a\\nb\")");
    assert_eq!(debug_text(&NatureError::VerifyError("\u{85}".to_string())), "VerifyError(\"\\u{85}\")");
}

#[test]
fn batch_stops_with_the_environment_error() {
    let (b, _) = store_batch_items(&a_serial_carrier(2));
    let (b, _) = b.step(Reply::Instance(Ok(an_instance(1, "/B/item"))));
    let (b, e) = b.step(Reply::Done(Err(NatureError::DaoEnvironmentError("db".to_string()))));
    assert!(e.is_none());
    assert!(matches!(b.stage, BatchStage::Stopped(NatureError::DaoEnvironmentError(ref s)) if s == "db"));
}

#[test]
fn batch_retry_reports_the_same_outcome() {
    let run = |inserts: Vec<Result<(), NatureError>>| {
        let (mut b, _) = store_batch_items(&a_serial_carrier(3));
        let mut inserts = inserts.into_iter();
        for k in 1..=3u128 {
            let (b2, _) = if k == 2 {
                b.step(Reply::Instance(Err(NatureError::VerifyError("v".to_string()))))
            } else {
                let (b1, _) = b.step(Reply::Instance(Ok(an_instance(k * 10, "/B/item"))));
                b1.step(Reply::Done(inserts.next().unwrap()))
            };
            b = b2;
        }
        assert!(matches!(b.stage, BatchStage::Finished));
        (b.succeeded, b.errors)
    };
    let first = run(vec![Ok(()), Err(NatureError::DaoLogicalError("l".to_string()))]);
    let again = run(vec![Err(NatureError::DaoDuplicated), Err(NatureError::DaoLogicalError("l".to_string()))]);
    assert_eq!(first, again);
    assert_eq!(first.0, vec![10]);
    assert_eq!(first.1.len(), 2);
}

#[test]
fn instance_well_formedness() {
    let mut i = an_instance(1, "/B/a");
    assert!(i.is_well_formed());
    i.context.push(ContextEntry { key: "k".to_string(), value: "other".to_string() });
    assert!(!i.is_well_formed());
    let mut j = an_instance(1, "/B/a");
    j.status = vec!["new".to_string(), "paid".to_string()];
    assert!(j.is_well_formed());
    j.status.push("new".to_string());
    assert!(!j.is_well_formed());
}

#[test]
fn flows_report_well_formedness() {
    let batch = TaskForParallel { instances: vec![an_instance(1, "/B/a")] };
    let (mut flow, _) = InnerController::channel_parallel((batch, a_raw(9)));
    assert!(flow.well_formed());
    flow.next = 5;
    assert!(!flow.well_formed());
    let (route, _) = do_route(a_store_carrier());
    assert!(route.well_formed());
}

#[test]
fn plan_hands_on_pairs_in_plan_order() {
    let (flow, _) = InnerController::received_instance(&a_convert_task(), &a_raw(5), Vec::new());
    let (flow, _) = flow.step(Reply::Converted(Ok(Converted { done_task: a_raw(6), converted: Vec::new() })));
    let plan = PlanInfo { to: a_meta("/B/down"), plan: vec![an_instance(3, "/B/down"), an_instance(4, "/B/down")] };
    let (flow, cmd) = flow.step(Reply::Plan(Ok(plan)));
    assert!(matches!(awaited(cmd), Effect::GenStoreTask(ref i) if i.id == 3));
    let (flow, _) = flow.step(Reply::StoreTask(Ok(a_store_task(an_instance(3, "/B/down")))));
    let (flow, cmd) = flow.step(Reply::Raw(Ok(a_raw(31))));
    assert!(matches!(awaited(cmd), Effect::GenStoreTask(ref i) if i.id == 4));
    let (flow, _) = flow.step(Reply::StoreTask(Ok(a_store_task(an_instance(4, "/B/down")))));
    let (flow, cmd) = flow.step(Reply::Raw(Ok(a_raw(41))));
    match awaited(cmd) {
        Effect::SaveBatch(raws, id) => {
            assert_eq!(raws.iter().map(|r| r.task_id[0]).collect::<Vec<_>>(), vec![31, 41]);
            assert_eq!(id, vec![6u8]);
        },
        e => panic!("{:?}", e),
    }
    let (_, cmd) = flow.step(Reply::Done(Ok(())));
    let (notes, _) = finished(cmd);
    let sent: Vec<(u128, u8)> = notes
        .iter()
        .map(|n| match n {
            Effect::SendStore(t, r) => (t.instance.id, r.task_id[0]),
            e => panic!("{:?}", e),
        })
        .collect();
    assert_eq!(sent, vec![(3, 31), (4, 41)]);
}
