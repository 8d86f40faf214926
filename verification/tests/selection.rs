use nature::error::NatureError;
use nature::model::{ContextEntry, Instance, Meta, Mission, OneStepFlow};
use nature::route::{context_check, filter_relations, status_check, Demand, Mapping};
use nature::task_store::TaskForStore;

fn meta(key: &str) -> Meta {
    Meta { key: key.to_string(), version: 1 }
}

fn inst(ctx: &[(&str, &str)], status: &[&str]) -> Instance {
    Instance {
        id: 7,
        thing: meta("/B/sale/order"),
        event_time: 0,
        execute_time: 0,
        create_time: 0,
        content: String::new(),
        context: ctx.iter().map(|(k, v)| ContextEntry { key: k.to_string(), value: v.to_string() }).collect(),
        status: status.iter().map(|s| s.to_string()).collect(),
        status_version: 0,
        from: None,
    }
}

fn names(v: &[&str]) -> Vec<String> {
    v.iter().map(|s| s.to_string()).collect()
}

fn mapping(to: &str, ci: &[&str], ce: &[&str], si: &[&str], se: &[&str]) -> Mapping {
    Mapping {
        to: meta(to),
        demand: Demand {
            context_include: names(ci),
            context_exclude: names(ce),
            status_include: names(si),
            status_exclude: names(se),
        },
    }
}

#[test]
fn context_check_needs_all_included_keys() {
    let m = mapping("/B/x", &["a", "b"], &[], &[], &[]);
    assert!(context_check(&inst(&[("a", ""), ("b", "")], &[]).context, &m));
    assert!(!context_check(&inst(&[("a", "")], &[]).context, &m));
}

#[test]
fn context_check_rejects_any_excluded_key() {
    let m = mapping("/B/x", &[], &["gender.isBoy"], &[], &[]);
    assert!(!context_check(&inst(&[("gender.isBoy", "")], &[]).context, &m));
    assert!(context_check(&inst(&[("other", "")], &[]).context, &m));
}

#[test]
fn context_check_reads_keys_not_values() {
    let m = mapping("/B/x", &["gender.boy"], &[], &[], &[]);
    assert!(context_check(&inst(&[("gender.boy", "")], &[]).context, &m));
    assert!(context_check(&inst(&[("gender.boy", "whatever")], &[]).context, &m));
    // a value equal to the demanded key does not count
    assert!(!context_check(&inst(&[("gender", "gender.boy")], &[]).context, &m));
}

#[test]
fn status_check_all_and_none() {
    let m = mapping("/B/x", &[], &[], &["new", "paid"], &["cancelled"]);
    assert!(status_check(&inst(&[], &["new", "paid"]).status, &m));
    assert!(!status_check(&inst(&[], &["new"]).status, &m));
    assert!(!status_check(&inst(&[], &["new", "paid", "cancelled"]).status, &m));
}

#[test]
fn empty_demand_selects_everything() {
    let m = mapping("/B/x", &[], &[], &[], &[]);
    let i = inst(&[], &[]);
    assert!(context_check(&i.context, &m));
    assert!(status_check(&i.status, &m));
}

#[test]
fn filter_relations_keeps_selecting_in_order() {
    let i = inst(&[("a", "1")], &["new"]);
    let maps = vec![
        mapping("/B/one", &["a"], &[], &[], &[]),
        mapping("/B/two", &["b"], &[], &[], &[]),
        mapping("/B/three", &[], &[], &["new"], &[]),
        mapping("/B/four", &[], &["a"], &[], &[]),
        mapping("/B/five", &[], &[], &[], &[]),
    ];
    let kept = filter_relations(&i, maps);
    let tos: Vec<&str> = kept.iter().map(|m| m.to.key.as_str()).collect();
    assert_eq!(tos, vec!["/B/one", "/B/three", "/B/five"]);
}

#[test]
fn filter_relations_is_idempotent() {
    let i = inst(&[("a", "1")], &[]);
    let maps = vec![mapping("/B/one", &["a"], &[], &[], &[]), mapping("/B/two", &["b"], &[], &[], &[])];
    let once = filter_relations(&i, maps);
    let once_keys: Vec<String> = once.iter().map(|m| m.to.key.clone()).collect();
    let twice = filter_relations(&i, once);
    let twice_keys: Vec<String> = twice.iter().map(|m| m.to.key.clone()).collect();
    assert_eq!(once_keys, twice_keys);
    assert_eq!(twice_keys, vec!["/B/one".to_string()]);
}

#[test]
fn filter_relations_of_nothing_is_nothing() {
    let i = inst(&[], &[]);
    assert!(filter_relations(&i, Vec::new()).is_empty());
}

#[test]
fn gen_task_without_steps_has_no_mission() {
    let i = inst(&[("a", "1")], &[]);
    let res = TaskForStore::gen_task(&i, |_m: &Meta| Ok(None), |_p: (&Instance, Vec<OneStepFlow>)| Some(Vec::new()));
    let task = res.unwrap();
    assert!(task.mission.is_none());
    assert!(task.upstream.is_none());
    assert_eq!(task.instance.context[0].key, "a");
}

#[test]
fn gen_task_filters_steps_into_missions() {
    let i = inst(&[], &[]);
    let res = TaskForStore::gen_task(
        &i,
        |m: &Meta| Ok(Some(vec![OneStepFlow { from: m.clone(), to: meta("/B/next") }])),
        |p: (&Instance, Vec<OneStepFlow>)| {
            Some(p.1.into_iter().map(|s| Mission { to: s.to, executor: "http://conv".to_string() }).collect())
        },
    );
    let missions = res.unwrap().mission.unwrap();
    assert_eq!(missions.len(), 1);
    assert_eq!(missions[0].to.key, "/B/next");
}

#[test]
fn gen_task_passes_on_a_failed_read() {
    let i = inst(&[], &[]);
    let res = TaskForStore::gen_task(
        &i,
        |_m: &Meta| Err(NatureError::DaoEnvironmentError("down".to_string())),
        |_p: (&Instance, Vec<OneStepFlow>)| None,
    );
    assert!(matches!(res, Err(NatureError::DaoEnvironmentError(ref s)) if s == "down"));
}

#[test]
fn for_dynamic_keeps_missions_or_error() {
    let i = inst(&[], &[]);
    let ok = TaskForStore::for_dynamic(&i, Ok(vec![Mission { to: meta("/D/x"), executor: "local".to_string() }]));
    let t = ok.unwrap();
    assert_eq!(t.mission.unwrap()[0].to.key, "/D/x");
    assert!(t.upstream.is_none());
    let err = TaskForStore::for_dynamic(&i, Err(NatureError::VerifyError("bad".to_string())));
    assert!(matches!(err, Err(NatureError::VerifyError(_))));
}
