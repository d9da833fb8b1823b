use cloud_util::identity::{extract_identity, CallIdentity};
use cloud_util::middleware::{plan_call, records_observation, settle_registration, CallOutcome, CallPlan};
use cloud_util::registry::{Registry, Step};
use prometheus::{Encoder, Histogram, HistogramOpts, TextEncoder};

const PATH: &str = "/network.NetworkService/RegisterNetworkMsgHandler";

fn histogram(name: &str, buckets: Vec<f64>) -> Histogram {
    Histogram::with_opts(HistogramOpts::new(name, "request latencies in milliseconds(ms)").buckets(buckets))
        .unwrap()
}

#[test]
fn extracts_caller_and_method() {
    let id = extract_identity(PATH, Some("controller")).unwrap();
    assert_eq!(id.caller, "controller");
    assert_eq!(id.method, "RegisterNetworkMsgHandler");
    assert_eq!(id.metric_name(), "controller_to_RegisterNetworkMsgHandler");
}

#[test]
fn extraction_needs_both_fields() {
    assert!(extract_identity(PATH, None).is_none());
    assert!(extract_identity(PATH, Some("")).is_none());
    assert!(extract_identity("/RegisterNetworkMsgHandler", Some("controller")).is_none());
    assert!(extract_identity("/network.NetworkService/", Some("controller")).is_none());
    assert!(extract_identity("network.NetworkService/Register", Some("controller")).is_none());
    assert!(extract_identity("", Some("controller")).is_none());
    assert!(extract_identity("//Method", Some("controller")).is_none());
}

#[test]
fn extraction_takes_last_segment_and_keeps_unicode() {
    let id = extract_identity("/a.Svc/Héllo", Some("çaller")).unwrap();
    assert_eq!(id.method, "Héllo");
    assert_eq!(id.caller, "çaller");
    let id = extract_identity("/pkg/Svc/Method", Some("c")).unwrap();
    assert_eq!(id.method, "Method");
}

#[test]
fn single_creation_for_many_first_calls() {
    let mut reg: Registry<u32> = Registry::new(false);
    let id = CallIdentity::new("a", "m1");
    let mut created = 0;
    for n in 0..8u32 {
        match reg.next_step(&id) {
            Step::Create => {
                created += 1;
                assert!(reg.add(id.duplicate(), n));
            }
            Step::Ready => {}
            Step::Skip => panic!("no failure happened"),
        }
        assert_eq!(reg.get(&id), Some(&0));
    }
    assert_eq!(created, 1);
    assert!(!reg.add(id.duplicate(), 99));
    assert_eq!(reg.get(&id), Some(&0));
    assert_eq!(reg.len(), 1);
}

#[test]
fn key_isolation() {
    let mut reg: Registry<u32> = Registry::new(false);
    assert!(reg.add(CallIdentity::new("a", "m1"), 1));
    assert!(reg.add(CallIdentity::new("a", "m2"), 2));
    assert!(reg.add(CallIdentity::new("b", "m1"), 3));
    assert_eq!(reg.get(&CallIdentity::new("a", "m1")), Some(&1));
    assert_eq!(reg.get(&CallIdentity::new("a", "m2")), Some(&2));
    assert_eq!(reg.get(&CallIdentity::new("b", "m1")), Some(&3));
    assert_eq!(reg.get(&CallIdentity::new("b", "m2")), None);
    assert_eq!(reg.len(), 3);
}

#[test]
fn key_isolation_of_observations() {
    let mut reg: Registry<Histogram> = Registry::new(false);
    let ids = [CallIdentity::new("a", "m1"), CallIdentity::new("a", "m2"), CallIdentity::new("b", "m1")];
    for id in ids.iter() {
        assert!(reg.add(id.duplicate(), histogram(&id.metric_name(), vec![1.0, 10.0])));
    }
    reg.get(&ids[0]).unwrap().observe(3.0);
    reg.get(&ids[0]).unwrap().observe(4.0);
    assert_eq!(reg.get(&ids[0]).unwrap().get_sample_count(), 2);
    assert_eq!(reg.get(&ids[1]).unwrap().get_sample_count(), 0);
    assert_eq!(reg.get(&ids[2]).unwrap().get_sample_count(), 0);
}

#[test]
fn unmeasured_passthrough() {
    let reg: Registry<u32> = Registry::new(false);
    assert!(matches!(plan_call(&reg, PATH, None), CallPlan::Unmeasured));
    assert!(matches!(plan_call(&reg, "/nothing", Some("controller")), CallPlan::Unmeasured));
    assert_eq!(reg.len(), 0);
}

#[test]
fn plan_registers_then_measures() {
    let mut reg: Registry<u32> = Registry::new(false);
    let id = match plan_call(&reg, PATH, Some("controller")) {
        CallPlan::Register(id) => id,
        _ => panic!("a new identity is registered"),
    };
    assert!(settle_registration::<u32, ()>(&mut reg, id, Ok(7)));
    match plan_call(&reg, PATH, Some("controller")) {
        CallPlan::Measure(id) => assert_eq!(reg.get(&id), Some(&7)),
        _ => panic!("a known identity is measured"),
    }
}

#[test]
fn count_conservation() {
    let mut reg: Registry<Histogram> = Registry::new(false);
    let id = CallIdentity::new("controller", "Store");
    let buckets = vec![1.0, 5.0, 10.0, 25.0, 50.0, 100.0, 250.0, 500.0, 1000.0];
    assert!(reg.add(id.duplicate(), histogram(&id.metric_name(), buckets)));
    for d in [5.0, 10.0, 20.0, 50.0, 100.0] {
        reg.get(&id).unwrap().observe(d);
    }
    let exported = prometheus::Registry::new();
    exported.register(Box::new(reg.get(&id).unwrap().clone())).unwrap();
    let mut buffer = vec![];
    TextEncoder::new().encode(&exported.gather(), &mut buffer).unwrap();
    let text = String::from_utf8(buffer).unwrap();
    let count_at = |le: &str| -> u64 {
        let prefix = format!("controller_to_Store_bucket{{le=\"{}\"}} ", le);
        let line = text.lines().find(|l| l.starts_with(&prefix)).unwrap();
        line[prefix.len()..].parse().unwrap()
    };
    assert_eq!(count_at("1"), 0);
    assert_eq!(count_at("5"), 1);
    assert_eq!(count_at("10"), 2);
    assert_eq!(count_at("25"), 3);
    assert_eq!(count_at("50"), 4);
    assert_eq!(count_at("100"), 5);
    assert_eq!(count_at("1000"), 5);
    assert_eq!(count_at("+Inf"), 5);
    let total = text.lines().find(|l| l.starts_with("controller_to_Store_count ")).unwrap();
    assert_eq!(total, "controller_to_Store_count 5");
}

#[test]
fn cancellation_exclusion() {
    assert!(!records_observation(CallOutcome::Cancelled));
    assert!(records_observation(CallOutcome::Succeeded));
    assert!(records_observation(CallOutcome::Failed));
}

#[test]
fn registration_failure_is_not_fatal() {
    let registry = prometheus::Registry::new();
    let name = "controller_to_RegisterNetworkMsgHandler";
    registry.register(Box::new(histogram(name, vec![1.0]))).unwrap();
    let mut reg: Registry<Histogram> = Registry::new(false);
    for _ in 0..5 {
        let id = match plan_call(&reg, PATH, Some("controller")) {
            CallPlan::Register(id) => id,
            _ => panic!("a failed identity is tried again"),
        };
        let h = histogram(&id.metric_name(), vec![1.0]);
        let created = registry.register(Box::new(h.clone())).map(|_| h);
        assert!(created.is_err());
        assert!(!settle_registration(&mut reg, id, created));
        assert_eq!(reg.len(), 0);
    }
}

#[test]
fn remembered_failure_is_skipped() {
    let mut reg: Registry<u32> = Registry::new(true);
    let id = CallIdentity::new("controller", "RegisterNetworkMsgHandler");
    assert!(!settle_registration::<u32, ()>(&mut reg, id.duplicate(), Err(())));
    assert!(matches!(reg.next_step(&id), Step::Skip));
    assert!(matches!(plan_call(&reg, PATH, Some("controller")), CallPlan::Unmeasured));
    assert!(matches!(plan_call(&reg, PATH, Some("other")), CallPlan::Register(_)));
    assert_eq!(reg.len(), 0);
}
