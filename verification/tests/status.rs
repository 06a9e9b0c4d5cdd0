use lopxy::status::{LopxyProxyRequestStatus, RequestStatusLog};

fn record(n: i64) -> LopxyProxyRequestStatus {
    LopxyProxyRequestStatus {
        timestamp: n,
        pid: n as u32,
        bin_name: format!("bin{}", n),
        path: format!("http://a.com/{}", n),
        status: "404 Not Found".to_string(),
    }
}

#[test]
fn quota_is_five_hundred() {
    assert_eq!(LopxyProxyRequestStatus::quota(), 500);
}

#[test]
fn report_copies_the_record() {
    let copy = record(3).report();
    assert_eq!(copy.timestamp, 3);
    assert_eq!(copy.pid, 3);
    assert_eq!(copy.bin_name, "bin3");
    assert_eq!(copy.path, "http://a.com/3");
    assert_eq!(copy.status, "404 Not Found");
}

#[test]
fn log_keeps_the_order() {
    let mut log = RequestStatusLog::new();
    assert_eq!(log.len(), 0);
    log.push(record(1));
    log.push(record(2));
    log.push(record(3));
    assert_eq!(log.len(), 3);
    assert_eq!(log.get(0).timestamp, 1);
    assert_eq!(log.get(2).timestamp, 3);
    let all = log.records();
    assert_eq!(all.iter().map(|r| r.timestamp).collect::<Vec<i64>>(), vec![1, 2, 3]);
}

#[test]
fn five_hundred_and_one_insertions_drop_the_oldest() {
    let mut log = RequestStatusLog::new();
    for n in 0..500 {
        log.push(record(n));
    }
    assert_eq!(log.len(), 500);
    assert_eq!(log.get(0).timestamp, 0);
    log.push(record(500));
    assert_eq!(log.len(), 500);
    assert_eq!(log.get(0).timestamp, 1);
    assert_eq!(log.get(499).timestamp, 500);
    let all = log.records();
    assert_eq!(all.len(), 500);
    assert!(all.iter().all(|r| r.timestamp != 0));
    assert!(all.iter().all(|r| r.path != "http://a.com/0"));
    for (i, r) in all.iter().enumerate() {
        assert_eq!(r.timestamp, i as i64 + 1);
    }
}

#[test]
fn many_insertions_keep_the_latest_five_hundred() {
    let mut log = RequestStatusLog::new();
    for n in 0..1234 {
        log.push(record(n));
        assert!(log.len() <= 500);
    }
    assert_eq!(log.len(), 500);
    assert_eq!(log.get(0).timestamp, 734);
    assert_eq!(log.get(499).timestamp, 1233);
}

#[test]
fn newer_than_filters_by_time() {
    let mut log = RequestStatusLog::new();
    for n in [5, 1, 9, 5, 7] {
        log.push(record(n));
    }
    let newer = log.newer_than(5);
    assert_eq!(newer.iter().map(|r| r.timestamp).collect::<Vec<i64>>(), vec![9, 7]);
    assert_eq!(log.newer_than(9).len(), 0);
    assert_eq!(log.newer_than(0).len(), 5);
    assert_eq!(log.newer_than(i64::MIN).len(), 5);
}
