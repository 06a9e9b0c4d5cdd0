//! The log of abnormal outcomes: a queue of fixed capacity that forgets its
//! oldest record when a new one arrives at a full queue.

use std::collections::VecDeque;
use vstd::prelude::*;
use vstd::string::*;

verus! {

/// The most records that the log holds.
pub const STATUS_LOG_CAPACITY: usize = 500;

/// One abnormal outcome: when it happened, the process behind the client and
/// its name as far as they are known, the URL or host, and what went wrong.
pub struct LopxyProxyRequestStatus {
    pub timestamp: i64,
    pub pid: u32,
    pub bin_name: String,
    pub path: String,
    pub status: String,
}

/// The mathematical value of a [`LopxyProxyRequestStatus`].
pub ghost struct RequestStatusView {
    pub timestamp: i64,
    pub pid: u32,
    pub bin_name: Seq<char>,
    pub path: Seq<char>,
    pub status: Seq<char>,
}

impl View for LopxyProxyRequestStatus {
    type V = RequestStatusView;

    open spec fn view(&self) -> RequestStatusView {
        RequestStatusView {
            timestamp: self.timestamp,
            pid: self.pid,
            bin_name: self.bin_name@,
            path: self.path@,
            status: self.status@,
        }
    }
}

impl LopxyProxyRequestStatus {
    /// The capacity of the log.
    pub fn quota() -> (res: usize)
        ensures
            res == STATUS_LOG_CAPACITY,
    {
        STATUS_LOG_CAPACITY
    }

    /// A copy of the record for a report.
    pub fn report(&self) -> (res: LopxyProxyRequestStatus)
        ensures
            res@ == self@,
    {
        LopxyProxyRequestStatus {
            timestamp: self.timestamp,
            pid: self.pid,
            bin_name: self.bin_name.clone(),
            path: self.path.clone(),
            status: self.status.clone(),
        }
    }
}

/// The values of a sequence of records.
pub open spec fn records_view(records: Seq<LopxyProxyRequestStatus>) -> Seq<RequestStatusView> {
    records.map_values(|record: LopxyProxyRequestStatus| record@)
}

/// The log after one more record: a full log loses its oldest record first.
pub open spec fn spec_log_push(log: Seq<RequestStatusView>, record: RequestStatusView) -> Seq<RequestStatusView> {
    if log.len() >= STATUS_LOG_CAPACITY {
        log.skip(1).push(record)
    } else {
        log.push(record)
    }
}

/// Whether `after` is `before` with exactly one more record of the given
/// process, path and outcome, whatever the time was and whatever name the
/// process was found to have.
pub open spec fn spec_reported(
    before: Seq<RequestStatusView>,
    after: Seq<RequestStatusView>,
    pid: u32,
    path: Seq<char>,
    status: Seq<char>,
) -> bool {
    exists|timestamp: i64, bin_name: Seq<char>|
        after == spec_log_push(before, #[trigger] spec_status_record(timestamp, pid, bin_name, path, status))
}

/// A record from its parts.
pub open spec fn spec_status_record(
    timestamp: i64,
    pid: u32,
    bin_name: Seq<char>,
    path: Seq<char>,
    status: Seq<char>,
) -> RequestStatusView {
    RequestStatusView { timestamp, pid, bin_name, path, status }
}

/// The log after a run of records, oldest first.
pub open spec fn spec_log_push_all(log: Seq<RequestStatusView>, records: Seq<RequestStatusView>) -> Seq<
    RequestStatusView,
>
    decreases records.len(),
{
    if records.len() == 0 {
        log
    } else {
        spec_log_push(spec_log_push_all(log, records.drop_last()), records.last())
    }
}

/// The last records of a sequence, at most as many as the log holds.
pub open spec fn spec_latest(all: Seq<RequestStatusView>) -> Seq<RequestStatusView> {
    if all.len() > STATUS_LOG_CAPACITY {
        all.skip(all.len() - STATUS_LOG_CAPACITY)
    } else {
        all
    }
}

/// The records newer than `since`, oldest first.
pub open spec fn spec_newer_than(log: Seq<RequestStatusView>, since: i64) -> Seq<RequestStatusView> {
    log.filter(|record: RequestStatusView| record.timestamp > since)
}

/// The log of abnormal outcomes.
pub struct RequestStatusLog {
    records: VecDeque<LopxyProxyRequestStatus>,
}

impl View for RequestStatusLog {
    type V = Seq<RequestStatusView>;

    closed spec fn view(&self) -> Seq<RequestStatusView> {
        records_view(self.records@)
    }
}

impl RequestStatusLog {
    /// The empty log.
    pub fn new() -> (res: RequestStatusLog)
        ensures
            res@ == Seq::<RequestStatusView>::empty(),
    {
        let res = RequestStatusLog { records: VecDeque::new() };
        assert(records_view(res.records@) =~= Seq::<RequestStatusView>::empty());
        res
    }

    /// The number of records.
    pub fn len(&self) -> (res: usize)
        ensures
            res == self@.len(),
    {
        self.records.len()
    }

    /// Adds a record; a full log drops its oldest record to make room, so
    /// that a log within its capacity stays within it.
    pub fn push(&mut self, record: LopxyProxyRequestStatus)
        ensures
            final(self)@ == spec_log_push(old(self)@, record@),
            old(self)@.len() <= STATUS_LOG_CAPACITY ==> final(self)@.len() <= STATUS_LOG_CAPACITY,
    {
        let ghost before = self.records@;
        if self.records.len() >= LopxyProxyRequestStatus::quota() {
            let _ = self.records.pop_front();
            assert(records_view(self.records@) =~= records_view(before).skip(1));
        }
        let ghost kept = self.records@;
        self.records.push_back(record);
        assert(records_view(self.records@) =~= records_view(kept).push(record@));
    }

    /// The record at a position, counted from the oldest.
    pub fn get(&self, index: usize) -> (res: &LopxyProxyRequestStatus)
        requires
            index < self@.len(),
        ensures
            res@ == self@[index as int],
    {
        &self.records[index]
    }

    /// Copies of all records, oldest first.
    pub fn records(&self) -> (res: Vec<LopxyProxyRequestStatus>)
        ensures
            records_view(res@) == self@,
    {
        let mut out: Vec<LopxyProxyRequestStatus> = Vec::new();
        let mut i: usize = 0;
        while i < self.records.len()
            invariant
                i <= self.records@.len(),
                records_view(out@) == records_view(self.records@).subrange(0, i as int),
            decreases self.records@.len() - i,
        {
            let ghost before = records_view(out@);
            let record = self.records[i].report();
            out.push(record);
            assert(records_view(out@) =~= before.push(record@));
            i += 1;
            assert(records_view(out@) =~= records_view(self.records@).subrange(0, i as int));
        }
        assert(records_view(out@) =~= records_view(self.records@));
        out
    }

    /// Copies of the records newer than `since`, oldest first.
    pub fn newer_than(&self, since: i64) -> (res: Vec<LopxyProxyRequestStatus>)
        ensures
            records_view(res@) == spec_newer_than(self@, since),
    {
        let ghost log = records_view(self.records@);
        let mut out: Vec<LopxyProxyRequestStatus> = Vec::new();
        assert(log.subrange(0, 0) =~= Seq::<RequestStatusView>::empty());
        assert(records_view(out@) =~= spec_newer_than(log.subrange(0, 0), since)) by {
            reveal(Seq::filter);
        }
        let mut i: usize = 0;
        while i < self.records.len()
            invariant
                i <= self.records@.len(),
                log == records_view(self.records@),
                records_view(out@) == spec_newer_than(log.subrange(0, i as int), since),
            decreases self.records@.len() - i,
        {
            let ghost before = records_view(out@);
            proof {
                let shorter = log.subrange(0, i as int);
                let longer = log.subrange(0, i + 1);
                assert(longer.drop_last() =~= shorter);
                assert(longer.last() == log[i as int]);
                reveal(Seq::filter);
            }
            if self.records[i].timestamp > since {
                let record = self.records[i].report();
                out.push(record);
                assert(records_view(out@) =~= before.push(record@));
            }
            i += 1;
        }
        assert(log.subrange(0, i as int) =~= log);
        out
    }
}

/// Whatever the log held, after a run of records it holds the latest of all
/// records, at most as many as its capacity: once the capacity is reached the
/// size stays at it, and the oldest records are the ones that are gone.
pub proof fn lemma_log_keeps_latest(log: Seq<RequestStatusView>, records: Seq<RequestStatusView>)
    requires
        log.len() <= STATUS_LOG_CAPACITY,
    ensures
        spec_log_push_all(log, records) == spec_latest(log + records),
        spec_log_push_all(log, records).len() <= STATUS_LOG_CAPACITY,
        log.len() + records.len() >= STATUS_LOG_CAPACITY ==> spec_log_push_all(log, records).len()
            == STATUS_LOG_CAPACITY,
    decreases records.len(),
{
    if records.len() == 0 {
        assert(log + records =~= log);
    } else {
        let front = records.drop_last();
        lemma_log_keeps_latest(log, front);
        assert((log + front).push(records.last()) =~= log + records);
        assert(spec_log_push(spec_latest(log + front), records.last()) =~= spec_latest(log + records));
    }
}

} // verus!
