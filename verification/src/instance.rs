//! The instance file: the process id of the running lopxy and the ports of
//! its web manager and its proxy, one per line.

use vstd::prelude::*;
use vstd::string::*;
use vstd::utf8::*;

use crate::text::{
    append_bytes,
    ascii_text,
    decimal_bytes,
    lemma_decimal_is_ascii,
    lemma_decimal_round_trip,
    lemma_parse_decimal_of_decimal,
    parse_decimal,
    spec_decimal,
    spec_is_digit,
    spec_parse_decimal,
};

verus! {

/// A running lopxy, as its instance file describes it.
pub struct LopxyInstance {
    pid: u32,
    web_manager_port: u32,
    proxy_port: u32,
}

/// The mathematical value of a [`LopxyInstance`].
pub ghost struct LopxyInstanceView {
    pub pid: u32,
    pub web_manager_port: u32,
    pub proxy_port: u32,
}

impl View for LopxyInstance {
    type V = LopxyInstanceView;

    closed spec fn view(&self) -> LopxyInstanceView {
        LopxyInstanceView { pid: self.pid, web_manager_port: self.web_manager_port, proxy_port: self.proxy_port }
    }
}

/// Whether a line break, carriage return and line feed, starts at `at`.
pub open spec fn spec_line_break_at(s: Seq<u8>, at: int) -> bool {
    0 <= at && at + 1 < s.len() && s[at] == 13 && s[at + 1] == 10
}

/// The position of the first line break at or after `from`, or the length
/// where there is none.
pub open spec fn spec_line_end(s: Seq<u8>, from: int) -> int
    decreases s.len() - from,
{
    if from < 0 || from >= s.len() {
        s.len() as int
    } else if spec_line_break_at(s, from) {
        from
    } else {
        spec_line_end(s, from + 1)
    }
}

/// A number of the instance file: decimal, within 32 bits.
pub open spec fn spec_field(s: Seq<u8>, from: int, to: int) -> Option<u32> {
    match spec_parse_decimal(s.subrange(from, to), u32::MAX as nat) {
        Some(n) => Some(n as u32),
        None => None,
    }
}

/// What an instance file says: its first three lines as numbers. `None`
/// where it has fewer than three lines or one of them is no number.
pub open spec fn spec_parse_instance(content: Seq<u8>) -> Option<LopxyInstanceView> {
    let first_end = spec_line_end(content, 0);
    let second_end = spec_line_end(content, first_end + 2);
    let third_end = spec_line_end(content, second_end + 2);
    if first_end >= content.len() || second_end >= content.len() {
        None
    } else {
        match (
            spec_field(content, 0, first_end),
            spec_field(content, first_end + 2, second_end),
            spec_field(content, second_end + 2, third_end),
        ) {
            (Some(pid), Some(web_manager_port), Some(proxy_port)) => Some(
                LopxyInstanceView { pid, web_manager_port, proxy_port },
            ),
            _ => None,
        }
    }
}

/// The instance that is taken to run: the one that the file describes, if
/// its process is among the running ones.
pub open spec fn spec_instance(content: Option<Seq<u8>>, running: Seq<u32>) -> Option<LopxyInstanceView> {
    match content {
        None => None,
        Some(content) => match spec_parse_instance(content) {
            None => None,
            Some(instance) => if running.contains(instance.pid) {
                Some(instance)
            } else {
                None
            },
        },
    }
}

/// The content of the instance file.
pub open spec fn spec_record(pid: u32, web_manager_port: u32, proxy_port: u32) -> Seq<u8> {
    spec_decimal(pid as nat) + seq![13u8, 10u8] + spec_decimal(web_manager_port as nat) + seq![13u8, 10u8]
        + spec_decimal(proxy_port as nat)
}

fn line_end(s: &[u8], from: usize) -> (res: usize)
    requires
        from <= s@.len(),
    ensures
        res == spec_line_end(s@, from as int),
        from <= res <= s@.len(),
        res < s@.len() ==> spec_line_break_at(s@, res as int),
{
    let mut i: usize = from;
    while i < s.len()
        invariant
            from <= i <= s@.len(),
            spec_line_end(s@, i as int) == spec_line_end(s@, from as int),
        decreases s@.len() - i,
    {
        if s[i] == 13 && i + 1 < s.len() && s[i + 1] == 10 {
            return i;
        }
        i += 1;
    }
    i
}

fn field(s: &[u8], from: usize, to: usize) -> (res: Option<u32>)
    requires
        from <= to <= s@.len(),
    ensures
        res == spec_field(s@, from as int, to as int),
{
    match parse_decimal(vstd::slice::slice_subrange(s, from, to), 0xffff_ffff) {
        Some(n) => Some(n as u32),
        None => None,
    }
}

fn contains_pid(running: &[u32], pid: u32) -> (res: bool)
    ensures
        res == running@.contains(pid),
{
    let mut i: usize = 0;
    while i < running.len()
        invariant
            i <= running@.len(),
            forall|k: int| 0 <= k < i ==> running@[k] != pid,
        decreases running@.len() - i,
    {
        if running[i] == pid {
            return true;
        }
        i += 1;
    }
    false
}

impl LopxyInstance {
    /// Reads what an instance file says.
    pub fn parse(content: &str) -> (res: Option<LopxyInstance>)
        ensures
            match res {
                Some(instance) => spec_parse_instance(content.spec_bytes()) == Some(instance@),
                None => spec_parse_instance(content.spec_bytes()) is None,
            },
    {
        let bytes = content.as_bytes();
        let first_end: usize = line_end(bytes, 0);
        if first_end >= bytes.len() {
            return None;
        }
        let second_end: usize = line_end(bytes, first_end + 2);
        if second_end >= bytes.len() {
            return None;
        }
        let third_end: usize = line_end(bytes, second_end + 2);
        let pid: u32 = match field(bytes, 0, first_end) {
            Some(pid) => pid,
            None => {
                return None;
            },
        };
        let web_manager_port: u32 = match field(bytes, first_end + 2, second_end) {
            Some(port) => port,
            None => {
                return None;
            },
        };
        let proxy_port: u32 = match field(bytes, second_end + 2, third_end) {
            Some(port) => port,
            None => {
                return None;
            },
        };
        Some(LopxyInstance { pid, web_manager_port, proxy_port })
    }

    /// The running instance. `content` is what the instance file holds,
    /// `None` where there is no such file; `running` lists the ids of the
    /// processes that are alive.
    pub fn instance(content: Option<&str>, running: &[u32]) -> (res: Option<LopxyInstance>)
        ensures
            match res {
                Some(instance) => spec_instance(
                    match content {
                        Some(content) => Some(content.spec_bytes()),
                        None => None,
                    },
                    running@,
                ) == Some(instance@),
                None => spec_instance(
                    match content {
                        Some(content) => Some(content.spec_bytes()),
                        None => None,
                    },
                    running@,
                ) is None,
            },
    {
        let content: &str = match content {
            Some(content) => content,
            None => {
                return None;
            },
        };
        match LopxyInstance::parse(content) {
            Some(instance) => {
                if contains_pid(running, instance.pid) {
                    Some(instance)
                } else {
                    None
                }
            },
            None => None,
        }
    }

    /// The content of the instance file for the process `pid`.
    pub fn record(pid: u32, web_manager_port: u32, proxy_port: u32) -> (res: String)
        ensures
            res@ == decode_utf8(spec_record(pid, web_manager_port, proxy_port)),
            encode_utf8(res@) == spec_record(pid, web_manager_port, proxy_port),
    {
        let line_break: [u8; 2] = [13, 10];
        assert(line_break@ =~= seq![13u8, 10u8]);
        let mut out: Vec<u8> = decimal_bytes(pid as u64);
        append_bytes(&mut out, line_break.as_slice());
        append_bytes(&mut out, decimal_bytes(web_manager_port as u64).as_slice());
        append_bytes(&mut out, line_break.as_slice());
        append_bytes(&mut out, decimal_bytes(proxy_port as u64).as_slice());
        proof {
            lemma_decimal_is_ascii(pid as nat);
            lemma_decimal_is_ascii(web_manager_port as nat);
            lemma_decimal_is_ascii(proxy_port as nat);
        }
        ascii_text(out.as_slice())
    }

    pub fn pid(&self) -> (res: u32)
        ensures
            res == self@.pid,
    {
        self.pid
    }

    pub fn web_manager_port(&self) -> (res: u32)
        ensures
            res == self@.web_manager_port,
    {
        self.web_manager_port
    }

    pub fn proxy_port(&self) -> (res: u32)
        ensures
            res == self@.proxy_port,
    {
        self.proxy_port
    }

    /// The address of the web manager on this machine.
    pub fn web_manager_url(&self) -> (res: String)
        ensures
            res@ == decode_utf8(spec_local_address(self@.web_manager_port)),
            encode_utf8(res@) == spec_local_address(self@.web_manager_port),
    {
        local_address(self.web_manager_port)
    }

    /// The address of the proxy on this machine.
    pub fn proxy_url(&self) -> (res: String)
        ensures
            res@ == decode_utf8(spec_local_address(self@.proxy_port)),
            encode_utf8(res@) == spec_local_address(self@.proxy_port),
    {
        local_address(self.proxy_port)
    }
}

/// The address of a port on this machine: `127.0.0.1:` and the port.
pub open spec fn spec_local_address(port: u32) -> Seq<u8> {
    "127.0.0.1:".spec_bytes() + spec_decimal(port as nat)
}

fn local_address(port: u32) -> (res: String)
    ensures
        res@ == decode_utf8(spec_local_address(port)),
        encode_utf8(res@) == spec_local_address(port),
{
    let mut out: Vec<u8> = "127.0.0.1:".as_bytes_vec();
    append_bytes(&mut out, decimal_bytes(port as u64).as_slice());
    proof {
        reveal_strlit("127.0.0.1:");
        assert(is_ascii_chars("127.0.0.1:"@));
        is_ascii_chars_encode_utf8("127.0.0.1:"@);
        lemma_decimal_is_ascii(port as nat);
    }
    ascii_text(out.as_slice())
}

/// In a text where digits run from `from` up to a line break or the end, the
/// line that starts at `from` ends where the digits end.
pub proof fn lemma_line_end_after_digits(s: Seq<u8>, from: int, to: int)
    requires
        0 <= from <= to <= s.len(),
        forall|k: int| from <= k < to ==> spec_is_digit(#[trigger] s[k]),
        to == s.len() || spec_line_break_at(s, to),
    ensures
        spec_line_end(s, from) == to,
    decreases to - from,
{
    if from < to {
        assert(spec_is_digit(s[from]));
        lemma_line_end_after_digits(s, from + 1, to);
    }
}

/// What `record` writes is read back by `parse`, and is the running instance
/// where its process is alive.
pub proof fn lemma_record_then_parse(pid: u32, web_manager_port: u32, proxy_port: u32, running: Seq<u32>)
    ensures
        spec_parse_instance(spec_record(pid, web_manager_port, proxy_port)) == Some(
            LopxyInstanceView { pid, web_manager_port, proxy_port },
        ),
        running.contains(pid) ==> spec_instance(Some(spec_record(pid, web_manager_port, proxy_port)), running)
            == Some(LopxyInstanceView { pid, web_manager_port, proxy_port }),
{
    let content = spec_record(pid, web_manager_port, proxy_port);
    let first = spec_decimal(pid as nat);
    let second = spec_decimal(web_manager_port as nat);
    let third = spec_decimal(proxy_port as nat);
    lemma_decimal_round_trip(pid as nat);
    lemma_decimal_round_trip(web_manager_port as nat);
    lemma_decimal_round_trip(proxy_port as nat);
    let first_end = first.len() as int;
    let second_start = first_end + 2;
    let second_end = second_start + second.len();
    let third_start = second_end + 2;
    assert(content.len() == third_start + third.len());
    assert forall|k: int| 0 <= k < first_end implies spec_is_digit(#[trigger] content[k]) by {
        assert(content[k] == first[k]);
    }
    assert forall|k: int| second_start <= k < second_end implies spec_is_digit(#[trigger] content[k]) by {
        assert(content[k] == second[k - second_start]);
    }
    assert forall|k: int| third_start <= k < content.len() implies spec_is_digit(#[trigger] content[k]) by {
        assert(content[k] == third[k - third_start]);
    }
    assert(content[first_end] == 13 && content[first_end + 1] == 10);
    assert(content[second_end] == 13 && content[second_end + 1] == 10);
    lemma_line_end_after_digits(content, 0, first_end);
    lemma_line_end_after_digits(content, second_start, second_end);
    lemma_line_end_after_digits(content, third_start, content.len() as int);
    assert(content.subrange(0, first_end) =~= first);
    assert(content.subrange(second_start, second_end) =~= second);
    assert(content.subrange(third_start, content.len() as int) =~= third);
    lemma_parse_decimal_of_decimal(pid as nat, u32::MAX as nat);
    lemma_parse_decimal_of_decimal(web_manager_port as nat, u32::MAX as nat);
    lemma_parse_decimal_of_decimal(proxy_port as nat, u32::MAX as nat);
}

} // verus!
