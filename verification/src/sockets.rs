//! Finding the process behind a client's port in the socket table of the
//! operating system.

use vstd::prelude::*;

verus! {

/// One row of the socket table.
pub struct SocketInfo {
    /// Whether this is a TCP socket.
    pub tcp: bool,
    pub local_port: u16,
    /// The processes that hold the socket.
    pub associated_pids: Vec<u32>,
}

/// Whether a row names the process behind a TCP port.
pub open spec fn spec_socket_matches(socket: SocketInfo, port: u16) -> bool {
    socket.tcp && socket.local_port == port && socket.associated_pids@.len() != 0
}

/// The first process of the first TCP socket at or after row `from` that is
/// bound to `port` and names a process.
pub open spec fn spec_port_to_pid(sockets: Seq<SocketInfo>, port: u16, from: int) -> Option<u32>
    decreases sockets.len() - from,
{
    if from < 0 || from >= sockets.len() {
        None
    } else if spec_socket_matches(sockets[from], port) {
        Some(sockets[from].associated_pids@[0])
    } else {
        spec_port_to_pid(sockets, port, from + 1)
    }
}

/// The process behind a TCP port. `sockets_info` is the socket table, `None`
/// where it could not be read. The answer is a hint for the status log and
/// nothing more.
pub fn tcp_port_to_pid(port: u16, sockets_info: Option<&Vec<SocketInfo>>) -> (res: Option<u32>)
    ensures
        res == match sockets_info {
            Some(sockets) => spec_port_to_pid(sockets@, port, 0),
            None => None,
        },
{
    let sockets: &Vec<SocketInfo> = match sockets_info {
        Some(sockets) => sockets,
        None => {
            return None;
        },
    };
    let mut i: usize = 0;
    while i < sockets.len()
        invariant
            i <= sockets@.len(),
            sockets_info == Some(sockets),
            spec_port_to_pid(sockets@, port, i as int) == spec_port_to_pid(sockets@, port, 0),
        decreases sockets@.len() - i,
    {
        let socket = &sockets[i];
        if socket.tcp && socket.local_port == port && socket.associated_pids.len() != 0 {
            return Some(socket.associated_pids[0]);
        }
        i += 1;
    }
    None
}

} // verus!
