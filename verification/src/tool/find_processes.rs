//! The process search tool: attaches open ports to a snapshot of the process
//! table and filters it.

use crate::ieee::Single;
use crate::pattern::{compile, is_match, pattern_matches, pattern_source, source};
use crate::tool::{Tool, ToolError};
use regex::Regex;
use std::collections::HashMap;
use vstd::prelude::*;

verus! {

broadcast use vstd::std_specs::hash::group_hash_axioms;

/// Parameters specific to the FindProcesses tool.
pub struct FindProcessesParams {
    pub detailed_output: Option<bool>,
    /// Percentage.
    pub max_cpu_usage: Option<Single>,
    /// In bytes.
    pub max_memory: Option<u64>,
    /// In bytes.
    pub max_read_from_disk: Option<u64>,
    /// In bytes.
    pub max_written_to_disk: Option<u64>,
    /// Percentage.
    pub min_cpu_usage: Option<Single>,
    /// In bytes.
    pub min_memory: Option<u64>,
    /// In bytes.
    pub min_read_from_disk: Option<u64>,
    /// In bytes.
    pub min_written_to_disk: Option<u64>,
    pub name_regex: Option<String>,
    /// Zero means any.
    pub tcp_port: Option<u16>,
    /// Zero means any.
    pub udp_port: Option<u16>,
}

/// An output specific to the FindProcesses tool.
#[derive(Debug)]
pub struct FindProcessesOutput {
    pub details: Option<FindProcessesOutputDetails>,
    pub name: String,
    pub pid: u32,
}

impl FindProcessesOutput {
    /// The details of a process that has them.
    pub fn details(&self) -> (details: &FindProcessesOutputDetails)
        requires
            self.details is Some,
        ensures
            Some(*details) == self.details,
    {
        self.details.as_ref().unwrap()
    }

    /// The details of a process that has them, for changing.
    pub fn details_mut(&mut self) -> (details: &mut FindProcessesOutputDetails)
        requires
            old(self).details is Some,
        ensures
            Some(*details) == old(self).details,
            final(self).details == Some(*final(details)),
            final(self).name == old(self).name,
            final(self).pid == old(self).pid,
    {
        self.details.as_mut().unwrap()
    }
}

#[derive(Debug)]
pub struct FindProcessesOutputDetails {
    pub cmd: Vec<String>,
    /// Percentage.
    pub cpu_usage: Single,
    pub exe: Option<String>,
    /// In bytes.
    pub memory: u64,
    /// In bytes.
    pub read_from_disk: u64,
    pub tcp_ports: Vec<u16>,
    pub udp_ports: Vec<u16>,
    /// In bytes.
    pub written_to_disk: u64,
}

/// A process as the contracts see it.
pub ghost struct ProcessView {
    pub details: Option<DetailsView>,
    pub name: Seq<char>,
    pub pid: u32,
}

/// The details of a process as the contracts see them.
pub ghost struct DetailsView {
    pub cmd: Seq<Seq<char>>,
    pub cpu_usage: Single,
    pub exe: Option<Seq<char>>,
    pub memory: u64,
    pub read_from_disk: u64,
    pub tcp_ports: Seq<u16>,
    pub udp_ports: Seq<u16>,
    pub written_to_disk: u64,
}

impl View for FindProcessesOutputDetails {
    type V = DetailsView;

    open spec fn view(&self) -> DetailsView {
        DetailsView {
            cmd: self.cmd.deep_view(),
            cpu_usage: self.cpu_usage,
            exe: self.exe.deep_view(),
            memory: self.memory,
            read_from_disk: self.read_from_disk,
            tcp_ports: self.tcp_ports@,
            udp_ports: self.udp_ports@,
            written_to_disk: self.written_to_disk,
        }
    }
}

impl View for FindProcessesOutput {
    type V = ProcessView;

    open spec fn view(&self) -> ProcessView {
        ProcessView {
            details: match self.details {
                Some(details) => Some(details@),
                None => None,
            },
            name: self.name@,
            pid: self.pid,
        }
    }
}

/// The views of a list of processes.
pub open spec fn views(processes: Seq<FindProcessesOutput>) -> Seq<ProcessView> {
    processes.map_values(|p: FindProcessesOutput| p@)
}

impl ProcessView {
    /// The process without its details.
    pub open spec fn stripped(self) -> ProcessView {
        ProcessView { details: None, name: self.name, pid: self.pid }
    }

    /// The process with `tcp` added behind its TCP ports and `udp` behind its
    /// UDP ports. A process without details has no ports to add to.
    pub open spec fn with_ports(self, tcp: Seq<u16>, udp: Seq<u16>) -> ProcessView {
        match self.details {
            Some(details) => ProcessView {
                details: Some(
                    DetailsView {
                        tcp_ports: details.tcp_ports + tcp,
                        udp_ports: details.udp_ports + udp,
                        ..details
                    },
                ),
                ..self
            },
            None => self,
        }
    }

    /// The process with the ports of those of `sockets` that belong to the
    /// process id `pid` added behind the ports it had.
    pub open spec fn with_sockets(self, pid: u32, sockets: Seq<SocketInfo>) -> ProcessView {
        self.with_ports(
            ports_of(sockets, pid, Protocol::Tcp),
            ports_of(sockets, pid, Protocol::Udp),
        )
    }
}

/// The protocol of a socket.
#[derive(Clone, Copy, Debug, PartialEq, Eq, Structural)]
pub enum Protocol {
    Tcp,
    Udp,
}

/// One open socket: its protocol, its local port and the processes it
/// belongs to.
pub struct SocketInfo {
    pub protocol: Protocol,
    pub local_port: u16,
    pub associated_pids: Vec<u32>,
}

/// `port` alone if `wanted`, nothing otherwise.
pub open spec fn one_port(wanted: bool, port: u16) -> Seq<u16> {
    if wanted {
        seq![port]
    } else {
        Seq::empty()
    }
}

/// `port`, once for each time that `pid` occurs among `pids`.
pub open spec fn port_copies(pids: Seq<u32>, pid: u32, port: u16) -> Seq<u16>
    decreases pids.len(),
{
    if pids.len() == 0 {
        Seq::empty()
    } else {
        port_copies(pids.drop_last(), pid, port) + one_port(pids.last() == pid, port)
    }
}

/// The local ports of the sockets of one protocol that belong to process
/// `pid`, in the order of the sockets.
pub open spec fn ports_of(sockets: Seq<SocketInfo>, pid: u32, protocol: Protocol) -> Seq<u16>
    decreases sockets.len(),
{
    if sockets.len() == 0 {
        Seq::empty()
    } else {
        ports_of(sockets.drop_last(), pid, protocol) + socket_ports(sockets.last(), pid, protocol)
    }
}

/// The ports that one socket adds to process `pid` under `protocol`.
pub open spec fn socket_ports(socket: SocketInfo, pid: u32, protocol: Protocol) -> Seq<u16> {
    if socket.protocol == protocol {
        port_copies(socket.associated_pids@, pid, socket.local_port)
    } else {
        Seq::empty()
    }
}

/// Whether `value` lies within the optional bounds, both inclusive.
pub open spec fn amount_within(value: u64, min: Option<u64>, max: Option<u64>) -> bool {
    &&& min matches Some(lo) ==> value >= lo
    &&& max matches Some(hi) ==> value <= hi
}

/// Whether `usage` lies within the optional bounds. A bound excludes what
/// compares beyond it, so a usage that is no number passes every bound.
pub open spec fn usage_within(usage: Single, min: Option<Single>, max: Option<Single>) -> bool {
    &&& min matches Some(lo) ==> !usage.less_than(lo)
    &&& max matches Some(hi) ==> !hi.less_than(usage)
}

/// Whether `ports` meet the wish for a port: a given port has to be among
/// them, and zero stands for any port at all.
pub open spec fn port_wanted(ports: Seq<u16>, wanted: Option<u16>) -> bool {
    wanted matches Some(port) ==> if port != 0 {
        ports.contains(port)
    } else {
        ports.len() > 0
    }
}

/// The conditions that a process has to meet to be reported.
pub struct Filter {
    pub max_cpu_usage: Option<Single>,
    pub max_memory: Option<u64>,
    pub max_read_from_disk: Option<u64>,
    pub max_written_to_disk: Option<u64>,
    pub min_cpu_usage: Option<Single>,
    pub min_memory: Option<u64>,
    pub min_read_from_disk: Option<u64>,
    pub min_written_to_disk: Option<u64>,
    pub name_regex: Option<Regex>,
    pub tcp_port: Option<u16>,
    pub udp_port: Option<u16>,
}

impl Filter {
    /// The text of the name pattern, if there is one.
    pub open spec fn name_pattern(&self) -> Option<Seq<char>> {
        match self.name_regex {
            Some(re) => Some(pattern_source(&re)),
            None => None,
        }
    }

    /// Whether the filter asks exactly what `params` ask.
    pub open spec fn reflects(&self, params: &FindProcessesParams) -> bool {
        &&& self.max_cpu_usage == params.max_cpu_usage
        &&& self.max_memory == params.max_memory
        &&& self.max_read_from_disk == params.max_read_from_disk
        &&& self.max_written_to_disk == params.max_written_to_disk
        &&& self.min_cpu_usage == params.min_cpu_usage
        &&& self.min_memory == params.min_memory
        &&& self.min_read_from_disk == params.min_read_from_disk
        &&& self.min_written_to_disk == params.min_written_to_disk
        &&& self.tcp_port == params.tcp_port
        &&& self.udp_port == params.udp_port
        &&& self.name_pattern() == match params.name_regex {
            Some(p) => Some(p@),
            None => None,
        }
    }

    /// The text of the name pattern, if there is one.
    pub fn pattern(&self) -> (text: Option<&str>)
        ensures
            match text {
                Some(t) => self.name_pattern() == Some(t@),
                None => self.name_pattern() is None,
            },
    {
        match &self.name_regex {
            Some(re) => Some(source(re)),
            None => None,
        }
    }

    /// Whether `process` meets every condition of the filter. A process
    /// without details meets none.
    pub open spec fn accepts(&self, process: ProcessView) -> bool {
        &&& process.details matches Some(details)
        &&& usage_within(details.cpu_usage, self.min_cpu_usage, self.max_cpu_usage)
        &&& amount_within(details.memory, self.min_memory, self.max_memory)
        &&& amount_within(details.read_from_disk, self.min_read_from_disk, self.max_read_from_disk)
        &&& amount_within(
            details.written_to_disk,
            self.min_written_to_disk,
            self.max_written_to_disk,
        )
        &&& self.name_regex matches Some(re) ==> pattern_matches(&re, process.name)
        &&& port_wanted(details.tcp_ports, self.tcp_port)
        &&& port_wanted(details.udp_ports, self.udp_port)
    }

    /// Puts a filter together from the parameters and the outcome of compiling
    /// their name pattern, where they have one.
    pub fn assemble(params: FindProcessesParams, compiled: Option<Result<Regex, regex::Error>>) -> (res:
        Result<Filter, ToolError>)
        ensures
            compiled matches Some(Err(e)) ==> res == Err::<Filter, ToolError>(ToolError::Regex(e)),
            !(compiled matches Some(Err(_))) ==> {
                &&& res matches Ok(f)
                &&& f.max_cpu_usage == params.max_cpu_usage
                &&& f.max_memory == params.max_memory
                &&& f.max_read_from_disk == params.max_read_from_disk
                &&& f.max_written_to_disk == params.max_written_to_disk
                &&& f.min_cpu_usage == params.min_cpu_usage
                &&& f.min_memory == params.min_memory
                &&& f.min_read_from_disk == params.min_read_from_disk
                &&& f.min_written_to_disk == params.min_written_to_disk
                &&& f.tcp_port == params.tcp_port
                &&& f.udp_port == params.udp_port
                &&& f.name_regex == match compiled {
                    Some(Ok(re)) => Some(re),
                    _ => None,
                }
            },
    {
        let name_regex = match compiled {
            Some(Ok(re)) => Some(re),
            Some(Err(e)) => {
                return Err(ToolError::Regex(e));
            },
            None => None,
        };
        Ok(
            Filter {
                max_cpu_usage: params.max_cpu_usage,
                max_memory: params.max_memory,
                max_read_from_disk: params.max_read_from_disk,
                max_written_to_disk: params.max_written_to_disk,
                min_cpu_usage: params.min_cpu_usage,
                min_memory: params.min_memory,
                min_read_from_disk: params.min_read_from_disk,
                min_written_to_disk: params.min_written_to_disk,
                name_regex,
                tcp_port: params.tcp_port,
                udp_port: params.udp_port,
            },
        )
    }

    /// Builds the filter that `params` describe, compiling the name pattern.
    ///
    /// Fails only where there is a name pattern and it does not compile.
    pub fn try_from(params: FindProcessesParams) -> (res: Result<Filter, ToolError>)
        ensures
            params.name_regex is None ==> res is Ok,
            res matches Ok(f) ==> f.reflects(&params),
            res matches Err(e) ==> e is Regex && params.name_regex is Some,
    {
        let compiled = match &params.name_regex {
            Some(pattern) => Some(compile(pattern.as_str())),
            None => None,
        };
        Filter::assemble(params, compiled)
    }

    fn has_port(ports: &Vec<u16>, wanted: &Option<u16>) -> (b: bool)
        ensures
            b == port_wanted(ports@, *wanted),
    {
        let port = match wanted {
            Some(port) => *port,
            None => {
                return true;
            },
        };
        if port == 0 {
            return ports.len() > 0;
        }
        let mut i: usize = 0;
        while i < ports.len()
            invariant
                i <= ports.len(),
                *wanted == Some(port),
                port != 0,
                forall|k: int| 0 <= k < i ==> ports@[k] != port,
            decreases ports.len() - i,
        {
            if ports[i] == port {
                assert(ports@[i as int] == port);
                return true;
            }
            i += 1;
        }
        false
    }

    /// Decides whether `process` is to be reported.
    pub fn is_matching(&self, process: &FindProcessesOutput) -> (b: bool)
        ensures
            b == self.accepts(process@),
    {
        let details = match &process.details {
            Some(details) => details,
            None => {
                return false;
            },
        };
        if let Some(min_cpu_usage) = self.min_cpu_usage {
            if details.cpu_usage.lt(min_cpu_usage) {
                return false;
            }
        }
        if let Some(max_cpu_usage) = self.max_cpu_usage {
            if max_cpu_usage.lt(details.cpu_usage) {
                return false;
            }
        }
        if let Some(min_memory) = self.min_memory {
            if details.memory < min_memory {
                return false;
            }
        }
        if let Some(max_memory) = self.max_memory {
            if details.memory > max_memory {
                return false;
            }
        }
        if let Some(min_read_from_disk) = self.min_read_from_disk {
            if details.read_from_disk < min_read_from_disk {
                return false;
            }
        }
        if let Some(max_read_from_disk) = self.max_read_from_disk {
            if details.read_from_disk > max_read_from_disk {
                return false;
            }
        }
        if let Some(min_written_to_disk) = self.min_written_to_disk {
            if details.written_to_disk < min_written_to_disk {
                return false;
            }
        }
        if let Some(max_written_to_disk) = self.max_written_to_disk {
            if details.written_to_disk > max_written_to_disk {
                return false;
            }
        }
        if let Some(name_regex) = &self.name_regex {
            if !is_match(name_regex, process.name.as_str()) {
                return false;
            }
        }
        if !Self::has_port(&details.tcp_ports, &self.tcp_port) {
            return false;
        }
        if !Self::has_port(&details.udp_ports, &self.udp_port) {
            return false;
        }
        true
    }
}

/// A process search that is ready to run on a snapshot of the process table.
pub struct ProcessQuery {
    pub filter: Filter,
    /// Whether the processes found keep their details.
    pub detailed_output: bool,
}

impl ProcessQuery {
    /// A found process in the form asked for: with its details or without.
    pub open spec fn shaped(&self, process: ProcessView) -> ProcessView {
        if self.detailed_output {
            process
        } else {
            process.stripped()
        }
    }

    /// Of `processes`, those that the filter accepts, in the form asked for.
    pub open spec fn found(&self, processes: Seq<ProcessView>) -> Seq<ProcessView> {
        processes.filter(|p: ProcessView| self.filter.accepts(p)).map_values(
            |p: ProcessView| self.shaped(p),
        )
    }

    /// Runs the search on a snapshot of the process table, keyed by process
    /// id, and of the socket table.
    ///
    /// Each process gets the ports of the sockets that belong to its id, the
    /// filter picks, and the details go unless they were asked for. The
    /// processes found come in the order in which the table is walked, which
    /// is some order of its ids.
    pub fn select(&self, processes: HashMap<u32, FindProcessesOutput>, sockets: &Vec<SocketInfo>) -> (out:
        Vec<FindProcessesOutput>)
        ensures
            exists|order: Seq<u32>| #[trigger]
                walks(processes@, order) && views(out@) == self.found(
                    attached(processes@, order, sockets@),
                ),
    {
        let mut processes = processes;
        let ghost given = processes@;
        FindProcesses::add_net_ports(&mut processes, sockets);
        let ghost table = processes@;
        let mut pids: Vec<u32> = Vec::new();
        for pid in it: processes.keys()
            invariant
                pids@.len() == it.index(),
                forall|j: int| 0 <= j < pids@.len() ==> pids@[j] == *it.seq()[j],
        {
            pids.push(*pid);
        }
        let ghost order = pids@;
        let ghost snapshot = order.map_values(|pid: u32| table[pid]@);
        proof {
            let keys = vstd::std_specs::iter::IteratorSpec::remaining(
                &vstd::std_specs::hash::spec_keys_iter(&processes),
            );
            assert(order =~= keys.unref());
            assert(order.no_duplicates()) by {
                assert forall|i: int, j: int|
                    0 <= i < order.len() && 0 <= j < order.len() && i != j implies order[i]
                    != order[j] by {
                    assert(keys[i] != keys[j]);
                }
            }
            assert(walks(given, order));
            assert forall|j: int| 0 <= j < order.len() implies table.contains_key(
                #[trigger] order[j],
            ) by {
                assert(order.to_set().contains(order[j]));
            }
            assert(snapshot =~= attached(given, order, sockets@));
        }
        let mut out: Vec<FindProcessesOutput> = Vec::new();
        proof {
            reveal(Seq::filter);
            assert(snapshot.take(0) =~= Seq::empty());
            assert(views(out@) =~= self.found(snapshot.take(0)));
        }
        let mut i: usize = 0;
        while i < pids.len()
            invariant
                i <= pids@.len(),
                order == pids@,
                order.no_duplicates(),
                snapshot == order.map_values(|pid: u32| table[pid]@),
                forall|j: int| 0 <= j < order.len() ==> table.contains_key(#[trigger] order[j]),
                forall|j: int|
                    i <= j < order.len() ==> processes@.contains_key(#[trigger] order[j])
                        && processes@[order[j]] == table[order[j]],
                views(out@) == self.found(snapshot.take(i as int)),
            decreases pids.len() - i,
        {
            let ghost n = i as int;
            let ghost before = out@;
            let ghost remaining = processes@;
            let pid = pids[i];
            if let Some(process) = processes.remove(&pid) {
                assert(process == table[pid]);
                assert(process@ == snapshot[n]);
                let mut process = process;
                if self.filter.is_matching(&process) {
                    if !self.detailed_output {
                        process.details = None;
                    }
                    out.push(process);
                }
            }
            proof {
                reveal(Seq::filter);
                assert(remaining.contains_key(pid));
                assert forall|j: int| n + 1 <= j < order.len() implies processes@.contains_key(
                    #[trigger] order[j],
                ) && processes@[order[j]] == table[order[j]] by {
                    assert(order[j] != order[n]);
                }
                let accepts = |p: ProcessView| self.filter.accepts(p);
                let shape = |p: ProcessView| self.shaped(p);
                let earlier = snapshot.take(n).filter(accepts);
                assert(snapshot.take(n + 1).drop_last() =~= snapshot.take(n));
                assert(snapshot.take(n + 1).last() == snapshot[n]);
                assert(snapshot.take(n + 1).filter(accepts) == if accepts(snapshot[n]) {
                    earlier.push(snapshot[n])
                } else {
                    earlier
                });
                assert(views(before) == earlier.map_values(shape));
                if accepts(snapshot[n]) {
                    assert(out@ == before.push(out@.last()));
                    assert(out@.last()@ == shape(snapshot[n]));
                    assert(views(out@) =~= views(before).push(shape(snapshot[n])));
                    assert(earlier.push(snapshot[n]).map_values(shape) =~= earlier.map_values(
                        shape,
                    ).push(shape(snapshot[n])));
                }
            }
            i += 1;
        }
        proof {
            assert(snapshot.take(snapshot.len() as int) =~= snapshot);
        }
        out
    }
}

/// Whether `order` is a way to walk a table: it names each process id of the
/// table once.
pub open spec fn walks(table: Map<u32, FindProcessesOutput>, order: Seq<u32>) -> bool {
    order.no_duplicates() && order.to_set() == table.dom()
}

/// The processes of a table in the order given, each with the ports of the
/// sockets that belong to its id.
pub open spec fn attached(
    table: Map<u32, FindProcessesOutput>,
    order: Seq<u32>,
    sockets: Seq<SocketInfo>,
) -> Seq<ProcessView> {
    order.map_values(|pid: u32| table[pid]@.with_sockets(pid, sockets))
}

/// A search finds nothing but what its filter accepts: each process found
/// is one of the processes looked at, in the form asked for, and the filter
/// accepts it as it was looked at. With a lower bound on the CPU usage, for
/// one, no process found has a usage below the bound.
pub proof fn lemma_found_are_accepted(query: ProcessQuery, processes: Seq<ProcessView>, i: int)
    requires
        0 <= i < query.found(processes).len(),
    ensures
        exists|k: int|
            0 <= k < processes.len() && query.filter.accepts(#[trigger] processes[k])
                && query.found(processes)[i] == query.shaped(processes[k]),
{
    let accepts = |p: ProcessView| query.filter.accepts(p);
    let kept = processes.filter(accepts);
    processes.lemma_filter_pred(accepts, i);
    assert(kept.contains(kept[i]));
    processes.lemma_filter_contains_rev(accepts, kept[i]);
    let k = choose|k: int| 0 <= k < processes.len() && processes[k] == kept[i];
    assert(accepts(processes[k]));
}

/// A search leaves out nothing that its filter accepts: each process that
/// the filter accepts is among those found, in the form asked for.
pub proof fn lemma_accepted_are_found(query: ProcessQuery, processes: Seq<ProcessView>, k: int)
    requires
        0 <= k < processes.len(),
        query.filter.accepts(processes[k]),
    ensures
        exists|i: int|
            0 <= i < query.found(processes).len() && #[trigger] query.found(processes)[i]
                == query.shaped(processes[k]),
{
    let accepts = |p: ProcessView| query.filter.accepts(p);
    let kept = processes.filter(accepts);
    processes.lemma_filter_contains(accepts, k);
    let i = choose|i: int| 0 <= i < kept.len() && kept[i] == processes[k];
    assert(query.found(processes)[i] == query.shaped(processes[k]));
}

/// A tool for finding processes running in the system.
pub struct FindProcesses;

impl FindProcesses {
    /// Creates a FindProcesses instance.
    pub fn new() -> (tool: Self)
        ensures
            tool.spec_name() == "find_processes"@,
    {
        FindProcesses
    }

    /// Prepares a search: builds the filter before anything is read, so that
    /// a bad name pattern is reported at once.
    pub fn call(&self, params: FindProcessesParams) -> (res: Result<ProcessQuery, ToolError>)
        ensures
            params.name_regex is None ==> res is Ok,
            res matches Ok(query) ==> {
                &&& query.filter.reflects(&params)
                &&& query.detailed_output == (params.detailed_output == Some(true))
            },
            res matches Err(e) ==> e is Regex && params.name_regex is Some,
    {
        let detailed_output = match params.detailed_output {
            Some(detailed) => detailed,
            None => false,
        };
        let filter = Filter::try_from(params)?;
        Ok(ProcessQuery { filter, detailed_output })
    }

    /// Adds `port` to the ports of `protocol` of the process with id `pid`, if
    /// the table has one.
    fn add_port(processes: &mut HashMap<u32, FindProcessesOutput>, pid: u32, protocol: Protocol, port: u16)
        ensures
            final(processes)@.dom() == old(processes)@.dom(),
            forall|k: u32|
                old(processes)@.contains_key(k) ==> (#[trigger] final(processes)@[k])@ == old(
                    processes,
                )@[k]@.with_ports(
                    one_port(protocol == Protocol::Tcp && k == pid, port),
                    one_port(protocol == Protocol::Udp && k == pid, port),
                ),
    {
        if let Some(process) = processes.remove(&pid) {
            let mut process = process;
            let ghost before = process@;
            if let Some(details) = &mut process.details {
                match protocol {
                    Protocol::Tcp => details.tcp_ports.push(port),
                    Protocol::Udp => details.udp_ports.push(port),
                }
            }
            proof {
                if before.details is Some {
                    assert(process@.details->0.tcp_ports =~= before.details->0.tcp_ports + one_port(
                        protocol == Protocol::Tcp,
                        port,
                    ));
                    assert(process@.details->0.udp_ports =~= before.details->0.udp_ports + one_port(
                        protocol == Protocol::Udp,
                        port,
                    ));
                }
            }
            processes.insert(pid, process);
        }
        proof {
            assert(final(processes)@.dom() =~= old(processes)@.dom());
            assert forall|k: u32| old(processes)@.contains_key(k) implies (#[trigger] processes@[k])@
                == old(processes)@[k]@.with_ports(
                one_port(protocol == Protocol::Tcp && k == pid, port),
                one_port(protocol == Protocol::Udp && k == pid, port),
            ) by {
                if k != pid {
                    lemma_with_ports_twice(
                        old(processes)@[k]@,
                        Seq::empty(),
                        Seq::empty(),
                        Seq::empty(),
                        Seq::empty(),
                    );
                }
            }
        }
    }

    /// Adds the port of `socket` to every process that the socket belongs to.
    fn add_socket(processes: &mut HashMap<u32, FindProcessesOutput>, socket: &SocketInfo)
        ensures
            final(processes)@.dom() == old(processes)@.dom(),
            forall|k: u32|
                old(processes)@.contains_key(k) ==> (#[trigger] final(processes)@[k])@ == old(
                    processes,
                )@[k]@.with_ports(
                    socket_ports(*socket, k, Protocol::Tcp),
                    socket_ports(*socket, k, Protocol::Udp),
                ),
    {
        let mut j: usize = 0;
        proof {
            assert forall|k: u32| processes@.contains_key(k) implies (#[trigger] processes@[k])@
                == processes@[k]@.with_ports(Seq::empty(), Seq::empty()) by {
                lemma_with_ports_twice(
                    processes@[k]@,
                    Seq::empty(),
                    Seq::empty(),
                    Seq::empty(),
                    Seq::empty(),
                );
            }
        }
        while j < socket.associated_pids.len()
            invariant
                j <= socket.associated_pids@.len(),
                processes@.dom() == old(processes)@.dom(),
                forall|k: u32|
                    old(processes)@.contains_key(k) ==> (#[trigger] processes@[k])@ == old(
                        processes,
                    )@[k]@.with_ports(
                        socket_ports_upto(*socket, j as int, k, Protocol::Tcp),
                        socket_ports_upto(*socket, j as int, k, Protocol::Udp),
                    ),
            decreases socket.associated_pids.len() - j,
        {
            let pid = socket.associated_pids[j];
            let ghost before = processes@;
            Self::add_port(processes, pid, socket.protocol, socket.local_port);
            proof {
                let pids = socket.associated_pids@;
                assert(pids.take(j + 1).drop_last() =~= pids.take(j as int));
                assert forall|k: u32| old(processes)@.contains_key(k) implies (
                #[trigger] processes@[k])@ == old(processes)@[k]@.with_ports(
                    socket_ports_upto(*socket, j + 1, k, Protocol::Tcp),
                    socket_ports_upto(*socket, j + 1, k, Protocol::Udp),
                ) by {
                    assert(before.contains_key(k));
                    lemma_with_ports_twice(
                        old(processes)@[k]@,
                        socket_ports_upto(*socket, j as int, k, Protocol::Tcp),
                        socket_ports_upto(*socket, j as int, k, Protocol::Udp),
                        one_port(socket.protocol == Protocol::Tcp && k == pid, socket.local_port),
                        one_port(socket.protocol == Protocol::Udp && k == pid, socket.local_port),
                    );
                }
            }
            j += 1;
        }
        proof {
            assert(socket.associated_pids@.take(j as int) =~= socket.associated_pids@);
        }
    }

    /// Attaches to each process of the table the local ports of the sockets
    /// that belong to its id: TCP ports and UDP ports apart, in the order of
    /// the sockets, behind the ports that the process had.
    pub fn add_net_ports(processes: &mut HashMap<u32, FindProcessesOutput>, sockets: &Vec<SocketInfo>)
        ensures
            final(processes)@.dom() == old(processes)@.dom(),
            forall|k: u32|
                old(processes)@.contains_key(k) ==> (#[trigger] final(processes)@[k])@ == old(
                    processes,
                )@[k]@.with_sockets(k, sockets@),
    {
        let mut i: usize = 0;
        proof {
            assert forall|k: u32| processes@.contains_key(k) implies (#[trigger] processes@[k])@
                == processes@[k]@.with_sockets(k, sockets@.take(0)) by {
                lemma_with_ports_twice(
                    processes@[k]@,
                    Seq::empty(),
                    Seq::empty(),
                    Seq::empty(),
                    Seq::empty(),
                );
            }
        }
        while i < sockets.len()
            invariant
                i <= sockets@.len(),
                processes@.dom() == old(processes)@.dom(),
                forall|k: u32|
                    old(processes)@.contains_key(k) ==> (#[trigger] processes@[k])@ == old(
                        processes,
                    )@[k]@.with_sockets(k, sockets@.take(i as int)),
            decreases sockets.len() - i,
        {
            let ghost before = processes@;
            Self::add_socket(processes, &sockets[i]);
            proof {
                assert(sockets@.take(i + 1).drop_last() =~= sockets@.take(i as int));
                assert forall|k: u32| old(processes)@.contains_key(k) implies (
                #[trigger] processes@[k])@ == old(processes)@[k]@.with_sockets(
                    k,
                    sockets@.take(i + 1),
                ) by {
                    assert(before.contains_key(k));
                    lemma_with_ports_twice(
                        old(processes)@[k]@,
                        ports_of(sockets@.take(i as int), k, Protocol::Tcp),
                        ports_of(sockets@.take(i as int), k, Protocol::Udp),
                        socket_ports(sockets@[i as int], k, Protocol::Tcp),
                        socket_ports(sockets@[i as int], k, Protocol::Udp),
                    );
                }
            }
            i += 1;
        }
        proof {
            assert(sockets@.take(i as int) =~= sockets@);
        }
    }
}

/// The ports that the first `n` process ids of one socket add to process
/// `pid` under `protocol`.
pub open spec fn socket_ports_upto(socket: SocketInfo, n: int, pid: u32, protocol: Protocol) -> Seq<u16> {
    if socket.protocol == protocol {
        port_copies(socket.associated_pids@.take(n), pid, socket.local_port)
    } else {
        Seq::empty()
    }
}

/// Adding ports in two goes adds the two lists one behind the other.
pub proof fn lemma_with_ports_twice(
    process: ProcessView,
    tcp: Seq<u16>,
    udp: Seq<u16>,
    more_tcp: Seq<u16>,
    more_udp: Seq<u16>,
)
    ensures
        process.with_ports(tcp, udp).with_ports(more_tcp, more_udp) == process.with_ports(
            tcp + more_tcp,
            udp + more_udp,
        ),
        process.with_ports(Seq::empty(), Seq::empty()) == process,
{
    if let Some(details) = process.details {
        assert((details.tcp_ports + tcp) + more_tcp =~= details.tcp_ports + (tcp + more_tcp));
        assert((details.udp_ports + udp) + more_udp =~= details.udp_ports + (udp + more_udp));
        assert(details.tcp_ports + Seq::<u16>::empty() =~= details.tcp_ports);
        assert(details.udp_ports + Seq::<u16>::empty() =~= details.udp_ports);
    }
}

impl Tool for FindProcesses {
    type Params = FindProcessesParams;

    type Output = FindProcessesOutput;

    open spec fn spec_name(&self) -> Seq<char> {
        "find_processes"@
    }

    fn name(&self) -> &'static str {
        "find_processes"
    }

    open spec fn spec_description(&self) -> Option<Seq<char>> {
        None
    }

    fn description(&self) -> Option<&'static str> {
        None
    }
}

} // verus!
