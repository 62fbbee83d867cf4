use korah::ieee::Single;
use korah::tool::find_processes::{
    Filter, FindProcesses, FindProcessesOutput, FindProcessesOutputDetails, FindProcessesParams,
    Protocol, SocketInfo,
};
use korah::tool::{Tool, ToolError};
use std::collections::HashMap;

fn single(x: f32) -> Single {
    Single::from_bits(x.to_bits())
}

fn params() -> FindProcessesParams {
    FindProcessesParams {
        detailed_output: None,
        max_cpu_usage: None,
        max_memory: None,
        max_read_from_disk: None,
        max_written_to_disk: None,
        min_cpu_usage: None,
        min_memory: None,
        min_read_from_disk: None,
        min_written_to_disk: None,
        name_regex: None,
        tcp_port: None,
        udp_port: None,
    }
}

fn process(pid: u32, name: &str, cpu: f32) -> FindProcessesOutput {
    FindProcessesOutput {
        details: Some(FindProcessesOutputDetails {
            cmd: vec![name.to_owned()],
            cpu_usage: single(cpu),
            exe: Some(format!("/bin/{name}")),
            memory: 1_000 * pid as u64,
            read_from_disk: 10 * pid as u64,
            tcp_ports: Vec::new(),
            udp_ports: Vec::new(),
            written_to_disk: 20 * pid as u64,
        }),
        name: name.to_owned(),
        pid,
    }
}

fn socket(protocol: Protocol, local_port: u16, pids: &[u32]) -> SocketInfo {
    SocketInfo { protocol, local_port, associated_pids: pids.to_vec() }
}

/// A process table, keyed by process id as the system's own is.
fn table(processes: Vec<FindProcessesOutput>) -> HashMap<u32, FindProcessesOutput> {
    processes.into_iter().map(|p| (p.pid, p)).collect()
}

/// The ids of the processes found, in rising order: a table is walked in no
/// order that could be told beforehand.
fn pids(found: &[FindProcessesOutput]) -> Vec<u32> {
    let mut pids: Vec<u32> = found.iter().map(|p| p.pid).collect();
    pids.sort();
    pids
}

#[test]
fn find_processes_has_its_name_and_no_description() {
    let tool = FindProcesses::new();
    assert_eq!(tool.name(), "find_processes");
    assert_eq!(tool.description(), None);
}

#[test]
fn singles_order_as_the_numbers_do() {
    assert!(single(49.9).lt(single(50.0)));
    assert!(!single(50.0).lt(single(50.0)));
    assert!(!single(50.1).lt(single(50.0)));
    assert!(single(-1.0).lt(single(0.0)));
    assert!(single(-2.0).lt(single(-1.0)));
    assert!(single(-0.5).lt(single(0.25)));
    assert!(single(f32::NEG_INFINITY).lt(single(f32::MIN)));
    assert!(single(f32::MAX).lt(single(f32::INFINITY)));
    assert!(single(f32::MIN_POSITIVE).lt(single(1.0e-30)));
    // Both zeros are one number.
    assert!(!single(-0.0).lt(single(0.0)));
    assert!(!single(0.0).lt(single(-0.0)));
    // A NaN is below nothing and nothing is below it.
    assert!(!single(f32::NAN).lt(single(1.0)));
    assert!(!single(1.0).lt(single(f32::NAN)));
    assert!(!single(f32::NAN).lt(single(f32::NAN)));
}

#[test]
fn singles_agree_with_the_machine_on_samples() {
    let samples = [
        f32::NEG_INFINITY, -1.0e30, -3.5, -1.0, -1.0e-40, -0.0, 0.0, 1.0e-40, 0.1, 1.0, 50.0,
        99.99, 100.0, 1.0e30, f32::INFINITY, f32::NAN,
    ];
    for a in samples {
        for b in samples {
            assert_eq!(single(a).lt(single(b)), a < b, "{a} < {b}");
        }
    }
}

#[test]
fn single_keeps_its_bits() {
    assert_eq!(Single::from_bits(0x42480000).to_bits(), 0x42480000);
    assert_eq!(f32::from_bits(single(50.0).to_bits()), 50.0);
}

#[test]
fn literal_call_scenario_returns_only_busy_processes() {
    let mut p = params();
    p.min_cpu_usage = Some(single(50.0));
    let query = FindProcesses::new().call(p).ok().unwrap();
    let snapshot = table(vec![
        process(1, "idle", 0.0),
        process(2, "half", 50.0),
        process(3, "busy", 99.5),
        process(4, "calm", 49.99),
    ]);
    let found = query.select(snapshot, &Vec::new());
    assert_eq!(pids(&found), vec![2, 3]);
    // Details were not asked for.
    assert!(found.iter().all(|p| p.details.is_none()));
    assert!(found.iter().any(|p| p.pid == 2 && p.name == "half"));
}

#[test]
fn detailed_output_keeps_the_details() {
    let mut p = params();
    p.detailed_output = Some(true);
    let query = FindProcesses::new().call(p).ok().unwrap();
    assert!(query.detailed_output);
    let found = query.select(table(vec![process(7, "seven", 1.5)]), &Vec::new());
    assert_eq!(found.len(), 1);
    let details = found[0].details();
    assert_eq!(details.memory, 7_000);
    assert_eq!(details.cpu_usage, single(1.5));
    assert_eq!(details.cmd, vec!["seven".to_owned()]);
    assert_eq!(details.exe.as_deref(), Some("/bin/seven"));
    let mut p = params();
    p.detailed_output = Some(false);
    assert!(!FindProcesses::new().call(p).ok().unwrap().detailed_output);
}

#[test]
fn details_mut_changes_the_process() {
    let mut p = process(1, "one", 0.0);
    p.details_mut().memory = 5;
    assert_eq!(p.details().memory, 5);
    assert_eq!(p.pid, 1);
}

#[test]
fn ports_are_attached_by_pid_and_protocol_in_socket_order() {
    let mut processes = table(vec![process(1, "a", 0.0), process(2, "b", 0.0), process(3, "c", 0.0)]);
    processes.get_mut(&1).unwrap().details_mut().tcp_ports.push(22);
    let sockets = vec![
        socket(Protocol::Tcp, 80, &[1, 2]),
        socket(Protocol::Udp, 53, &[2]),
        socket(Protocol::Tcp, 443, &[9, 1]),
        socket(Protocol::Udp, 123, &[]),
        socket(Protocol::Tcp, 8080, &[2, 2]),
    ];
    FindProcesses::add_net_ports(&mut processes, &sockets);
    assert_eq!(processes.len(), 3);
    assert_eq!(processes[&1].details().tcp_ports, vec![22, 80, 443]);
    assert_eq!(processes[&1].details().udp_ports, Vec::<u16>::new());
    assert_eq!(processes[&2].details().tcp_ports, vec![80, 8080, 8080]);
    assert_eq!(processes[&2].details().udp_ports, vec![53]);
    assert_eq!(processes[&3].details().tcp_ports, Vec::<u16>::new());
    assert_eq!(processes[&3].details().udp_ports, Vec::<u16>::new());
    assert_eq!(processes[&2].name, "b");
    assert_eq!(processes[&2].details().memory, 2_000);
}

#[test]
fn process_without_details_gets_no_ports_and_matches_nothing() {
    let mut bare = process(1, "a", 0.0);
    bare.details = None;
    let mut processes = table(vec![bare]);
    FindProcesses::add_net_ports(&mut processes, &vec![socket(Protocol::Tcp, 80, &[1])]);
    assert!(processes[&1].details.is_none());
    let f = Filter::try_from(params()).ok().unwrap();
    assert!(!f.is_matching(&processes[&1]));
}

#[test]
fn port_zero_means_any_port() {
    let mut p = params();
    p.tcp_port = Some(0);
    let query = FindProcesses::new().call(p).ok().unwrap();
    let sockets = vec![socket(Protocol::Tcp, 80, &[1]), socket(Protocol::Udp, 53, &[2])];
    let found = query.select(table(vec![process(1, "a", 0.0), process(2, "b", 0.0)]), &sockets);
    assert_eq!(pids(&found), vec![1]);
    let mut p = params();
    p.udp_port = Some(0);
    let query = FindProcesses::new().call(p).ok().unwrap();
    let found = query.select(table(vec![process(1, "a", 0.0), process(2, "b", 0.0)]), &sockets);
    assert_eq!(pids(&found), vec![2]);
}

#[test]
fn given_port_has_to_be_among_the_ports() {
    let mut p = params();
    p.tcp_port = Some(443);
    p.detailed_output = Some(true);
    let query = FindProcesses::new().call(p).ok().unwrap();
    let sockets = vec![
        socket(Protocol::Tcp, 80, &[1]),
        socket(Protocol::Tcp, 443, &[2]),
        socket(Protocol::Udp, 443, &[3]),
    ];
    let snapshot = table(vec![process(1, "a", 0.0), process(2, "b", 0.0), process(3, "c", 0.0)]);
    let found = query.select(snapshot, &sockets);
    assert_eq!(pids(&found), vec![2]);
    assert_eq!(found[0].details().tcp_ports, vec![443]);
}

#[test]
fn amounts_are_bounded_inclusively() {
    let mut p = params();
    p.min_memory = Some(2_000);
    p.max_memory = Some(3_000);
    let f = Filter::try_from(p).ok().unwrap();
    assert!(!f.is_matching(&process(1, "a", 0.0)));
    assert!(f.is_matching(&process(2, "a", 0.0)));
    assert!(f.is_matching(&process(3, "a", 0.0)));
    assert!(!f.is_matching(&process(4, "a", 0.0)));
    let mut p = params();
    p.min_read_from_disk = Some(20);
    p.max_read_from_disk = Some(30);
    let f = Filter::try_from(p).ok().unwrap();
    assert!(!f.is_matching(&process(1, "a", 0.0)));
    assert!(f.is_matching(&process(2, "a", 0.0)));
    assert!(f.is_matching(&process(3, "a", 0.0)));
    assert!(!f.is_matching(&process(4, "a", 0.0)));
    let mut p = params();
    p.min_written_to_disk = Some(40);
    p.max_written_to_disk = Some(60);
    let f = Filter::try_from(p).ok().unwrap();
    assert!(!f.is_matching(&process(1, "a", 0.0)));
    assert!(f.is_matching(&process(2, "a", 0.0)));
    assert!(f.is_matching(&process(3, "a", 0.0)));
    assert!(!f.is_matching(&process(4, "a", 0.0)));
}

#[test]
fn cpu_usage_is_bounded_inclusively() {
    let mut p = params();
    p.min_cpu_usage = Some(single(10.0));
    p.max_cpu_usage = Some(single(20.0));
    let f = Filter::try_from(p).ok().unwrap();
    assert!(!f.is_matching(&process(1, "a", 9.999)));
    assert!(f.is_matching(&process(1, "a", 10.0)));
    assert!(f.is_matching(&process(1, "a", 20.0)));
    assert!(!f.is_matching(&process(1, "a", 20.001)));
    // A usage that is no number is beyond no bound.
    assert!(f.is_matching(&process(1, "a", f32::NAN)));
}

#[test]
fn name_pattern_is_searched_in_the_process_name() {
    let mut p = params();
    p.name_regex = Some("^fire".to_owned());
    let query = FindProcesses::new().call(p).ok().unwrap();
    let snapshot = table(vec![process(1, "firefox", 0.0), process(2, "campfire", 0.0)]);
    assert_eq!(pids(&query.select(snapshot, &Vec::new())), vec![1]);
}

#[test]
fn bad_pattern_fails_before_anything_is_read() {
    let mut p = params();
    p.name_regex = Some("[".to_owned());
    assert!(matches!(FindProcesses::new().call(p), Err(ToolError::Regex(_))));
    let mut p = params();
    p.name_regex = Some("[".to_owned());
    assert!(matches!(Filter::try_from(p), Err(ToolError::Regex(_))));
}

#[test]
fn selection_finds_each_process_once() {
    let query = FindProcesses::new().call(params()).ok().unwrap();
    let snapshot = table((1..=50).map(|pid| process(pid, "p", 0.0)).collect());
    let found = query.select(snapshot, &Vec::new());
    assert_eq!(pids(&found), (1..=50).collect::<Vec<u32>>());
    assert!(query.select(HashMap::new(), &Vec::new()).is_empty());
}

#[test]
fn ports_go_by_the_id_that_the_table_knows_a_process_by() {
    let mut p = params();
    p.tcp_port = Some(80);
    p.detailed_output = Some(true);
    let query = FindProcesses::new().call(p).ok().unwrap();
    let mut snapshot = HashMap::new();
    snapshot.insert(7, process(1, "filed under seven", 0.0));
    let found = query.select(snapshot, &vec![socket(Protocol::Tcp, 80, &[7])]);
    assert_eq!(found.len(), 1);
    assert_eq!(found[0].details().tcp_ports, vec![80]);
    let mut snapshot = HashMap::new();
    snapshot.insert(7, process(1, "filed under seven", 0.0));
    assert!(query.select(snapshot, &vec![socket(Protocol::Tcp, 80, &[1])]).is_empty());
}

#[test]
fn process_filter_from_params_keeps_every_bound() {
    let mut p = params();
    p.max_cpu_usage = Some(single(1.0));
    p.max_memory = Some(2);
    p.max_read_from_disk = Some(3);
    p.max_written_to_disk = Some(4);
    p.min_cpu_usage = Some(single(5.0));
    p.min_memory = Some(6);
    p.min_read_from_disk = Some(7);
    p.min_written_to_disk = Some(8);
    p.name_regex = Some("x+".to_owned());
    p.tcp_port = Some(9);
    p.udp_port = Some(10);
    let f = Filter::try_from(p).ok().unwrap();
    assert_eq!(f.max_cpu_usage, Some(single(1.0)));
    assert_eq!(f.max_memory, Some(2));
    assert_eq!(f.max_read_from_disk, Some(3));
    assert_eq!(f.max_written_to_disk, Some(4));
    assert_eq!(f.min_cpu_usage, Some(single(5.0)));
    assert_eq!(f.min_memory, Some(6));
    assert_eq!(f.min_read_from_disk, Some(7));
    assert_eq!(f.min_written_to_disk, Some(8));
    assert_eq!(f.pattern(), Some("x+"));
    assert_eq!(f.tcp_port, Some(9));
    assert_eq!(f.udp_port, Some(10));
}

#[test]
fn process_filter_is_assembled_from_the_compiled_pattern() {
    let compiled = regex::Regex::new("d$").unwrap();
    let f = Filter::assemble(params(), Some(Ok(compiled))).ok().unwrap();
    assert_eq!(f.pattern(), Some("d$"));
    assert!(f.is_matching(&process(1, "sshd", 0.0)));
    assert!(!f.is_matching(&process(1, "bash", 0.0)));
    let failed = regex::Regex::new("(").unwrap_err();
    assert!(matches!(Filter::assemble(params(), Some(Err(failed))), Err(ToolError::Regex(_))));
    let f = Filter::assemble(params(), None).ok().unwrap();
    assert_eq!(f.pattern(), None);
}
