use zerosim_tools::jobserver::client::{
    is_usize, job_info, job_log_path, job_row, list_avail, list_jobs, parse_matrix_var, running_cell,
    sort_jids, stat_jobs, JobInfo, MachineInfo, RowKind,
};
use zerosim_tools::jobserver::proto::{JobServerReq, JobServerResp, Status};
use zerosim_tools::jobserver::runs::{
    copy_plan, host_part, prepare_cmd, results_path_in, run_outcome, scan_results, Outcome, SetupNext,
};
use zerosim_tools::jobserver::server::Server;
use zerosim_tools::jobserver::template::{
    cartesian_product, cmd_replace_machine, cmd_replace_vars, cmd_to_path, err_path,
};

fn s(x: &str) -> String {
    x.to_string()
}

fn job_id(r: JobServerResp) -> usize {
    match r {
        JobServerResp::JobId(j) => j,
        _ => panic!("not a job id"),
    }
}

fn status_of(sv: &mut Server, jid: usize) -> Status {
    match sv.handle_request(JobServerReq::JobStatus { jid }) {
        JobServerResp::JobStatus { status, .. } => status,
        _ => panic!("no such job"),
    }
}

#[test]
fn ping_answers_success() {
    let mut sv = Server::new(s("/runner"));
    assert!(matches!(sv.handle_request(JobServerReq::Ping), JobServerResp::Success));
}

#[test]
fn set_var_then_list_reads_latest_value() {
    let mut sv = Server::new(s("/runner"));
    sv.handle_request(JobServerReq::SetVar { name: s("x"), value: s("1") });
    sv.handle_request(JobServerReq::SetVar { name: s("y"), value: s("2") });
    sv.handle_request(JobServerReq::SetVar { name: s("x"), value: s("3") });
    match sv.handle_request(JobServerReq::ListVars) {
        JobServerResp::Vars(v) => {
            assert_eq!(v.len(), 2);
            assert!(v.contains(&(s("x"), s("3"))));
            assert!(v.contains(&(s("y"), s("2"))));
        },
        _ => panic!("expected vars"),
    }
}

#[test]
fn add_job_is_waiting_with_server_variables() {
    let mut sv = Server::new(s("/runner"));
    sv.handle_request(JobServerReq::SetVar { name: s("X"), value: s("7") });
    let jid = job_id(sv.handle_request(JobServerReq::AddJob { class: s("c"), cmd: s("run {X}"), cp_results: None }));
    assert_eq!(jid, 0);
    match sv.handle_request(JobServerReq::JobStatus { jid }) {
        JobServerResp::JobStatus { class, cmd, jid: j, status, variables } => {
            assert_eq!(class, "c");
            assert_eq!(cmd, "run {X}");
            assert_eq!(j, 0);
            assert!(matches!(status, Status::Waiting));
            assert_eq!(variables, vec![(s("X"), s("7"))]);
        },
        _ => panic!("expected a status"),
    }
}

#[test]
fn ids_are_fresh_across_kinds() {
    let mut sv = Server::new(s("/runner"));
    let a = job_id(sv.handle_request(JobServerReq::AddJob { class: s("c"), cmd: s("a"), cp_results: None }));
    let b = job_id(sv.handle_request(JobServerReq::SetUpMachine { addr: s("m:22"), class: None, cmds: vec![s("setup")] }));
    let c = job_id(sv.handle_request(JobServerReq::CloneJob { jid: a }));
    assert_eq!((a, b, c), (0, 1, 2));
    match sv.handle_request(JobServerReq::ListJobs) {
        JobServerResp::Jobs(mut ids) => {
            ids.sort();
            assert_eq!(ids, vec![0, 1, 2]);
        },
        _ => panic!("expected jobs"),
    }
}

#[test]
fn clone_of_missing_job_is_refused() {
    let mut sv = Server::new(s("/runner"));
    assert!(matches!(sv.handle_request(JobServerReq::CloneJob { jid: 4 }), JobServerResp::NoSuchJob));
}

#[test]
fn cancel_marks_job_cancelled() {
    let mut sv = Server::new(s("/runner"));
    let jid = job_id(sv.handle_request(JobServerReq::AddJob { class: s("c"), cmd: s("a"), cp_results: None }));
    assert!(matches!(sv.handle_request(JobServerReq::CancelJob { jid }), JobServerResp::Success));
    assert!(matches!(status_of(&mut sv, jid), Status::Cancelled));
    assert!(matches!(sv.handle_request(JobServerReq::CancelJob { jid: 99 }), JobServerResp::NoSuchJob));
}

#[test]
fn status_of_missing_job_is_refused() {
    let mut sv = Server::new(s("/runner"));
    assert!(matches!(sv.handle_request(JobServerReq::JobStatus { jid: 3 }), JobServerResp::NoSuchJob));
    assert!(matches!(sv.handle_request(JobServerReq::StatMatrix { id: 3 }), JobServerResp::NoSuchMatrix));
}

#[test]
fn machines_are_listed_and_removed() {
    let mut sv = Server::new(s("/runner"));
    sv.handle_request(JobServerReq::MakeAvailable { addr: s("a:22"), class: s("c1") });
    sv.handle_request(JobServerReq::MakeAvailable { addr: s("b:22"), class: s("c2") });
    sv.handle_request(JobServerReq::MakeAvailable { addr: s("a:22"), class: s("c3") });
    match sv.handle_request(JobServerReq::ListAvailable) {
        JobServerResp::Machines(ms) => {
            assert_eq!(ms.len(), 2);
            assert!(ms.contains(&(s("a:22"), s("c3"))));
            assert!(ms.contains(&(s("b:22"), s("c2"))));
        },
        _ => panic!("expected machines"),
    }
    assert!(matches!(sv.handle_request(JobServerReq::RemoveAvailable { addr: s("a:22") }), JobServerResp::Success));
    assert!(matches!(
        sv.handle_request(JobServerReq::RemoveAvailable { addr: s("a:22") }),
        JobServerResp::NoSuchMachine
    ));
}

#[test]
fn schedule_starts_job_on_idle_machine_of_its_class() {
    let mut sv = Server::new(s("/runner"));
    sv.handle_request(JobServerReq::MakeAvailable { addr: s("a:22"), class: s("other") });
    sv.handle_request(JobServerReq::MakeAvailable { addr: s("b:22"), class: s("c") });
    let jid = job_id(sv.handle_request(JobServerReq::AddJob { class: s("c"), cmd: s("a"), cp_results: None }));
    let step = sv.schedule();
    match step.started_job {
        Some((j, m)) => {
            assert_eq!(j, jid);
            assert_eq!(m, "b:22");
        },
        None => panic!("nothing started"),
    }
    match status_of(&mut sv, jid) {
        Status::Running { machine } => assert_eq!(machine, "b:22"),
        _ => panic!("not running"),
    }
    // The machine is busy now: a second job of the class waits.
    let j2 = job_id(sv.handle_request(JobServerReq::AddJob { class: s("c"), cmd: s("b"), cp_results: None }));
    let step2 = sv.schedule();
    assert!(step2.started_job.is_none());
    assert!(matches!(status_of(&mut sv, j2), Status::Waiting));
}

#[test]
fn schedule_removes_cancelled_job() {
    let mut sv = Server::new(s("/runner"));
    let jid = job_id(sv.handle_request(JobServerReq::AddJob { class: s("c"), cmd: s("a"), cp_results: None }));
    sv.handle_request(JobServerReq::CancelJob { jid });
    let step = sv.schedule();
    assert_eq!(step.removed_job, Some(jid));
    assert!(matches!(sv.handle_request(JobServerReq::JobStatus { jid }), JobServerResp::NoSuchJob));
}

#[test]
fn schedule_starts_setup_tasks() {
    let mut sv = Server::new(s("/runner"));
    let t = job_id(sv.handle_request(JobServerReq::SetUpMachine {
        addr: s("m:22"),
        class: Some(s("c")),
        cmds: vec![s("one"), s("two")],
    }));
    let step = sv.schedule();
    assert_eq!(step.started_tasks, vec![t]);
    match sv.handle_request(JobServerReq::JobStatus { jid: t }) {
        JobServerResp::JobStatus { class, cmd, status, .. } => {
            assert_eq!(class, "c");
            assert_eq!(cmd, "one");
            match status {
                Status::Running { machine } => assert_eq!(machine, "m:22"),
                _ => panic!("not running"),
            }
        },
        _ => panic!("expected a status"),
    }
    assert_eq!(sv.setup_task_step(t, 0, None), SetupNext::Run(0));
    assert_eq!(sv.setup_task_step(t, 1, Some(Outcome::NoResults)), SetupNext::Run(1));
    match sv.handle_request(JobServerReq::JobStatus { jid: t }) {
        JobServerResp::JobStatus { cmd, .. } => assert_eq!(cmd, "two"),
        _ => panic!("expected a status"),
    }
    assert_eq!(sv.setup_task_step(t, 2, Some(Outcome::Results(s("r")))), SetupNext::Finish);
    match sv.handle_request(JobServerReq::ListAvailable) {
        JobServerResp::Machines(ms) => assert_eq!(ms, vec![(s("m:22"), s("c"))]),
        _ => panic!("expected machines"),
    }
    match status_of(&mut sv, t) {
        Status::Done { machine, output } => {
            assert_eq!(machine, "m:22");
            assert!(output.is_none());
        },
        _ => panic!("not done"),
    }
}

#[test]
fn matrix_creates_one_job_per_configuration() {
    let mut sv = Server::new(s("/runner"));
    sv.handle_request(JobServerReq::SetVar { name: s("Z"), value: s("z") });
    let id = match sv.handle_request(JobServerReq::AddMatrix {
        vars: vec![(s("A"), vec![s("1"), s("2")]), (s("B"), vec![s("x"), s("y"), s("w")])],
        cmd: s("run {A} {B} {Z}"),
        class: s("c"),
        cp_results: Some(s("/res")),
    }) {
        JobServerResp::MatrixId(id) => id,
        _ => panic!("expected a matrix id"),
    };
    assert_eq!(id, 0);
    match sv.handle_request(JobServerReq::StatMatrix { id }) {
        JobServerResp::MatrixStatus { cmd, class, cp_results, id: i, jobs, variables } => {
            assert_eq!(cmd, "run {A} {B} {Z}");
            assert_eq!(class, "c");
            assert_eq!(cp_results, Some(s("/res")));
            assert_eq!(i, 0);
            assert_eq!(jobs, vec![1, 2, 3, 4, 5, 6]);
            assert_eq!(variables.len(), 3);
            assert_eq!(variables[2], (s("Z"), vec![s("z")]));
        },
        _ => panic!("expected a matrix status"),
    }
    match sv.handle_request(JobServerReq::JobStatus { jid: 1 }) {
        JobServerResp::JobStatus { cmd, .. } => assert_eq!(cmd, "run 1 x z"),
        _ => panic!("expected a status"),
    }
    match sv.handle_request(JobServerReq::JobStatus { jid: 6 }) {
        JobServerResp::JobStatus { cmd, .. } => assert_eq!(cmd, "run 2 w z"),
        _ => panic!("expected a status"),
    }
}

#[test]
fn matrix_values_override_server_variable() {
    let mut sv = Server::new(s("/runner"));
    sv.handle_request(JobServerReq::SetVar { name: s("A"), value: s("s") });
    sv.handle_request(JobServerReq::SetVar { name: s("B"), value: s("b") });
    let id = match sv.handle_request(JobServerReq::AddMatrix {
        vars: vec![(s("A"), vec![s("1"), s("2")])],
        cmd: s("run {A} {B}"),
        class: s("c"),
        cp_results: None,
    }) {
        JobServerResp::MatrixId(id) => id,
        _ => panic!("expected a matrix id"),
    };
    assert_eq!(id, 0);
    match sv.handle_request(JobServerReq::ListJobs) {
        JobServerResp::Jobs(ids) => assert_eq!(ids, vec![1, 2]),
        _ => panic!("expected jobs"),
    }
    match sv.handle_request(JobServerReq::JobStatus { jid: 1 }) {
        JobServerResp::JobStatus { cmd, .. } => assert_eq!(cmd, "run 1 b"),
        _ => panic!("expected a status"),
    }
    match sv.handle_request(JobServerReq::JobStatus { jid: 2 }) {
        JobServerResp::JobStatus { cmd, .. } => assert_eq!(cmd, "run 2 b"),
        _ => panic!("expected a status"),
    }
    match sv.handle_request(JobServerReq::StatMatrix { id: 0 }) {
        JobServerResp::MatrixStatus { jobs, variables, .. } => {
            assert_eq!(jobs, vec![1, 2]);
            assert_eq!(variables, vec![(s("A"), vec![s("1"), s("2")]), (s("B"), vec![s("b")])]);
        },
        _ => panic!("expected a matrix status"),
    }
}

#[test]
fn finish_job_records_outcome_and_frees_machine() {
    let mut sv = Server::new(s("/runner"));
    sv.handle_request(JobServerReq::MakeAvailable { addr: s("m:22"), class: s("c") });
    let jid = job_id(sv.handle_request(JobServerReq::AddJob { class: s("c"), cmd: s("a"), cp_results: Some(s("/dst")) }));
    sv.schedule();
    let run = sv.job_run(jid).unwrap();
    assert_eq!(run.machine, "m:22");
    assert_eq!(run.cp_results, Some(s("/dst")));
    sv.finish_job(jid, &run.machine, Outcome::Results(s("out.json")));
    match status_of(&mut sv, jid) {
        Status::Done { machine, output } => {
            assert_eq!(machine, "m:22");
            assert_eq!(output, Some(s("out.json")));
        },
        _ => panic!("not done"),
    }
    let j2 = job_id(sv.handle_request(JobServerReq::AddJob { class: s("c"), cmd: s("b"), cp_results: None }));
    let step = sv.schedule();
    assert_eq!(step.started_job.map(|p| p.0), Some(j2));
}

#[test]
fn task_failure_is_recorded() {
    let mut sv = Server::new(s("/runner"));
    let t = job_id(sv.handle_request(JobServerReq::SetUpMachine { addr: s("m:22"), class: None, cmds: vec![s("x")] }));
    sv.handle_request(JobServerReq::MakeAvailable { addr: s("other:22"), class: s("c") });
    assert_eq!(sv.setup_task_step(t, 0, None), SetupNext::Run(0));
    assert_eq!(sv.setup_task_step(t, 1, Some(Outcome::Failed(s("Job failed.")))), SetupNext::Stop);
    match sv.handle_request(JobServerReq::ListAvailable) {
        JobServerResp::Machines(ms) => assert_eq!(ms, vec![(s("other:22"), s("c"))]),
        _ => panic!("expected machines"),
    }
    match status_of(&mut sv, t) {
        Status::Failed { machine, error } => {
            assert_eq!(machine, Some(s("m:22")));
            assert_eq!(error, "Job failed.");
        },
        _ => panic!("not failed"),
    }
}

#[test]
fn template_substitution() {
    let vars = vec![(s("A"), s("1")), (s("B"), s("two"))];
    assert_eq!(cmd_replace_vars("x {A} {B} {A} {C}", &vars), "x 1 two 1 {C}");
    assert_eq!(cmd_replace_machine("exp {MACHINE} --m {MACHINE}", "h:22"), "exp h:22 --m h:22");
}

#[test]
fn log_path_of_command() {
    assert_eq!(cmd_to_path("exp00000 {MACHINE} a/b"), "/tmp/exp00000__MACHINE__a_b");
    assert_eq!(err_path("/tmp/x"), "/tmp/x.err");
}

#[test]
fn log_path_is_cut_to_200_bytes() {
    let long = "a".repeat(300);
    let p = cmd_to_path(&long);
    assert_eq!(p.len(), 200);
    assert!(p.starts_with("/tmp/aaa"));
}

#[test]
fn cartesian_product_of_variables() {
    let vars = vec![(s("a"), vec![s("1"), s("2")]), (s("b"), vec![s("x"), s("y")])];
    let p = cartesian_product(&vars);
    assert_eq!(
        p,
        vec![
            vec![(s("a"), s("1")), (s("b"), s("x"))],
            vec![(s("a"), s("1")), (s("b"), s("y"))],
            vec![(s("a"), s("2")), (s("b"), s("x"))],
            vec![(s("a"), s("2")), (s("b"), s("y"))],
        ]
    );
    assert_eq!(cartesian_product(&vec![]), vec![Vec::<(String, String)>::new()]);
    assert_eq!(cartesian_product(&vec![(s("a"), vec![])]).len(), 0);
}

#[test]
fn prepared_command_and_results() {
    let vars = vec![(s("N"), s("5"))];
    let p = prepare_cmd("exp {MACHINE} --n {N}", &vars, "h:22");
    assert_eq!(p.cmd, "exp h:22 --n 5");
    assert_eq!(p.out_file, "/tmp/exp_h:22_--n_5");
    assert_eq!(p.err_file, "/tmp/exp_h:22_--n_5.err");
    assert_eq!(p.args, vec![s("exp"), s("h:22"), s("--n"), s("5")]);
    assert_eq!(results_path_in("RESULTS: out.json"), Some(s("out.json")));
    assert_eq!(results_path_in("results: out.json"), None);
    let lines = vec![s("RESULTS: a"), s("noise"), s("RESULTS: b"), s("more")];
    assert_eq!(scan_results(&lines), Some(s("b")));
    assert_eq!(scan_results(&vec![s("x")]), None);
}

#[test]
fn outcome_of_a_run() {
    assert!(matches!(run_outcome(Some(s("p")), true), Outcome::Results(p) if p == "p"));
    assert!(matches!(run_outcome(None, true), Outcome::NoResults));
    assert!(matches!(run_outcome(Some(s("p")), false), Outcome::Failed(e) if e == "Job failed."));
}

#[test]
fn copying_results_back() {
    assert_eq!(host_part("host.example:22"), "host.example");
    assert_eq!(host_part("nocolon"), "nocolon");
    let plan = copy_plan("h:22", &Some(s("/dst")), &Outcome::Results(s("r.out")));
    assert_eq!(plan, Some((s("h:vm_shared/results/r.out"), s("/dst"))));
    assert_eq!(copy_plan("h:22", &None, &Outcome::Results(s("r.out"))), None);
    assert_eq!(copy_plan("h:22", &Some(s("/dst")), &Outcome::NoResults), None);
}

fn info(jid: usize, status: Status) -> JobInfo {
    JobInfo { class: s("c"), cmd: s("a very long command that is longer than thirty bytes"), jid, status, variables: vec![] }
}

#[test]
fn job_rows_of_each_status() {
    let r = job_row(info(1, Status::Waiting), false);
    assert!(matches!(r.kind, RowKind::Waiting));
    assert_eq!(r.cmd, "a very long command that is lo");
    assert_eq!(r.machine, "");
    let r = job_row(info(2, Status::Done { machine: s("m"), output: Some(s("o.json")) }), false);
    assert!(matches!(r.kind, RowKind::DoneWithOutput));
    assert_eq!(r.output, "Ready");
    let r = job_row(info(2, Status::Done { machine: s("m"), output: Some(s("o.json")) }), true);
    assert_eq!(r.output, "o.json");
    assert_eq!(r.cmd, "a very long command that is longer than thirty bytes");
    let r = job_row(info(3, Status::Failed { machine: None, error: s("boom") }), false);
    assert!(matches!(r.kind, RowKind::Failed));
    assert_eq!(r.machine, "");
    assert_eq!(r.output, "boom");
    let r = job_row(info(4, Status::Running { machine: s("m2") }), false);
    assert!(matches!(r.kind, RowKind::Running));
    assert_eq!(r.machine, "m2");
    let r = job_row(info(5, Status::Cancelled), false);
    assert!(matches!(r.kind, RowKind::Cancelled));
    let r = job_row(info(6, Status::Done { machine: s("m"), output: None }), false);
    assert!(matches!(r.kind, RowKind::Done));
    assert_eq!(r.jid, 6);
}

#[test]
fn machines_listing_is_sorted_with_running_jobs() {
    let avail = JobServerResp::Machines(vec![(s("z:1"), s("b")), (s("y:1"), s("a")), (s("x:1"), s("b"))]);
    let jobs = vec![info(7, Status::Running { machine: s("x:1") }), info(8, Status::Waiting)];
    let ms = list_avail(avail, jobs);
    let view: Vec<(String, String, Option<usize>)> = ms.iter().map(|m| (m.addr.clone(), m.class.clone(), m.running)).collect();
    assert_eq!(view, vec![(s("y:1"), s("a"), None), (s("x:1"), s("b"), Some(7)), (s("z:1"), s("b"), None)]);
    assert_eq!(running_cell(&MachineInfo { addr: s("x"), class: s("b"), running: Some(12) }), "12");
    assert_eq!(running_cell(&MachineInfo { addr: s("x"), class: s("b"), running: None }), "");
}

#[test]
fn job_listing_order_and_statuses() {
    let mut ids = vec![5, 1, 3, 1];
    sort_jids(&mut ids);
    assert_eq!(ids, vec![1, 1, 3, 5]);
    assert_eq!(list_jobs(JobServerResp::Jobs(vec![9, 2, 4])), vec![2, 4, 9]);
    let answers = vec![
        JobServerResp::JobStatus { class: s("c"), cmd: s("a"), jid: 2, status: Status::Waiting, variables: vec![] },
        JobServerResp::NoSuchJob,
        JobServerResp::JobStatus { class: s("d"), cmd: s("b"), jid: 4, status: Status::Cancelled, variables: vec![] },
    ];
    let jobs = stat_jobs(answers);
    assert_eq!(jobs.iter().map(|j| j.jid).collect::<Vec<_>>(), vec![2, 4]);
    assert!(job_info(JobServerResp::NoSuchJob).is_none());
}

#[test]
fn job_log_path_follows_machine() {
    let vars = vec![(s("N"), s("1"))];
    assert_eq!(job_log_path("exp {MACHINE} {N}", &Status::Running { machine: s("h:2") }, &vars), "/tmp/exp_h:2_1");
    assert_eq!(job_log_path("exp {MACHINE} {N}", &Status::Waiting, &vars), "/dev/null");
    assert_eq!(
        job_log_path("exp", &Status::Failed { machine: None, error: s("e") }, &vars),
        "/dev/null"
    );
}

#[test]
fn matrix_variable_argument() {
    let (k, v) = parse_matrix_var("SIZE=1,2,,3");
    assert_eq!(k, "SIZE");
    assert_eq!(v, vec![s("1"), s("2"), s(""), s("3")]);
    let (k, v) = parse_matrix_var("A=b=c");
    assert_eq!(k, "A");
    assert_eq!(v, vec![s("b=c")]);
}

#[test]
fn usize_arguments() {
    assert_eq!(is_usize(s("42")), Ok(()));
    assert_eq!(is_usize(s("+7")), Ok(()));
    assert_eq!(is_usize(s("4x")), Err(s("ParseIntError { kind: InvalidDigit }")));
    assert_eq!(is_usize(s("")), Err(s("ParseIntError { kind: Empty }")));
    assert_eq!(is_usize(s("99999999999999999999999")), Err(s("ParseIntError { kind: PosOverflow }")));
}

#[test]
fn finished_setup_task_adds_machine_to_class() {
    let mut sv = Server::new(s("/runner"));
    let t = job_id(sv.handle_request(JobServerReq::SetUpMachine {
        addr: s("m:22"),
        class: Some(s("big")),
        cmds: vec![s("setup")],
    }));
    sv.schedule();
    assert_eq!(sv.setup_task_step(t, 0, None), SetupNext::Run(0));
    match sv.handle_request(JobServerReq::ListAvailable) {
        JobServerResp::Machines(ms) => assert!(ms.is_empty()),
        _ => panic!("expected machines"),
    }
    assert_eq!(sv.setup_task_step(t, 1, Some(Outcome::NoResults)), SetupNext::Finish);
    match sv.handle_request(JobServerReq::ListAvailable) {
        JobServerResp::Machines(ms) => assert_eq!(ms, vec![(s("m:22"), s("big"))]),
        _ => panic!("expected machines"),
    }
    assert_eq!(sv.setup_task_step(99, 0, None), SetupNext::Stop);
}

#[test]
fn adding_then_removing_a_machine_restores_the_pool() {
    let mut sv = Server::new(s("/runner"));
    sv.handle_request(JobServerReq::MakeAvailable { addr: s("a:22"), class: s("c") });
    sv.handle_request(JobServerReq::MakeAvailable { addr: s("b:22"), class: s("d") });
    assert!(matches!(sv.handle_request(JobServerReq::RemoveAvailable { addr: s("b:22") }), JobServerResp::Success));
    match sv.handle_request(JobServerReq::ListAvailable) {
        JobServerResp::Machines(ms) => assert_eq!(ms, vec![(s("a:22"), s("c"))]),
        _ => panic!("expected machines"),
    }
}

#[test]
fn removing_a_busy_machine_cancels_its_job() {
    let mut sv = Server::new(s("/runner"));
    sv.handle_request(JobServerReq::MakeAvailable { addr: s("a:22"), class: s("c") });
    let jid = job_id(sv.handle_request(JobServerReq::AddJob { class: s("c"), cmd: s("x"), cp_results: None }));
    sv.schedule();
    sv.handle_request(JobServerReq::RemoveAvailable { addr: s("a:22") });
    assert!(matches!(status_of(&mut sv, jid), Status::Cancelled));
}

#[test]
fn admission_of_requests() {
    let sv = Server::new(s("/runner"));
    assert!(sv.can_handle(&JobServerReq::Ping));
    assert!(sv.can_handle(&JobServerReq::AddJob { class: s("c"), cmd: s("x"), cp_results: None }));
    let huge: Vec<String> = (0..1000).map(|i| i.to_string()).collect();
    let vars = vec![
        (s("A"), huge.clone()),
        (s("B"), huge.clone()),
        (s("C"), huge.clone()),
        (s("D"), huge.clone()),
        (s("E"), huge.clone()),
        (s("F"), huge.clone()),
        (s("G"), huge.clone()),
    ];
    assert!(!sv.can_handle(&JobServerReq::AddMatrix { vars, cmd: s("x"), class: s("c"), cp_results: None }));
    let vars = vec![(s("A"), huge.clone()), (s("B"), vec![])];
    assert!(sv.can_handle(&JobServerReq::AddMatrix { vars, cmd: s("x"), class: s("c"), cp_results: None }));
    assert!(sv.can_handle(&JobServerReq::JobStatus { jid: 5 }));
}

#[test]
fn status_of_setup_task_without_commands_is_not_answerable() {
    let mut sv = Server::new(s("/runner"));
    let t = job_id(sv.handle_request(JobServerReq::SetUpMachine { addr: s("m:22"), class: None, cmds: vec![] }));
    assert!(!sv.can_handle(&JobServerReq::JobStatus { jid: t }));
    assert!(sv.can_handle(&JobServerReq::CancelJob { jid: t }));
}

#[test]
fn ids_are_issued_in_order() {
    let mut sv = Server::new(s("/runner"));
    assert_eq!(job_id(sv.handle_request(JobServerReq::AddJob { class: s("c"), cmd: s("a"), cp_results: None })), 0);
    let task = sv.handle_request(JobServerReq::SetUpMachine { addr: s("m:22"), class: None, cmds: vec![s("x")] });
    assert_eq!(job_id(task), 1);
    match sv.handle_request(JobServerReq::AddMatrix {
        vars: vec![(s("v"), vec![s("1"), s("2")])],
        cmd: s("run {v}"),
        class: s("c"),
        cp_results: None,
    }) {
        JobServerResp::MatrixId(id) => assert_eq!(id, 2),
        _ => panic!("expected a matrix id"),
    }
    assert_eq!(job_id(sv.handle_request(JobServerReq::CloneJob { jid: 0 })), 5);
    assert!(matches!(sv.handle_request(JobServerReq::CloneJob { jid: 2 }), JobServerResp::NoSuchJob));
    assert_eq!(job_id(sv.handle_request(JobServerReq::AddJob { class: s("c"), cmd: s("b"), cp_results: None })), 6);
    match sv.handle_request(JobServerReq::ListJobs) {
        JobServerResp::Jobs(ids) => assert_eq!(ids, vec![0, 3, 4, 5, 6, 1]),
        _ => panic!("expected jobs"),
    }
}

#[test]
fn jobs_keep_the_variables_of_their_creation() {
    let mut sv = Server::new(s("/runner"));
    sv.handle_request(JobServerReq::SetVar { name: s("x"), value: s("0") });
    let old = job_id(sv.handle_request(JobServerReq::AddJob { class: s("c"), cmd: s("run {x}"), cp_results: None }));
    assert!(matches!(sv.handle_request(JobServerReq::SetVar { name: s("x"), value: s("1") }), JobServerResp::Success));
    let new = job_id(sv.handle_request(JobServerReq::AddJob { class: s("c"), cmd: s("run {x}"), cp_results: None }));
    match sv.handle_request(JobServerReq::JobStatus { jid: old }) {
        JobServerResp::JobStatus { variables, .. } => assert_eq!(variables, vec![(s("x"), s("0"))]),
        _ => panic!("expected a status"),
    }
    match sv.handle_request(JobServerReq::JobStatus { jid: new }) {
        JobServerResp::JobStatus { variables, .. } => assert_eq!(variables, vec![(s("x"), s("1"))]),
        _ => panic!("expected a status"),
    }
}

#[test]
fn client_log_path_is_the_server_output_file() {
    let vars = vec![(s("n"), s("4"))];
    let cmd = "run {n} on {MACHINE}";
    let status = Status::Running { machine: s("host:22") };
    let prepared = prepare_cmd(cmd, &vars, "host:22");
    assert_eq!(job_log_path(cmd, &status, &vars), prepared.out_file);
    assert_eq!(prepared.out_file, "/tmp/run_4_on_host:22");
    assert_eq!(job_log_path(cmd, &Status::Waiting, &vars), "/dev/null");
}

#[test]
fn substitution_order_does_not_matter() {
    let ab = vec![(s("a"), s("1")), (s("b"), s("2"))];
    let ba = vec![(s("b"), s("2")), (s("a"), s("1"))];
    let cmd = "run {a} {b} {a} on {MACHINE}";
    assert_eq!(cmd_replace_vars(cmd, &ab), "run 1 2 1 on {MACHINE}");
    assert_eq!(cmd_replace_vars(cmd, &ba), "run 1 2 1 on {MACHINE}");
    assert_eq!(cmd_replace_vars("plain", &ab), "plain");
    // With nested braces the order can matter.
    let chain = vec![(s("a"), s("b")), (s("b"), s("z"))];
    let chain_rev = vec![(s("b"), s("z")), (s("a"), s("b"))];
    assert_eq!(cmd_replace_vars("{{a}}", &chain), "z");
    assert_eq!(cmd_replace_vars("{{a}}", &chain_rev), "{b}");
}

#[test]
fn cancelled_jobs_leave_one_per_round() {
    let mut sv = Server::new(s("/runner"));
    let a = job_id(sv.handle_request(JobServerReq::AddJob { class: s("c"), cmd: s("a"), cp_results: None }));
    let b = job_id(sv.handle_request(JobServerReq::AddJob { class: s("c"), cmd: s("b"), cp_results: None }));
    let c = job_id(sv.handle_request(JobServerReq::AddJob { class: s("c"), cmd: s("c"), cp_results: None }));
    let t = job_id(sv.handle_request(JobServerReq::SetUpMachine { addr: s("m:22"), class: None, cmds: vec![s("x")] }));
    sv.handle_request(JobServerReq::CancelJob { jid: a });
    sv.handle_request(JobServerReq::CancelJob { jid: c });
    sv.handle_request(JobServerReq::CancelJob { jid: t });
    let first = sv.schedule();
    assert_eq!(first.removed_job, Some(a));
    assert_eq!(first.removed_task, Some(t));
    let second = sv.schedule();
    assert_eq!(second.removed_job, Some(c));
    assert_eq!(second.removed_task, None);
    assert_eq!(sv.schedule().removed_job, None);
    match sv.handle_request(JobServerReq::ListJobs) {
        JobServerResp::Jobs(ids) => assert_eq!(ids, vec![b]),
        _ => panic!("expected jobs"),
    }
}
