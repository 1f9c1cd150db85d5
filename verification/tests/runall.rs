use zerosim_tools::runall::{
    experiment_cmd, lines, output_log_path, progress_prefix, results_path, results_source, runner_args, summary_line,
    MachinePool, RunResult,
};
use zerosim_tools::text::{parse_usize, split_whitespace, trim};

fn s(x: &str) -> String {
    x.to_string()
}

#[test]
fn lines_of_input_files() {
    assert_eq!(lines("a\r\nb\n\nc"), vec![s("a"), s("b"), s(""), s("c")]);
    assert_eq!(lines("x\n"), vec![s("x")]);
    assert_eq!(lines(""), Vec::<String>::new());
    assert_eq!(lines("a\r"), vec![s("a\r")]);
    assert_eq!(lines("m1:22\nm2:22\n"), "m1:22\nm2:22\n".lines().map(String::from).collect::<Vec<_>>());
}

#[test]
fn machine_pool_is_a_stack() {
    let mut p = MachinePool::new(vec![s("m1"), s("m2")]);
    assert_eq!(p.len(), 2);
    let a = p.acquire();
    assert_eq!(a, Some(s("m2")));
    p.release(s("m2"));
    assert_eq!(p.acquire(), Some(s("m2")));
    assert_eq!(p.acquire(), Some(s("m1")));
    assert_eq!(p.acquire(), None);
    assert_eq!(p.len(), 0);
    p.release(s("m1"));
    assert_eq!(p.len(), 1);
}

#[test]
fn experiment_commands() {
    assert_eq!(experiment_cmd("exp00000 {MACHINE} --x {MACHINE}", "h:1"), "exp00000 h:1 --x h:1");
    assert_eq!(output_log_path("exp {MACHINE} a/b"), "/tmp/exp__MACHINE__a/b");
    assert_eq!(
        runner_args("exp00000  h:1 --x"),
        vec![s("run"), s("--"), s("--print_results_path"), s("exp00000"), s("h:1"), s("--x")]
    );
    assert_eq!(results_path(&vec![s("RESULTS: r1"), s("RESULTS: r2")]), Some(s("r2")));
    assert_eq!(results_path(&vec![s("done")]), None);
    assert_eq!(results_source("h:22", "/x/y"), "h:/x/y");
}

#[test]
fn summary_lines() {
    assert_eq!(summary_line("c", &RunResult::NoOutput), "c NONE");
    assert_eq!(summary_line("c", &RunResult::Failed), "c FAILED");
    assert_eq!(summary_line("c d", &RunResult::Results(s("/p"))), "c d /p");
    assert_eq!(progress_prefix(0, 3), "[1/3]");
    assert_eq!(progress_prefix(9, 10), "[10/10]");
}

#[test]
fn text_helpers() {
    assert_eq!(trim("  a b \n"), "a b");
    assert_eq!(split_whitespace(" a  b\tc "), vec![s("a"), s("b"), s("c")]);
    assert_eq!(parse_usize("12"), Some(12));
    assert_eq!(parse_usize("1a"), None);
}
