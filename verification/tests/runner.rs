use httpbench::observation_logger::SimpleLogger;
use httpbench::runner::{
    concurrency_level_line, end_banner, merge_all, results_line, start_banner, sweep_plan,
    SweepStep, Worker,
};
use httpbench::termination::TimeTermination;

#[test]
fn merge_all_concatenates_in_order() {
    let mut a = SimpleLogger::new();
    a.log_start_of_request_at(1000);
    a.log_end_of_request_at(false, 2000);
    let mut b = SimpleLogger::new();
    b.log_start_of_request_at(1500);
    b.log_end_of_request_at(true, 1600);
    let mut c = SimpleLogger::new();
    c.log_start_of_request_at(2500);
    c.log_end_of_request_at(false, 3000);

    let merged = merge_all(vec![a, b, c]);
    assert_eq!(merged.observations.len(), 3);
    assert_eq!(merged.completed_count(), 2);
    assert_eq!(merged.observations[0].start_millis, 1000);
    assert_eq!(merged.observations[1].start_millis, 1500);
    assert_eq!(merged.observations[2].start_millis, 2500);
    // span 1000..3000 -> 2 whole seconds, 2 completions -> 1.000
    assert_eq!(merged.render(), "RPS: 1.000");
}

#[test]
fn merge_all_of_nothing_is_empty() {
    let merged = merge_all(Vec::new());
    assert_eq!(merged.observations.len(), 0);
    assert_eq!(merged.render(), "No results");
}

#[test]
fn report_lines_read_as_expected() {
    assert_eq!(concurrency_level_line(4), "Concurrency level: 4");
    assert_eq!(concurrency_level_line(128), "Concurrency level: 128");
    assert_eq!(start_banner("srv"), "Starting benches on srv");
    assert_eq!(end_banner("srv"), "Ending benches on srv");
    let l = SimpleLogger::new();
    assert_eq!(results_line(&l), "Results: No results");
}

#[test]
fn sweep_plan_for_one_pair_and_three_levels() {
    let plan = sweep_plan(1, &vec![1, 2, 4]);
    assert_eq!(
        plan,
        vec![
            SweepStep::Start(0),
            SweepStep::RunLevel(0, 1),
            SweepStep::RunLevel(0, 2),
            SweepStep::RunLevel(0, 4),
            SweepStep::Stop(0),
        ]
    );
}

#[test]
fn sweep_plan_orders_pairs_and_levels() {
    let plan = sweep_plan(2, &vec![3, 5]);
    assert_eq!(
        plan,
        vec![
            SweepStep::Start(0),
            SweepStep::RunLevel(0, 3),
            SweepStep::RunLevel(0, 5),
            SweepStep::Stop(0),
            SweepStep::Start(1),
            SweepStep::RunLevel(1, 3),
            SweepStep::RunLevel(1, 5),
            SweepStep::Stop(1),
        ]
    );
}

#[test]
fn sweep_plan_for_nothing_is_empty() {
    assert_eq!(sweep_plan(0, &vec![1, 2]), vec![]);
    assert_eq!(sweep_plan(2, &vec![]), vec![
        SweepStep::Start(0),
        SweepStep::Stop(0),
        SweepStep::Start(1),
        SweepStep::Stop(1),
    ]);
}

#[test]
fn concurrency_sweep_runs_each_level_in_order() {
    // For levels [1, 2, 4] the planned sweep performs exactly three sub-runs
    // in order, spawns the stated number of workers for each, and produces
    // exactly three rendered result lines.
    let levels: Vec<usize> = vec![1, 2, 4];
    let termination = TimeTermination::new(0);
    let runtime = tokio::runtime::Builder::new_multi_thread()
        .worker_threads(4)
        .enable_all()
        .build()
        .unwrap();
    let plan = sweep_plan(1, &levels);
    assert_eq!(plan.len(), levels.len() + 2);
    let mut result_lines: Vec<String> = Vec::new();
    let mut workers_per_level: Vec<usize> = Vec::new();
    let run_levels = plan.iter().filter_map(|step| match step {
        SweepStep::RunLevel(0, level) => Some(*level),
        _ => None,
    });
    for level in run_levels {
        let loggers = runtime.block_on(async {
            let mut handles = Vec::new();
            for _ in 0..level {
                let t = termination.clone();
                handles.push(tokio::spawn(async move {
                    let mut w = Worker::start_loop(t);
                    loop {
                        w.begin_iteration();
                        let stop = w.finish_iteration(None);
                        if stop {
                            break;
                        }
                    }
                    w.into_logger()
                }));
            }
            let mut loggers = Vec::new();
            for h in handles {
                loggers.push(h.await.unwrap());
            }
            loggers
        });
        workers_per_level.push(loggers.len());
        let merged = merge_all(loggers);
        // zero-duration policy: each worker records exactly one observation
        assert_eq!(merged.observations.len(), level);
        result_lines.push(results_line(&merged));
    }
    assert_eq!(workers_per_level, vec![1, 2, 4]);
    assert_eq!(result_lines.len(), 3);
    for line in result_lines {
        assert!(line.starts_with("Results: "));
    }
}

#[test]
fn decimal_rendering_is_exact() {
    assert_eq!(concurrency_level_line(0), "Concurrency level: 0");
    assert_eq!(concurrency_level_line(1000), "Concurrency level: 1000");
    assert_eq!(concurrency_level_line(987654), "Concurrency level: 987654");
}
