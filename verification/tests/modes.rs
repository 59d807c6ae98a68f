use jf::cfg::{CommonCfg, JobCfg, MockCfg, ParallelCfg, ShellCfg};
use jf::error::{JfError, JfResult};
use jf::job::modes::{Parallel, Sequential, Shell, Watch};
use jf::job::{Job, MockParams, ParallelParams, SequentialParams, ShellParams, WatchParams};
use jf::jobdef::{Jobdef, JobdefPool};

fn mock_cfg() -> JobCfg {
    JobCfg::Mock(MockCfg {
        common: CommonCfg::default(),
        params: MockParams { each_sleep_time: 1, sleep_count: 3 },
    })
}

fn fixture_pool() -> JfResult<JobdefPool> {
    Ok(JobdefPool::new(vec![Jobdef::new("fast".into(), mock_cfg())?]))
}

fn watch_list() -> Vec<String> {
    vec!["./tests/dummy_entities/*".to_string()]
}

#[test]
fn sequential_invalid_new_with_empty_job() -> JfResult<()> {
    let params = SequentialParams { jobs: vec![] };
    let must_fail = Sequential::new(params, &fixture_pool()?);
    assert!(must_fail.is_err());
    Ok(())
}

#[test]
fn tests_invalid_new_with_empty_job() -> JfResult<()> {
    let params = SequentialParams { jobs: vec![] };
    let must_faile = Sequential::new(params, &fixture_pool()?);
    assert!(must_faile.is_err());
    Ok(())
}

#[test]
fn sequential_invalid_new_with_unknown_job() -> JfResult<()> {
    let params = SequentialParams { jobs: vec!["unknown".into()] };
    let must_fail = Sequential::new(params, &fixture_pool()?);
    assert!(must_fail.is_err());
    Ok(())
}

#[test]
fn parallel_invalid_new_with_unknown_job() {
    let must_fail = Parallel::new(
        ParallelParams { jobs: vec!["mock".into(), "mock".into()] },
        &JobdefPool::new(vec![]),
    );
    assert!(must_fail.is_err());
}

#[test]
fn watch_invalid_new_with_unknown_job() -> JfResult<()> {
    let params = WatchParams { job: "unknown".to_string(), watch_list: watch_list() };
    assert!(Watch::new(params, &fixture_pool()?).is_err());
    Ok(())
}

#[test]
fn tests_invalid_new_with_unknown_job() -> JfResult<()> {
    let must_fail = Parallel::new(
        ParallelParams { jobs: vec!["mock".into(), "mock".into()] },
        &JobdefPool::new(vec![]),
    );
    assert!(must_fail.is_err());
    let must_fail = Sequential::new(SequentialParams { jobs: vec!["unknown".into()] }, &fixture_pool()?);
    assert!(must_fail.is_err());
    let params = WatchParams { job: "unknown".to_string(), watch_list: watch_list() };
    assert!(Watch::new(params, &fixture_pool()?).is_err());
    Ok(())
}

#[test]
fn parallel_new() -> JfResult<()> {
    let p = Parallel::new(ParallelParams { jobs: vec!["fast".into(), "fast".into()] }, &fixture_pool()?)?;
    assert_eq!(p.jobs.len(), 2);
    Ok(())
}

#[test]
fn sequential_new() -> JfResult<()> {
    Sequential::new(SequentialParams { jobs: vec!["fast".into(), "fast".into()] }, &fixture_pool()?)?;
    Ok(())
}

#[test]
fn tests_new() -> JfResult<()> {
    let p = Parallel::new(ParallelParams { jobs: vec!["fast".into(), "fast".into()] }, &fixture_pool()?)?;
    assert_eq!(p.jobs.len(), 2);
    let s = Sequential::new(SequentialParams { jobs: vec!["fast".into(), "fast".into()] }, &fixture_pool()?)?;
    assert_eq!(s.jobs.len(), 2);
    let w = Watch::new(WatchParams { job: "fast".to_string(), watch_list: watch_list() }, &fixture_pool()?)?;
    assert_eq!(w.watch_list, watch_list());
    Ok(())
}

#[test]
fn watch_new() -> JfResult<()> {
    let w = Watch::new(WatchParams { job: "fast".to_string(), watch_list: watch_list() }, &fixture_pool()?)?;
    assert!(matches!(*w.job, Job::Mock(_)));
    Ok(())
}

#[test]
fn sequential_stops_at_the_first_unknown_name() -> JfResult<()> {
    let res = Sequential::new(
        SequentialParams { jobs: vec!["fast".into(), "first".into(), "second".into()] },
        &fixture_pool()?,
    );
    assert!(matches!(res, Err(JfError::JobdefNotFound(name)) if name == "first"));
    Ok(())
}

#[test]
fn empty_sequential_error_names_the_mode() -> JfResult<()> {
    let res = Sequential::new(SequentialParams { jobs: vec![] }, &fixture_pool()?);
    assert!(matches!(res, Err(JfError::MustHaveAtLeastOneJob(mode)) if mode == "sequential"));
    Ok(())
}

#[test]
fn empty_parallel_is_allowed() -> JfResult<()> {
    let p = Parallel::new(ParallelParams { jobs: vec![] }, &fixture_pool()?)?;
    assert!(p.jobs.is_empty());
    Ok(())
}

#[test]
fn shell_runs_sh_with_c() {
    let shell = Shell::new(ShellParams { script: "echo hello".to_string(), args: None });
    assert_eq!(shell.command.params.command, "sh");
    assert_eq!(shell.command.params.args, vec!["-c".to_string(), "echo hello".to_string()]);
    let shell = Shell::new(ShellParams {
        script: "echo $0".to_string(),
        args: Some(vec!["-e".to_string()]),
    });
    assert_eq!(shell.command.params.args, vec!["-e".to_string(), "-c".to_string(), "echo $0".to_string()]);
}

#[test]
fn job_new_nests_definitions() -> JfResult<()> {
    let pool = JobdefPool::new(vec![
        Jobdef::new("fast".into(), mock_cfg())?,
        Jobdef::new(
            "sh".into(),
            JobCfg::Shell(ShellCfg {
                common: CommonCfg::default(),
                params: ShellParams { script: "true".into(), args: None },
            }),
        )?,
    ]);
    let cfg = JobCfg::Parallel(ParallelCfg {
        common: CommonCfg::default(),
        params: ParallelParams { jobs: vec!["sh".into(), "fast".into()] },
    });
    match Job::new(&cfg, &pool)? {
        Job::Parallel(p) => {
            assert_eq!(p.jobs.len(), 2);
            assert!(matches!(&p.jobs[0], Job::Shell(s) if s.command.params.command == "sh"));
            assert!(matches!(&p.jobs[1], Job::Mock(_)));
        }
        _ => panic!("a parallel job was configured"),
    }
    Ok(())
}
