use jf::cfg::{CommonCfg, JobCfg, MockCfg, SequentialCfg, Visibility, WatchCfg};
use jf::error::{JfError, JfResult};
use jf::job::{Job, MockParams, SequentialParams, WatchParams};
use jf::jobdef::{Agent, Jobdef, JobdefPool};

trait Fixture {
    fn fixture() -> Self;
}

impl Fixture for MockParams {
    fn fixture() -> Self {
        MockParams { each_sleep_time: 1, sleep_count: 3 }
    }
}

impl Fixture for MockCfg {
    fn fixture() -> Self {
        MockCfg { common: CommonCfg::default(), params: Fixture::fixture() }
    }
}

impl Fixture for WatchParams {
    fn fixture() -> Self {
        WatchParams { job: "fast".to_string(), watch_list: vec!["./tests/dummy_entities/*".to_string()] }
    }
}

#[test]
fn visibility_guard() -> JfResult<()> {
    let jobdef_public = Jobdef::new(
        "dummy".into(),
        JobCfg::Mock(MockCfg {
            common: CommonCfg::new(Visibility::Public, "".into()),
            params: Fixture::fixture(),
        }),
    )?;
    assert!(jobdef_public.visibility_guard(Agent::Job).is_ok());
    assert!(jobdef_public.visibility_guard(Agent::Cli).is_ok());

    let jobdef_private = Jobdef::new(
        "dummy".into(),
        JobCfg::Mock(MockCfg {
            common: CommonCfg::new(Visibility::Private, "".into()),
            params: Fixture::fixture(),
        }),
    )?;
    assert!(jobdef_private.visibility_guard(Agent::Job).is_ok());
    assert!(jobdef_private.visibility_guard(Agent::Cli).is_err());
    Ok(())
}

#[test]
fn pool_test() -> JfResult<()> {
    let pool = JobdefPool::new(vec![
        Jobdef::new(
            "job1".into(),
            JobCfg::Mock(MockCfg {
                common: CommonCfg::new(Visibility::Public, "job1-desc".into()),
                params: Fixture::fixture(),
            }),
        )?,
        Jobdef::new(
            "job2".into(),
            JobCfg::Mock(MockCfg {
                common: CommonCfg::new(Visibility::Public, "job2-desc".into()),
                params: Fixture::fixture(),
            }),
        )?,
        Jobdef::new(
            "job3".into(),
            JobCfg::Mock(MockCfg {
                common: CommonCfg::new(Visibility::Private, "job3-desc".into()),
                params: Fixture::fixture(),
            }),
        )?,
    ]);
    assert_eq!(pool.list_public().len(), 2);
    assert!(pool.validate().is_ok());
    assert!(pool.build("job1".into(), Agent::Job).is_ok());
    assert!(pool.build("job1".into(), Agent::Cli).is_ok());
    assert!(pool.build("job3".into(), Agent::Job).is_ok());
    assert!(pool.build("job3".into(), Agent::Cli).is_err());
    assert_eq!(pool.description("job1".into())?, "job1-desc");
    Ok(())
}

#[test]
fn fail() -> JfResult<()> {
    let pool = JobdefPool::new(vec![
        Jobdef::new("job1".into(), JobCfg::Mock(Fixture::fixture()))?,
        Jobdef::new("job2".into(), JobCfg::Mock(Fixture::fixture()))?,
        Jobdef::new(
            "job3".into(),
            JobCfg::Watch(WatchCfg {
                common: CommonCfg::new(Visibility::Private, "job3-desc".into()),
                params: Fixture::fixture(),
            }),
        )?,
    ]);
    assert_eq!(pool.list_public().len(), 2);
    assert!(pool.validate().is_err());
    assert!(pool.build("job1".into(), Agent::Job).is_ok());
    assert!(pool.build("job1".into(), Agent::Cli).is_ok());
    assert!(pool.build("job3".into(), Agent::Job).is_err());
    assert!(pool.build("job3".into(), Agent::Cli).is_err());
    assert_eq!(pool.description("job1".into())?, "");
    assert_eq!(pool.description("job3".into())?, "job3-desc");
    Ok(())
}

#[test]
fn later_definition_wins() -> JfResult<()> {
    let pool = JobdefPool::new(vec![
        Jobdef::new(
            "a".into(),
            JobCfg::Mock(MockCfg {
                common: CommonCfg::new(Visibility::Public, "first".into()),
                params: Fixture::fixture(),
            }),
        )?,
        Jobdef::new(
            "a".into(),
            JobCfg::Mock(MockCfg {
                common: CommonCfg::new(Visibility::Private, "second".into()),
                params: Fixture::fixture(),
            }),
        )?,
    ]);
    assert_eq!(pool.len(), 1);
    assert_eq!(pool.description("a".into())?, "second");
    assert!(pool.list_public().is_empty());
    assert!(matches!(
        pool.build("a".into(), Agent::Cli),
        Err(JfError::UnexpectedVisibilityPrivate(name)) if name == "a"
    ));
    Ok(())
}

#[test]
fn unknown_name_is_not_found() {
    let pool = JobdefPool::new(vec![]);
    assert!(matches!(
        pool.build("nothing".into(), Agent::Job),
        Err(JfError::JobdefNotFound(name)) if name == "nothing"
    ));
    assert!(matches!(pool.description("nothing".into()), Err(JfError::JobdefNotFound(_))));
    assert!(pool.validate().is_ok());
}

#[test]
fn validate_collects_every_error_in_order() -> JfResult<()> {
    let pool = JobdefPool::new(vec![
        Jobdef::new(
            "w".into(),
            JobCfg::Watch(WatchCfg { common: CommonCfg::default(), params: Fixture::fixture() }),
        )?,
        Jobdef::new(
            "s".into(),
            JobCfg::Sequential(SequentialCfg {
                common: CommonCfg::default(),
                params: SequentialParams { jobs: vec![] },
            }),
        )?,
        Jobdef::new("m".into(), JobCfg::Mock(Fixture::fixture()))?,
    ]);
    match pool.validate() {
        Err(JfError::Multi(errs)) => {
            assert_eq!(errs.len(), 2);
            assert!(matches!(&errs[0], JfError::JobdefNotFound(name) if name == "fast"));
            assert!(matches!(&errs[1], JfError::MustHaveAtLeastOneJob(mode) if mode == "sequential"));
        }
        _ => panic!("validation must fail with both errors"),
    }
    Ok(())
}

#[test]
fn build_gives_the_defined_mode() -> JfResult<()> {
    let pool = JobdefPool::new(vec![Jobdef::new("fast".into(), JobCfg::Mock(Fixture::fixture()))?]);
    match pool.build("fast".into(), Agent::Cli)? {
        Job::Mock(m) => assert_eq!(m.params, MockParams { each_sleep_time: 1, sleep_count: 3 }),
        _ => panic!("a mock job was defined"),
    }
    Ok(())
}

#[test]
fn cyclic_definitions_do_not_nest_within_any_depth() -> JfResult<()> {
    let pool = JobdefPool::new(vec![
        Jobdef::new(
            "a".into(),
            JobCfg::Watch(WatchCfg {
                common: CommonCfg::default(),
                params: WatchParams { job: "b".into(), watch_list: vec![] },
            }),
        )?,
        Jobdef::new(
            "b".into(),
            JobCfg::Watch(WatchCfg {
                common: CommonCfg::default(),
                params: WatchParams { job: "a".into(), watch_list: vec![] },
            }),
        )?,
    ]);
    assert!(!pool.nesting_within(pool.len() + 1));
    let acyclic = JobdefPool::new(vec![
        Jobdef::new("fast".into(), JobCfg::Mock(Fixture::fixture()))?,
        Jobdef::new(
            "watcher".into(),
            JobCfg::Watch(WatchCfg { common: CommonCfg::default(), params: Fixture::fixture() }),
        )?,
    ]);
    assert!(acyclic.nesting_within(acyclic.len() + 1));
    Ok(())
}

#[test]
fn try_from_pair() -> JfResult<()> {
    let jobdef = Jobdef::try_from(("x".to_string(), JobCfg::Mock(Fixture::fixture())))?;
    assert_eq!(jobdef.name(), "x");
    assert_eq!(jobdef.description(), "");
    assert_eq!(*jobdef.visibility(), Visibility::Public);
    Ok(())
}

#[test]
fn get_unknown_name_message() {
    let pool = JobdefPool::new(vec![]);
    match pool.get("dummy".to_string()) {
        Err(e) => assert_eq!(e.message(), "Jobdef(name=dummy) not found"),
        Ok(_) => panic!("an empty pool has no definition"),
    }
}

#[test]
fn error_messages() {
    assert_eq!(
        JfError::UnexpectedVisibilityPrivate("a".to_string()).message(),
        "job a is private and cannot be run directly"
    );
    assert_eq!(
        JfError::MustHaveAtLeastOneJob("sequential".to_string()).message(),
        "mode=sequential must have at least one job"
    );
    assert_eq!(
        JfError::FailedToHandleStdout("ls".to_string()).message(),
        "failed to handle the output of ls"
    );
    assert_eq!(JfError::Custom("boom".to_string()).message(), "boom");
    assert_eq!(JfError::Multi(vec![]).message(), "");
    assert_eq!(
        JfError::Multi(vec![
            JfError::JobdefNotFound("x".to_string()),
            JfError::Custom("boom".to_string()),
        ])
        .message(),
        "Jobdef(name=x) not found\nboom"
    );
}
