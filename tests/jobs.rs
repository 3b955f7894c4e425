use gosh_runner::job::{is_plain_file_name, Computation, DoneProbe, Job, JobError, Jobs};
use gosh_runner::text::join_path;

#[test]
fn new_job_has_default_names() {
    let job = Job::new("echo hi > job.out");
    assert_eq!(job.script(), "echo hi > job.out");
    assert_eq!(job.input(), "");
    assert_eq!(job.inp_file_name(), "job.inp");
    assert_eq!(job.out_file_name(), "job.out");
    assert_eq!(job.err_file_name(), "job.err");
    assert_eq!(job.run_file_name(), "run");
    assert!(job.extra_file_names().is_empty());
}

#[test]
fn attach_file_skips_duplicates() {
    let mut job = Job::new("true");
    job.attach_file("a.dat");
    job.attach_file("b.dat");
    job.attach_file("a.dat");
    job.attach_file("b.dat/");
    assert_eq!(job.extra_file_names(), &vec!["a.dat".to_string(), "b.dat".to_string()]);
}

#[test]
fn computation_paths() {
    let mut job = Job::new("true");
    job.attach_file("x.dat");
    let comp = Computation::new(job, "/tmp/wd".to_string());
    assert_eq!(comp.wrk_dir(), "/tmp/wd");
    assert_eq!(comp.inp_file(), "/tmp/wd/job.inp");
    assert_eq!(comp.out_file(), "/tmp/wd/job.out");
    assert_eq!(comp.err_file(), "/tmp/wd/job.err");
    assert_eq!(comp.run_file(), "/tmp/wd/run");
    assert_eq!(comp.extra_files(), vec!["/tmp/wd/x.dat".to_string()]);
}

#[test]
fn file_names_outside_the_directory_are_refused() {
    let comp = Computation::new(Job::new("true"), "/tmp/wd/".to_string());
    assert_eq!(comp.file_path("job.out"), Ok("/tmp/wd/job.out".to_string()));
    for bad in ["", ".", "..", "../etc/passwd", "a/b", "/etc/passwd", "a\0b"] {
        assert_eq!(comp.file_path(bad), Err(JobError::BadFileName));
        assert!(!is_plain_file_name(bad));
    }
    assert!(is_plain_file_name("...x"));
}

#[test]
fn join_path_like_std() {
    assert_eq!(join_path("/a", "b"), "/a/b");
    assert_eq!(join_path("/a/", "b"), "/a/b");
    assert_eq!(join_path("", "b"), "b");
    assert_eq!(join_path("/a", "/b"), "/b");
}

#[test]
fn done_test() {
    let comp = Computation::new(Job::new("true"), "wd".to_string());
    let p = |d, o, i| DoneProbe { wrk_dir_exists: d, out_modified: o, inp_modified: i };
    assert!(comp.is_done(p(true, Some(5), Some(5))));
    assert!(comp.is_done(p(true, Some(6), Some(5))));
    assert!(!comp.is_done(p(true, Some(4), Some(5))));
    assert!(!comp.is_done(p(false, Some(6), Some(5))));
    assert!(!comp.is_done(p(true, None, Some(5))));
    assert!(!comp.is_done(p(true, Some(5), None)));
}

fn comp(script: &str) -> Computation {
    Computation::new(Job::new(script), format!("wd-{script}"))
}

#[test]
fn ids_start_at_one_and_are_never_reused() {
    let mut jobs: Jobs<u8> = Jobs::new();
    assert_eq!(jobs.insert(comp("a"), 0), 1);
    assert_eq!(jobs.insert(comp("b"), 0), 2);
    assert!(jobs.remove(1).is_ok());
    assert_eq!(jobs.insert(comp("c"), 0), 3);
    assert_eq!(jobs.get_job_list(), vec![2, 3]);
    let all = jobs.clear();
    assert_eq!(all.iter().map(|s| s.id).collect::<Vec<_>>(), vec![2, 3]);
    assert!(jobs.get_job_list().is_empty());
    assert_eq!(jobs.insert(comp("d"), 0), 4);
}

#[test]
fn unknown_ids_are_not_found() {
    let mut jobs: Jobs<()> = Jobs::new();
    assert_eq!(jobs.check_job(1), Err(JobError::NotFound(1)));
    assert!(matches!(jobs.remove(7), Err(JobError::NotFound(7))));
    assert!(matches!(jobs.update(7, comp("x"), ()), Err(JobError::NotFound(7))));
    assert_eq!(jobs.job_file_path(7, "job.out"), Err(JobError::NotFound(7)));
    assert_eq!(jobs.mark_started(7), Err(JobError::NotFound(7)));
}

#[test]
fn started_jobs_cannot_be_replaced() {
    let mut jobs: Jobs<&str> = Jobs::new();
    let id = jobs.insert(comp("a"), "first");
    let old = jobs.update(id, comp("b"), "second").ok().unwrap();
    assert_eq!(old.res, "first");
    assert_eq!(jobs.get(id).ok().unwrap().res, "second");
    assert_eq!(jobs.mark_started(id), Ok(false));
    assert_eq!(jobs.mark_started(id), Ok(true));
    assert!(matches!(jobs.update(id, comp("c"), "third"), Err(JobError::AlreadyStarted(1))));
    assert_eq!(jobs.get(id).ok().unwrap().res, "second");
}

#[test]
fn deleting_a_job_started_or_not() {
    let mut jobs: Jobs<u8> = Jobs::new();
    let idle = jobs.insert(comp("sleep 60"), 1);
    let running = jobs.insert(comp("sleep 60"), 2);
    jobs.mark_started(running).ok();
    let slot = jobs.remove(idle).ok().unwrap();
    assert!(!slot.started);
    let slot = jobs.remove(running).ok().unwrap();
    assert!(slot.started);
    assert_eq!(slot.res, 2);
    assert!(jobs.get_job_list().is_empty());
}

#[test]
fn job_files_resolve_in_the_working_directory() {
    let mut jobs: Jobs<()> = Jobs::new();
    let id = jobs.insert(Computation::new(Job::new("echo hi > job.out"), "/w/1".to_string()), ());
    assert_eq!(jobs.job_file_path(id, "job.out"), Ok("/w/1/job.out".to_string()));
    assert_eq!(jobs.job_file_path(id, "../job.out"), Err(JobError::BadFileName));
    assert!(jobs.can_insert());
}

#[test]
fn job_lifecycle() {
    let mut jobs: Jobs<()> = Jobs::new();
    let job = Job::new("echo hi > job.out");
    assert_eq!(job.input(), "");
    let id = jobs.insert(Computation::new(job, "/scratch/tmp1".to_string()), ());
    assert_eq!(jobs.mark_started(id), Ok(false));
    assert_eq!(jobs.job_file_path(id, "job.out"), Ok("/scratch/tmp1/job.out".to_string()));
    let slot = jobs.get(id).ok().unwrap();
    assert!(slot.started);
    let written = DoneProbe { wrk_dir_exists: true, out_modified: Some(20), inp_modified: Some(10) };
    assert!(slot.comp.is_done(written));
}
