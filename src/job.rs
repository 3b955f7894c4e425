//! Jobs submitted by clients, their working directories, and the queue that
//! keeps them under stable ids.
use vstd::prelude::*;

use crate::text::{join_path, join_path_spec, path_equal, same_path, views};

verus! {

/// The id of a job in a queue, from 1 up.
pub type JobId = usize;

/// A computational job as a client describes it: the text fed to its stdin,
/// the script that runs it, and the names of its files in its working
/// directory.
pub struct Job {
    input: String,
    script: String,
    inp_file: String,
    out_file: String,
    err_file: String,
    run_file: String,
    extra_files: Vec<String>,
}

/// Whether `name` names the same path as one of `files`.
pub open spec fn lists_path(files: Seq<Seq<char>>, name: Seq<char>) -> bool {
    exists|i: int| 0 <= i < files.len() && path_equal(#[trigger] files[i], name)
}

impl Job {
    pub closed spec fn input_spec(&self) -> Seq<char> {
        self.input@
    }

    pub closed spec fn script_spec(&self) -> Seq<char> {
        self.script@
    }

    pub closed spec fn inp_file_spec(&self) -> Seq<char> {
        self.inp_file@
    }

    pub closed spec fn out_file_spec(&self) -> Seq<char> {
        self.out_file@
    }

    pub closed spec fn err_file_spec(&self) -> Seq<char> {
        self.err_file@
    }

    pub closed spec fn run_file_spec(&self) -> Seq<char> {
        self.run_file@
    }

    pub closed spec fn extra_files_spec(&self) -> Seq<Seq<char>> {
        views(self.extra_files@)
    }

    /// A job running the shell script `script` with empty input, and the
    /// default file names `job.inp`, `job.out`, `job.err` and `run`.
    pub fn new(script: &str) -> (r: Job)
        ensures
            r.script_spec() == script@,
            r.input_spec() == Seq::<char>::empty(),
            r.inp_file_spec() == "job.inp"@,
            r.out_file_spec() == "job.out"@,
            r.err_file_spec() == "job.err"@,
            r.run_file_spec() == "run"@,
            r.extra_files_spec() == Seq::<Seq<char>>::empty(),
    {
        let r = Job {
            input: String::new(),
            script: script.to_owned(),
            inp_file: String::from_str("job.inp"),
            out_file: String::from_str("job.out"),
            err_file: String::from_str("job.err"),
            run_file: String::from_str("run"),
            extra_files: Vec::new(),
        };
        proof {
            assert(r.extra_files_spec() =~= Seq::<Seq<char>>::empty());
        }
        r
    }

    /// A job from all its parts.
    pub fn from_parts(
        input: String,
        script: String,
        inp_file: String,
        out_file: String,
        err_file: String,
        run_file: String,
        extra_files: Vec<String>,
    ) -> (r: Job)
        ensures
            r.input_spec() == input@,
            r.script_spec() == script@,
            r.inp_file_spec() == inp_file@,
            r.out_file_spec() == out_file@,
            r.err_file_spec() == err_file@,
            r.run_file_spec() == run_file@,
            r.extra_files_spec() == views(extra_files@),
    {
        Job { input, script, inp_file, out_file, err_file, run_file, extra_files }
    }

    /// Adds `file` to the extra files, unless a name for the same path is
    /// already there.
    pub fn attach_file(&mut self, file: &str)
        ensures
            lists_path(old(self).extra_files_spec(), file@) ==> final(self).extra_files_spec()
                == old(self).extra_files_spec(),
            !lists_path(old(self).extra_files_spec(), file@) ==> final(self).extra_files_spec()
                == old(self).extra_files_spec().push(file@),
            final(self).input_spec() == old(self).input_spec(),
            final(self).script_spec() == old(self).script_spec(),
            final(self).inp_file_spec() == old(self).inp_file_spec(),
            final(self).out_file_spec() == old(self).out_file_spec(),
            final(self).err_file_spec() == old(self).err_file_spec(),
            final(self).run_file_spec() == old(self).run_file_spec(),
    {
        let mut i: usize = 0;
        let mut seen = false;
        while i < self.extra_files.len()
            invariant
                i <= self.extra_files@.len(),
                seen <==> exists|j: int| 0 <= j < i && path_equal(#[trigger] views(self.extra_files@)[j], file@),
            decreases self.extra_files@.len() - i,
        {
            proof {
                assert(views(self.extra_files@)[i as int] == self.extra_files@[i as int]@);
            }
            if same_path(self.extra_files[i].as_str(), file) {
                seen = true;
            }
            i = i + 1;
        }
        if !seen {
            let ghost before = self.extra_files@;
            self.extra_files.push(file.to_owned());
            proof {
                assert(views(self.extra_files@) =~= views(before).push(file@));
            }
        }
    }

    pub fn input(&self) -> (r: &str)
        ensures
            r@ == self.input_spec(),
    {
        self.input.as_str()
    }

    pub fn script(&self) -> (r: &str)
        ensures
            r@ == self.script_spec(),
    {
        self.script.as_str()
    }

    pub fn inp_file_name(&self) -> (r: &str)
        ensures
            r@ == self.inp_file_spec(),
    {
        self.inp_file.as_str()
    }

    pub fn out_file_name(&self) -> (r: &str)
        ensures
            r@ == self.out_file_spec(),
    {
        self.out_file.as_str()
    }

    pub fn err_file_name(&self) -> (r: &str)
        ensures
            r@ == self.err_file_spec(),
    {
        self.err_file.as_str()
    }

    pub fn run_file_name(&self) -> (r: &str)
        ensures
            r@ == self.run_file_spec(),
    {
        self.run_file.as_str()
    }

    pub fn extra_file_names(&self) -> (r: &Vec<String>)
        ensures
            views(r@) == self.extra_files_spec(),
    {
        &self.extra_files
    }
}

/// What goes wrong with a request to the queue.
#[derive(Debug, Clone, Copy, PartialEq, Eq, Structural)]
pub enum JobError {
    /// No job has this id.
    NotFound(JobId),
    /// The job has been started and cannot be replaced.
    AlreadyStarted(JobId),
    /// The file name is not a plain name inside the working directory.
    BadFileName,
}

/// Whether `name` names a file directly inside a working directory: not
/// empty, not `.` or `..`, and holding no `/` and no NUL.
pub open spec fn plain_file_name(name: Seq<char>) -> bool {
    &&& name.len() > 0
    &&& name != seq!['.']
    &&& name != seq!['.', '.']
    &&& !name.contains('/')
    &&& !name.contains('\0')
}

/// Whether `name` is a plain file name (see `plain_file_name`).
pub fn is_plain_file_name(name: &str) -> (r: bool)
    ensures
        r == plain_file_name(name@),
{
    let n = name.unicode_len();
    if n == 0 {
        return false;
    }
    if n == 1 && name.get_char(0) == '.' {
        proof {
            assert(name@ =~= seq!['.']);
        }
        return false;
    }
    if n == 2 && name.get_char(0) == '.' && name.get_char(1) == '.' {
        proof {
            assert(name@ =~= seq!['.', '.']);
        }
        return false;
    }
    proof {
        if name@ == seq!['.'] {
            assert(name@[0] == '.');
        }
        if name@ == seq!['.', '.'] {
            assert(name@[0] == '.' && name@[1] == '.');
        }
    }
    let mut i: usize = 0;
    while i < n
        invariant
            n == name@.len(),
            i <= n,
            forall|j: int| 0 <= j < i ==> #[trigger] name@[j] != '/' && name@[j] != '\0',
        decreases n - i,
    {
        let c = name.get_char(i);
        if c == '/' || c == '\0' {
            proof {
                assert(name@.contains(c));
            }
            return false;
        }
        i = i + 1;
    }
    true
}

/// What the filesystem shows of a job when asked whether it is done: whether
/// its working directory exists, and the modification times (in nanoseconds
/// since the epoch) of its output and input files, `None` where a file is
/// missing or its time cannot be read.
#[derive(Debug, Clone, Copy, PartialEq, Eq, Structural)]
pub struct DoneProbe {
    pub wrk_dir_exists: bool,
    pub out_modified: Option<u128>,
    pub inp_modified: Option<u128>,
}

/// A job is done when its working directory and both files exist and the
/// output is not older than the input.
pub open spec fn done_spec(p: DoneProbe) -> bool {
    p.wrk_dir_exists && match (p.out_modified, p.inp_modified) {
        (Some(o), Some(i)) => o >= i,
        _ => false,
    }
}

/// A job placed in a working directory.
pub struct Computation {
    job: Job,
    wrk_dir: String,
}

impl Computation {
    pub closed spec fn job_spec(&self) -> &Job {
        &self.job
    }

    pub closed spec fn wrk_dir_spec(&self) -> Seq<char> {
        self.wrk_dir@
    }

    /// `job` placed in the working directory `wrk_dir`.
    pub fn new(job: Job, wrk_dir: String) -> (r: Computation)
        ensures
            *r.job_spec() == job,
            r.wrk_dir_spec() == wrk_dir@,
    {
        Computation { job, wrk_dir }
    }

    pub fn job(&self) -> (r: &Job)
        ensures
            *r == *self.job_spec(),
    {
        &self.job
    }

    /// The full path of the working directory.
    pub fn wrk_dir(&self) -> (r: &str)
        ensures
            r@ == self.wrk_dir_spec(),
    {
        self.wrk_dir.as_str()
    }

    /// The full path of the file that feeds the job's stdin.
    pub fn inp_file(&self) -> (r: String)
        ensures
            r@ == join_path_spec(self.wrk_dir_spec(), self.job_spec().inp_file_spec()),
    {
        join_path(self.wrk_dir.as_str(), self.job.inp_file_name())
    }

    /// The full path of the file that receives the job's stdout.
    pub fn out_file(&self) -> (r: String)
        ensures
            r@ == join_path_spec(self.wrk_dir_spec(), self.job_spec().out_file_spec()),
    {
        join_path(self.wrk_dir.as_str(), self.job.out_file_name())
    }

    /// The full path of the file that receives the job's stderr.
    pub fn err_file(&self) -> (r: String)
        ensures
            r@ == join_path_spec(self.wrk_dir_spec(), self.job_spec().err_file_spec()),
    {
        join_path(self.wrk_dir.as_str(), self.job.err_file_name())
    }

    /// The full path of the script that runs the job.
    pub fn run_file(&self) -> (r: String)
        ensures
            r@ == join_path_spec(self.wrk_dir_spec(), self.job_spec().run_file_spec()),
    {
        join_path(self.wrk_dir.as_str(), self.job.run_file_name())
    }

    /// The full paths of the job's extra files.
    pub fn extra_files(&self) -> (r: Vec<String>)
        ensures
            r@.len() == self.job_spec().extra_files_spec().len(),
            forall|i: int|
                0 <= i < r@.len() ==> #[trigger] r@[i]@ == join_path_spec(
                    self.wrk_dir_spec(),
                    self.job_spec().extra_files_spec()[i],
                ),
    {
        let names = self.job.extra_file_names();
        let mut r: Vec<String> = Vec::new();
        let mut i: usize = 0;
        while i < names.len()
            invariant
                i <= names@.len(),
                views(names@) == self.job_spec().extra_files_spec(),
                r@.len() == i,
                forall|j: int|
                    0 <= j < i ==> #[trigger] r@[j]@ == join_path_spec(
                        self.wrk_dir_spec(),
                        self.job_spec().extra_files_spec()[j],
                    ),
            decreases names@.len() - i,
        {
            proof {
                assert(views(names@)[i as int] == names@[i as int]@);
            }
            r.push(join_path(self.wrk_dir.as_str(), names[i].as_str()));
            i = i + 1;
        }
        r
    }

    /// The full path of the file `name` in the working directory; a name
    /// that is not plain is refused.
    pub fn file_path(&self, name: &str) -> (r: Result<String, JobError>)
        ensures
            plain_file_name(name@) ==> (r matches Ok(p) && p@ == join_path_spec(self.wrk_dir_spec(), name@)),
            !plain_file_name(name@) ==> r == Err::<String, JobError>(JobError::BadFileName),
    {
        if is_plain_file_name(name) {
            Ok(join_path(self.wrk_dir.as_str(), name))
        } else {
            Err(JobError::BadFileName)
        }
    }

    /// Whether the job is done, from what the filesystem shows of it.
    pub fn is_done(&self, probe: DoneProbe) -> (r: bool)
        ensures
            r == done_spec(probe),
    {
        if !probe.wrk_dir_exists {
            return false;
        }
        match (probe.out_modified, probe.inp_modified) {
            (Some(o), Some(i)) => o >= i,
            _ => false,
        }
    }
}

/// A job in the queue: its id, whether it has been started, the job in its
/// working directory, and what the caller keeps with it (the directory's
/// guard and the running session).
pub struct Slot<R> {
    pub id: JobId,
    pub started: bool,
    pub comp: Computation,
    pub res: R,
}

/// The queue's registry: jobs under ids that are handed out from 1 upwards
/// and never handed out twice, in the order they were inserted.
pub struct Jobs<R> {
    slots: Vec<Slot<R>>,
    next_id: JobId,
    issued: Ghost<Set<JobId>>,
}

impl<R> Jobs<R> {
    pub closed spec fn slots_spec(&self) -> Seq<Slot<R>> {
        self.slots@
    }

    /// The id that the next insertion hands out.
    pub closed spec fn next_id_spec(&self) -> JobId {
        self.next_id
    }

    /// Every id handed out so far, deleted jobs' included.
    pub closed spec fn issued_spec(&self) -> Set<JobId> {
        self.issued@
    }

    pub open spec fn ids_spec(&self) -> Seq<JobId> {
        self.slots_spec().map_values(|s: Slot<R>| s.id)
    }

    pub open spec fn has_id(&self, id: JobId) -> bool {
        exists|k: int| 0 <= k < self.slots_spec().len() && #[trigger] self.slots_spec()[k].id == id
    }

    /// Ids rise along the slots; every id in use was handed out, and every
    /// id handed out is below the next one.
    pub closed spec fn wf(&self) -> bool {
        &&& self.next_id >= 1
        &&& forall|i: int, j: int|
            0 <= i < j < self.slots@.len() ==> #[trigger] self.slots@[i].id < #[trigger] self.slots@[j].id
        &&& forall|k: int| 0 <= k < self.slots@.len() ==> self.issued@.contains(#[trigger] self.slots@[k].id)
        &&& forall|x: JobId| #[trigger] self.issued@.contains(x) ==> 1 <= x < self.next_id
    }

    /// An empty registry; its first id is 1.
    pub fn new() -> (r: Jobs<R>)
        ensures
            r.wf(),
            r.slots_spec().len() == 0,
            r.next_id_spec() == 1,
            r.issued_spec() == Set::<JobId>::empty(),
    {
        Jobs { slots: Vec::new(), next_id: 1, issued: Ghost(Set::empty()) }
    }

    /// Whether one more id can be handed out.
    pub fn can_insert(&self) -> (r: bool)
        ensures
            r == (self.next_id_spec() < usize::MAX),
    {
        self.next_id < usize::MAX
    }

    /// The position of the job `id` among the slots.
    pub fn check_job(&self, id: JobId) -> (r: Result<usize, JobError>)
        requires
            self.wf(),
        ensures
            self.has_id(id) ==> (r matches Ok(k) && k < self.slots_spec().len()
                && self.slots_spec()[k as int].id == id),
            !self.has_id(id) ==> r == Err::<usize, JobError>(JobError::NotFound(id)),
    {
        let mut k: usize = 0;
        while k < self.slots.len()
            invariant
                k <= self.slots@.len(),
                forall|j: int| 0 <= j < k ==> #[trigger] self.slots@[j].id != id,
            decreases self.slots@.len() - k,
        {
            if self.slots[k].id == id {
                return Ok(k);
            }
            k = k + 1;
        }
        Err(JobError::NotFound(id))
    }

    /// Puts `comp`, with `res`, in a new slot at the end under a fresh id,
    /// larger than every id handed out before, and returns that id.
    pub fn insert(&mut self, comp: Computation, res: R) -> (id: JobId)
        requires
            old(self).wf(),
            old(self).next_id_spec() < usize::MAX,
        ensures
            final(self).wf(),
            id == old(self).next_id_spec(),
            forall|x: JobId| old(self).issued_spec().contains(x) ==> x < id,
            final(self).issued_spec() == old(self).issued_spec().insert(id),
            final(self).next_id_spec() == id + 1,
            final(self).slots_spec() == old(self).slots_spec().push(
                Slot { id, started: false, comp, res },
            ),
    {
        let id = self.next_id;
        self.slots.push(Slot { id, started: false, comp, res });
        self.next_id = id + 1;
        self.issued = Ghost(self.issued@.insert(id));
        proof {
            assert forall|k: int| 0 <= k < self.slots@.len() implies self.issued@.contains(#[trigger] self.slots@[k].id) by {
                if k < self.slots@.len() - 1 {
                    assert(old(self).slots@[k] == self.slots@[k]);
                }
            }
            assert forall|i: int, j: int|
                0 <= i < j < self.slots@.len() implies #[trigger] self.slots@[i].id < #[trigger] self.slots@[j].id by {
                if j == self.slots@.len() - 1 {
                    assert(old(self).issued@.contains(old(self).slots@[i].id));
                } else {
                    assert(old(self).slots@[i] == self.slots@[i]);
                    assert(old(self).slots@[j] == self.slots@[j]);
                }
            }
        }
        id
    }

    /// The job `id`.
    pub fn get(&self, id: JobId) -> (r: Result<&Slot<R>, JobError>)
        requires
            self.wf(),
        ensures
            self.has_id(id) ==> (r matches Ok(s) && s.id == id && exists|k: int|
                0 <= k < self.slots_spec().len() && self.slots_spec()[k] == *s),
            !self.has_id(id) ==> r == Err::<&Slot<R>, JobError>(JobError::NotFound(id)),
    {
        match self.check_job(id) {
            Ok(k) => Ok(&self.slots[k]),
            Err(e) => Err(e),
        }
    }

    /// The full path of the file `name` in the working directory of the job
    /// `id`.
    pub fn job_file_path(&self, id: JobId, name: &str) -> (r: Result<String, JobError>)
        requires
            self.wf(),
        ensures
            !self.has_id(id) ==> r == Err::<String, JobError>(JobError::NotFound(id)),
            self.has_id(id) && !plain_file_name(name@) ==> r == Err::<String, JobError>(
                JobError::BadFileName,
            ),
            self.has_id(id) && plain_file_name(name@) ==> (r matches Ok(p) && exists|k: int|
                0 <= k < self.slots_spec().len() && self.slots_spec()[k].id == id && p@
                    == join_path_spec(#[trigger] self.slots_spec()[k].comp.wrk_dir_spec(), name@)),
    {
        let k = match self.check_job(id) {
            Ok(k) => k,
            Err(e) => return Err(e),
        };
        let r = self.slots[k].comp.file_path(name);
        proof {
            if plain_file_name(name@) {
                assert(self.slots@[k as int].comp.wrk_dir_spec() == self.slots_spec()[k as int].comp.wrk_dir_spec());
            }
        }
        r
    }

    /// The ids of the jobs, in the order of the slots.
    pub fn get_job_list(&self) -> (r: Vec<JobId>)
        ensures
            r@ == self.ids_spec(),
    {
        let mut r: Vec<JobId> = Vec::new();
        let mut k: usize = 0;
        while k < self.slots.len()
            invariant
                k <= self.slots@.len(),
                r@ == self.slots@.subrange(0, k as int).map_values(|s: Slot<R>| s.id),
            decreases self.slots@.len() - k,
        {
            r.push(self.slots[k].id);
            proof {
                assert(r@ =~= self.slots@.subrange(0, k + 1).map_values(|s: Slot<R>| s.id));
            }
            k = k + 1;
        }
        proof {
            assert(self.slots@.subrange(0, self.slots@.len() as int) =~= self.slots@);
        }
        r
    }

    /// Takes the job `id` out of the registry and hands its slot back; the
    /// id is not handed out again.
    pub fn remove(&mut self, id: JobId) -> (r: Result<Slot<R>, JobError>)
        requires
            old(self).wf(),
        ensures
            final(self).wf(),
            final(self).next_id_spec() == old(self).next_id_spec(),
            final(self).issued_spec() == old(self).issued_spec(),
            !final(self).has_id(id),
            !old(self).has_id(id) ==> r == Err::<Slot<R>, JobError>(JobError::NotFound(id))
                && final(self).slots_spec() == old(self).slots_spec(),
            old(self).has_id(id) ==> (r matches Ok(s) && s.id == id && exists|k: int|
                0 <= k < old(self).slots_spec().len() && old(self).slots_spec()[k] == s
                    && final(self).slots_spec() == old(self).slots_spec().remove(k)),
    {
        let k = match self.check_job(id) {
            Ok(k) => k,
            Err(e) => return Err(e),
        };
        let s = self.slots.remove(k);
        proof {
            assert forall|i: int, j: int|
                0 <= i < j < self.slots@.len() implies #[trigger] self.slots@[i].id < #[trigger] self.slots@[j].id by {
                let oi = if i < k { i } else { i + 1 };
                let oj = if j < k { j } else { j + 1 };
                assert(self.slots@[i] == old(self).slots@[oi]);
                assert(self.slots@[j] == old(self).slots@[oj]);
            }
            assert forall|q: int| 0 <= q < self.slots@.len() implies self.issued@.contains(#[trigger] self.slots@[q].id) by {
                let oq = if q < k { q } else { q + 1 };
                assert(self.slots@[q] == old(self).slots@[oq]);
            }
            assert forall|q: int| 0 <= q < self.slots@.len() implies #[trigger] self.slots@[q].id != id by {
                let oq = if q < k { q } else { q + 1 };
                assert(self.slots@[q] == old(self).slots@[oq]);
                if oq < k {
                    assert(old(self).slots@[oq].id < old(self).slots@[k as int].id);
                } else {
                    assert(old(self).slots@[k as int].id < old(self).slots@[oq].id);
                }
            }
        }
        Ok(s)
    }

    /// Takes every job out and hands the slots back, in their order.
    pub fn clear(&mut self) -> (r: Vec<Slot<R>>)
        requires
            old(self).wf(),
        ensures
            final(self).wf(),
            r@ == old(self).slots_spec(),
            final(self).slots_spec().len() == 0,
            final(self).next_id_spec() == old(self).next_id_spec(),
            final(self).issued_spec() == old(self).issued_spec(),
    {
        let mut taken: Vec<Slot<R>> = Vec::new();
        std::mem::swap(&mut taken, &mut self.slots);
        taken
    }

    /// Replaces the job `id` by `comp` with `res`, unless it has been
    /// started, and hands the old slot back.
    pub fn update(&mut self, id: JobId, comp: Computation, res: R) -> (r: Result<Slot<R>, JobError>)
        requires
            old(self).wf(),
        ensures
            final(self).wf(),
            final(self).next_id_spec() == old(self).next_id_spec(),
            final(self).issued_spec() == old(self).issued_spec(),
            !old(self).has_id(id) ==> r == Err::<Slot<R>, JobError>(JobError::NotFound(id))
                && final(self).slots_spec() == old(self).slots_spec(),
            old(self).has_id(id) ==> exists|k: int|
                0 <= k < old(self).slots_spec().len() && #[trigger] old(self).slots_spec()[k].id == id && if old(
                    self,
                ).slots_spec()[k].started {
                    r == Err::<Slot<R>, JobError>(JobError::AlreadyStarted(id)) && final(self).slots_spec()
                        == old(self).slots_spec()
                } else {
                    r matches Ok(s) && s == old(self).slots_spec()[k] && final(self).slots_spec() == old(
                        self,
                    ).slots_spec().update(k, Slot { id, started: false, comp, res })
                },
    {
        let k = match self.check_job(id) {
            Ok(k) => k,
            Err(e) => return Err(e),
        };
        if self.slots[k].started {
            return Err(JobError::AlreadyStarted(id));
        }
        let mut fresh = Slot { id, started: false, comp, res };
        std::mem::swap(&mut fresh, &mut self.slots[k]);
        proof {
            assert(self.slots@ == old(self).slots@.update(k as int, Slot { id, started: false, comp, res }));
            assert forall|i: int, j: int|
                0 <= i < j < self.slots@.len() implies #[trigger] self.slots@[i].id < #[trigger] self.slots@[j].id by {
                assert(self.slots@[i].id == old(self).slots@[i].id);
                assert(self.slots@[j].id == old(self).slots@[j].id);
            }
            assert forall|q: int| 0 <= q < self.slots@.len() implies self.issued@.contains(#[trigger] self.slots@[q].id) by {
                assert(self.slots@[q].id == old(self).slots@[q].id);
            }
        }
        Ok(fresh)
    }

    /// Marks the job `id` as started and tells whether it was already.
    pub fn mark_started(&mut self, id: JobId) -> (r: Result<bool, JobError>)
        requires
            old(self).wf(),
        ensures
            final(self).wf(),
            final(self).next_id_spec() == old(self).next_id_spec(),
            final(self).issued_spec() == old(self).issued_spec(),
            !old(self).has_id(id) ==> r == Err::<bool, JobError>(JobError::NotFound(id))
                && final(self).slots_spec() == old(self).slots_spec(),
            old(self).has_id(id) ==> exists|k: int|
                0 <= k < old(self).slots_spec().len() && #[trigger] old(self).slots_spec()[k].id == id
                    && r == Ok::<bool, JobError>(old(self).slots_spec()[k].started)
                    && final(self).slots_spec().len() == old(self).slots_spec().len()
                    && final(self).slots_spec()[k].started
                    && final(self).slots_spec()[k].id == id
                    && forall|q: int| 0 <= q < old(self).slots_spec().len() && q != k ==> #[trigger] final(self).slots_spec()[q] == old(self).slots_spec()[q],
    {
        let k = match self.check_job(id) {
            Ok(k) => k,
            Err(e) => return Err(e),
        };
        let was = self.slots[k].started;
        self.slots[k].started = true;
        proof {
            assert forall|i: int, j: int|
                0 <= i < j < self.slots@.len() implies #[trigger] self.slots@[i].id < #[trigger] self.slots@[j].id by {
                assert(self.slots@[i].id == old(self).slots@[i].id);
                assert(self.slots@[j].id == old(self).slots@[j].id);
            }
            assert forall|q: int| 0 <= q < self.slots@.len() implies self.issued@.contains(#[trigger] self.slots@[q].id) by {
                assert(self.slots@[q].id == old(self).slots@[q].id);
            }
        }
        Ok(was)
    }
}

} // verus!
