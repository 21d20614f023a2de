//! The bookkeeping of the worker pool: what a job is, what it reports, and how
//! the reports of the workers are gathered until every worker has stopped.
//! The threads themselves live with the caller.
use vstd::prelude::*;

verus! {

/// A unit of work with a stable id, run once.
pub trait Job {
    type Error;
    type Output;

    /// The id that its result carries.
    fn get_job_id(&self) -> &str;

    /// Runs the job, consuming it.
    fn execute(self) -> Result<Self::Output, Self::Error>;
}

/// Why a job gave no output.
#[derive(Debug)]
pub enum JobError<E> {
    /// The job returned an error.
    Error(E),
    /// The job panicked, with the panic's message.
    Panicked(String),
}

/// The outcome of one job.
#[derive(Debug)]
pub struct JobResult<O, E> {
    pub job_id: String,
    pub result: Result<O, JobError<E>>,
}

/// What a worker reports.
#[derive(Debug)]
pub enum JobResultMessage<O, E> {
    /// A job ran to its end.
    Result { job_id: String, job_result: Result<O, E> },
    /// A job panicked.
    Panicked { job_id: String, panic_error: String },
    /// The worker with this id stopped.
    Terminated(usize),
}

/// The result that a job report stands for.
pub open spec fn result_of<O, E>(m: JobResultMessage<O, E>) -> JobResult<O, E> {
    match m {
        JobResultMessage::Result { job_id, job_result } => JobResult {
            job_id,
            result: match job_result {
                Ok(o) => Ok(o),
                Err(e) => Err(JobError::Error(e)),
            },
        },
        JobResultMessage::Panicked { job_id, panic_error } => JobResult {
            job_id,
            result: Err(JobError::Panicked(panic_error)),
        },
        JobResultMessage::Terminated(_) => JobResult { job_id: arbitrary(), result: arbitrary() },
    }
}

/// The results that `msgs` report, in order; stop reports carry none.
pub open spec fn collected<O, E>(msgs: Seq<JobResultMessage<O, E>>) -> Seq<JobResult<O, E>>
    decreases msgs.len(),
{
    if msgs.len() == 0 {
        Seq::empty()
    } else {
        let rest = collected(msgs.drop_last());
        if msgs.last() is Terminated {
            rest
        } else {
            rest.push(result_of(msgs.last()))
        }
    }
}

/// The stop reports among `msgs`.
pub open spec fn terminations<O, E>(msgs: Seq<JobResultMessage<O, E>>) -> nat
    decreases msgs.len(),
{
    if msgs.len() == 0 {
        0
    } else {
        terminations(msgs.drop_last()) + if msgs.last() is Terminated { 1nat } else { 0nat }
    }
}

proof fn lemma_count<O, E>(msgs: Seq<JobResultMessage<O, E>>)
    ensures
        collected(msgs).len() + terminations(msgs) == msgs.len(),
    decreases msgs.len(),
{
    if msgs.len() > 0 {
        lemma_count(msgs.drop_last());
    }
}

proof fn lemma_prefix<O, E>(msgs: Seq<JobResultMessage<O, E>>, j: int)
    requires
        0 <= j <= msgs.len(),
    ensures
        collected(msgs.take(j)).len() <= collected(msgs).len(),
        forall|k: int| 0 <= k < collected(msgs.take(j)).len() ==> #[trigger] collected(msgs.take(j))[k]
            == collected(msgs)[k],
    decreases msgs.len(),
{
    if j < msgs.len() {
        lemma_prefix(msgs.drop_last(), j);
        assert(msgs.drop_last().take(j) =~= msgs.take(j));
    } else {
        assert(msgs.take(j) =~= msgs);
    }
}

/// Every job report gives exactly one result: the results number the reports
/// less the stop reports, and the report at `i`, a panic or not, gives the
/// result at the place that counts the job reports before it.
pub proof fn lemma_every_job_reported<O, E>(msgs: Seq<JobResultMessage<O, E>>, i: int)
    ensures
        collected(msgs).len() + terminations(msgs) == msgs.len(),
        0 <= i < msgs.len() && !(msgs[i] is Terminated) ==> {
            let before = msgs.take(i);
            collected(msgs)[before.len() - terminations(before)] == result_of(msgs[i])
        },
{
    lemma_count(msgs);
    if 0 <= i < msgs.len() && !(msgs[i] is Terminated) {
        let t = msgs.take(i + 1);
        assert(t.drop_last() =~= msgs.take(i));
        assert(t.last() == msgs[i]);
        lemma_count(msgs.take(i));
        lemma_prefix(msgs, i + 1);
        assert(collected(t)[collected(msgs.take(i)).len() as int] == result_of(msgs[i]));
    }
}

/// Gathers reports until every worker has stopped.
pub struct ResultCollector<O, E> {
    pub num_workers: usize,
    pub terminated: usize,
    pub results: Vec<JobResult<O, E>>,
    pub seen: Ghost<Seq<JobResultMessage<O, E>>>,
}

impl<O, E> ResultCollector<O, E> {
    /// The results are those of the reports seen, and the stops are counted.
    pub open spec fn wf(&self) -> bool {
        &&& self.results@ == collected(self.seen@)
        &&& self.terminated as nat == terminations(self.seen@)
    }

    /// A collector for `num_workers` workers, nothing seen.
    pub fn new(num_workers: usize) -> (r: ResultCollector<O, E>)
        ensures
            r.wf(),
            r.num_workers == num_workers,
            r.seen@.len() == 0,
    {
        ResultCollector { num_workers, terminated: 0, results: Vec::new(), seen: Ghost(Seq::empty()) }
    }

    /// Every worker has stopped.
    pub fn is_complete(&self) -> (r: bool)
        ensures
            r == (self.terminated >= self.num_workers),
    {
        self.terminated >= self.num_workers
    }

    /// Takes one report: a job's outcome becomes a result, a panic a
    /// `Panicked` result, a stop is counted.
    pub fn receive(&mut self, msg: JobResultMessage<O, E>)
        requires
            old(self).wf(),
            old(self).terminated < usize::MAX,
        ensures
            final(self).wf(),
            final(self).num_workers == old(self).num_workers,
            final(self).seen@ == old(self).seen@.push(msg),
    {
        let ghost m = msg;
        proof {
            assert(self.seen@.push(m).drop_last() =~= self.seen@);
        }
        match msg {
            JobResultMessage::Result { job_id, job_result } => {
                let result = match job_result {
                    Ok(o) => Ok(o),
                    Err(e) => Err(JobError::Error(e)),
                };
                self.results.push(JobResult { job_id, result });
            }
            JobResultMessage::Panicked { job_id, panic_error } => {
                self.results.push(JobResult { job_id, result: Err(JobError::Panicked(panic_error)) });
            }
            JobResultMessage::Terminated(_) => {
                self.terminated = self.terminated + 1;
            }
        }
        self.seen = Ghost(self.seen@.push(m));
    }

    /// The results gathered, in the order their reports came.
    pub fn into_results(self) -> (r: Vec<JobResult<O, E>>)
        requires
            self.wf(),
        ensures
            r@ == collected(self.seen@),
    {
        self.results
    }
}

} // verus!
