//! Choosing the queue system for a run: a linear pipeline of steps from the
//! values that argument parsing gives to a `QueueSystem`.
//!
//! What the pipeline reads of the machine (environment variables, the
//! hostfile they name, the available parallelism) it takes as a `HostEnv`.

use vstd::prelude::*;

verus! {

/// The number of newline characters in `s`.
pub open spec fn newline_count(s: Seq<char>) -> nat
    decreases s.len(),
{
    if s.len() == 0 {
        0
    } else {
        newline_count(s.drop_last()) + if s.last() == '\n' { 1nat } else { 0nat }
    }
}

/// The number of lines of `s`: lines end at a newline, and the last line
/// needs none, so an empty text has no lines.
pub open spec fn line_count(s: Seq<char>) -> nat {
    newline_count(s) + if s.len() > 0 && s.last() != '\n' { 1nat } else { 0nat }
}

proof fn lemma_newline_count_bound(s: Seq<char>)
    ensures
        newline_count(s) <= s.len(),
        s.len() > 0 && s.last() != '\n' ==> newline_count(s) < s.len(),
    decreases s.len(),
{
    if s.len() > 0 {
        lemma_newline_count_bound(s.drop_last());
    }
}

/// `n` copies of `line`, one after the other.
pub open spec fn repeat_text(line: Seq<char>, n: nat) -> Seq<char>
    decreases n,
{
    if n == 0 {
        Seq::empty()
    } else {
        repeat_text(line, (n - 1) as nat) + line
    }
}

proof fn lemma_newline_count_concat(a: Seq<char>, b: Seq<char>)
    ensures
        newline_count(a + b) == newline_count(a) + newline_count(b),
    decreases b.len(),
{
    if b.len() == 0 {
        assert(a + b =~= a);
    } else {
        lemma_newline_count_concat(a, b.drop_last());
        assert((a + b).drop_last() =~= a + b.drop_last());
    }
}

proof fn lemma_no_newline(s: Seq<char>)
    requires
        !s.contains('\n'),
    ensures
        newline_count(s) == 0,
    decreases s.len(),
{
    if s.len() > 0 {
        assert(s.drop_last().contains('\n') ==> s.contains('\n')) by {
            if s.drop_last().contains('\n') {
                let k = choose|k: int| 0 <= k < s.drop_last().len() && s.drop_last()[k] == '\n';
                assert(s[k] == '\n');
            }
        }
        assert(s[s.len() - 1] != '\n');
        lemma_no_newline(s.drop_last());
    }
}

/// A hostfile that lists `n` hosts, one per line, each line ended by a
/// newline, counts `n` lines.
pub proof fn lemma_hostfile_line_count(host: Seq<char>, n: nat)
    requires
        !host.contains('\n'),
    ensures
        line_count(repeat_text(host.push('\n'), n)) == n,
    decreases n,
{
    let line = host.push('\n');
    if n > 0 {
        lemma_hostfile_line_count(host, (n - 1) as nat);
        lemma_no_newline(host);
        assert(line.drop_last() =~= host);
        lemma_newline_count_concat(repeat_text(line, (n - 1) as nat), line);
        let r = repeat_text(line, n);
        assert(r.last() == '\n');
        assert(newline_count(repeat_text(line, (n - 1) as nat)) == n - 1) by {
            if n > 1 {
                assert(repeat_text(line, (n - 1) as nat).last() == '\n');
            }
        }
    }
}

/// An empty text has no lines; a text of one line without newline, with or
/// without the newline that ends it, has one.
pub proof fn law_line_count_single(s: Seq<char>)
    requires
        !s.contains('\n'),
    ensures
        line_count(Seq::<char>::empty()) == 0,
        s.len() > 0 ==> line_count(s) == 1,
        line_count(s.push('\n')) == 1,
{
    lemma_no_newline(s);
    assert(s.push('\n').drop_last() =~= s);
}

/// Lines add up: a text whose last line is ended, followed by another text,
/// has the lines of both.
pub proof fn law_line_count_concat(a: Seq<char>, b: Seq<char>)
    requires
        a.len() == 0 || a.last() == '\n',
    ensures
        line_count(a + b) == line_count(a) + line_count(b),
{
    lemma_newline_count_concat(a, b);
    if b.len() == 0 {
        assert(a + b =~= a);
    } else {
        assert((a + b).last() == b.last());
    }
}

/// Counts the lines of a hostfile's text.
pub fn count_lines(text: &str) -> (n: usize)
    ensures
        n == line_count(text@),
{
    let len = text.unicode_len();
    let mut count: usize = 0;
    let mut ends_with_newline = true;
    for c in it: text.chars()
        invariant
            len == text@.len(),
            it.seq() == text@,
            count == newline_count(text@.subrange(0, it.index())),
            it.index() > 0 ==> ends_with_newline == (text@[it.index() - 1] == '\n'),
            it.index() == 0 ==> ends_with_newline,
    {
        proof {
            assert(text@.subrange(0, it.index() + 1).drop_last() =~= text@.subrange(0, it.index()));
            lemma_newline_count_bound(text@.subrange(0, it.index()));
        }
        if c == '\n' {
            count = count + 1;
        }
        ends_with_newline = c == '\n';
    }
    proof {
        assert(text@.subrange(0, len as int) =~= text@);
        lemma_newline_count_bound(text@);
    }
    if ends_with_newline {
        count
    } else {
        count + 1
    }
}

/// What the queue-system pipeline reads of the machine it runs on, besides
/// the hostfile, which it reads only where it needs it.
#[derive(Debug, Clone, Copy)]
pub struct HostEnv {
    /// For each variable of `MACHINEFILES`, in that order: whether it is set.
    pub machinefiles: [bool; 2],
    /// The parallelism the machine reports, if it reports one.
    pub parallelism: Option<usize>,
}

/// Why no queue system could be chosen.
#[derive(Debug, Clone, PartialEq, Eq)]
pub enum QueueError {
    /// The hostfile that had to be counted could not be read; the message says why.
    UnreadableHostfile(String),
    /// A non-local queue was asked for without a number of tasks per machine.
    MissingTasksPerMachine,
}

/// A queue name that means "run on this machine".
pub open spec fn is_local_queue(queue: Seq<char>) -> bool {
    queue == "local"@
}

/// All the machinefile variables are set: we run inside an HPC job.
pub open spec fn on_hpc(env: HostEnv) -> bool {
    forall|i: int| 0 <= i < env.machinefiles@.len() ==> #[trigger] env.machinefiles@[i]
}

/// The position of the first set machinefile variable at or after `i`.
pub open spec fn first_set_from(files: Seq<bool>, i: int) -> Option<int>
    decreases files.len() - i,
{
    if 0 <= i < files.len() {
        if files[i] {
            Some(i)
        } else {
            first_set_from(files, i + 1)
        }
    } else {
        None
    }
}

/// The position in `MACHINEFILES` of the variable whose hostfile counts the
/// cores: the first one that is set.
pub open spec fn hostfile_index(env: HostEnv) -> Option<int> {
    first_set_from(env.machinefiles@, 0)
}

/// `available`, lowered to `requested` where that is smaller.
pub open spec fn clamp(available: nat, requested: Option<usize>) -> nat {
    match requested {
        Some(r) => if r < available { r as nat } else { available },
        None => available,
    }
}

/// The cores a local run gets, where reading the hostfile (if one is named)
/// gave `read`: the hostfile's lines, else the machine's parallelism, else
/// one, lowered to `requested`; or, where the hostfile could not be read, why.
pub open spec fn local_cpus(env: HostEnv, read: Result<String, String>, requested: Option<usize>) -> Result<nat, Seq<char>> {
    match hostfile_index(env) {
        None => Ok(
            clamp(
                match env.parallelism {
                    Some(p) => p as nat,
                    None => 1,
                },
                requested,
            ),
        ),
        Some(_) => match read {
            Ok(text) => Ok(clamp(line_count(text@), requested)),
            Err(why) => Err(why@),
        },
    }
}

/// `read` is what `read_hostfile` gave for the hostfile, where one is named.
pub open spec fn hostfile_read<R: FnOnce(usize) -> Result<String, String>>(
    env: HostEnv,
    read_hostfile: R,
    read: Result<String, String>,
) -> bool {
    hostfile_index(env) matches Some(i) ==> call_ensures(read_hostfile, (i as usize,), read)
}

/// `cpus` is the number of cores `outcome` gives, or the error it gives.
pub open spec fn cpus_as(cpus: Result<usize, QueueError>, outcome: Result<nat, Seq<char>>) -> bool {
    match outcome {
        Ok(n) => cpus == Ok::<usize, QueueError>(n as usize),
        Err(why) => cpus matches Err(e) && e matches QueueError::UnreadableHostfile(w) && w@ == why,
    }
}

/// `n`, lowered to `requested` where that is smaller.
pub open spec fn lower_to(n: nat, requested: Option<usize>) -> nat {
    match requested {
        Some(r) => if (r as nat) < n { r as nat } else { n },
        None => n,
    }
}

/// `lower_to` is the smaller of `n` and the request: never above either,
/// and always one of them.
pub proof fn law_lower_to_is_minimum(n: nat, requested: Option<usize>)
    ensures
        lower_to(n, requested) <= n,
        requested matches Some(r) ==> lower_to(n, requested) <= r && (lower_to(n, requested) == n || lower_to(n, requested) == r),
        requested is None ==> lower_to(n, requested) == n,
        clamp(n, requested) == lower_to(n, requested),
{
}

/// A run is inside an HPC job exactly when both machinefile variables,
/// `LSB_MCPU_HOSTS` and `PBS_NODEFILE`, are set; one alone does not make it so.
pub proof fn law_on_hpc_needs_every_machinefile(env: HostEnv)
    ensures
        on_hpc(env) == (env.machinefiles@[0] && env.machinefiles@[1]),
{
    if env.machinefiles@[0] && env.machinefiles@[1] {
        assert forall|i: int| 0 <= i < env.machinefiles@.len() implies #[trigger] env.machinefiles@[i] by {
            assert(i == 0 || i == 1);
        }
    }
}

/// The hostfile that counts the cores is the one `LSB_MCPU_HOSTS` names where
/// it is set, else the one `PBS_NODEFILE` names, else there is none.
pub proof fn law_hostfile_index(env: HostEnv)
    ensures
        env.machinefiles@[0] ==> hostfile_index(env) == Some(0int),
        !env.machinefiles@[0] && env.machinefiles@[1] ==> hostfile_index(env) == Some(1int),
        !env.machinefiles@[0] && !env.machinefiles@[1] ==> hostfile_index(env) is None,
{
    assert(env.machinefiles@.len() == 2);
    assert(first_set_from(env.machinefiles@, 2) is None);
    assert(!env.machinefiles@[1] ==> first_set_from(env.machinefiles@, 1) is None);
    assert(env.machinefiles@[1] ==> first_set_from(env.machinefiles@, 1) == Some(1int));
}

/// Where a hostfile is named, the cores it gives do not depend on the
/// machine's parallelism: two machines that differ only there give the same.
pub proof fn law_hostfile_ignores_parallelism(
    env: HostEnv,
    other: HostEnv,
    read: Result<String, String>,
    requested: Option<usize>,
)
    requires
        env.machinefiles == other.machinefiles,
        env.machinefiles@[0] || env.machinefiles@[1],
    ensures
        local_cpus(env, read, requested) == local_cpus(other, read, requested),
{
    law_hostfile_index(env);
    law_hostfile_index(other);
}

/// Where a hostfile is named and read, a local run may use one core per
/// line of it, at most as many as were asked for; where it cannot be read,
/// the reason is the outcome.
pub proof fn law_hostfile_counts_cores(env: HostEnv, read: Result<String, String>, requested: Option<usize>)
    requires
        env.machinefiles@[0] || env.machinefiles@[1],
    ensures
        read matches Ok(text) ==> local_cpus(env, read, requested) == Ok::<nat, Seq<char>>(lower_to(line_count(text@), requested)),
        read matches Err(why) ==> local_cpus(env, read, requested) == Err::<nat, Seq<char>>(why@),
{
    law_hostfile_index(env);
}

/// Where no hostfile is named, a local run may use the machine's
/// parallelism (one core where it reports none), at most as many as asked.
pub proof fn law_no_hostfile_uses_parallelism(env: HostEnv, read: Result<String, String>, requested: Option<usize>)
    requires
        !env.machinefiles@[0] && !env.machinefiles@[1],
    ensures
        local_cpus(env, read, requested) == Ok::<nat, Seq<char>>(lower_to(
            match env.parallelism {
                Some(p) => p as nat,
                None => 1,
            },
            requested,
        )),
{
    law_hostfile_index(env);
}

fn is_local(queue: &String) -> (b: bool)
    ensures
        b == is_local_queue(queue@),
{
    let local = "local".to_owned();
    *queue == local
}

/// The maximum number of cores a local run may use on this machine. It does
/// not apply to cluster workloads, whose cores are not known here. Where a
/// machinefile variable is set, `read_hostfile` is called with its position
/// in `MACHINEFILES` and gives the text of the file it names, or why that
/// cannot be read.
pub fn get_max_allowed_cpu<R>(requested: Option<usize>, env: &HostEnv, read_hostfile: R) -> (cpus: Result<usize, QueueError>)
    where
        R: FnOnce(usize) -> Result<String, String>,
    requires
        forall|i: usize| call_requires(read_hostfile, (i,)),
    ensures
        exists|read: Result<String, String>|
            hostfile_read(*env, read_hostfile, read) && cpus_as(cpus, local_cpus(*env, read, requested)),
        cpus matches Ok(n) ==> (requested matches Some(r) ==> n <= r),
        !env.machinefiles@[0] && !env.machinefiles@[1] ==> cpus == Ok::<usize, QueueError>(
            lower_to(
                match env.parallelism {
                    Some(p) => p as nat,
                    None => 1,
                },
                requested,
            ) as usize,
        ),
        env.machinefiles@[0] || env.machinefiles@[1] ==> exists|read: Result<String, String>| {
            &&& #[trigger] hostfile_read(*env, read_hostfile, read)
            &&& read matches Ok(text) ==> cpus == Ok::<usize, QueueError>(lower_to(line_count(text@), requested) as usize)
        },
{
    proof {
        law_hostfile_index(*env);
    }
    let mut i: usize = 0;
    while i < 2
        invariant
            i <= 2,
            env.machinefiles@.len() == 2,
            first_set_from(env.machinefiles@, 0) == first_set_from(env.machinefiles@, i as int),
            forall|j: usize| call_requires(read_hostfile, (j,)),
        decreases 2 - i,
    {
        if env.machinefiles[i] {
            let read = read_hostfile(i);
            let cpus = match &read {
                Ok(text) => Ok(clamp_cpus(count_lines(text.as_str()), requested)),
                Err(why) => Err(QueueError::UnreadableHostfile(why.clone())),
            };
            assert(hostfile_read(*env, read_hostfile, read));
            return cpus;
        }
        i = i + 1;
    }
    let machine_max: usize = match env.parallelism {
        Some(p) => p,
        None => 1,
    };
    let cpus = Ok(clamp_cpus(machine_max, requested));
    let ghost read: Result<String, String> = vstd::pervasive::arbitrary();
    assert(hostfile_read(*env, read_hostfile, read));
    cpus
}

fn clamp_cpus(available: usize, requested: Option<usize>) -> (n: usize)
    ensures
        n == clamp(available as nat, requested),
{
    match requested {
        Some(r) => if r < available { r } else { available },
        None => available,
    }
}

/// The first step, with the values exactly as argument parsing gives them.
#[derive(Debug, Clone)]
pub struct Step1 {
    pub queue: String,
    pub num_tasks_per_machine: Option<usize>,
    pub num_machines: usize,
}

/// The second step: the queue is decided, and so is the number of tasks per machine.
#[derive(Debug, Clone)]
pub struct Step2 {
    /// `Some(_)` if the queue system is to be used, `None` to run locally.
    pub queue: Option<String>,
    pub num_tasks_per_machine: usize,
    pub num_machines: usize,
}

impl Step1 {
    /// When running on HPC directly, no other job may be submitted to the
    /// cluster: the run is made local, on one machine. Users may be using Ert
    /// to run this program, which manages the jobs.
    pub fn enforce_local_on_hpc(self, env: &HostEnv) -> (next: Self)
        ensures
            if on_hpc(*env) && !is_local_queue(self.queue@) {
                &&& is_local_queue(next.queue@)
                &&& next.num_tasks_per_machine == self.num_tasks_per_machine
                &&& next.num_machines == 1
            } else {
                next == self
            },
            !(env.machinefiles@[0] && env.machinefiles@[1]) ==> next == self,
    {
        let are_we_on_hpc = env.machinefiles[0] && env.machinefiles[1];
        assert(are_we_on_hpc == on_hpc(*env)) by {
            if are_we_on_hpc {
                assert forall|i: int| 0 <= i < env.machinefiles@.len() implies #[trigger] env.machinefiles@[i] by {
                    assert(i == 0 || i == 1);
                }
            }
        }
        if !is_local(&self.queue) && are_we_on_hpc {
            Step1 {
                queue: "local".to_owned(),
                num_tasks_per_machine: self.num_tasks_per_machine,
                num_machines: 1,
            }
        } else {
            self
        }
    }

    /// A local run gets as many tasks per machine as the machine allows,
    /// never more than were asked for; `read_hostfile` reads the hostfile
    /// that counts the cores, as for `get_max_allowed_cpu`.
    pub fn clamp_to_available_cores<R>(self, env: &HostEnv, read_hostfile: R) -> (next: Result<Self, QueueError>)
        where
            R: FnOnce(usize) -> Result<String, String>,
        requires
            forall|i: usize| call_requires(read_hostfile, (i,)),
        ensures
            !is_local_queue(self.queue@) ==> next == Ok::<Self, QueueError>(self),
            is_local_queue(self.queue@) ==> exists|read: Result<String, String>| {
                &&& hostfile_read(*env, read_hostfile, read)
                &&& match local_cpus(*env, read, self.num_tasks_per_machine) {
                    Ok(n) => next == Ok::<Self, QueueError>(Step1 {
                        queue: self.queue,
                        num_tasks_per_machine: Some(n as usize),
                        num_machines: self.num_machines,
                    }),
                    Err(why) => next matches Err(e) && e matches QueueError::UnreadableHostfile(w) && w@ == why,
                }
            },
    {
        if is_local(&self.queue) {
            let max = get_max_allowed_cpu(self.num_tasks_per_machine, env, read_hostfile)?;
            Ok(Step1 {
                queue: self.queue,
                num_tasks_per_machine: Some(max),
                num_machines: self.num_machines,
            })
        } else {
            Ok(self)
        }
    }

    /// Fixes the number of tasks per machine, which a non-local queue must be given.
    pub fn into_step2(self) -> (next: Result<Step2, QueueError>)
        ensures
            self.num_tasks_per_machine is None ==> next == Err::<Step2, QueueError>(QueueError::MissingTasksPerMachine),
            self.num_tasks_per_machine matches Some(n) ==> next == Ok::<Step2, QueueError>(Step2 {
                queue: if is_local_queue(self.queue@) { None } else { Some(self.queue) },
                num_tasks_per_machine: n,
                num_machines: self.num_machines,
            }),
    {
        let num_tasks_per_machine = match self.num_tasks_per_machine {
            Some(n) => n,
            None => {
                return Err(QueueError::MissingTasksPerMachine);
            },
        };
        let queue = if is_local(&self.queue) {
            None
        } else {
            Some(self.queue)
        };
        Ok(Step2 { queue, num_tasks_per_machine, num_machines: self.num_machines })
    }
}

/// Where the tasks of a run are executed.
#[derive(Debug, Clone, PartialEq, Eq)]
pub enum QueueSystem {
    /// On this machine.
    Local { num_tasks_per_machine: usize },
    /// Through a cluster's job queue.
    Cluster { queue: String, num_tasks_per_machine: usize, num_machines: usize },
}

/// The total number of tasks of a queue system.
pub open spec fn total_tasks(qs: QueueSystem) -> int {
    match qs {
        QueueSystem::Local { num_tasks_per_machine } => num_tasks_per_machine as int,
        QueueSystem::Cluster { num_tasks_per_machine, num_machines, .. } => num_tasks_per_machine * num_machines,
    }
}

/// A local run has the tasks of its one machine; a cluster run has, for
/// each further machine, one machine's tasks more.
pub proof fn law_total_tasks(queue: String, num_tasks_per_machine: usize, num_machines: usize)
    ensures
        total_tasks(QueueSystem::Local { num_tasks_per_machine }) == num_tasks_per_machine,
        total_tasks(QueueSystem::Cluster { queue, num_tasks_per_machine, num_machines: 0 }) == 0,
        num_machines < usize::MAX ==> total_tasks(QueueSystem::Cluster { queue, num_tasks_per_machine, num_machines: (num_machines + 1) as usize })
            == total_tasks(QueueSystem::Cluster { queue, num_tasks_per_machine, num_machines }) + num_tasks_per_machine,
{
    assert(num_tasks_per_machine * (num_machines + 1) == num_tasks_per_machine * num_machines + num_tasks_per_machine) by (nonlinear_arith);
}

impl QueueSystem {
    /// Chooses the queue system: a run is local where the queue is "local"
    /// or where we already run inside an HPC job; a local run gets the cores
    /// this machine allows, at most as many as were asked for (reading the
    /// hostfile with `read_hostfile`, as `get_max_allowed_cpu` does); any
    /// other run goes to its queue, with the tasks and machines asked for.
    pub fn from_args<R>(
        queue: String,
        num_tasks_per_machine: Option<usize>,
        num_machines: usize,
        env: &HostEnv,
        read_hostfile: R,
    ) -> (qs: Result<Self, QueueError>)
        where
            R: FnOnce(usize) -> Result<String, String>,
        requires
            forall|i: usize| call_requires(read_hostfile, (i,)),
        ensures
            (is_local_queue(queue@) || on_hpc(*env)) ==> exists|read: Result<String, String>| {
                &&& hostfile_read(*env, read_hostfile, read)
                &&& match local_cpus(*env, read, num_tasks_per_machine) {
                    Ok(n) => qs == Ok::<Self, QueueError>(QueueSystem::Local { num_tasks_per_machine: n as usize }),
                    Err(why) => qs matches Err(e) && e matches QueueError::UnreadableHostfile(w) && w@ == why,
                }
            },
            !(is_local_queue(queue@) || on_hpc(*env)) ==> match num_tasks_per_machine {
                Some(n) => qs == Ok::<Self, QueueError>(QueueSystem::Cluster {
                    queue,
                    num_tasks_per_machine: n,
                    num_machines,
                }),
                None => qs == Err::<Self, QueueError>(QueueError::MissingTasksPerMachine),
            },
            on_hpc(*env) ==> !(qs matches Ok(QueueSystem::Cluster { .. })),
            !(env.machinefiles@[0] && env.machinefiles@[1]) && queue@ != "local"@ ==> match num_tasks_per_machine {
                Some(n) => qs == Ok::<Self, QueueError>(QueueSystem::Cluster {
                    queue,
                    num_tasks_per_machine: n,
                    num_machines,
                }),
                None => qs == Err::<Self, QueueError>(QueueError::MissingTasksPerMachine),
            },
            env.machinefiles@[0] && env.machinefiles@[1] ==> !(qs matches Ok(QueueSystem::Cluster { .. })),
            qs matches Ok(QueueSystem::Local { num_tasks_per_machine: n })
                ==> (num_tasks_per_machine matches Some(r) ==> n <= r),
    {
        proof {
            law_on_hpc_needs_every_machinefile(*env);
        }
        let step1 = Step1 { queue, num_tasks_per_machine, num_machines };
        let step2 = step1.enforce_local_on_hpc(env).clamp_to_available_cores(env, read_hostfile)?.into_step2()?;
        match step2.queue {
            Some(queue) => Ok(QueueSystem::Cluster {
                queue,
                num_tasks_per_machine: step2.num_tasks_per_machine,
                num_machines: step2.num_machines,
            }),
            None => Ok(QueueSystem::Local { num_tasks_per_machine: step2.num_tasks_per_machine }),
        }
    }

    /// The total number of tasks: per machine, times the machines.
    pub fn num_tasks(&self) -> (n: usize)
        requires
            total_tasks(*self) <= usize::MAX,
        ensures
            n == total_tasks(*self),
    {
        match self {
            QueueSystem::Local { num_tasks_per_machine } => *num_tasks_per_machine,
            QueueSystem::Cluster { num_tasks_per_machine, num_machines, .. } => *num_tasks_per_machine * *num_machines,
        }
    }
}

} // verus!
