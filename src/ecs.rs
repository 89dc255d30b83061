//! Choices made while finding the container to open a shell in: which
//! profiles the configuration offers, which cluster and task are used, how
//! services are described in batches, and the `aws ecs execute-command`
//! invocation that the session runs.

use vstd::prelude::*;

verus! {

/// Relies on `str::ends_with`: whether `suffix` ends `s`.
#[verifier::external_body]
fn ends_with(s: &str, suffix: &str) -> (r: bool)
    ensures
        r == suffix@.is_suffix_of(s@),
{
    s.ends_with(suffix)
}

/// Relies on `str::starts_with`: whether `prefix` begins `s`.
#[verifier::external_body]
fn starts_with(s: &str, prefix: &str) -> (r: bool)
    ensures
        r == prefix@.is_prefix_of(s@),
{
    s.starts_with(prefix)
}

/// `s` with `to` put before each of its characters and at its end: what
/// replacing the empty pattern gives.
pub open spec fn interleaved(s: Seq<char>, to: Seq<char>) -> Seq<char>
    decreases s.len(),
{
    if s.len() == 0 {
        to
    } else {
        to + seq![s[0]] + interleaved(s.drop_first(), to)
    }
}

/// `s` with every match of `from` replaced by `to`, the matches taken from
/// the left without overlap; an empty `from` matches before each character
/// and at the end.
pub open spec fn replaced(s: Seq<char>, from: Seq<char>, to: Seq<char>) -> Seq<char>
    decreases s.len(),
{
    if from.len() == 0 {
        interleaved(s, to)
    } else if s.len() < from.len() {
        s
    } else if s.subrange(0, from.len() as int) == from {
        to + replaced(s.subrange(from.len() as int, s.len() as int), from, to)
    } else {
        seq![s[0]] + replaced(s.drop_first(), from, to)
    }
}

/// Relies on `str::replace`: every match of `from`, leftmost first and not
/// overlapping, replaced by `to`.
#[verifier::external_body]
fn replace(s: &str, from: &str, to: &str) -> (r: String)
    ensures
        r@ == replaced(s@, from@, to@),
{
    s.replace(from, to)
}

/// Prefix of a configuration section that names a profile.
pub const PROFILE_PREFIX: &'static str = "profile ";

/// Suffix of the name of the cluster to use.
pub const MAIN_CLUSTER_SUFFIX: &'static str = "-main";

/// How many services one describe request names at most.
pub const SERVICE_BATCH: usize = 10;

/// The profiles that configuration sections name, in order: each section
/// whose name begins with the profile prefix, with that prefix removed.
pub open spec fn profiles_of(sections: Seq<Seq<char>>) -> Seq<Seq<char>>
    decreases sections.len(),
{
    if sections.len() == 0 {
        Seq::empty()
    } else {
        let rest = profiles_of(sections.drop_last());
        let s = sections.last();
        if PROFILE_PREFIX@.is_prefix_of(s) {
            rest.push(replaced(s, PROFILE_PREFIX@, Seq::empty()))
        } else {
            rest
        }
    }
}

/// The views of a list of strings.
pub open spec fn views(v: Seq<String>) -> Seq<Seq<char>> {
    v.map_values(|s: String| s@)
}

/// The profile names among the configuration's section names.
pub fn profile_names(sections: &Vec<String>) -> (r: Vec<String>)
    ensures
        views(r@) == profiles_of(views(sections@)),
{
    let mut r: Vec<String> = Vec::new();
    let mut i: usize = 0;
    while i < sections.len()
        invariant
            i <= sections@.len(),
            views(r@) == profiles_of(views(sections@.subrange(0, i as int))),
        decreases sections@.len() - i,
    {
        let s = sections[i].as_str();
        proof {
            assert(views(sections@.subrange(0, i + 1)).drop_last() =~= views(
                sections@.subrange(0, i as int),
            ));
            assert(views(sections@.subrange(0, i + 1)).last() == s@);
            reveal_strlit("");
            assert(""@ =~= Seq::<char>::empty());
        }
        if starts_with(s, PROFILE_PREFIX) {
            let name = replace(s, PROFILE_PREFIX, "");
            let ghost prev = r@;
            r.push(name);
            proof {
                assert(views(r@) =~= views(prev).push(r@.last()@));
            }
        }
        i = i + 1;
    }
    proof {
        assert(sections@.subrange(0, sections@.len() as int) =~= sections@);
    }
    r
}

/// What a cluster description gives: its name and its ARN, where present.
pub struct ClusterInfo {
    pub name: Option<String>,
    pub arn: Option<String>,
}

/// Whether a cluster is the one to use: named with the main suffix and
/// with an ARN.
pub open spec fn is_main_cluster(c: ClusterInfo) -> bool {
    &&& c.name matches Some(n) && MAIN_CLUSTER_SUFFIX@.is_suffix_of(n@)
    &&& c.arn is Some
}

/// The ARN of the first cluster to use, or the empty string if none is.
pub open spec fn main_cluster_of(cs: Seq<ClusterInfo>) -> Seq<char>
    decreases cs.len(),
{
    if cs.len() == 0 {
        Seq::empty()
    } else if is_main_cluster(cs[0]) {
        cs[0].arn->Some_0@
    } else {
        main_cluster_of(cs.drop_first())
    }
}

/// The ARN of the first listed cluster whose name ends in the main suffix
/// and that has an ARN; empty if there is none.
pub fn main_cluster_arn(clusters: &Vec<ClusterInfo>) -> (r: String)
    ensures
        r@ == main_cluster_of(clusters@),
{
    let mut i: usize = 0;
    proof {
        assert(clusters@.subrange(0, clusters@.len() as int) =~= clusters@);
    }
    while i < clusters.len()
        invariant
            i <= clusters@.len(),
            main_cluster_of(clusters@) == main_cluster_of(clusters@.subrange(i as int, clusters@.len() as int)),
        decreases clusters@.len() - i,
    {
        let c = &clusters[i];
        proof {
            let rest = clusters@.subrange(i as int, clusters@.len() as int);
            assert(rest[0] == clusters@[i as int]);
            assert(rest.drop_first() =~= clusters@.subrange(i + 1, clusters@.len() as int));
        }
        if let Some(name) = &c.name {
            if ends_with(name.as_str(), MAIN_CLUSTER_SUFFIX) {
                if let Some(arn) = &c.arn {
                    return arn.clone();
                }
            }
        }
        i = i + 1;
    }
    proof {
        assert(clusters@.subrange(i as int, clusters@.len() as int).len() == 0);
    }
    String::new()
}

/// The first task ARN present among a task listing's entries, or the empty
/// string if none is.
pub open spec fn first_task_of(ts: Seq<Option<String>>) -> Seq<char>
    decreases ts.len(),
{
    if ts.len() == 0 {
        Seq::empty()
    } else {
        match ts[0] {
            Some(a) => a@,
            None => first_task_of(ts.drop_first()),
        }
    }
}

/// The first task ARN that a description gives; empty if there is none.
pub fn first_task_arn(tasks: &Vec<Option<String>>) -> (r: String)
    ensures
        r@ == first_task_of(tasks@),
{
    let mut i: usize = 0;
    proof {
        assert(tasks@.subrange(0, tasks@.len() as int) =~= tasks@);
    }
    while i < tasks.len()
        invariant
            i <= tasks@.len(),
            first_task_of(tasks@) == first_task_of(tasks@.subrange(i as int, tasks@.len() as int)),
        decreases tasks@.len() - i,
    {
        proof {
            let rest = tasks@.subrange(i as int, tasks@.len() as int);
            assert(rest[0] == tasks@[i as int]);
            assert(rest.drop_first() =~= tasks@.subrange(i + 1, tasks@.len() as int));
        }
        if let Some(arn) = &tasks[i] {
            return arn.clone();
        }
        i = i + 1;
    }
    proof {
        assert(tasks@.subrange(i as int, tasks@.len() as int).len() == 0);
    }
    String::new()
}


/// The arguments of the `aws` invocation that opens an interactive command
/// in a task's container.
pub open spec fn exec_args_of(
    profile: Seq<char>,
    region: Seq<char>,
    cluster: Seq<char>,
    task: Seq<char>,
    container: Seq<char>,
    command: Seq<char>,
) -> Seq<Seq<char>> {
    seq![
        "--profile"@, profile, "--region"@, region, "ecs"@, "execute-command"@,
        "--cluster"@, cluster, "--task"@, task, "--container"@, container,
        "--interactive"@, "--command"@, command,
    ]
}

/// Program that the session runs.
pub const AWS_PROGRAM: &'static str = "aws";

/// The arguments that make `aws` run `command` interactively in the
/// container of the given task.
pub fn exec_command_args(
    profile: &str,
    region: &str,
    cluster: &str,
    task: &str,
    container: &str,
    command: &str,
) -> (r: Vec<String>)
    ensures
        views(r@) == exec_args_of(profile@, region@, cluster@, task@, container@, command@),
{
    let mut r: Vec<String> = Vec::new();
    r.push("--profile".to_owned());
    r.push(profile.to_owned());
    r.push("--region".to_owned());
    r.push(region.to_owned());
    r.push("ecs".to_owned());
    r.push("execute-command".to_owned());
    r.push("--cluster".to_owned());
    r.push(cluster.to_owned());
    r.push("--task".to_owned());
    r.push(task.to_owned());
    r.push("--container".to_owned());
    r.push(container.to_owned());
    r.push("--interactive".to_owned());
    r.push("--command".to_owned());
    r.push(command.to_owned());
    proof {
        assert(views(r@) =~= exec_args_of(profile@, region@, cluster@, task@, container@, command@));
    }
    r
}

/// The `j`-th batch of `n` items cut into batches of the batch size: its
/// start and its end.
pub open spec fn batch_bounds(n: int, j: int) -> (int, int) {
    let start = j * SERVICE_BATCH;
    (start, if start + SERVICE_BATCH <= n { start + SERVICE_BATCH } else { n })
}

/// How many batches `n` items make.
pub open spec fn batch_count(n: int) -> int {
    (n + SERVICE_BATCH - 1) / SERVICE_BATCH as int
}

/// The service ARNs cut, in order, into batches of at most the batch size,
/// all full but the last.
pub fn service_batches(arns: &Vec<String>) -> (r: Vec<Vec<String>>)
    ensures
        r@.len() == batch_count(arns@.len() as int),
        forall|j: int|
            0 <= j < r@.len() ==> views((#[trigger] r@[j])@) == views(
                arns@.subrange(
                    batch_bounds(arns@.len() as int, j).0,
                    batch_bounds(arns@.len() as int, j).1,
                ),
            ),
{
    let n = arns.len();
    let mut r: Vec<Vec<String>> = Vec::new();
    let mut start: usize = 0;
    while start < n
        invariant
            n == arns@.len(),
            start <= n,
            start < n ==> start == r@.len() * SERVICE_BATCH,
            forall|j: int|
                0 <= j < r@.len() ==> views((#[trigger] r@[j])@) == views(
                    arns@.subrange(batch_bounds(n as int, j).0, batch_bounds(n as int, j).1),
                ),
            start < n ==> r@.len() < batch_count(n as int),
            start >= n ==> r@.len() == batch_count(n as int),
        decreases n - start,
    {
        let end: usize = if n - start > SERVICE_BATCH { start + SERVICE_BATCH } else { n };
        let mut batch: Vec<String> = Vec::new();
        let mut k: usize = start;
        while k < end
            invariant
                start <= k <= end,
                end <= n,
                n == arns@.len(),
                views(batch@) == views(arns@.subrange(start as int, k as int)),
            decreases end - k,
        {
            let item = arns[k].clone();
            let ghost prev = batch@;
            batch.push(item);
            proof {
                assert(views(batch@) =~= views(prev).push(arns@[k as int]@));
                assert(arns@.subrange(start as int, k + 1) =~= arns@.subrange(
                    start as int,
                    k as int,
                ).push(arns@[k as int]));
                assert(views(arns@.subrange(start as int, k + 1)) =~= views(
                    arns@.subrange(start as int, k as int),
                ).push(arns@[k as int]@));
            }
            k = k + 1;
        }
        let ghost prev_r = r@;
        r.push(batch);
        proof {
            let j = prev_r.len() as int;
            assert(batch_bounds(n as int, j) == (start as int, end as int));
            assert forall|i: int|
                0 <= i < r@.len() implies views((#[trigger] r@[i])@) == views(
                arns@.subrange(batch_bounds(n as int, i).0, batch_bounds(n as int, i).1),
            ) by {
                if i < j {
                    assert(r@[i] == prev_r[i]);
                }
            }
            assert(r@.len() * SERVICE_BATCH == start + SERVICE_BATCH) by (nonlinear_arith)
                requires
                    r@.len() == prev_r.len() + 1,
                    start == prev_r.len() * SERVICE_BATCH,
            ;
            let len = r@.len() as int;
            if end < n {
                assert(len < (n + 9) / 10) by (nonlinear_arith)
                    requires
                        len * 10 == start + 10,
                        start + 10 < n,
                ;
            } else {
                assert(len == (n + 9) / 10) by (nonlinear_arith)
                    requires
                        len * 10 == start + 10,
                        start < n,
                        n <= start + 10,
                ;
            }
        }
        start = if end < n { start + SERVICE_BATCH } else { n };
    }
    r
}

} // verus!
