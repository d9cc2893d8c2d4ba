//! The four checks, the queries they make of the cluster client, and the
//! order in which they run.

use vstd::prelude::*;

verus! {

/// One of the checks a diagnostic runs.
#[derive(Clone, Copy, Debug, PartialEq, Eq, Structural)]
pub enum Check {
    Connectivity,
    NodeHealth,
    Events,
    PodRestarts,
}

/// The checks in the order in which they run and are reported.
pub open spec fn check_order() -> Seq<Check> {
    seq![Check::Connectivity, Check::NodeHealth, Check::Events, Check::PodRestarts]
}

/// The name of the cluster client's executable.
pub open spec fn client_name() -> Seq<char> {
    "kubectl"@
}

/// The query a check hands the client after the credentials file. The node
/// health query carries `| grep NotReady` as three literal arguments to the
/// client: no shell runs it, so the listing is not filtered for nodes that are
/// not ready. The pods query likewise lists all pods, not only restarted ones.
pub open spec fn query_of(check: Check) -> Seq<Seq<char>> {
    match check {
        Check::Connectivity => seq!["get"@, "nodes"@],
        Check::NodeHealth => seq!["get"@, "nodes"@, "|"@, "grep"@, "NotReady"@],
        Check::Events => seq!["get"@, "events"@, "-A"@],
        Check::PodRestarts => seq!["get"@, "pods"@, "-A"@],
    }
}

/// The whole argument list of a check's invocation with the given
/// credentials file.
pub open spec fn invocation_args(check: Check, kubeconfig: Seq<char>) -> Seq<Seq<char>> {
    seq!["--kubeconfig"@, kubeconfig] + query_of(check)
}

/// The label of a check's status line.
pub open spec fn label_of(check: Check) -> Seq<char> {
    match check {
        Check::Connectivity => "Master connectivity check"@,
        Check::NodeHealth => "Node health check"@,
        Check::Events => "Events"@,
        Check::PodRestarts => "Pods"@,
    }
}

/// The message given when a check's client cannot be started.
pub open spec fn launch_failure_of(check: Check) -> Seq<char> {
    match check {
        Check::Connectivity => "Master connectivity failed"@,
        Check::NodeHealth => "Nodes are unhealthy"@,
        Check::Events => "Get events failed"@,
        Check::PodRestarts => "Get pods failed"@,
    }
}

/// The views of a list of strings.
pub open spec fn views_of(v: Seq<String>) -> Seq<Seq<char>> {
    v.map_values(|s: String| s@)
}

/// The name of the cluster client's executable.
pub fn client_program() -> (r: &'static str)
    ensures
        r@ == client_name(),
{
    "kubectl"
}

/// Appends owned copies of `items` to `out`.
fn push_all(out: &mut Vec<String>, items: &[&str])
    ensures
        views_of(final(out)@) == views_of(old(out)@) + items@.map_values(|s: &str| s@),
{
    let mut i: usize = 0;
    while i < items.len()
        invariant
            i <= items@.len(),
            views_of(out@) == views_of(old(out)@) + items@.subrange(0, i as int).map_values(
                |s: &str| s@,
            ),
        decreases items@.len() - i,
    {
        let ghost before = out@;
        out.push(String::from_str(items[i]));
        proof {
            assert(out@ == before.push(out@.last()));
            assert(items@.subrange(0, i + 1) =~= items@.subrange(0, i as int).push(items@[i as int]));
            assert(views_of(out@) =~= views_of(before).push(items@[i as int]@));
        }
        i = i + 1;
    }
    proof {
        assert(items@.subrange(0, i as int) =~= items@);
    }
}

impl Check {
    /// The checks in the order in which they run and are reported.
    pub fn all() -> (r: Vec<Check>)
        ensures
            r@ == check_order(),
    {
        let r = vec![Check::Connectivity, Check::NodeHealth, Check::Events, Check::PodRestarts];
        proof {
            assert(r@ =~= check_order());
        }
        r
    }

    /// The arguments the client is run with for this check, given the
    /// credentials file.
    pub fn args(self, kubeconfig: &str) -> (r: Vec<String>)
        ensures
            views_of(r@) == invocation_args(self, kubeconfig@),
    {
        let mut r: Vec<String> = Vec::new();
        push_all(&mut r, &["--kubeconfig", kubeconfig]);
        match self {
            Check::Connectivity => push_all(&mut r, &["get", "nodes"]),
            Check::NodeHealth => push_all(&mut r, &["get", "nodes", "|", "grep", "NotReady"]),
            Check::Events => push_all(&mut r, &["get", "events", "-A"]),
            Check::PodRestarts => push_all(&mut r, &["get", "pods", "-A"]),
        }
        proof {
            assert(views_of(r@) =~= invocation_args(self, kubeconfig@));
        }
        r
    }

    /// The label of this check's status line.
    pub fn label(self) -> (r: &'static str)
        ensures
            r@ == label_of(self),
    {
        match self {
            Check::Connectivity => "Master connectivity check",
            Check::NodeHealth => "Node health check",
            Check::Events => "Events",
            Check::PodRestarts => "Pods",
        }
    }

    /// The message given when this check's client cannot be started.
    pub fn launch_failure(self) -> (r: &'static str)
        ensures
            r@ == launch_failure_of(self),
    {
        match self {
            Check::Connectivity => "Master connectivity failed",
            Check::NodeHealth => "Nodes are unhealthy",
            Check::Events => "Get events failed",
            Check::PodRestarts => "Get pods failed",
        }
    }
}

} // verus!
