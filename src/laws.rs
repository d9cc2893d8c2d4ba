//! Properties that hold of every report and every choice of credentials file.

use vstd::prelude::*;
use crate::checks::{Check, check_order, invocation_args};
use crate::config::{default_config_in, resolved_config};
use crate::report::{
    FindingsView,
    Section,
    report_sections,
    report_text,
    report_title,
    section_body,
    section_text,
    sections_text_of_four,
    status_line,
};
use crate::status::{Marks, is_mark};

verus! {

/// A report is its title followed by exactly one section per check, in the
/// order connectivity, node health, events, pods; each section opens with
/// the check's status line.
pub proof fn one_status_line_per_check(f: FindingsView, verbose: bool, marks: Marks)
    ensures
        report_sections(f, verbose).map_values(|s: Section| s.check) == check_order(),
        ({
            let ss = report_sections(f, verbose);
            report_text(f, verbose, marks) == report_title()
                + status_line(check_order()[0], marks.mark_of(ss[0].passed))
                + section_body(ss[0])
                + status_line(check_order()[1], marks.mark_of(ss[1].passed))
                + section_body(ss[1])
                + status_line(check_order()[2], marks.mark_of(ss[2].passed))
                + section_body(ss[2])
                + status_line(check_order()[3], marks.mark_of(ss[3].passed))
                + section_body(ss[3])
        }),
{
    let ss = report_sections(f, verbose);
    assert(ss.map_values(|s: Section| s.check) =~= check_order());
    sections_text_of_four(ss, marks);
    assert(report_text(f, verbose, marks) =~= report_title()
        + status_line(check_order()[0], marks.mark_of(ss[0].passed))
        + section_body(ss[0])
        + status_line(check_order()[1], marks.mark_of(ss[1].passed))
        + section_body(ss[1])
        + status_line(check_order()[2], marks.mark_of(ss[2].passed))
        + section_body(ss[2])
        + status_line(check_order()[3], marks.mark_of(ss[3].passed))
        + section_body(ss[3]));
}

/// A credentials file named on the command line is the one chosen, whatever
/// the home directory, and it is the file every check's invocation names.
pub proof fn named_file_used_by_every_check(flag: Seq<char>, home: Option<Seq<char>>)
    requires
        flag.len() > 0,
    ensures
        resolved_config(Some(flag), home) == Some(flag),
        forall|c: Check|
            #![trigger invocation_args(c, flag)]
            invocation_args(c, flag)[0] == "--kubeconfig"@ && invocation_args(c, flag)[1] == flag,
{
}

/// With no credentials file named, the one chosen is the default file below
/// the home directory; with no home directory either, none is chosen.
pub proof fn default_file_below_home(flag: Option<Seq<char>>, home: Option<Seq<char>>)
    requires
        flag matches Some(f) ==> f.len() == 0,
    ensures
        resolved_config(flag, home) == match home {
            Some(h) => Some(default_config_in(h)),
            None => None::<Seq<char>>,
        },
{
}

/// The connectivity mark shows a pass exactly when the connectivity
/// invocation succeeded.
pub proof fn connectivity_mark_follows_invocation(f: FindingsView, verbose: bool, marks: Marks)
    requires
        marks.wf(),
    ensures
        report_sections(f, verbose)[0].check == Check::Connectivity,
        report_sections(f, verbose)[0].passed == f.connectivity.success,
        is_mark(marks.mark_of(report_sections(f, verbose)[0].passed), f.connectivity.success),
{
}

/// The node health mark is the inverse of its invocation's success.
pub proof fn node_health_mark_inverts_invocation(f: FindingsView, verbose: bool, marks: Marks)
    requires
        marks.wf(),
    ensures
        report_sections(f, verbose)[1].check == Check::NodeHealth,
        report_sections(f, verbose)[1].passed == !f.node_health.success,
        is_mark(marks.mark_of(report_sections(f, verbose)[1].passed), !f.node_health.success),
{
}

/// The events and pods marks show a pass whatever their invocations gave.
pub proof fn events_and_pods_always_pass(f: FindingsView, verbose: bool, marks: Marks)
    requires
        marks.wf(),
    ensures
        report_sections(f, verbose)[2].check == Check::Events,
        report_sections(f, verbose)[3].check == Check::PodRestarts,
        report_sections(f, verbose)[2].passed,
        report_sections(f, verbose)[3].passed,
        is_mark(marks.mark_of(report_sections(f, verbose)[2].passed), true),
        is_mark(marks.mark_of(report_sections(f, verbose)[3].passed), true),
{
}

/// The events output and the pods output each stand in the report
/// unchanged.
pub proof fn events_and_pods_output_verbatim(f: FindingsView, verbose: bool, marks: Marks)
    ensures
        exists|i: int|
            0 <= i && i + f.events.output.len() <= report_text(f, verbose, marks).len()
                && #[trigger] report_text(f, verbose, marks).subrange(
                i,
                i + f.events.output.len(),
            ) == f.events.output,
        exists|j: int|
            0 <= j && j + f.pods.output.len() <= report_text(f, verbose, marks).len()
                && #[trigger] report_text(f, verbose, marks).subrange(
                j,
                j + f.pods.output.len(),
            ) == f.pods.output,
{
    let ss = report_sections(f, verbose);
    sections_text_of_four(ss, marks);
    let t = report_text(f, verbose, marks);
    let before_events = report_title() + section_text(ss[0], marks) + section_text(ss[1], marks)
        + status_line(Check::Events, marks.mark_of(true));
    let i = before_events.len() as int;
    assert(t =~= before_events + f.events.output + "\n"@ + section_text(ss[3], marks));
    assert(t.subrange(i, i + f.events.output.len()) =~= f.events.output);
    let before_pods = report_title() + section_text(ss[0], marks) + section_text(ss[1], marks)
        + section_text(ss[2], marks) + status_line(Check::PodRestarts, marks.mark_of(true));
    let j = before_pods.len() as int;
    assert(t =~= before_pods + f.pods.output + "\n"@);
    assert(t.subrange(j, j + f.pods.output.len()) =~= f.pods.output);
}

} // verus!
