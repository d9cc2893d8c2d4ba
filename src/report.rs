//! The diagnostic report: a title, then one section per check in a fixed
//! order, each a status line with the check's mark, and for some checks the
//! client's output.

use vstd::prelude::*;
use crate::checks::{Check, label_of};
use crate::outcome::{
    CheckOutcome,
    OutcomeView,
    OutputError,
    RawOutcome,
    decode_outcome,
};
use crate::status::Marks;

verus! {

/// Whether the node health output is shown when the check passes.
pub const DEFAULT_VERBOSE: bool = true;

/// The decoded outcomes of the four checks.
pub struct Findings {
    pub connectivity: CheckOutcome,
    pub node_health: CheckOutcome,
    pub events: CheckOutcome,
    pub pods: CheckOutcome,
}

/// The model of the four decoded outcomes.
pub ghost struct FindingsView {
    pub connectivity: OutcomeView,
    pub node_health: OutcomeView,
    pub events: OutcomeView,
    pub pods: OutcomeView,
}

impl View for Findings {
    type V = FindingsView;

    open spec fn view(&self) -> FindingsView {
        FindingsView {
            connectivity: self.connectivity@,
            node_health: self.node_health@,
            events: self.events@,
            pods: self.pods@,
        }
    }
}

/// The four checks' outcomes as received.
pub struct RawFindings {
    pub connectivity: RawOutcome,
    pub node_health: RawOutcome,
    pub events: RawOutcome,
    pub pods: RawOutcome,
}

impl RawFindings {
    /// The outcome of one check.
    pub open spec fn outcome_of(&self, check: Check) -> RawOutcome {
        match check {
            Check::Connectivity => self.connectivity,
            Check::NodeHealth => self.node_health,
            Check::Events => self.events,
            Check::PodRestarts => self.pods,
        }
    }

    /// Every output is valid UTF-8.
    pub open spec fn all_text(&self) -> bool {
        forall|c: Check| #[trigger] self.outcome_of(c).is_text()
    }

    /// The first check, in report order, whose output is not valid UTF-8.
    pub open spec fn first_invalid(&self) -> Option<Check> {
        if !self.connectivity.is_text() {
            Some(Check::Connectivity)
        } else if !self.node_health.is_text() {
            Some(Check::NodeHealth)
        } else if !self.events.is_text() {
            Some(Check::Events)
        } else if !self.pods.is_text() {
            Some(Check::PodRestarts)
        } else {
            None
        }
    }

    /// The outcomes with their outputs decoded.
    pub open spec fn decoded(&self) -> FindingsView {
        FindingsView {
            connectivity: self.connectivity.decoded(),
            node_health: self.node_health.decoded(),
            events: self.events.decoded(),
            pods: self.pods.decoded(),
        }
    }
}

/// One section of a report: which check, whether its mark shows a pass, and
/// the output shown below its status line, if any.
pub ghost struct Section {
    pub check: Check,
    pub passed: bool,
    pub output: Option<Seq<char>>,
}

/// Whether the node health output is shown.
pub open spec fn shows_node_output(node_success: bool, verbose: bool) -> bool {
    verbose || node_success
}

/// The sections of a report, in order. Connectivity passes when its
/// invocation succeeded. Node health passes when its invocation failed: it is
/// meant to look for nodes that are not ready, but its query hands the filter
/// to the client as literal arguments (see `query_of`) and nothing filters the
/// output here, so the mark only shows whether the listing failed. Events and
/// pods always pass and show their output unfiltered.
pub open spec fn report_sections(f: FindingsView, verbose: bool) -> Seq<Section> {
    seq![
        Section { check: Check::Connectivity, passed: f.connectivity.success, output: None },
        Section {
            check: Check::NodeHealth,
            passed: !f.node_health.success,
            output: if shows_node_output(f.node_health.success, verbose) {
                Some(f.node_health.output)
            } else {
                None
            },
        },
        Section { check: Check::Events, passed: true, output: Some(f.events.output) },
        Section { check: Check::PodRestarts, passed: true, output: Some(f.pods.output) },
    ]
}

/// The first line of every report.
pub open spec fn report_title() -> Seq<char> {
    "Kubernetes Diagnostic\n"@
}

/// A check's status line: its label and its mark.
pub open spec fn status_line(check: Check, mark: Seq<char>) -> Seq<char> {
    label_of(check) + ": "@ + mark + "\n"@
}

/// How a check's output is set below its status line.
pub open spec fn output_block(check: Check, output: Seq<char>) -> Seq<char> {
    match check {
        Check::NodeHealth => "\n"@ + output + "\n"@,
        _ => output + "\n"@,
    }
}

/// What a section shows below its status line.
pub open spec fn section_body(s: Section) -> Seq<char> {
    match s.output {
        Some(o) => output_block(s.check, o),
        None => Seq::empty(),
    }
}

/// The text of one section: its status line, then its body.
pub open spec fn section_text(s: Section, marks: Marks) -> Seq<char> {
    status_line(s.check, marks.mark_of(s.passed)) + section_body(s)
}

/// The text of several sections, one after the other.
pub open spec fn sections_text(ss: Seq<Section>, marks: Marks) -> Seq<char>
    decreases ss.len(),
{
    if ss.len() == 0 {
        Seq::empty()
    } else {
        section_text(ss[0], marks) + sections_text(ss.drop_first(), marks)
    }
}

/// The text of four sections is theirs in order.
pub proof fn sections_text_of_four(ss: Seq<Section>, marks: Marks)
    requires
        ss.len() == 4,
    ensures
        sections_text(ss, marks) == section_text(ss[0], marks) + section_text(ss[1], marks)
            + section_text(ss[2], marks) + section_text(ss[3], marks),
{
    assert(ss.drop_first().drop_first().drop_first().drop_first() =~= Seq::<Section>::empty());
    assert(ss.drop_first().drop_first().drop_first()[0] == ss[3]);
    assert(ss.drop_first().drop_first()[0] == ss[2]);
    assert(ss.drop_first()[0] == ss[1]);
    reveal_with_fuel(sections_text, 5);
    assert(sections_text(ss, marks) =~= section_text(ss[0], marks) + section_text(ss[1], marks)
        + section_text(ss[2], marks) + section_text(ss[3], marks));
}

/// The whole text of a report.
pub open spec fn report_text(f: FindingsView, verbose: bool, marks: Marks) -> Seq<char> {
    report_title() + sections_text(report_sections(f, verbose), marks)
}

/// Appends one section to a report.
fn append_section(
    report: &mut String,
    check: Check,
    passed: bool,
    output: Option<&str>,
    marks: &Marks,
)
    ensures
        final(report)@ == old(report)@ + section_text(
            (Section {
                check,
                passed,
                output: match output {
                    Some(o) => Some(o@),
                    None => None,
                },
            }),
            *marks,
        ),
{
    report.append(check.label());
    report.append(": ");
    report.append(marks.mark(passed));
    report.append("\n");
    match output {
        Some(o) => {
            if check == Check::NodeHealth {
                report.append("\n");
            }
            report.append(o);
            report.append("\n");
        },
        None => {},
    }
    proof {
        let s = Section {
            check,
            passed,
            output: match output {
                Some(o) => Some(o@),
                None => None,
            },
        };
        assert(final(report)@ =~= old(report)@ + section_text(s, *marks));
    }
}

/// Lays out the report of four decoded outcomes.
pub fn render_report(findings: &Findings, verbose: bool, marks: &Marks) -> (r: String)
    ensures
        r@ == report_text(findings@, verbose, *marks),
{
    let mut r = String::from_str("Kubernetes Diagnostic\n");
    append_section(&mut r, Check::Connectivity, findings.connectivity.success, None, marks);
    let node_success = findings.node_health.success;
    let node_output = if verbose || node_success {
        Some(findings.node_health.output.as_str())
    } else {
        None
    };
    append_section(&mut r, Check::NodeHealth, !node_success, node_output, marks);
    append_section(&mut r, Check::Events, true, Some(findings.events.output.as_str()), marks);
    append_section(&mut r, Check::PodRestarts, true, Some(findings.pods.output.as_str()), marks);
    proof {
        sections_text_of_four(report_sections(findings@, verbose), *marks);
        assert(r@ =~= report_text(findings@, verbose, *marks));
    }
    r
}

/// Decodes the four outcomes; fails on the first, in report order, whose
/// output is not valid UTF-8.
pub fn decode_findings(raw: RawFindings) -> (r: Result<Findings, OutputError>)
    ensures
        r is Ok <==> raw.first_invalid() is None,
        r matches Ok(f) ==> f@ == raw.decoded(),
        r matches Err(e) ==> raw.first_invalid() == Some(
            match e {
                OutputError::InvalidText(c) => c,
            },
        ),
{
    let RawFindings { connectivity, node_health, events, pods } = raw;
    let connectivity = match decode_outcome(Check::Connectivity, connectivity) {
        Ok(o) => o,
        Err(e) => return Err(e),
    };
    let node_health = match decode_outcome(Check::NodeHealth, node_health) {
        Ok(o) => o,
        Err(e) => return Err(e),
    };
    let events = match decode_outcome(Check::Events, events) {
        Ok(o) => o,
        Err(e) => return Err(e),
    };
    let pods = match decode_outcome(Check::PodRestarts, pods) {
        Ok(o) => o,
        Err(e) => return Err(e),
    };
    Ok(Findings { connectivity, node_health, events, pods })
}

/// The report of four outcomes as received: none when any output is not
/// valid UTF-8, naming the first such check in report order.
pub fn build_report(raw: RawFindings, verbose: bool, marks: &Marks) -> (r: Result<String, OutputError>)
    ensures
        r is Ok <==> raw.all_text(),
        r matches Ok(s) ==> s@ == report_text(raw.decoded(), verbose, *marks),
        r matches Err(e) ==> raw.first_invalid() == Some(
            match e {
                OutputError::InvalidText(c) => c,
            },
        ),
{
    proof {
        assert(raw.all_text() <==> raw.first_invalid() is None) by {
            if raw.first_invalid() is None {
                assert forall|c: Check| #[trigger] raw.outcome_of(c).is_text() by {
                    match c {
                        Check::Connectivity => {},
                        Check::NodeHealth => {},
                        Check::Events => {},
                        Check::PodRestarts => {},
                    }
                }
            }
            if raw.all_text() {
                assert(raw.outcome_of(Check::Connectivity).is_text());
                assert(raw.outcome_of(Check::NodeHealth).is_text());
                assert(raw.outcome_of(Check::Events).is_text());
                assert(raw.outcome_of(Check::PodRestarts).is_text());
            }
        }
    }
    match decode_findings(raw) {
        Ok(f) => Ok(render_report(&f, verbose, marks)),
        Err(e) => Err(e),
    }
}

} // verus!
