//! The finding that a rule reports.

use crate::severity::Severity;
use vstd::prelude::*;

verus! {

/// One finding: what a rule has to say about a log on which it fired.
#[derive(Clone, Debug)]
pub struct CheckReport {
    /// A short heading.
    pub title: String,
    /// The explanation, which may hold markdown, values taken from the log and links.
    pub description: String,
    pub severity: Severity,
}

/// A finding as contracts speak of it: its texts as sequences of characters.
pub ghost struct ReportView {
    pub title: Seq<char>,
    pub description: Seq<char>,
    pub severity: Severity,
}

impl View for CheckReport {
    type V = ReportView;

    open spec fn view(&self) -> ReportView {
        ReportView { title: self.title@, description: self.description@, severity: self.severity }
    }
}

/// The view of a finding that may be absent.
pub open spec fn report_view(report: Option<CheckReport>) -> Option<ReportView> {
    match report {
        Some(r) => Some(r@),
        None => None,
    }
}

/// The views of a list of findings, in the list's order.
pub open spec fn reports_view(reports: Seq<CheckReport>) -> Seq<ReportView> {
    reports.map_values(|r: CheckReport| r@)
}

/// The most serious level among `reports`, `Info` where there is none.
pub open spec fn highest_severity(reports: Seq<ReportView>) -> Severity
    decreases reports.len(),
{
    if reports.len() == 0 {
        Severity::Info
    } else {
        let rest = highest_severity(reports.drop_last());
        if rest.rank() >= reports.last().severity.rank() {
            rest
        } else {
            reports.last().severity
        }
    }
}

/// The level by which a whole list of findings is ranked: the most serious
/// one in it.
pub fn overall_severity(reports: &Vec<CheckReport>) -> (s: Severity)
    ensures
        s == highest_severity(reports_view(reports@)),
{
    let mut s = Severity::Info;
    let mut i: usize = 0;
    while i < reports.len()
        invariant
            i <= reports.len(),
            s == highest_severity(reports_view(reports@).take(i as int)),
        decreases reports.len() - i,
    {
        proof {
            let views = reports_view(reports@);
            assert(views.take(i + 1).drop_last() =~= views.take(i as int));
        }
        s = s.max_with(reports[i].severity);
        i += 1;
    }
    assert(reports_view(reports@).take(i as int) =~= reports_view(reports@));
    s
}

} // verus!
