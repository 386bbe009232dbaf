//! The run report: a table of scenario outcomes, or a fixed failure
//! message, rendered exactly as it is published back to the pull request.

use vstd::prelude::*;

use crate::text::dec_str;
use crate::text::u64_to_string;

verus! {

/// One scenario's outcome as returned by the profiling service.
pub struct ScenarioOutcome {
    pub name: String,
    pub status: String,
    pub time_ms: u64,
}

/// The mathematical value of a [`ScenarioOutcome`].
#[verifier::ext_equal]
pub ghost struct ScenarioOutcomeV {
    pub name: Seq<char>,
    pub status: Seq<char>,
    pub time_ms: u64,
}

impl View for ScenarioOutcome {
    type V = ScenarioOutcomeV;

    open spec fn view(&self) -> ScenarioOutcomeV {
        ScenarioOutcomeV { name: self.name@, status: self.status@, time_ms: self.time_ms }
    }
}

impl DeepView for ScenarioOutcome {
    type V = ScenarioOutcomeV;

    open spec fn deep_view(&self) -> ScenarioOutcomeV {
        self.view()
    }
}

/// The report published when the profiling wait times out.
pub open spec fn timeout_message() -> Seq<char> {
    "Timeout while waiting for profiling to complete."@
}

/// The report published when fetching the profiling results fails.
pub open spec fn fetch_failure_message() -> Seq<char> {
    "Failed to retrieve profiling results."@
}

/// The report published when uploading the artifact fails.
pub open spec fn upload_failure_message() -> Seq<char> {
    "Failed to upload the artifact for profiling."@
}

pub fn timeout_message_text() -> (r: &'static str)
    ensures
        r@ == timeout_message(),
{
    "Timeout while waiting for profiling to complete."
}

pub fn fetch_failure_message_text() -> (r: &'static str)
    ensures
        r@ == fetch_failure_message(),
{
    "Failed to retrieve profiling results."
}

pub fn upload_failure_message_text() -> (r: &'static str)
    ensures
        r@ == upload_failure_message(),
{
    "Failed to upload the artifact for profiling."
}

/// The table's fixed header line.
pub open spec fn header_line() -> Seq<char> {
    "Scenario | Status | Time (ms)"@
}

/// The table's fixed separator line.
pub open spec fn separator_line() -> Seq<char> {
    "---------|--------|----------"@
}

/// The table row for one scenario outcome, cells verbatim.
pub open spec fn row_line(o: ScenarioOutcomeV) -> Seq<char> {
    o.name + " | "@ + o.status + " | "@ + dec_str(o.time_ms as int)
}

/// The lines of the report table: header, separator, one row per outcome
/// in the order the profiling service returned them.
pub open spec fn report_lines(outs: Seq<ScenarioOutcomeV>) -> Seq<Seq<char>> {
    seq![header_line(), separator_line()] + Seq::new(outs.len(), |i: int| row_line(outs[i]))
}

/// The given lines, each terminated by a newline.
pub open spec fn join_lines(ls: Seq<Seq<char>>) -> Seq<char>
    decreases ls.len(),
{
    if ls.len() == 0 {
        Seq::<char>::empty()
    } else {
        ls[0] + seq!['\n'] + join_lines(ls.drop_first())
    }
}

/// The full table report for the given outcomes.
pub open spec fn table_report(outs: Seq<ScenarioOutcomeV>) -> Seq<char> {
    join_lines(report_lines(outs))
}

/// Renders the report table for `outs`.
pub fn render_table(outs: &Vec<ScenarioOutcome>) -> (r: String)
    ensures
        r@ == table_report(outs.deep_view()),
{
    let ghost dv = outs.deep_view();
    let ghost lines = report_lines(dv);
    let mut r = String::new();
    r.append("Scenario | Status | Time (ms)");
    r.append("\n");
    r.append("---------|--------|----------");
    r.append("\n");
    proof {
        reveal_strlit("\n");
        assert(lines.len() == 2 + dv.len());
        assert(lines[0] == header_line());
        assert(lines[1] == separator_line());
        assert(lines.drop_first().drop_first() =~= lines.skip(2));
        assert(lines.drop_first()[0] == lines[1]);
        assert(lines.drop_first().len() == lines.len() - 1);
        assert(join_lines(lines) == lines[0] + seq!['\n'] + join_lines(lines.drop_first()));
        assert(join_lines(lines.drop_first()) == lines[1] + seq!['\n'] + join_lines(
            lines.skip(2),
        ));
        assert(r@ + join_lines(lines.skip(2)) =~= join_lines(lines));
    }
    let n = outs.len();
    let mut i: usize = 0;
    while i < n
        invariant
            n == outs@.len(),
            i <= n,
            dv == outs.deep_view(),
            lines == report_lines(dv),
            dv.len() == n,
            lines.len() == 2 + n,
            r@ + join_lines(lines.skip(2 + i as int)) == join_lines(lines),
        decreases n - i,
    {
        proof {
            reveal_strlit("\n");
            assert(dv[i as int] == outs@[i as int].deep_view());
            assert(lines[2 + i as int] == row_line(dv[i as int]));
        }
        r.append(outs[i].name.as_str());
        r.append(" | ");
        r.append(outs[i].status.as_str());
        r.append(" | ");
        let t = u64_to_string(outs[i].time_ms);
        r.append(t.as_str());
        r.append("\n");
        proof {
            let ghost tail = lines.skip(2 + i as int);
            assert(tail[0] == lines[2 + i as int]);
            assert(tail.drop_first() =~= lines.skip(2 + i as int + 1));
            assert(r@ + join_lines(lines.skip(2 + i as int + 1)) =~= join_lines(lines));
        }
        i = i + 1;
    }
    proof {
        assert(lines.skip(2 + n as int) =~= Seq::<Seq<char>>::empty());
        assert(r@ =~= join_lines(lines));
    }
    r
}

} // verus!
