//! Normalising the two shapes of a review report into one list of findings.
use vstd::prelude::*;
use vstd::string::*;

verus! {

/// One risk found in reviewed code.
#[derive(Debug)]
pub struct Risk {
    /// Which part of the code is concerned.
    pub which_part_of_code: String,
    /// Why it is risky.
    pub reason: String,
    /// The suggested fix.
    pub fix: String,
}

/// A review report as the service sends it: a structured list or a free text,
/// and the name of the backend that says which of the two is meant.
#[derive(Debug)]
pub struct RiskReport {
    pub risks: Vec<Risk>,
    pub plain_risks: String,
    pub backend: String,
}

/// One displayable record of a report.
#[derive(Debug)]
pub enum Finding {
    Structured(Risk),
    Plain(String),
}

#[derive(Debug)]
pub enum ResponseError {
    /// The payload is not a report at all; it carries the raw payload.
    Malformed(String),
}

/// The backend name whose reports carry the structured list.
pub open spec fn structured_backend() -> Seq<char> {
    seq!['o', 'p', 'e', 'n', 'a', 'i']
}

pub open spec fn as_structured(k: Risk) -> Finding {
    Finding::Structured(k)
}

/// The findings a report stands for: its structured list, one for one, when the
/// backend marks it so; otherwise its free text alone.
pub open spec fn findings_of(report: RiskReport) -> Seq<Finding> {
    if report.backend@ == structured_backend() {
        report.risks@.map_values(|k: Risk| as_structured(k))
    } else {
        seq![Finding::Plain(report.plain_risks)]
    }
}

fn copy_risk(k: &Risk) -> (r: Risk)
    ensures
        r == *k,
{
    Risk {
        which_part_of_code: k.which_part_of_code.clone(),
        reason: k.reason.clone(),
        fix: k.fix.clone(),
    }
}

/// The findings to display for a report.
pub fn reconcile(report: RiskReport) -> (r: Vec<Finding>)
    ensures
        r@ == findings_of(report),
        report.backend@ == structured_backend() ==> r@.len() == report.risks@.len(),
        report.backend@ != structured_backend() ==> r@.len() == 1 && r@[0] == Finding::Plain(
            report.plain_risks,
        ),
{
    let marker = String::from_str("openai");
    proof {
        reveal_strlit("openai");
        assert(marker@ =~= structured_backend());
    }
    if report.backend == marker {
        let mut out: Vec<Finding> = Vec::new();
        let mut i: usize = 0;
        while i < report.risks.len()
            invariant
                i <= report.risks@.len(),
                out@ == report.risks@.subrange(0, i as int).map_values(|k: Risk| as_structured(k)),
            decreases report.risks.len() - i,
        {
            out.push(Finding::Structured(copy_risk(&report.risks[i])));
            i = i + 1;
            assert(out@ =~= report.risks@.subrange(0, i as int).map_values(
                |k: Risk| as_structured(k),
            ));
        }
        assert(report.risks@.subrange(0, i as int) =~= report.risks@);
        out
    } else {
        let out = vec![Finding::Plain(report.plain_risks)];
        assert(out@ =~= seq![Finding::Plain(report.plain_risks)]);
        out
    }
}

/// The findings for a payload that was or was not read as a report; a payload
/// that was not is reported back whole.
pub fn reconcile_response(parsed: Option<RiskReport>, raw: String) -> (r: Result<
    Vec<Finding>,
    ResponseError,
>)
    ensures
        parsed is None ==> r == Err::<Vec<Finding>, ResponseError>(ResponseError::Malformed(raw)),
        parsed matches Some(report) ==> r matches Ok(v) && v@ == findings_of(report),
{
    match parsed {
        Some(report) => Ok(reconcile(report)),
        None => Err(ResponseError::Malformed(raw)),
    }
}

/// The text block of one risk, from its three parts as they are to be shown.
pub fn risk_block(code: &str, reason: &str, fix: &str) -> (r: String)
    ensures
        r@ == "Code  :"@ + code@ + "\nReason:"@ + reason@ + "\nFix   :"@ + fix@ + "\n"@,
{
    let mut r = String::from_str("Code  :");
    r.append(code);
    r.append("\nReason:");
    r.append(reason);
    r.append("\nFix   :");
    r.append(fix);
    r.append("\n");
    r
}

} // verus!
