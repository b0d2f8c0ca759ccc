//! Compliance: checks of an agent's compliance settings, and the compliance
//! section of the prompt.
use vstd::prelude::*;

use crate::data::{at, Data, DataValue};
use crate::loader::AgentManifest;
use crate::text::{join, join_seq, str_eq, views_of};

verus! {

pub struct ComplianceWarning {
    pub rule: String,
    pub message: String,
    pub severity: String,
}

pub struct WarningView {
    pub rule: Seq<char>,
    pub message: Seq<char>,
    pub severity: Seq<char>,
}

impl View for ComplianceWarning {
    type V = WarningView;

    open spec fn view(&self) -> WarningView {
        WarningView { rule: self.rule@, message: self.message@, severity: self.severity@ }
    }
}

pub open spec fn warnings_view(s: Seq<ComplianceWarning>) -> Seq<WarningView> {
    s.map_values(|w: ComplianceWarning| w@)
}

/// `value.get(key).and_then(as_str).unwrap_or("")`.
pub open spec fn str_field(d: Data, key: Seq<char>) -> Seq<char> {
    match d.get_str(key) {
        Some(s) => s,
        None => Seq::empty(),
    }
}

/// The facts about a compliance block that the checks read.
pub open spec fn risk_level(c: Data) -> Seq<char> {
    str_field(c, "risk_level"@)
}

pub open spec fn human_in_the_loop(c: Data) -> bool {
    c.get_bool("human_in_the_loop"@) == Some(true)
}

pub open spec fn has_audit(c: Data) -> bool {
    match c.get("recordkeeping"@) {
        Some(r) => r.get_bool("audit_logging"@) == Some(true),
        None => false,
    }
}

pub open spec fn has_retention(c: Data) -> bool {
    match c.get("recordkeeping"@) {
        Some(r) => r.get("retention_days"@) is Some,
        None => false,
    }
}

pub open spec fn has_frameworks(c: Data) -> bool {
    match c.get_list("regulatory_frameworks"@) {
        Some(l) => l.len() > 0,
        None => false,
    }
}

pub open spec fn high_risk(c: Data) -> bool {
    risk_level(c) == "high"@ || risk_level(c) == "critical"@
}

pub open spec fn warning(rule: Seq<char>, message: Seq<char>, severity: Seq<char>) -> WarningView {
    WarningView { rule, message, severity }
}

pub open spec fn opt_warning(cond: bool, w: WarningView) -> Seq<WarningView> {
    if cond {
        seq![w]
    } else {
        Seq::empty()
    }
}

/// The warnings for a compliance block, in this order: high risk without a
/// human in the loop; critical risk without audit logging (an error); a
/// regulated agent without recordkeeping; high risk without review; audit
/// logging without a retention period; a regulated agent without a data
/// classification.
pub open spec fn spec_compliance_warnings(c: Data) -> Seq<WarningView> {
    opt_warning(
        high_risk(c) && !human_in_the_loop(c),
        warning(
            "high_risk_hitl"@,
            "Agent with risk_level \""@ + risk_level(c) + "\" should have human_in_the_loop enabled"@,
            "warning"@,
        ),
    ) + opt_warning(
        risk_level(c) == "critical"@ && !has_audit(c),
        warning(
            "critical_audit"@,
            "Critical risk agents must have recordkeeping.audit_logging enabled"@,
            "error"@,
        ),
    ) + opt_warning(
        has_frameworks(c) && !(c.get("recordkeeping"@) is Some),
        warning(
            "regulatory_recordkeeping"@,
            "Agents with regulatory frameworks should have recordkeeping configured"@,
            "warning"@,
        ),
    ) + opt_warning(
        high_risk(c) && !(c.get("review"@) is Some),
        warning(
            "high_risk_review"@,
            "Agent with risk_level \""@ + risk_level(c) + "\" should have review configuration"@,
            "warning"@,
        ),
    ) + opt_warning(
        has_audit(c) && !has_retention(c),
        warning("audit_retention"@, "Audit logging enabled but no retention_days specified"@, "warning"@),
    ) + opt_warning(
        has_frameworks(c) && !(c.get("data_classification"@) is Some),
        warning("data_classification"@, "Regulated agents should specify data_classification"@, "warning"@),
    )
}

fn push_warning(ws: &mut Vec<ComplianceWarning>, cond: bool, rule: &str, message: String, severity: &str)
    ensures
        warnings_view(final(ws)@) == warnings_view(old(ws)@) + opt_warning(cond, warning(rule@, message@, severity@)),
{
    if cond {
        let ghost prev = ws@;
        let w = ComplianceWarning { rule: rule.to_owned(), message, severity: severity.to_owned() };
        ws.push(w);
        assert(warnings_view(ws@) =~= warnings_view(prev) + seq![w@]);
    } else {
        assert(warnings_view(ws@) =~= warnings_view(ws@) + Seq::<WarningView>::empty());
    }
}

/// Checks an agent's compliance settings; none without a compliance block.
pub fn validate_compliance(manifest: &AgentManifest) -> (r: Vec<ComplianceWarning>)
    ensures
        warnings_view(r@) == (match manifest.compliance {
            Some(c) => spec_compliance_warnings(c@),
            None => Seq::empty(),
        }),
{
    let mut ws: Vec<ComplianceWarning> = Vec::new();
    let c = match &manifest.compliance {
        Some(c) => c,
        None => {
            assert(warnings_view(ws@) =~= Seq::<WarningView>::empty());
            return ws;
        },
    };
    let risk = match c.get_str("risk_level") {
        Some(s) => s,
        None => String::new(),
    };
    let hitl = c.get_bool("human_in_the_loop") == Some(true);
    let recordkeeping = c.get("recordkeeping");
    let audit = match recordkeeping {
        Some(r) => r.get_bool("audit_logging") == Some(true),
        None => false,
    };
    let retention = match recordkeeping {
        Some(r) => r.get("retention_days").is_some(),
        None => false,
    };
    let has_recordkeeping = recordkeeping.is_some();
    let has_review = c.get("review").is_some();
    let frameworks = match c.get("regulatory_frameworks") {
        Some(v) => match v.as_list() {
            Some(l) => l.len() > 0,
            None => false,
        },
        None => false,
    };
    let classification = c.get("data_classification").is_some();
    let high = str_eq(risk.as_str(), "high") || str_eq(risk.as_str(), "critical");
    let critical = str_eq(risk.as_str(), "critical");
    assert(warnings_view(ws@) =~= Seq::<WarningView>::empty());
    push_warning(
        &mut ws,
        high && !hitl,
        "high_risk_hitl",
        "Agent with risk_level \"".to_owned().concat(risk.as_str()).concat("\" should have human_in_the_loop enabled"),
        "warning",
    );
    push_warning(
        &mut ws,
        critical && !audit,
        "critical_audit",
        "Critical risk agents must have recordkeeping.audit_logging enabled".to_owned(),
        "error",
    );
    push_warning(
        &mut ws,
        frameworks && !has_recordkeeping,
        "regulatory_recordkeeping",
        "Agents with regulatory frameworks should have recordkeeping configured".to_owned(),
        "warning",
    );
    push_warning(
        &mut ws,
        high && !has_review,
        "high_risk_review",
        "Agent with risk_level \"".to_owned().concat(risk.as_str()).concat("\" should have review configuration"),
        "warning",
    );
    push_warning(
        &mut ws,
        audit && !retention,
        "audit_retention",
        "Audit logging enabled but no retention_days specified".to_owned(),
        "warning",
    );
    push_warning(
        &mut ws,
        frameworks && !classification,
        "data_classification",
        "Regulated agents should specify data_classification".to_owned(),
        "warning",
    );
    proof {
        let cv = c@;
        assert(seq![1int].len() == 1);
        assert(warnings_view(ws@) =~= spec_compliance_warnings(cv));
    }
    ws
}

pub open spec fn warning_line(w: ComplianceWarning) -> Seq<char> {
    "  "@ + (if w.severity@ == "error"@ {
        "✗"@
    } else {
        "⚠"@
    }) + " ["@ + w.rule@ + "] "@ + w.message@
}

pub open spec fn warning_lines(s: Seq<ComplianceWarning>) -> Seq<Seq<char>> {
    s.map_values(|w: ComplianceWarning| warning_line(w))
}

/// The warnings, one per line, marked as errors or warnings.
pub fn format_compliance_warnings(warnings: &[ComplianceWarning]) -> (r: String)
    ensures
        r@ == join_seq(warning_lines(warnings@), "\n"@),
{
    let mut lines: Vec<String> = Vec::new();
    let mut i: usize = 0;
    while i < warnings.len()
        invariant
            i <= warnings@.len(),
            views_of(lines@) == warning_lines(warnings@.take(i as int)),
        decreases warnings@.len() - i,
    {
        let w = &warnings[i];
        let icon = if str_eq(w.severity.as_str(), "error") {
            "✗"
        } else {
            "⚠"
        };
        let line = "  ".to_owned().concat(icon).concat(" [").concat(w.rule.as_str()).concat("] ").concat(
            w.message.as_str(),
        );
        let ghost prev = lines@;
        lines.push(line);
        proof {
            assert(warnings@.take(i + 1) == warnings@.take(i as int).push(warnings@[i as int]));
            assert(views_of(lines@) =~= views_of(prev).push(line@));
            assert(warning_lines(warnings@.take(i + 1)) =~= warning_lines(warnings@.take(i as int)).push(
                warning_line(warnings@[i as int]),
            ));
        }
        i = i + 1;
    }
    assert(warnings@.take(warnings@.len() as int) == warnings@);
    join(&lines, "\n")
}

/// The string keys of a mapping, in order.
pub open spec fn string_keys(es: Seq<(Seq<char>, Data)>) -> Seq<Seq<char>> {
    es.map_values(|e: (Seq<char>, Data)| e.0)
}

/// The line of one scheduled check: it needs a name and a frequency.
pub open spec fn check_line(c: Data) -> Option<Seq<char>> {
    match (c.get_str("name"@), c.get_str("frequency"@)) {
        (Some(n), Some(f)) => Some(
            "- "@ + n + " ("@ + f + ")"@ + match c.get_str("description"@) {
                Some(d) => ": "@ + d,
                None => Seq::empty(),
            },
        ),
        _ => None,
    }
}

pub open spec fn check_lines(cs: Seq<Data>) -> Seq<Seq<char>>
    decreases cs.len(),
{
    if cs.len() == 0 {
        Seq::empty()
    } else {
        match check_line(cs.last()) {
            Some(l) => check_lines(cs.drop_last()).push(l),
            None => check_lines(cs.drop_last()),
        }
    }
}

/// The parts of the compliance section: the regulatory frameworks of the
/// regulatory map, and the checks of the validation schedule.
pub open spec fn compliance_parts(regulatory_map: Option<Data>, schedule: Option<Data>) -> Seq<Seq<char>> {
    (match regulatory_map {
        Some(m) => match m.get("frameworks"@) {
            Some(Data::Object(fs)) => if fs.len() > 0 {
                seq!["Regulatory frameworks: "@ + join_seq(string_keys(fs), ", "@)]
            } else {
                Seq::empty()
            },
            _ => Seq::empty(),
        },
        None => Seq::empty(),
    }) + (match schedule {
        Some(s) => match s.get_list("checks"@) {
            Some(cs) => if check_lines(cs).len() > 0 {
                seq!["Validation schedule:\n"@ + join_seq(check_lines(cs), "\n"@)]
            } else {
                Seq::empty()
            },
            None => Seq::empty(),
        },
        None => Seq::empty(),
    })
}

pub open spec fn spec_compliance_context(regulatory_map: Option<Data>, schedule: Option<Data>) -> Seq<char> {
    let parts = compliance_parts(regulatory_map, schedule);
    if parts.len() == 0 {
        Seq::empty()
    } else {
        "# Compliance\n\n"@ + join_seq(parts, "\n\n"@)
    }
}

/// The compliance section of the prompt from the parsed regulatory map and
/// validation schedule (each where it was read and parsed).
pub fn compliance_context(regulatory_map: &Option<DataValue>, schedule: &Option<DataValue>) -> (r: String)
    ensures
        r@ == spec_compliance_context(crate::data::opt_view(*regulatory_map), crate::data::opt_view(*schedule)),
{
    let mut parts: Vec<String> = Vec::new();
    if let Some(m) = regulatory_map {
        if let Some(f) = m.get("frameworks") {
            let ghost fv = f@;
            if let DataValue::Object(fs) = f {
                if fs.len() > 0 {
                    let mut names: Vec<String> = Vec::new();
                    let mut i: usize = 0;
                    while i < fs.len()
                        invariant
                            i <= fs@.len(),
                            views_of(names@) == string_keys(crate::data::pairs_view(fs@.take(i as int))),
                        decreases fs@.len() - i,
                    {
                        let ghost prev = names@;
                        names.push(fs[i].0.clone());
                        proof {
                            assert(fs@.take(i + 1) == fs@.take(i as int).push(fs@[i as int]));
                            assert(views_of(names@) =~= views_of(prev).push(fs@[i as int].0@));
                            assert(string_keys(crate::data::pairs_view(fs@.take(i + 1))) =~= string_keys(
                                crate::data::pairs_view(fs@.take(i as int)),
                            ).push(fs@[i as int].0@));
                        }
                        i = i + 1;
                    }
                    proof {
                        assert(fs@.take(fs@.len() as int) == fs@);
                        assert(fv->Object_0 =~= crate::data::pairs_view(fs@));
                    }
                    let listed = join(&names, ", ");
                    parts.push("Regulatory frameworks: ".to_owned().concat(listed.as_str()));
                }
            }
        }
    }
    let ghost first = views_of(parts@);
    if let Some(s) = schedule {
        if let Some(cv) = s.get("checks") {
            if let Some(cs) = cv.as_list() {
                let mut lines: Vec<String> = Vec::new();
                let mut i: usize = 0;
                while i < cs.len()
                    invariant
                        i <= cs@.len(),
                        views_of(lines@) == check_lines(crate::data::views(cs@.take(i as int))),
                    decreases cs@.len() - i,
                {
                    proof {
                        assert(cs@.take(i + 1) == cs@.take(i as int).push(cs@[i as int]));
                        assert(crate::data::views(cs@.take(i + 1)) =~= crate::data::views(cs@.take(i as int)).push(
                            cs@[i as int]@,
                        ));
                        assert(crate::data::views(cs@.take(i + 1)).drop_last() =~= crate::data::views(
                            cs@.take(i as int),
                        ));
                        assert(crate::data::views(cs@.take(i + 1)).last() == cs@[i as int]@);
                    }
                    let ghost cv = cs@[i as int]@;
                    let c = &cs[i];
                    let name = c.get_str("name");
                    let freq = c.get_str("frequency");
                    match (name, freq) {
                        (Some(n), Some(f)) => {
                            let base = "- ".to_owned().concat(n.as_str()).concat(" (").concat(f.as_str()).concat(")");
                            let line = match c.get_str("description") {
                                Some(d) => base.concat(": ").concat(d.as_str()),
                                None => {
                                    assert(base@ + Seq::<char>::empty() =~= base@);
                                    base
                                },
                            };
                            let ghost prev = lines@;
                            lines.push(line);
                            assert(views_of(lines@) =~= views_of(prev).push(line@));
                            assert(check_line(cv) == Some(line@));
                        },
                        _ => {
                            assert(check_line(cv) is None);
                        },
                    }
                    i = i + 1;
                }
                assert(cs@.take(cs@.len() as int) == cs@);
                if lines.len() > 0 {
                    let listed = join(&lines, "\n");
                    let ghost prev = parts@;
                    parts.push("Validation schedule:\n".to_owned().concat(listed.as_str()));
                    assert(views_of(parts@) =~= views_of(prev).push(parts@.last()@));
                }
            }
        }
    }
    assert(views_of(parts@) =~= compliance_parts(
        crate::data::opt_view(*regulatory_map),
        crate::data::opt_view(*schedule),
    ));
    if parts.len() == 0 {
        return String::new();
    }
    let body = join(&parts, "\n\n");
    "# Compliance\n\n".to_owned().concat(body.as_str())
}

} // verus!
