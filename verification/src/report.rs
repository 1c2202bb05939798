//! Render a violation into a shareable finding (markdown) with a repro.
use vstd::prelude::*;
use crate::runner::StepViolation;
use crate::text::{decimal, push_decimal};

verus! {

/// The markdown finding for a violation at `step` with `detail`, embedding the
/// offending scenario's JSON text.
pub open spec fn finding_markdown(step: usize, detail: Seq<char>, scenario_json: Seq<char>) -> Seq<char> {
    "# perp-adversary finding\n\n**Broken at:** step "@ + decimal(step as nat) + "\n\n**Detail:** "@
        + detail + "\n\n## Minimal scenario\n\n```json\n"@ + scenario_json
        + "\n```\n\n## Repro\n\n```bash\ncargo run --bin replay -- scenarios/finding.json\n```\n"@
}

/// Render a violation and the JSON text of its scenario into a markdown
/// finding naming the broken step, the detail, and a one-command repro.
pub fn render_markdown(v: &StepViolation, scenario_json: &str) -> (md: String)
    ensures
        md@ == finding_markdown(v.step, v.detail@, scenario_json@),
{
    let mut md = String::from_str("# perp-adversary finding\n\n**Broken at:** step ");
    push_decimal(&mut md, v.step as u128);
    md.append("\n\n**Detail:** ");
    md.append(v.detail.as_str());
    md.append("\n\n## Minimal scenario\n\n```json\n");
    md.append(scenario_json);
    md.append("\n```\n\n## Repro\n\n```bash\ncargo run --bin replay -- scenarios/finding.json\n```\n");
    md
}

} // verus!
