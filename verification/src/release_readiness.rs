//! Release readiness: the beta and crash-rate gates for a ship decision.

use vstd::prelude::*;
use crate::beta::BetaRegistry;
use crate::text::{append_decimal, push_char, spec_decimal, spec_digit};

verus! {

/// Crash rates are parts per million of sessions; a release needs under 1%.
pub const CRASH_RATE_LIMIT_PPM: u64 = 10_000;

#[derive(Debug)]
pub struct MvpReadinessReport {
    pub ready_to_ship: bool,
    pub version: String,
    pub beta_completions: usize,
    pub beta_target: u32,
    pub beta_gate_met: bool,
    pub crash_rate_ppm: u64,
    pub crash_gate_met: bool,
    pub ffmpeg_available: bool,
    pub blockers: Vec<String>,
    pub recommendations: Vec<String>,
}

/// The crash rate as a percentage with two decimals, rounded half up.
pub open spec fn spec_percent_text(ppm: u64) -> Seq<char> {
    let h = (ppm + 50) / 100;
    spec_decimal((h / 100) as nat) + "."@ + seq![spec_digit(((h % 100) / 10) as nat), spec_digit((h % 10) as nat)]
}

pub open spec fn spec_beta_blocker(count: nat, target: u32) -> Seq<char> {
    "Beta gate: "@ + spec_decimal(count) + "/"@ + spec_decimal(target as nat) + " projects complete (need 10)"@
}

pub open spec fn spec_crash_blocker(ppm: u64) -> Seq<char> {
    "Crash rate "@ + spec_percent_text(ppm) + "% exceeds 1% threshold"@
}

/// The gates that block a release, in order.
pub open spec fn spec_blockers(beta: BetaRegistry, ppm: u64) -> Seq<Seq<char>> {
    (if beta.completions@.len() >= beta.target { Seq::empty() } else { seq![spec_beta_blocker(beta.completions@.len(), beta.target)] })
        + (if ppm < CRASH_RATE_LIMIT_PPM { Seq::empty() } else { seq![spec_crash_blocker(ppm)] })
}

pub open spec fn spec_recommendations(ffmpeg_available: bool) -> Seq<Seq<char>> {
    (if ffmpeg_available { Seq::empty() } else { seq!["Install FFmpeg for production H.264 export on server/desktop CI"@] })
        + seq![
        "Upload to TestFlight / Play Internal Testing for human beta cohort"@,
        "Link Rust engine (CINEMASTUDIO_ENGINE_LINKED) for on-device state sync"@,
    ]
}

pub open spec fn spec_texts(v: Seq<String>) -> Seq<Seq<char>> {
    v.map_values(|s: String| s@)
}

fn digit(d: u64) -> (c: char)
    requires
        d < 10,
    ensures
        c == spec_digit(d as nat),
{
    if d == 0 { '0' }
    else if d == 1 { '1' }
    else if d == 2 { '2' }
    else if d == 3 { '3' }
    else if d == 4 { '4' }
    else if d == 5 { '5' }
    else if d == 6 { '6' }
    else if d == 7 { '7' }
    else if d == 8 { '8' }
    else { '9' }
}

fn push_text(v: &mut Vec<String>, s: String)
    ensures
        spec_texts(final(v)@) == spec_texts(old(v)@).push(s@),
{
    v.push(s);
    assert(spec_texts(v@) =~= spec_texts(old(v)@).push(s@));
}

/// Whether the release may ship: the beta gate is met and the crash rate is
/// under 1%. The report lists what blocks it and what is recommended.
pub fn evaluate(beta: &BetaRegistry, crash_rate_ppm: u64, version: &str, ffmpeg_available: bool) -> (r:
    MvpReadinessReport)
    ensures
        r.beta_gate_met == (beta.completions@.len() >= beta.target),
        r.crash_gate_met == (crash_rate_ppm < CRASH_RATE_LIMIT_PPM),
        r.ready_to_ship == (r.beta_gate_met && r.crash_gate_met),
        r.version@ == version@,
        r.beta_completions == beta.completions@.len(),
        r.beta_target == beta.target,
        r.crash_rate_ppm == crash_rate_ppm,
        r.ffmpeg_available == ffmpeg_available,
        spec_texts(r.blockers@) == spec_blockers(*beta, crash_rate_ppm),
        spec_texts(r.recommendations@) == spec_recommendations(ffmpeg_available),
{
    let beta_gate = beta.gate_met();
    let crash_gate = crash_rate_ppm < CRASH_RATE_LIMIT_PPM;
    let mut blockers: Vec<String> = Vec::new();
    let mut recommendations: Vec<String> = Vec::new();
    assert(spec_texts(blockers@) =~= Seq::empty());
    assert(spec_texts(recommendations@) =~= Seq::empty());
    if !beta_gate {
        let mut m = String::from_str("Beta gate: ");
        append_decimal(&mut m, beta.count() as u64);
        m.append("/");
        append_decimal(&mut m, beta.target as u64);
        m.append(" projects complete (need 10)");
        push_text(&mut blockers, m);
    }
    let ghost after_beta = spec_texts(blockers@);
    if !crash_gate {
        let h = crash_rate_ppm / 100 + if crash_rate_ppm % 100 >= 50 { 1 } else { 0 };
        assert(h == (crash_rate_ppm + 50) / 100);
        let mut m = String::from_str("Crash rate ");
        append_decimal(&mut m, h / 100);
        m.append(".");
        push_char(&mut m, digit((h % 100) / 10));
        push_char(&mut m, digit(h % 10));
        m.append("% exceeds 1% threshold");
        assert(m@ =~= spec_crash_blocker(crash_rate_ppm));
        push_text(&mut blockers, m);
    }
    assert(spec_texts(blockers@) =~= spec_blockers(*beta, crash_rate_ppm));
    if !ffmpeg_available {
        push_text(&mut recommendations, String::from_str("Install FFmpeg for production H.264 export on server/desktop CI"));
    }
    push_text(&mut recommendations, String::from_str("Upload to TestFlight / Play Internal Testing for human beta cohort"));
    push_text(&mut recommendations, String::from_str("Link Rust engine (CINEMASTUDIO_ENGINE_LINKED) for on-device state sync"));
    assert(spec_texts(recommendations@) =~= spec_recommendations(ffmpeg_available));
    MvpReadinessReport {
        ready_to_ship: beta_gate && crash_gate,
        version: String::from_str(version),
        beta_completions: beta.count(),
        beta_target: beta.target,
        beta_gate_met: beta_gate,
        crash_rate_ppm,
        crash_gate_met: crash_gate,
        ffmpeg_available,
        blockers,
        recommendations,
    }
}

} // verus!
