//! Rule-based suggestion engine: offline, each rule reads the project state.

use vstd::prelude::*;
use crate::ai_orchestrator::facts::{
    any_clips, clips_of_type, count_missing_proxy, count_no_fade, count_pending, spec_any_clips, spec_clips_of_type,
    spec_count_missing_proxy, spec_count_no_fade, spec_count_pending, spec_total_clips, spec_track_with_at_least,
    total_clips, track_with_at_least,
};
use crate::ids::{new_id, now_ms};
use crate::project_state::types::{
    AiPriority, AiSuggestion, AiSuggestionType, Clip, ProjectState, SuggestionPayload, Track, TrackType, WorkflowPhase,
};
use crate::text::{append_decimal, spec_decimal, str_eq};

verus! {

pub const LONG_CLIP_MS: u64 = 60_000;

/// What a suggestion says, leaving out its random id and creation time.
pub struct SuggestionShape {
    pub suggestion_type: AiSuggestionType,
    pub priority: AiPriority,
    pub message: Seq<char>,
    pub action_id: Seq<char>,
    pub payload: SuggestionPayload,
}

pub open spec fn spec_shape(s: AiSuggestion) -> SuggestionShape {
    SuggestionShape {
        suggestion_type: s.suggestion_type,
        priority: s.priority,
        message: s.message@,
        action_id: s.action_id@,
        payload: s.payload,
    }
}

pub open spec fn spec_shapes(v: Seq<AiSuggestion>) -> Seq<SuggestionShape> {
    v.map_values(|s: AiSuggestion| spec_shape(s))
}

pub open spec fn shape(
    t: AiSuggestionType,
    p: AiPriority,
    message: Seq<char>,
    action_id: Seq<char>,
    payload: SuggestionPayload,
) -> SuggestionShape {
    SuggestionShape { suggestion_type: t, priority: p, message, action_id, payload }
}

pub open spec fn spec_rule_no_media(s: ProjectState) -> Seq<SuggestionShape> {
    if s.media@.len() == 0 {
        seq![shape(AiSuggestionType::Workflow, AiPriority::High, "Importa tu primer clip para comenzar la producción."@, "hint_import"@, SuggestionPayload::Empty)]
    } else {
        Seq::empty()
    }
}

pub open spec fn spec_rule_rough_cut(s: ProjectState) -> Seq<SuggestionShape> {
    let n = spec_count_pending(s.media@, s.timeline.tracks@);
    if n == 0 {
        Seq::empty()
    } else {
        seq![shape(
            AiSuggestionType::Organization,
            AiPriority::High,
            "Tienes "@ + spec_decimal(n) + " clip(s) sin colocar en la timeline. ¿Crear un rough cut automático?"@,
            "rough_cut"@,
            SuggestionPayload::PendingCount(n as u64),
        )]
    }
}

pub open spec fn spec_rule_no_audio(s: ProjectState) -> Seq<SuggestionShape> {
    if spec_clips_of_type(s.timeline.tracks@, TrackType::Video) && !spec_clips_of_type(s.timeline.tracks@, TrackType::Audio) {
        seq![shape(AiSuggestionType::Audio, AiPriority::Medium, "Tu proyecto no tiene pista de audio. Considera importar audio o música."@, "hint_audio"@, SuggestionPayload::Empty)]
    } else {
        Seq::empty()
    }
}

/// Seconds of a duration rounded to the nearest whole second, ties to even
/// (as `{:.0}` renders `ms / 1000.0`).
pub open spec fn spec_round_seconds(ms: u64) -> nat {
    let q = ms / 1000;
    let r = ms % 1000;
    if r > 500 || (r == 500 && q % 2 == 1) { (q + 1) as nat } else { q as nat }
}

pub open spec fn spec_is_first_long(clips: Seq<Clip>, i: int) -> bool {
    0 <= i < clips.len() && clips[i].duration_ms > LONG_CLIP_MS && forall|j: int| 0 <= j < i ==> #[trigger] clips[j].duration_ms
        <= LONG_CLIP_MS
}

pub open spec fn spec_has_long(clips: Seq<Clip>) -> bool {
    exists|i: int| 0 <= i < clips.len() && #[trigger] clips[i].duration_ms > LONG_CLIP_MS
}

pub open spec fn spec_long_clip_shape(c: Clip) -> SuggestionShape {
    shape(
        AiSuggestionType::Edit,
        AiPriority::Low,
        "El clip \""@ + c.label@ + "\" dura "@ + spec_decimal(spec_round_seconds(c.duration_ms)) + "s. Considera dividirlo para un ritmo más cinematográfico."@,
        "hint_split"@,
        SuggestionPayload::ClipId(c.id),
    )
}

/// One suggestion per track that holds a clip longer than a minute, about
/// the first such clip of the track.
pub open spec fn spec_rule_long_clips(tracks: Seq<Track>) -> Seq<SuggestionShape>
    decreases tracks.len(),
{
    if tracks.len() == 0 {
        Seq::empty()
    } else {
        let prev = spec_rule_long_clips(tracks.drop_last());
        let clips = tracks.last().clips@;
        if spec_has_long(clips) {
            prev.push(spec_long_clip_shape(clips[choose|i: int| spec_is_first_long(clips, i)]))
        } else {
            prev
        }
    }
}

pub open spec fn spec_rule_ready_to_edit(s: ProjectState) -> Seq<SuggestionShape> {
    let n = spec_total_clips(s.timeline.tracks@);
    if n > 0 && (s.workflow_state.phase == WorkflowPhase::Import || s.workflow_state.phase == WorkflowPhase::Organize) {
        seq![shape(
            AiSuggestionType::Workflow,
            AiPriority::Medium,
            "Timeline con "@ + spec_decimal(n) + " clip(s) lista. Avanzar a fase de edición."@,
            "advance_to_edit"@,
            SuggestionPayload::ClipCount(n as u64),
        )]
    } else {
        Seq::empty()
    }
}

pub open spec fn spec_rule_ready_to_export(s: ProjectState) -> Seq<SuggestionShape> {
    if spec_any_clips(s.timeline.tracks@) && (s.workflow_state.phase == WorkflowPhase::Edit || s.workflow_state.phase
        == WorkflowPhase::Review) {
        seq![shape(
            AiSuggestionType::Export,
            AiPriority::High,
            "Tu proyecto está listo para exportar en 1080p."@,
            "start_export"@,
            SuggestionPayload::Resolution { width: 1920, height: 1080 },
        )]
    } else {
        Seq::empty()
    }
}

pub open spec fn spec_rule_missing_proxy(s: ProjectState) -> Seq<SuggestionShape> {
    let n = spec_count_missing_proxy(s.media@);
    if n > 0 && spec_any_clips(s.timeline.tracks@) {
        seq![shape(
            AiSuggestionType::Workflow,
            AiPriority::Low,
            spec_decimal(n) + " clip(s) aún sin proxy. La reproducción usará archivos originales."@,
            "hint_proxy"@,
            SuggestionPayload::Count(n as u64),
        )]
    } else {
        Seq::empty()
    }
}

pub open spec fn spec_has_action(v: Seq<SuggestionShape>, a: Seq<char>) -> bool {
    exists|i: int| 0 <= i < v.len() && #[trigger] v[i].action_id == a
}

/// Fades for two or more clips without any.
pub open spec fn spec_fades_part(s: ProjectState) -> Seq<SuggestionShape> {
    let n = spec_count_no_fade(s.timeline.tracks@);
    if n >= 2 {
        seq![shape(
            AiSuggestionType::Edit,
            AiPriority::Low,
            spec_decimal(n) + " clips sin transiciones. Aplicar fades cinematográficos suaves?"@,
            "apply_default_fades"@,
            SuggestionPayload::ClipCount(n as u64),
        )]
    } else {
        Seq::empty()
    }
}

/// Organize by import order, when a track holds three clips or more and
/// nothing suggested so far does it already.
pub open spec fn spec_organize_part(s: ProjectState, so_far: Seq<SuggestionShape>) -> Seq<SuggestionShape> {
    if spec_track_with_at_least(s.timeline.tracks@, 3) && !spec_has_action(so_far, "organize_by_import_order"@) {
        seq![shape(
            AiSuggestionType::Organization,
            AiPriority::Medium,
            "Organizar clips en orden de importación para un flujo más claro."@,
            "organize_by_import_order"@,
            SuggestionPayload::Empty,
        )]
    } else {
        Seq::empty()
    }
}

/// The fade rule after the suggestions `prior`.
pub open spec fn spec_rule_fades(s: ProjectState, prior: Seq<SuggestionShape>) -> Seq<SuggestionShape> {
    spec_fades_part(s) + spec_organize_part(s, prior + spec_fades_part(s))
}

/// Every suggestion the rules make for a state, in rule order.
pub open spec fn spec_suggestions(s: ProjectState) -> Seq<SuggestionShape> {
    let before = spec_rule_no_media(s) + spec_rule_rough_cut(s) + spec_rule_no_audio(s) + spec_rule_long_clips(
        s.timeline.tracks@,
    ) + spec_rule_ready_to_edit(s) + spec_rule_ready_to_export(s) + spec_rule_missing_proxy(s);
    before + spec_rule_fades(s, before)
}

fn make(
    suggestion_type: AiSuggestionType,
    priority: AiPriority,
    message: String,
    action_id: &str,
    payload: SuggestionPayload,
) -> (r: AiSuggestion)
    ensures
        spec_shape(r) == shape(suggestion_type, priority, message@, action_id@, payload),
{
    AiSuggestion {
        id: new_id(),
        suggestion_type,
        priority,
        message,
        action_id: String::from_str(action_id),
        payload,
        created_at: now_ms(),
    }
}

fn push_shape(out: &mut Vec<AiSuggestion>, s: AiSuggestion)
    ensures
        spec_shapes(final(out)@) == spec_shapes(old(out)@).push(spec_shape(s)),
{
    out.push(s);
    assert(spec_shapes(out@) =~= spec_shapes(old(out)@).push(spec_shape(s)));
}

fn rule_no_media(state: &ProjectState, out: &mut Vec<AiSuggestion>)
    ensures
        spec_shapes(final(out)@) == spec_shapes(old(out)@) + spec_rule_no_media(*state),
{
    if state.media.len() != 0 {
        assert(spec_shapes(out@) =~= spec_shapes(out@) + Seq::<SuggestionShape>::empty());
        return;
    }
    let s = make(
        AiSuggestionType::Workflow,
        AiPriority::High,
        String::from_str("Importa tu primer clip para comenzar la producción."),
        "hint_import",
        SuggestionPayload::Empty,
    );
    push_shape(out, s);
    assert(spec_shapes(out@) =~= spec_shapes(old(out)@) + spec_rule_no_media(*state));
}

fn rule_media_not_on_timeline(state: &ProjectState, out: &mut Vec<AiSuggestion>)
    ensures
        spec_shapes(final(out)@) == spec_shapes(old(out)@) + spec_rule_rough_cut(*state),
{
    let pending = count_pending(&state.media, &state.timeline.tracks);
    if pending == 0 {
        assert(spec_shapes(out@) =~= spec_shapes(out@) + Seq::<SuggestionShape>::empty());
        return;
    }
    let mut msg = String::from_str("Tienes ");
    append_decimal(&mut msg, pending as u64);
    msg.append(" clip(s) sin colocar en la timeline. ¿Crear un rough cut automático?");
    let s = make(AiSuggestionType::Organization, AiPriority::High, msg, "rough_cut", SuggestionPayload::PendingCount(pending as u64));
    push_shape(out, s);
    assert(spec_shapes(out@) =~= spec_shapes(old(out)@) + spec_rule_rough_cut(*state));
}

fn rule_no_audio(state: &ProjectState, out: &mut Vec<AiSuggestion>)
    ensures
        spec_shapes(final(out)@) == spec_shapes(old(out)@) + spec_rule_no_audio(*state),
{
    let has_video = clips_of_type(&state.timeline.tracks, TrackType::Video);
    let has_audio = clips_of_type(&state.timeline.tracks, TrackType::Audio);
    if has_video && !has_audio {
        let s = make(
            AiSuggestionType::Audio,
            AiPriority::Medium,
            String::from_str("Tu proyecto no tiene pista de audio. Considera importar audio o música."),
            "hint_audio",
            SuggestionPayload::Empty,
        );
        push_shape(out, s);
    }
    assert(spec_shapes(out@) =~= spec_shapes(old(out)@) + spec_rule_no_audio(*state));
}

fn round_seconds(ms: u64) -> (r: u64)
    ensures
        r == spec_round_seconds(ms),
{
    let q = ms / 1000;
    let rem = ms % 1000;
    if rem > 500 || (rem == 500 && q % 2 == 1) { q + 1 } else { q }
}

proof fn lemma_first_long_unique(clips: Seq<Clip>, i: int)
    requires
        spec_is_first_long(clips, i),
    ensures
        (choose|k: int| spec_is_first_long(clips, k)) == i,
{
    let k = choose|k: int| spec_is_first_long(clips, k);
    assert(spec_is_first_long(clips, k));
    if k < i {
        assert(clips[k].duration_ms <= LONG_CLIP_MS);
    } else if i < k {
        assert(clips[i].duration_ms <= LONG_CLIP_MS);
    }
}

fn first_long(clips: &Vec<Clip>) -> (r: Option<usize>)
    ensures
        r matches Some(i) ==> spec_is_first_long(clips@, i as int),
        r is None ==> !spec_has_long(clips@),
{
    let mut c: usize = 0;
    while c < clips.len()
        invariant
            c <= clips@.len(),
            forall|j: int| 0 <= j < c ==> #[trigger] clips@[j].duration_ms <= LONG_CLIP_MS,
        decreases clips@.len() - c,
    {
        if clips[c].duration_ms > LONG_CLIP_MS {
            return Some(c);
        }
        c = c + 1;
    }
    None
}

fn rule_long_clips(state: &ProjectState, out: &mut Vec<AiSuggestion>)
    ensures
        spec_shapes(final(out)@) == spec_shapes(old(out)@) + spec_rule_long_clips(state.timeline.tracks@),
{
    let tracks = &state.timeline.tracks;
    let mut t: usize = 0;
    while t < tracks.len()
        invariant
            t <= tracks@.len(),
            spec_shapes(out@) == spec_shapes(old(out)@) + spec_rule_long_clips(tracks@.take(t as int)),
        decreases tracks@.len() - t,
    {
        let ghost before = spec_shapes(out@);
        let clips = &tracks[t].clips;
        proof {
            assert(tracks@.take(t + 1).drop_last() =~= tracks@.take(t as int));
            assert(tracks@.take(t + 1).last() == tracks@[t as int]);
        }
        match first_long(clips) {
            Some(c) => {
                let clip = &clips[c];
                proof {
                    lemma_first_long_unique(clips@, c as int);
                }
                let mut msg = String::from_str("El clip \"");
                msg.append(clip.label.as_str());
                msg.append("\" dura ");
                append_decimal(&mut msg, round_seconds(clip.duration_ms));
                msg.append("s. Considera dividirlo para un ritmo más cinematográfico.");
                let s = make(AiSuggestionType::Edit, AiPriority::Low, msg, "hint_split", SuggestionPayload::ClipId(clip.id));
                push_shape(out, s);
                assert(spec_shape(s) == spec_long_clip_shape(clips@[c as int]));
            },
            None => {},
        }
        assert(spec_shapes(out@) =~= spec_shapes(old(out)@) + spec_rule_long_clips(tracks@.take(t + 1)));
        t = t + 1;
    }
    assert(tracks@.take(tracks@.len() as int) =~= tracks@);
}

fn rule_ready_to_edit(state: &ProjectState, out: &mut Vec<AiSuggestion>)
    requires
        spec_total_clips(state.timeline.tracks@) <= usize::MAX,
    ensures
        spec_shapes(final(out)@) == spec_shapes(old(out)@) + spec_rule_ready_to_edit(*state),
{
    let clip_count = total_clips(&state.timeline.tracks);
    if clip_count == 0 {
        assert(spec_shapes(out@) =~= spec_shapes(out@) + Seq::<SuggestionShape>::empty());
        return;
    }
    if state.workflow_state.phase == WorkflowPhase::Import || state.workflow_state.phase == WorkflowPhase::Organize {
        let mut msg = String::from_str("Timeline con ");
        append_decimal(&mut msg, clip_count as u64);
        msg.append(" clip(s) lista. Avanzar a fase de edición.");
        let s = make(AiSuggestionType::Workflow, AiPriority::Medium, msg, "advance_to_edit", SuggestionPayload::ClipCount(clip_count as u64));
        push_shape(out, s);
    }
    assert(spec_shapes(out@) =~= spec_shapes(old(out)@) + spec_rule_ready_to_edit(*state));
}

fn rule_ready_to_export(state: &ProjectState, out: &mut Vec<AiSuggestion>)
    ensures
        spec_shapes(final(out)@) == spec_shapes(old(out)@) + spec_rule_ready_to_export(*state),
{
    if !any_clips(&state.timeline.tracks) {
        assert(spec_shapes(out@) =~= spec_shapes(out@) + Seq::<SuggestionShape>::empty());
        return;
    }
    if state.workflow_state.phase == WorkflowPhase::Edit || state.workflow_state.phase == WorkflowPhase::Review {
        let s = make(
            AiSuggestionType::Export,
            AiPriority::High,
            String::from_str("Tu proyecto está listo para exportar en 1080p."),
            "start_export",
            SuggestionPayload::Resolution { width: 1920, height: 1080 },
        );
        push_shape(out, s);
    }
    assert(spec_shapes(out@) =~= spec_shapes(old(out)@) + spec_rule_ready_to_export(*state));
}

fn rule_missing_proxy(state: &ProjectState, out: &mut Vec<AiSuggestion>)
    ensures
        spec_shapes(final(out)@) == spec_shapes(old(out)@) + spec_rule_missing_proxy(*state),
{
    let missing = count_missing_proxy(&state.media);
    if missing > 0 && any_clips(&state.timeline.tracks) {
        let mut msg = String::new();
        append_decimal(&mut msg, missing as u64);
        msg.append(" clip(s) aún sin proxy. La reproducción usará archivos originales.");
        let s = make(AiSuggestionType::Workflow, AiPriority::Low, msg, "hint_proxy", SuggestionPayload::Count(missing as u64));
        push_shape(out, s);
    }
    assert(spec_shapes(out@) =~= spec_shapes(old(out)@) + spec_rule_missing_proxy(*state));
}

fn has_action(out: &Vec<AiSuggestion>, action_id: &str) -> (r: bool)
    ensures
        r == spec_has_action(spec_shapes(out@), action_id@),
{
    let mut i: usize = 0;
    while i < out.len()
        invariant
            i <= out@.len(),
            forall|k: int| 0 <= k < i ==> #[trigger] out@[k].action_id@ != action_id@,
        decreases out@.len() - i,
    {
        if str_eq(out[i].action_id.as_str(), action_id) {
            assert(spec_shapes(out@)[i as int].action_id == action_id@);
            return true;
        }
        i = i + 1;
    }
    assert forall|k: int| 0 <= k < spec_shapes(out@).len() implies #[trigger] spec_shapes(out@)[k].action_id != action_id@ by {
        assert(spec_shapes(out@)[k] == spec_shape(out@[k]));
    }
    false
}

fn rule_clips_without_fades(state: &ProjectState, out: &mut Vec<AiSuggestion>)
    requires
        spec_total_clips(state.timeline.tracks@) <= usize::MAX,
    ensures
        spec_shapes(final(out)@) == spec_shapes(old(out)@) + spec_rule_fades(*state, spec_shapes(old(out)@)),
{
    let no_fade = count_no_fade(&state.timeline.tracks);
    if no_fade >= 2 {
        let mut msg = String::new();
        append_decimal(&mut msg, no_fade as u64);
        msg.append(" clips sin transiciones. Aplicar fades cinematográficos suaves?");
        let s = make(AiSuggestionType::Edit, AiPriority::Low, msg, "apply_default_fades", SuggestionPayload::ClipCount(no_fade as u64));
        push_shape(out, s);
    }
    assert(spec_shapes(out@) =~= spec_shapes(old(out)@) + spec_fades_part(*state));
    if track_with_at_least(&state.timeline.tracks, 3) && !has_action(out, "organize_by_import_order") {
        let s = make(
            AiSuggestionType::Organization,
            AiPriority::Medium,
            String::from_str("Organizar clips en orden de importación para un flujo más claro."),
            "organize_by_import_order",
            SuggestionPayload::Empty,
        );
        push_shape(out, s);
    }
    assert(spec_shapes(out@) =~= spec_shapes(old(out)@) + spec_rule_fades(*state, spec_shapes(old(out)@)));
}

/// The suggestions for a state, in rule order; each gets a fresh id and the
/// current time.
pub fn generate_suggestions(state: &ProjectState) -> (r: Vec<AiSuggestion>)
    requires
        spec_total_clips(state.timeline.tracks@) <= usize::MAX,
    ensures
        spec_shapes(r@) == spec_suggestions(*state),
{
    let mut out: Vec<AiSuggestion> = Vec::new();
    rule_no_media(state, &mut out);
    rule_media_not_on_timeline(state, &mut out);
    rule_no_audio(state, &mut out);
    rule_long_clips(state, &mut out);
    rule_ready_to_edit(state, &mut out);
    rule_ready_to_export(state, &mut out);
    rule_missing_proxy(state, &mut out);
    let ghost before = spec_shapes(out@);
    assert(before =~= spec_rule_no_media(*state) + spec_rule_rough_cut(*state) + spec_rule_no_audio(*state)
        + spec_rule_long_clips(state.timeline.tracks@) + spec_rule_ready_to_edit(*state) + spec_rule_ready_to_export(*state)
        + spec_rule_missing_proxy(*state));
    rule_clips_without_fades(state, &mut out);
    out
}

} // verus!
