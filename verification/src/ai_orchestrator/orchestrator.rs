//! The assistant over a manager: analysis, dismissal, suggestion lookup.

use vstd::prelude::*;
use crate::ai_orchestrator::facts::{lemma_total_clips_same_counts, spec_total_clips};
use crate::ai_orchestrator::execute::{
    execute, spec_advance_outcome, spec_durations_fit, spec_done, spec_execute_outcome, spec_fades_outcome, ActionOutcome,
};
use crate::ai_orchestrator::rules::{generate_suggestions, spec_shape, spec_shapes, spec_suggestions, SuggestionShape};
use crate::ai_orchestrator::workflow::{infer_phase, spec_infer_phase};
use crate::error::{validation_error, CinemaError, Result};
use crate::event_bus::CinemaEvent;
use crate::project_state::manager::{
    contains_text, spec_contains_text, spec_mutated, spec_phase_name, spec_without_suggestion, ManagerView, Mutation,
    ProjectStateManager,
};
use crate::project_state::types::{
    AiPriority, AiStateView, AiSuggestion, ProjectState, ProjectStateView, Track, WorkflowPhase, WorkflowStateView,
};
use crate::project_state::validation::{lemma_issues_depend_on_content, spec_errors, spec_join_issues, spec_state_valid, spec_validation_issues};
use crate::text::{spec_starts_with, starts_with};

verus! {

/// Keeps a suggestion whose action the user has not dismissed.
pub open spec fn spec_not_dismissed(dismissed: Seq<String>) -> spec_fn(SuggestionShape) -> bool {
    |x: SuggestionShape| !spec_contains_text(dismissed, x.action_id)
}

pub open spec fn spec_of_priority(p: AiPriority) -> spec_fn(SuggestionShape) -> bool {
    |x: SuggestionShape| x.priority == p
}

/// A stable sort by descending priority: the high ones, then the medium,
/// then the low, each group in the order it had.
pub open spec fn spec_by_priority(v: Seq<SuggestionShape>) -> Seq<SuggestionShape> {
    v.filter(spec_of_priority(AiPriority::High)) + v.filter(spec_of_priority(AiPriority::Medium)) + v.filter(
        spec_of_priority(AiPriority::Low),
    )
}

/// Rank of a priority: high 3, medium 2, low 1.
pub open spec fn spec_priority_rank(p: AiPriority) -> nat {
    match p {
        AiPriority::High => 3,
        AiPriority::Medium => 2,
        AiPriority::Low => 1,
    }
}

pub fn priority_rank(p: AiPriority) -> (r: u8)
    ensures
        r == spec_priority_rank(p),
{
    match p {
        AiPriority::High => 3,
        AiPriority::Medium => 2,
        AiPriority::Low => 1,
    }
}

/// The analysis lists suggestions from the highest priority down: no
/// suggestion outranks one listed before it.
pub proof fn lemma_by_priority_descending(v: Seq<SuggestionShape>, i: int, j: int)
    requires
        0 <= i < j < spec_by_priority(v).len(),
    ensures
        spec_priority_rank(spec_by_priority(v)[i].priority) >= spec_priority_rank(spec_by_priority(v)[j].priority),
{
    let h = v.filter(spec_of_priority(AiPriority::High));
    let m = v.filter(spec_of_priority(AiPriority::Medium));
    let l = v.filter(spec_of_priority(AiPriority::Low));
    let all = spec_by_priority(v);
    assert(all == h + m + l);
    if i < h.len() {
        v.lemma_filter_pred(spec_of_priority(AiPriority::High), i);
        assert(all[i] == h[i]);
    } else if i < h.len() + m.len() {
        v.lemma_filter_pred(spec_of_priority(AiPriority::Medium), i - h.len());
        assert(all[i] == m[i - h.len()]);
        if j < h.len() + m.len() {
            v.lemma_filter_pred(spec_of_priority(AiPriority::Medium), j - h.len());
            assert(all[j] == m[j - h.len()]);
        } else {
            v.lemma_filter_pred(spec_of_priority(AiPriority::Low), j - h.len() - m.len());
            assert(all[j] == l[j - h.len() - m.len()]);
        }
    } else {
        v.lemma_filter_pred(spec_of_priority(AiPriority::Low), i - h.len() - m.len());
        v.lemma_filter_pred(spec_of_priority(AiPriority::Low), j - h.len() - m.len());
        assert(all[i] == l[i - h.len() - m.len()]);
        assert(all[j] == l[j - h.len() - m.len()]);
    }
}

/// What an analysis offers for a state: the rules' suggestions whose action
/// was not dismissed, by priority.
pub open spec fn spec_analysis(s: ProjectState) -> Seq<SuggestionShape> {
    spec_by_priority(spec_suggestions(s).filter(spec_not_dismissed(s.ai_state.dismissed_action_ids@)))
}

/// An analysis never offers an action that the user has dismissed.
pub proof fn lemma_analysis_omits_dismissed(s: ProjectState, i: int)
    requires
        0 <= i < spec_analysis(s).len(),
    ensures
        !spec_contains_text(s.ai_state.dismissed_action_ids@, spec_analysis(s)[i].action_id),
{
    let nd = spec_not_dismissed(s.ai_state.dismissed_action_ids@);
    let w = spec_suggestions(s).filter(nd);
    let h = w.filter(spec_of_priority(AiPriority::High));
    let m = w.filter(spec_of_priority(AiPriority::Medium));
    let l = w.filter(spec_of_priority(AiPriority::Low));
    let all = spec_analysis(s);
    assert(all == h + m + l);
    let x = all[i];
    if i < h.len() {
        assert(h[i] == x);
        assert(h.contains(x));
        w.lemma_filter_contains_rev(spec_of_priority(AiPriority::High), x);
    } else if i < h.len() + m.len() {
        assert(m[i - h.len()] == x);
        assert(m.contains(x));
        w.lemma_filter_contains_rev(spec_of_priority(AiPriority::Medium), x);
    } else {
        assert(l[i - h.len() - m.len()] == x);
        assert(l.contains(x));
        w.lemma_filter_contains_rev(spec_of_priority(AiPriority::Low), x);
    }
    let k = choose|k: int| 0 <= k < w.len() && w[k] == x;
    spec_suggestions(s).lemma_filter_pred(nd, k);
}

/// Once a suggestion is dismissed, its action (unless a hint) is among the
/// dismissed ones, so no later analysis offers it again.
pub proof fn lemma_dismissed_action_not_offered(dismissed: Seq<String>, action: String, s: ProjectState, i: int)
    requires
        !spec_starts_with(action@, "hint_"@),
        s.ai_state.dismissed_action_ids@ == spec_dismissed_actions(dismissed, action),
        0 <= i < spec_analysis(s).len(),
    ensures
        spec_analysis(s)[i].action_id != action@,
{
    lemma_analysis_omits_dismissed(s, i);
    if !spec_contains_text(dismissed, action@) {
        let d1 = dismissed.push(action);
        assert(d1[dismissed.len() as int]@ == action@);
    }
}

/// One creation event per suggestion, in order.
pub open spec fn spec_created_events(project_id: u128, v: Seq<AiSuggestion>) -> Seq<CinemaEvent> {
    v.map_values(|x: AiSuggestion| CinemaEvent::AiSuggestionCreated { project_id, suggestion: x })
}

pub open spec fn spec_phase_event(e: CinemaEvent, project_id: u128, from: crate::project_state::types::WorkflowPhase, to: crate::project_state::types::WorkflowPhase) -> bool {
    e matches CinemaEvent::WorkflowPhaseChanged { project_id: p, from: f, to: t } && p == project_id && f@
        == spec_phase_name(from) && t@ == spec_phase_name(to)
}

/// The parts of the manager other than the state and the events are kept.
pub open spec fn spec_rest_kept(a: ManagerView, b: ManagerView) -> bool {
    &&& b.history == a.history
    &&& b.export_event_cursor == a.export_event_cursor
    &&& b.device == a.device
    &&& b.scheduler == a.scheduler
}

/// `s1` is `s0` moved to `phase` by the assistant, then (when `suggestions`
/// is given) holding those suggestions with a fresh analysis time.
pub open spec fn spec_analyzed_state(s0: ProjectState, s1: ProjectState, suggestions: Option<Seq<AiSuggestion>>) -> bool {
    let phase = spec_infer_phase(s0);
    let changed = phase != s0.workflow_state.phase;
    &&& s1@ == (ProjectStateView {
        workflow_state: if changed {
            WorkflowStateView {
                phase,
                last_action: s1.workflow_state.last_action,
                last_action_at: s1.workflow_state.last_action_at,
                ..s0@.workflow_state
            }
        } else {
            s0@.workflow_state
        },
        ai_state: match suggestions {
            Some(v) => AiStateView { suggestions: v, last_analysis_at: s1.ai_state.last_analysis_at, ..s0@.ai_state },
            None => s0@.ai_state,
        },
        updated_at: if changed { s1.updated_at } else { s0.updated_at },
        ..s0@
    })
    &&& changed ==> (s1.workflow_state.last_action matches Some(a) && a@ == "phase_changed_to_"@ + spec_phase_name(phase)
        && s1.workflow_state.last_action_at is Some)
    &&& suggestions is Some ==> s1.ai_state.last_analysis_at is Some
}

fn keep_undismissed(v: &Vec<AiSuggestion>, dismissed: &Vec<String>) -> (r: Vec<AiSuggestion>)
    ensures
        spec_shapes(r@) == spec_shapes(v@).filter(spec_not_dismissed(dismissed@)),
{
    let ghost pred = spec_not_dismissed(dismissed@);
    let mut out: Vec<AiSuggestion> = Vec::new();
    let mut i: usize = 0;
    while i < v.len()
        invariant
            i <= v@.len(),
            pred == spec_not_dismissed(dismissed@),
            spec_shapes(out@) == spec_shapes(v@.take(i as int)).filter(pred),
        decreases v@.len() - i,
    {
        proof {
            assert(spec_shapes(v@.take(i + 1)) =~= spec_shapes(v@.take(i as int)).push(spec_shape(v@[i as int])));
            spec_shapes(v@.take(i as int)).lemma_filter_push(spec_shape(v@[i as int]), pred);
        }
        let ghost before = out@;
        if !contains_text(dismissed, v[i].action_id.as_str()) {
            out.push(v[i].clone());
            assert(spec_shapes(out@) =~= spec_shapes(before).push(spec_shape(v@[i as int])));
        }
        i = i + 1;
    }
    assert(v@.take(v@.len() as int) =~= v@);
    out
}

fn append_of_priority(v: &Vec<AiSuggestion>, p: AiPriority, out: &mut Vec<AiSuggestion>)
    ensures
        spec_shapes(final(out)@) == spec_shapes(old(out)@) + spec_shapes(v@).filter(spec_of_priority(p)),
{
    let ghost pred = spec_of_priority(p);
    let ghost start = spec_shapes(out@);
    let mut i: usize = 0;
    while i < v.len()
        invariant
            i <= v@.len(),
            pred == spec_of_priority(p),
            spec_shapes(out@) == start + spec_shapes(v@.take(i as int)).filter(pred),
        decreases v@.len() - i,
    {
        proof {
            assert(spec_shapes(v@.take(i + 1)) =~= spec_shapes(v@.take(i as int)).push(spec_shape(v@[i as int])));
            spec_shapes(v@.take(i as int)).lemma_filter_push(spec_shape(v@[i as int]), pred);
        }
        let ghost before = out@;
        if v[i].priority == p {
            out.push(v[i].clone());
            assert(spec_shapes(out@) =~= spec_shapes(before).push(spec_shape(v@[i as int])));
        }
        i = i + 1;
    }
    assert(v@.take(v@.len() as int) =~= v@);
}

/// The suggestions sorted by descending priority, keeping the order of equal
/// ones.
fn order_by_priority(v: &Vec<AiSuggestion>) -> (r: Vec<AiSuggestion>)
    ensures
        spec_shapes(r@) == spec_by_priority(spec_shapes(v@)),
{
    let mut out: Vec<AiSuggestion> = Vec::new();
    assert(spec_shapes(out@) =~= Seq::empty());
    append_of_priority(v, AiPriority::High, &mut out);
    append_of_priority(v, AiPriority::Medium, &mut out);
    append_of_priority(v, AiPriority::Low, &mut out);
    out
}

fn emit_created(manager: &mut ProjectStateManager, project_id: u128, v: &Vec<AiSuggestion>)
    ensures
        final(manager)@ == (ManagerView { events: old(manager)@.events + spec_created_events(project_id, v@), ..old(manager)@ }),
{
    let mut i: usize = 0;
    while i < v.len()
        invariant
            i <= v@.len(),
            manager@ == (ManagerView { events: old(manager)@.events + spec_created_events(project_id, v@.take(i as int)), ..old(manager)@ }),
        decreases v@.len() - i,
    {
        manager.emit(CinemaEvent::AiSuggestionCreated { project_id, suggestion: v[i].clone() });
        assert(spec_created_events(project_id, v@.take(i + 1)) =~= spec_created_events(project_id, v@.take(i as int)).push(
            CinemaEvent::AiSuggestionCreated { project_id, suggestion: v@[i as int] },
        ));
        assert(old(manager)@.events + spec_created_events(project_id, v@.take(i + 1)) =~= (old(manager)@.events
            + spec_created_events(project_id, v@.take(i as int))).push(
            CinemaEvent::AiSuggestionCreated { project_id, suggestion: v@[i as int] },
        ));
        i = i + 1;
    }
    assert(v@.take(v@.len() as int) =~= v@);
}

/// `i` is the first position of a suggestion with id `id`.
pub open spec fn spec_first_suggestion(v: Seq<AiSuggestion>, id: u128, i: int) -> bool {
    0 <= i < v.len() && v[i].id == id && forall|j: int| 0 <= j < i ==> #[trigger] v[j].id != id
}

pub open spec fn spec_has_suggestion(v: Seq<AiSuggestion>, id: u128) -> bool {
    exists|i: int| 0 <= i < v.len() && #[trigger] v[i].id == id
}

/// Position of the first suggestion with id `id`, if any.
pub fn find_suggestion(v: &Vec<AiSuggestion>, id: u128) -> (r: Option<usize>)
    ensures
        r matches Some(i) ==> spec_first_suggestion(v@, id, i as int),
        r is None ==> !spec_has_suggestion(v@, id),
{
    let mut i: usize = 0;
    while i < v.len()
        invariant
            i <= v@.len(),
            forall|j: int| 0 <= j < i ==> #[trigger] v@[j].id != id,
        decreases v@.len() - i,
    {
        if v[i].id == id {
            return Some(i);
        }
        i = i + 1;
    }
    None
}

/// The dismissed actions after dismissing a suggestion for `action`: an
/// informational hint, or an action already there, leaves them as they are.
pub open spec fn spec_dismissed_actions(dismissed: Seq<String>, action: String) -> Seq<String> {
    if spec_starts_with(action@, "hint_"@) || spec_contains_text(dismissed, action@) {
        dismissed
    } else {
        dismissed.push(action)
    }
}

/// What an analysis does to the manager. Without a project it is refused.
/// Otherwise the phase is first moved to the inferred one, with its event;
/// if the project does not validate, that error ends it. Else each
/// suggestion of the analysis gets a creation event, in order, and the
/// list becomes the project's suggestions.
pub open spec fn spec_analyze_outcome(m0: ManagerView, m1: ManagerView, r: Result<Vec<AiSuggestion>>) -> bool {
    &&& m0.state is None ==> (r matches Err(CinemaError::Validation(m)) && m@ == "no open project"@ && m1 == m0)
    &&& m0.state matches Some(s0) ==> ({
        let changed = spec_infer_phase(s0) != s0.workflow_state.phase;
        let n = m0.events.len();
        &&& spec_rest_kept(m0, m1)
        &&& changed ==> m1.events.len() > n && m1.events.take(n as int) == m0.events && spec_phase_event(
            m1.events[n as int],
            s0.project_id,
            s0.workflow_state.phase,
            spec_infer_phase(s0),
        )
        &&& (changed && !spec_state_valid(s0)) ==> ({
            &&& r matches Err(CinemaError::Validation(m)) && m@ == spec_join_issues(spec_errors(spec_validation_issues(s0)))
            &&& m1.state matches Some(s1) && spec_analyzed_state(s0, s1, None)
            &&& m1.events.len() == n + 1
        })
        &&& (!changed || spec_state_valid(s0)) ==> (r matches Ok(v) && {
            let k = if changed { n + 1int } else { n as int };
            &&& spec_shapes(v@) == spec_analysis(s0)
            &&& m1.state matches Some(s1) && spec_analyzed_state(s0, s1, Some(v@))
            &&& m1.events.take(n as int) == m0.events
            &&& m1.events.skip(k) == spec_created_events(s0.project_id, v@)
        })
    })
}

/// `m1` is `m0` after an action's completion was announced and the
/// suggestion dropped, before the fresh analysis.
pub open spec fn spec_announced(m0: ManagerView, m1: ManagerView, suggestion_id: u128, action: Seq<char>, result: String) -> bool {
    &&& spec_rest_kept(m0, m1)
    &&& m0.state matches Some(s0) && m1.state matches Some(s1) && s1@ == (ProjectStateView {
        ai_state: AiStateView { suggestions: spec_without_suggestion(s0.ai_state.suggestions@, suggestion_id), ..s0@.ai_state },
        ..s0@
    })
    &&& m1.events.len() == m0.events.len() + 1
    &&& m1.events.drop_last() == m0.events
    &&& m1.events.last() matches CinemaEvent::AiActionExecuted { project_id, action_id: a, suggestion_id: sid, result: res }
        && project_id == m0.state->0.project_id && a@ == action && sid == suggestion_id && res == result
}

/// Completion of an action run from a suggestion: announced, then a fresh
/// analysis, whose error is passed on; else the action's result.
pub open spec fn spec_completion(m0: ManagerView, m1: ManagerView, suggestion_id: u128, action: Seq<char>, result: String, r: Result<String>) -> bool {
    exists|mid: ManagerView, ra: Result<Vec<AiSuggestion>>|
        #[trigger] spec_announced(m0, mid, suggestion_id, action, result) && #[trigger] spec_analyze_outcome(mid, m1, ra) && (ra is Ok
            ==> r == Ok::<String, CinemaError>(result)) && (ra matches Err(e) ==> r == Err::<String, CinemaError>(e))
}

/// Running the action `a` of suggestion `suggestion_id`: a hint is refused;
/// otherwise the action runs, and a finished one is completed.
pub open spec fn spec_run_suggestion(m0: ManagerView, m1: ManagerView, suggestion_id: u128, a: Seq<char>, r: Result<ActionOutcome>) -> bool {
    &&& spec_starts_with(a, "hint_"@) ==> (r matches Err(CinemaError::Validation(m)) && m@ == "this suggestion is informational only"@
        && m1 == m0)
    &&& !spec_starts_with(a, "hint_"@) ==> exists|mid: ManagerView, x: Result<ActionOutcome>|
        #[trigger] spec_execute_outcome(m0, mid, a, x) && (x is Err ==> r == x && m1 == mid) && (x matches Ok(
            ActionOutcome::Delegated(_),
        ) ==> r == x && m1 == mid) && (x matches Ok(ActionOutcome::Done(m)) ==> exists|rc: Result<String>|
            #[trigger] spec_completion(mid, m1, suggestion_id, a, m, rc) && r == spec_done(rc))
}

/// A finished action leaves a project whose clips can still be counted.
proof fn lemma_done_keeps_project(m0: ManagerView, mid: ManagerView, a: Seq<char>, x: Result<ActionOutcome>)
    requires
        m0.state is Some,
        spec_total_clips(m0.state->0.timeline.tracks@) <= usize::MAX,
        spec_execute_outcome(m0, mid, a, x),
        x matches Ok(ActionOutcome::Done(_)),
    ensures
        mid.state is Some,
        spec_total_clips(mid.state->0.timeline.tracks@) <= usize::MAX,
{
    reveal_strlit("rough_cut");
    reveal_strlit("organize_by_import_order");
    reveal_strlit("apply_default_fades");
    reveal_strlit("advance_to_edit");
    reveal_strlit("advance_to_export");
    reveal_strlit("start_export");
    let ta = m0.state->0.timeline.tracks@;
    if a == "apply_default_fades"@ {
        let f = choose|f: Result<String>| spec_fades_outcome(m0, mid, f) && #[trigger] spec_done(f) == x;
        if spec_total_clips(ta) > 0 {
            let tb = mid.state->0.timeline.tracks@;
            assert forall|i: int| 0 <= i < ta.len() implies #[trigger] ta[i].clips@.len() == tb[i].clips@.len() by {
                assert((tb[i]).id == ta[i].id && tb[i].clips@.len() == ta[i].clips@.len());
            }
            lemma_total_clips_same_counts(ta, tb);
        }
    } else if a == "advance_to_edit"@ || a == "advance_to_export"@ {
        let phase = if a == "advance_to_edit"@ { WorkflowPhase::Edit } else { WorkflowPhase::Export };
        let f = choose|f: Result<String>| spec_advance_outcome(m0, mid, phase, f) && #[trigger] spec_done(f) == x;
        let tb = mid.state->0.timeline.tracks@;
        assert(mid.state->0@.timeline == m0.state->0@.timeline);
        assert(ta.map_values(|t: Track| t@) == tb.map_values(|t: Track| t@));
        assert(ta.len() == ta.map_values(|t: Track| t@).len());
        assert(tb.len() == tb.map_values(|t: Track| t@).len());
        assert forall|i: int| 0 <= i < ta.len() implies #[trigger] ta[i].clips@.len() == tb[i].clips@.len() by {
            assert(ta.map_values(|t: Track| t@)[i] == tb.map_values(|t: Track| t@)[i]);
        }
        lemma_total_clips_same_counts(ta, tb);
    }
}

pub struct AiOrchestrator;

impl AiOrchestrator {
    /// Refreshes the open project's suggestions. The phase is first moved to
    /// the inferred one (an error there is returned, the move kept); then
    /// each suggestion of the analysis gets a creation event and becomes the
    /// project's list, which is returned.
    pub fn analyze(manager: &mut ProjectStateManager) -> (r: Result<Vec<AiSuggestion>>)
        requires
            old(manager)@.state matches Some(s) ==> spec_total_clips(s.timeline.tracks@) <= usize::MAX,
        ensures
            spec_analyze_outcome(old(manager)@, final(manager)@, r),
    {
        let ghost m0 = manager@;
        let ghost s0 = m0.state->0;
        let (inferred, current, fresh, project_id) = match manager.state() {
            Some(st) => {
                let generated = generate_suggestions(st);
                let kept = keep_undismissed(&generated, &st.ai_state.dismissed_action_ids);
                (infer_phase(st), st.workflow_state.phase, order_by_priority(&kept), st.project_id)
            },
            None => return Err(validation_error("no open project")),
        };
        if inferred != current {
            let res = match manager.apply(Mutation::SetWorkflowPhase { phase: inferred }) {
                Ok(_) => Ok(()),
                Err(e) => Err(e),
            };
            proof {
                let s1 = manager@.state->0;
                lemma_issues_depend_on_content(s1, s0);
            }
            match res {
                Err(e) => {
                    return Err(e);
                },
                Ok(()) => {},
            }
        }
        let ghost m1 = manager@;
        emit_created(manager, project_id, &fresh);
        let copy = fresh.clone();
        assert(copy@ =~= fresh@);
        manager.set_ai_suggestions(copy);
        proof {
            let n = m0.events.len();
            let k = if inferred != s0.workflow_state.phase { n + 1int } else { n as int };
            assert(manager@.events =~= m1.events + spec_created_events(project_id, fresh@));
            assert(manager@.events.skip(k) =~= spec_created_events(project_id, fresh@));
            assert(manager@.events.take(n as int) =~= m0.events);
        }
        Ok(fresh)
    }

    /// Dismisses a suggestion of the open project: it leaves the list, its id
    /// is remembered, and so is its action unless it is a hint; an event
    /// announces it. An unknown id is refused with "suggestion not found".
    pub fn dismiss(manager: &mut ProjectStateManager, suggestion_id: u128) -> (r: Result<()>)
        requires
            old(manager)@.state is Some,
        ensures
            old(manager)@.state matches Some(s0) ==> (!spec_has_suggestion(s0.ai_state.suggestions@, suggestion_id) ==> (
            r matches Err(CinemaError::Validation(m)) && m@ == "suggestion not found"@ && final(manager)@ == old(manager)@)),
            old(manager)@.state matches Some(s0) ==> (spec_has_suggestion(s0.ai_state.suggestions@, suggestion_id) ==> (
            r is Ok && spec_rest_kept(old(manager)@, final(manager)@) && final(manager)@.events == old(manager)@.events.push(
                CinemaEvent::AiSuggestionDismissed { project_id: s0.project_id, suggestion_id },
            ) && exists|i: int|
                spec_first_suggestion(s0.ai_state.suggestions@, suggestion_id, i) && (final(manager)@.state matches Some(
                    s1,
                ) && s1@ == (ProjectStateView {
                    ai_state: AiStateView {
                        dismissed_suggestion_ids: s0.ai_state.dismissed_suggestion_ids@.push(suggestion_id),
                        suggestions: spec_without_suggestion(s0.ai_state.suggestions@, suggestion_id),
                        dismissed_action_ids: #[trigger] spec_dismissed_actions(
                            s0.ai_state.dismissed_action_ids@,
                            s0.ai_state.suggestions@[i].action_id,
                        ),
                        ..s0@.ai_state
                    },
                    ..s0@
                })))),
    {
        let ghost s0 = manager@.state->0;
        let ghost mut idx: int = 0;
        let (action_id, project_id) = match manager.state() {
            Some(st) => match find_suggestion(&st.ai_state.suggestions, suggestion_id) {
                Some(i) => {
                    proof { idx = i as int; }
                    (st.ai_state.suggestions[i].action_id.clone(), st.project_id)
                },
                None => return Err(validation_error("suggestion not found")),
            },
            None => return Err(validation_error("no open project")),
        };
        manager.dismiss_ai_suggestion(suggestion_id);
        if !starts_with(action_id.as_str(), "hint_") {
            manager.add_dismissed_action(action_id);
        }
        manager.emit(CinemaEvent::AiSuggestionDismissed { project_id, suggestion_id });
        assert(spec_first_suggestion(s0.ai_state.suggestions@, suggestion_id, idx));
        assert(manager@.state->0.ai_state.dismissed_action_ids@ == spec_dismissed_actions(
            s0.ai_state.dismissed_action_ids@,
            s0.ai_state.suggestions@[idx].action_id,
        ));
        Ok(())
    }

    /// The open project's suggestions; none without a project.
    pub fn suggestions(manager: &ProjectStateManager) -> (r: Vec<AiSuggestion>)
        ensures
            manager@.state matches Some(s) ==> r@ == s.ai_state.suggestions@,
            manager@.state is None ==> r@.len() == 0,
    {
        manager.ai_suggestions()
    }

    /// Finishes an action run from a suggestion: announces it, drops the
    /// suggestion and analyzes afresh. Returns the action's result, or the
    /// analysis's error.
    pub fn complete_suggestion(manager: &mut ProjectStateManager, suggestion_id: u128, action_id: &str, result: String) -> (r:
        Result<String>)
        requires
            old(manager)@.state is Some,
            spec_total_clips(old(manager)@.state->0.timeline.tracks@) <= usize::MAX,
        ensures
            spec_completion(old(manager)@, final(manager)@, suggestion_id, action_id@, result, r),
    {
        let ghost m0 = manager@;
        let project_id = match manager.state() {
            Some(st) => st.project_id,
            None => 0,
        };
        let res_copy = result.clone();
        manager.emit(
            CinemaEvent::AiActionExecuted {
                project_id,
                action_id: String::from_str(action_id),
                suggestion_id,
                result: res_copy,
            },
        );
        manager.remove_ai_suggestion(suggestion_id);
        let ghost mid = manager@;
        proof {
            assert(mid.events.drop_last() =~= m0.events);
            let a = m0.state->0.timeline.tracks@;
            let b = mid.state->0.timeline.tracks@;
            assert(a.map_values(|t: Track| t@) == b.map_values(|t: Track| t@));
            assert(a.len() == a.map_values(|t: Track| t@).len());
            assert(b.len() == b.map_values(|t: Track| t@).len());
            assert forall|i: int| 0 <= i < a.len() implies #[trigger] a[i].clips@.len() == b[i].clips@.len() by {
                assert(a.map_values(|t: Track| t@)[i] == b.map_values(|t: Track| t@)[i]);
            }
            lemma_total_clips_same_counts(a, b);
            assert(spec_announced(m0, mid, suggestion_id, action_id@, result));
        }
        let ra = AiOrchestrator::analyze(manager);
        match ra {
            Ok(_) => Ok(result),
            Err(e) => Err(e),
        }
    }

    /// Runs the action of one of the open project's suggestions. An unknown
    /// suggestion or a hint is refused; a finished action is announced and
    /// followed by a fresh analysis; work for the host comes back as a
    /// request, to be finished with `complete_suggestion`.
    pub fn execute_suggestion(manager: &mut ProjectStateManager, suggestion_id: u128) -> (r: Result<ActionOutcome>)
        requires
            old(manager)@.state is Some,
            spec_total_clips(old(manager)@.state->0.timeline.tracks@) <= usize::MAX,
            spec_durations_fit(old(manager)@.state->0.timeline.tracks@),
        ensures
            old(manager)@.state matches Some(s0) ==> (!spec_has_suggestion(s0.ai_state.suggestions@, suggestion_id) ==> (
            r matches Err(CinemaError::Validation(m)) && m@ == "suggestion not found"@ && final(manager)@ == old(manager)@)),
            old(manager)@.state matches Some(s0) ==> (spec_has_suggestion(s0.ai_state.suggestions@, suggestion_id) ==> exists|i: int|
                spec_first_suggestion(s0.ai_state.suggestions@, suggestion_id, i) && #[trigger] spec_run_suggestion(
                    old(manager)@,
                    final(manager)@,
                    suggestion_id,
                    s0.ai_state.suggestions@[i].action_id@,
                    r,
                )),
    {
        let ghost m0 = manager@;
        let ghost s0 = m0.state->0;
        let ghost mut idx: int = 0;
        let action_id = match manager.state() {
            Some(st) => match find_suggestion(&st.ai_state.suggestions, suggestion_id) {
                Some(i) => {
                    proof { idx = i as int; }
                    st.ai_state.suggestions[i].action_id.clone()
                },
                None => return Err(validation_error("suggestion not found")),
            },
            None => return Err(validation_error("no open project")),
        };
        assert(spec_first_suggestion(s0.ai_state.suggestions@, suggestion_id, idx));
        if starts_with(action_id.as_str(), "hint_") {
            let r = Err(validation_error("this suggestion is informational only"));
            assert(spec_run_suggestion(m0, manager@, suggestion_id, action_id@, r));
            return r;
        }
        let x = execute(manager, action_id.as_str());
        let ghost mid = manager@;
        match x {
            Ok(ActionOutcome::Done(m)) => {
                proof { lemma_done_keeps_project(m0, mid, action_id@, Ok(ActionOutcome::Done(m))); }
                let m_copy = m.clone();
                let rc = AiOrchestrator::complete_suggestion(manager, suggestion_id, action_id.as_str(), m);
                let r = match rc {
                    Ok(res) => Ok(ActionOutcome::Done(res)),
                    Err(e) => Err(e),
                };
                proof {
                    assert(spec_completion(mid, manager@, suggestion_id, action_id@, m_copy, rc));
                    assert(r == spec_done(rc));
                    assert(spec_run_suggestion(m0, manager@, suggestion_id, action_id@, r));
                }
                r
            },
            other => {
                assert(spec_run_suggestion(m0, manager@, suggestion_id, action_id@, other));
                other
            },
        }
    }
}

} // verus!
