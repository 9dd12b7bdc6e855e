//! Structural validation of a project state.

use vstd::prelude::*;
use crate::error::{CinemaError, Result};
use crate::ids::{spec_uuid_text, uuid_string};
use crate::project_state::types::{Clip, MediaAsset, ProjectState, Timeline, TimelineView, Track, SCHEMA_VERSION};
use crate::text::{append_decimal, is_blank, spec_blank, spec_decimal};

verus! {

#[derive(Debug, Clone, Copy, PartialEq, Eq, Structural)]
pub enum ValidationSeverity {
    Error,
    Warning,
}

#[derive(Debug)]
pub struct ValidationIssue {
    pub field: String,
    pub message: String,
    pub severity: ValidationSeverity,
}

/// An issue as plain text: field, message, severity.
pub type IssueView = (Seq<char>, Seq<char>, ValidationSeverity);

impl View for ValidationIssue {
    type V = IssueView;

    open spec fn view(&self) -> IssueView {
        (self.field@, self.message@, self.severity)
    }
}

impl Clone for ValidationIssue {
    fn clone(&self) -> (r: Self)
        ensures
            r == *self,
    {
        ValidationIssue { field: self.field.clone(), message: self.message.clone(), severity: self.severity }
    }
}

pub open spec fn issue_views(issues: Seq<ValidationIssue>) -> Seq<IssueView> {
    issues.map_values(|i: ValidationIssue| i@)
}

#[derive(Debug)]
pub struct ValidationReport {
    pub issues: Vec<ValidationIssue>,
}

impl View for ValidationReport {
    type V = Seq<IssueView>;

    open spec fn view(&self) -> Seq<IssueView> {
        issue_views(self.issues@)
    }
}

/// The issues of severity `Error`, in order.
pub open spec fn spec_errors(issues: Seq<IssueView>) -> Seq<IssueView>
    decreases issues.len(),
{
    if issues.len() == 0 {
        Seq::empty()
    } else if issues.last().2 == ValidationSeverity::Error {
        spec_errors(issues.drop_last()).push(issues.last())
    } else {
        spec_errors(issues.drop_last())
    }
}

/// No issue has severity `Error`.
pub open spec fn spec_report_valid(issues: Seq<IssueView>) -> bool {
    forall|i: int| 0 <= i < issues.len() ==> #[trigger] issues[i].2 != ValidationSeverity::Error
}

impl Default for ValidationReport {
    fn default() -> (r: Self)
        ensures
            r@.len() == 0,
    {
        ValidationReport { issues: Vec::new() }
    }
}

impl ValidationReport {
    /// True when no issue is an error (warnings are allowed).
    pub fn is_valid(&self) -> (r: bool)
        ensures
            r == spec_report_valid(self@),
    {
        let mut i: usize = 0;
        while i < self.issues.len()
            invariant
                i <= self.issues@.len(),
                forall|k: int| 0 <= k < i ==> #[trigger] self@[k].2 != ValidationSeverity::Error,
            decreases self.issues@.len() - i,
        {
            if self.issues[i].severity == ValidationSeverity::Error {
                assert(self@[i as int].2 == ValidationSeverity::Error);
                return false;
            }
            i = i + 1;
        }
        true
    }

    /// The error issues, in report order.
    pub fn errors(&self) -> (r: Vec<ValidationIssue>)
        ensures
            issue_views(r@) == spec_errors(self@),
    {
        let mut out: Vec<ValidationIssue> = Vec::new();
        let mut i: usize = 0;
        while i < self.issues.len()
            invariant
                i <= self.issues@.len(),
                issue_views(out@) == spec_errors(self@.take(i as int)),
            decreases self.issues@.len() - i,
        {
            let ghost before = self@.take(i as int);
            assert(self@.take(i + 1).drop_last() =~= before);
            assert(self@.take(i + 1).last() == self@[i as int]);
            if self.issues[i].severity == ValidationSeverity::Error {
                out.push(self.issues[i].clone());
                assert(issue_views(out@) =~= spec_errors(before).push(self@[i as int]));
            }
            i = i + 1;
        }
        assert(self@.take(self.issues@.len() as int) =~= self@);
        out
    }
}

pub open spec fn spec_clip_field(track_id: u128, clip_id: u128) -> Seq<char> {
    "timeline.tracks."@ + spec_uuid_text(track_id) + ".clips."@ + spec_uuid_text(clip_id)
}

/// Issues raised by one clip, given the media ids of the project.
pub open spec fn spec_clip_issues(media_ids: Seq<u128>, track_id: u128, c: Clip) -> Seq<IssueView> {
    let field = spec_clip_field(track_id, c.id);
    (if !media_ids.contains(c.media_id) {
        seq![(field, "clip references unknown media_id "@ + spec_uuid_text(c.media_id), ValidationSeverity::Error)]
    } else {
        Seq::empty()
    }) + (if c.source_out_ms <= c.source_in_ms {
        seq![(field, "source_out_ms must be greater than source_in_ms"@, ValidationSeverity::Error)]
    } else {
        Seq::empty()
    }) + (if c.duration_ms == 0 {
        seq![(field, "clip duration must be greater than 0"@, ValidationSeverity::Error)]
    } else {
        Seq::empty()
    })
}

pub open spec fn spec_clips_issues(media_ids: Seq<u128>, track_id: u128, clips: Seq<Clip>) -> Seq<IssueView>
    decreases clips.len(),
{
    if clips.len() == 0 {
        Seq::empty()
    } else {
        spec_clips_issues(media_ids, track_id, clips.drop_last()) + spec_clip_issues(media_ids, track_id, clips.last())
    }
}

pub open spec fn spec_tracks_issues(media_ids: Seq<u128>, tracks: Seq<Track>) -> Seq<IssueView>
    decreases tracks.len(),
{
    if tracks.len() == 0 {
        Seq::empty()
    } else {
        spec_tracks_issues(media_ids, tracks.drop_last()) + spec_clips_issues(media_ids, tracks.last().id, tracks.last().clips@)
    }
}

pub open spec fn spec_media_ids(media: Seq<MediaAsset>) -> Seq<u128> {
    media.map_values(|m: MediaAsset| m.id)
}

/// Issues about the document as a whole, before the per-clip ones.
pub open spec fn spec_header_issues(s: ProjectState) -> Seq<IssueView> {
    (if s.schema_version != SCHEMA_VERSION {
        seq![("schema_version"@,
            "expected schema version "@ + spec_decimal(SCHEMA_VERSION as nat) + ", got "@ + spec_decimal(s.schema_version as nat),
            ValidationSeverity::Error)]
    } else {
        Seq::empty()
    }) + (if spec_blank(s.metadata.name@) {
        seq![("metadata.name"@, "project name cannot be empty"@, ValidationSeverity::Error)]
    } else {
        Seq::empty()
    }) + (if s.metadata.resolution.width < 640 || s.metadata.resolution.height < 360 {
        seq![("metadata.resolution"@, "resolution below minimum (640x360)"@, ValidationSeverity::Error)]
    } else {
        Seq::empty()
    }) + (if spec_blank(s.storage_state.project_root@) {
        seq![("storage_state.project_root"@, "project root cannot be empty"@, ValidationSeverity::Error)]
    } else {
        Seq::empty()
    }) + (if !spec_media_ids(s.media@).no_duplicates() {
        seq![("media"@, "duplicate media IDs detected"@, ValidationSeverity::Error)]
    } else {
        Seq::empty()
    })
}

/// Per-clip issues depend on the tracks only through their values.
proof fn lemma_tracks_issues_by_view(ids: Seq<u128>, a: Seq<Track>, b: Seq<Track>)
    requires
        a.len() == b.len(),
        forall|i: int| 0 <= i < a.len() ==> #[trigger] a[i]@ == b[i]@,
    ensures
        spec_tracks_issues(ids, a) == spec_tracks_issues(ids, b),
    decreases a.len(),
{
    if a.len() > 0 {
        let n = a.len() - 1;
        assert(a[n]@ == b[n]@);
        assert forall|i: int| 0 <= i < n implies #[trigger] a.drop_last()[i]@ == b.drop_last()[i]@ by {
            assert(a[i]@ == b[i]@);
        }
        lemma_tracks_issues_by_view(ids, a.drop_last(), b.drop_last());
    }
}

/// The two clip sequences agree but for transitions.
pub open spec fn spec_clips_but_transitions(a: Seq<Clip>, b: Seq<Clip>) -> bool {
    a.len() == b.len() && forall|c: int| 0 <= c < a.len() ==> #[trigger] b[c] == Clip { transitions: b[c].transitions, ..a[c] }
}

/// The two track sequences agree but for clip transitions.
pub open spec fn spec_tracks_but_transitions(a: Seq<Track>, b: Seq<Track>) -> bool {
    &&& a.len() == b.len()
    &&& forall|t: int| 0 <= t < a.len() ==> (#[trigger] b[t]).id == a[t].id && b[t].clips@.len() == a[t].clips@.len()
    &&& forall|t: int, c: int|
        0 <= t < a.len() && 0 <= c < a[t].clips@.len() ==> #[trigger] b[t].clips@[c] == Clip {
            transitions: b[t].clips@[c].transitions,
            ..a[t].clips@[c]
        }
}

proof fn lemma_clips_issues_ignore_transitions(ids: Seq<u128>, track_id: u128, a: Seq<Clip>, b: Seq<Clip>)
    requires
        spec_clips_but_transitions(a, b),
    ensures
        spec_clips_issues(ids, track_id, a) == spec_clips_issues(ids, track_id, b),
    decreases a.len(),
{
    if a.len() > 0 {
        let n = a.len() - 1;
        assert(b[n] == Clip { transitions: b[n].transitions, ..a[n] });
        assert(spec_clip_issues(ids, track_id, a.last()) == spec_clip_issues(ids, track_id, b.last()));
        assert forall|c: int| 0 <= c < n implies #[trigger] b.drop_last()[c] == Clip {
            transitions: b.drop_last()[c].transitions,
            ..a.drop_last()[c]
        } by {
            assert(b[c] == Clip { transitions: b[c].transitions, ..a[c] });
        }
        lemma_clips_issues_ignore_transitions(ids, track_id, a.drop_last(), b.drop_last());
    }
}

proof fn lemma_tracks_issues_ignore_transitions(ids: Seq<u128>, a: Seq<Track>, b: Seq<Track>)
    requires
        spec_tracks_but_transitions(a, b),
    ensures
        spec_tracks_issues(ids, a) == spec_tracks_issues(ids, b),
    decreases a.len(),
{
    if a.len() > 0 {
        let n = a.len() - 1;
        assert(b[n].id == a[n].id && b[n].clips@.len() == a[n].clips@.len());
        assert forall|c: int| 0 <= c < a[n].clips@.len() implies #[trigger] b[n].clips@[c] == Clip {
            transitions: b[n].clips@[c].transitions,
            ..a[n].clips@[c]
        } by {}
        lemma_clips_issues_ignore_transitions(ids, a[n].id, a[n].clips@, b[n].clips@);
        let a2 = a.drop_last();
        let b2 = b.drop_last();
        assert forall|t: int| 0 <= t < n implies (#[trigger] b2[t]).id == a2[t].id && b2[t].clips@.len() == a2[t].clips@.len() by {
            assert(b[t].id == a[t].id);
        }
        assert forall|t: int, c: int| 0 <= t < n && 0 <= c < a2[t].clips@.len() implies #[trigger] b2[t].clips@[c] == Clip {
            transitions: b2[t].clips@[c].transitions,
            ..a2[t].clips@[c]
        } by {
            assert(b[t].clips@[c] == Clip { transitions: b[t].clips@[c].transitions, ..a[t].clips@[c] });
        }
        lemma_tracks_issues_ignore_transitions(ids, a2, b2);
    }
}

/// Clip transitions play no part in validation: two states that differ
/// only there (and in what validation does not read) get the same issues.
pub proof fn lemma_issues_ignore_transitions(a: ProjectState, b: ProjectState)
    requires
        a.schema_version == b.schema_version,
        a@.metadata == b@.metadata,
        a.media@ == b.media@,
        a.storage_state == b.storage_state,
        a.timeline.playhead_ms == b.timeline.playhead_ms,
        a.timeline.duration_ms == b.timeline.duration_ms,
        spec_tracks_but_transitions(a.timeline.tracks@, b.timeline.tracks@),
    ensures
        spec_validation_issues(a) == spec_validation_issues(b),
{
    lemma_tracks_issues_ignore_transitions(spec_media_ids(a.media@), a.timeline.tracks@, b.timeline.tracks@);
}

/// Validation reads only the document's content: two states with the same
/// version, metadata, media, timeline and storage get the same issues,
/// whatever their workflow, assistant, render and export state.
pub proof fn lemma_issues_depend_on_content(a: ProjectState, b: ProjectState)
    requires
        a.schema_version == b.schema_version,
        a@.metadata == b@.metadata,
        a.media@ == b.media@,
        a@.timeline == b@.timeline,
        a.storage_state == b.storage_state,
    ensures
        spec_validation_issues(a) == spec_validation_issues(b),
{
    let ta = a.timeline.tracks@;
    let tb = b.timeline.tracks@;
    assert(ta.map_values(|t: Track| t@).len() == tb.map_values(|t: Track| t@).len());
    assert forall|i: int| 0 <= i < ta.len() implies #[trigger] ta[i]@ == tb[i]@ by {
        assert(ta.map_values(|t: Track| t@)[i] == tb.map_values(|t: Track| t@)[i]);
    }
    lemma_tracks_issues_by_view(spec_media_ids(a.media@), ta, tb);
}

/// Two media assets with one id make a state invalid: validation reports
/// the duplicate as an error.
pub proof fn lemma_duplicate_media_invalid(s: ProjectState, i: int, j: int)
    requires
        0 <= i < j < s.media@.len(),
        s.media@[i].id == s.media@[j].id,
    ensures
        !spec_state_valid(s),
        spec_validation_issues(s).contains(("media"@, "duplicate media IDs detected"@, ValidationSeverity::Error)),
{
    let ids = spec_media_ids(s.media@);
    assert(ids[i] == s.media@[i].id && ids[j] == s.media@[j].id);
    assert(!ids.no_duplicates());
    let dup = ("media"@, "duplicate media IDs detected"@, ValidationSeverity::Error);
    let h = spec_header_issues(s);
    let all = spec_validation_issues(s);
    let k = h.len() - 1;
    assert(h[k] == dup);
    assert(all[k] == dup);
    assert(all[k].2 == ValidationSeverity::Error);
}

/// The playhead plays no part in whether a state is valid: two states that
/// differ only in where the playhead stands (and in what validation does not
/// read) are both valid or both invalid, with the same errors. A playhead
/// past the end is only ever a warning.
pub proof fn lemma_validity_ignores_playhead(a: ProjectState, b: ProjectState)
    requires
        a.schema_version == b.schema_version,
        a@.metadata == b@.metadata,
        a.media@ == b.media@,
        a.storage_state == b.storage_state,
        a@.timeline == (TimelineView { playhead_ms: a.timeline.playhead_ms, ..b@.timeline }),
    ensures
        spec_state_valid(a) == spec_state_valid(b),
        spec_errors(spec_validation_issues(a)) == spec_errors(spec_validation_issues(b)),
{
    let c = ProjectState { timeline: Timeline { playhead_ms: b.timeline.playhead_ms, ..a.timeline }, ..a };
    assert(c@.timeline == b@.timeline);
    lemma_issues_depend_on_content(c, b);
    let x = spec_header_issues(a) + spec_tracks_issues(spec_media_ids(a.media@), a.timeline.tracks@);
    assert(spec_header_issues(c) == spec_header_issues(a));
    assert(spec_validation_issues(a) == x + spec_playhead_issues(a));
    assert(spec_validation_issues(c) == x + spec_playhead_issues(c));
    lemma_warnings_add_no_error(x, spec_playhead_issues(a));
    lemma_warnings_add_no_error(x, spec_playhead_issues(c));
}

/// Appending warnings changes neither validity nor the errors.
proof fn lemma_warnings_add_no_error(x: Seq<IssueView>, w: Seq<IssueView>)
    requires
        forall|i: int| 0 <= i < w.len() ==> #[trigger] w[i].2 != ValidationSeverity::Error,
    ensures
        spec_report_valid(x + w) == spec_report_valid(x),
        spec_errors(x + w) == spec_errors(x),
    decreases w.len(),
{
    if w.len() > 0 {
        let w2 = w.drop_last();
        assert((x + w).drop_last() =~= x + w2);
        assert((x + w).last() == w.last());
        lemma_warnings_add_no_error(x, w2);
        assert(spec_report_valid(x + w) == spec_report_valid(x + w2)) by {
            if spec_report_valid(x + w2) {
                assert forall|i: int| 0 <= i < (x + w).len() implies #[trigger] (x + w)[i].2 != ValidationSeverity::Error by {
                    if i < (x + w2).len() {
                        assert((x + w)[i] == (x + w2)[i]);
                    }
                }
            } else {
                let i = choose|i: int| 0 <= i < (x + w2).len() && (x + w2)[i].2 == ValidationSeverity::Error;
                assert((x + w)[i] == (x + w2)[i]);
            }
        }
    } else {
        assert(x + w =~= x);
    }
}

pub open spec fn spec_playhead_issues(s: ProjectState) -> Seq<IssueView> {
    if s.timeline.playhead_ms > s.timeline.duration_ms && s.timeline.duration_ms > 0 {
        seq![("timeline.playhead_ms"@, "playhead exceeds timeline duration"@, ValidationSeverity::Warning)]
    } else {
        Seq::empty()
    }
}

/// Every issue of a project state, in the order they are reported.
pub open spec fn spec_validation_issues(s: ProjectState) -> Seq<IssueView> {
    spec_header_issues(s) + spec_tracks_issues(spec_media_ids(s.media@), s.timeline.tracks@) + spec_playhead_issues(s)
}

/// The state passes validation: none of its issues is an error.
pub open spec fn spec_state_valid(s: ProjectState) -> bool {
    spec_report_valid(spec_validation_issues(s))
}

fn make_issue(field: &str, message: &str, severity: ValidationSeverity) -> (r: ValidationIssue)
    ensures
        r@ == (field@, message@, severity),
{
    ValidationIssue { field: String::from_str(field), message: String::from_str(message), severity }
}

fn media_ids(media: &Vec<MediaAsset>) -> (r: Vec<u128>)
    ensures
        r@ == spec_media_ids(media@),
{
    let mut ids: Vec<u128> = Vec::new();
    let mut i: usize = 0;
    while i < media.len()
        invariant
            i <= media@.len(),
            ids@ == spec_media_ids(media@.take(i as int)),
        decreases media@.len() - i,
    {
        ids.push(media[i].id);
        assert(spec_media_ids(media@.take(i + 1)) =~= spec_media_ids(media@.take(i as int)).push(media@[i as int].id));
        i = i + 1;
    }
    assert(media@.take(media@.len() as int) =~= media@);
    ids
}

fn contains_id(ids: &Vec<u128>, id: u128) -> (r: bool)
    ensures
        r == ids@.contains(id),
{
    let mut i: usize = 0;
    while i < ids.len()
        invariant
            i <= ids@.len(),
            forall|k: int| 0 <= k < i ==> ids@[k] != id,
        decreases ids@.len() - i,
    {
        if ids[i] == id {
            assert(ids@[i as int] == id);
            return true;
        }
        i = i + 1;
    }
    false
}

fn has_duplicates(ids: &Vec<u128>) -> (r: bool)
    ensures
        r == !ids@.no_duplicates(),
{
    let n = ids.len();
    let mut i: usize = 0;
    while i < n
        invariant
            n == ids@.len(),
            i <= n,
            forall|a: int, b: int| 0 <= a < i && 0 <= b < n && a != b ==> ids@[a] != ids@[b],
        decreases n - i,
    {
        let mut j: usize = 0;
        while j < n
            invariant
                n == ids@.len(),
                i < n,
                j <= n,
                forall|a: int, b: int| 0 <= a < i && 0 <= b < n && a != b ==> ids@[a] != ids@[b],
                forall|b: int| 0 <= b < j && b != i ==> ids@[i as int] != ids@[b],
            decreases n - j,
        {
            if j != i && ids[i] == ids[j] {
                return true;
            }
            j = j + 1;
        }
        i = i + 1;
    }
    false
}

fn clip_field(track_id: u128, clip_id: u128) -> (r: String)
    ensures
        r@ == spec_clip_field(track_id, clip_id),
{
    let mut s = String::from_str("timeline.tracks.");
    let t = uuid_string(track_id);
    s.append(t.as_str());
    s.append(".clips.");
    let c = uuid_string(clip_id);
    s.append(c.as_str());
    s
}

fn push_clip_issues(out: &mut Vec<ValidationIssue>, ids: &Vec<u128>, track_id: u128, c: &Clip)
    ensures
        issue_views(final(out)@) == issue_views(old(out)@) + spec_clip_issues(ids@, track_id, *c),
{
    let ghost start = issue_views(out@);
    let ghost field = spec_clip_field(track_id, c.id);
    let ghost a = if !ids@.contains(c.media_id) {
        seq![(field, "clip references unknown media_id "@ + spec_uuid_text(c.media_id), ValidationSeverity::Error)]
    } else {
        Seq::<IssueView>::empty()
    };
    let ghost b = if c.source_out_ms <= c.source_in_ms {
        seq![(field, "source_out_ms must be greater than source_in_ms"@, ValidationSeverity::Error)]
    } else {
        Seq::<IssueView>::empty()
    };
    if !contains_id(ids, c.media_id) {
        let mut msg = String::from_str("clip references unknown media_id ");
        let m = uuid_string(c.media_id);
        msg.append(m.as_str());
        out.push(ValidationIssue { field: clip_field(track_id, c.id), message: msg, severity: ValidationSeverity::Error });
    }
    assert(issue_views(out@) =~= start + a);
    if c.source_out_ms <= c.source_in_ms {
        out.push(ValidationIssue {
            field: clip_field(track_id, c.id),
            message: String::from_str("source_out_ms must be greater than source_in_ms"),
            severity: ValidationSeverity::Error,
        });
    }
    assert(issue_views(out@) =~= start + a + b);
    if c.duration_ms == 0 {
        out.push(ValidationIssue {
            field: clip_field(track_id, c.id),
            message: String::from_str("clip duration must be greater than 0"),
            severity: ValidationSeverity::Error,
        });
    }
    assert(issue_views(out@) =~= start + spec_clip_issues(ids@, track_id, *c));
}

/// Checks a project state and lists its problems.
pub fn validate_project_state(state: &ProjectState) -> (r: ValidationReport)
    ensures
        r@ == spec_validation_issues(*state),
        (exists|i: int, j: int| 0 <= i < j < state.media@.len() && #[trigger] state.media@[i].id == #[trigger] state.media@[j].id)
            ==> !spec_report_valid(r@) && r@.contains(("media"@, "duplicate media IDs detected"@, ValidationSeverity::Error)),
{
    proof {
        if exists|i: int, j: int| 0 <= i < j < state.media@.len() && #[trigger] state.media@[i].id == #[trigger] state.media@[j].id {
            let (i, j) = choose|i: int, j: int| 0 <= i < j < state.media@.len() && #[trigger] state.media@[i].id == #[trigger] state.media@[j].id;
            lemma_duplicate_media_invalid(*state, i, j);
        }
    }
    let mut issues: Vec<ValidationIssue> = Vec::new();
    let ghost s = *state;

    if state.schema_version != SCHEMA_VERSION {
        let mut msg = String::from_str("expected schema version ");
        append_decimal(&mut msg, SCHEMA_VERSION as u64);
        msg.append(", got ");
        append_decimal(&mut msg, state.schema_version as u64);
        issues.push(ValidationIssue { field: String::from_str("schema_version"), message: msg, severity: ValidationSeverity::Error });
    }
    if is_blank(state.metadata.name.as_str()) {
        issues.push(make_issue("metadata.name", "project name cannot be empty", ValidationSeverity::Error));
    }
    if state.metadata.resolution.width < 640 || state.metadata.resolution.height < 360 {
        issues.push(make_issue("metadata.resolution", "resolution below minimum (640x360)", ValidationSeverity::Error));
    }
    if is_blank(state.storage_state.project_root.as_str()) {
        issues.push(make_issue("storage_state.project_root", "project root cannot be empty", ValidationSeverity::Error));
    }
    let ids = media_ids(&state.media);
    if has_duplicates(&ids) {
        issues.push(make_issue("media", "duplicate media IDs detected", ValidationSeverity::Error));
    }
    assert(issue_views(issues@) =~= spec_header_issues(s));

    let ghost header = spec_header_issues(s);
    let tracks = &state.timeline.tracks;
    let mut t: usize = 0;
    while t < tracks.len()
        invariant
            t <= tracks@.len(),
            ids@ == spec_media_ids(s.media@),
            tracks@ == s.timeline.tracks@,
            issue_views(issues@) == header + spec_tracks_issues(ids@, tracks@.take(t as int)),
        decreases tracks@.len() - t,
    {
        let track = &tracks[t];
        let ghost before = issue_views(issues@);
        let mut k: usize = 0;
        while k < track.clips.len()
            invariant
                k <= track.clips@.len(),
                issue_views(issues@) == before + spec_clips_issues(ids@, track.id, track.clips@.take(k as int)),
            decreases track.clips@.len() - k,
        {
            push_clip_issues(&mut issues, &ids, track.id, &track.clips[k]);
            assert(track.clips@.take(k + 1).drop_last() =~= track.clips@.take(k as int));
            k = k + 1;
        }
        assert(track.clips@.take(track.clips@.len() as int) =~= track.clips@);
        assert(tracks@.take(t + 1).drop_last() =~= tracks@.take(t as int));
        t = t + 1;
    }
    assert(tracks@.take(tracks@.len() as int) =~= tracks@);

    let ghost mid = issue_views(issues@);
    if state.timeline.playhead_ms > state.timeline.duration_ms && state.timeline.duration_ms > 0 {
        issues.push(make_issue("timeline.playhead_ms", "playhead exceeds timeline duration", ValidationSeverity::Warning));
    }
    assert(issue_views(issues@) =~= mid + spec_playhead_issues(s));
    ValidationReport { issues }
}


/// `field: message` of one issue.
pub open spec fn spec_issue_line(i: IssueView) -> Seq<char> {
    i.0 + ": "@ + i.1
}

/// The lines of the issues joined by `"; "`.
pub open spec fn spec_join_issues(issues: Seq<IssueView>) -> Seq<char>
    decreases issues.len(),
{
    if issues.len() == 0 {
        Seq::empty()
    } else if issues.len() == 1 {
        spec_issue_line(issues[0])
    } else {
        spec_join_issues(issues.drop_last()) + "; "@ + spec_issue_line(issues.last())
    }
}

/// Succeeds when the state has no error; otherwise a `Validation` error that
/// lists every error as `field: message`, separated by `"; "`.
pub fn ensure_valid(state: &ProjectState) -> (r: Result<()>)
    ensures
        r is Ok <==> spec_state_valid(*state),
        r matches Err(e) ==> (e matches CinemaError::Validation(m) && m@ == spec_join_issues(
            spec_errors(spec_validation_issues(*state)),
        )),
{
    let report = validate_project_state(state);
    if report.is_valid() {
        Ok(())
    } else {
        let errs = report.errors();
        let ghost ev = issue_views(errs@);
        let mut msg = String::new();
        let mut i: usize = 0;
        while i < errs.len()
            invariant
                i <= errs@.len(),
                ev == issue_views(errs@),
                msg@ == spec_join_issues(ev.take(i as int)),
            decreases errs@.len() - i,
        {
            if i != 0 {
                msg.append("; ");
            }
            msg.append(errs[i].field.as_str());
            msg.append(": ");
            msg.append(errs[i].message.as_str());
            let ghost t = ev.take(i + 1);
            assert(t.drop_last() =~= ev.take(i as int));
            assert(t.last() == ev[i as int]);
            if i == 0 {
                assert(msg@ =~= spec_join_issues(t));
            } else {
                assert(msg@ =~= spec_join_issues(t));
            }
            i = i + 1;
        }
        assert(ev.take(errs@.len() as int) =~= ev);
        Err(CinemaError::Validation(msg))
    }
}

} // verus!
