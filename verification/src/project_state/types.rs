//! The project state document: the single source of truth of a project.

use vstd::prelude::*;
use crate::ids::{new_id, now_ms};

verus! {

pub const SCHEMA_VERSION: u32 = 1;

#[derive(Debug, Clone, Copy, PartialEq, Eq, Structural)]
pub struct Resolution {
    pub width: u32,
    pub height: u32,
}

#[derive(Debug, Clone, Copy, PartialEq, Eq, Structural)]
pub enum ColorSpace {
    Rec709,
    Rec2020,
    DciP3,
}

#[derive(Debug, Clone, Copy, PartialEq, Eq, Structural)]
pub enum MediaStatus {
    Pending,
    Indexing,
    Ready,
    Error,
    Missing,
}

#[derive(Debug, Clone, Copy, PartialEq, Eq, Structural)]
pub enum TrackType {
    Video,
    Audio,
}

#[derive(Debug, Clone, Copy, PartialEq, Eq, Structural)]
pub struct ClipTransitions {
    pub fade_in_ms: u64,
    pub fade_out_ms: u64,
}

impl Default for ClipTransitions {
    fn default() -> (r: Self)
        ensures
            r.fade_in_ms == 0 && r.fade_out_ms == 0,
    {
        ClipTransitions { fade_in_ms: 0, fade_out_ms: 0 }
    }
}

#[derive(Debug)]
pub struct Clip {
    pub id: u128,
    pub media_id: u128,
    pub start_ms: u64,
    pub duration_ms: u64,
    pub source_in_ms: u64,
    pub source_out_ms: u64,
    pub label: String,
    pub transitions: ClipTransitions,
}

impl Clone for Clip {
    fn clone(&self) -> (r: Self)
        ensures
            r == *self,
    {
        Clip {
            id: self.id,
            media_id: self.media_id,
            start_ms: self.start_ms,
            duration_ms: self.duration_ms,
            source_in_ms: self.source_in_ms,
            source_out_ms: self.source_out_ms,
            label: self.label.clone(),
            transitions: self.transitions,
        }
    }
}

#[derive(Debug)]
pub struct Track {
    pub id: u128,
    pub track_type: TrackType,
    pub name: String,
    pub order: u32,
    pub muted: bool,
    pub clips: Vec<Clip>,
}

/// Value of a track, with its clips as a sequence.
pub struct TrackView {
    pub id: u128,
    pub track_type: TrackType,
    pub name: String,
    pub order: u32,
    pub muted: bool,
    pub clips: Seq<Clip>,
}

impl View for Track {
    type V = TrackView;

    open spec fn view(&self) -> TrackView {
        TrackView {
            id: self.id,
            track_type: self.track_type,
            name: self.name,
            order: self.order,
            muted: self.muted,
            clips: self.clips@,
        }
    }
}

impl Clone for Track {
    fn clone(&self) -> (r: Self)
        ensures
            r@ == self@,
    {
        let clips = self.clips.clone();
        assert(clips@ =~= self.clips@);
        Track {
            id: self.id,
            track_type: self.track_type,
            name: self.name.clone(),
            order: self.order,
            muted: self.muted,
            clips,
        }
    }
}

#[derive(Debug)]
pub struct Marker {
    pub id: u128,
    pub time_ms: u64,
    pub label: String,
    pub color: Option<String>,
}

impl Clone for Marker {
    fn clone(&self) -> (r: Self)
        ensures
            r == *self,
    {
        Marker { id: self.id, time_ms: self.time_ms, label: self.label.clone(), color: self.color.clone() }
    }
}

#[derive(Debug)]
pub struct Timeline {
    pub duration_ms: u64,
    pub playhead_ms: u64,
    pub tracks: Vec<Track>,
    pub markers: Vec<Marker>,
}

pub struct TimelineView {
    pub duration_ms: u64,
    pub playhead_ms: u64,
    pub tracks: Seq<TrackView>,
    pub markers: Seq<Marker>,
}

impl View for Timeline {
    type V = TimelineView;

    open spec fn view(&self) -> TimelineView {
        TimelineView {
            duration_ms: self.duration_ms,
            playhead_ms: self.playhead_ms,
            tracks: self.tracks@.map_values(|t: Track| t@),
            markers: self.markers@,
        }
    }
}

impl Clone for Timeline {
    fn clone(&self) -> (r: Self)
        ensures
            r@ == self@,
    {
        let tracks = self.tracks.clone();
        let markers = self.markers.clone();
        assert(tracks@.map_values(|t: Track| t@) =~= self.tracks@.map_values(|t: Track| t@));
        assert(markers@ =~= self.markers@);
        Timeline { duration_ms: self.duration_ms, playhead_ms: self.playhead_ms, tracks, markers }
    }
}


#[derive(Debug)]
pub struct ProjectMetadata {
    pub name: String,
    pub description: String,
    /// Frames per 1000 seconds (24 fps is 24000).
    pub frame_rate_milli: u32,
    pub resolution: Resolution,
    pub aspect_ratio: String,
    pub color_space: ColorSpace,
    pub tags: Vec<String>,
}

pub struct ProjectMetadataView {
    pub name: String,
    pub description: String,
    pub frame_rate_milli: u32,
    pub resolution: Resolution,
    pub aspect_ratio: String,
    pub color_space: ColorSpace,
    pub tags: Seq<String>,
}

impl View for ProjectMetadata {
    type V = ProjectMetadataView;

    open spec fn view(&self) -> ProjectMetadataView {
        ProjectMetadataView {
            name: self.name,
            description: self.description,
            frame_rate_milli: self.frame_rate_milli,
            resolution: self.resolution,
            aspect_ratio: self.aspect_ratio,
            color_space: self.color_space,
            tags: self.tags@,
        }
    }
}

impl Clone for ProjectMetadata {
    fn clone(&self) -> (r: Self)
        ensures
            r@ == self@,
    {
        let tags = self.tags.clone();
        assert(tags@ =~= self.tags@);
        ProjectMetadata {
            name: self.name.clone(),
            description: self.description.clone(),
            frame_rate_milli: self.frame_rate_milli,
            resolution: self.resolution,
            aspect_ratio: self.aspect_ratio.clone(),
            color_space: self.color_space,
            tags,
        }
    }
}

#[derive(Debug)]
pub struct MediaAsset {
    pub id: u128,
    pub original_path: String,
    pub proxy_path: Option<String>,
    pub thumbnail_path: Option<String>,
    pub file_name: String,
    pub mime_type: String,
    pub duration_ms: u64,
    pub width: u32,
    pub height: u32,
    pub file_size_bytes: u64,
    pub status: MediaStatus,
    pub imported_at: i64,
    pub checksum: Option<String>,
}

impl Clone for MediaAsset {
    fn clone(&self) -> (r: Self)
        ensures
            r == *self,
    {
        MediaAsset {
            id: self.id,
            original_path: self.original_path.clone(),
            proxy_path: self.proxy_path.clone(),
            thumbnail_path: self.thumbnail_path.clone(),
            file_name: self.file_name.clone(),
            mime_type: self.mime_type.clone(),
            duration_ms: self.duration_ms,
            width: self.width,
            height: self.height,
            file_size_bytes: self.file_size_bytes,
            status: self.status,
            imported_at: self.imported_at,
            checksum: self.checksum.clone(),
        }
    }
}

#[derive(Debug, Clone, Copy, PartialEq, Eq, Structural)]
pub enum WorkflowPhase {
    Import,
    Organize,
    Edit,
    Review,
    Export,
    Complete,
}

#[derive(Debug)]
pub struct WorkflowState {
    pub phase: WorkflowPhase,
    pub completed_steps: Vec<String>,
    pub last_action: Option<String>,
    pub last_action_at: Option<i64>,
}

pub struct WorkflowStateView {
    pub phase: WorkflowPhase,
    pub completed_steps: Seq<String>,
    pub last_action: Option<String>,
    pub last_action_at: Option<i64>,
}

impl View for WorkflowState {
    type V = WorkflowStateView;

    open spec fn view(&self) -> WorkflowStateView {
        WorkflowStateView {
            phase: self.phase,
            completed_steps: self.completed_steps@,
            last_action: self.last_action,
            last_action_at: self.last_action_at,
        }
    }
}

impl Clone for WorkflowState {
    fn clone(&self) -> (r: Self)
        ensures
            r@ == self@,
    {
        let completed_steps = self.completed_steps.clone();
        assert(completed_steps@ =~= self.completed_steps@);
        WorkflowState {
            phase: self.phase,
            completed_steps,
            last_action: self.last_action.clone(),
            last_action_at: self.last_action_at,
        }
    }
}

#[derive(Debug, Clone, Copy, PartialEq, Eq, Structural)]
pub enum AiSuggestionType {
    Workflow,
    Edit,
    Audio,
    Export,
    Organization,
}

#[derive(Debug, Clone, Copy, PartialEq, Eq, Structural)]
pub enum AiPriority {
    Low,
    Medium,
    High,
}

/// Structured details attached to a suggestion.
#[derive(Debug, Clone, Copy, PartialEq, Eq, Structural)]
pub enum SuggestionPayload {
    Empty,
    PendingCount(u64),
    ClipCount(u64),
    Count(u64),
    ClipId(u128),
    Resolution { width: u32, height: u32 },
}

#[derive(Debug)]
pub struct AiSuggestion {
    pub id: u128,
    pub suggestion_type: AiSuggestionType,
    pub priority: AiPriority,
    pub message: String,
    pub action_id: String,
    pub payload: SuggestionPayload,
    pub created_at: i64,
}

impl Clone for AiSuggestion {
    fn clone(&self) -> (r: Self)
        ensures
            r == *self,
    {
        AiSuggestion {
            id: self.id,
            suggestion_type: self.suggestion_type,
            priority: self.priority,
            message: self.message.clone(),
            action_id: self.action_id.clone(),
            payload: self.payload,
            created_at: self.created_at,
        }
    }
}

#[derive(Debug)]
pub struct AiState {
    pub suggestions: Vec<AiSuggestion>,
    pub dismissed_suggestion_ids: Vec<u128>,
    pub dismissed_action_ids: Vec<String>,
    pub last_analysis_at: Option<i64>,
}

pub struct AiStateView {
    pub suggestions: Seq<AiSuggestion>,
    pub dismissed_suggestion_ids: Seq<u128>,
    pub dismissed_action_ids: Seq<String>,
    pub last_analysis_at: Option<i64>,
}

impl View for AiState {
    type V = AiStateView;

    open spec fn view(&self) -> AiStateView {
        AiStateView {
            suggestions: self.suggestions@,
            dismissed_suggestion_ids: self.dismissed_suggestion_ids@,
            dismissed_action_ids: self.dismissed_action_ids@,
            last_analysis_at: self.last_analysis_at,
        }
    }
}

impl Clone for AiState {
    fn clone(&self) -> (r: Self)
        ensures
            r@ == self@,
    {
        let suggestions = self.suggestions.clone();
        let dismissed_suggestion_ids = self.dismissed_suggestion_ids.clone();
        let dismissed_action_ids = self.dismissed_action_ids.clone();
        assert(suggestions@ =~= self.suggestions@);
        assert(dismissed_suggestion_ids@ =~= self.dismissed_suggestion_ids@);
        assert(dismissed_action_ids@ =~= self.dismissed_action_ids@);
        AiState {
            suggestions,
            dismissed_suggestion_ids,
            dismissed_action_ids,
            last_analysis_at: self.last_analysis_at,
        }
    }
}

#[derive(Debug, Clone, Copy, PartialEq, Eq, Structural)]
pub enum PreviewQuality {
    Low,
    Medium,
    High,
    Auto,
}

impl Default for PreviewQuality {
    fn default() -> (r: Self)
        ensures
            r == PreviewQuality::Auto,
    {
        PreviewQuality::Auto
    }
}

#[derive(Debug, Clone, Copy, PartialEq, Eq, Structural)]
pub enum RenderJobType {
    Proxy,
    Preview,
    Export,
    Thumbnail,
}

#[derive(Debug, Clone, Copy, PartialEq, Eq, Structural)]
pub enum RenderJobStatus {
    Queued,
    Running,
    Completed,
    Failed,
    Cancelled,
}

#[derive(Debug)]
pub struct RenderJob {
    pub id: u128,
    pub job_type: RenderJobType,
    pub status: RenderJobStatus,
    /// Progress in thousandths (1000 = done).
    pub progress_permille: u32,
    pub error_message: Option<String>,
}

impl Clone for RenderJob {
    fn clone(&self) -> (r: Self)
        ensures
            r == *self,
    {
        RenderJob {
            id: self.id,
            job_type: self.job_type,
            status: self.status,
            progress_permille: self.progress_permille,
            error_message: self.error_message.clone(),
        }
    }
}

#[derive(Debug)]
pub struct RenderState {
    pub preview_quality: PreviewQuality,
    pub active_jobs: Vec<RenderJob>,
    pub last_preview_frame_at: Option<i64>,
}

pub struct RenderStateView {
    pub preview_quality: PreviewQuality,
    pub active_jobs: Seq<RenderJob>,
    pub last_preview_frame_at: Option<i64>,
}

impl View for RenderState {
    type V = RenderStateView;

    open spec fn view(&self) -> RenderStateView {
        RenderStateView {
            preview_quality: self.preview_quality,
            active_jobs: self.active_jobs@,
            last_preview_frame_at: self.last_preview_frame_at,
        }
    }
}

impl Clone for RenderState {
    fn clone(&self) -> (r: Self)
        ensures
            r@ == self@,
    {
        let active_jobs = self.active_jobs.clone();
        assert(active_jobs@ =~= self.active_jobs@);
        RenderState {
            preview_quality: self.preview_quality,
            active_jobs,
            last_preview_frame_at: self.last_preview_frame_at,
        }
    }
}

#[derive(Debug, Clone, Copy, PartialEq, Eq, Structural)]
pub enum ExportFormat {
    Mp4,
    Mov,
}

#[derive(Debug, Clone, Copy, PartialEq, Eq, Structural)]
pub enum ExportStatus {
    Pending,
    Running,
    Completed,
    Failed,
}

#[derive(Debug)]
pub struct ExportRecord {
    pub id: u128,
    pub format: ExportFormat,
    pub resolution: String,
    pub output_path: Option<String>,
    pub status: ExportStatus,
    pub created_at: i64,
    pub completed_at: Option<i64>,
}

impl Clone for ExportRecord {
    fn clone(&self) -> (r: Self)
        ensures
            r == *self,
    {
        ExportRecord {
            id: self.id,
            format: self.format,
            resolution: self.resolution.clone(),
            output_path: self.output_path.clone(),
            status: self.status,
            created_at: self.created_at,
            completed_at: self.completed_at,
        }
    }
}

#[derive(Debug)]
pub struct ExportState {
    pub active_export_id: Option<u128>,
    pub history: Vec<ExportRecord>,
}

pub struct ExportStateView {
    pub active_export_id: Option<u128>,
    pub history: Seq<ExportRecord>,
}

impl View for ExportState {
    type V = ExportStateView;

    open spec fn view(&self) -> ExportStateView {
        ExportStateView { active_export_id: self.active_export_id, history: self.history@ }
    }
}

impl Clone for ExportState {
    fn clone(&self) -> (r: Self)
        ensures
            r@ == self@,
    {
        let history = self.history.clone();
        assert(history@ =~= self.history@);
        ExportState { active_export_id: self.active_export_id, history }
    }
}

#[derive(Debug)]
pub struct StorageState {
    pub project_root: String,
    pub cache_size_bytes: u64,
    pub proxy_size_bytes: u64,
    pub last_cleanup_at: Option<i64>,
    pub autosave_enabled: bool,
    pub autosave_interval_ms: u64,
}

impl Clone for StorageState {
    fn clone(&self) -> (r: Self)
        ensures
            r == *self,
    {
        StorageState {
            project_root: self.project_root.clone(),
            cache_size_bytes: self.cache_size_bytes,
            proxy_size_bytes: self.proxy_size_bytes,
            last_cleanup_at: self.last_cleanup_at,
            autosave_enabled: self.autosave_enabled,
            autosave_interval_ms: self.autosave_interval_ms,
        }
    }
}

#[derive(Debug)]
pub struct ProjectSettings {
    /// Frames per 1000 seconds (24 fps is 24000).
    pub frame_rate_milli: u32,
    pub resolution: Resolution,
    pub aspect_ratio: String,
    pub color_space: ColorSpace,
}

impl Clone for ProjectSettings {
    fn clone(&self) -> (r: Self)
        ensures
            r == *self,
    {
        ProjectSettings {
            frame_rate_milli: self.frame_rate_milli,
            resolution: self.resolution,
            aspect_ratio: self.aspect_ratio.clone(),
            color_space: self.color_space,
        }
    }
}

#[derive(Debug)]
pub struct ProjectState {
    pub schema_version: u32,
    pub project_id: u128,
    pub metadata: ProjectMetadata,
    pub media: Vec<MediaAsset>,
    pub timeline: Timeline,
    pub workflow_state: WorkflowState,
    pub ai_state: AiState,
    pub render_state: RenderState,
    pub export_state: ExportState,
    pub storage_state: StorageState,
    pub created_at: i64,
    pub updated_at: i64,
}

/// Value of a whole project state, every list taken as a sequence.
pub struct ProjectStateView {
    pub schema_version: u32,
    pub project_id: u128,
    pub metadata: ProjectMetadataView,
    pub media: Seq<MediaAsset>,
    pub timeline: TimelineView,
    pub workflow_state: WorkflowStateView,
    pub ai_state: AiStateView,
    pub render_state: RenderStateView,
    pub export_state: ExportStateView,
    pub storage_state: StorageState,
    pub created_at: i64,
    pub updated_at: i64,
}

impl View for ProjectState {
    type V = ProjectStateView;

    open spec fn view(&self) -> ProjectStateView {
        ProjectStateView {
            schema_version: self.schema_version,
            project_id: self.project_id,
            metadata: self.metadata@,
            media: self.media@,
            timeline: self.timeline@,
            workflow_state: self.workflow_state@,
            ai_state: self.ai_state@,
            render_state: self.render_state@,
            export_state: self.export_state@,
            storage_state: self.storage_state,
            created_at: self.created_at,
            updated_at: self.updated_at,
        }
    }
}

impl Clone for ProjectState {
    fn clone(&self) -> (r: Self)
        ensures
            r@ == self@,
    {
        let media = self.media.clone();
        assert(media@ =~= self.media@);
        ProjectState {
            schema_version: self.schema_version,
            project_id: self.project_id,
            metadata: self.metadata.clone(),
            media,
            timeline: self.timeline.clone(),
            workflow_state: self.workflow_state.clone(),
            ai_state: self.ai_state.clone(),
            render_state: self.render_state.clone(),
            export_state: self.export_state.clone(),
            storage_state: self.storage_state.clone(),
            created_at: self.created_at,
            updated_at: self.updated_at,
        }
    }
}

pub open spec fn default_autosave_interval_ms() -> u64 {
    5000
}

/// The two tracks of a new project: "Video 1" (order 0) and "Audio 1"
/// (order 1), both unmuted and empty.
pub open spec fn spec_default_tracks(tracks: Seq<Track>) -> bool {
    &&& tracks.len() == 2
    &&& tracks[0].track_type == TrackType::Video
    &&& tracks[0].name@ == "Video 1"@
    &&& tracks[0].order == 0
    &&& !tracks[0].muted
    &&& tracks[0].clips@.len() == 0
    &&& tracks[1].track_type == TrackType::Audio
    &&& tracks[1].name@ == "Audio 1"@
    &&& tracks[1].order == 1
    &&& !tracks[1].muted
    &&& tracks[1].clips@.len() == 0
}

/// What `ProjectState::new` builds from a name, a project root and settings;
/// the project id, the track ids and the clock reading are left free.
pub open spec fn spec_new_project(s: ProjectState, name: Seq<char>, root: Seq<char>, settings: ProjectSettings) -> bool {
    &&& s.schema_version == SCHEMA_VERSION
    &&& s.metadata.name@ == name
    &&& s.metadata.description@ == Seq::<char>::empty()
    &&& s.metadata.frame_rate_milli == settings.frame_rate_milli
    &&& s.metadata.resolution == settings.resolution
    &&& s.metadata.aspect_ratio == settings.aspect_ratio
    &&& s.metadata.color_space == settings.color_space
    &&& s.metadata.tags@.len() == 0
    &&& s.media@.len() == 0
    &&& s.timeline.duration_ms == 0
    &&& s.timeline.playhead_ms == 0
    &&& spec_default_tracks(s.timeline.tracks@)
    &&& s.timeline.markers@.len() == 0
    &&& s.workflow_state.phase == WorkflowPhase::Import
    &&& s.workflow_state.completed_steps@.len() == 0
    &&& s.workflow_state.last_action matches Some(a) && a@ == "project_created"@
    &&& s.workflow_state.last_action_at == Some(s.created_at)
    &&& s.ai_state.suggestions@.len() == 0
    &&& s.ai_state.dismissed_suggestion_ids@.len() == 0
    &&& s.ai_state.dismissed_action_ids@.len() == 0
    &&& s.ai_state.last_analysis_at is None
    &&& s.render_state.preview_quality == PreviewQuality::Auto
    &&& s.render_state.active_jobs@.len() == 0
    &&& s.render_state.last_preview_frame_at is None
    &&& s.export_state.active_export_id is None
    &&& s.export_state.history@.len() == 0
    &&& s.storage_state.project_root@ == root
    &&& s.storage_state.cache_size_bytes == 0
    &&& s.storage_state.proxy_size_bytes == 0
    &&& s.storage_state.last_cleanup_at is None
    &&& s.storage_state.autosave_enabled
    &&& s.storage_state.autosave_interval_ms == default_autosave_interval_ms()
    &&& s.updated_at == s.created_at
}

impl ProjectState {
    /// A fresh project: schema version 1, empty media, a video and an audio
    /// track, phase Import, autosave on every 5000 ms.
    pub fn new(name: String, project_root: String, settings: ProjectSettings) -> (s: Self)
        ensures
            spec_new_project(s, name@, project_root@, settings),
    {
        let now = now_ms();
        let project_id = new_id();
        ProjectState {
            schema_version: SCHEMA_VERSION,
            project_id,
            metadata: ProjectMetadata {
                name,
                description: String::new(),
                frame_rate_milli: settings.frame_rate_milli,
                resolution: settings.resolution,
                aspect_ratio: settings.aspect_ratio,
                color_space: settings.color_space,
                tags: Vec::new(),
            },
            media: Vec::new(),
            timeline: Timeline {
                duration_ms: 0,
                playhead_ms: 0,
                tracks: default_tracks(),
                markers: Vec::new(),
            },
            workflow_state: WorkflowState {
                phase: WorkflowPhase::Import,
                completed_steps: Vec::new(),
                last_action: Some(String::from_str("project_created")),
                last_action_at: Some(now),
            },
            ai_state: AiState {
                suggestions: Vec::new(),
                dismissed_suggestion_ids: Vec::new(),
                dismissed_action_ids: Vec::new(),
                last_analysis_at: None,
            },
            render_state: RenderState {
                preview_quality: PreviewQuality::Auto,
                active_jobs: Vec::new(),
                last_preview_frame_at: None,
            },
            export_state: ExportState { active_export_id: None, history: Vec::new() },
            storage_state: StorageState {
                project_root,
                cache_size_bytes: 0,
                proxy_size_bytes: 0,
                last_cleanup_at: None,
                autosave_enabled: default_true(),
                autosave_interval_ms: default_autosave_interval(),
            },
            created_at: now,
            updated_at: now,
        }
    }
}

fn default_tracks() -> (r: Vec<Track>)
    ensures
        spec_default_tracks(r@),
{
    let mut v: Vec<Track> = Vec::new();
    v.push(Track {
        id: new_id(),
        track_type: TrackType::Video,
        name: String::from_str("Video 1"),
        order: 0,
        muted: false,
        clips: Vec::new(),
    });
    v.push(Track {
        id: new_id(),
        track_type: TrackType::Audio,
        name: String::from_str("Audio 1"),
        order: 1,
        muted: false,
        clips: Vec::new(),
    });
    v
}

pub fn default_aspect_ratio() -> (r: String)
    ensures
        r@ == "16:9"@,
{
    String::from_str("16:9")
}

pub fn default_color_space() -> (r: ColorSpace)
    ensures
        r == ColorSpace::Rec709,
{
    ColorSpace::Rec709
}

pub fn default_true() -> (r: bool)
    ensures
        r,
{
    true
}

pub fn default_autosave_interval() -> (r: u64)
    ensures
        r == default_autosave_interval_ms(),
{
    5000
}

/// 24 fps, 1920x1080, "16:9", Rec.709.
pub fn default_project_settings() -> (s: ProjectSettings)
    ensures
        s.frame_rate_milli == 24000,
        s.resolution == (Resolution { width: 1920, height: 1080 }),
        s.aspect_ratio@ == "16:9"@,
        s.color_space == ColorSpace::Rec709,
{
    ProjectSettings {
        frame_rate_milli: 24000,
        resolution: Resolution { width: 1920, height: 1080 },
        aspect_ratio: default_aspect_ratio(),
        color_space: default_color_space(),
    }
}

} // verus!
