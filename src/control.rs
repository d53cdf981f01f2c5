//! The control plane that embedding hosts drive: the permission probe that
//! gates sensor calls, and the process-wide slot holding the one running
//! reporter behind opaque handles.

use vstd::prelude::*;
use crate::config::ReporterConfig;
use crate::codec::{base64_decode, base64_decoded};
use crate::media::{MediaMetadata, PlaybackState};
use crate::reporter::{opt_meta_view, playback_step, window_step, ArtworkUpload, Delivery,
    PlaybackReport, Reporter, ReporterView, WindowInfo};

verus! {

/// What is known of the gated native capability in this process.
#[derive(Clone, Copy, PartialEq, Eq, Debug, Structural)]
pub enum ProbeStatus {
    Unchecked,
    Available,
    Blocked,
}

/// How a probing call ended.
#[derive(Clone, Copy, PartialEq, Eq, Debug, Structural)]
pub enum ProbeOutcome {
    /// It returned.
    Returned,
    /// It faulted.
    Faulted,
    /// It did not return within the time allowed.
    TimedOut,
}

/// What the caller is to do when asked whether the capability is usable.
#[derive(Clone, Copy, PartialEq, Eq, Debug, Structural)]
pub enum ProbeStep {
    /// Answer at once, without calling the capability.
    Answer(bool),
    /// Run the probing call on a detached worker, wait a bounded time and
    /// report the outcome to `finish`.
    Run,
}

/// The answer to a finished probe.
#[derive(Clone, Copy, PartialEq, Eq, Debug, Structural)]
pub struct ProbeResult {
    pub available: bool,
    /// Write the durable "blocked" marker.
    pub write_marker: bool,
}

/// The permission probe.
pub struct PermissionProbe {
    pub status: ProbeStatus,
}

pub open spec fn begin_spec(status: ProbeStatus, marker_present: bool) -> (ProbeStatus, ProbeStep) {
    match status {
        ProbeStatus::Available => (status, ProbeStep::Answer(true)),
        ProbeStatus::Blocked => (status, ProbeStep::Answer(false)),
        ProbeStatus::Unchecked => if marker_present {
            (ProbeStatus::Blocked, ProbeStep::Answer(false))
        } else {
            (status, ProbeStep::Run)
        },
    }
}

pub open spec fn finish_spec(outcome: ProbeOutcome) -> (ProbeStatus, ProbeResult) {
    match outcome {
        ProbeOutcome::Returned => (
            ProbeStatus::Available,
            ProbeResult { available: true, write_marker: false },
        ),
        ProbeOutcome::Faulted => (
            ProbeStatus::Blocked,
            ProbeResult { available: false, write_marker: true },
        ),
        ProbeOutcome::TimedOut => (
            ProbeStatus::Blocked,
            ProbeResult { available: false, write_marker: false },
        ),
    }
}

impl PermissionProbe {
    /// A probe that has not checked anything yet.
    pub fn new() -> (r: PermissionProbe)
        ensures
            r.status == ProbeStatus::Unchecked,
    {
        PermissionProbe { status: ProbeStatus::Unchecked }
    }

    /// Starts a check. A known status answers at once; otherwise a durable
    /// marker means blocked, and without one the probing call is to run.
    pub fn begin(&mut self, marker_present: bool) -> (r: ProbeStep)
        ensures
            (final(self).status, r) == begin_spec(old(self).status, marker_present),
    {
        match self.status {
            ProbeStatus::Available => ProbeStep::Answer(true),
            ProbeStatus::Blocked => ProbeStep::Answer(false),
            ProbeStatus::Unchecked => {
                if marker_present {
                    self.status = ProbeStatus::Blocked;
                    ProbeStep::Answer(false)
                } else {
                    ProbeStep::Run
                }
            },
        }
    }

    /// Takes in how the probing call ended. A clean return means available;
    /// a fault means blocked until reset, with a durable marker; a timeout
    /// means blocked for this process only.
    pub fn finish(&mut self, outcome: ProbeOutcome) -> (r: ProbeResult)
        ensures
            (final(self).status, r) == finish_spec(outcome),
    {
        match outcome {
            ProbeOutcome::Returned => {
                self.status = ProbeStatus::Available;
                ProbeResult { available: true, write_marker: false }
            },
            ProbeOutcome::Faulted => {
                self.status = ProbeStatus::Blocked;
                ProbeResult { available: false, write_marker: true }
            },
            ProbeOutcome::TimedOut => {
                self.status = ProbeStatus::Blocked;
                ProbeResult { available: false, write_marker: false }
            },
        }
    }

    /// Forgets the status; the caller deletes the durable marker.
    pub fn reset(&mut self)
        ensures
            final(self).status == ProbeStatus::Unchecked,
    {
        self.status = ProbeStatus::Unchecked;
    }
}

/// A probe that faults leaves the status blocked and the marker written;
/// a later check, in this process or in a fresh one that finds the marker,
/// answers "blocked" without running the call; a reset clears both, after
/// which the call runs again.
pub proof fn lemma_fault_blocks_until_reset(marker: bool, fresh: ProbeStatus)
    requires
        fresh == ProbeStatus::Unchecked,
    ensures
        ({
            let (s1, step1) = begin_spec(ProbeStatus::Unchecked, false);
            let (s2, res) = finish_spec(ProbeOutcome::Faulted);
            let marker2 = marker || res.write_marker;
            &&& step1 == ProbeStep::Run
            &&& s2 == ProbeStatus::Blocked
            &&& marker2
            &&& begin_spec(s2, marker2).1 == ProbeStep::Answer(false)
            &&& begin_spec(fresh, marker2).1 == ProbeStep::Answer(false)
            &&& begin_spec(ProbeStatus::Unchecked, false).1 == ProbeStep::Run
        }),
{
}

/// Log levels of the host's log callback.
#[derive(Clone, Copy, PartialEq, Eq, Debug, Structural)]
pub enum SmLogLevel {
    Info,
    Warning,
    Error,
}

/// An opaque capability token for the running reporter.
#[derive(Clone, Copy, PartialEq, Eq, Debug, Structural)]
pub struct SmReporter {
    pub token: u64,
}

/// What a status query returns.
pub struct SmStatus {
    pub is_running: bool,
    pub is_connected: bool,
    pub last_error: Option<String>,
}

/// The process-wide control plane: at most one reporter, reached through
/// handles, and the permission probe.
pub struct ControlBoundary<C> {
    slot: Option<Reporter<C>>,
    issued: u64,
    probe: PermissionProbe,
}

/// Whether a start succeeds: a configuration is given and nothing runs.
pub open spec fn start_succeeds(running: bool, config_given: bool) -> bool {
    config_given && !running
}

/// Whether a stop succeeds: something runs.
pub open spec fn stop_succeeds(running: bool) -> bool {
    running
}

impl<C: Copy> ControlBoundary<C> {
    /// The slot holding the running reporter, if any.
    pub closed spec fn running(&self) -> Option<ReporterView<C>> {
        match self.slot {
            Some(r) => Some(r@),
            None => None,
        }
    }

    /// The probe's status.
    pub closed spec fn probe_status(&self) -> ProbeStatus {
        self.probe.status
    }

    /// A control plane with nothing running and an unchecked probe.
    pub fn new() -> (r: ControlBoundary<C>)
        ensures
            r.running().is_none(),
            r.probe_status() == ProbeStatus::Unchecked,
    {
        ControlBoundary { slot: None, issued: 0, probe: PermissionProbe::new() }
    }

    /// Whether a reporter is running.
    pub fn sm_reporter_is_running(&self) -> (r: bool)
        ensures
            r == self.running().is_some(),
    {
        self.slot.is_some()
    }

    /// Starts the reporter. Fails, changing nothing, when no configuration
    /// is given or a reporter already runs.
    pub fn sm_reporter_start(&mut self, config: Option<ReporterConfig>) -> (r: Option<SmReporter>)
        ensures
            r.is_some() == start_succeeds(old(self).running().is_some(), config.is_some()),
            r.is_none() ==> final(self).running() == old(self).running(),
            r.is_some() ==> final(self).running().is_some() && final(self).running().unwrap().config
                == config.unwrap() && final(self).running().unwrap().last_window.is_none()
                && final(self).running().unwrap().last_media.is_none()
                && final(self).running().unwrap().window_callback.is_none()
                && final(self).running().unwrap().media_callback.is_none()
                && final(self).running().unwrap().log_callback.is_none(),
            final(self).probe_status() == old(self).probe_status(),
    {
        let cfg = match config {
            Some(c) => c,
            None => {
                return None;
            },
        };
        if self.slot.is_some() {
            return None;
        }
        self.slot = Some(Reporter::new(cfg));
        if self.issued < u64::MAX {
            self.issued = self.issued + 1;
        }
        Some(SmReporter { token: self.issued })
    }

    /// Stops the running reporter; false when none runs. The handle is a
    /// token only: any handle stops the one reporter.
    pub fn sm_reporter_stop(&mut self, handle: Option<SmReporter>) -> (r: bool)
        ensures
            r == stop_succeeds(old(self).running().is_some()),
            final(self).running().is_none(),
            final(self).probe_status() == old(self).probe_status(),
    {
        if self.slot.is_some() {
            self.slot = None;
            true
        } else {
            false
        }
    }

    /// Running and connection state; never fails.
    pub fn sm_reporter_get_status(&self, handle: Option<SmReporter>) -> (r: SmStatus)
        ensures
            r.is_running == self.running().is_some(),
            r.is_connected == (self.running().is_some() && self.running().unwrap().connected),
            r.last_error.is_none(),
    {
        let is_connected = match &self.slot {
            Some(rep) => rep.is_connected(),
            None => false,
        };
        SmStatus { is_running: self.slot.is_some(), is_connected, last_error: None }
    }

    /// Offers a window snapshot to the running reporter; `None` when none
    /// runs.
    pub fn send_window_info(&mut self, info: &WindowInfo) -> (r: Option<Delivery<C>>)
        ensures
            r.is_some() == old(self).running().is_some(),
            r.is_none() ==> final(self).running() == old(self).running(),
            r.is_some() ==> (final(self).running().unwrap(), r.unwrap().send, r.unwrap().callback)
                == window_step(old(self).running().unwrap(), info@) && final(self).running().is_some(),
            final(self).probe_status() == old(self).probe_status(),
    {
        match &mut self.slot {
            Some(rep) => Some(rep.send_window_info(info)),
            None => None,
        }
    }

    /// Hands a playback sample to the running reporter; `None` when none
    /// runs.
    pub fn report_playback(&mut self, state: &Option<PlaybackState>, metadata: &Option<MediaMetadata>) -> (r:
        Option<PlaybackReport<C>>)
        ensures
            r.is_some() == old(self).running().is_some(),
            r.is_none() ==> final(self).running() == old(self).running(),
            r.is_some() ==> final(self).running().is_some() && (
                final(self).running().unwrap(),
                r.unwrap().upload.is_some(),
                r.unwrap().media.send,
                r.unwrap().media.callback,
            ) == playback_step(old(self).running().unwrap(), *state, opt_meta_view(*metadata)),
            final(self).probe_status() == old(self).probe_status(),
    {
        match &mut self.slot {
            Some(rep) => Some(rep.report_playback(state, metadata)),
            None => None,
        }
    }

    /// Records the running reporter's connection state.
    pub fn set_connected(&mut self, connected: bool)
        ensures
            final(self).running() == match old(self).running() {
                Some(v) => Some(ReporterView { connected, ..v }),
                None => None,
            },
            final(self).probe_status() == old(self).probe_status(),
    {
        match &mut self.slot {
            Some(rep) => rep.set_connected(connected),
            None => {},
        }
    }

    /// Asks whether the gated capability is usable; see `PermissionProbe::begin`.
    pub fn sm_check_media_permission(&mut self, marker_present: bool) -> (r: ProbeStep)
        ensures
            (final(self).probe_status(), r) == begin_spec(old(self).probe_status(), marker_present),
            final(self).running() == old(self).running(),
    {
        self.probe.begin(marker_present)
    }

    /// Reports how the probing call ended; see `PermissionProbe::finish`.
    pub fn finish_media_permission_check(&mut self, outcome: ProbeOutcome) -> (r: ProbeResult)
        ensures
            (final(self).probe_status(), r) == finish_spec(outcome),
            final(self).running() == old(self).running(),
    {
        self.probe.finish(outcome)
    }

    /// Forgets the probe's status; the caller deletes the durable marker.
    pub fn sm_reset_media_permission_check(&mut self)
        ensures
            final(self).probe_status() == ProbeStatus::Unchecked,
            final(self).running() == old(self).running(),
    {
        self.probe.reset();
    }

    /// Registers the log callback of the running reporter; false when none
    /// runs.
    pub fn sm_reporter_set_log_callback(&mut self, callback: C) -> (r: bool)
        ensures
            r == old(self).running().is_some(),
            r ==> final(self).running() == Some(
                ReporterView { log_callback: Some(callback), ..old(self).running().unwrap() },
            ),
            !r ==> final(self).running().is_none(),
    {
        match &mut self.slot {
            Some(rep) => {
                rep.set_log_callback(Some(callback));
                true
            },
            None => false,
        }
    }

    /// Registers the window callback of the running reporter; false when
    /// none runs.
    pub fn sm_reporter_set_window_callback(&mut self, callback: C) -> (r: bool)
        ensures
            r == old(self).running().is_some(),
            r ==> final(self).running() == Some(
                ReporterView { window_callback: Some(callback), ..old(self).running().unwrap() },
            ),
            !r ==> final(self).running().is_none(),
    {
        match &mut self.slot {
            Some(rep) => {
                rep.set_window_callback(Some(callback));
                true
            },
            None => false,
        }
    }

    /// Registers the media callback of the running reporter; false when
    /// none runs.
    pub fn sm_reporter_set_media_callback(&mut self, callback: C) -> (r: bool)
        ensures
            r == old(self).running().is_some(),
            r ==> final(self).running() == Some(
                ReporterView { media_callback: Some(callback), ..old(self).running().unwrap() },
            ),
            !r ==> final(self).running().is_none(),
    {
        match &mut self.slot {
            Some(rep) => {
                rep.set_media_callback(Some(callback));
                true
            },
            None => false,
        }
    }
}

/// Why an artwork upload request was refused.
#[derive(Clone, Copy, PartialEq, Eq, Debug, Structural)]
pub enum ArtworkRequestError {
    /// The artwork text is not standard base64.
    InvalidBase64,
    /// No reporter runs.
    NotRunning,
}

impl<C: Copy> ControlBoundary<C> {
    /// Applies new reporter settings: when enabled, the running reporter
    /// takes them (what it sent and its callbacks stay) or a reporter starts
    /// with them; when disabled, the reporter stops.
    pub fn update_reporter_config(&mut self, config: ReporterConfig)
        ensures
            !config.enabled ==> final(self).running().is_none(),
            config.enabled && old(self).running().is_some() ==> final(self).running() == Some(
                ReporterView { config, ..old(self).running().unwrap() },
            ),
            config.enabled && old(self).running().is_none() ==> final(self).running().is_some()
                && final(self).running().unwrap().config == config
                && final(self).running().unwrap().last_window.is_none()
                && final(self).running().unwrap().last_media.is_none(),
            final(self).probe_status() == old(self).probe_status(),
    {
        if config.enabled {
            match &mut self.slot {
                Some(rep) => rep.update_config(config),
                None => {
                    self.sm_reporter_start(Some(config));
                },
            }
        } else {
            self.sm_reporter_stop(None);
        }
    }

    /// Turns base64 artwork into an upload for the running reporter.
    pub fn upload_media_artwork(
        &self,
        content_item_identifier: String,
        artwork_base64: &str,
        mime_type: String,
    ) -> (r: Result<Option<ArtworkUpload>, ArtworkRequestError>)
        ensures
            base64_decoded(artwork_base64@).is_none() ==> r == Err::<Option<ArtworkUpload>, _>(
                ArtworkRequestError::InvalidBase64,
            ),
            base64_decoded(artwork_base64@).is_some() && self.running().is_none() ==> r == Err::<
                Option<ArtworkUpload>,
                _,
            >(ArtworkRequestError::NotRunning),
            base64_decoded(artwork_base64@).is_some() && self.running().is_some() ==> r.is_ok() && (
            r.unwrap().is_some() == self.running().unwrap().config.enabled) && (r.unwrap().is_some()
                ==> r.unwrap().unwrap().content_id == content_item_identifier
                && r.unwrap().unwrap().data@ == base64_decoded(artwork_base64@).unwrap()
                && r.unwrap().unwrap().mime_type == mime_type),
    {
        let data = match base64_decode(artwork_base64) {
            Some(d) => d,
            None => {
                return Err(ArtworkRequestError::InvalidBase64);
            },
        };
        match &self.slot {
            Some(rep) => Ok(rep.upload_artwork(content_item_identifier, data, mime_type)),
            None => Err(ArtworkRequestError::NotRunning),
        }
    }
}

/// A second start without a stop in between fails, and a stop with nothing
/// running reports failure.
pub proof fn lemma_single_instance(config_given: bool)
    ensures
        start_succeeds(false, config_given) ==> !start_succeeds(true, config_given),
        !start_succeeds(true, config_given),
        !stop_succeeds(false),
        !start_succeeds(false, false),
{
}

} // verus!
