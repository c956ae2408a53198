//! The state behind the update window: the versions known, the latest
//! release, the release check and firmware flash in progress, and the texts
//! shown.

use vstd::prelude::*;
use crate::bridge::AppStatus;
use crate::flasher::FlashStage;
use crate::text::{clone_opt, join_text, opt_chars, same_text};
use crate::updater::{check_updates, semver_newer, ReleaseInfo, ReleaseSpec, SemVer, VersionSpec, release_version};

verus! {

/// Message shown when the latest release has no firmware image.
pub const NO_FIRMWARE_MESSAGE: &'static str = "No firmware binary found in latest release.";
/// Message shown when the bridge loop did not pause for the flash in time.
pub const BOOTLOADER_TIMEOUT_MESSAGE: &'static str = "Failed to enter bootloader mode (bridge timed out).";
/// How long to wait for the bridge loop to pause before a flash, in
/// milliseconds.
pub const BOOTLOADER_WAIT_MS: u64 = 5000;

/// What the update window knows and shows.
pub struct UpdateUiState {
    pub show_window: bool,
    pub bridge_current: SemVer,
    pub firmware_current: Option<SemVer>,
    pub latest_release: Option<ReleaseInfo>,
    pub bridge_update_available: bool,
    pub firmware_update_available: bool,
    pub flash_in_progress: bool,
    pub flash_stage: Option<FlashStage>,
    pub checking: bool,
    pub error_message: Option<String>,
}

/// The version of an optional version.
pub open spec fn opt_version(v: Option<SemVer>) -> Option<VersionSpec> {
    match v {
        Some(x) => Some(x@),
        None => None,
    }
}

/// The value of an optional release.
pub open spec fn opt_release(r: Option<ReleaseInfo>) -> Option<ReleaseSpec> {
    match r {
        Some(x) => Some(x@),
        None => None,
    }
}

/// The update window's state, as mathematical values.
pub struct UpdateView {
    pub show_window: bool,
    pub bridge_current: VersionSpec,
    pub firmware_current: Option<VersionSpec>,
    pub latest_release: Option<ReleaseSpec>,
    pub bridge_update_available: bool,
    pub firmware_update_available: bool,
    pub flash_in_progress: bool,
    pub flash_stage: Option<FlashStage>,
    pub checking: bool,
    pub error_message: Option<Seq<char>>,
}

impl View for UpdateUiState {
    type V = UpdateView;

    open spec fn view(&self) -> UpdateView {
        UpdateView {
            show_window: self.show_window,
            bridge_current: self.bridge_current@,
            firmware_current: opt_version(self.firmware_current),
            latest_release: opt_release(self.latest_release),
            bridge_update_available: self.bridge_update_available,
            firmware_update_available: self.firmware_update_available,
            flash_in_progress: self.flash_in_progress,
            flash_stage: self.flash_stage,
            checking: self.checking,
            error_message: opt_chars(self.error_message),
        }
    }
}

/// Whether the latest release is newer than a firmware that reported its
/// version (never, while none did).
pub open spec fn firmware_behind(latest: VersionSpec, firmware: Option<VersionSpec>) -> bool {
    match firmware {
        Some(fw) => semver_newer(latest, fw),
        None => false,
    }
}

/// The state after learning of the latest release.
pub open spec fn with_release(s: UpdateView, latest: ReleaseSpec) -> UpdateView {
    UpdateView {
        latest_release: Some(latest),
        bridge_update_available: semver_newer(latest.version, s.bridge_current),
        firmware_update_available: firmware_behind(latest.version, s.firmware_current),
        ..s
    }
}

/// The state after the bridge loop reported a firmware version (or none),
/// and the new value of the status's update flag where it changes.
pub open spec fn synced(s: UpdateView, reported: Option<(u8, u8, u8)>) -> (UpdateView, Option<bool>) {
    match reported {
        Some(t) => {
            let v = release_version(t.0 as u64, t.1 as u64, t.2 as u64);
            if s.firmware_current == Some(v) {
                (s, None)
            } else {
                let s1 = UpdateView { firmware_current: Some(v), ..s };
                match s.latest_release {
                    Some(latest) => {
                        let behind = semver_newer(latest.version, v);
                        (
                            UpdateView { firmware_update_available: behind, ..s1 },
                            Some(s.bridge_update_available || behind),
                        )
                    },
                    None => (s1, None),
                }
            }
        },
        None => if s.firmware_current is Some {
            (
                UpdateView { firmware_current: None, firmware_update_available: false, ..s },
                Some(s.bridge_update_available),
            )
        } else {
            (s, None)
        },
    }
}

/// The download link of the latest release's firmware image, if known.
pub open spec fn firmware_link(s: UpdateView) -> Option<Seq<char>> {
    match s.latest_release {
        Some(r) => r.firmware_download_url,
        None => None,
    }
}

/// The state after a flash ended without success.
pub open spec fn flash_aborted(s: UpdateView, message: Seq<char>) -> UpdateView {
    UpdateView { flash_in_progress: false, flash_stage: None, error_message: Some(message), ..s }
}

/// Whether two versions are equal in every part.
pub fn same_version(a: &SemVer, b: &SemVer) -> (r: bool)
    ensures
        r == (a@ == b@),
{
    a.major() == b.major() && a.minor() == b.minor() && a.patch() == b.patch() && same_text(
        a.pre().as_str(),
        b.pre().as_str(),
    ) && same_text(a.build().as_str(), b.build().as_str())
}

/// What the firmware part of the update window offers.
pub enum FirmwareOffer {
    /// No release is known yet.
    NoRelease,
    /// The latest release has no firmware image.
    NoBinary,
    /// The firmware is the latest.
    UpToDate,
    /// A firmware update can be flashed; the button is enabled when no
    /// flash is running; `needs_device_hint` when the firmware version is
    /// unknown (device not connected).
    Offer { enabled: bool, needs_device_hint: bool },
}

impl UpdateUiState {
    /// The state at start-up: only the bridge's own version is known.
    pub fn new(bridge_current: SemVer) -> (s: Self)
        ensures
            s@ == (UpdateView {
                show_window: false,
                bridge_current: bridge_current@,
                firmware_current: None,
                latest_release: None,
                bridge_update_available: false,
                firmware_update_available: false,
                flash_in_progress: false,
                flash_stage: None,
                checking: false,
                error_message: None,
            }),
    {
        UpdateUiState {
            show_window: false,
            bridge_current,
            firmware_current: None,
            latest_release: None,
            bridge_update_available: false,
            firmware_update_available: false,
            flash_in_progress: false,
            flash_stage: None,
            checking: false,
            error_message: None,
        }
    }

    /// A release check starts: no error shown while it runs.
    pub fn begin_check(&mut self)
        ensures
            final(self)@ == (UpdateView { checking: true, error_message: None, ..old(self)@ }),
    {
        self.checking = true;
        self.error_message = None;
    }

    /// Records the latest release and which updates it offers; returns
    /// whether any update is available.
    pub fn apply_release(&mut self, latest: ReleaseInfo) -> (any: bool)
        ensures
            final(self)@ == with_release(old(self)@, latest@),
            any == (final(self)@.bridge_update_available || final(self)@.firmware_update_available),
    {
        let res = match &self.firmware_current {
            Some(fw) => check_updates(&self.bridge_current, Some(fw), &latest),
            None => check_updates(&self.bridge_current, None, &latest),
        };
        self.latest_release = Some(latest);
        self.bridge_update_available = res.bridge_update_available;
        self.firmware_update_available = res.firmware_update_available;
        res.bridge_update_available || res.firmware_update_available
    }

    /// A release check succeeded with `latest`.
    pub fn finish_check(&mut self, latest: ReleaseInfo)
        ensures
            final(self)@ == (UpdateView { checking: false, ..with_release(old(self)@, latest@) }),
    {
        self.apply_release(latest);
        self.checking = false;
    }

    /// A release check failed for `reason`.
    pub fn fail_check(&mut self, reason: &str)
        ensures
            final(self)@ == (UpdateView {
                error_message: Some("Failed to fetch release: "@ + reason@),
                checking: false,
                ..old(self)@
            }),
    {
        self.error_message = Some(join_text("Failed to fetch release: ", reason));
        self.checking = false;
    }

    /// Takes the firmware version that the bridge loop reports. A new
    /// version is recorded and compared with the latest release; a lost one
    /// is forgotten. Returns the new value of the status's
    /// `update_available` where it changes, `None` where it stays.
    pub fn sync_firmware(&mut self, reported: Option<(u8, u8, u8)>) -> (update: Option<bool>)
        ensures
            (final(self)@, update) == synced(old(self)@, reported),
    {
        match reported {
            Some(t) => {
                let v = match SemVer::from_firmware(t) {
                    Some(v) => v,
                    None => return None,
                };
                let same = match &self.firmware_current {
                    Some(cur) => same_version(cur, &v),
                    None => false,
                };
                if same {
                    return None;
                }
                let check = match &self.latest_release {
                    Some(latest) => Some(check_updates(&self.bridge_current, Some(&v), latest)),
                    None => None,
                };
                self.firmware_current = Some(v);
                match check {
                    Some(res) => {
                        self.firmware_update_available = res.firmware_update_available;
                        Some(self.bridge_update_available || res.firmware_update_available)
                    },
                    None => None,
                }
            },
            None => {
                if self.firmware_current.is_some() {
                    self.firmware_current = None;
                    self.firmware_update_available = false;
                    Some(self.bridge_update_available)
                } else {
                    None
                }
            },
        }
    }

    /// A firmware update is requested: returns the image's link and marks
    /// the flash as started, or records that the latest release has none.
    pub fn begin_flash(&mut self) -> (url: Option<String>)
        ensures
            match firmware_link(old(self)@) {
                Some(l) => (url matches Some(u) && u@ == l) && final(self)@ == (UpdateView {
                    flash_in_progress: true,
                    flash_stage: Some(FlashStage::Connecting),
                    error_message: None,
                    ..old(self)@
                }),
                None => url is None && final(self)@ == (UpdateView {
                    error_message: Some(NO_FIRMWARE_MESSAGE@),
                    ..old(self)@
                }),
            },
    {
        let link = match &self.latest_release {
            Some(r) => clone_opt(&r.firmware_download_url),
            None => None,
        };
        match link {
            Some(l) => {
                self.flash_in_progress = true;
                self.flash_stage = Some(FlashStage::Connecting);
                self.error_message = None;
                Some(l)
            },
            None => {
                self.error_message = Some(NO_FIRMWARE_MESSAGE.to_owned());
                None
            },
        }
    }

    /// The flash reached `stage`.
    pub fn set_flash_stage(&mut self, stage: FlashStage)
        ensures
            final(self)@ == (UpdateView { flash_stage: Some(stage), ..old(self)@ }),
    {
        self.flash_stage = Some(stage);
    }

    /// The firmware image could not be downloaded.
    pub fn download_failed(&mut self, reason: &str)
        ensures
            final(self)@ == flash_aborted(old(self)@, "Download failed: "@ + reason@),
    {
        self.flash_in_progress = false;
        self.flash_stage = None;
        self.error_message = Some(join_text("Download failed: ", reason));
    }

    /// The bridge loop did not pause in time for the flash.
    pub fn bootloader_timed_out(&mut self)
        ensures
            final(self)@ == flash_aborted(old(self)@, BOOTLOADER_TIMEOUT_MESSAGE@),
    {
        self.flash_in_progress = false;
        self.flash_stage = None;
        self.error_message = Some(BOOTLOADER_TIMEOUT_MESSAGE.to_owned());
    }

    /// The flash ended: on success no firmware update is pending any more;
    /// on failure the reason is shown.
    pub fn flash_finished(&mut self, result: Result<(), String>)
        ensures
            result is Ok ==> final(self)@ == (UpdateView {
                flash_in_progress: false,
                flash_stage: None,
                firmware_update_available: false,
                ..old(self)@
            }),
            result matches Err(e) ==> final(self)@ == flash_aborted(old(self)@, "Flash failed: "@ + e@),
    {
        self.flash_in_progress = false;
        self.flash_stage = None;
        match result {
            Ok(()) => {
                self.firmware_update_available = false;
            },
            Err(e) => {
                self.error_message = Some(join_text("Flash failed: ", e.as_str()));
            },
        }
    }

    /// What the firmware part of the window offers.
    pub fn firmware_offer(&self) -> (offer: FirmwareOffer)
        ensures
            match self@.latest_release {
                None => offer is NoRelease,
                Some(r) => if r.firmware_download_url is None {
                    offer is NoBinary
                } else if self@.firmware_update_available || self@.firmware_current is None {
                    offer == (FirmwareOffer::Offer {
                        enabled: !self@.flash_in_progress,
                        needs_device_hint: self@.firmware_current is None,
                    })
                } else {
                    offer is UpToDate
                },
            },
    {
        match &self.latest_release {
            None => FirmwareOffer::NoRelease,
            Some(r) => {
                if r.firmware_download_url.is_none() {
                    FirmwareOffer::NoBinary
                } else if self.firmware_update_available || self.firmware_current.is_none() {
                    FirmwareOffer::Offer {
                        enabled: !self.flash_in_progress,
                        needs_device_hint: self.firmware_current.is_none(),
                    }
                } else {
                    FirmwareOffer::UpToDate
                }
            },
        }
    }

    /// Whether the "Check for Updates" button is enabled.
    pub fn can_check(&self) -> (r: bool)
        ensures
            r == (!self@.checking && !self@.flash_in_progress),
    {
        !self.checking && !self.flash_in_progress
    }
}

/// The texts of the tray menu for a status: indicator connection, Teams
/// log, and updates.
pub fn tray_texts(status: &AppStatus) -> (texts: (&'static str, &'static str, &'static str))
    ensures
        texts.0@ == (if status.esp_connected { "🟢 ESP32: Connected (USB HID)"@ } else { "🔴 ESP32: Disconnected"@ }),
        texts.1@ == (if status.teams_parsing { "🟢 Teams: Log Parsing Active"@ } else { "🔴 Teams: Log Not Found"@ }),
        texts.2@ == (if status.update_available { "⬆ Update Available!"@ } else { "Check for Updates"@ }),
{
    let esp = if status.esp_connected { "🟢 ESP32: Connected (USB HID)" } else { "🔴 ESP32: Disconnected" };
    let teams = if status.teams_parsing { "🟢 Teams: Log Parsing Active" } else { "🔴 Teams: Log Not Found" };
    let upd = if status.update_available { "⬆ Update Available!" } else { "Check for Updates" };
    (esp, teams, upd)
}


/// A newly reported firmware version is compared with the latest release:
/// the firmware is behind exactly when the release is newer than the
/// reported version, and the tray's update flag becomes "bridge behind or
/// firmware behind", whatever the firmware flag was before.
pub proof fn law_new_firmware_compared_with_release(s: UpdateView, reported: (u8, u8, u8), latest: ReleaseSpec)
    requires
        s.latest_release == Some(latest),
        s.firmware_current != Some(release_version(reported.0 as u64, reported.1 as u64, reported.2 as u64)),
    ensures
        ({
            let v = release_version(reported.0 as u64, reported.1 as u64, reported.2 as u64);
            let (s2, flag) = synced(s, Some(reported));
            &&& s2.firmware_current == Some(v)
            &&& s2.firmware_update_available == semver_newer(latest.version, v)
            &&& flag == Some(s.bridge_update_available || semver_newer(latest.version, v))
            &&& s2.bridge_update_available == s.bridge_update_available
        }),
{
}

} // verus!
