//! Release checks: the version of the latest release, the download links of
//! its assets, and whether the bridge or the firmware is behind it.
//!
//! Versions are Semantic Versions, parsed and ordered by the `semver` crate.

use vstd::prelude::*;
use crate::text::{
    append_chars, chars_of, clone_opt, decimal, opt_chars, push_decimal, same_text, string_from_chars,
};

verus! {

/// `semver::Version`, made known to the verifier as an opaque type: nothing
/// of its contents is visible here.
#[verifier::external_type_specification]
#[verifier::external_body]
pub struct ExSemverVersion(semver::Version);

/// A semantic version: major, minor, patch, pre-release and build metadata.
pub type VersionSpec = (u64, u64, u64, Seq<char>, Seq<char>);

/// What `semver::Version::parse` makes of a text: its version, or none
/// where the text is not a semantic version.
pub uninterp spec fn semver_parse(text: Seq<char>) -> Option<VersionSpec>;

/// Whether `semver` orders version `a` after version `b`.
pub uninterp spec fn semver_newer(a: VersionSpec, b: VersionSpec) -> bool;

/// `MAJOR.MINOR.PATCH` in canonical decimals.
pub open spec fn version_text(major: nat, minor: nat, patch: nat) -> Seq<char> {
    decimal(major) + seq!['.'] + decimal(minor) + seq!['.'] + decimal(patch)
}

/// The release `major.minor.patch`: no pre-release, no build metadata.
pub open spec fn release_version(major: u64, minor: u64, patch: u64) -> VersionSpec {
    (major, minor, patch, Seq::<char>::empty(), Seq::<char>::empty())
}

/// `(major, minor, patch)` of `a` comes after that of `b`, compared in
/// this order.
pub open spec fn triple_newer(a: VersionSpec, b: VersionSpec) -> bool {
    a.0 > b.0 || (a.0 == b.0 && (a.1 > b.1 || (a.1 == b.1 && a.2 > b.2)))
}

/// A semantic version as parsed by `semver`.
pub struct SemVer {
    inner: semver::Version,
    major: u64,
    minor: u64,
    patch: u64,
    pre: String,
    build: String,
}

impl View for SemVer {
    type V = VersionSpec;

    closed spec fn view(&self) -> VersionSpec {
        (self.major, self.minor, self.patch, self.pre@, self.build@)
    }
}

/// Parses a semantic version with `semver::Version::parse`. The contract
/// names the result (`semver_parse`) and states one fact of the crate's
/// grammar: `MAJOR.MINOR.PATCH` in canonical decimals is that version,
/// without pre-release or build. Which other texts parse, and to what, is
/// left unsaid; the error is the crate's message.
#[verifier::external_body]
fn semver_parse_text(text: &str) -> (r: Result<SemVer, String>)
    ensures
        r is Ok <==> semver_parse(text@) is Some,
        r matches Ok(v) ==> semver_parse(text@) == Some(v@),
        r matches Ok(v) ==> forall|a: u64, b: u64, c: u64|
            text@ == version_text(a as nat, b as nat, c as nat) ==> v@ == release_version(a, b, c),
        (exists|a: u64, b: u64, c: u64| text@ == version_text(a as nat, b as nat, c as nat)) ==> r is Ok,
{
    match semver::Version::parse(text) {
        Ok(v) => Ok(SemVer {
            major: v.major,
            minor: v.minor,
            patch: v.patch,
            pre: v.pre.as_str().to_string(),
            build: v.build.as_str().to_string(),
            inner: v,
        }),
        Err(e) => Err(e.to_string()),
    }
}

/// Whether `a > b` in `semver`'s order (`Version`'s derived `Ord`: major,
/// minor, patch, then pre-release and build). Stated: the result is a
/// function of the two versions; where major, minor and patch differ it is
/// their comparison; where pre-release and build agree it is too.
#[verifier::external_body]
fn semver_gt(a: &SemVer, b: &SemVer) -> (r: bool)
    ensures
        r == semver_newer(a@, b@),
        (a@.0, a@.1, a@.2) != (b@.0, b@.1, b@.2) ==> r == triple_newer(a@, b@),
        (a@.3 == b@.3 && a@.4 == b@.4) ==> r == triple_newer(a@, b@),
{
    a.inner > b.inner
}

/// A copy of a `semver::Version`, by its derived `Clone`; nothing is
/// claimed of it (the copy is held next to the parts it was parsed into).
#[verifier::external_body]
fn semver_clone(v: &semver::Version) -> semver::Version {
    v.clone()
}

impl Clone for SemVer {
    fn clone(&self) -> (c: Self)
        ensures
            c@ == self@,
    {
        SemVer {
            inner: semver_clone(&self.inner),
            major: self.major,
            minor: self.minor,
            patch: self.patch,
            pre: self.pre.clone(),
            build: self.build.clone(),
        }
    }
}

impl SemVer {
    /// Parses a semantic version.
    pub fn parse(text: &str) -> (r: Result<SemVer, String>)
        ensures
            r is Ok <==> semver_parse(text@) is Some,
            r matches Ok(v) ==> semver_parse(text@) == Some(v@),
            forall|a: u64, b: u64, c: u64|
                text@ == version_text(a as nat, b as nat, c as nat) ==> (r matches Ok(v) && v@
                    == release_version(a, b, c)),
    {
        semver_parse_text(text)
    }

    /// The version `major.minor.patch` of a firmware, through the same
    /// parser as any other version.
    pub fn from_firmware(version: (u8, u8, u8)) -> (r: Option<SemVer>)
        ensures
            r matches Some(v) && v@ == release_version(version.0 as u64, version.1 as u64, version.2 as u64),
    {
        let mut text: Vec<char> = Vec::new();
        push_decimal(&mut text, version.0 as u64);
        text.push('.');
        push_decimal(&mut text, version.1 as u64);
        text.push('.');
        push_decimal(&mut text, version.2 as u64);
        let s = string_from_chars(text.as_slice());
        let ghost spec_text = version_text(version.0 as nat, version.1 as nat, version.2 as nat);
        assert(s@ =~= spec_text);
        match semver_parse_text(s.as_str()) {
            Ok(v) => Some(v),
            Err(_) => None,
        }
    }

    /// Whether this version comes after `other`.
    pub fn is_newer_than(&self, other: &SemVer) -> (r: bool)
        ensures
            r == semver_newer(self@, other@),
            (self@.0, self@.1, self@.2) != (other@.0, other@.1, other@.2) ==> r == triple_newer(self@, other@),
            (self@.3 == other@.3 && self@.4 == other@.4) ==> r == triple_newer(self@, other@),
    {
        semver_gt(self, other)
    }

    pub fn major(&self) -> (n: u64)
        ensures
            n == self@.0,
    {
        self.major
    }

    pub fn minor(&self) -> (n: u64)
        ensures
            n == self@.1,
    {
        self.minor
    }

    pub fn patch(&self) -> (n: u64)
        ensures
            n == self@.2,
    {
        self.patch
    }

    /// The pre-release identifiers (empty for a release).
    pub fn pre(&self) -> (s: &String)
        ensures
            s@ == self@.3,
    {
        &self.pre
    }

    /// The build metadata (often empty).
    pub fn build(&self) -> (s: &String)
        ensures
            s@ == self@.4,
    {
        &self.build
    }

    /// The version as text: `MAJOR.MINOR.PATCH`, then `-PRE` and `+BUILD`
    /// where present.
    pub fn to_text(&self) -> (s: String)
        ensures
            s@ == version_text(self@.0 as nat, self@.1 as nat, self@.2 as nat) + (if self@.3.len() > 0 {
                seq!['-'] + self@.3
            } else {
                Seq::empty()
            }) + (if self@.4.len() > 0 {
                seq!['+'] + self@.4
            } else {
                Seq::empty()
            }),
    {
        let mut text: Vec<char> = Vec::new();
        push_decimal(&mut text, self.major);
        text.push('.');
        push_decimal(&mut text, self.minor);
        text.push('.');
        push_decimal(&mut text, self.patch);
        if !self.pre.as_str().is_empty() {
            text.push('-');
            append_chars(&mut text, self.pre.as_str());
        }
        if !self.build.as_str().is_empty() {
            text.push('+');
            append_chars(&mut text, self.build.as_str());
        }
        assert(text@ =~= version_text(self@.0 as nat, self@.1 as nat, self@.2 as nat) + (if self@.3.len() > 0 {
            seq!['-'] + self@.3
        } else {
            Seq::empty()
        }) + (if self@.4.len() > 0 {
            seq!['+'] + self@.4
        } else {
            Seq::empty()
        }));
        string_from_chars(text.as_slice())
    }
}


/// Owner and name of the repository whose releases are checked.
pub const GITHUB_REPO: &'static str = "CryoRig/Teams-Presence-LED";
/// Name of the firmware image among a release's assets.
pub const FIRMWARE_ASSET_NAME: &'static str = "firmware.bin";
/// Name of the bridge executable among a release's assets.
pub const BRIDGE_ASSET_NAME: &'static str = "TeamsPresenceBridge.exe";

/// A downloadable file of a release, as the release service lists it.
pub struct GithubAsset {
    pub name: String,
    pub browser_download_url: String,
}

/// A release, as the release service describes it.
pub struct GithubRelease {
    pub tag_name: String,
    pub html_url: String,
    pub assets: Vec<GithubAsset>,
}

impl View for GithubAsset {
    type V = (Seq<char>, Seq<char>);

    open spec fn view(&self) -> (Seq<char>, Seq<char>) {
        (self.name@, self.browser_download_url@)
    }
}

/// What the bridge knows of the latest release.
pub struct ReleaseInfo {
    pub version: SemVer,
    pub firmware_download_url: Option<String>,
    pub bridge_download_url: Option<String>,
    pub html_url: String,
}

/// Mathematical value of a release.
pub struct ReleaseSpec {
    pub version: VersionSpec,
    pub firmware_download_url: Option<Seq<char>>,
    pub bridge_download_url: Option<Seq<char>>,
    pub html_url: Seq<char>,
}

impl View for ReleaseInfo {
    type V = ReleaseSpec;

    open spec fn view(&self) -> ReleaseSpec {
        ReleaseSpec {
            version: self.version@,
            firmware_download_url: opt_chars(self.firmware_download_url),
            bridge_download_url: opt_chars(self.bridge_download_url),
            html_url: self.html_url@,
        }
    }
}

impl Clone for ReleaseInfo {
    fn clone(&self) -> (c: Self)
        ensures
            c@ == self@,
    {
        ReleaseInfo {
            version: self.version.clone(),
            firmware_download_url: clone_opt(&self.firmware_download_url),
            bridge_download_url: clone_opt(&self.bridge_download_url),
            html_url: self.html_url.clone(),
        }
    }
}

/// Which updates the latest release offers.
pub struct UpdateCheckResult {
    pub latest: ReleaseInfo,
    pub bridge_update_available: bool,
    pub firmware_update_available: bool,
}

/// A release tag without its leading `v`, if it has one.
pub open spec fn tag_version_text(tag: Seq<char>) -> Seq<char> {
    if tag.len() > 0 && tag[0] == 'v' {
        tag.skip(1)
    } else {
        tag
    }
}

/// Reads the version of a release tag such as `v1.2.3` (the `v` is
/// optional).
pub fn parse_tag_to_semver(tag: &str) -> (r: Result<SemVer, String>)
    ensures
        r is Ok <==> semver_parse(tag_version_text(tag@)) is Some,
        r matches Ok(v) ==> semver_parse(tag_version_text(tag@)) == Some(v@),
        forall|a: u64, b: u64, c: u64|
            tag_version_text(tag@) == version_text(a as nat, b as nat, c as nat) ==> (r matches Ok(v)
                && v@ == release_version(a, b, c)),
{
    let chars = chars_of(tag);
    if chars.len() > 0 && chars[0] == 'v' {
        let rest = string_from_chars(&chars.as_slice()[1..chars.len()]);
        assert(rest@ =~= tag@.skip(1));
        semver_parse_text(rest.as_str())
    } else {
        semver_parse_text(tag)
    }
}

/// The download link of the last asset called `name`.
pub open spec fn asset_url(assets: Seq<(Seq<char>, Seq<char>)>, name: Seq<char>) -> Option<Seq<char>>
    decreases assets.len(),
{
    if assets.len() == 0 {
        None
    } else if assets.last().0 == name {
        Some(assets.last().1)
    } else {
        asset_url(assets.drop_last(), name)
    }
}

/// What the bridge keeps of a release: its version, read from the tag, the
/// links of the firmware image and of the bridge executable, and the page
/// of the release. A tag that is no version is refused with the parser's
/// message.
pub fn release_info_from(release: GithubRelease) -> (r: Result<ReleaseInfo, String>)
    ensures
        r is Ok <==> semver_parse(tag_version_text(release.tag_name@)) is Some,
        forall|a: u64, b: u64, c: u64|
            tag_version_text(release.tag_name@) == version_text(a as nat, b as nat, c as nat) ==> (r matches Ok(
                info,
            ) && info.version@ == release_version(a, b, c)),
        r matches Ok(info) ==> {
            let assets = release.assets@.map_values(|a: GithubAsset| a@);
            &&& Some(info.version@) == semver_parse(tag_version_text(release.tag_name@))
            &&& opt_chars(info.firmware_download_url) == asset_url(assets, FIRMWARE_ASSET_NAME@)
            &&& opt_chars(info.bridge_download_url) == asset_url(assets, BRIDGE_ASSET_NAME@)
            &&& info.html_url@ == release.html_url@
        },
{
    let version = match parse_tag_to_semver(release.tag_name.as_str()) {
        Ok(v) => v,
        Err(e) => return Err(e),
    };
    let ghost assets = release.assets@.map_values(|a: GithubAsset| a@);
    let mut firmware_download_url: Option<String> = None;
    let mut bridge_download_url: Option<String> = None;
    let n = release.assets.len();
    for i in 0..n
        invariant
            n == release.assets@.len(),
            assets == release.assets@.map_values(|a: GithubAsset| a@),
            opt_chars(firmware_download_url) == asset_url(assets.take(i as int), FIRMWARE_ASSET_NAME@),
            opt_chars(bridge_download_url) == asset_url(assets.take(i as int), BRIDGE_ASSET_NAME@),
    {
        let asset = &release.assets[i];
        let is_firmware = same_text(asset.name.as_str(), FIRMWARE_ASSET_NAME);
        let is_bridge = same_text(asset.name.as_str(), BRIDGE_ASSET_NAME);
        assert(assets.take(i + 1).drop_last() =~= assets.take(i as int));
        assert(assets.take(i + 1).last() == assets[i as int]);
        if is_firmware {
            firmware_download_url = Some(asset.browser_download_url.clone());
        }
        if is_bridge {
            bridge_download_url = Some(asset.browser_download_url.clone());
        }
    }
    assert(assets.take(n as int) =~= assets);
    Ok(ReleaseInfo { version, firmware_download_url, bridge_download_url, html_url: release.html_url })
}

/// Compares the latest release with the running bridge and, when the
/// indicator reported one, with its firmware.
pub fn check_updates(bridge_current: &SemVer, firmware_current: Option<&SemVer>, latest: &ReleaseInfo) -> (r: UpdateCheckResult)
    ensures
        r.latest@ == latest@,
        r.bridge_update_available == semver_newer(latest@.version, bridge_current@),
        r.firmware_update_available == (match firmware_current {
            Some(fw) => semver_newer(latest@.version, fw@),
            None => false,
        }),
{
    let bridge_update_available = latest.version.is_newer_than(bridge_current);
    let firmware_update_available = match firmware_current {
        Some(fw) => latest.version.is_newer_than(fw),
        None => false,
    };
    UpdateCheckResult { latest: latest.clone(), bridge_update_available, firmware_update_available }
}

/// Name of the temporary file that a downloaded firmware image is stored in.
pub fn firmware_file_name(tag: u32) -> (name: String)
    ensures
        name@ == "teams_presence_fw_"@ + decimal(tag as nat) + ".bin"@,
{
    let mut v = chars_of("teams_presence_fw_");
    push_decimal(&mut v, tag as u64);
    append_chars(&mut v, ".bin");
    string_from_chars(v.as_slice())
}

/// A number that differs between downloads: the low 32 bits of the
/// microseconds since the Unix epoch, or 12345 when the clock is before it.
pub fn uuid_like_random(micros_since_epoch: Option<u128>) -> (n: u32)
    ensures
        n == (match micros_since_epoch {
            Some(m) => (m % 0x1_0000_0000) as u32,
            None => 12345u32,
        }),
{
    match micros_since_epoch {
        Some(m) => (m % 0x1_0000_0000) as u32,
        None => 12345,
    }
}


/// The link chosen for an asset name belongs to an asset of exactly that
/// name, and to the last one: assets of other names never set it, and there
/// is a link whenever some asset has that name.
pub proof fn law_asset_url_exact_name(assets: Seq<(Seq<char>, Seq<char>)>, name: Seq<char>)
    ensures
        asset_url(assets, name) matches Some(u) ==> exists|i: int|
            0 <= i < assets.len() && assets[i] == (name, u) && forall|j: int| i < j < assets.len() ==> assets[j].0 != name,
        asset_url(assets, name) is None <==> forall|i: int| 0 <= i < assets.len() ==> assets[i].0 != name,
    decreases assets.len(),
{
    if assets.len() > 0 {
        let rest = assets.drop_last();
        law_asset_url_exact_name(rest, name);
        let k = assets.len() - 1;
        if assets.last().0 == name {
            assert(assets[k] == (name, assets.last().1));
        } else {
            if asset_url(rest, name) is Some {
                let u = asset_url(rest, name).unwrap();
                let i = choose|i: int|
                    0 <= i < rest.len() && rest[i] == (name, u) && forall|j: int| i < j < rest.len() ==> rest[j].0 != name;
                assert(assets[i] == (name, u));
                assert forall|j: int| i < j < assets.len() implies assets[j].0 != name by {
                    if j < k {
                        assert(assets[j] == rest[j]);
                    }
                }
            } else {
                assert forall|i: int| 0 <= i < assets.len() implies assets[i].0 != name by {
                    if i < k {
                        assert(assets[i] == rest[i]);
                    }
                }
            }
            if forall|i: int| 0 <= i < assets.len() ==> assets[i].0 != name {
                assert forall|i: int| 0 <= i < rest.len() implies rest[i].0 != name by {
                    assert(rest[i] == assets[i]);
                }
            }
        }
    }
}

} // verus!
