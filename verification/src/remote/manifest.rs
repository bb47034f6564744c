//! Release manifests: which published binary fits a remote host.

use vstd::prelude::*;
use crate::remote::client_build::BuildInfo;
use crate::remote::client_build::BuildView;
use crate::text;

verus! {

broadcast use vstd::string::group_string_axioms;

/// Where the manifest of stable releases is published.
pub open spec fn stable_url() -> Seq<char> {
    "https://herdr.dev/latest.json"@
}

/// Where the manifest of preview builds is published.
pub open spec fn preview_url() -> Seq<char> {
    "https://herdr.dev/preview.json"@
}

/// A published binary, with or without a checksum.
#[derive(Clone, Debug)]
pub enum RemoteAssetRef {
    Url(String),
    Object { url: String, sha256: Option<String> },
}

/// What is known of a published binary.
#[verifier::ext_equal]
pub struct AssetView {
    pub url: Seq<char>,
    pub sha256: Option<Seq<char>>,
}

/// A checksum, unless it is blank.
pub open spec fn checksum(sha256: Option<Seq<char>>) -> Option<Seq<char>> {
    match sha256 {
        Some(s) => if text::trimmed(s).len() > 0 {
            Some(s)
        } else {
            None
        },
        None => None,
    }
}

impl View for RemoteAssetRef {
    type V = AssetView;

    open spec fn view(&self) -> AssetView {
        match self {
            RemoteAssetRef::Url(url) => AssetView { url: url@, sha256: None },
            RemoteAssetRef::Object { url, sha256 } => AssetView {
                url: url@,
                sha256: checksum(text::opt_view(*sha256)),
            },
        }
    }
}

impl RemoteAssetRef {
    /// Where the binary is published.
    pub fn url(&self) -> (r: &str)
        ensures
            r@ == self@.url,
    {
        match self {
            RemoteAssetRef::Url(url) => url.as_str(),
            RemoteAssetRef::Object { url, .. } => url.as_str(),
        }
    }

    /// The checksum of the binary, where the manifest gives one that is not
    /// blank.
    pub fn sha256(&self) -> (r: Option<&str>)
        ensures
            (match r {
                Some(s) => Some(s@),
                None => None,
            }) == self@.sha256,
    {
        match self {
            RemoteAssetRef::Url(_) => None,
            RemoteAssetRef::Object { sha256, .. } => match sha256 {
                Some(s) => {
                    let t = text::trim(s.as_str());
                    if t.as_str().is_empty() {
                        assert(t@.len() == 0);
                        None
                    } else {
                        assert(t@.len() > 0);
                        Some(s.as_str())
                    }
                },
                None => None,
            },
        }
    }
}

/// The published binaries of one release, each under the key of its platform.
pub type AssetList = Vec<(String, RemoteAssetRef)>;

/// What a list of published binaries holds.
pub open spec fn assets_view(assets: Seq<(String, RemoteAssetRef)>) -> Seq<(Seq<char>, AssetView)> {
    Seq::new(assets.len(), |i: int| (assets[i].0@, assets[i].1@))
}

/// The first entry of the given key.
pub open spec fn entry_of<T>(list: Seq<(Seq<char>, T)>, key: Seq<char>) -> Option<T>
    decreases list.len(),
{
    if list.len() == 0 {
        None
    } else if list[0].0 == key {
        Some(list[0].1)
    } else {
        entry_of(list.skip(1), key)
    }
}

/// The published binary of the given key.
pub fn asset_for<'a>(assets: &'a AssetList, key: &str) -> (r: Option<&'a RemoteAssetRef>)
    ensures
        (match r {
            Some(a) => Some(a@),
            None => None,
        }) == entry_of(assets_view(assets@), key@),
{
    let ghost all = assets_view(assets@);
    let mut i: usize = 0;
    assert(all.skip(0) =~= all);
    while i < assets.len()
        invariant
            i <= assets@.len(),
            all == assets_view(assets@),
            entry_of(all, key@) == entry_of(all.skip(i as int), key@),
        decreases assets@.len() - i,
    {
        assert(all.skip(i as int)[0] == all[i as int]);
        if text::same_text(assets[i].0.as_str(), key) {
            return Some(&assets[i].1);
        }
        assert(all.skip(i as int).skip(1) =~= all.skip(i + 1));
        i = i + 1;
    }
    None
}

/// A release that the manifest keeps from the past.
#[derive(Debug)]
pub struct RemoteReleaseMetadata {
    pub protocol: Option<u32>,
    pub assets: AssetList,
}

/// A release: its protocol, where it says so, and its binaries.
#[verifier::ext_equal]
pub struct ReleaseView {
    pub protocol: Option<u32>,
    pub assets: Seq<(Seq<char>, AssetView)>,
}

impl View for RemoteReleaseMetadata {
    type V = ReleaseView;

    open spec fn view(&self) -> ReleaseView {
        ReleaseView { protocol: self.protocol, assets: assets_view(self.assets@) }
    }
}

/// The manifest of stable releases: the latest one, and earlier ones by version.
#[derive(Debug)]
pub struct RemoteUpdateManifest {
    pub version: String,
    pub protocol: Option<u32>,
    pub assets: AssetList,
    pub releases: Vec<(String, RemoteReleaseMetadata)>,
}

/// What the manifest of stable releases holds.
pub struct UpdateView {
    pub version: Seq<char>,
    pub latest: ReleaseView,
    pub releases: Seq<(Seq<char>, ReleaseView)>,
}

impl View for RemoteUpdateManifest {
    type V = UpdateView;

    open spec fn view(&self) -> UpdateView {
        UpdateView {
            version: self.version@,
            latest: ReleaseView { protocol: self.protocol, assets: assets_view(self.assets@) },
            releases: Seq::new(
                self.releases@.len(),
                |i: int| (self.releases@[i].0@, self.releases@[i].1@),
            ),
        }
    }
}

impl UpdateView {
    /// The release of a version: the latest one, whose version may be written
    /// with a `v` in front, else an earlier one that still has binaries.
    pub open spec fn release(self, version: Seq<char>) -> Option<ReleaseView> {
        if text::skip_front(self.version, 'v') == version {
            Some(self.latest)
        } else {
            match entry_of(self.releases, version) {
                Some(r) => if r.assets.len() > 0 {
                    Some(r)
                } else {
                    None
                },
                None => None,
            }
        }
    }
}

/// A release in a manifest.
#[derive(Clone, Copy, Debug)]
pub struct RemoteManifestReleaseRef<'a> {
    pub protocol: Option<u32>,
    pub assets: &'a AssetList,
}

impl<'a> View for RemoteManifestReleaseRef<'a> {
    type V = ReleaseView;

    open spec fn view(&self) -> ReleaseView {
        ReleaseView { protocol: self.protocol, assets: assets_view(self.assets@) }
    }
}

impl RemoteUpdateManifest {
    /// The release of a version.
    pub fn release_for_version(&self, version: &str) -> (r: Option<RemoteManifestReleaseRef<'_>>)
        ensures
            text::opt_view(r) == self@.release(version@),
    {
        let latest = text::trim_start_of(self.version.as_str(), 'v');
        if text::same_text(latest.as_str(), version) {
            return Some(
                RemoteManifestReleaseRef { protocol: self.protocol, assets: &self.assets },
            );
        }
        let ghost all = self@.releases;
        let mut i: usize = 0;
        assert(all.skip(0) =~= all);
        while i < self.releases.len()
            invariant
                i <= self.releases@.len(),
                all == self@.releases,
                text::skip_front(self@.version, 'v') != version@,
                entry_of(all, version@) == entry_of(all.skip(i as int), version@),
            decreases self.releases@.len() - i,
        {
            assert(all.skip(i as int)[0] == all[i as int]);
            if text::same_text(self.releases[i].0.as_str(), version) {
                let release = &self.releases[i].1;
                if release.assets.len() == 0 {
                    return None;
                }
                return Some(
                    RemoteManifestReleaseRef {
                        protocol: release.protocol,
                        assets: &release.assets,
                    },
                );
            }
            assert(all.skip(i as int).skip(1) =~= all.skip(i + 1));
            i = i + 1;
        }
        None
    }
}

/// A preview build that the manifest keeps from the past.
#[derive(Debug)]
pub struct RemotePreviewBuildMetadata {
    pub protocol: u32,
    pub assets: AssetList,
}

/// The manifest of preview builds: the latest one, and earlier ones by build id.
#[derive(Debug)]
pub struct RemotePreviewManifest {
    pub build_id: String,
    pub protocol: u32,
    pub assets: AssetList,
    pub builds: Vec<(String, RemotePreviewBuildMetadata)>,
}

/// A preview build: its protocol and its binaries.
#[verifier::ext_equal]
pub struct PreviewBuildView {
    pub protocol: u32,
    pub assets: Seq<(Seq<char>, AssetView)>,
}

/// What the manifest of preview builds holds.
pub struct PreviewView {
    pub build_id: Seq<char>,
    pub latest: PreviewBuildView,
    pub builds: Seq<(Seq<char>, PreviewBuildView)>,
}

impl View for RemotePreviewManifest {
    type V = PreviewView;

    open spec fn view(&self) -> PreviewView {
        PreviewView {
            build_id: self.build_id@,
            latest: PreviewBuildView { protocol: self.protocol, assets: assets_view(self.assets@) },
            builds: Seq::new(
                self.builds@.len(),
                |i: int|
                    (
                        self.builds@[i].0@,
                        PreviewBuildView {
                            protocol: self.builds@[i].1.protocol,
                            assets: assets_view(self.builds@[i].1.assets@),
                        },
                    ),
            ),
        }
    }
}

impl PreviewView {
    /// The preview build of the given id.
    pub open spec fn build(self, build_id: Seq<char>) -> Option<PreviewBuildView> {
        if self.build_id == build_id {
            Some(self.latest)
        } else {
            entry_of(self.builds, build_id)
        }
    }
}

/// Why a preview build has no entry any more.
pub open spec fn build_is_gone(build_id: Seq<char>) -> Seq<char> {
    "preview manifest no longer includes build "@ + build_id
        + "; run `herdr update` locally or set HERDR_REMOTE_BINARY=target/release/herdr"@
}

/// The protocol and binaries of a preview build.
pub fn preview_assets_for_build<'a>(
    manifest: &'a RemotePreviewManifest,
    build_id: &str,
) -> (r: Result<(u32, &'a AssetList), String>)
    ensures
        match (r, manifest@.build(build_id@)) {
            (Ok((protocol, assets)), Some(b)) => protocol == b.protocol && assets_view(assets@)
                == b.assets,
            (Err(e), None) => e@ == build_is_gone(build_id@),
            _ => false,
        },
{
    if text::same_text(manifest.build_id.as_str(), build_id) {
        return Ok((manifest.protocol, &manifest.assets));
    }
    let ghost all = manifest@.builds;
    let mut i: usize = 0;
    assert(all.skip(0) =~= all);
    while i < manifest.builds.len()
        invariant
            i <= manifest.builds@.len(),
            all == manifest@.builds,
            manifest@.build_id != build_id@,
            entry_of(all, build_id@) == entry_of(all.skip(i as int), build_id@),
        decreases manifest.builds@.len() - i,
    {
        assert(all.skip(i as int)[0] == all[i as int]);
        if text::same_text(manifest.builds[i].0.as_str(), build_id) {
            let build = &manifest.builds[i].1;
            return Ok((build.protocol, &build.assets));
        }
        assert(all.skip(i as int).skip(1) =~= all.skip(i + 1));
        i = i + 1;
    }
    Err(
        text::join3(
            "preview manifest no longer includes build ",
            build_id,
            "; run `herdr update` locally or set HERDR_REMOTE_BINARY=target/release/herdr",
        ),
    )
}

/// A binary to download.
#[derive(Debug)]
pub struct RemoteReleaseAsset {
    pub url: String,
    pub sha256: Option<String>,
}

impl View for RemoteReleaseAsset {
    type V = AssetView;

    open spec fn view(&self) -> AssetView {
        AssetView { url: self.url@, sha256: text::opt_view(self.sha256) }
    }
}

/// What is needed to download a published binary.
pub fn remote_asset_info(asset: &RemoteAssetRef) -> (r: RemoteReleaseAsset)
    ensures
        r@ == asset@,
{
    RemoteReleaseAsset {
        url: asset.url().to_string(),
        sha256: match asset.sha256() {
            Some(s) => Some(s.to_string()),
            None => None,
        },
    }
}

/// Which manifest a client looks its own build up in.
#[derive(Debug, PartialEq, Eq)]
pub enum ManifestRequest {
    Stable { url: String },
    Preview { url: String, build_id: String },
}

/// Why a preview client without a build id cannot look itself up.
pub open spec fn no_build_id() -> Seq<char> {
    "preview client has no build id; set HERDR_REMOTE_BINARY or install Herdr on the remote manually"@
}

/// Which manifest a client looks its own build up in.
pub fn manifest_request(build: &BuildInfo) -> (r: Result<ManifestRequest, String>)
    ensures
        match (build@.is_preview, build@.build_id) {
            (false, _) => r matches Ok(ManifestRequest::Stable { url }) && url@ == stable_url(),
            (true, Some(id)) => r matches Ok(ManifestRequest::Preview { url, build_id }) && url@
                == preview_url() && build_id@ == id,
            (true, None) => r matches Err(e) && e@ == no_build_id(),
        },
{
    if !build.is_preview {
        return Ok(ManifestRequest::Stable { url: "https://herdr.dev/latest.json".to_string() });
    }
    match &build.build_id {
        Some(id) => Ok(
            ManifestRequest::Preview {
                url: "https://herdr.dev/preview.json".to_string(),
                build_id: id.clone(),
            },
        ),
        None => Err(
            "preview client has no build id; set HERDR_REMOTE_BINARY or install Herdr on the remote manually".to_string(),
        ),
    }
}

/// The binary of a preview build for a platform, if the client can use it.
pub open spec fn preview_choice(
    manifest: PreviewView,
    build_id: Seq<char>,
    build: BuildView,
    key: Seq<char>,
) -> Result<AssetView, Seq<char>> {
    match manifest.build(build_id) {
        None => Err(build_is_gone(build_id)),
        Some(b) => if b.protocol != build.protocol {
            Err(
                "preview manifest has build "@ + build_id + " protocol "@ + text::decimal(
                    b.protocol as nat,
                ) + ", but this client needs protocol "@ + text::decimal(build.protocol as nat)
                    + "; set HERDR_REMOTE_BINARY=target/release/herdr or install a matching Herdr on the remote host manually"@,
            )
        } else {
            match entry_of(b.assets, key) {
                Some(a) => Ok(a),
                None => Err(
                    "no "@ + key + " binary in the preview manifest for build "@ + build_id,
                ),
            }
        },
    }
}

/// The binary of a preview build to install on a host.
pub fn preview_release_asset(
    manifest: &RemotePreviewManifest,
    build_id: &str,
    build: &BuildInfo,
    asset_key: &str,
) -> (r: Result<RemoteReleaseAsset, String>)
    ensures
        match (r, preview_choice(manifest@, build_id@, build@, asset_key@)) {
            (Ok(a), Ok(chosen)) => a@ == chosen,
            (Err(e), Err(why)) => e@ == why,
            _ => false,
        },
{
    match preview_assets_for_build(manifest, build_id) {
        Err(e) => Err(e),
        Ok((protocol, assets)) => {
            if protocol != build.protocol {
                let mut e = "preview manifest has build ".to_string();
                e.append(build_id);
                e.append(" protocol ");
                e.append(text::decimal_text(protocol as u64).as_str());
                e.append(", but this client needs protocol ");
                e.append(text::decimal_text(build.protocol as u64).as_str());
                e.append(
                    "; set HERDR_REMOTE_BINARY=target/release/herdr or install a matching Herdr on the remote host manually",
                );
                return Err(e);
            }
            match asset_for(assets, asset_key) {
                Some(a) => Ok(remote_asset_info(a)),
                None => {
                    let mut e = "no ".to_string();
                    e.append(asset_key);
                    e.append(" binary in the preview manifest for build ");
                    e.append(build_id);
                    Err(e)
                },
            }
        },
    }
}

/// The binary of the client's own release for a platform, if the client can use
/// it.
pub open spec fn stable_choice(manifest: UpdateView, build: BuildView, key: Seq<char>) -> Result<
    AssetView,
    Seq<char>,
> {
    match manifest.release(build.version) {
        None => Err(
            "release manifest does not include herdr "@ + build.version + "; build herdr for "@
                + key + " or install it there manually"@,
        ),
        Some(r) => if r.protocol is Some && r.protocol != Some(build.protocol) {
            Err(
                "release manifest has herdr "@ + build.version + " protocol "@ + text::decimal(
                    r.protocol->0 as nat,
                ) + ", but this client needs protocol "@ + text::decimal(build.protocol as nat)
                    + "; set HERDR_REMOTE_BINARY=target/release/herdr or install a matching herdr on the remote host manually"@,
            )
        } else {
            match entry_of(r.assets, key) {
                Some(a) => Ok(a),
                None => Err(
                    "no "@ + key + " binary in the release manifest for herdr "@ + build.version,
                ),
            }
        },
    }
}

/// The binary of the client's own release to install on a host.
pub fn stable_release_asset(
    manifest: &RemoteUpdateManifest,
    build: &BuildInfo,
    asset_key: &str,
) -> (r: Result<RemoteReleaseAsset, String>)
    ensures
        match (r, stable_choice(manifest@, build@, asset_key@)) {
            (Ok(a), Ok(chosen)) => a@ == chosen,
            (Err(e), Err(why)) => e@ == why,
            _ => false,
        },
{
    match manifest.release_for_version(build.version.as_str()) {
        None => {
            let mut e = "release manifest does not include herdr ".to_string();
            e.append(build.version.as_str());
            e.append("; build herdr for ");
            e.append(asset_key);
            e.append(" or install it there manually");
            Err(e)
        },
        Some(release) => {
            if let Some(protocol) = release.protocol {
                if protocol != build.protocol {
                    let mut e = "release manifest has herdr ".to_string();
                    e.append(build.version.as_str());
                    e.append(" protocol ");
                    e.append(text::decimal_text(protocol as u64).as_str());
                    e.append(", but this client needs protocol ");
                    e.append(text::decimal_text(build.protocol as u64).as_str());
                    e.append(
                        "; set HERDR_REMOTE_BINARY=target/release/herdr or install a matching herdr on the remote host manually",
                    );
                    return Err(e);
                }
            }
            match asset_for(release.assets, asset_key) {
                Some(a) => Ok(remote_asset_info(a)),
                None => {
                    let mut e = "no ".to_string();
                    e.append(asset_key);
                    e.append(" binary in the release manifest for herdr ");
                    e.append(build.version.as_str());
                    Err(e)
                },
            }
        },
    }
}

/// The latest release never lends its protocol to an earlier one: a chosen
/// binary comes from a release of the client's version, whose protocol is the
/// client's wherever the manifest states it for that release.
pub proof fn law_a_stable_choice_fits_the_client(
    manifest: UpdateView,
    build: BuildView,
    key: Seq<char>,
)
    requires
        stable_choice(manifest, build, key) is Ok,
    ensures
        manifest.release(build.version) matches Some(r) && (r.protocol is None || r.protocol
            == Some(build.protocol)) && entry_of(r.assets, key) == Some(
            stable_choice(manifest, build, key)->Ok_0,
        ),
{
}

/// A chosen preview binary belongs to exactly the client's build and speaks its
/// protocol.
pub proof fn law_a_preview_choice_fits_the_client(
    manifest: PreviewView,
    build_id: Seq<char>,
    build: BuildView,
    key: Seq<char>,
)
    requires
        preview_choice(manifest, build_id, build, key) is Ok,
    ensures
        manifest.build(build_id) matches Some(b) && b.protocol == build.protocol && entry_of(
            b.assets,
            key,
        ) == Some(preview_choice(manifest, build_id, build, key)->Ok_0),
{
}

} // verus!
