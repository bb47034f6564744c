//! Which published binary is chosen, told by the entries of the manifest alone.

use vstd::prelude::*;
use crate::remote::client_build::BuildInfo;
use crate::remote::client_build::BuildView;
use crate::remote::manifest;
use crate::remote::manifest::AssetView;
use crate::remote::manifest::ManifestRequest;
use crate::remote::manifest::PreviewView;
use crate::remote::manifest::RemoteAssetRef;
use crate::remote::manifest::UpdateView;
use crate::text;

verus! {

/// Whether the entry at `i` is the first one of its key.
pub open spec fn leads<T>(list: Seq<(Seq<char>, T)>, i: int, key: Seq<char>) -> bool {
    &&& 0 <= i < list.len()
    &&& list[i].0 == key
    &&& forall|j: int| 0 <= j < i ==> (#[trigger] list[j]).0 != key
}

/// Whether the list has an entry of the key.
pub open spec fn lists<T>(list: Seq<(Seq<char>, T)>, key: Seq<char>) -> bool {
    exists|i: int| 0 <= i < list.len() && (#[trigger] list[i]).0 == key
}

/// A lookup gives the first entry of the key.
pub proof fn law_the_first_entry_is_found<T>(list: Seq<(Seq<char>, T)>, i: int, key: Seq<char>)
    requires
        leads(list, i, key),
    ensures
        manifest::entry_of(list, key) == Some(list[i].1),
    decreases list.len(),
{
    if i > 0 {
        assert(list[0].0 != key);
        let rest = list.skip(1);
        assert forall|j: int| 0 <= j < i - 1 implies (#[trigger] rest[j]).0 != key by {
            assert(rest[j] == list[j + 1]);
        }
        law_the_first_entry_is_found(rest, i - 1, key);
    }
}

/// A lookup finds something exactly where there is an entry of the key, and what it
/// finds is that of one.
pub proof fn law_lookups_find_what_is_listed<T>(list: Seq<(Seq<char>, T)>, key: Seq<char>)
    ensures
        manifest::entry_of(list, key) is Some <==> lists(list, key),
        manifest::entry_of(list, key) matches Some(found) ==> exists|i: int|
            leads(list, i, key) && (#[trigger] list[i]).1 == found,
    decreases list.len(),
{
    if list.len() > 0 {
        if list[0].0 == key {
            assert(leads(list, 0, key));
        } else {
            let rest = list.skip(1);
            law_lookups_find_what_is_listed(rest, key);
            if manifest::entry_of(list, key) is Some {
                let i = choose|i: int|
                    leads(rest, i, key) && (#[trigger] rest[i]).1 == manifest::entry_of(
                        rest,
                        key,
                    )->0;
                assert(list[i + 1] == rest[i]);
                assert forall|j: int| 0 <= j < i + 1 implies (#[trigger] list[j]).0 != key by {
                    if j > 0 {
                        assert(rest[j - 1] == list[j]);
                    }
                }
                assert(leads(list, i + 1, key));
            }
            if lists(list, key) {
                let i = choose|i: int| 0 <= i < list.len() && (#[trigger] list[i]).0 == key;
                assert(rest[i - 1] == list[i]);
            }
        }
    }
}

/// Whether a manifest names the version as its latest one: as it is, or with a `v`
/// in front.
pub open spec fn is_latest(manifest: UpdateView, version: Seq<char>) -> bool {
    manifest.version == version || manifest.version == seq!['v'] + version
}

proof fn lemma_v_in_front(version: Seq<char>)
    requires
        version.len() > 0,
        version[0] != 'v',
    ensures
        text::skip_front(version, 'v') == version,
        text::skip_front(seq!['v'] + version, 'v') == version,
{
    let v = seq!['v'] + version;
    assert(v.skip(1) =~= version);
    assert(text::skip_front(v, 'v') == text::skip_front(version, 'v'));
}

/// The converse of the choice: where the latest release is the client's, its
/// protocol is the client's or not stated, and it lists a binary under the key,
/// that binary is chosen.
pub proof fn law_a_fitting_latest_release_is_chosen(
    manifest: UpdateView,
    build: BuildView,
    key: Seq<char>,
    i: int,
)
    requires
        build.version.len() > 0,
        build.version[0] != 'v',
        is_latest(manifest, build.version),
        manifest.latest.protocol is None || manifest.latest.protocol == Some(build.protocol),
        leads(manifest.latest.assets, i, key),
    ensures
        manifest::stable_choice(manifest, build, key) == Ok::<AssetView, Seq<char>>(
            manifest.latest.assets[i].1,
        ),
{
    lemma_v_in_front(build.version);
    law_the_first_entry_is_found(manifest.latest.assets, i, key);
}

/// The same for an earlier release that the manifest keeps.
pub proof fn law_a_fitting_earlier_release_is_chosen(
    manifest: UpdateView,
    build: BuildView,
    key: Seq<char>,
    k: int,
    i: int,
)
    requires
        manifest.version.len() > 0,
        manifest.version[0] != 'v',
        manifest.version != build.version,
        leads(manifest.releases, k, build.version),
        manifest.releases[k].1.protocol is None || manifest.releases[k].1.protocol == Some(
            build.protocol,
        ),
        leads(manifest.releases[k].1.assets, i, key),
    ensures
        manifest::stable_choice(manifest, build, key) == Ok::<AssetView, Seq<char>>(
            manifest.releases[k].1.assets[i].1,
        ),
{
    lemma_v_in_front(manifest.version);
    law_the_first_entry_is_found(manifest.releases, k, build.version);
    law_the_first_entry_is_found(manifest.releases[k].1.assets, i, key);
}

/// A choice fails only where one of three things is missing: a release of the
/// client's version that has binaries, the client's protocol in it where it states
/// one, or a binary under the key. The message tells which.
pub proof fn law_a_failed_stable_choice_misses_something(
    manifest: UpdateView,
    build: BuildView,
    key: Seq<char>,
)
    requires
        build.version.len() > 0,
        build.version[0] != 'v',
        manifest::stable_choice(manifest, build, key) is Err,
    ensures
        ({
            let why = manifest::stable_choice(manifest, build, key)->Err_0;
            ||| {
                &&& !is_latest(manifest, build.version)
                &&& forall|k: int|
                    leads(manifest.releases, k, build.version) ==> (
                    #[trigger] manifest.releases[k]).1.assets.len() == 0
                &&& text::has_prefix(
                    why,
                    "release manifest does not include herdr "@ + build.version,
                )
            }
            ||| exists|protocol: u32|
                {
                    &&& protocol != build.protocol
                    &&& manifest.latest.protocol == Some(protocol) || exists|k: int|
                        leads(manifest.releases, k, build.version) && (
                        #[trigger] manifest.releases[k]).1.protocol == Some(protocol)
                    &&& text::has_prefix(
                        why,
                        "release manifest has herdr "@ + build.version + " protocol "@
                            + #[trigger] text::decimal(protocol as nat)
                            + ", but this client needs protocol "@ + text::decimal(
                            build.protocol as nat,
                        ),
                    )
                }
            ||| {
                &&& !lists(manifest.latest.assets, key) || exists|k: int|
                    leads(manifest.releases, k, build.version) && !lists(
                        (#[trigger] manifest.releases[k]).1.assets,
                        key,
                    )
                &&& why == "no "@ + key + " binary in the release manifest for herdr "@
                    + build.version
            }
        }),
{
    let why = manifest::stable_choice(manifest, build, key)->Err_0;
    lemma_v_in_front(build.version);
    law_lookups_find_what_is_listed(manifest.releases, build.version);
    law_lookups_find_what_is_listed(manifest.latest.assets, key);
    if manifest::entry_of(manifest.releases, build.version) is Some {
        law_lookups_find_what_is_listed(
            manifest::entry_of(manifest.releases, build.version)->0.assets,
            key,
        );
    }
    match manifest.release(build.version) {
        None => {
            let head = "release manifest does not include herdr "@ + build.version;
            let tail = "; build herdr for "@ + key + " or install it there manually"@;
            assert(why =~= head + tail);
            assert((head + tail).take(head.len() as int) =~= head);
            assert forall|k: int| leads(manifest.releases, k, build.version) implies (
            #[trigger] manifest.releases[k]).1.assets.len() == 0 by {
                law_the_first_entry_is_found(manifest.releases, k, build.version);
            }
        },
        Some(r) => {
            if r.protocol is Some && r.protocol != Some(build.protocol) {
                let protocol = r.protocol->0;
                let head = "release manifest has herdr "@ + build.version + " protocol "@
                    + text::decimal(protocol as nat) + ", but this client needs protocol "@
                    + text::decimal(build.protocol as nat);
                let tail =
                    "; set HERDR_REMOTE_BINARY=target/release/herdr or install a matching herdr on the remote host manually"@;
                assert(why =~= head + tail);
                assert((head + tail).take(head.len() as int) =~= head);
            }
        },
    }
}

/// A build that the manifest lists, of the client's protocol and with a binary
/// under the key, gives that binary; the latest build is looked at first.
pub proof fn law_a_fitting_preview_is_chosen(
    manifest: PreviewView,
    build_id: Seq<char>,
    build: BuildView,
    key: Seq<char>,
    i: int,
)
    ensures
        manifest.build_id == build_id && manifest.latest.protocol == build.protocol && leads(
            manifest.latest.assets,
            i,
            key,
        ) ==> manifest::preview_choice(manifest, build_id, build, key) == Ok::<
            AssetView,
            Seq<char>,
        >(manifest.latest.assets[i].1),
        forall|k: int|
            manifest.build_id != build_id && leads(manifest.builds, k, build_id) && (
            #[trigger] manifest.builds[k]).1.protocol == build.protocol && leads(
                manifest.builds[k].1.assets,
                i,
                key,
            ) ==> manifest::preview_choice(manifest, build_id, build, key) == Ok::<
                AssetView,
                Seq<char>,
            >(manifest.builds[k].1.assets[i].1),
{
    if leads(manifest.latest.assets, i, key) {
        law_the_first_entry_is_found(manifest.latest.assets, i, key);
    }
    assert forall|k: int|
        manifest.build_id != build_id && leads(manifest.builds, k, build_id) && (
        #[trigger] manifest.builds[k]).1.protocol == build.protocol && leads(
            manifest.builds[k].1.assets,
            i,
            key,
        ) implies manifest::preview_choice(manifest, build_id, build, key) == Ok::<
        AssetView,
        Seq<char>,
    >(manifest.builds[k].1.assets[i].1) by {
        law_the_first_entry_is_found(manifest.builds, k, build_id);
        law_the_first_entry_is_found(manifest.builds[k].1.assets, i, key);
    }
}

/// A preview build that is not listed, speaks another protocol or has no binary
/// under the key gives none.
pub proof fn law_an_unfit_preview_is_refused(
    manifest: PreviewView,
    build_id: Seq<char>,
    build: BuildView,
    key: Seq<char>,
)
    ensures
        ({
            let chosen = manifest::preview_choice(manifest, build_id, build, key);
            &&& manifest.build_id != build_id && !lists(manifest.builds, build_id) ==> chosen is Err
                && text::has_prefix(
                chosen->Err_0,
                "preview manifest no longer includes build "@ + build_id,
            )
            &&& manifest.build_id == build_id && manifest.latest.protocol != build.protocol
                ==> chosen is Err && text::has_prefix(
                chosen->Err_0,
                "preview manifest has build "@ + build_id + " protocol "@ + text::decimal(
                    manifest.latest.protocol as nat,
                ) + ", but this client needs protocol "@ + text::decimal(build.protocol as nat),
            )
            &&& manifest.build_id == build_id && !lists(manifest.latest.assets, key)
                ==> chosen is Err
            &&& manifest.build_id == build_id && manifest.latest.protocol == build.protocol
                && !lists(manifest.latest.assets, key) ==> chosen->Err_0 == "no "@ + key
                + " binary in the preview manifest for build "@ + build_id
            &&& forall|k: int|
                manifest.build_id != build_id && leads(manifest.builds, k, build_id) && ((
                #[trigger] manifest.builds[k]).1.protocol != build.protocol || !lists(
                    manifest.builds[k].1.assets,
                    key,
                )) ==> chosen is Err
        }),
{
    law_lookups_find_what_is_listed(manifest.builds, build_id);
    law_lookups_find_what_is_listed(manifest.latest.assets, key);
    let head = "preview manifest no longer includes build "@ + build_id;
    let tail =
        "; run `herdr update` locally or set HERDR_REMOTE_BINARY=target/release/herdr"@;
    assert((head + tail).take(head.len() as int) =~= head);
    let front = "preview manifest has build "@ + build_id + " protocol "@ + text::decimal(
        manifest.latest.protocol as nat,
    ) + ", but this client needs protocol "@ + text::decimal(build.protocol as nat);
    let back =
        "; set HERDR_REMOTE_BINARY=target/release/herdr or install a matching Herdr on the remote host manually"@;
    assert((front + back).take(front.len() as int) =~= front);
    assert forall|k: int|
        manifest.build_id != build_id && leads(manifest.builds, k, build_id) && ((
        #[trigger] manifest.builds[k]).1.protocol != build.protocol || !lists(
            manifest.builds[k].1.assets,
            key,
        )) implies manifest::preview_choice(manifest, build_id, build, key) is Err by {
        law_the_first_entry_is_found(manifest.builds, k, build_id);
        law_lookups_find_what_is_listed(manifest.builds[k].1.assets, key);
    }
}

/// A binary is downloaded from where the manifest says, and checked against the
/// checksum that it gives, unless that is blank: then against none.
pub proof fn law_checksums_are_kept(url: String, sha256: String)
    ensures
        ({
            let plain = RemoteAssetRef::Url(url)@;
            let unchecked = RemoteAssetRef::Object { url, sha256: None }@;
            let checked = RemoteAssetRef::Object { url, sha256: Some(sha256) }@;
            &&& plain.url == url@ && plain.sha256 is None
            &&& unchecked.url == url@ && unchecked.sha256 is None
            &&& checked.url == url@
            &&& (exists|i: int|
                0 <= i < sha256@.len() && !text::is_white_space(#[trigger] sha256@[i]))
                ==> checked.sha256 == Some(sha256@)
            &&& (forall|i: int|
                0 <= i < sha256@.len() ==> text::is_white_space(#[trigger] sha256@[i]))
                ==> checked.sha256 is None
        }),
{
    lemma_blank(sha256@);
    if exists|i: int| 0 <= i < sha256@.len() && !text::is_white_space(#[trigger] sha256@[i]) {
        let i = choose|i: int|
            0 <= i < sha256@.len() && !text::is_white_space(#[trigger] sha256@[i]);
        lemma_not_blank(sha256@, i);
    }
}

/// A text of white space alone has nothing left when it is trimmed.
pub proof fn lemma_blank(s: Seq<char>)
    ensures
        (forall|i: int| 0 <= i < s.len() ==> text::is_white_space(#[trigger] s[i]))
            ==> text::trimmed(s).len() == 0,
    decreases s.len(),
{
    if s.len() > 0 && (forall|i: int|
        0 <= i < s.len() ==> text::is_white_space(#[trigger] s[i])) {
        let rest = s.skip(1);
        assert forall|i: int| 0 <= i < rest.len() implies text::is_white_space(
            #[trigger] rest[i],
        ) by {
            assert(rest[i] == s[i + 1]);
        }
        lemma_blank(rest);
        assert(text::is_white_space(s[0]));
        assert(text::trim_front(s) == text::trim_front(rest));
    }
}

/// What is not white space is still there after trimming.
pub proof fn lemma_not_blank(s: Seq<char>, i: int)
    requires
        0 <= i < s.len(),
        !text::is_white_space(s[i]),
    ensures
        text::trimmed(s).len() > 0,
    decreases s.len(),
{
    if text::is_white_space(s[0]) {
        lemma_not_blank(s.skip(1), i - 1);
        assert(text::trim_front(s) == text::trim_front(s.skip(1)));
    } else {
        lemma_back_keeps(s, 0);
    }
}

proof fn lemma_back_keeps(s: Seq<char>, i: int)
    requires
        0 <= i < s.len(),
        !text::is_white_space(s[i]),
    ensures
        text::trim_back(s).len() > 0,
    decreases s.len(),
{
    if text::is_white_space(s.last()) {
        lemma_back_keeps(s.drop_last(), i);
    }
}

/// A stable client looks itself up among the stable releases and a preview client
/// among the previews, by its own build id, without which it cannot.
pub proof fn law_clients_look_in_their_own_channel(
    build: &BuildInfo,
    r: Result<ManifestRequest, String>,
)
    requires
        call_ensures(manifest::manifest_request, (build,), r),
    ensures
        r is Err <==> build.is_preview && build.build_id is None,
        r matches Ok(ManifestRequest::Stable { url }) ==> !build.is_preview && url@
            == "https://herdr.dev/latest.json"@,
        r matches Ok(ManifestRequest::Preview { url, build_id }) ==> build.is_preview && url@
            == "https://herdr.dev/preview.json"@ && build.build_id is Some && build_id@
            == build.build_id->0@,
{
}

} // verus!
