//! What the updater knows of the mod's versions, and which release is the latest.
use vstd::prelude::*;
use vstd::string::*;

use crate::bvs::BvsConfig;
use crate::text::{concat2, concat3, owned};
use crate::version::{parse_version, semver_accepts, semver_order, version_order, zero_version, SemVersion};

verus! {

/// The mathematical value of the updater.
pub struct UpdaterView {
    pub current_version: Seq<char>,
    pub last_version: Seq<char>,
    pub repository_url: Seq<char>,
    pub base_download_url: Seq<char>,
    pub is_updating: bool,
    pub should_update: bool,
}

/// The running version, the latest released one, where releases are looked
/// up and downloaded, and how far an update has gone.
#[derive(Debug)]
pub struct Updater {
    current_version: String,
    last_version: String,
    repository_url: String,
    base_download_url: String,
    is_updating: bool,
    should_update: bool,
}

impl View for Updater {
    type V = UpdaterView;

    closed spec fn view(&self) -> UpdaterView {
        UpdaterView {
            current_version: self.current_version@,
            last_version: self.last_version@,
            repository_url: self.repository_url@,
            base_download_url: self.base_download_url@,
            is_updating: self.is_updating,
            should_update: self.should_update,
        }
    }
}

/// The GitHub API address of the mod's repository.
pub open spec fn repository_api_url() -> Seq<char> {
    "https://api.github.com/repos/fcornaire/balatro-vs"@
}

/// The GitHub address the mod's releases are downloaded from.
pub open spec fn releases_base_url() -> Seq<char> {
    "https://github.com/fcornaire/balatro-vs"@
}

impl Updater {
    /// An updater that knows no version yet (`0.0.0` for both) and is not updating.
    pub fn new() -> (r: Updater)
        ensures
            r@ == (UpdaterView {
                current_version: "0.0.0"@,
                last_version: "0.0.0"@,
                repository_url: repository_api_url(),
                base_download_url: releases_base_url(),
                is_updating: false,
                should_update: false,
            }),
    {
        Updater {
            current_version: owned("0.0.0"),
            last_version: owned("0.0.0"),
            repository_url: owned("https://api.github.com/repos/fcornaire/balatro-vs"),
            base_download_url: owned("https://github.com/fcornaire/balatro-vs"),
            is_updating: false,
            should_update: false,
        }
    }

    pub fn get_repository_url(&self) -> (r: &str)
        ensures
            r@ == self@.repository_url,
    {
        self.repository_url.as_str()
    }

    pub fn get_base_download_url(&self) -> (r: &str)
        ensures
            r@ == self@.base_download_url,
    {
        self.base_download_url.as_str()
    }

    pub fn set_current_version(&mut self, version: String)
        ensures
            final(self)@ == (UpdaterView { current_version: version@, ..old(self)@ }),
    {
        self.current_version = version;
    }

    pub fn set_should_update(&mut self, should_update: bool)
        ensures
            final(self)@ == (UpdaterView { should_update, ..old(self)@ }),
    {
        self.should_update = should_update;
    }

    pub fn should_update(&self) -> (r: bool)
        ensures
            r == self@.should_update,
    {
        self.should_update
    }

    pub fn set_last_version(&mut self, version: String)
        ensures
            final(self)@ == (UpdaterView { last_version: version@, ..old(self)@ }),
    {
        self.last_version = version;
    }

    pub fn get_current_version(&self) -> (r: String)
        ensures
            r@ == self@.current_version,
    {
        self.current_version.clone()
    }

    pub fn get_last_version(&self) -> (r: String)
        ensures
            r@ == self@.last_version,
    {
        self.last_version.clone()
    }

    pub fn is_updating(&self) -> (r: bool)
        ensures
            r == self@.is_updating,
    {
        self.is_updating
    }

    pub fn set_is_updating(&mut self, is_updating: bool)
        ensures
            final(self)@ == (UpdaterView { is_updating, ..old(self)@ }),
    {
        self.is_updating = is_updating;
    }

    /// Whether this build is the Thunderstore one, which leaves updates to
    /// Thunderstore: it is not. Modules are told the build at their making.
    pub fn is_thunderstore_build() -> (r: bool)
        ensures
            !r,
    {
        false
    }

    /// The running version becomes the one the configuration names.
    pub fn update_current_version(&mut self, config: &BvsConfig)
        ensures
            final(self)@ == (UpdaterView { current_version: config@.version, ..old(self)@ }),
    {
        self.current_version = config.get_version();
    }
}

/// The address listing the repository's tags.
pub open spec fn tags_url_text(repository_url: Seq<char>) -> Seq<char> {
    repository_url + "/tags"@
}

/// The address of the tags of the repository at `repository_url`.
pub fn tags_url(repository_url: &str) -> (r: String)
    ensures
        r@ == tags_url_text(repository_url@),
{
    concat2(repository_url, "/tags")
}

/// The address of a release's `asset` under `base_download_url`.
pub open spec fn release_asset_url_text(
    base_download_url: Seq<char>,
    version: Seq<char>,
    asset: Seq<char>,
) -> Seq<char> {
    base_download_url + "/releases/download/"@ + version + "/"@ + asset
}

/// The address of a release's `asset`.
pub fn release_asset_url(base_download_url: &str, version: &str, asset: &str) -> (r: String)
    ensures
        r@ == release_asset_url_text(base_download_url@, version@, asset@),
{
    let mut r = concat3(base_download_url, "/releases/download/", version);
    r.append("/");
    r.append(asset);
    r
}

/// The name of the desktop release archive.
pub open spec fn desktop_asset() -> Seq<char> {
    "balatro-vs.zip"@
}

/// The name of the release archive for `platform` (`android` or `switch`) of `version`.
pub open spec fn platform_asset(version: Seq<char>, platform: Seq<char>) -> Seq<char> {
    "balatro-vs-"@ + version + "-"@ + platform + ".zip"@
}

/// The address of the desktop archive of `version`.
pub fn desktop_download_url(base_download_url: &str, version: &str) -> (r: String)
    ensures
        r@ == release_asset_url_text(base_download_url@, version@, desktop_asset()),
{
    release_asset_url(base_download_url, version, "balatro-vs.zip")
}

/// The address of the archive of `version` for `platform` (`android` or `switch`).
pub fn platform_download_url(base_download_url: &str, version: &str, platform: &str) -> (r: String)
    ensures
        r@ == release_asset_url_text(
            base_download_url@,
            version@,
            platform_asset(version@, platform@),
        ),
{
    let mut asset = concat3("balatro-vs-", version, "-");
    asset.append(platform);
    asset.append(".zip");
    release_asset_url(base_download_url, version, asset.as_str())
}

/// The text a tag name is compared by: the name itself when `semver` reads
/// it, `0.0.0` otherwise.
pub open spec fn version_key(name: Seq<char>) -> Seq<char> {
    if semver_accepts(name) {
        name
    } else {
        "0.0.0"@
    }
}

/// No tag's version is greater than that of the tag at `i`.
pub open spec fn is_greatest_tag(names: Seq<Seq<char>>, i: int) -> bool {
    forall|j: int| 0 <= j < names.len() ==> semver_order(version_key(#[trigger] names[j]), version_key(names[i])) != 1
}

/// The latest of the tag names: the first one (in the order given) whose
/// version no other tag's version exceeds; `0.0.0` when there are none.
pub open spec fn latest_tag_spec(names: Seq<Seq<char>>) -> Seq<char> {
    if exists|i: int| 0 <= i < names.len() && is_greatest_tag(names, i) {
        let i = choose|i: int|
            0 <= i < names.len() && is_greatest_tag(names, i) && forall|k: int|
                0 <= k < i ==> !is_greatest_tag(names, k);
        names[i]
    } else {
        "0.0.0"@
    }
}

/// The values of a sequence of strings.
pub open spec fn texts_view(v: Seq<String>) -> Seq<Seq<char>> {
    v.map_values(|s: String| s@)
}

/// The version a tag name is compared by.
fn tag_version(name: &String) -> (r: SemVersion)
    ensures
        r@ == version_key(name@),
{
    match parse_version(name.as_str()) {
        Some(v) => v,
        None => zero_version(),
    }
}

/// The latest release among the tag names, as `semver` orders them; tags that
/// are no semantic version count as `0.0.0`, and ties go to the tag listed
/// first. Without tags, `0.0.0`.
pub fn latest_tag(names: Vec<String>) -> (r: String)
    ensures
        r@ == latest_tag_spec(texts_view(names@)),
{
    let ghost ns = texts_view(names@);
    let mut keys: Vec<SemVersion> = Vec::new();
    let mut k: usize = 0;
    while k < names.len()
        invariant
            k <= names.len(),
            ns == texts_view(names@),
            keys.len() == k,
            forall|m: int| 0 <= m < k ==> #[trigger] keys@[m]@ == version_key(ns[m]),
        decreases names.len() - k,
    {
        let key = tag_version(&names[k]);
        keys.push(key);
        k = k + 1;
    }
    let n = names.len();
    let mut i: usize = 0;
    while i < n
        invariant
            n == names.len(),
            n == keys.len(),
            ns == texts_view(names@),
            ns.len() == n,
            i <= n,
            forall|m: int| 0 <= m < n ==> #[trigger] keys@[m]@ == version_key(ns[m]),
            forall|m: int| 0 <= m < i ==> !is_greatest_tag(ns, m),
        decreases n - i,
    {
        let mut greatest = true;
        let mut j: usize = 0;
        while j < n
            invariant
                n == keys.len(),
                ns.len() == n,
                i < n,
                j <= n,
                forall|m: int| 0 <= m < n ==> #[trigger] keys@[m]@ == version_key(ns[m]),
                greatest == forall|m: int|
                    0 <= m < j ==> semver_order(version_key(#[trigger] ns[m]), version_key(ns[i as int]))
                        != 1,
            decreases n - j,
        {
            let o = version_order(&keys[j], &keys[i]);
            assert(keys@[j as int]@ == version_key(ns[j as int]));
            assert(keys@[i as int]@ == version_key(ns[i as int]));
            if o == 1 {
                greatest = false;
            }
            j = j + 1;
        }
        if greatest {
            assert(is_greatest_tag(ns, i as int));
            assert(ns[i as int] == names@[i as int]@);
            proof {
                let w = choose|w: int|
                    0 <= w < ns.len() && is_greatest_tag(ns, w) && forall|k: int|
                        0 <= k < w ==> !is_greatest_tag(ns, k);
                assert(0 <= i < ns.len() && is_greatest_tag(ns, i as int) && forall|k: int|
                    0 <= k < i ==> !is_greatest_tag(ns, k));
                if w < i {
                    assert(!is_greatest_tag(ns, w));
                } else if w > i {
                    assert(!is_greatest_tag(ns, i as int));
                }
                assert(w == i);
            }
            return names[i].clone();
        }
        i = i + 1;
    }
    assert(!exists|m: int| 0 <= m < ns.len() && is_greatest_tag(ns, m));
    owned("0.0.0")
}

/// The latest tag is one of the tags, and no tag's version exceeds it, as
/// soon as one tag's version is exceeded by none (always so when `semver`
/// orders versions totally and there is a tag).
pub proof fn lemma_latest_tag_not_exceeded(names: Seq<Seq<char>>)
    requires
        exists|i: int| 0 <= i < names.len() && is_greatest_tag(names, i),
    ensures
        names.contains(latest_tag_spec(names)),
        forall|j: int|
            0 <= j < names.len() ==> semver_order(
                version_key(#[trigger] names[j]),
                version_key(latest_tag_spec(names)),
            ) != 1,
{
    let w = choose|i: int| 0 <= i < names.len() && is_greatest_tag(names, i);
    lemma_first_greatest_exists(names, w);
    let i = choose|i: int|
        0 <= i < names.len() && is_greatest_tag(names, i) && forall|k: int|
            0 <= k < i ==> !is_greatest_tag(names, k);
    assert(latest_tag_spec(names) == names[i]);
    assert forall|j: int| 0 <= j < names.len() implies semver_order(
        version_key(#[trigger] names[j]),
        version_key(latest_tag_spec(names)),
    ) != 1 by {
        assert(is_greatest_tag(names, i));
    }
}

/// When some tag is exceeded by none, a first such tag exists.
proof fn lemma_first_greatest_exists(names: Seq<Seq<char>>, w: int)
    requires
        0 <= w < names.len(),
        is_greatest_tag(names, w),
    ensures
        exists|i: int|
            0 <= i < names.len() && is_greatest_tag(names, i) && forall|k: int|
                0 <= k < i ==> !is_greatest_tag(names, k),
    decreases w,
{
    if exists|k: int| 0 <= k < w && is_greatest_tag(names, k) {
        let k = choose|k: int| 0 <= k < w && is_greatest_tag(names, k);
        lemma_first_greatest_exists(names, k);
    } else {
        assert(0 <= w < names.len() && is_greatest_tag(names, w) && forall|k: int|
            0 <= k < w ==> !is_greatest_tag(names, k));
    }
}

/// Whether `name` ends with `suffix`.
pub open spec fn ends_with(name: Seq<char>, suffix: Seq<char>) -> bool {
    suffix.len() <= name.len() && name.skip(name.len() - suffix.len()) == suffix
}

/// Where an entry of the Android archive is unpacked: a shared library
/// (`.so`) goes beside the running one, as `.so.new`, to be swapped in at
/// the next launch; anything else keeps its name.
pub open spec fn android_entry_name(name: Seq<char>) -> Seq<char> {
    if ends_with(name, ".so"@) {
        name + ".new"@
    } else {
        name
    }
}

/// The name an entry of the Android archive is unpacked under.
pub fn android_dest_name(name: &str) -> (r: String)
    ensures
        r@ == android_entry_name(name@),
{
    proof {
        reveal_strlit(".so");
    }
    let n = name.unicode_len();
    let is_library = n >= 3 && crate::text::str_eq(name.substring_char(n - 3, n), ".so");
    assert(is_library == ends_with(name@, ".so"@)) by {
        if n >= 3 {
            assert(name@.subrange(n - 3, n as int) =~= name@.skip(n - 3));
        }
    }
    if is_library {
        concat2(name, ".new")
    } else {
        owned(name)
    }
}

} // verus!
