//! Choosing an update among the versions that the backend offers.
use vstd::prelude::*;
use crate::version::{version_order, version_sign, law_version_order_antisymmetric, law_version_order_transitive,
    law_version_order_reflexive};
use crate::text::{chars_of, chars_eq, concat2, concat3, trimmed, trim_chars, string_of};
use crate::stdtext::{unicode_lowercase, to_lowercase};

verus! {

/// A release that the backend offers: its version and the download URL of
/// each platform, as `(platform, url)` pairs.
pub struct VersionInfo {
    pub version: String,
    pub urls: Vec<(String, String)>,
}

/// Why an update cannot be downloaded.
pub enum UpdateError {
    /// The release has no package for this platform.
    NoDownloadUrl { platform: String },
}

/// The versions of a list of releases.
pub open spec fn versions_of(vs: Seq<VersionInfo>) -> Seq<Seq<char>> {
    Seq::new(vs.len(), |i: int| vs[i].version@)
}

/// `k` is the last position of a greatest version in `vs`: nothing is
/// greater than it, and everything after it is smaller.
pub open spec fn is_last_max(vs: Seq<Seq<char>>, k: int) -> bool {
    &&& 0 <= k < vs.len()
    &&& forall|j: int| 0 <= j < vs.len() ==> version_order(#[trigger] vs[j], vs[k]) != 1
    &&& forall|j: int| k < j < vs.len() ==> version_order(#[trigger] vs[j], vs[k]) == -1
}

/// The position of the newest release (the last one among equals).
pub open spec fn newest_index(vs: Seq<Seq<char>>) -> int {
    choose|k: int| is_last_max(vs, k)
}

/// The release that an update would install, if any: the newest release,
/// provided it is newer than `current`.
pub open spec fn chosen_update(vs: Seq<VersionInfo>, current: Seq<char>) -> Option<VersionInfo> {
    if vs.len() == 0 {
        None
    } else {
        let k = newest_index(versions_of(vs));
        if version_order(vs[k].version@, current) == 1 {
            Some(vs[k])
        } else {
            None
        }
    }
}

/// The URL stored for `key` among `(key, url)` pairs (the first one, if several).
pub open spec fn url_lookup(pairs: Seq<(String, String)>, key: Seq<char>) -> Option<Seq<char>>
    decreases pairs.len(),
{
    if pairs.len() == 0 {
        None
    } else if pairs[0].0@ == key {
        Some(pairs[0].1@)
    } else {
        url_lookup(pairs.drop_first(), key)
    }
}

proof fn lemma_last_max_unique(vs: Seq<Seq<char>>, k1: int, k2: int)
    requires
        is_last_max(vs, k1),
        is_last_max(vs, k2),
    ensures
        k1 == k2,
{
    if k1 < k2 {
        assert(version_order(vs[k2], vs[k1]) == -1);
        assert(version_order(vs[k2], vs[k2]) != 1);
        law_version_order_antisymmetric(vs[k2], vs[k1]);
    } else if k2 < k1 {
        assert(version_order(vs[k1], vs[k2]) == -1);
        law_version_order_antisymmetric(vs[k1], vs[k2]);
    }
}

proof fn lemma_last_max_exists(vs: Seq<Seq<char>>)
    requires
        vs.len() > 0,
    ensures
        exists|k: int| is_last_max(vs, k),
    decreases vs.len(),
{
    let n = vs.len() as int;
    let x = vs[n - 1];
    law_version_order_reflexive(x);
    if n == 1 {
        assert(is_last_max(vs, 0));
    } else {
        let pre = vs.drop_last();
        lemma_last_max_exists(pre);
        let k0 = choose|k: int| is_last_max(pre, k);
        law_version_order_antisymmetric(vs[k0], x);
        if version_order(vs[k0], x) == 1 {
            assert forall|j: int| 0 <= j < n implies version_order(#[trigger] vs[j], vs[k0]) != 1 by {
                if j < n - 1 {
                    assert(vs[j] == pre[j]);
                }
            }
            assert forall|j: int| k0 < j < n implies version_order(#[trigger] vs[j], vs[k0]) == -1 by {
                if j < n - 1 {
                    assert(vs[j] == pre[j]);
                }
            }
            assert(is_last_max(vs, k0));
        } else {
            assert forall|j: int| 0 <= j < n implies version_order(#[trigger] vs[j], x) != 1 by {
                if j < n - 1 {
                    assert(vs[j] == pre[j]);
                    assert(version_order(pre[j], pre[k0]) != 1);
                    law_version_order_transitive(vs[j], vs[k0], x);
                }
            }
            assert(is_last_max(vs, n - 1));
        }
    }
}

/// The position of the newest release of a non-empty list (the last one
/// among releases with equal versions), as `Iterator::max_by` picks it.
pub fn newest_release(versions: &Vec<VersionInfo>) -> (k: usize)
    requires
        versions.len() > 0,
    ensures
        is_last_max(versions_of(versions@), k as int),
        k as int == newest_index(versions_of(versions@)),
{
    let ghost vs = versions_of(versions@);
    let mut best: usize = 0;
    let mut i: usize = 1;
    proof {
        law_version_order_antisymmetric(vs[0], vs[0]);
    }
    while i < versions.len()
        invariant
            vs == versions_of(versions@),
            1 <= i <= versions.len(),
            best < i,
            forall|j: int| 0 <= j < i ==> version_order(#[trigger] vs[j], vs[best as int]) != 1,
            forall|j: int| best < j < i ==> version_order(#[trigger] vs[j], vs[best as int]) == -1,
        decreases versions.len() - i,
    {
        let s = version_sign(versions[best].version.as_str(), versions[i].version.as_str());
        assert(vs[best as int] == versions@[best as int].version@);
        assert(vs[i as int] == versions@[i as int].version@);
        if s == 1 {
            proof {
                law_version_order_antisymmetric(vs[best as int], vs[i as int]);
            }
        } else {
            proof {
                law_version_order_antisymmetric(vs[i as int], vs[i as int]);
                law_version_order_antisymmetric(vs[best as int], vs[i as int]);
                assert forall|j: int| 0 <= j < i + 1 implies version_order(#[trigger] vs[j], vs[i as int]) != 1 by {
                    if j < i {
                        law_version_order_transitive(vs[j], vs[best as int], vs[i as int]);
                    }
                }
            }
            best = i;
        }
        i = i + 1;
    }
    proof {
        let k = newest_index(vs);
        assert(is_last_max(vs, best as int));
        lemma_last_max_unique(vs, k, best as int);
    }
    best
}

/// Picks the update to install among the offered releases: the newest one
/// (the last among equals), if it is newer than the running `current` version.
pub fn select_update(versions: Vec<VersionInfo>, current: &str) -> (r: Option<VersionInfo>)
    ensures
        r == chosen_update(versions@, current@),
        r matches Some(v) ==> version_order(v.version@, current@) == 1,
{
    if versions.len() == 0 {
        return None;
    }
    let mut versions = versions;
    let ghost all = versions@;
    let k = newest_release(&versions);
    let s = version_sign(versions[k].version.as_str(), current);
    if s == 1 {
        let v = versions.remove(k);
        Some(v)
    } else {
        None
    }
}

/// The URL of the package for `platform`, as `urls.get(platform)` finds it.
pub fn download_url_for(info: &VersionInfo, platform: &str) -> (r: Result<String, UpdateError>)
    ensures
        match r {
            Ok(u) => url_lookup(info.urls@, platform@) == Some(u@),
            Err(UpdateError::NoDownloadUrl { platform: p }) => url_lookup(info.urls@, platform@) is None
                && p@ == platform@,
        },
{
    let key = chars_of(platform);
    let mut i: usize = 0;
    assert(info.urls@.subrange(0, info.urls.len() as int) =~= info.urls@);
    while i < info.urls.len()
        invariant
            i <= info.urls.len(),
            key@ == platform@,
            url_lookup(info.urls@, platform@) == url_lookup(info.urls@.subrange(i as int, info.urls.len() as int), platform@),
        decreases info.urls.len() - i,
    {
        let ghost rest = info.urls@.subrange(i as int, info.urls.len() as int);
        assert(rest[0] == info.urls@[i as int]);
        assert(rest.drop_first() =~= info.urls@.subrange(i + 1, info.urls.len() as int));
        let k = chars_of(info.urls[i].0.as_str());
        if chars_eq(&k, &key) {
            return Ok(info.urls[i].1.clone());
        }
        i = i + 1;
    }
    Err(UpdateError::NoDownloadUrl { platform: platform.to_owned() })
}

/// The name of the downloaded package of a release: `kerr-<version>.zip`.
pub fn update_package_name(version: &str) -> (s: String)
    ensures
        s@ == "kerr-"@ + version@ + ".zip"@,
{
    concat3("kerr-", version, ".zip")
}

impl UpdateError {
    /// The text of the error.
    pub fn message(&self) -> (r: String)
        ensures
            match *self {
                UpdateError::NoDownloadUrl { platform } => r@ == "No download URL for platform: "@ + platform@,
            },
    {
        match self {
            UpdateError::NoDownloadUrl { platform } => concat2("No download URL for platform: ", platform.as_str()),
        }
    }
}

/// The URL of the list of releases on the update server.
pub fn versions_url(server_url: &str) -> (r: String)
    ensures
        r@ == server_url@ + "/versions"@,
{
    concat2(server_url, "/versions")
}

/// Whether the answer to the update prompt accepts the update: empty
/// (the default), `y` or `yes`, in any case and with surrounding white
/// space ignored.
pub open spec fn accepts_update_text(answer: Seq<char>) -> bool {
    let l = unicode_lowercase(trimmed(answer));
    l.len() == 0 || l == "y"@ || l == "yes"@
}

/// Reads the answer to the update prompt.
pub fn accepts_update(answer: &str) -> (r: bool)
    ensures
        r == accepts_update_text(answer@),
{
    let v = chars_of(answer);
    let t = trim_chars(v.as_slice());
    let ts = string_of(t.as_slice());
    let l = to_lowercase(ts.as_str());
    let lc = chars_of(l.as_str());
    let y = chars_of("y");
    let yes = chars_of("yes");
    lc.len() == 0 || chars_eq(lc.as_slice(), y.as_slice()) || chars_eq(lc.as_slice(), yes.as_slice())
}

/// An update is offered exactly when some offered release is newer than
/// the running version, and then it is an offered release that is newer
/// than the running version and not older than any other offered release.
pub proof fn law_update_is_newest_and_newer(vs: Seq<VersionInfo>, current: Seq<char>)
    ensures
        chosen_update(vs, current) matches Some(v) ==> {
            &&& version_order(v.version@, current) == 1
            &&& exists|k: int| 0 <= k < vs.len() && vs[k] == v
            &&& forall|j: int| 0 <= j < vs.len() ==> version_order(#[trigger] vs[j].version@, v.version@) != 1
        },
        (exists|j: int| 0 <= j < vs.len() && version_order(#[trigger] vs[j].version@, current) == 1)
            <==> chosen_update(vs, current) is Some,
{
    if vs.len() > 0 {
        let ws = versions_of(vs);
        lemma_last_max_exists(ws);
        let k = newest_index(ws);
        assert(is_last_max(ws, k));
        assert forall|j: int| 0 <= j < vs.len() implies version_order(#[trigger] vs[j].version@, vs[k].version@) != 1 by {
            assert(ws[j] == vs[j].version@);
        }
        if exists|j: int| 0 <= j < vs.len() && version_order(#[trigger] vs[j].version@, current) == 1 {
            let j = choose|j: int| 0 <= j < vs.len() && version_order(#[trigger] vs[j].version@, current) == 1;
            law_version_order_antisymmetric(vs[j].version@, current);
            assert(version_order(vs[j].version@, vs[k].version@) != 1);
            law_version_order_transitive(current, vs[j].version@, vs[k].version@);
            law_version_order_antisymmetric(current, vs[k].version@);
        }
    }
}

} // verus!
