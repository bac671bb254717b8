//! Deciding, from the latest published release, whether an update is offered.

use vstd::prelude::*;

verus! {

/// Address of the description of the latest published release.
pub const GITHUB_RELEASES_LATEST_URL: &'static str =
    "https://api.github.com/repos/jmaxdev/ram-cleaner-pro/releases/latest";

/// A newer release on offer.
#[derive(Debug, Clone)]
pub struct UpdateInfo {
    pub version: String,
    pub release_notes: String,
    pub download_url: String,
}

/// One downloadable file of a release, as far as the release describes it.
pub struct ReleaseAsset {
    pub name: Option<String>,
    pub browser_download_url: Option<String>,
}

/// The parts of a published release that the decision reads; a part is
/// `None` when the release lacks it or gives it as something other than text
/// (or, for the assets, other than a list).
pub struct ReleaseInfo {
    pub tag_name: Option<String>,
    pub body: Option<String>,
    pub assets: Option<Vec<ReleaseAsset>>,
}

/// Declares `semver::Version` to the verifier as an opaque type.
#[verifier::external_type_specification]
#[verifier::external_body]
pub struct ExVersion(semver::Version);

/// A version that `semver` accepted, with the text it was read from.
pub struct ParsedVersion {
    text: String,
    version: semver::Version,
}

impl View for ParsedVersion {
    type V = Seq<char>;

    closed spec fn view(&self) -> Seq<char> {
        self.text@
    }
}

/// The message with which `semver::Version::parse` rejects `text`, or `None`
/// when it accepts it.
pub uninterp spec fn semver_parse_error(text: Seq<char>) -> Option<Seq<char>>;

/// The version written `newer` is greater than the one written `older` in
/// `semver`'s order of versions.
pub uninterp spec fn semver_newer(newer: Seq<char>, older: Seq<char>) -> bool;

/// Calls `semver::Version::parse` and, on failure, the error's `to_string`.
/// Claims: the call fails exactly when `semver_parse_error` gives a message
/// for the text, with that message; an accepted version keeps its text.
#[verifier::external_body]
fn parse_version(text: &str) -> (res: Result<ParsedVersion, String>)
    ensures
        match res {
            Ok(v) => v@ == text@ && semver_parse_error(text@) is None,
            Err(m) => semver_parse_error(text@) == Some(m@),
        },
{
    match semver::Version::parse(text) {
        Ok(version) => Ok(ParsedVersion { text: text.to_string(), version }),
        Err(e) => Err(e.to_string()),
    }
}

/// Calls `>` on two `semver::Version`s (their derived order: major, minor,
/// patch, pre-release, build). Claims: the answer is `semver_newer` of their
/// texts, and a version is never greater than itself.
#[verifier::external_body]
fn version_newer(newer: &ParsedVersion, older: &ParsedVersion) -> (res: bool)
    ensures
        res == semver_newer(newer@, older@),
        newer@ == older@ ==> !res,
{
    newer.version > older.version
}

/// `s` without its leading `'v'` characters.
pub open spec fn trim_leading_v(s: Seq<char>) -> Seq<char>
    decreases s.len(),
{
    if s.len() > 0 && s[0] == 'v' {
        trim_leading_v(s.drop_first())
    } else {
        s
    }
}

/// `t` occurs in `s`.
pub open spec fn has_substring(s: Seq<char>, t: Seq<char>) -> bool {
    exists|i: int| 0 <= i <= s.len() - t.len() && #[trigger] s.subrange(i, i + t.len()) == t
}

/// `s` ends with `t`.
pub open spec fn has_suffix(s: Seq<char>, t: Seq<char>) -> bool {
    s.len() >= t.len() && s.subrange(s.len() - t.len(), s.len() as int) == t
}

/// The asset looks like the program's executable and has an address.
pub open spec fn asset_matches(a: ReleaseAsset) -> bool {
    &&& match a.name {
        Some(n) => has_substring(n@, "ram"@) || has_suffix(n@, ".exe"@),
        None => false,
    }
    &&& a.browser_download_url is Some
}

/// The address of an asset, or nothing.
pub open spec fn asset_url(a: ReleaseAsset) -> Seq<char> {
    match a.browser_download_url {
        Some(u) => u@,
        None => seq![],
    }
}

/// The address of the first matching asset, or nothing.
pub open spec fn first_match_url(assets: Seq<ReleaseAsset>) -> Seq<char>
    decreases assets.len(),
{
    if assets.len() == 0 {
        seq![]
    } else if asset_matches(assets[0]) {
        asset_url(assets[0])
    } else {
        first_match_url(assets.drop_first())
    }
}

/// The address offered when the release names no usable asset.
pub open spec fn fallback_url(version: Seq<char>) -> Seq<char> {
    "https://github.com/jmaxdev/ram-cleaner-pro/releases/download/v"@ + version + "/ram-pro.exe"@
}

/// The download address: the first matching asset's; failing that, the first
/// asset's when it has one; failing that, the address built from the version.
pub open spec fn chosen_download_url(assets: Option<Vec<ReleaseAsset>>, version: Seq<char>) -> Seq<char> {
    let from_assets = match assets {
        None => seq![],
        Some(a) => {
            let picked = first_match_url(a@);
            if picked.len() == 0 && a@.len() > 0 {
                match a@[0].browser_download_url {
                    Some(u) => u@,
                    None => picked,
                }
            } else {
                picked
            }
        },
    };
    if from_assets.len() == 0 {
        fallback_url(version)
    } else {
        from_assets
    }
}

/// The release notes, or nothing.
pub open spec fn release_notes_of(release: ReleaseInfo) -> Seq<char> {
    match release.body {
        Some(b) => b@,
        None => seq![],
    }
}

/// `info` offers `release` as version `version`.
pub open spec fn offers(info: UpdateInfo, release: ReleaseInfo, version: Seq<char>) -> bool {
    &&& info.version@ == version
    &&& info.release_notes@ == release_notes_of(release)
    &&& info.download_url@ == chosen_download_url(release.assets, version)
}

/// The outcome of checking `release` against the installed version `current`,
/// with `skipped` the version the user chose to skip, if any.
pub open spec fn release_outcome_matches(
    r: Result<Option<UpdateInfo>, String>,
    release: ReleaseInfo,
    skipped: Option<Seq<char>>,
    current: Seq<char>,
) -> bool {
    match release.tag_name {
        None => r matches Err(m) && m@ == "Missing tag_name in release"@,
        Some(tag) => {
            let latest = trim_leading_v(tag@);
            if skipped == Some(latest) {
                r matches Ok(None)
            } else if semver_parse_error(latest) is Some {
                r matches Err(m) && Some(m@) == semver_parse_error(latest)
            } else if semver_parse_error(current) is Some {
                r matches Err(m) && Some(m@) == semver_parse_error(current)
            } else if semver_newer(latest, current) {
                r matches Ok(Some(info)) && offers(info, release, latest)
            } else {
                r matches Ok(None)
            }
        },
    }
}

/// Removes the leading `'v'` characters of a tag.
pub fn trim_version_tag(tag: &str) -> (t: &str)
    ensures
        t@ == trim_leading_v(tag@),
{
    let n = tag.unicode_len();
    let mut k: usize = 0;
    proof {
        assert(tag@.skip(0) =~= tag@);
    }
    while k < n && tag.get_char(k) == 'v'
        invariant
            n == tag@.len(),
            0 <= k <= n,
            trim_leading_v(tag@) == trim_leading_v(tag@.skip(k as int)),
        decreases n - k,
    {
        proof {
            assert(tag@.skip(k as int).drop_first() =~= tag@.skip(k + 1));
        }
        k = k + 1;
    }
    proof {
        assert(tag@.skip(k as int) =~= tag@.subrange(k as int, n as int));
    }
    tag.substring_char(k, n)
}

/// Whether `t` occurs in `s`.
pub fn contains_text(s: &str, t: &str) -> (b: bool)
    ensures
        b == has_substring(s@, t@),
{
    let n = s.unicode_len();
    let m = t.unicode_len();
    if m > n {
        proof {
            assert forall|i: int| 0 <= i <= s@.len() - t@.len() implies #[trigger] s@.subrange(i, i + t@.len()) != t@ by {}
        }
        return false;
    }
    let mut i: usize = 0;
    while i <= n - m
        invariant
            n == s@.len(),
            m == t@.len(),
            m <= n,
            0 <= i <= n - m + 1,
            forall|k: int| 0 <= k < i ==> #[trigger] s@.subrange(k, k + m) != t@,
        decreases n - m + 1 - i,
    {
        let mut j: usize = 0;
        let mut same = true;
        while j < m
            invariant
                n == s@.len(),
                m == t@.len(),
                i + m <= n,
                0 <= j <= m,
                same == (forall|l: int| 0 <= l < j ==> s@[i + l] == t@[l]),
            decreases m - j,
        {
            if s.get_char(i + j) != t.get_char(j) {
                same = false;
            }
            j = j + 1;
        }
        if same {
            proof {
                assert(s@.subrange(i as int, i + m) =~= t@);
            }
            return true;
        }
        proof {
            let k = choose|l: int| 0 <= l < m && s@[i + l] != t@[l];
            assert(s@.subrange(i as int, i + m)[k] != t@[k]);
        }
        i = i + 1;
    }
    false
}

/// Whether `s` ends with `t`.
pub fn ends_with_text(s: &str, t: &str) -> (b: bool)
    ensures
        b == has_suffix(s@, t@),
{
    let n = s.unicode_len();
    let m = t.unicode_len();
    if m > n {
        return false;
    }
    let mut j: usize = 0;
    while j < m
        invariant
            n == s@.len(),
            m == t@.len(),
            m <= n,
            0 <= j <= m,
            forall|l: int| 0 <= l < j ==> s@[n - m + l] == t@[l],
        decreases m - j,
    {
        if s.get_char(n - m + j) != t.get_char(j) {
            proof {
                assert(s@.subrange(n - m, n as int)[j as int] != t@[j as int]);
            }
            return false;
        }
        j = j + 1;
    }
    proof {
        assert(s@.subrange(n - m, n as int) =~= t@);
    }
    true
}

fn asset_matches_exec(a: &ReleaseAsset) -> (b: bool)
    ensures
        b == asset_matches(*a),
{
    match &a.name {
        Some(n) => (contains_text(n.as_str(), "ram") || ends_with_text(n.as_str(), ".exe"))
            && a.browser_download_url.is_some(),
        None => false,
    }
}

/// The download address for a release published as `version`.
pub fn select_download_url(assets: &Option<Vec<ReleaseAsset>>, version: &str) -> (url: String)
    ensures
        url@ == chosen_download_url(*assets, version@),
{
    let mut url = String::new();
    if let Some(list) = assets {
        let n = list.len();
        let mut i: usize = 0;
        proof {
            assert(list@.skip(0) =~= list@);
        }
        while i < n
            invariant_except_break
                n == list@.len(),
                0 <= i <= n,
                url@ == Seq::<char>::empty(),
                first_match_url(list@) == first_match_url(list@.skip(i as int)),
            ensures
                n == list@.len(),
                url@ == first_match_url(list@),
            decreases n - i,
        {
            proof {
                assert(list@.skip(i as int).drop_first() =~= list@.skip(i + 1));
                assert(list@.skip(i as int)[0] == list@[i as int]);
            }
            if asset_matches_exec(&list[i]) {
                proof {
                    assert(first_match_url(list@.skip(i as int)) == asset_url(list@[i as int]));
                }
                if let Some(u) = &list[i].browser_download_url {
                    url = u.clone();
                }
                break;
            }
            i = i + 1;
            proof {
                if i == n {
                    assert(list@.skip(n as int).len() == 0);
                }
            }
        }
        if url.unicode_len() == 0 && n > 0 {
            if let Some(u) = &list[0].browser_download_url {
                url = u.clone();
            }
        }
    }
    if url.unicode_len() == 0 {
        url = String::from_str("https://github.com/jmaxdev/ram-cleaner-pro/releases/download/v");
        url.append(version);
        url.append("/ram-pro.exe");
    }
    url
}

/// The offer of `release`, published as version `version`.
pub fn build_update_info(release: &ReleaseInfo, version: &str) -> (info: UpdateInfo)
    ensures
        offers(info, *release, version@),
{
    let release_notes = match &release.body {
        Some(b) => b.clone(),
        None => String::new(),
    };
    UpdateInfo {
        version: String::from_str(version),
        release_notes,
        download_url: select_download_url(&release.assets, version),
    }
}

/// Decides whether `release` is offered as an update of the installed
/// version `current_version`: not when its tag is missing (an error), not when
/// its version is the skipped one, an error when either version is not valid
/// semantic versioning, and an offer when it is newer.
pub fn evaluate_release(
    release: &ReleaseInfo,
    skipped_version: Option<&str>,
    current_version: &str,
) -> (r: Result<Option<UpdateInfo>, String>)
    ensures
        release_outcome_matches(
            r,
            *release,
            match skipped_version {
                Some(s) => Some(s@),
                None => None,
            },
            current_version@,
        ),
        match release.tag_name {
            Some(t) => trim_leading_v(t@) == current_version@ ==> !(r matches Ok(Some(_))),
            None => true,
        },
{
    let tag = match &release.tag_name {
        Some(t) => t,
        None => {
            return Err(String::from_str("Missing tag_name in release"));
        },
    };
    let latest = trim_version_tag(tag.as_str());
    if let Some(skipped) = skipped_version {
        if String::from_str(skipped) == String::from_str(latest) {
            return Ok(None);
        }
    }
    let latest_version = match parse_version(latest) {
        Ok(v) => v,
        Err(e) => {
            return Err(e);
        },
    };
    let current = match parse_version(current_version) {
        Ok(v) => v,
        Err(e) => {
            return Err(e);
        },
    };
    if version_newer(&latest_version, &current) {
        Ok(Some(build_update_info(release, latest)))
    } else {
        Ok(None)
    }
}

/// The version the user chose to skip is never offered, and neither is an
/// error reported for it: the check ends quietly.
pub proof fn lemma_skipped_version_never_offered(
    r: Result<Option<UpdateInfo>, String>,
    release: ReleaseInfo,
    skipped: Seq<char>,
    current: Seq<char>,
)
    requires
        release_outcome_matches(r, release, Some(skipped), current),
        release.tag_name matches Some(t) && trim_leading_v(t@) == skipped,
    ensures
        r matches Ok(None),
{
}

/// An offered update always carries the tag's version without its leading
/// `'v'`, and that version is newer than the installed one.
pub proof fn lemma_offer_is_newer(
    r: Result<Option<UpdateInfo>, String>,
    release: ReleaseInfo,
    skipped: Option<Seq<char>>,
    current: Seq<char>,
)
    requires
        release_outcome_matches(r, release, skipped, current),
        r matches Ok(Some(_)),
    ensures
        release.tag_name matches Some(t) && ({
            let latest = trim_leading_v(t@);
            &&& r->Ok_0->Some_0.version@ == latest
            &&& semver_newer(latest, current)
            &&& skipped != Some(latest)
        }),
{
}

proof fn lemma_first_match_at(s: Seq<ReleaseAsset>, k: int)
    requires
        0 <= k < s.len(),
        asset_matches(s[k]),
        forall|j: int| 0 <= j < k ==> !asset_matches(#[trigger] s[j]),
    ensures
        first_match_url(s) == asset_url(s[k]),
    decreases k,
{
    if k > 0 {
        let t = s.drop_first();
        assert(t[k - 1] == s[k]);
        assert forall|j: int| 0 <= j < k - 1 implies !asset_matches(#[trigger] t[j]) by {
            assert(t[j] == s[j + 1]);
        }
        assert(!asset_matches(s[0]));
        lemma_first_match_at(t, k - 1);
    }
}

proof fn lemma_no_match(s: Seq<ReleaseAsset>)
    requires
        forall|j: int| 0 <= j < s.len() ==> !asset_matches(#[trigger] s[j]),
    ensures
        first_match_url(s) == Seq::<char>::empty(),
    decreases s.len(),
{
    if s.len() > 0 {
        let t = s.drop_first();
        assert(!asset_matches(s[0]));
        assert forall|j: int| 0 <= j < t.len() implies !asset_matches(#[trigger] t[j]) by {
            assert(t[j] == s[j + 1]);
        }
        lemma_no_match(t);
    }
}

/// The offered download is the first asset whose name contains "ram" or ends
/// with ".exe" and that has an address: when asset `k` is the first such, its
/// (non-empty) address is the one offered.
pub proof fn lemma_named_asset_is_offered(assets: Vec<ReleaseAsset>, version: Seq<char>, k: int)
    requires
        0 <= k < assets@.len(),
        assets@[k].name matches Some(n) && (has_substring(n@, "ram"@) || has_suffix(n@, ".exe"@)),
        assets@[k].browser_download_url matches Some(u) && u@.len() > 0,
        forall|j: int|
            0 <= j < k ==> !(#[trigger] assets@[j].name matches Some(n) && (has_substring(
                n@,
                "ram"@,
            ) || has_suffix(n@, ".exe"@)) && assets@[j].browser_download_url is Some),
    ensures
        assets@[k].browser_download_url matches Some(u) && chosen_download_url(Some(assets), version)
            == u@,
{
    assert forall|j: int| 0 <= j < k implies !asset_matches(#[trigger] assets@[j]) by {
        assert(!(assets@[j].name matches Some(n) && (has_substring(n@, "ram"@) || has_suffix(
            n@,
            ".exe"@,
        )) && assets@[j].browser_download_url is Some));
    }
    lemma_first_match_at(assets@, k);
}

/// When no asset's name contains "ram" or ends with ".exe" (among those with
/// an address), the first asset's non-empty address is offered.
pub proof fn lemma_first_asset_is_fallback(assets: Vec<ReleaseAsset>, version: Seq<char>)
    requires
        assets@.len() > 0,
        assets@[0].browser_download_url matches Some(u) && u@.len() > 0,
        forall|j: int|
            0 <= j < assets@.len() ==> !(#[trigger] assets@[j].name matches Some(n) && (
            has_substring(n@, "ram"@) || has_suffix(n@, ".exe"@))
                && assets@[j].browser_download_url is Some),
    ensures
        assets@[0].browser_download_url matches Some(u) && chosen_download_url(Some(assets), version)
            == u@,
{
    assert forall|j: int| 0 <= j < assets@.len() implies !asset_matches(#[trigger] assets@[j]) by {
        assert(!(assets@[j].name matches Some(n) && (has_substring(n@, "ram"@) || has_suffix(
            n@,
            ".exe"@,
        )) && assets@[j].browser_download_url is Some));
    }
    lemma_no_match(assets@);
}

/// An offered update downloads the first asset named like the program (its
/// name contains "ram" or ends with ".exe") that has an address.
pub proof fn lemma_offer_downloads_named_asset(
    r: Result<Option<UpdateInfo>, String>,
    release: ReleaseInfo,
    skipped: Option<Seq<char>>,
    current: Seq<char>,
    k: int,
)
    requires
        release_outcome_matches(r, release, skipped, current),
        r matches Ok(Some(_)),
        release.assets matches Some(assets) && {
            &&& 0 <= k < assets@.len()
            &&& assets@[k].name matches Some(n) && (has_substring(n@, "ram"@) || has_suffix(
                n@,
                ".exe"@,
            ))
            &&& assets@[k].browser_download_url matches Some(u) && u@.len() > 0
            &&& forall|j: int|
                0 <= j < k ==> !(#[trigger] assets@[j].name matches Some(n) && (has_substring(
                    n@,
                    "ram"@,
                ) || has_suffix(n@, ".exe"@)) && assets@[j].browser_download_url is Some)
        },
    ensures
        release.assets matches Some(assets) && assets@[k].browser_download_url matches Some(u)
            && r->Ok_0->Some_0.download_url@ == u@,
{
    let assets = release.assets->Some_0;
    let latest = trim_leading_v(release.tag_name->Some_0@);
    lemma_named_asset_is_offered(assets, latest, k);
}

} // verus!
