//! The self-update's decisions: which release asset fits this machine,
//! whether the latest release is newer, and whether the user agreed.
use vstd::prelude::*;
use crate::error::Error;
use crate::text::{chars_of, contains_text, occurs_in, push_str, same_text, string_of};

verus! {

/// The name of the executable inside a release archive.
pub const BIN_NAME: &'static str = "clin";

/// Where the latest release is described.
pub const API_URL: &'static str = "https://api.github.com/repos/jaemk/clin/releases/latest";

/// The architecture part of the release name for a processor architecture.
pub open spec fn target_arch(arch: Seq<char>) -> Option<Seq<char>> {
    if arch == "x86"@ {
        Some("i686"@)
    } else if arch == "x86_64"@ {
        Some("x86_64"@)
    } else {
        None
    }
}

/// The system part of the release name for an operating system.
pub open spec fn target_os(os: Seq<char>) -> Option<Seq<char>> {
    if os == "macos"@ {
        Some("apple-darwin"@)
    } else if os == "linux"@ {
        Some("unknown-linux-gnu"@)
    } else {
        None
    }
}

/// The target that names the release assets built for a processor
/// architecture and an operating system (as Rust names them), such as
/// `x86_64-unknown-linux-gnu`. Releases exist for 32- and 64-bit x86 on
/// macOS and Linux only; anything else is an error.
pub fn get_target(arch: &str, os: &str) -> (r: Result<String, Error>)
    ensures
        match (target_arch(arch@), target_os(os@)) {
            (Some(a), Some(o)) => r matches Ok(t) && t@ == a + "-"@ + o,
            _ => r matches Err(e) && e is Upgrade,
        },
{
    let a = if same_text(arch, "x86") {
        "i686"
    } else if same_text(arch, "x86_64") {
        "x86_64"
    } else {
        return Err(Error::Upgrade("Unable to determine target-architecture".to_owned()));
    };
    let o = if same_text(os, "macos") {
        "apple-darwin"
    } else if same_text(os, "linux") {
        "unknown-linux-gnu"
    } else {
        return Err(Error::Upgrade("Unable to determine target-os".to_owned()));
    };
    let mut t = String::new();
    push_str(&mut t, a);
    push_str(&mut t, "-");
    push_str(&mut t, o);
    Ok(t)
}

/// A downloadable file of a release.
#[derive(Debug)]
pub struct ReleaseAsset {
    pub download_url: String,
    pub name: String,
}

/// The fields of one asset as the release description gives them: `None`
/// where a field is absent or not a string.
pub struct AssetFields {
    pub download_url: Option<String>,
    pub name: Option<String>,
}

/// Whether an asset's description has both fields.
pub open spec fn complete(a: AssetFields) -> bool {
    a.download_url is Some && a.name is Some
}

/// The error text for an asset's description that lacks a field.
pub open spec fn missing_text(a: AssetFields) -> Seq<char> {
    if a.download_url is None {
        "Asset missing `browser_download_url`"@
    } else {
        "Asset missing `name`"@
    }
}

impl ReleaseAsset {
    /// The asset that a description gives; an error naming the first
    /// missing field, the download address before the name.
    pub fn from_asset(fields: &AssetFields) -> (r: Result<ReleaseAsset, Error>)
        ensures
            complete(*fields) ==> (r matches Ok(a) && a.download_url@
                == fields.download_url->0@ && a.name@ == fields.name->0@),
            !complete(*fields) ==> (r matches Err(Error::Upgrade(m)) && m@ == missing_text(
                *fields,
            )),
    {
        let download_url = match &fields.download_url {
            Some(u) => u.clone(),
            None => {
                return Err(Error::Upgrade("Asset missing `browser_download_url`".to_owned()));
            },
        };
        let name = match &fields.name {
            Some(n) => n.clone(),
            None => {
                return Err(Error::Upgrade("Asset missing `name`".to_owned()));
            },
        };
        Ok(ReleaseAsset { download_url, name })
    }
}

/// The place of the first incomplete description in `es[i..]`, or the
/// number of descriptions when all are complete.
pub open spec fn first_incomplete(es: Seq<AssetFields>, i: int) -> int
    decreases es.len() - i,
{
    if i < 0 || i >= es.len() {
        es.len() as int
    } else if !complete(es[i]) {
        i
    } else {
        first_incomplete(es, i + 1)
    }
}

/// The place of the first description in `es[i..]` whose name holds
/// `target`, or the number of descriptions when none does.
pub open spec fn first_for_target(es: Seq<AssetFields>, target: Seq<char>, i: int) -> int
    decreases es.len() - i,
{
    if i < 0 || i >= es.len() {
        es.len() as int
    } else if es[i].name matches Some(n) && occurs_in(target, n@) {
        i
    } else {
        first_for_target(es, target, i + 1)
    }
}

/// The assets that the descriptions give, in order; the error of the first
/// incomplete description.
pub fn parse_assets(es: &Vec<AssetFields>) -> (r: Result<Vec<ReleaseAsset>, Error>)
    ensures
        match r {
            Ok(v) => {
                &&& first_incomplete(es@, 0) == es@.len()
                &&& v@.len() == es@.len()
                &&& forall|i: int| 0 <= i < es@.len() ==> complete(#[trigger] es@[i])
                &&& forall|i: int|
                    0 <= i < es@.len() ==> #[trigger] v@[i].name@ == es@[i].name->0@
                        && v@[i].download_url@ == es@[i].download_url->0@
            },
            Err(e) => first_incomplete(es@, 0) < es@.len() && (e matches Error::Upgrade(m) && m@
                == missing_text(es@[first_incomplete(es@, 0)])),
        },
{
    let mut out: Vec<ReleaseAsset> = Vec::new();
    let mut i: usize = 0;
    while i < es.len()
        invariant
            i <= es@.len(),
            out@.len() == i,
            first_incomplete(es@, 0) == first_incomplete(es@, i as int),
            forall|j: int| 0 <= j < i ==> complete(#[trigger] es@[j]),
            forall|j: int|
                0 <= j < i ==> #[trigger] out@[j].name@ == es@[j].name->0@ && out@[j].download_url@
                    == es@[j].download_url->0@,
        decreases es@.len() - i,
    {
        let a = ReleaseAsset::from_asset(&es[i])?;
        out.push(a);
        i = i + 1;
    }
    assert(first_incomplete(es@, i as int) == es@.len());
    Ok(out)
}

/// The first asset whose name holds `target`.
pub fn select_asset(assets: Vec<ReleaseAsset>, target: &str) -> (r: Option<ReleaseAsset>)
    ensures
        match r {
            Some(a) => exists|k: int|
                0 <= k < assets@.len() && #[trigger] assets@[k] == a && occurs_in(target@, a.name@)
                    && forall|j: int| 0 <= j < k ==> !occurs_in(target@, assets@[j].name@),
            None => forall|j: int| 0 <= j < assets@.len() ==> !occurs_in(target@, assets@[j].name@),
        },
{
    let mut pool = assets;
    let ghost all = pool@;
    let mut i: usize = 0;
    while i < pool.len()
        invariant
            pool@ == all,
            all == assets@,
            i <= all.len(),
            forall|j: int| 0 <= j < i ==> !occurs_in(target@, all[j].name@),
        decreases all.len() - i,
    {
        if contains_text(pool[i].name.as_str(), target) {
            let a = pool.swap_remove(i);
            assert(all[i as int] == a);
            return Some(a);
        }
        i = i + 1;
    }
    None
}

/// A tag with its leading `v`s removed.
pub open spec fn without_v(s: Seq<char>) -> Seq<char>
    decreases s.len(),
{
    if s.len() > 0 && s[0] == 'v' {
        without_v(s.drop_first())
    } else {
        s
    }
}

/// The version that a release tag names: the tag without its leading `v`s.
pub fn version_of_tag(tag: &str) -> (r: String)
    ensures
        r@ == without_v(tag@),
{
    let cs = chars_of(tag);
    assert(cs@.subrange(0, cs@.len() as int) =~= tag@);
    let mut i: usize = 0;
    while i < cs.len() && cs[i] == 'v'
        invariant
            cs@ == tag@,
            i <= cs@.len(),
            without_v(tag@) == without_v(cs@.subrange(i as int, cs@.len() as int)),
        decreases cs@.len() - i,
    {
        let ghost rest = cs@.subrange(i as int, cs@.len() as int);
        assert(rest.drop_first() =~= cs@.subrange(i + 1, cs@.len() as int));
        i = i + 1;
    }
    let mut out: Vec<char> = Vec::new();
    let mut k: usize = i;
    while k < cs.len()
        invariant
            cs@ == tag@,
            i <= k <= cs@.len(),
            out@ == cs@.subrange(i as int, k as int),
        decreases cs@.len() - k,
    {
        out.push(cs[k]);
        k = k + 1;
        assert(out@ =~= cs@.subrange(i as int, k as int));
    }
    string_of(&out)
}

/// Whether `a` comes after `b` in the order of their characters, as text is
/// compared.
pub open spec fn text_after(a: Seq<char>, b: Seq<char>) -> bool
    decreases a.len(),
{
    if a.len() == 0 {
        false
    } else if b.len() == 0 {
        true
    } else if a[0] != b[0] {
        a[0] > b[0]
    } else {
        text_after(a.drop_first(), b.drop_first())
    }
}

/// Whether version `latest` is newer than `current`: the texts are compared
/// character by character.
pub fn is_newer(latest: &str, current: &str) -> (r: bool)
    ensures
        r == text_after(latest@, current@),
{
    let a = chars_of(latest);
    let b = chars_of(current);
    assert(a@.subrange(0, a@.len() as int) =~= latest@);
    assert(b@.subrange(0, b@.len() as int) =~= current@);
    let mut i: usize = 0;
    while i < a.len() && i < b.len() && a[i] == b[i]
        invariant
            a@ == latest@,
            b@ == current@,
            i <= a@.len(),
            i <= b@.len(),
            text_after(latest@, current@) == text_after(
                a@.subrange(i as int, a@.len() as int),
                b@.subrange(i as int, b@.len() as int),
            ),
        decreases a@.len() - i,
    {
        assert(a@.subrange(i as int, a@.len() as int).drop_first() =~= a@.subrange(
            i + 1,
            a@.len() as int,
        ));
        assert(b@.subrange(i as int, b@.len() as int).drop_first() =~= b@.subrange(
            i + 1,
            b@.len() as int,
        ));
        i = i + 1;
    }
    if i == a.len() {
        false
    } else if i == b.len() {
        true
    } else {
        a[i] > b[i]
    }
}

/// What the self-update does once the latest release is known.
#[derive(Debug)]
pub enum UpdatePlan {
    /// The running version is the latest: nothing is downloaded.
    UpToDate { version: String },
    /// This asset of the newer release `version` replaces the executable.
    Install { version: String, asset: ReleaseAsset },
}

/// The error text when no asset fits the target.
pub open spec fn no_asset_text(target: Seq<char>) -> Seq<char> {
    "No release asset found for current target: `"@ + target + "`"@
}

/// Decides the self-update from the running version, the latest release's
/// tag and asset descriptions (`None` where the description lacks them),
/// and this machine's target. Up to date unless the latest version, the tag
/// without leading `v`s, comes after the running one; else the first asset
/// whose name holds the target is installed. Every asset description must
/// be complete.
pub fn plan_update(
    current: &str,
    tag: &Option<String>,
    assets: &Option<Vec<AssetFields>>,
    target: &str,
) -> (r: Result<UpdatePlan, Error>)
    ensures
        tag is None ==> (r matches Err(e) && e is Upgrade),
        tag matches Some(t) ==> !text_after(without_v(t@), current@) ==> (r matches Ok(
            UpdatePlan::UpToDate { version },
        ) && version@ == current@),
        tag matches Some(t) ==> text_after(without_v(t@), current@) ==> match assets {
            None => r matches Err(e) && e is Upgrade,
            Some(es) => if first_incomplete(es@, 0) < es@.len() {
                r matches Err(Error::Upgrade(m)) && m@ == missing_text(
                    es@[first_incomplete(es@, 0)],
                )
            } else if first_for_target(es@, target@, 0) < es@.len() {
                r matches Ok(UpdatePlan::Install { version, asset }) && version@ == without_v(t@)
                    && asset.name@ == es@[first_for_target(es@, target@, 0)].name->0@
                    && asset.download_url@ == es@[first_for_target(
                    es@,
                    target@,
                    0,
                )].download_url->0@
            } else {
                r matches Err(Error::Upgrade(m)) && m@ == no_asset_text(target@)
            },
        },
{
    let t = match tag {
        Some(t) => t,
        None => {
            return Err(Error::Upgrade("No tag_name found for latest release".to_owned()));
        },
    };
    let latest = version_of_tag(t.as_str());
    if !is_newer(latest.as_str(), current) {
        return Ok(UpdatePlan::UpToDate { version: current.to_owned() });
    }
    let es = match assets {
        Some(es) => es,
        None => {
            return Err(Error::Upgrade("No release assets found!".to_owned()));
        },
    };
    let parsed = parse_assets(es)?;
    let ghost p = parsed@;
    match select_asset(parsed, target) {
        Some(asset) => {
            proof {
                let k = choose|k: int|
                    0 <= k < p.len() && #[trigger] p[k] == asset && occurs_in(target@, asset.name@)
                        && forall|j: int| 0 <= j < k ==> !occurs_in(target@, p[j].name@);
                lemma_first_for_target(es@, target@, p, k);
            }
            Ok(UpdatePlan::Install { version: latest, asset })
        },
        None => {
            proof {
                lemma_no_target(es@, target@, p, 0);
            }
            let mut m = String::new();
            push_str(&mut m, "No release asset found for current target: `");
            push_str(&mut m, target);
            push_str(&mut m, "`");
            Err(Error::Upgrade(m))
        },
    }
}

proof fn lemma_first_for_target(
    es: Seq<AssetFields>,
    target: Seq<char>,
    p: Seq<ReleaseAsset>,
    k: int,
)
    requires
        p.len() == es.len(),
        forall|i: int| 0 <= i < es.len() ==> complete(#[trigger] es[i]),
        forall|i: int| 0 <= i < es.len() ==> #[trigger] p[i].name@ == es[i].name->0@,
        0 <= k < p.len(),
        occurs_in(target, p[k].name@),
        forall|j: int| 0 <= j < k ==> !occurs_in(target, p[j].name@),
    ensures
        first_for_target(es, target, 0) == k,
{
    lemma_first_for_target_from(es, target, p, k, 0);
}

proof fn lemma_first_for_target_from(
    es: Seq<AssetFields>,
    target: Seq<char>,
    p: Seq<ReleaseAsset>,
    k: int,
    i: int,
)
    requires
        p.len() == es.len(),
        forall|i: int| 0 <= i < es.len() ==> complete(#[trigger] es[i]),
        forall|i: int| 0 <= i < es.len() ==> #[trigger] p[i].name@ == es[i].name->0@,
        0 <= i <= k < p.len(),
        occurs_in(target, p[k].name@),
        forall|j: int| 0 <= j < k ==> !occurs_in(target, p[j].name@),
    ensures
        first_for_target(es, target, i) == k,
    decreases k - i,
{
    assert(complete(es[i]));
    assert(p[i].name@ == es[i].name->0@);
    if i < k {
        lemma_first_for_target_from(es, target, p, k, i + 1);
    }
}

proof fn lemma_no_target(es: Seq<AssetFields>, target: Seq<char>, p: Seq<ReleaseAsset>, i: int)
    requires
        p.len() == es.len(),
        forall|i: int| 0 <= i < es.len() ==> complete(#[trigger] es[i]),
        forall|i: int| 0 <= i < es.len() ==> #[trigger] p[i].name@ == es[i].name->0@,
        0 <= i <= es.len(),
        forall|j: int| 0 <= j < p.len() ==> !occurs_in(target, p[j].name@),
    ensures
        first_for_target(es, target, i) == es.len(),
    decreases es.len() - i,
{
    if i < es.len() {
        assert(complete(es[i]));
        assert(p[i].name@ == es[i].name->0@);
        lemma_no_target(es, target, p, i + 1);
    }
}

/// Whether `c` is white space, as Unicode defines it.
pub open spec fn is_white_space(c: char) -> bool {
    let v = c as u32;
    (0x9 <= v && v <= 0xd) || v == 0x20 || v == 0x85 || v == 0xa0 || v == 0x1680 || (0x2000 <= v
        && v <= 0x200a) || v == 0x2028 || v == 0x2029 || v == 0x202f || v == 0x205f || v == 0x3000
}

fn white_space(c: char) -> (r: bool)
    ensures
        r == is_white_space(c),
{
    let v = c as u32;
    (0x9 <= v && v <= 0xd) || v == 0x20 || v == 0x85 || v == 0xa0 || v == 0x1680 || (0x2000 <= v
        && v <= 0x200a) || v == 0x2028 || v == 0x2029 || v == 0x202f || v == 0x205f || v == 0x3000
}

/// Whether an answer agrees: once white space is trimmed from both ends,
/// it is `y` in either case.
pub open spec fn agrees(s: Seq<char>) -> bool {
    exists|i: int|
        0 <= i < s.len() && (s[i] == 'y' || s[i] == 'Y') && forall|j: int|
            0 <= j < s.len() && j != i ==> is_white_space(#[trigger] s[j])
}

/// Whether the user's answer to a confirmation prompt agrees.
pub fn is_affirmative(answer: &str) -> (r: bool)
    ensures
        r == agrees(answer@),
{
    let cs = chars_of(answer);
    let mut found: Option<usize> = None;
    let mut i: usize = 0;
    while i < cs.len()
        invariant
            cs@ == answer@,
            i <= cs@.len(),
            match found {
                Some(k) => k < i && (cs@[k as int] == 'y' || cs@[k as int] == 'Y') && forall|j: int|
                    0 <= j < i && j != k ==> is_white_space(#[trigger] cs@[j]),
                None => forall|j: int| 0 <= j < i ==> is_white_space(#[trigger] cs@[j]),
            },
        decreases cs@.len() - i,
    {
        let c = cs[i];
        if !white_space(c) {
            match found {
                Some(k) => {
                    proof {
                        assert forall|q: int|
                            0 <= q < answer@.len() && (answer@[q] == 'y' || answer@[q] == 'Y')
                                implies !(forall|j: int|
                            0 <= j < answer@.len() && j != q ==> is_white_space(
                                #[trigger] answer@[j],
                            )) by {
                            if q != i as int {
                                assert(!is_white_space(answer@[i as int]));
                            } else {
                                assert(!is_white_space(answer@[k as int]));
                            }
                        }
                    }
                    return false;
                },
                None => {
                    if c == 'y' || c == 'Y' {
                        found = Some(i);
                    } else {
                        proof {
                            assert forall|q: int|
                                0 <= q < answer@.len() && (answer@[q] == 'y' || answer@[q] == 'Y')
                                    implies !(forall|j: int|
                                0 <= j < answer@.len() && j != q ==> is_white_space(
                                    #[trigger] answer@[j],
                                )) by {
                                assert(q != i as int);
                                assert(!is_white_space(answer@[i as int]));
                            }
                        }
                        return false;
                    }
                },
            }
        }
        i = i + 1;
    }
    match found {
        Some(k) => {
            assert(0 <= k < answer@.len() && (answer@[k as int] == 'y' || answer@[k as int] == 'Y'));
            true
        },
        None => {
            proof {
                assert forall|q: int|
                    0 <= q < answer@.len() && (answer@[q] == 'y' || answer@[q] == 'Y') implies false by {
                    assert(is_white_space(answer@[q]));
                }
            }
            false
        },
    }
}

} // verus!
