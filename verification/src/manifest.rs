//! The cache-invalidation protocol over the asset-bundle-info manifest.
//!
//! The manifest maps resource paths to bundle metadata; the game client
//! compares hash, category, crc and file size to decide whether to refetch
//! a bundle.  A mod declares which resource paths it wants refetched and
//! for how long; the protocol rewrites exactly the matching entries.

use vstd::prelude::*;
use vstd::string::*;

use crate::strutil::{push_char, replace_all, spec_replace, str_eq, str_views};

verus! {

broadcast use vstd::string::group_string_axioms;

/// One bundle entry of the asset-bundle-info manifest.
#[derive(Debug, Clone, PartialEq)]
pub struct ABInfoBundle {
    pub bundle_name: String,
    pub cache_file_name: String,
    pub cache_directory_name: String,
    pub hash: String,
    pub category: String,
    pub crc: u32,
    pub file_size: u32,
    pub dependencies: Vec<String>,
    pub paths: Vec<String>,
    pub is_builtin: bool,
}

/// Mathematical view of [`ABInfoBundle`].
pub ghost struct BundleView {
    pub bundle_name: Seq<char>,
    pub cache_file_name: Seq<char>,
    pub cache_directory_name: Seq<char>,
    pub hash: Seq<char>,
    pub category: Seq<char>,
    pub crc: int,
    pub file_size: int,
    pub dependencies: Seq<Seq<char>>,
    pub paths: Seq<Seq<char>>,
    pub is_builtin: bool,
}

impl View for ABInfoBundle {
    type V = BundleView;

    open spec fn view(&self) -> BundleView {
        BundleView {
            bundle_name: self.bundle_name@,
            cache_file_name: self.cache_file_name@,
            cache_directory_name: self.cache_directory_name@,
            hash: self.hash@,
            category: self.category@,
            crc: self.crc as int,
            file_size: self.file_size as int,
            dependencies: str_views(self.dependencies@),
            paths: str_views(self.paths@),
            is_builtin: self.is_builtin,
        }
    }
}

/// The decrypted asset-bundle-info manifest: bundle entries keyed by
/// resource path.
#[derive(Debug, Clone, PartialEq)]
pub struct ABInfoRoot {
    pub version: String,
    pub os: String,
    pub bundles: Vec<(String, ABInfoBundle)>,
}

/// How long a declared invalidation stays in force.
#[derive(Debug, Clone, Copy, PartialEq, Eq, Structural)]
pub enum CacheInvalidDuration {
    /// Invalidated on the first reload only.
    InitiallyInvalid,
    /// Invalidated on every reload.
    PermanentlyInvalid,
}

/// One declared invalidation: the resource path to refetch and its
/// duration.
#[derive(Debug, Clone)]
pub struct InvalidateCacheEntry {
    pub resource_path: String,
    pub duration: CacheInvalidDuration,
}

/// Relies on `chrono::Local::now` with the `Datelike` and `Timelike`
/// accessors and `timestamp_subsec_millis`: the month is 1 to 12, the day
/// 1 to 31, the second 0 to 59, and the subsecond milliseconds below 1000
/// except during a leap second, when they stay below 2000.  Nothing else
/// can be promised of the wall clock.
#[verifier::external_body]
fn local_time_parts() -> (r: (i32, u32, u32, u32, u32))
    ensures
        1 <= r.1 <= 12,
        1 <= r.2 <= 31,
        r.3 <= 59,
        r.4 <= 1999,
{
    let now = chrono::Local::now();
    (
        chrono::Datelike::year(&now),
        chrono::Datelike::month(&now),
        chrono::Datelike::day(&now),
        chrono::Timelike::second(&now),
        now.timestamp_subsec_millis(),
    )
}

/// Relies on `rand::Rng::random_range` over a half-open `u32` range: the
/// result lies in the range; the range must be non-empty or the call
/// panics.
#[verifier::external_body]
fn random_in_range(lo: u32, hi: u32) -> (r: u32)
    requires
        lo < hi,
    ensures
        lo <= r < hi,
{
    rand::Rng::random_range(&mut rand::rng(), lo..hi)
}

/// The decimal digit character for one digit value.
pub open spec fn spec_digit_char(d: int) -> char {
    if d == 0 {
        '0'
    } else if d == 1 {
        '1'
    } else if d == 2 {
        '2'
    } else if d == 3 {
        '3'
    } else if d == 4 {
        '4'
    } else if d == 5 {
        '5'
    } else if d == 6 {
        '6'
    } else if d == 7 {
        '7'
    } else if d == 8 {
        '8'
    } else {
        '9'
    }
}

/// Whether a character is a decimal digit.
pub open spec fn is_digit_char(c: char) -> bool {
    c == '0' || c == '1' || c == '2' || c == '3' || c == '4' || c == '5' || c == '6' || c == '7'
        || c == '8' || c == '9'
}

/// The decimal digits of a number, most significant first.
pub open spec fn spec_digits(n: nat) -> Seq<char>
    decreases n,
{
    if n < 10 {
        seq![spec_digit_char(n as int)]
    } else {
        spec_digits(n / 10).push(spec_digit_char((n % 10) as int))
    }
}

/// Digits left-padded with zeros to at least `width` characters.
pub open spec fn spec_padded_decimal(n: nat, width: int) -> Seq<char> {
    let ds = spec_digits(n);
    if ds.len() >= width {
        ds
    } else {
        Seq::new((width - ds.len()) as nat, |i: int| '0') + ds
    }
}

/// A possibly negative number, zero-padded to `width` characters in total,
/// the sign included.
pub open spec fn spec_padded_signed(n: int, width: int) -> Seq<char> {
    if n >= 0 {
        spec_padded_decimal(n as nat, width)
    } else {
        seq!['-'] + spec_padded_decimal((-n) as nat, width - 1)
    }
}

/// The cache-busting hash written on an every-reload invalidation: the
/// fixed prefix followed by the zero-padded year, month, day, second and
/// millisecond of the run.
pub open spec fn spec_reload_hash(year: int, month: nat, day: nat, second: nat, millis: nat) -> Seq<
    char,
> {
    "FakePlaceholderHash"@ + spec_padded_signed(year, 4) + spec_padded_decimal(month, 2)
        + spec_padded_decimal(day, 2) + spec_padded_decimal(second, 2) + spec_padded_decimal(
        millis,
        3,
    )
}

/// Whether `h` is an every-reload cache-busting hash: the formatted value
/// for some wall-clock reading within the documented ranges.
pub open spec fn is_reload_hash(h: Seq<char>) -> bool {
    exists|y: int, mo: nat, d: nat, s: nat, ms: nat|
        1 <= mo <= 12 && 1 <= d <= 31 && s <= 59 && ms <= 1999 && h == #[trigger] spec_reload_hash(
            y,
            mo,
            d,
            s,
            ms,
        )
}

/// Every character of a digit string is a digit.
pub proof fn lemma_digits_are_digits(n: nat)
    ensures
        spec_digits(n).len() >= 1,
        forall|i: int| 0 <= i < spec_digits(n).len() ==> is_digit_char(#[trigger] spec_digits(n)[i]),
    decreases n,
{
    if n >= 10 {
        lemma_digits_are_digits(n / 10);
    }
}

/// A number below 10^k has at most `k` digits, for the small `k` used by
/// the hash format.
pub proof fn lemma_digits_len(n: nat)
    ensures
        n < 10 ==> spec_digits(n).len() == 1,
        n < 100 ==> spec_digits(n).len() <= 2,
        n < 1000 ==> spec_digits(n).len() <= 3,
        n < 10000 ==> spec_digits(n).len() <= 4,
    decreases n,
{
    if n >= 10 {
        lemma_digits_len(n / 10);
    }
}

/// Law: the hash of an every-reload invalidation has exactly the fixed
/// 19-character prefix followed by 13 decimal digits (4-digit year, then
/// 2-digit month, day and second, then 3-digit milliseconds), whenever the
/// parts lie in their nominal ranges.
pub proof fn lemma_reload_hash_shape(year: int, month: nat, day: nat, second: nat, millis: nat)
    requires
        0 <= year <= 9999,
        month <= 99,
        day <= 99,
        second <= 99,
        millis <= 999,
    ensures
        spec_reload_hash(year, month, day, second, millis).len() == 32,
        spec_reload_hash(year, month, day, second, millis).subrange(0, 19)
            == "FakePlaceholderHash"@,
        forall|i: int|
            19 <= i < 32 ==> is_digit_char(
                #[trigger] spec_reload_hash(year, month, day, second, millis)[i],
            ),
{
    reveal_strlit("FakePlaceholderHash");
    lemma_digits_len(year as nat);
    lemma_digits_len(month);
    lemma_digits_len(day);
    lemma_digits_len(second);
    lemma_digits_len(millis);
    lemma_digits_are_digits(year as nat);
    lemma_digits_are_digits(month);
    lemma_digits_are_digits(day);
    lemma_digits_are_digits(second);
    lemma_digits_are_digits(millis);
    let h = spec_reload_hash(year, month, day, second, millis);
    assert(spec_padded_signed(year, 4).len() == 4);
    assert(spec_padded_decimal(month, 2).len() == 2);
    assert(spec_padded_decimal(day, 2).len() == 2);
    assert(spec_padded_decimal(second, 2).len() == 2);
    assert(spec_padded_decimal(millis, 3).len() == 3);
    assert(h.subrange(0, 19) =~= "FakePlaceholderHash"@);
    assert forall|i: int| 19 <= i < 32 implies is_digit_char(h[i]) by {
        let y = spec_padded_signed(year, 4);
        let mo = spec_padded_decimal(month, 2);
        let d = spec_padded_decimal(day, 2);
        let s = spec_padded_decimal(second, 2);
        let ms = spec_padded_decimal(millis, 3);
        if i < 23 {
            assert(h[i] == y[i - 19]);
        } else if i < 25 {
            assert(h[i] == mo[i - 23]);
        } else if i < 27 {
            assert(h[i] == d[i - 25]);
        } else if i < 29 {
            assert(h[i] == s[i - 27]);
        } else {
            assert(h[i] == ms[i - 29]);
        }
    }
}

/// Builds the decimal digits of a number, most significant first.
fn digits_u32(n: u32) -> (r: Vec<char>)
    ensures
        r@ == spec_digits(n as nat),
    decreases n,
{
    let d = n % 10;
    let c: char = if d == 0 {
        '0'
    } else if d == 1 {
        '1'
    } else if d == 2 {
        '2'
    } else if d == 3 {
        '3'
    } else if d == 4 {
        '4'
    } else if d == 5 {
        '5'
    } else if d == 6 {
        '6'
    } else if d == 7 {
        '7'
    } else if d == 8 {
        '8'
    } else {
        '9'
    };
    if n < 10 {
        let mut v: Vec<char> = Vec::new();
        v.push(c);
        proof {
            assert(v@ =~= spec_digits(n as nat));
        }
        v
    } else {
        let mut v = digits_u32(n / 10);
        v.push(c);
        v
    }
}

/// Appends a number to the string, zero-padded to at least `width`
/// characters.
fn push_padded_u32(out: &mut String, n: u32, width: usize)
    ensures
        final(out)@ == old(out)@ + spec_padded_decimal(n as nat, width as int),
{
    let ds = digits_u32(n);
    let ghost padded = spec_padded_decimal(n as nat, width as int);
    let mut zeros: usize = 0;
    if ds.len() < width {
        zeros = width - ds.len();
    }
    let ghost mid = old(out)@;
    let mut z: usize = 0;
    while z < zeros
        invariant
            z <= zeros,
            zeros == (if ds@.len() < width {
                width - ds@.len()
            } else {
                0int
            }),
            out@ == mid + Seq::new(z as nat, |i: int| '0'),
        decreases zeros - z,
    {
        let ghost before = out@;
        push_char(out, '0');
        proof {
            assert(out@ =~= mid + Seq::new(z as nat + 1, |i: int| '0'));
        }
        z += 1;
    }
    let mut i: usize = 0;
    while i < ds.len()
        invariant
            i <= ds@.len(),
            ds@ == spec_digits(n as nat),
            zeros == (if ds@.len() < width {
                width - ds@.len()
            } else {
                0int
            }),
            out@ == mid + Seq::new(zeros as nat, |k: int| '0') + ds@.take(i as int),
        decreases ds@.len() - i,
    {
        push_char(out, ds[i]);
        proof {
            assert(out@ =~= mid + Seq::new(zeros as nat, |k: int| '0') + ds@.take(i as int + 1));
        }
        i += 1;
    }
    proof {
        assert(ds@.take(ds@.len() as int) =~= ds@);
        if ds@.len() >= width {
            assert(Seq::new(0nat, |k: int| '0') =~= Seq::<char>::empty());
            assert(mid + Seq::new(zeros as nat, |k: int| '0') + ds@ =~= mid + padded);
        } else {
            assert(mid + Seq::new(zeros as nat, |k: int| '0') + ds@ =~= mid + padded);
        }
    }
}

/// Formats the every-reload cache-busting hash from the run's wall-clock
/// parts.
pub fn format_reload_hash(year: i32, month: u32, day: u32, second: u32, millis: u32) -> (r: String)
    ensures
        r@ == spec_reload_hash(year as int, month as nat, day as nat, second as nat, millis as nat),
{
    let mut out = String::from_str("FakePlaceholderHash");
    let ghost prefix = "FakePlaceholderHash"@;
    if year >= 0 {
        push_padded_u32(&mut out, year as u32, 4);
    } else {
        push_char(&mut out, '-');
        let mag: u32 = ((-(year as i64)) as u32);
        push_padded_u32(&mut out, mag, 3);
        proof {
            assert(out@ =~= prefix + (seq!['-'] + spec_padded_decimal(mag as nat, 3)));
        }
    }
    proof {
        assert(out@ == prefix + spec_padded_signed(year as int, 4));
    }
    push_padded_u32(&mut out, month, 2);
    push_padded_u32(&mut out, day, 2);
    push_padded_u32(&mut out, second, 2);
    push_padded_u32(&mut out, millis, 3);
    proof {
        assert(out@ =~= spec_reload_hash(
            year as int,
            month as nat,
            day as nat,
            second as nat,
            millis as nat,
        ));
    }
    out
}

/// Rewrites one manifest entry so the client refetches it: the hash is
/// replaced by the sentinel (once-only) or a fresh time-stamped value
/// (every reload), the category is forced to load-at-launch, the primary
/// path's on-demand segment is rewritten accordingly, and crc and file
/// size are randomized into the range the client re-checks.
pub fn apply_invalidation(bundle: &mut ABInfoBundle, duration: &CacheInvalidDuration)
    requires
        old(bundle).paths@.len() > 0,
    ensures
        final(bundle).bundle_name == old(bundle).bundle_name,
        final(bundle).cache_file_name == old(bundle).cache_file_name,
        final(bundle).cache_directory_name == old(bundle).cache_directory_name,
        final(bundle).dependencies == old(bundle).dependencies,
        final(bundle).is_builtin == old(bundle).is_builtin,
        final(bundle).category@ == "StartApp"@,
        final(bundle).paths@.len() == old(bundle).paths@.len(),
        final(bundle).paths@[0]@ == spec_replace(
            old(bundle).paths@[0]@,
            "OnDemand"@,
            "StartApp"@,
        ),
        forall|i: int|
            1 <= i < old(bundle).paths@.len() ==> final(bundle).paths@[i] == old(bundle).paths@[i],
        500 <= final(bundle).crc < 10000,
        500 <= final(bundle).file_size < 10000,
        duration is InitiallyInvalid ==> final(bundle).hash@
            == "FakePlaceholderHash0000000000000"@,
        duration is PermanentlyInvalid ==> is_reload_hash(final(bundle).hash@),
{
    match duration {
        CacheInvalidDuration::PermanentlyInvalid => {
            let (year, month, day, second, millis) = local_time_parts();
            bundle.hash = format_reload_hash(year, month, day, second, millis);
            proof {
                assert(1 <= month as nat <= 12 && 1 <= day as nat <= 31 && second as nat <= 59
                    && millis as nat <= 1999 && bundle.hash@ == spec_reload_hash(
                    year as int,
                    month as nat,
                    day as nat,
                    second as nat,
                    millis as nat,
                ));
                assert(is_reload_hash(bundle.hash@));
            }
        },
        CacheInvalidDuration::InitiallyInvalid => {
            bundle.hash = String::from_str("FakePlaceholderHash0000000000000");
        },
    }
    bundle.category = String::from_str("StartApp");
    let new_path = replace_all(bundle.paths[0].as_str(), "OnDemand", "StartApp");
    let ghost paths_before = bundle.paths@;
    bundle.paths.remove(0);
    bundle.paths.insert(0, new_path);
    proof {
        assert forall|i: int| 1 <= i < paths_before.len() implies bundle.paths@[i]
            == paths_before[i] by {
            assert(bundle.paths@[i] == paths_before.remove(0)[i - 1]);
        }
    }
    bundle.crc = random_in_range(500, 10000);
    bundle.file_size = random_in_range(500, 10000);
}

/// How many directives name the given resource path.
pub open spec fn spec_count_matches(directives: Seq<InvalidateCacheEntry>, key: Seq<char>) -> nat
    decreases directives.len(),
{
    if directives.len() == 0 {
        0
    } else {
        spec_count_matches(directives.drop_last(), key) + (if directives.last().resource_path@
            == key {
            1nat
        } else {
            0nat
        })
    }
}

/// The duration of the last directive naming the given resource path.
pub open spec fn spec_last_duration(
    directives: Seq<InvalidateCacheEntry>,
    key: Seq<char>,
) -> Option<CacheInvalidDuration>
    decreases directives.len(),
{
    if directives.len() == 0 {
        None
    } else if directives.last().resource_path@ == key {
        Some(directives.last().duration)
    } else {
        spec_last_duration(directives.drop_last(), key)
    }
}

/// All resource-path keys of the manifest are distinct.
pub open spec fn bundles_keys_unique(bundles: Seq<(String, ABInfoBundle)>) -> bool {
    forall|i: int, k: int|
        0 <= i < k < bundles.len() ==> (#[trigger] bundles[i]).0@ != (#[trigger] bundles[k]).0@
}

/// Finds the entry whose resource path equals `key`, if any.
fn find_bundle(bundles: &Vec<(String, ABInfoBundle)>, key: &str) -> (r: Option<usize>)
    ensures
        match r {
            Some(i) => i < bundles@.len() && bundles@[i as int].0@ == key@,
            None => forall|j: int| 0 <= j < bundles@.len() ==> (#[trigger] bundles@[j]).0@ != key@,
        },
{
    let mut i: usize = 0;
    while i < bundles.len()
        invariant
            i <= bundles@.len(),
            forall|j: int| 0 <= j < i ==> (#[trigger] bundles@[j]).0@ != key@,
        decreases bundles@.len() - i,
    {
        if str_eq(bundles[i].0.as_str(), key) {
            return Some(i);
        }
        i += 1;
    }
    None
}

/// Rewrites every manifest entry named by a directive so the client
/// refetches it, and leaves every other entry untouched.
///
/// An entry named by no directive is byte-for-byte unchanged.  An entry
/// named by at least one directive gets the load-at-launch category, a crc
/// and file size in the re-check range, and the hash dictated by the last
/// directive that names it: the fixed sentinel for a once-only
/// invalidation, a fresh time-stamped value for an every-reload one.  An
/// entry named by exactly one directive has its primary path's on-demand
/// segment rewritten exactly once; repeated directives repeat the
/// rewriting, which never reintroduces the segment.  A directive that
/// names no entry changes nothing.
pub fn invalidate_cache(root: &mut ABInfoRoot, directives: &Vec<InvalidateCacheEntry>)
    requires
        bundles_keys_unique(old(root).bundles@),
        forall|i: int, j: int|
            0 <= i < directives@.len() && 0 <= j < old(root).bundles@.len() && (
            #[trigger] directives@[i]).resource_path@ == (#[trigger] old(root).bundles@[j]).0@
                ==> old(root).bundles@[j].1.paths@.len() > 0,
    ensures
        final(root).version == old(root).version,
        final(root).os == old(root).os,
        final(root).bundles@.len() == old(root).bundles@.len(),
        forall|k: int|
            0 <= k < old(root).bundles@.len() ==> (#[trigger] final(root).bundles@[k]).0 == old(root).bundles@[k].0,
        forall|k: int|
            0 <= k < old(root).bundles@.len() && spec_count_matches(
                directives@,
                old(root).bundles@[k].0@,
            ) == 0 ==> (#[trigger] final(root).bundles@[k]).1 == old(root).bundles@[k].1,
        forall|k: int|
            0 <= k < old(root).bundles@.len() && spec_count_matches(
                directives@,
                old(root).bundles@[k].0@,
            ) > 0 ==> {
                let b = (#[trigger] final(root).bundles@[k]).1;
                let b0 = old(root).bundles@[k].1;
                b.bundle_name == b0.bundle_name && b.cache_file_name == b0.cache_file_name
                    && b.cache_directory_name == b0.cache_directory_name && b.dependencies
                    == b0.dependencies && b.is_builtin == b0.is_builtin && b.category@
                    == "StartApp"@ && b.paths@.len() == b0.paths@.len() && 500 <= b.crc < 10000
                    && 500 <= b.file_size < 10000 && (forall|i: int|
                    1 <= i < b0.paths@.len() ==> b.paths@[i] == b0.paths@[i])
            },
        forall|k: int|
            0 <= k < old(root).bundles@.len() && spec_count_matches(
                directives@,
                old(root).bundles@[k].0@,
            ) == 1 ==> (#[trigger] final(root).bundles@[k]).1.paths@[0]@ == spec_replace(
                old(root).bundles@[k].1.paths@[0]@,
                "OnDemand"@,
                "StartApp"@,
            ),
        forall|k: int|
            0 <= k < old(root).bundles@.len() && spec_last_duration(
                directives@,
                old(root).bundles@[k].0@,
            ) == Some(CacheInvalidDuration::InitiallyInvalid) ==> (#[trigger] final(root).bundles@[k]).1.hash@ == "FakePlaceholderHash0000000000000"@,
        forall|k: int|
            0 <= k < old(root).bundles@.len() && spec_last_duration(
                directives@,
                old(root).bundles@[k].0@,
            ) == Some(CacheInvalidDuration::PermanentlyInvalid) ==> is_reload_hash(
                (#[trigger] final(root).bundles@[k]).1.hash@,
            ),
{
    let ghost olds = old(root).bundles@;
    let mut d: usize = 0;
    proof {
        assert(directives@.take(0) =~= Seq::<InvalidateCacheEntry>::empty());
    }
    while d < directives.len()
        invariant
            d <= directives@.len(),
            root.version == old(root).version,
            root.os == old(root).os,
            olds == old(root).bundles@,
            bundles_keys_unique(olds),
            forall|i: int, j: int|
                0 <= i < directives@.len() && 0 <= j < olds.len() && (
                #[trigger] directives@[i]).resource_path@ == (#[trigger] olds[j]).0@ ==> olds[j
                ].1.paths@.len() > 0,
            root.bundles@.len() == olds.len(),
            forall|k: int|
                0 <= k < olds.len() ==> (#[trigger] root.bundles@[k]).0 == olds[k].0,
            forall|k: int|
                0 <= k < olds.len() && spec_count_matches(directives@.take(d as int), olds[k].0@)
                    == 0 ==> (#[trigger] root.bundles@[k]).1 == olds[k].1,
            forall|k: int|
                0 <= k < olds.len() && spec_count_matches(directives@.take(d as int), olds[k].0@)
                    > 0 ==> {
                    let b = (#[trigger] root.bundles@[k]).1;
                    let b0 = olds[k].1;
                    b.bundle_name == b0.bundle_name && b.cache_file_name == b0.cache_file_name
                        && b.cache_directory_name == b0.cache_directory_name && b.dependencies
                        == b0.dependencies && b.is_builtin == b0.is_builtin && b.category@
                        == "StartApp"@ && b.paths@.len() == b0.paths@.len() && 500 <= b.crc
                        < 10000 && 500 <= b.file_size < 10000 && (forall|i: int|
                        1 <= i < b0.paths@.len() ==> b.paths@[i] == b0.paths@[i])
                },
            forall|k: int|
                0 <= k < olds.len() && spec_count_matches(directives@.take(d as int), olds[k].0@)
                    == 1 ==> (#[trigger] root.bundles@[k]).1.paths@[0]@ == spec_replace(
                    olds[k].1.paths@[0]@,
                    "OnDemand"@,
                    "StartApp"@,
                ),
            forall|k: int|
                0 <= k < olds.len() && spec_last_duration(directives@.take(d as int), olds[k].0@)
                    == Some(CacheInvalidDuration::InitiallyInvalid) ==> (#[trigger] root.bundles@[
                k]).1.hash@ == "FakePlaceholderHash0000000000000"@,
            forall|k: int|
                0 <= k < olds.len() && spec_last_duration(directives@.take(d as int), olds[k].0@)
                    == Some(CacheInvalidDuration::PermanentlyInvalid) ==> is_reload_hash(
                    (#[trigger] root.bundles@[k]).1.hash@,
                ),
        decreases directives@.len() - d,
    {
        let ghost taken = directives@.take(d as int);
        let ghost dir = directives@[d as int];
        proof {
            assert(directives@.take(d as int + 1).drop_last() =~= taken);
            assert(directives@.take(d as int + 1).last() == dir);
        }
        let key = &directives[d].resource_path;
        match find_bundle(&root.bundles, key.as_str()) {
            Some(idx) => {
                let ghost bidx = idx as int;
                let ghost pre = root.bundles@;
                let mut entry = root.bundles.remove(idx);
                apply_invalidation(&mut entry.1, &directives[d].duration);
                root.bundles.insert(idx, entry);
                proof {
                    assert(root.bundles@ =~= pre.update(bidx, (pre[bidx].0, entry.1)));
                    assert(root.bundles@[bidx].1 == entry.1);
                    assert forall|k: int| 0 <= k < olds.len() && k != bidx implies (
                    #[trigger] root.bundles@[k]) == pre[k] by {}
                    assert forall|k: int| 0 <= k < olds.len() && k != bidx implies olds[k].0@
                        != dir.resource_path@ by {
                        if k < bidx {
                            assert(olds[k].0@ != olds[bidx].0@);
                        } else {
                            assert(olds[bidx].0@ != olds[k].0@);
                        }
                    }
                    assert forall|k: int|
                        0 <= k < olds.len() implies spec_count_matches(
                        directives@.take(d as int + 1),
                        #[trigger] olds[k].0@,
                    ) == spec_count_matches(taken, olds[k].0@) + (if olds[k].0@
                        == dir.resource_path@ {
                        1int
                    } else {
                        0int
                    }) && spec_last_duration(directives@.take(d as int + 1), olds[k].0@) == (if olds[
                        k].0@ == dir.resource_path@ {
                        Some(dir.duration)
                    } else {
                        spec_last_duration(taken, olds[k].0@)
                    }) by {}
                    // The matched entry: its pre-iteration state relates to
                    // its starting state, so the freshly applied rewrite
                    // establishes every clause for it.
                    assert(spec_count_matches(taken, olds[bidx].0@) == 0 ==> pre[bidx].1 == olds[
                        bidx].1);
                    assert(olds[bidx].1.paths@.len() > 0);
                    assert(olds[bidx].0@ == dir.resource_path@);
                    assert(spec_last_duration(directives@.take(d as int + 1), olds[bidx].0@)
                        == Some(dir.duration));
                    assert forall|k: int|
                        0 <= k < olds.len() && spec_last_duration(
                        directives@.take(d as int + 1),
                        olds[k].0@,
                    ) == Some(CacheInvalidDuration::InitiallyInvalid) implies (
                    #[trigger] root.bundles@[k]).1.hash@
                        == "FakePlaceholderHash0000000000000"@ by {
                        if k == bidx {
                            assert(dir.duration == CacheInvalidDuration::InitiallyInvalid);
                            assert(entry.1.hash@ == "FakePlaceholderHash0000000000000"@);
                        } else {
                            assert(root.bundles@[k] == pre[k]);
                            assert(spec_last_duration(taken, olds[k].0@) == Some(
                                CacheInvalidDuration::InitiallyInvalid,
                            ));
                        }
                    }
                }
            },
            None => {
                proof {
                    assert forall|k: int| 0 <= k < olds.len() implies (#[trigger] olds[k]).0@
                        != dir.resource_path@ by {
                        assert(root.bundles@[k].0@ != dir.resource_path@);
                    }
                    assert forall|k: int|
                        0 <= k < olds.len() implies spec_count_matches(
                        directives@.take(d as int + 1),
                        #[trigger] olds[k].0@,
                    ) == spec_count_matches(taken, olds[k].0@) && spec_last_duration(
                        directives@.take(d as int + 1),
                        olds[k].0@,
                    ) == spec_last_duration(taken, olds[k].0@) by {}
                }
            },
        }
        d += 1;
    }
    proof {
        assert(directives@.take(directives@.len() as int) =~= directives@);
    }
}

} // verus!
