//! Device enumeration: which devices are listed, how they are named, and
//! which one is selected by index or by preference.

use vstd::prelude::*;
use crate::buffers::BufferDescription;
use crate::context::{checksum_for, properties_for, ContextManager, CtxWrapper};
use crate::error::GpuError;
use crate::text::{contains_chars, contains_seq, from_chars, lower_seq, to_chars, to_lower};
use crate::unit::OclWrapper;

verus! {

/// What the driver reported of one device. A query that failed carries the
/// native status code.
#[derive(Debug, PartialEq, Eq)]
pub struct DeviceEntry {
    pub name: Result<String, i32>,
    pub vendor: Result<String, i32>,
    pub version: Result<String, i32>,
    /// Whether the device reports the GPU type.
    pub is_gpu: bool,
}

/// One platform with its GPU-class and accelerator-class devices, in the
/// order the driver lists them.
#[derive(Debug, PartialEq, Eq)]
pub struct PlatformEntry {
    pub name: Result<String, i32>,
    pub devices: Vec<DeviceEntry>,
}

/// The selected device's context together with its two display names.
#[derive(Clone, Debug, PartialEq, Eq)]
pub struct ContextChoice {
    pub context: CtxWrapper,
    /// `"<vendor> <device>"`.
    pub name: String,
    /// `"[OpenCL] <platform> <device>"`.
    pub list_name: String,
}

/// The reported text, or the empty text when the query failed.
pub open spec fn text_or_empty(r: Result<String, i32>) -> Seq<char> {
    match r {
        Ok(s) => s@,
        Err(_) => Seq::empty(),
    }
}

/// `"<platform> <device>: <version>"`, when all three were reported.
pub open spec fn listing_name(p: PlatformEntry, d: DeviceEntry) -> Option<Seq<char>> {
    match (p.name, d.name, d.version) {
        (Ok(platform), Ok(device), Ok(version)) => Some(
            platform@ + seq![' '] + device@ + seq![':', ' '] + version@,
        ),
        _ => None,
    }
}

/// Substrings that mark known non-functional software devices.
pub open spec fn denylist() -> Seq<Seq<char>> {
    seq!["Microsoft Basic Render Driver"@]
}

/// The name contains a denylisted substring.
pub open spec fn is_denylisted(name: Seq<char>) -> bool {
    exists|k: int| 0 <= k < denylist().len() && contains_seq(name, #[trigger] denylist()[k])
}

/// The device is listed: it has a listing name, and that name is not denylisted.
pub open spec fn is_listed(p: PlatformEntry, d: DeviceEntry) -> bool {
    match listing_name(p, d) {
        Some(name) => !is_denylisted(name),
        None => false,
    }
}

/// `(i, j)` names device `j` of platform `i`.
pub open spec fn valid_position(platforms: Seq<PlatformEntry>, i: int, j: int) -> bool {
    0 <= i < platforms.len() && 0 <= j < platforms[i].devices@.len()
}

/// Position `(a, b)` comes before `(i, j)` in enumeration order.
pub open spec fn precedes(a: int, b: int, i: int, j: int) -> bool {
    a < i || (a == i && b < j)
}

/// Positions of the listed devices among the first `upto` devices of platform `i`.
pub open spec fn positions_in_platform(platforms: Seq<PlatformEntry>, i: int, upto: int) -> Seq<
    (int, int),
>
    decreases upto,
{
    if upto <= 0 {
        Seq::empty()
    } else {
        let rest = positions_in_platform(platforms, i, upto - 1);
        if is_listed(platforms[i], platforms[i].devices@[upto - 1]) {
            rest.push((i, upto - 1))
        } else {
            rest
        }
    }
}

/// Positions of the listed devices of the first `upto` platforms.
pub open spec fn positions_upto(platforms: Seq<PlatformEntry>, upto: int) -> Seq<(int, int)>
    decreases upto,
{
    if upto <= 0 {
        Seq::empty()
    } else {
        positions_upto(platforms, upto - 1) + positions_in_platform(
            platforms,
            upto - 1,
            platforms[upto - 1].devices@.len() as int,
        )
    }
}

/// Positions of all listed devices, in enumeration order.
pub open spec fn listed_positions(platforms: Seq<PlatformEntry>) -> Seq<(int, int)> {
    positions_upto(platforms, platforms.len() as int)
}

/// The listing name of the device at a listed position.
pub open spec fn listing_at(platforms: Seq<PlatformEntry>, pos: (int, int)) -> Seq<char> {
    listing_name(platforms[pos.0], platforms[pos.0].devices@[pos.1])->0
}

/// `"<platform> <device>"`, with empty text for a name that was not reported.
pub open spec fn combined_name(p: PlatformEntry, d: DeviceEntry) -> Seq<char> {
    text_or_empty(p.name) + seq![' '] + text_or_empty(d.name)
}

/// Keywords of preferred devices, most preferred first.
pub open spec fn preferences() -> Seq<Seq<char>> {
    seq![
        "nvidia"@,
        "radeon"@,
        "geforce"@,
        "firepro"@,
        "accelerated parallel processing"@,
        "graphics"@,
    ]
}

/// The device meets the criterion: with a keyword, its lower-cased combined
/// name contains the keyword; without one, it reports the GPU type.
pub open spec fn entry_satisfies(p: PlatformEntry, d: DeviceEntry, keyword: Option<Seq<char>>) -> bool {
    match keyword {
        Some(word) => contains_seq(lower_seq(combined_name(p, d)), word),
        None => d.is_gpu,
    }
}

/// The device at `(i, j)` meets the criterion.
pub open spec fn satisfies(
    platforms: Seq<PlatformEntry>,
    keyword: Option<Seq<char>>,
    i: int,
    j: int,
) -> bool {
    entry_satisfies(platforms[i], platforms[i].devices@[j], keyword)
}

/// `(i, j)` is the first position, in enumeration order, that meets the criterion.
pub open spec fn first_position(
    platforms: Seq<PlatformEntry>,
    keyword: Option<Seq<char>>,
    i: int,
    j: int,
) -> bool {
    &&& valid_position(platforms, i, j)
    &&& satisfies(platforms, keyword, i, j)
    &&& forall|a: int, b: int|
        valid_position(platforms, a, b) && precedes(a, b, i, j) ==> !#[trigger] satisfies(
            platforms,
            keyword,
            a,
            b,
        )
}

/// No device meets the criterion.
pub open spec fn no_position(platforms: Seq<PlatformEntry>, keyword: Option<Seq<char>>) -> bool {
    forall|a: int, b: int|
        valid_position(platforms, a, b) ==> !#[trigger] satisfies(platforms, keyword, a, b)
}

/// No device matches any of the first `upto` preference keywords.
pub open spec fn no_preference_below(platforms: Seq<PlatformEntry>, upto: int) -> bool {
    forall|m: int| 0 <= m < upto ==> no_position(platforms, Some(#[trigger] preferences()[m]))
}

/// `(i, j)` is the first device matching preference keyword `k`, and no
/// device matches a more preferred keyword.
pub open spec fn selected_by_keyword(platforms: Seq<PlatformEntry>, k: int, i: int, j: int) -> bool {
    &&& 0 <= k < preferences().len()
    &&& no_preference_below(platforms, k)
    &&& first_position(platforms, Some(preferences()[k]), i, j)
}

/// No device matches any preference keyword, and `(i, j)` is the first
/// device reporting the GPU type.
pub open spec fn selected_by_type(platforms: Seq<PlatformEntry>, i: int, j: int) -> bool {
    &&& no_preference_below(platforms, preferences().len() as int)
    &&& first_position(platforms, None, i, j)
}

/// `(i, j)` is the automatically selected device: the first device matching
/// the most preferred keyword that any device matches, or, when no keyword
/// matches any device, the first device reporting the GPU type.
pub open spec fn selected(platforms: Seq<PlatformEntry>, i: int, j: int) -> bool {
    ||| exists|k: int| #[trigger] selected_by_keyword(platforms, k, i, j)
    ||| selected_by_type(platforms, i, j)
}

/// No device qualifies for automatic selection.
pub open spec fn nothing_qualifies(platforms: Seq<PlatformEntry>) -> bool {
    no_preference_below(platforms, preferences().len() as int) && no_position(platforms, None)
}

/// The first query, among platform name, device vendor and device name, that
/// failed, as the error it gives rise to.
pub open spec fn name_failure(p: PlatformEntry, d: DeviceEntry) -> Option<GpuError> {
    match (p.name, d.vendor, d.name) {
        (Err(code), _, _) => Some(GpuError::DeviceApiFailure(code)),
        (Ok(_), Err(code), _) => Some(GpuError::DeviceApiFailure(code)),
        (Ok(_), Ok(_), Err(code)) => Some(GpuError::DeviceApiFailure(code)),
        (Ok(_), Ok(_), Ok(_)) => None,
    }
}

/// `"<vendor> <device>"`.
pub open spec fn display_name(d: DeviceEntry) -> Seq<char> {
    text_or_empty(d.vendor) + seq![' '] + text_or_empty(d.name)
}

/// `"[OpenCL] <platform> <device>"`.
pub open spec fn list_name(p: PlatformEntry, d: DeviceEntry) -> Seq<char> {
    "[OpenCL] "@ + text_or_empty(p.name) + seq![' '] + text_or_empty(d.name)
}

/// The context record for the device at `(i, j)`, serving `buffers`.
pub open spec fn context_matches(
    ctx: CtxWrapper,
    platforms: Seq<PlatformEntry>,
    i: int,
    j: int,
    buffers: Option<&BufferDescription>,
) -> bool {
    &&& ctx.platform == i
    &&& ctx.device == j
    &&& ctx.context == properties_for(buffers)
    &&& ctx.surface_checksum == checksum_for(buffers)
    &&& match ctx.device_name {
        Some(name) => platforms[i].devices@[j].name == Ok::<String, i32>(name),
        None => platforms[i].devices@[j].name is Err,
    }
}

fn chars_or_empty(r: &Result<String, i32>) -> (v: Vec<char>)
    ensures
        v@ == text_or_empty(*r),
{
    match r {
        Ok(s) => to_chars(s.as_str()),
        Err(_) => Vec::new(),
    }
}

fn listing_chars(p: &PlatformEntry, d: &DeviceEntry) -> (name: Option<Vec<char>>)
    ensures
        match name {
            Some(v) => listing_name(*p, *d) == Some(v@),
            None => listing_name(*p, *d) is None,
        },
{
    match (&p.name, &d.name, &d.version) {
        (Ok(platform), Ok(device), Ok(version)) => {
            let mut v = to_chars(platform.as_str());
            v.push(' ');
            let device_chars = to_chars(device.as_str());
            v.extend_from_slice(device_chars.as_slice());
            v.push(':');
            v.push(' ');
            let version_chars = to_chars(version.as_str());
            v.extend_from_slice(version_chars.as_slice());
            assert(v@ =~= platform@ + seq![' '] + device@ + seq![':', ' '] + version@);
            Some(v)
        },
        _ => None,
    }
}

/// Whether a name contains a denylisted substring.
pub fn denylisted(name: &Vec<char>) -> (hit: bool)
    ensures
        hit == is_denylisted(name@),
{
    let entry = to_chars("Microsoft Basic Render Driver");
    let hit = contains_chars(name, &entry);
    assert(denylist()[0] == entry@);
    hit
}

/// The listing name of a device, unless it has none or is denylisted.
fn listed_chars(p: &PlatformEntry, d: &DeviceEntry) -> (name: Option<Vec<char>>)
    ensures
        name is Some == is_listed(*p, *d),
        name is Some ==> listing_name(*p, *d) == Some(name->0@),
{
    match listing_chars(p, d) {
        Some(v) => {
            if denylisted(&v) {
                None
            } else {
                Some(v)
            }
        },
        None => None,
    }
}

fn combined_chars(p: &PlatformEntry, d: &DeviceEntry) -> (v: Vec<char>)
    ensures
        v@ == combined_name(*p, *d),
{
    let mut v = chars_or_empty(&p.name);
    v.push(' ');
    let device_chars = chars_or_empty(&d.name);
    v.extend_from_slice(device_chars.as_slice());
    assert(v@ =~= combined_name(*p, *d));
    v
}

/// The characters of an optional keyword.
pub open spec fn keyword_seq(keyword: Option<&Vec<char>>) -> Option<Seq<char>> {
    match keyword {
        Some(word) => Some(word@),
        None => None,
    }
}

fn device_satisfies(p: &PlatformEntry, d: &DeviceEntry, keyword: Option<&Vec<char>>) -> (hit: bool)
    ensures
        hit == entry_satisfies(*p, *d, keyword_seq(keyword)),
{
    match keyword {
        Some(word) => {
            let name = combined_chars(p, d);
            let lowered = to_lower(&name);
            contains_chars(&lowered, word)
        },
        None => d.is_gpu,
    }
}

/// The first device, in enumeration order, that meets the criterion.
fn find_first(platforms: &Vec<PlatformEntry>, keyword: Option<&Vec<char>>) -> (found: Option<
    (usize, usize),
>)
    ensures
        match found {
            Some((i, j)) => first_position(platforms@, keyword_seq(keyword), i as int, j as int),
            None => no_position(platforms@, keyword_seq(keyword)),
        },
{
    let ghost word = keyword_seq(keyword);
    let mut i: usize = 0;
    while i < platforms.len()
        invariant
            i <= platforms.len(),
            word == keyword_seq(keyword),
            forall|a: int, b: int|
                valid_position(platforms@, a, b) && a < i ==> !#[trigger] satisfies(
                    platforms@,
                    word,
                    a,
                    b,
                ),
        decreases platforms.len() - i,
    {
        let p = &platforms[i];
        let mut j: usize = 0;
        while j < p.devices.len()
            invariant
                i < platforms.len(),
                *p == platforms@[i as int],
                j <= p.devices.len(),
                word == keyword_seq(keyword),
                forall|a: int, b: int|
                    valid_position(platforms@, a, b) && a < i ==> !#[trigger] satisfies(
                        platforms@,
                        word,
                        a,
                        b,
                    ),
                forall|b: int| 0 <= b < j ==> !#[trigger] satisfies(platforms@, word, i as int, b),
            decreases p.devices.len() - j,
        {
            if device_satisfies(p, &p.devices[j], keyword) {
                return Some((i, j));
            }
            j += 1;
        }
        i += 1;
    }
    None
}

fn preference_words() -> (words: Vec<Vec<char>>)
    ensures
        words.len() == preferences().len(),
        forall|k: int| 0 <= k < words.len() ==> (#[trigger] words[k])@ == preferences()[k],
{
    let mut words: Vec<Vec<char>> = Vec::new();
    words.push(to_chars("nvidia"));
    words.push(to_chars("radeon"));
    words.push(to_chars("geforce"));
    words.push(to_chars("firepro"));
    words.push(to_chars("accelerated parallel processing"));
    words.push(to_chars("graphics"));
    words
}

/// The automatically selected device, if any device qualifies.
pub fn select_device(platforms: &Vec<PlatformEntry>) -> (choice: Option<(usize, usize)>)
    ensures
        match choice {
            Some((i, j)) => selected(platforms@, i as int, j as int),
            None => nothing_qualifies(platforms@),
        },
{
    let words = preference_words();
    let mut k: usize = 0;
    while k < words.len()
        invariant
            k <= words.len(),
            words.len() == preferences().len(),
            forall|m: int| 0 <= m < words.len() ==> (#[trigger] words[m])@ == preferences()[m],
            no_preference_below(platforms@, k as int),
        decreases words.len() - k,
    {
        let found = find_first(platforms, Some(&words[k]));
        if let Some((i, j)) = found {
            assert(selected_by_keyword(platforms@, k as int, i as int, j as int));
            return Some((i, j));
        }
        assert(no_position(platforms@, Some(preferences()[k as int])));
        k += 1;
    }
    find_first(platforms, None)
}

/// The position of the listed device with the given index, counting listed
/// devices in enumeration order.
pub fn find_listed(platforms: &Vec<PlatformEntry>, index: usize) -> (found: Option<(usize, usize)>)
    ensures
        match found {
            Some((i, j)) => index < listed_positions(platforms@).len() && listed_positions(
                platforms@,
            )[index as int] == (i as int, j as int) && valid_position(
                platforms@,
                i as int,
                j as int,
            ) && is_listed(platforms@[i as int], platforms@[i as int].devices@[j as int]),
            None => index >= listed_positions(platforms@).len(),
        },
{
    let mut found: Option<(usize, usize)> = None;
    let mut count: usize = 0;
    let mut i: usize = 0;
    while i < platforms.len()
        invariant
            i <= platforms.len(),
            found is None ==> count == positions_upto(platforms@, i as int).len() && count
                <= index,
            found matches Some((a, b)) ==> index < positions_upto(platforms@, i as int).len()
                && positions_upto(platforms@, i as int)[index as int] == (a as int, b as int),
            found matches Some((a, b)) ==> valid_position(platforms@, a as int, b as int)
                && is_listed(platforms@[a as int], platforms@[a as int].devices@[b as int]),
        decreases platforms.len() - i,
    {
        let p = &platforms[i];
        let ghost before = positions_upto(platforms@, i as int);
        let mut j: usize = 0;
        while j < p.devices.len()
            invariant
                i < platforms.len(),
                *p == platforms@[i as int],
                j <= p.devices.len(),
                before == positions_upto(platforms@, i as int),
                found is None ==> count == (before + positions_in_platform(
                    platforms@,
                    i as int,
                    j as int,
                )).len() && count <= index,
                found matches Some((a, b)) ==> index < (before + positions_in_platform(
                    platforms@,
                    i as int,
                    j as int,
                )).len() && (before + positions_in_platform(platforms@, i as int, j as int))[index as int]
                    == (a as int, b as int),
                found matches Some((a, b)) ==> valid_position(platforms@, a as int, b as int)
                    && is_listed(platforms@[a as int], platforms@[a as int].devices@[b as int]),
            decreases p.devices.len() - j,
        {
            let listed = listed_chars(p, &p.devices[j]);
            if found.is_none() && listed.is_some() {
                if count == index {
                    found = Some((i, j));
                } else {
                    count += 1;
                }
            }
            j += 1;
        }
        assert(positions_upto(platforms@, i + 1) == before + positions_in_platform(
            platforms@,
            i as int,
            p.devices@.len() as int,
        ));
        i += 1;
    }
    found
}

/// `(i, j)` names a listed device.
pub open spec fn listed_at(platforms: Seq<PlatformEntry>, i: int, j: int) -> bool {
    valid_position(platforms, i, j) && is_listed(platforms[i], platforms[i].devices@[j])
}

/// Every entry is a listed device, and the entries are in strictly
/// increasing enumeration order.
pub open spec fn ordered_listed(platforms: Seq<PlatformEntry>, positions: Seq<(int, int)>) -> bool {
    &&& forall|k: int|
        0 <= k < positions.len() ==> listed_at(
            platforms,
            (#[trigger] positions[k]).0,
            positions[k].1,
        )
    &&& forall|k: int, m: int|
        0 <= k < m < positions.len() ==> precedes(
            (#[trigger] positions[k]).0,
            positions[k].1,
            (#[trigger] positions[m]).0,
            positions[m].1,
        )
}

proof fn lemma_positions_in_platform(platforms: Seq<PlatformEntry>, i: int, upto: int)
    requires
        0 <= i < platforms.len(),
        0 <= upto <= platforms[i].devices@.len(),
    ensures
        ordered_listed(platforms, positions_in_platform(platforms, i, upto)),
        forall|k: int|
            0 <= k < positions_in_platform(platforms, i, upto).len() ==> (
            #[trigger] positions_in_platform(platforms, i, upto)[k]).0 == i
                && positions_in_platform(platforms, i, upto)[k].1 < upto,
        forall|j: int|
            0 <= j < upto && #[trigger] listed_at(platforms, i, j) ==> positions_in_platform(
                platforms,
                i,
                upto,
            ).contains((i, j)),
    decreases upto,
{
    if upto > 0 {
        lemma_positions_in_platform(platforms, i, upto - 1);
        let rest = positions_in_platform(platforms, i, upto - 1);
        let all = positions_in_platform(platforms, i, upto);
        if is_listed(platforms[i], platforms[i].devices@[upto - 1]) {
            assert(all == rest.push((i, upto - 1)));
            assert(all[rest.len() as int] == (i, upto - 1));
            assert forall|j: int| 0 <= j < upto && #[trigger] listed_at(platforms, i, j) implies all.contains(
                (i, j),
            ) by {
                if j < upto - 1 {
                    let k = choose|k: int| 0 <= k < rest.len() && rest[k] == (i, j);
                    assert(all[k] == (i, j));
                }
            }
        }
    }
}

proof fn lemma_positions_upto(platforms: Seq<PlatformEntry>, upto: int)
    requires
        0 <= upto <= platforms.len(),
    ensures
        ordered_listed(platforms, positions_upto(platforms, upto)),
        forall|k: int|
            0 <= k < positions_upto(platforms, upto).len() ==> (#[trigger] positions_upto(
                platforms,
                upto,
            )[k]).0 < upto,
        forall|i: int, j: int|
            i < upto && #[trigger] listed_at(platforms, i, j) ==> positions_upto(
                platforms,
                upto,
            ).contains((i, j)),
    decreases upto,
{
    if upto > 0 {
        let i = upto - 1;
        let n = platforms[i].devices@.len() as int;
        lemma_positions_upto(platforms, i);
        lemma_positions_in_platform(platforms, i, n);
        let head = positions_upto(platforms, i);
        let tail = positions_in_platform(platforms, i, n);
        let all = positions_upto(platforms, upto);
        assert(all == head + tail);
        assert forall|k: int| 0 <= k < all.len() implies listed_at(
            platforms,
            (#[trigger] all[k]).0,
            all[k].1,
        ) && all[k].0 < upto by {
            if k < head.len() {
                assert(all[k] == head[k]);
            } else {
                assert(all[k] == tail[k - head.len()]);
            }
        }
        assert forall|k: int, m: int| 0 <= k < m < all.len() implies precedes(
            (#[trigger] all[k]).0,
            all[k].1,
            (#[trigger] all[m]).0,
            all[m].1,
        ) by {
            if m < head.len() {
                assert(all[k] == head[k] && all[m] == head[m]);
            } else if k < head.len() {
                assert(all[k] == head[k] && all[m] == tail[m - head.len()]);
            } else {
                assert(all[k] == tail[k - head.len()] && all[m] == tail[m - head.len()]);
            }
        }
        assert forall|a: int, b: int| a < upto && #[trigger] listed_at(platforms, a, b) implies all.contains(
            (a, b),
        ) by {
            if a < i {
                let k = choose|k: int| 0 <= k < head.len() && head[k] == (a, b);
                assert(all[k] == (a, b));
            } else {
                let k = choose|k: int| 0 <= k < tail.len() && tail[k] == (a, b);
                assert(all[head.len() + k] == (a, b));
            }
        }
    }
}

/// The listed positions are exactly the positions of the listed devices, each
/// once, in enumeration order.
pub proof fn lemma_listed_positions_exact(platforms: Seq<PlatformEntry>)
    ensures
        ordered_listed(platforms, listed_positions(platforms)),
        forall|i: int, j: int| #[trigger]
            listed_at(platforms, i, j) ==> listed_positions(platforms).contains((i, j)),
{
    lemma_positions_upto(platforms, platforms.len() as int);
}

/// No name of the listing contains a denylisted substring, whatever the
/// platforms and devices are.
pub proof fn lemma_listing_has_no_denylisted_name(platforms: Seq<PlatformEntry>, k: int)
    requires
        0 <= k < listed_positions(platforms).len(),
    ensures
        !is_denylisted(listing_at(platforms, listed_positions(platforms)[k])),
{
    lemma_listed_positions_exact(platforms);
    let pos = listed_positions(platforms)[k];
    assert(listed_at(platforms, pos.0, pos.1));
}

/// The context record and display names of the device at `(i, j)`.
fn describe_choice(
    platforms: &Vec<PlatformEntry>,
    i: usize,
    j: usize,
    buffers: Option<&BufferDescription>,
) -> (r: Result<ContextChoice, GpuError>)
    requires
        valid_position(platforms@, i as int, j as int),
    ensures
        match r {
            Ok(choice) => {
                &&& name_failure(platforms@[i as int], platforms@[i as int].devices@[j as int])
                    is None
                &&& context_matches(choice.context, platforms@, i as int, j as int, buffers)
                &&& choice.name@ == display_name(platforms@[i as int].devices@[j as int])
                &&& choice.list_name@ == list_name(
                    platforms@[i as int],
                    platforms@[i as int].devices@[j as int],
                )
            },
            Err(e) => name_failure(platforms@[i as int], platforms@[i as int].devices@[j as int])
                == Some(e),
        },
{
    let p = &platforms[i];
    let d = &p.devices[j];
    match (&p.name, &d.vendor, &d.name) {
        (Err(code), _, _) => Err(GpuError::DeviceApiFailure(*code)),
        (Ok(_), Err(code), _) => Err(GpuError::DeviceApiFailure(*code)),
        (Ok(_), Ok(_), Err(code)) => Err(GpuError::DeviceApiFailure(*code)),
        (Ok(platform), Ok(vendor), Ok(device)) => {
            let device_chars = to_chars(device.as_str());
            let mut name = to_chars(vendor.as_str());
            name.push(' ');
            name.extend_from_slice(device_chars.as_slice());
            assert(name@ =~= display_name(*d));
            let mut listed = to_chars("[OpenCL] ");
            let platform_chars = to_chars(platform.as_str());
            listed.extend_from_slice(platform_chars.as_slice());
            listed.push(' ');
            listed.extend_from_slice(device_chars.as_slice());
            assert(listed@ =~= list_name(*p, *d));
            let surface_checksum: u32 = match buffers {
                Some(b) => b.buffer_source.get_checksum(),
                None => 0,
            };
            Ok(
                ContextChoice {
                    context: CtxWrapper {
                        device: j,
                        context: OclWrapper::get_properties(buffers),
                        platform: i,
                        device_name: Some(device.clone()),
                        surface_checksum,
                    },
                    name: from_chars(&name),
                    list_name: from_chars(&listed),
                },
            )
        },
    }
}

/// The selected device is a device of the enumeration.
pub proof fn lemma_selected_is_valid(platforms: Seq<PlatformEntry>, i: int, j: int)
    requires
        selected(platforms, i, j),
    ensures
        valid_position(platforms, i, j),
{
}

/// At most one device is the automatically selected one.
pub proof fn lemma_selected_is_unique(platforms: Seq<PlatformEntry>, i: int, j: int, a: int, b: int)
    requires
        selected(platforms, i, j),
        selected(platforms, a, b),
    ensures
        i == a,
        j == b,
{
    if exists|k: int| #[trigger] selected_by_keyword(platforms, k, i, j) {
        let k1 = choose|k: int| #[trigger] selected_by_keyword(platforms, k, i, j);
        assert(satisfies(platforms, Some(preferences()[k1]), i, j));
        if exists|k: int| #[trigger] selected_by_keyword(platforms, k, a, b) {
            let k2 = choose|k: int| #[trigger] selected_by_keyword(platforms, k, a, b);
            assert(satisfies(platforms, Some(preferences()[k2]), a, b));
            if k1 < k2 {
                assert(no_position(platforms, Some(preferences()[k1])));
            } else if k2 < k1 {
                assert(no_position(platforms, Some(preferences()[k2])));
            }
        } else {
            assert(no_position(platforms, Some(preferences()[k1])));
        }
    } else {
        assert(satisfies(platforms, None, i, j));
        if exists|k: int| #[trigger] selected_by_keyword(platforms, k, a, b) {
            let k2 = choose|k: int| #[trigger] selected_by_keyword(platforms, k, a, b);
            assert(satisfies(platforms, Some(preferences()[k2]), a, b));
            assert(no_position(platforms, Some(preferences()[k2])));
        } else {
            assert(satisfies(platforms, None, a, b));
        }
    }
}

/// A device is selected only when some device qualifies.
pub proof fn lemma_selected_excludes_nothing_qualifies(platforms: Seq<PlatformEntry>, i: int, j: int)
    requires
        selected(platforms, i, j),
    ensures
        !nothing_qualifies(platforms),
{
    if exists|k: int| #[trigger] selected_by_keyword(platforms, k, i, j) {
        let k = choose|k: int| #[trigger] selected_by_keyword(platforms, k, i, j);
        assert(satisfies(platforms, Some(preferences()[k]), i, j));
        if nothing_qualifies(platforms) {
            assert(no_position(platforms, Some(preferences()[k])));
        }
    } else {
        assert(satisfies(platforms, None, i, j));
    }
}

impl ContextManager {
    /// Concludes `set_device` once the caller has tried to build the context
    /// that `record` describes: a context that was built becomes the active
    /// one; one that could not be built leaves the manager as it was and is
    /// reported as `DeviceUnavailable`.
    pub fn complete_set_device(&mut self, record: CtxWrapper, built: Result<(), i32>) -> (r: Result<
        (),
        GpuError,
    >)
        ensures
            built is Ok ==> r is Ok && final(self).active == Some(record),
            built is Err ==> r == Err::<(), GpuError>(GpuError::DeviceUnavailable)
                && final(self).active == old(self).active,
    {
        match built {
            Ok(_) => {
                self.install(record);
                Ok(())
            },
            Err(_) => Err(GpuError::DeviceUnavailable),
        }
    }

    /// Concludes `initialize_context` once the caller has tried to build the
    /// chosen context: a context that was built becomes the active one and
    /// the two display names are handed out; one that could not be built
    /// leaves the manager as it was and is reported as `DeviceApiFailure`
    /// with the native status code.
    pub fn complete_initialize(&mut self, choice: ContextChoice, built: Result<(), i32>) -> (r:
        Result<(String, String), GpuError>)
        ensures
            built is Ok ==> r == Ok::<(String, String), GpuError>((choice.name, choice.list_name))
                && final(self).active == Some(choice.context),
            built matches Err(code) ==> r == Err::<(String, String), GpuError>(
                GpuError::DeviceApiFailure(code),
            ) && final(self).active == old(self).active,
    {
        match built {
            Ok(_) => {
                self.install(choice.context);
                Ok((choice.name, choice.list_name))
            },
            Err(code) => Err(GpuError::DeviceApiFailure(code)),
        }
    }
}

impl OclWrapper {
    /// The listing names of the usable devices, in enumeration order.
    ///
    /// A device is left out when its platform name, its own name or its
    /// version was not reported, or when its listing name contains a
    /// denylisted substring.
    pub fn list_devices(platforms: &Vec<PlatformEntry>) -> (names: Vec<String>)
        ensures
            names.len() == listed_positions(platforms@).len(),
            forall|k: int|
                0 <= k < names.len() ==> (#[trigger] names[k])@ == listing_at(
                    platforms@,
                    listed_positions(platforms@)[k],
                ),
            forall|k: int| 0 <= k < names.len() ==> !is_denylisted((#[trigger] names[k])@),
    {
        let mut names: Vec<String> = Vec::new();
        let mut i: usize = 0;
        while i < platforms.len()
            invariant
                i <= platforms.len(),
                names.len() == positions_upto(platforms@, i as int).len(),
                forall|k: int|
                    0 <= k < names.len() ==> (#[trigger] names[k])@ == listing_at(
                        platforms@,
                        positions_upto(platforms@, i as int)[k],
                    ),
                forall|k: int| 0 <= k < names.len() ==> !is_denylisted((#[trigger] names[k])@),
            decreases platforms.len() - i,
        {
            let p = &platforms[i];
            let ghost before = positions_upto(platforms@, i as int);
            let mut j: usize = 0;
            while j < p.devices.len()
                invariant
                    i < platforms.len(),
                    *p == platforms@[i as int],
                    j <= p.devices.len(),
                    before == positions_upto(platforms@, i as int),
                    names.len() == (before + positions_in_platform(
                        platforms@,
                        i as int,
                        j as int,
                    )).len(),
                    forall|k: int|
                        0 <= k < names.len() ==> (#[trigger] names[k])@ == listing_at(
                            platforms@,
                            (before + positions_in_platform(platforms@, i as int, j as int))[k],
                        ),
                    forall|k: int| 0 <= k < names.len() ==> !is_denylisted((#[trigger] names[k])@),
                decreases p.devices.len() - j,
            {
                match listed_chars(p, &p.devices[j]) {
                    Some(v) => {
                        names.push(from_chars(&v));
                    },
                    None => {},
                }
                j += 1;
            }
            assert(positions_upto(platforms@, i + 1) == before + positions_in_platform(
                platforms@,
                i as int,
                p.devices@.len() as int,
            ));
            i += 1;
        }
        names
    }

    /// The context to build for the device that `list_devices` lists at
    /// `index`, tagged with the checksum of `buffers`.
    ///
    /// Fails with `DeviceUnavailable` when fewer devices are listed, and with
    /// `DeviceApiFailure` when the device's vendor was not reported.
    pub fn set_device(platforms: &Vec<PlatformEntry>, index: usize, buffers: &BufferDescription) -> (r:
        Result<CtxWrapper, GpuError>)
        ensures
            index >= listed_positions(platforms@).len() ==> r == Err::<CtxWrapper, GpuError>(
                GpuError::DeviceUnavailable,
            ),
            index < listed_positions(platforms@).len() ==> ({
                let pos = listed_positions(platforms@)[index as int];
                let p = platforms@[pos.0];
                let d = p.devices@[pos.1];
                match r {
                    Ok(ctx) => name_failure(p, d) is None && context_matches(
                        ctx,
                        platforms@,
                        pos.0,
                        pos.1,
                        Some(buffers),
                    ),
                    Err(e) => name_failure(p, d) == Some(e),
                }
            }),
    {
        match find_listed(platforms, index) {
            Some((i, j)) => match describe_choice(platforms, i, j, Some(buffers)) {
                Ok(choice) => Ok(choice.context),
                Err(e) => Err(e),
            },
            None => Err(GpuError::DeviceUnavailable),
        }
    }

    /// Selects a device automatically and describes the context to build for
    /// it, with interop properties that suit `buffers`.
    ///
    /// The device is the first one whose lower-cased `"<platform> <device>"`
    /// contains the most preferred keyword that any device matches; when no
    /// keyword matches any device, the first one reporting the GPU type.
    /// Fails with `DeviceUnavailable` exactly when no device qualifies, and
    /// with `DeviceApiFailure` when the platform name, the vendor or the name
    /// of the selected device was not reported.
    pub fn initialize_context(platforms: &Vec<PlatformEntry>, buffers: Option<&BufferDescription>) -> (r:
        Result<ContextChoice, GpuError>)
        ensures
            nothing_qualifies(platforms@) <==> r == Err::<ContextChoice, GpuError>(
                GpuError::DeviceUnavailable,
            ),
            r is Ok <==> exists|i: int, j: int|
                #[trigger] selected(platforms@, i, j) && name_failure(
                    platforms@[i],
                    platforms@[i].devices@[j],
                ) is None,
            match r {
                Ok(choice) => {
                    let i = choice.context.platform as int;
                    let j = choice.context.device as int;
                    &&& selected(platforms@, i, j)
                    &&& name_failure(platforms@[i], platforms@[i].devices@[j]) is None
                    &&& context_matches(choice.context, platforms@, i, j, buffers)
                    &&& choice.name@ == display_name(platforms@[i].devices@[j])
                    &&& choice.list_name@ == list_name(platforms@[i], platforms@[i].devices@[j])
                },
                Err(e) => nothing_qualifies(platforms@) || exists|i: int, j: int|
                    #[trigger] selected(platforms@, i, j) && name_failure(
                        platforms@[i],
                        platforms@[i].devices@[j],
                    ) == Some(e),
            },
    {
        match select_device(platforms) {
            Some((i, j)) => {
                proof {
                    lemma_selected_excludes_nothing_qualifies(platforms@, i as int, j as int);
                    lemma_selected_is_valid(platforms@, i as int, j as int);
                    assert forall|a: int, b: int| #[trigger]
                        selected(platforms@, a, b) implies a == i && b == j by {
                        lemma_selected_is_unique(platforms@, a, b, i as int, j as int);
                    }
                }
                describe_choice(platforms, i, j, buffers)
            },
            None => {
                proof {
                    assert forall|a: int, b: int| !#[trigger] selected(platforms@, a, b) by {
                        if selected(platforms@, a, b) {
                            lemma_selected_excludes_nothing_qualifies(platforms@, a, b);
                        }
                    }
                }
                Err(GpuError::DeviceUnavailable)
            },
        }
    }
}

} // verus!
