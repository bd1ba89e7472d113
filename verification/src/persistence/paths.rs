//! Where things are kept, and which recordings must go.
use vstd::prelude::*;
use vstd::relations::{sorted_by, total_ordering};
use vstd::string::*;

use crate::json::{parse_json, parsed_json, JsonValue};
use crate::persistence::HISTORY_CAP;
use crate::text::{blank, ends_with, is_blank, join2, owned, texts, to_chars, trim, trimmed};
use crate::types::Platform;

verus! {

/// A place on disk: a directory and the names that lead on from it.
#[derive(Debug)]
pub struct StoragePath {
    pub base: String,
    pub parts: Vec<String>,
}

/// The contents of a place.
pub ghost struct Place {
    pub base: Seq<char>,
    pub parts: Seq<Seq<char>>,
}

impl Place {
    /// The place one name further on.
    pub open spec fn child(self, name: Seq<char>) -> Place {
        Place { base: self.base, parts: self.parts.push(name) }
    }
}

/// The place of a directory itself.
pub open spec fn place_at(base: Seq<char>) -> Place {
    Place { base, parts: seq![] }
}

impl View for StoragePath {
    type V = Place;

    open spec fn view(&self) -> Place {
        Place { base: self.base@, parts: texts(self.parts@) }
    }
}

impl StoragePath {
    /// The place of a directory itself.
    pub fn at(base: &str) -> (r: StoragePath)
        ensures
            r@ == place_at(base@),
    {
        let r = StoragePath { base: owned(base), parts: Vec::new() };
        assert(texts(r.parts@) =~= seq![]);
        r
    }

    /// The place one name further on.
    pub fn child(&self, name: &str) -> (r: StoragePath)
        ensures
            r@ == self@.child(name@),
    {
        let mut parts: Vec<String> = Vec::new();
        let mut i: usize = 0;
        while i < self.parts.len()
            invariant
                i <= self.parts@.len(),
                texts(parts@) == texts(self.parts@).take(i as int),
            decreases self.parts@.len() - i,
        {
            let ghost before = parts@;
            parts.push(owned(self.parts[i].as_str()));
            assert(texts(parts@) =~= texts(before).push(self.parts@[i as int]@));
            assert(texts(parts@) =~= texts(self.parts@).take(i + 1));
            i += 1;
        }
        let ghost before = parts@;
        parts.push(owned(name));
        assert(texts(parts@) =~= texts(before).push(name@));
        assert(texts(before) =~= texts(self.parts@));
        StoragePath { base: owned(self.base.as_str()), parts }
    }
}

/// The directory for all that is kept; the error names the variable that is missing.
pub open spec fn data_place(
    platform: Platform,
    home: Option<Seq<char>>,
    appdata: Option<Seq<char>>,
    xdg: Option<Seq<char>>,
) -> Result<Place, Seq<char>> {
    match platform {
        Platform::Macos => match home {
            Some(h) => Ok(
                place_at(h).child("Library"@).child("Application Support"@).child("Zhunji"@),
            ),
            None => Err("HOME not set"@),
        },
        Platform::Windows => match appdata {
            Some(a) => Ok(place_at(a).child("OpenLess"@)),
            None => Err("APPDATA not set"@),
        },
        _ => match xdg {
            Some(x) if x.len() > 0 => Ok(place_at(x).child("OpenLess"@)),
            _ => match home {
                Some(h) => Ok(place_at(h).child(".local"@).child("share"@).child("OpenLess"@)),
                None => Err("HOME not set"@),
            },
        },
    }
}

/// The contents of an optional text.
pub open spec fn opt_view(s: Option<&str>) -> Option<Seq<char>> {
    match s {
        Some(t) => Some(t@),
        None => None,
    }
}

/// The contents of a place or of the error in its stead.
pub open spec fn place_of(r: Result<StoragePath, String>) -> Result<Place, Seq<char>> {
    match r {
        Ok(p) => Ok(p@),
        Err(e) => Err(e@),
    }
}

/// The directory for all that is kept, from the variables of the environment.
pub fn data_dir(
    platform: Platform,
    home: Option<&str>,
    appdata: Option<&str>,
    xdg_data_home: Option<&str>,
) -> (r: Result<StoragePath, String>)
    ensures
        place_of(r) == data_place(
            platform,
            opt_view(home),
            opt_view(appdata),
            opt_view(xdg_data_home),
        ),
{
    match platform {
        Platform::Macos => match home {
            Some(h) => Ok(
                StoragePath::at(h).child("Library").child("Application Support").child("Zhunji"),
            ),
            None => Err(owned("HOME not set")),
        },
        Platform::Windows => match appdata {
            Some(a) => Ok(StoragePath::at(a).child("OpenLess")),
            None => Err(owned("APPDATA not set")),
        },
        _ => {
            match xdg_data_home {
                Some(x) => {
                    if !x.is_empty() {
                        return Ok(StoragePath::at(x).child("OpenLess"));
                    }
                },
                None => {},
            }
            match home {
                Some(h) => Ok(StoragePath::at(h).child(".local").child("share").child("OpenLess")),
                None => Err(owned("HOME not set")),
            }
        },
    }
}

/// The place of the credentials that were once kept in a file.
pub open spec fn credentials_place(
    platform: Platform,
    home: Option<Seq<char>>,
    appdata: Option<Seq<char>>,
) -> Result<Place, Seq<char>> {
    if platform == Platform::Windows {
        match appdata {
            Some(a) => Ok(place_at(a).child("OpenLess"@).child("credentials.json"@)),
            None => Err("APPDATA not set"@),
        }
    } else {
        match home {
            Some(h) => Ok(place_at(h).child(".openless"@).child("credentials.json"@)),
            None => Err("HOME not set"@),
        }
    }
}

/// The file in which credentials were once kept, and which is removed now.
pub fn credentials_path(platform: Platform, home: Option<&str>, appdata: Option<&str>) -> (r: Result<
    StoragePath,
    String,
>)
    ensures
        place_of(r) == credentials_place(platform, opt_view(home), opt_view(appdata)),
{
    if platform == Platform::Windows {
        match appdata {
            Some(a) => Ok(StoragePath::at(a).child("OpenLess").child("credentials.json")),
            None => Err(owned("APPDATA not set")),
        }
    } else {
        match home {
            Some(h) => Ok(StoragePath::at(h).child(".openless").child("credentials.json")),
            None => Err(owned("HOME not set")),
        }
    }
}

/// The name of the temporary file through which a file is written: its own name with a suffix that
/// is never used twice.
pub fn temporary_name(file_name: &str, unique: &str) -> (r: String)
    ensures
        r@ == file_name@ + ".tmp-"@ + unique@,
{
    let mut r = join2(file_name, ".tmp-");
    r.append(unique);
    r
}

/// Where models are kept, where the user has chosen no directory.
pub fn default_models_root(data_dir: &StoragePath) -> (r: StoragePath)
    ensures
        r@ == data_dir@.child("models"@),
{
    data_dir.child("models")
}

/// Where models are kept, with the directory that the user has chosen.
pub open spec fn models_place(data_dir: Place, base: Option<Seq<char>>) -> Place {
    match base {
        Some(b) if !blank(b) => place_at(trimmed(b)).child("OpenLess"@).child("models"@),
        _ => data_dir.child("models"@),
    }
}

/// Where models are kept: in a place of their own below the directory that the user has chosen.
pub fn models_root_for_base_dir(data_dir: &StoragePath, base_dir: Option<&str>) -> (r: StoragePath)
    ensures
        r@ == models_place(data_dir@, opt_view(base_dir)),
{
    match base_dir {
        Some(base) => {
            if !is_blank(base) {
                return StoragePath::at(trim(base).as_str()).child("OpenLess").child("models");
            }
        },
        None => {},
    }
    default_models_root(data_dir)
}

/// The directory for models in preferences, where there is one.
pub open spec fn base_dir_in(preferences: JsonValue) -> Option<Seq<char>> {
    match preferences.str_member("localAsrModelsBaseDir"@) {
        Some(s) if !blank(s) => Some(trimmed(s)),
        _ => None,
    }
}

/// The directory for models in preferences, given as the text of their file; an error where that
/// is no JSON.
pub open spec fn configured_base_dir(preferences: Option<Seq<char>>) -> Result<
    Option<Seq<char>>,
    Seq<char>,
> {
    match preferences {
        Some(text) if text.len() > 0 => match parsed_json(text) {
            Ok(j) => Ok(base_dir_in(j)),
            Err(e) => Err(e),
        },
        _ => Ok(None),
    }
}

/// The directory for models in preferences.
pub fn configured_models_base_dir(preferences: Option<&str>) -> (r: Result<Option<String>, String>)
    ensures
        match r {
            Ok(d) => configured_base_dir(opt_view(preferences)) == Ok::<
                Option<Seq<char>>,
                Seq<char>,
            >(crate::types::opt_text(d)),
            Err(e) => configured_base_dir(opt_view(preferences)) == Err::<
                Option<Seq<char>>,
                Seq<char>,
            >(e@),
        },
{
    let text = match preferences {
        Some(text) => text,
        None => {
            return Ok(None);
        },
    };
    if text.is_empty() {
        return Ok(None);
    }
    match parse_json(text) {
        Ok(j) => match j.get_str("localAsrModelsBaseDir") {
            Some(s) => {
                if is_blank(s) {
                    Ok(None)
                } else {
                    Ok(Some(trim(s)))
                }
            },
            None => Ok(None),
        },
        Err(e) => Err(e),
    }
}

/// Where models are kept.
pub fn models_root(data_dir: &StoragePath, preferences: Option<&str>) -> (r: Result<
    StoragePath,
    String,
>)
    ensures
        place_of(r) == match configured_base_dir(opt_view(preferences)) {
            Ok(base) => Ok(models_place(data_dir@, base)),
            Err(e) => Err(e),
        },
{
    match configured_models_base_dir(preferences) {
        Ok(Some(base)) => Ok(models_root_for_base_dir(data_dir, Some(base.as_str()))),
        Ok(None) => Ok(models_root_for_base_dir(data_dir, None)),
        Err(e) => Err(e),
    }
}

/// Where recordings are kept.
pub fn recordings_root(data_dir: &StoragePath) -> (r: StoragePath)
    ensures
        r@ == data_dir@.child("recordings"@),
{
    data_dir.child("recordings")
}

/// The file of a session's recording.
pub open spec fn recording_place(data_dir: Place, session_id: Seq<char>) -> Place {
    data_dir.child("recordings"@).child(session_id + ".wav"@)
}

/// The file of a session's recording, whether or not it is there.
pub fn recording_path_for_session(data_dir: &StoragePath, session_id: &str) -> (r: StoragePath)
    ensures
        r@ == recording_place(data_dir@, session_id@),
{
    recordings_root(data_dir).child(join2(session_id, ".wav").as_str())
}

/// Where the local engine keeps its downloads.
pub fn foundry_local_root(models_root: &StoragePath) -> (r: StoragePath)
    ensures
        r@ == models_root@.child("foundry-local"@),
{
    models_root.child("foundry-local")
}

/// Where the local engine keeps its runtime.
pub fn foundry_native_runtime_root(models_root: &StoragePath) -> (r: StoragePath)
    ensures
        r@ == models_root@.child("foundry-local"@).child("runtime"@),
{
    foundry_local_root(models_root).child("runtime")
}

/// Where the models of another local engine are kept.
pub fn sherpa_onnx_models_root(models_root: &StoragePath) -> (r: StoragePath)
    ensures
        r@ == models_root@.child("sherpa-onnx"@),
{
    models_root.child("sherpa-onnx")
}

/// Where the local engine keeps its models.
pub fn foundry_model_cache_root(models_root: &StoragePath) -> (r: StoragePath)
    ensures
        r@ == models_root@.child("foundry-local"@),
{
    foundry_local_root(models_root)
}

/// Where the local engine keeps its data.
pub fn foundry_app_data_root(models_root: &StoragePath) -> (r: StoragePath)
    ensures
        r@ == models_root@.child("foundry-local"@).child("app-data"@),
{
    foundry_local_root(models_root).child("app-data")
}

/// Where the local engine keeps its logs.
pub fn foundry_logs_root(models_root: &StoragePath) -> (r: StoragePath)
    ensures
        r@ == models_root@.child("foundry-local"@).child("logs"@),
{
    foundry_local_root(models_root).child("logs")
}

/// A file name is that of a recording.
pub open spec fn recording_name(name: Seq<char>) -> bool {
    name.len() > 4 && ".wav"@.is_suffix_of(name)
}

/// Whether a file name is that of a recording.
pub fn is_recording_name(name: &str) -> (r: bool)
    ensures
        r == recording_name(name@),
{
    to_chars(name).len() > 4 && ends_with(name, ".wav")
}

/// The time before which a recording is too old, in nanoseconds since 1970.
pub open spec fn recording_cutoff(now: u64, retention_days: u32) -> int {
    now - 86_400_000_000_000 * retention_days
}

/// A recording is too old.
pub open spec fn expired(modified: Option<u64>, now: u64, retention_days: u32) -> bool {
    retention_days > 0 && (match modified {
        Some(m) => m,
        None => 0,
    }) < recording_cutoff(now, retention_days)
}

/// Whether a recording is too old. `modified` is when it was written, in nanoseconds since 1970;
/// where that is not known, it counts as written then.
pub fn recording_expired(modified: Option<u64>, now: u64, retention_days: u32) -> (r: bool)
    ensures
        r == expired(modified, now, retention_days),
{
    if retention_days == 0 {
        return false;
    }
    let written: u64 = match modified {
        Some(m) => m,
        None => 0,
    };
    let span: u128 = 86_400_000_000_000 * retention_days as u128;
    now as u128 >= span && (written as u128) < now as u128 - span
}

/// How many recordings are kept.
pub open spec fn recording_limit(max_entries: Option<u32>) -> int {
    match max_entries {
        None => HISTORY_CAP as int,
        Some(n) => if n < 1 {
            1
        } else if n > HISTORY_CAP {
            HISTORY_CAP as int
        } else {
            n as int
        },
    }
}

/// How many recordings are kept.
pub fn recording_cap(max_entries: Option<u32>) -> (r: usize)
    ensures
        r == recording_limit(max_entries),
{
    match max_entries {
        None => HISTORY_CAP,
        Some(n) => {
            let n: usize = n as usize;
            if n < 1 {
                1
            } else if n > HISTORY_CAP {
                HISTORY_CAP
            } else {
                n
            }
        },
    }
}

/// One recording stands before another: it is newer, or as new and listed earlier.
pub open spec fn newer_first(times: Seq<u64>) -> spec_fn(int, int) -> bool {
    |i: int, j: int| times[i] > times[j] || (times[i] == times[j] && i <= j)
}

/// The positions of recordings, the newest first.
pub open spec fn by_age(times: Seq<u64>) -> Seq<int> {
    Seq::new(times.len(), |i: int| i).sort_by(newer_first(times))
}

/// Numbers as integers.
pub open spec fn ints(v: Seq<usize>) -> Seq<int> {
    v.map_values(|i: usize| i as int)
}

proof fn lemma_newer_first_is_total(times: Seq<u64>)
    ensures
        total_ordering(newer_first(times)),
{
}

/// The positions of recordings that are too many.
pub open spec fn surplus(times: Seq<u64>, max_entries: Option<u32>) -> Seq<int> {
    if times.len() <= recording_limit(max_entries) {
        seq![]
    } else {
        by_age(times).skip(recording_limit(max_entries))
    }
}

/// Which recordings are too many: given when each was written, the positions of all but the newest,
/// newest first.
pub fn surplus_recordings(times: &[u64], max_entries: Option<u32>) -> (r: Vec<usize>)
    ensures
        ints(r@) == surplus(times@, max_entries),
{
    let cap: usize = recording_cap(max_entries);
    let n: usize = times.len();
    let mut rest: Vec<usize> = Vec::new();
    if n <= cap {
        assert(ints(rest@) =~= seq![]);
        return rest;
    }
    let order = sorted_by_age(times);
    assert(ints(order@).len() == order@.len());
    proof {
        lemma_by_age_len(times@);
    }
    let mut i: usize = cap;
    assert(ints(rest@) =~= by_age(times@).subrange(cap as int, cap as int));
    while i < order.len()
        invariant
            cap <= i <= order@.len(),
            ints(order@) == by_age(times@),
            ints(rest@) == by_age(times@).subrange(cap as int, i as int),
        decreases order@.len() - i,
    {
        let ghost before = rest@;
        rest.push(order[i]);
        assert(ints(order@)[i as int] == order@[i as int] as int);
        assert(ints(rest@) =~= ints(before).push(order@[i as int] as int));
        assert(ints(rest@) =~= by_age(times@).subrange(cap as int, i + 1));
        i += 1;
    }
    assert(by_age(times@).subrange(cap as int, i as int) =~= by_age(times@).skip(cap as int));
    rest
}

proof fn lemma_by_age_len(times: Seq<u64>)
    ensures
        by_age(times).len() == times.len(),
        sorted_by(by_age(times), newer_first(times)),
        by_age(times).to_multiset() == Seq::new(times.len(), |i: int| i).to_multiset(),
{
    lemma_newer_first_is_total(times);
    let all = Seq::new(times.len(), |i: int| i);
    all.lemma_sort_by_ensures(newer_first(times));
    all.to_multiset_ensures();
    by_age(times).to_multiset_ensures();
}

/// The positions of recordings, the newest first.
fn sorted_by_age(times: &[u64]) -> (order: Vec<usize>)
    ensures
        ints(order@) == by_age(times@),
{
    let n: usize = times.len();
    let mut order: Vec<usize> = Vec::new();
    let mut k: usize = 0;
    let ghost leq = newer_first(times@);
    assert(ints(order@).to_multiset() =~= Seq::new(0, |i: int| i).to_multiset()) by {
        assert(ints(order@) =~= Seq::new(0, |i: int| i));
    }
    while k < n
        invariant
            k <= n == times@.len(),
            leq == newer_first(times@),
            order@.len() == k,
            forall|i: int| 0 <= i < k ==> #[trigger] order@[i] < k,
            sorted_by(ints(order@), leq),
            ints(order@).to_multiset() == Seq::new(k as nat, |i: int| i).to_multiset(),
        decreases n - k,
    {
        let mut at: usize = k;
        while at > 0 && times[order[at - 1]] < times[k]
            invariant
                at <= k < n == times@.len(),
                order@.len() == k,
                forall|i: int| 0 <= i < k ==> #[trigger] order@[i] < k,
                forall|i: int| at <= i < k ==> times@[#[trigger] order@[i] as int] < times@[k as int],
            decreases at,
        {
            at -= 1;
        }
        let ghost before = order@;
        order.insert(at, k);
        proof {
            let b = ints(before);
            let a = ints(order@);
            assert(a =~= b.insert(at as int, k as int));
            assert forall|i: int, j: int| 0 <= i < j < a.len() implies #[trigger] leq(a[i], a[j]) by {
                lemma_insert_keeps_order(times@, before, at as int, k, i, j);
                assert(a[i] == order@[i] as int);
                assert(a[j] == order@[j] as int);
            }
            b.to_multiset_ensures();
            vstd::seq_lib::to_multiset_insert(b, at as int, k as int);
            let numbers = Seq::new(k as nat, |i: int| i);
            numbers.to_multiset_ensures();
            assert(Seq::new((k + 1) as nat, |i: int| i) =~= numbers.push(k as int));
            assert(a.to_multiset() =~= Seq::new((k + 1) as nat, |i: int| i).to_multiset());
        }
        k += 1;
    }
    proof {
        lemma_by_age_len(times@);
        lemma_newer_first_is_total(times@);
        vstd::seq_lib::lemma_sorted_unique(ints(order@), by_age(times@), leq);
    }
    order
}

proof fn lemma_insert_keeps_order(
    times: Seq<u64>,
    before: Seq<usize>,
    at: int,
    k: usize,
    i: int,
    j: int,
)
    requires
        0 <= at <= before.len() == k < times.len(),
        forall|x: int| 0 <= x < k ==> #[trigger] before[x] < k,
        sorted_by(ints(before), newer_first(times)),
        forall|x: int| at <= x < k ==> times[#[trigger] before[x] as int] < times[k as int],
        at > 0 ==> times[before[at - 1] as int] >= times[k as int],
        0 <= i < j <= k,
    ensures
        newer_first(times)(
            before.insert(at, k)[i] as int,
            before.insert(at, k)[j] as int,
        ),
{
    let leq = newer_first(times);
    let b = ints(before);
    assert forall|x: int| 0 <= x < k implies #[trigger] b[x] == before[x] as int by {}
    if i < at && j > at {
        assert(leq(b[i], b[j - 1]));
    } else if j < at {
        assert(leq(b[i], b[j]));
    } else if i > at {
        assert(leq(b[i - 1], b[j - 1]));
    } else if j == at {
        if i < at - 1 {
            assert(leq(b[i], b[at - 1]));
        }
        assert(before[i] < k);
    } else {
        assert(before[j - 1] < k);
    }
}

/// Of recordings, never more than the limit stay; where there are more, just the limit does, and
/// none that goes is newer than one that stays.
pub proof fn law_newest_recordings_stay(times: Seq<u64>, max_entries: Option<u32>)
    requires
        times.len() > recording_limit(max_entries),
    ensures
        by_age(times).skip(recording_limit(max_entries)).len() == times.len() - recording_limit(
            max_entries,
        ),
        forall|kept: int, gone: int|
            0 <= kept < recording_limit(max_entries) <= gone < times.len()
                ==> times[#[trigger] by_age(times)[kept]] >= times[#[trigger] by_age(times)[gone]],
{
    lemma_by_age_len(times);
    let order = by_age(times);
    assert forall|kept: int, gone: int|
        0 <= kept < recording_limit(max_entries) <= gone < times.len() implies times[
        #[trigger] order[kept]] >= times[#[trigger] order[gone]] by {
        assert(newer_first(times)(order[kept], order[gone]));
    }
}

/// Where all is kept on each system: below the home directory on macOS, below the directory for
/// applications on Windows, and elsewhere below the directory for data or, where none is named, the
/// usual place in the home directory.
pub proof fn law_data_is_kept_where_the_system_wants_it(
    home: Option<Seq<char>>,
    appdata: Option<Seq<char>>,
    xdg: Option<Seq<char>>,
)
    ensures
        home matches Some(h) ==> data_place(Platform::Macos, home, appdata, xdg) == Ok::<
            Place,
            Seq<char>,
        >(Place { base: h, parts: seq!["Library"@, "Application Support"@, "Zhunji"@] }),
        home is None ==> data_place(Platform::Macos, home, appdata, xdg) == Err::<Place, Seq<char>>(
            "HOME not set"@,
        ),
        appdata matches Some(a) ==> data_place(Platform::Windows, home, appdata, xdg) == Ok::<
            Place,
            Seq<char>,
        >(Place { base: a, parts: seq!["OpenLess"@] }),
        appdata is None ==> data_place(Platform::Windows, home, appdata, xdg) == Err::<
            Place,
            Seq<char>,
        >("APPDATA not set"@),
        xdg is Some && xdg->0.len() > 0 ==> data_place(Platform::Linux, home, appdata, xdg) == Ok::<
            Place,
            Seq<char>,
        >(Place { base: xdg->0, parts: seq!["OpenLess"@] }),
        (xdg is None || xdg->0.len() == 0) && home is Some ==> data_place(
            Platform::Linux,
            home,
            appdata,
            xdg,
        ) == Ok::<Place, Seq<char>>(
            Place { base: home->0, parts: seq![".local"@, "share"@, "OpenLess"@] },
        ),
        (xdg is None || xdg->0.len() == 0) && home is None ==> data_place(
            Platform::Linux,
            home,
            appdata,
            xdg,
        ) == Err::<Place, Seq<char>>("HOME not set"@),
        data_place(Platform::Other, home, appdata, xdg) == data_place(
            Platform::Linux,
            home,
            appdata,
            xdg,
        ),
{
    assert(seq![].push("Library"@).push("Application Support"@).push("Zhunji"@) =~= seq![
        "Library"@,
        "Application Support"@,
        "Zhunji"@,
    ]);
    assert(seq![].push("OpenLess"@) =~= seq!["OpenLess"@]);
    assert(seq![].push(".local"@).push("share"@).push("OpenLess"@) =~= seq![
        ".local"@,
        "share"@,
        "OpenLess"@,
    ]);
}

/// Where credentials were once kept in a file.
pub proof fn law_old_credentials_file(
    platform: Platform,
    home: Option<Seq<char>>,
    appdata: Option<Seq<char>>,
)
    ensures
        platform == Platform::Windows && appdata is Some ==> credentials_place(
            platform,
            home,
            appdata,
        ) == Ok::<Place, Seq<char>>(
            Place { base: appdata->0, parts: seq!["OpenLess"@, "credentials.json"@] },
        ),
        platform != Platform::Windows && home is Some ==> credentials_place(platform, home, appdata)
            == Ok::<Place, Seq<char>>(
            Place { base: home->0, parts: seq![".openless"@, "credentials.json"@] },
        ),
        platform == Platform::Windows && appdata is None ==> credentials_place(
            platform,
            home,
            appdata,
        ) == Err::<Place, Seq<char>>("APPDATA not set"@),
        platform != Platform::Windows && home is None ==> credentials_place(platform, home, appdata)
            == Err::<Place, Seq<char>>("HOME not set"@),
{
    assert(seq![].push("OpenLess"@).push("credentials.json"@) =~= seq![
        "OpenLess"@,
        "credentials.json"@,
    ]);
    assert(seq![].push(".openless"@).push("credentials.json"@) =~= seq![
        ".openless"@,
        "credentials.json"@,
    ]);
}

/// Models are kept below the directory that the user has chosen, without surrounding white space,
/// and with all else where none was chosen.
pub proof fn law_models_are_kept_where_the_user_wants_them(
    data_dir: Place,
    base: Option<Seq<char>>,
)
    ensures
        base is Some && !blank(base->0) ==> models_place(data_dir, base) == (Place {
            base: trimmed(base->0),
            parts: seq!["OpenLess"@, "models"@],
        }),
        base is None || blank(base->0) ==> models_place(data_dir, base) == (Place {
            base: data_dir.base,
            parts: data_dir.parts + seq!["models"@],
        }),
{
    assert(seq![].push("OpenLess"@).push("models"@) =~= seq!["OpenLess"@, "models"@]);
    assert(data_dir.parts.push("models"@) =~= data_dir.parts + seq!["models"@]);
}

/// Only a directory that the preferences name, and that is not blank, counts as chosen. Preferences
/// that cannot be parsed are an error, not a missing choice.
pub proof fn law_chosen_directory(preferences: Option<Seq<char>>)
    ensures
        preferences is None || preferences->0.len() == 0 ==> configured_base_dir(preferences)
            == Ok::<Option<Seq<char>>, Seq<char>>(None),
        preferences is Some && preferences->0.len() > 0 ==> match parsed_json(preferences->0) {
            Err(e) => configured_base_dir(preferences) == Err::<Option<Seq<char>>, Seq<char>>(e),
            Ok(j) => match j.str_member("localAsrModelsBaseDir"@) {
                Some(s) if !blank(s) => configured_base_dir(preferences) == Ok::<
                    Option<Seq<char>>,
                    Seq<char>,
                >(Some(trimmed(s))),
                _ => configured_base_dir(preferences) == Ok::<Option<Seq<char>>, Seq<char>>(None),
            },
        },
{
}

/// The recording of a session is named by it, below the directory for recordings, and that name is
/// one of a recording; no other ending is.
pub proof fn law_recording_is_named_by_its_session(
    data_dir: Place,
    session_id: Seq<char>,
    name: Seq<char>,
)
    ensures
        recording_place(data_dir, session_id) == (Place {
            base: data_dir.base,
            parts: data_dir.parts + seq!["recordings"@, session_id + ".wav"@],
        }),
        recording_name(session_id + ".wav"@) <==> session_id.len() > 0,
        recording_name(name) ==> name == name.take(name.len() - 4) + ".wav"@,
{
    reveal_strlit(".wav");
    assert(data_dir.parts.push("recordings"@).push(session_id + ".wav"@) =~= data_dir.parts + seq![
        "recordings"@,
        session_id + ".wav"@,
    ]);
    let own = session_id + ".wav"@;
    assert(own.subrange(own.len() - 4, own.len() as int) =~= ".wav"@);
    if recording_name(name) {
        assert(name.subrange(name.len() - 4, name.len() as int) == ".wav"@);
        assert(name =~= name.take(name.len() - 4) + ".wav"@);
    }
}

/// A recording goes exactly where it is older than so many days of 24 hours; without a limit none
/// goes. One of which it is not known when it was written counts as written in 1970.
pub proof fn law_old_recordings_go(modified: u64, now: u64, retention_days: u32)
    ensures
        retention_days > 0 ==> (expired(Some(modified), now, retention_days) <==> now - modified
            > retention_days * 24 * 60 * 60 * 1_000_000_000),
        !expired(Some(modified), now, 0),
        expired(None, now, retention_days) == expired(Some(0), now, retention_days),
{
}

/// At least one and at most 200 recordings are kept, and within these bounds as many as asked for.
pub proof fn law_recordings_are_bounded(max_entries: Option<u32>)
    ensures
        1 <= recording_limit(max_entries) <= 200,
        max_entries is None ==> recording_limit(max_entries) == 200,
        max_entries matches Some(n) ==> {
            &&& 1 <= n <= 200 ==> recording_limit(max_entries) == n
            &&& n == 0 ==> recording_limit(max_entries) == 1
            &&& n > 200 ==> recording_limit(max_entries) == 200
        },
{
}

/// Recordings beyond the limit are too many: as many as there are beyond it, each of them once, and
/// none of them newer than one that stays.
pub proof fn law_surplus_recordings(times: Seq<u64>, max_entries: Option<u32>, gone: int, kept: int)
    requires
        0 <= kept < times.len(),
        surplus(times, max_entries).contains(gone),
        !surplus(times, max_entries).contains(kept),
    ensures
        0 <= gone < times.len(),
        times[kept] >= times[gone],
        times[kept] == times[gone] ==> kept < gone,
        surplus(times, max_entries).len() == times.len() - recording_limit(max_entries),
{
    lemma_by_age_len(times);
    let order = by_age(times);
    let all = Seq::new(times.len(), |i: int| i);
    let limit = recording_limit(max_entries);
    let extra = surplus(times, max_entries);
    order.to_multiset_ensures();
    all.to_multiset_ensures();
    let g = choose|g: int| 0 <= g < extra.len() && extra[g] == gone;
    assert(order[limit + g] == gone);
    assert(order.contains(gone));
    assert(order.to_multiset().count(gone) > 0);
    assert(all.contains(gone));
    assert(all[kept] == kept);
    assert(all.contains(kept));
    assert(order.to_multiset().count(kept) > 0);
    assert(order.contains(kept));
    let k = choose|k: int| 0 <= k < order.len() && order[k] == kept;
    if k >= limit {
        assert(extra[k - limit] == kept);
    }
    assert(newer_first(times)(order[k], order[limit + g]));
}

} // verus!
