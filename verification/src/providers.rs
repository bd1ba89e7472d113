//! The speech providers that the user can choose from.
use vstd::prelude::*;
use vstd::string::*;

use crate::ids::{hyphenated, hyphenated_id, random_id};
use crate::text::{
    join2, law_trailing_characters_go, owned, same, trim_trailing, without_trailing,
};
use crate::types::{opt_copy, opt_text};

verus! {

/// A provider.
#[derive(Debug)]
pub struct Provider {
    pub id: String,
    pub name: String,
    pub url: String,
    pub api_key: Option<String>,
    pub notes: Option<String>,
    pub default: bool,
}

/// The contents of a provider.
pub ghost struct ProviderRecord {
    pub id: Seq<char>,
    pub name: Seq<char>,
    pub url: Seq<char>,
    pub api_key: Option<Seq<char>>,
    pub notes: Option<Seq<char>>,
    pub default: bool,
}

impl View for Provider {
    type V = ProviderRecord;

    open spec fn view(&self) -> ProviderRecord {
        ProviderRecord {
            id: self.id@,
            name: self.name@,
            url: self.url@,
            api_key: opt_text(self.api_key),
            notes: opt_text(self.notes),
            default: self.default,
        }
    }
}

/// The contents of a list of providers.
pub open spec fn records(v: Seq<Provider>) -> Seq<ProviderRecord> {
    v.map_values(|p: Provider| p@)
}

/// A provider of that id is in the list.
pub open spec fn listed(list: Seq<ProviderRecord>, id: Seq<char>) -> bool {
    exists|i: int| 0 <= i < list.len() && (#[trigger] list[i]).id == id
}

/// The first provider of that id stands at `i`.
pub open spec fn first_at(list: Seq<ProviderRecord>, id: Seq<char>, i: int) -> bool {
    &&& 0 <= i < list.len()
    &&& list[i].id == id
    &&& forall|j: int| 0 <= j < i ==> (#[trigger] list[j]).id != id
}

/// The first provider of that id.
pub open spec fn found(list: Seq<ProviderRecord>, id: Seq<char>) -> Option<ProviderRecord> {
    if listed(list, id) {
        Some(list[choose|i: int| first_at(list, id, i)])
    } else {
        None
    }
}

/// The contents of an optional provider.
pub open spec fn opt_record(p: Option<Provider>) -> Option<ProviderRecord> {
    match p {
        Some(p) => Some(p@),
        None => None,
    }
}

/// The engine that is always there.
pub open spec fn builtin(default: bool) -> ProviderRecord {
    ProviderRecord {
        id: "builtin-doubao"@,
        name: "豆包 IME"@,
        url: seq![],
        api_key: None,
        notes: Some("内置免费引擎，无需配置"@),
        default,
    }
}

/// A stored list with the built-in engine in front, where it is missing. It is the default only
/// where it is alone.
pub open spec fn completed(list: Seq<ProviderRecord>) -> Seq<ProviderRecord> {
    if listed(list, "builtin-doubao"@) {
        list
    } else {
        seq![builtin(list.len() == 0)] + list
    }
}

/// A copy of a provider.
pub fn copy_provider(p: &Provider) -> (r: Provider)
    ensures
        r@ == p@,
{
    Provider {
        id: p.id.clone(),
        name: p.name.clone(),
        url: p.url.clone(),
        api_key: opt_copy(&p.api_key),
        notes: opt_copy(&p.notes),
        default: p.default,
    }
}

/// Where the first provider of that id stands.
fn position(list: &[Provider], id: &str) -> (r: Option<usize>)
    ensures
        match r {
            Some(i) => first_at(records(list@), id@, i as int),
            None => !listed(records(list@), id@),
        },
{
    let n: usize = list.len();
    let mut i: usize = 0;
    while i < n
        invariant
            i <= n == list@.len(),
            forall|j: int| 0 <= j < i ==> (#[trigger] records(list@)[j]).id != id@,
        decreases n - i,
    {
        if same(list[i].id.as_str(), id) {
            assert(records(list@)[i as int].id == id@);
            return Some(i);
        }
        i += 1;
    }
    None
}

/// The providers in a stored list, the built-in engine among them.
pub fn list_providers(stored: Vec<Provider>) -> (r: Vec<Provider>)
    ensures
        records(r@) == completed(records(stored@)),
{
    let mut list = stored;
    if position(list.as_slice(), "builtin-doubao").is_none() {
        let default = list.len() == 0;
        let builtin_provider = Provider {
            id: owned("builtin-doubao"),
            name: owned("豆包 IME"),
            url: String::new(),
            api_key: None,
            notes: Some(owned("内置免费引擎，无需配置")),
            default,
        };
        list.insert(0, builtin_provider);
        assert(records(list@) =~= seq![builtin(default)] + records(stored@));
    }
    list
}

/// A text that is left out where it is empty.
pub open spec fn non_empty(s: Option<Seq<char>>) -> Option<Seq<char>> {
    match s {
        Some(t) if t.len() == 0 => None,
        other => other,
    }
}

fn keep_non_empty(s: Option<String>) -> (r: Option<String>)
    ensures
        opt_text(r) == non_empty(opt_text(s)),
{
    match s {
        Some(t) => {
            if t.as_str().is_empty() {
                None
            } else {
                Some(t)
            }
        },
        None => None,
    }
}

/// A provider as the user has filled it in.
pub open spec fn filled_in(
    id: Seq<char>,
    name: Seq<char>,
    url: Seq<char>,
    api_key: Option<Seq<char>>,
    notes: Option<Seq<char>>,
    default: bool,
) -> ProviderRecord {
    ProviderRecord {
        id,
        name,
        url,
        api_key: non_empty(api_key),
        notes: non_empty(notes),
        default,
    }
}

/// Adds a provider under a new id. It is never the default by itself.
pub fn add_provider(
    list: &mut Vec<Provider>,
    name: String,
    url: String,
    api_key: Option<String>,
    notes: Option<String>,
) -> (r: Provider)
    ensures
        exists|n: u128| n != 0 && r@.id == #[trigger] hyphenated_id(n),
        r@ == filled_in(r@.id, name@, url@, opt_text(api_key), opt_text(notes), false),
        records(final(list)@) == records(old(list)@).push(r@),
{
    let n: u128 = random_id();
    let id = hyphenated(n);
    assert(n != 0 && id@ == hyphenated_id(n));
    let p = Provider {
        id,
        name,
        url,
        api_key: keep_non_empty(api_key),
        notes: keep_non_empty(notes),
        default: false,
    };
    let copy = copy_provider(&p);
    list.push(p);
    assert(records(list@) =~= records(old(list)@).push(copy@));
    copy
}

/// Changes the first provider of that id; an error where there is none.
pub fn update_provider(
    list: &mut Vec<Provider>,
    id: &str,
    name: String,
    url: String,
    api_key: Option<String>,
    notes: Option<String>,
) -> (r: Result<(), String>)
    ensures
        r is Ok <==> listed(records(old(list)@), id@),
        r matches Err(e) ==> e@ == "供应商不存在"@ && *final(list) == *old(list),
        r is Ok ==> exists|i: int| #[trigger]
            first_at(records(old(list)@), id@, i) && records(final(list)@) == records(
                old(list)@,
            ).update(
                i,
                filled_in(
                    id@,
                    name@,
                    url@,
                    opt_text(api_key),
                    opt_text(notes),
                    records(old(list)@)[i].default,
                ),
            ),
{
    match position(list.as_slice(), id) {
        None => Err(owned("供应商不存在")),
        Some(i) => {
            assert(records(old(list)@)[i as int] == list@[i as int]@);
            let default = list[i].default;
            let p = Provider {
                id: owned(id),
                name,
                url,
                api_key: keep_non_empty(api_key),
                notes: keep_non_empty(notes),
                default,
            };
            let ghost record = p@;
            list.set(i, p);
            proof {
                assert(records(list@) =~= records(old(list)@).update(i as int, record));
                assert(first_at(records(old(list)@), id@, i as int));
            }
            Ok(())
        },
    }
}

/// The providers of other ids.
pub open spec fn without(list: Seq<ProviderRecord>, id: Seq<char>) -> Seq<ProviderRecord> {
    list.filter(|p: ProviderRecord| p.id != id)
}

/// The list with the first built-in engine as a default.
pub open spec fn with_builtin_default(
    before: Seq<ProviderRecord>,
    after: Seq<ProviderRecord>,
) -> bool {
    if listed(before, "builtin-doubao"@) {
        exists|i: int| #[trigger]
            first_at(before, "builtin-doubao"@, i) && after == before.update(
                i,
                ProviderRecord { default: true, ..before[i] },
            )
    } else {
        after == before
    }
}

/// A provider of that id is the default.
pub open spec fn default_listed(list: Seq<ProviderRecord>, id: Seq<char>) -> bool {
    exists|i: int| 0 <= i < list.len() && (#[trigger] list[i]).id == id && list[i].default
}

/// Removes the providers of that id. The built-in engine cannot be removed; it becomes the default
/// where the default goes.
pub fn remove_provider(list: &mut Vec<Provider>, id: &str) -> (r: Result<(), String>)
    ensures
        r is Err <==> id@ == "builtin-doubao"@,
        r matches Err(e) ==> e@ == "内置豆包引擎不可删除"@ && *final(list) == *old(list),
        r is Ok && !default_listed(records(old(list)@), id@) ==> records(final(list)@) == without(
            records(old(list)@),
            id@,
        ),
        r is Ok && default_listed(records(old(list)@), id@) ==> with_builtin_default(
            without(records(old(list)@), id@),
            records(final(list)@),
        ),
{
    if same(id, "builtin-doubao") {
        return Err(owned("内置豆包引擎不可删除"));
    }
    let ghost all = records(list@);
    let mut was_default = false;
    let mut kept: Vec<Provider> = Vec::new();
    let n: usize = list.len();
    let mut i: usize = 0;
    assert(all.take(0) =~= seq![]);
    assert(records(kept@) =~= without(all.take(0), id@)) by {
        reveal(Seq::filter);
    }
    while i < n
        invariant
            i <= n == list@.len(),
            *list == *old(list),
            all == records(list@),
            records(kept@) == without(all.take(i as int), id@),
            was_default <==> exists|j: int|
                0 <= j < i && (#[trigger] all[j]).id == id@ && all[j].default,
        decreases n - i,
    {
        proof {
            reveal(Seq::filter);
            assert(all[i as int] == list@[i as int]@);
            assert(all.take(i + 1).drop_last() =~= all.take(i as int));
            assert(all.take(i + 1).last() == all[i as int]);
        }
        if same(list[i].id.as_str(), id) {
            if list[i].default {
                was_default = true;
            }
        } else {
            let p = copy_provider(&list[i]);
            let ghost before = records(kept@);
            kept.push(p);
            assert(records(kept@) =~= before.push(all[i as int]));
        }
        i += 1;
    }
    assert(all.take(n as int) =~= all);
    if was_default {
        match position(kept.as_slice(), "builtin-doubao") {
            Some(k) => {
                let ghost before = records(kept@);
                assert(before[k as int] == kept@[k as int]@);
                let mut p = copy_provider(&kept[k]);
                p.default = true;
                let ghost record = p@;
                kept.set(k, p);
                assert(records(kept@) =~= before.update(k as int, record));
            },
            None => {},
        }
    }
    *list = kept;
    Ok(())
}

/// The list with just the providers of that id as defaults.
pub open spec fn defaulted(list: Seq<ProviderRecord>, id: Seq<char>) -> Seq<ProviderRecord> {
    list.map_values(|p: ProviderRecord| ProviderRecord { default: p.id == id, ..p })
}

/// Makes the provider of that id the default; an error where there is none.
pub fn set_default_provider(list: &mut Vec<Provider>, id: &str) -> (r: Result<(), String>)
    ensures
        r is Ok <==> listed(records(old(list)@), id@),
        r matches Err(e) ==> e@ == "供应商不存在"@ && *final(list) == *old(list),
        r is Ok ==> records(final(list)@) == defaulted(records(old(list)@), id@),
{
    if position(list.as_slice(), id).is_none() {
        return Err(owned("供应商不存在"));
    }
    assert(listed(records(list@), id@));
    let ghost all = records(list@);
    let mut changed: Vec<Provider> = Vec::new();
    let n: usize = list.len();
    let mut i: usize = 0;
    while i < n
        invariant
            i <= n == list@.len(),
            all == records(list@),
            records(changed@) == defaulted(all, id@).take(i as int),
        decreases n - i,
    {
        let mut p = copy_provider(&list[i]);
        p.default = same(list[i].id.as_str(), id);
        let ghost record = p@;
        let ghost before = records(changed@);
        changed.push(p);
        proof {
            assert(all[i as int] == list@[i as int]@);
            assert(records(changed@) =~= before.push(record));
            assert(defaulted(all, id@).take(i + 1) =~= defaulted(all, id@).take(i as int).push(
                record,
            ));
        }
        i += 1;
    }
    assert(defaulted(all, id@).take(n as int) =~= defaulted(all, id@));
    *list = changed;
    Ok(())
}

/// The first provider of that id.
pub fn find_provider(list: &[Provider], id: &str) -> (r: Option<Provider>)
    ensures
        opt_record(r) == found(records(list@), id@),
{
    match position(list, id) {
        Some(i) => {
            proof {
                let all = records(list@);
                let j = choose|j: int| first_at(all, id@, j);
                assert(first_at(all, id@, i as int));
                assert(all[i as int].id == id@ && all[j].id == id@);
                assert(i == j);
            }
            Some(copy_provider(&list[i]))
        },
        None => None,
    }
}

/// Where a provider is tried out, from its address.
pub open spec fn test_address(url: Seq<char>) -> Seq<char> {
    without_trailing(url, '/') + "/v1/models"@
}

/// Where a provider is tried out; an error where its address is missing.
pub fn test_url(provider: &Provider) -> (r: Result<String, String>)
    ensures
        provider.url@.len() == 0 ==> (r matches Err(e) && e@ == "请先填写 URL"@),
        provider.url@.len() > 0 ==> (r matches Ok(u) && u@ == test_address(provider.url@)),
{
    if provider.url.as_str().is_empty() {
        return Err(owned("请先填写 URL"));
    }
    Ok(join2(trim_trailing(provider.url.as_str(), '/').as_str(), "/v1/models"))
}

/// What trying out a provider comes to.
pub fn test_outcome(reply: Result<(bool, String), String>) -> (r: Result<(), String>)
    ensures
        match reply {
            Err(e) => r matches Err(m) && m@ == "网络错误: "@ + e@,
            Ok((success, status)) => if success {
                r is Ok
            } else {
                r matches Err(m) && m@ == "返回 "@ + status@
            },
        },
{
    match reply {
        Err(e) => Err(join2("网络错误: ", e.as_str())),
        Ok((success, status)) => {
            if success {
                Ok(())
            } else {
                Err(join2("返回 ", status.as_str()))
            }
        },
    }
}

proof fn lemma_filter_keeps(list: Seq<ProviderRecord>, id: Seq<char>, i: int)
    requires
        0 <= i < list.len(),
        list[i].id != id,
    ensures
        without(list, id).contains(list[i]),
    decreases list.len(),
{
    reveal(Seq::filter);
    let rest = list.drop_last();
    if i < list.len() - 1 {
        lemma_filter_keeps(rest, id, i);
        let k = choose|k: int| 0 <= k < without(rest, id).len() && without(rest, id)[k] == rest[i];
        assert(without(list, id)[k] == list[i]);
    } else {
        assert(without(list, id).last() == list[i]);
    }
}

/// The built-in engine is always listed: a stored list gets it, and no change takes it away.
pub proof fn law_builtin_engine_is_always_listed(list: Seq<ProviderRecord>, id: Seq<char>)
    ensures
        listed(completed(list), "builtin-doubao"@),
        listed(list, "builtin-doubao"@) && id != "builtin-doubao"@ ==> listed(
            without(list, id),
            "builtin-doubao"@,
        ),
        listed(list, "builtin-doubao"@) ==> listed(defaulted(list, id), "builtin-doubao"@),
        completed(completed(list)) == completed(list),
{
    if !listed(list, "builtin-doubao"@) {
        assert(completed(list)[0].id == "builtin-doubao"@);
    } else {
        let i = choose|i: int|
            0 <= i < list.len() && (#[trigger] list[i]).id == "builtin-doubao"@;
        assert(defaulted(list, id)[i].id == "builtin-doubao"@);
        if id != "builtin-doubao"@ {
            lemma_filter_keeps(list, id, i);
            let w = without(list, id);
            let k = choose|k: int| 0 <= k < w.len() && w[k] == list[i];
            assert(w[k].id == "builtin-doubao"@);
        }
    }
}

/// After choosing a default, the providers of that id are defaults and no others are.
pub proof fn law_one_default(list: Seq<ProviderRecord>, id: Seq<char>)
    ensures
        forall|i: int|
            0 <= i < list.len() ==> ((#[trigger] defaulted(list, id)[i]).default <==> list[i].id
                == id),
        defaulted(list, id).len() == list.len(),
{
}

/// The provider that is found is the first one of its id, wherever it stands; none is found where
/// none has the id.
pub proof fn law_first_provider_is_found(list: Seq<ProviderRecord>, id: Seq<char>, i: int)
    requires
        0 <= i <= list.len(),
        forall|j: int| 0 <= j < i ==> (#[trigger] list[j]).id != id,
        i < list.len() ==> list[i].id == id,
    ensures
        i < list.len() ==> found(list, id) == Some(list[i]),
        i == list.len() ==> found(list, id) is None,
{
    if i < list.len() {
        assert(first_at(list, id, i));
        let k = choose|k: int| first_at(list, id, k);
        assert(first_at(list, id, k));
        assert(k == i);
    }
}

/// A stored list without the built-in engine gets it in front of all others, which stay as they
/// are. It needs neither an address nor a key, and is the default only where it is alone.
pub proof fn law_builtin_engine_stands_in_front(list: Seq<ProviderRecord>)
    ensures
        (forall|i: int| 0 <= i < list.len() ==> (#[trigger] list[i]).id != "builtin-doubao"@) ==> {
            &&& completed(list).len() == list.len() + 1
            &&& completed(list).skip(1) == list
            &&& completed(list)[0].id == "builtin-doubao"@
            &&& completed(list)[0].name == "豆包 IME"@
            &&& completed(list)[0].url.len() == 0
            &&& completed(list)[0].api_key is None
            &&& completed(list)[0].notes == Some("内置免费引擎，无需配置"@)
            &&& completed(list)[0].default <==> list.len() == 0
        },
        (exists|i: int| 0 <= i < list.len() && (#[trigger] list[i]).id == "builtin-doubao"@)
            ==> completed(list) == list,
{
    assert(completed(list).skip(1) =~= list || completed(list) == list);
}

/// Of the providers, just those of another id stay, each as it was and in the same order.
pub proof fn law_other_providers_stay(
    list: Seq<ProviderRecord>,
    next: ProviderRecord,
    id: Seq<char>,
)
    ensures
        without(Seq::empty(), id) == Seq::<ProviderRecord>::empty(),
        without(list.push(next), id) == if next.id == id {
            without(list, id)
        } else {
            without(list, id).push(next)
        },
{
    reveal(Seq::filter);
    assert(list.push(next).drop_last() =~= list);
}

/// Where the default was removed, the first built-in engine becomes the default; nothing else
/// changes.
pub proof fn law_builtin_engine_steps_in(
    before: Seq<ProviderRecord>,
    after: Seq<ProviderRecord>,
    i: int,
)
    requires
        with_builtin_default(before, after),
        0 <= i < before.len(),
        before[i].id == "builtin-doubao"@,
        forall|j: int| 0 <= j < i ==> (#[trigger] before[j]).id != "builtin-doubao"@,
    ensures
        after.len() == before.len(),
        after[i].default,
        after[i].id == "builtin-doubao"@,
        after[i].name == before[i].name,
        after[i].url == before[i].url,
        after[i].api_key == before[i].api_key,
        forall|j: int| 0 <= j < before.len() && j != i ==> #[trigger] after[j] == before[j],
{
    assert(listed(before, "builtin-doubao"@));
    let k = choose|k: int| #[trigger]
        first_at(before, "builtin-doubao"@, k) && after == before.update(
            k,
            ProviderRecord { default: true, ..before[k] },
        );
    assert(first_at(before, "builtin-doubao"@, k));
    assert(k == i);
}

/// Choosing a default changes nothing else of any provider.
pub proof fn law_choosing_a_default_changes_nothing_else(
    list: Seq<ProviderRecord>,
    id: Seq<char>,
    i: int,
)
    requires
        0 <= i < list.len(),
    ensures
        defaulted(list, id)[i].id == list[i].id,
        defaulted(list, id)[i].name == list[i].name,
        defaulted(list, id)[i].url == list[i].url,
        defaulted(list, id)[i].api_key == list[i].api_key,
        defaulted(list, id)[i].notes == list[i].notes,
{
}

/// A provider holds what the user has filled in; a key or a note that is empty counts as none.
pub proof fn law_provider_is_as_filled_in(
    id: Seq<char>,
    name: Seq<char>,
    url: Seq<char>,
    api_key: Option<Seq<char>>,
    notes: Option<Seq<char>>,
    default: bool,
)
    ensures
        ({
            let p = filled_in(id, name, url, api_key, notes, default);
            &&& p.id == id
            &&& p.name == name
            &&& p.url == url
            &&& p.default == default
            &&& api_key is Some && api_key->0.len() > 0 ==> p.api_key == api_key
            &&& api_key is Some && api_key->0.len() == 0 ==> p.api_key is None
            &&& api_key is None ==> p.api_key is None
            &&& notes is Some && notes->0.len() > 0 ==> p.notes == notes
            &&& notes is Some && notes->0.len() == 0 ==> p.notes is None
            &&& notes is None ==> p.notes is None
        }),
{
}

/// However many slashes an address ends with, a provider is tried out at the list of its models
/// below that address.
pub proof fn law_provider_is_tried_out_at_its_models(address: Seq<char>, slashes: nat)
    requires
        address.len() > 0 ==> address.last() != '/',
    ensures
        test_address(address + Seq::new(slashes, |i: int| '/')) == address + "/v1/models"@,
{
    law_trailing_characters_go(address, '/', slashes);
}

/// The default is gone with a provider only where one of its id was the default.
pub proof fn law_default_goes_with_its_provider(list: Seq<ProviderRecord>, id: Seq<char>, i: int)
    requires
        0 <= i < list.len(),
    ensures
        list[i].id == id && list[i].default ==> default_listed(list, id),
        (forall|j: int| 0 <= j < list.len() ==> (#[trigger] list[j]).id != id || !list[j].default)
            ==> !default_listed(list, id),
        default_listed(defaulted(list, id), id) <==> listed(list, id),
{
    if listed(list, id) {
        let k = choose|k: int| 0 <= k < list.len() && (#[trigger] list[k]).id == id;
        assert(defaulted(list, id)[k].default);
    }
    if default_listed(defaulted(list, id), id) {
        let k = choose|k: int|
            0 <= k < defaulted(list, id).len() && (#[trigger] defaulted(list, id)[k]).id == id
                && defaulted(list, id)[k].default;
        assert(list[k].id == id);
    }
}

} // verus!
