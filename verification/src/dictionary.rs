//! The dictionary of hot words that the user wants recognised.
use vstd::prelude::*;
use vstd::string::*;

use crate::json::{
    indented_list, lemma_item_contents, list_text, parse_json, parsed_json, Json, JsonValue,
};
use crate::permissions::opt_str;
use crate::text::{owned, same, texts, to_chars, trim, trimmed};

verus! {

/// How many terms the dictionary holds at most.
pub const MAX_TERMS: usize = 100;

/// How many characters a term has at most.
pub const MAX_TERM_LEN: usize = 50;

/// The strings of a JSON array that holds nothing but strings, else nothing.
pub open spec fn strings_in(v: JsonValue) -> Seq<Seq<char>> {
    match v {
        JsonValue::Array(items) => if forall|i: int| 0 <= i < items.len() ==> #[trigger] items[i] is Str {
            items.map_values(|x: JsonValue| x->Str_0)
        } else {
            seq![]
        },
        _ => seq![],
    }
}

/// The terms in a stored dictionary; none where there is no file or it cannot be read.
pub open spec fn stored_terms(stored: Option<Seq<char>>) -> Seq<Seq<char>> {
    match stored {
        Some(text) => match parsed_json(text) {
            Ok(v) => strings_in(v),
            Err(_) => seq![],
        },
        None => seq![],
    }
}

/// The terms in a parsed dictionary.
pub fn terms_in(value: &Json) -> (r: Vec<String>)
    ensures
        texts(r@) == strings_in(value@),
{
    let mut list: Vec<String> = Vec::new();
    match value {
        Json::Array(items) => {
            proof {
                lemma_item_contents(items@);
            }
            let ghost all = value@->Array_0;
            let n: usize = items.len();
            let mut i: usize = 0;
            while i < n
                invariant
                    i <= n == items@.len() == all.len(),
                    value@ == JsonValue::Array(all),
                    forall|k: int| 0 <= k < n ==> #[trigger] all[k] == items@[k]@,
                    forall|k: int| 0 <= k < i ==> #[trigger] all[k] is Str,
                    texts(list@) == all.take(i as int).map_values(|x: JsonValue| x->Str_0),
                decreases n - i,
            {
                match items[i].as_str() {
                    Some(s) => {
                        let ghost before = texts(list@);
                        list.push(owned(s));
                        proof {
                            assert(all[i as int] == JsonValue::Str(s@));
                            assert(texts(list@) =~= before.push(s@));
                            assert(all.take(i + 1).map_values(|x: JsonValue| x->Str_0)
                                =~= all.take(i as int).map_values(|x: JsonValue| x->Str_0).push(s@));
                        }
                    },
                    None => {
                        assert(!(all[i as int] is Str));
                        let none: Vec<String> = Vec::new();
                        assert(texts(none@) =~= seq![]);
                        return none;
                    },
                }
                i += 1;
            }
            assert(all.take(n as int) =~= all);
        },
        _ => {
            assert(texts(list@) =~= seq![]);
        },
    }
    list
}

/// The terms, given the text of the stored dictionary.
pub fn get_terms(stored: Option<&str>) -> (r: Vec<String>)
    ensures
        texts(r@) == stored_terms(opt_str(stored)),
{
    match stored {
        Some(text) => match parse_json(text) {
            Ok(value) => terms_in(&value),
            Err(_) => {
                let none: Vec<String> = Vec::new();
                assert(texts(none@) =~= seq![]);
                none
            },
        },
        None => {
            let none: Vec<String> = Vec::new();
            assert(texts(none@) =~= seq![]);
            none
        },
    }
}

/// The terms for the dictionary page; never an error.
pub fn list_terms(stored: Option<&str>) -> (r: Result<Vec<String>, String>)
    ensures
        r is Ok,
        texts(r->Ok_0@) == stored_terms(opt_str(stored)),
{
    Ok(get_terms(stored))
}

/// What is wrong with adding a term; nothing where it can be added.
pub open spec fn refusal(list: Seq<Seq<char>>, term: Seq<char>) -> Option<Seq<char>> {
    let t = trimmed(term);
    if t.len() == 0 {
        Some("热词不能为空"@)
    } else if t.len() > MAX_TERM_LEN {
        Some("热词不超过 50 个字符"@)
    } else if list.contains(t) {
        Some("热词已存在"@)
    } else if list.len() >= MAX_TERMS {
        Some("最多 100 条热词"@)
    } else {
        None
    }
}

/// The dictionary after asking for a term to be added.
pub open spec fn with_term(list: Seq<Seq<char>>, term: Seq<char>) -> Seq<Seq<char>> {
    if refusal(list, term) is None {
        list.push(trimmed(term))
    } else {
        list
    }
}

/// The dictionary without a term.
pub open spec fn without_term(list: Seq<Seq<char>>, term: Seq<char>) -> Seq<Seq<char>> {
    list.filter(|t: Seq<char>| t != term)
}

/// Whether a text is in a list.
fn listed(list: &[String], term: &str) -> (r: bool)
    ensures
        r == texts(list@).contains(term@),
{
    let n: usize = list.len();
    let mut i: usize = 0;
    while i < n
        invariant
            i <= n == list@.len(),
            forall|k: int| 0 <= k < i ==> #[trigger] texts(list@)[k] != term@,
        decreases n - i,
    {
        if same(list[i].as_str(), term) {
            assert(texts(list@)[i as int] == term@);
            return true;
        }
        i += 1;
    }
    false
}

/// Adds a term without its surrounding white space, at the end.
pub fn add_term(list: &mut Vec<String>, term: &str) -> (r: Result<(), String>)
    ensures
        match refusal(texts(old(list)@), term@) {
            Some(message) => r matches Err(e) && e@ == message && *final(list) == *old(list),
            None => r is Ok,
        },
        texts(final(list)@) == with_term(texts(old(list)@), term@),
{
    let t = trim(term);
    let length: usize = to_chars(t.as_str()).len();
    if length == 0 {
        return Err(owned("热词不能为空"));
    }
    if length > MAX_TERM_LEN {
        return Err(owned("热词不超过 50 个字符"));
    }
    if listed(list.as_slice(), t.as_str()) {
        return Err(owned("热词已存在"));
    }
    if list.len() >= MAX_TERMS {
        return Err(owned("最多 100 条热词"));
    }
    let ghost added = t@;
    list.push(t);
    assert(texts(list@) =~= texts(old(list)@).push(added));
    Ok(())
}

/// Removes a term, wherever it stands; never an error.
pub fn remove_term(list: &mut Vec<String>, term: &str) -> (r: Result<(), String>)
    ensures
        r is Ok,
        texts(final(list)@) == without_term(texts(old(list)@), term@),
{
    let ghost all = texts(list@);
    let mut kept: Vec<String> = Vec::new();
    let n: usize = list.len();
    let mut i: usize = 0;
    proof {
        reveal(Seq::filter);
        assert(all.take(0) =~= seq![]);
        assert(texts(kept@) =~= without_term(all.take(0), term@));
    }
    while i < n
        invariant
            i <= n == list@.len(),
            all == texts(list@),
            texts(kept@) == without_term(all.take(i as int), term@),
        decreases n - i,
    {
        proof {
            reveal(Seq::filter);
            assert(all[i as int] == list@[i as int]@);
            assert(all.take(i + 1).drop_last() =~= all.take(i as int));
            assert(all.take(i + 1).last() == all[i as int]);
        }
        if !same(list[i].as_str(), term) {
            let ghost before = texts(kept@);
            kept.push(owned(list[i].as_str()));
            assert(texts(kept@) =~= before.push(all[i as int]));
        }
        i += 1;
    }
    assert(all.take(n as int) =~= all);
    *list = kept;
    Ok(())
}

/// The text of a dictionary, as it is stored. Reading it gives the same terms back.
pub fn terms_text(list: &[String]) -> (r: Result<String, String>)
    ensures
        r is Ok,
        r->Ok_0@ == indented_list(texts(list@)),
        stored_terms(Some(r->Ok_0@)) == texts(list@),
{
    let r = list_text(list);
    proof {
        let all = texts(list@);
        let items = all.map_values(|s: Seq<char>| JsonValue::Str(s));
        assert(forall|i: int| 0 <= i < items.len() ==> #[trigger] items[i] is Str);
        assert(strings_in(JsonValue::Array(items)) =~= all);
    }
    r
}

/// Adds a term to a stored dictionary. The result is the text to store: it reads as the terms so
/// far and the new one, without surrounding white space, at the end.
pub fn term_added(stored: Option<&str>, term: &str) -> (r: Result<String, String>)
    ensures
        ({
            let before = stored_terms(opt_str(stored));
            match refusal(before, term@) {
                Some(message) => r matches Err(e) && e@ == message,
                None => {
                    &&& r matches Ok(text)
                    &&& text@ == indented_list(before.push(trimmed(term@)))
                    &&& stored_terms(Some(text@)) == before.push(trimmed(term@))
                },
            }
        }),
{
    let mut list = get_terms(stored);
    match add_term(&mut list, term) {
        Ok(_) => terms_text(list.as_slice()),
        Err(e) => Err(e),
    }
}

/// Removes a term from a stored dictionary. The result is the text to store: it reads as the other
/// terms.
pub fn term_removed(stored: Option<&str>, term: &str) -> (r: Result<String, String>)
    ensures
        r is Ok,
        r->Ok_0@ == indented_list(without_term(stored_terms(opt_str(stored)), term@)),
        stored_terms(Some(r->Ok_0@)) == without_term(stored_terms(opt_str(stored)), term@),
{
    let mut list = get_terms(stored);
    match remove_term(&mut list, term) {
        Ok(_) => terms_text(list.as_slice()),
        Err(e) => Err(e),
    }
}

/// A dictionary as adding and removing leave it: not too many terms, none of them twice, each of
/// them at least one and not too many characters long.
pub open spec fn tidy(list: Seq<Seq<char>>) -> bool {
    &&& list.len() <= MAX_TERMS
    &&& list.no_duplicates()
    &&& forall|i: int| 0 <= i < list.len() ==> 0 < (#[trigger] list[i]).len() <= MAX_TERM_LEN
}

proof fn lemma_filtered(list: Seq<Seq<char>>, term: Seq<char>)
    ensures
        without_term(list, term).len() <= list.len(),
        forall|t: Seq<char>|
            #![trigger without_term(list, term).contains(t)]
            #![trigger list.contains(t)]
            without_term(list, term).contains(t) <==> list.contains(t) && t != term,
        list.no_duplicates() ==> without_term(list, term).no_duplicates(),
    decreases list.len(),
{
    reveal(Seq::filter);
    if list.len() > 0 {
        let rest = list.drop_last();
        lemma_filtered(rest, term);
        let w = without_term(rest, term);
        let all = without_term(list, term);
        assert(all == if list.last() != term { w.push(list.last()) } else { w });
        assert forall|t: Seq<char>|
            #![trigger all.contains(t)]
            #![trigger list.contains(t)]
            all.contains(t) <==> list.contains(t) && t != term by {
            assert(list.contains(t) <==> rest.contains(t) || list.last() == t) by {
                if list.contains(t) && list.last() != t {
                    let k = choose|k: int| 0 <= k < list.len() && list[k] == t;
                    assert(rest[k] == t);
                }
                if rest.contains(t) {
                    let k = choose|k: int| 0 <= k < rest.len() && rest[k] == t;
                    assert(list[k] == t);
                }
            }
            assert(w.push(list.last()).contains(t) <==> w.contains(t) || list.last() == t) by {
                let pushed = w.push(list.last());
                if pushed.contains(t) && list.last() != t {
                    let k = choose|k: int| 0 <= k < pushed.len() && pushed[k] == t;
                    assert(w[k] == t);
                }
                if w.contains(t) {
                    let k = choose|k: int| 0 <= k < w.len() && w[k] == t;
                    assert(pushed[k] == t);
                }
                assert(pushed.last() == t <==> list.last() == t);
            }
            assert(w.contains(t) <==> rest.contains(t) && t != term);
        }
        if list.no_duplicates() {
            assert(rest.no_duplicates());
            assert(!rest.contains(list.last())) by {
                if rest.contains(list.last()) {
                    let k = choose|k: int| 0 <= k < rest.len() && rest[k] == list.last();
                    assert(list[k] == list[list.len() - 1]);
                }
            }
            assert(!w.contains(list.last()));
            assert forall|i: int, j: int|
                0 <= i < all.len() && 0 <= j < all.len() && i != j implies all[i] != all[j] by {
                if i < w.len() {
                    assert(w.contains(w[i]));
                }
                if j < w.len() {
                    assert(w.contains(w[j]));
                }
            }
        }
    }
}

/// Whatever is added and removed, the dictionary holds at most a hundred terms, none of them twice
/// and none of them empty or too long.
pub proof fn law_dictionary_stays_tidy(list: Seq<Seq<char>>, term: Seq<char>)
    requires
        tidy(list),
    ensures
        tidy(with_term(list, term)),
        tidy(without_term(list, term)),
{
    lemma_filtered(list, term);
    let w = without_term(list, term);
    assert forall|i: int| 0 <= i < w.len() implies 0 < (#[trigger] w[i]).len() <= MAX_TERM_LEN by {
        assert(w.contains(w[i]));
        assert(list.contains(w[i]));
        let k = choose|k: int| 0 <= k < list.len() && list[k] == w[i];
        assert(0 < list[k].len() <= MAX_TERM_LEN);
    }
    let a = with_term(list, term);
    if refusal(list, term) is None {
        assert forall|i: int, j: int| 0 <= i < a.len() && 0 <= j < a.len() && i != j implies a[i]
            != a[j] by {
            if i < list.len() {
                assert(list.contains(list[i]));
            }
            if j < list.len() {
                assert(list.contains(list[j]));
            }
        }
    }
}

/// A term that was added is in the dictionary until it is removed, and then it is gone; every
/// other term stays.
pub proof fn law_added_term_is_there_until_removed(list: Seq<Seq<char>>, term: Seq<char>)
    ensures
        refusal(list, term) is None ==> with_term(list, term).contains(trimmed(term)),
        !without_term(list, term).contains(term),
        forall|t: Seq<char>|
            t != term ==> (without_term(list, term).contains(t) <==> list.contains(t)),
        forall|t: Seq<char>| list.contains(t) ==> with_term(list, term).contains(t),
        refusal(list, term) is None ==> without_term(with_term(list, term), trimmed(term)) == list,
{
    lemma_filtered(list, term);
    let a = with_term(list, term);
    if refusal(list, term) is None {
        let t = trimmed(term);
        assert(a.last() == t);
        reveal(Seq::filter);
        assert(a.drop_last() =~= list);
        lemma_untouched(list, t);
        assert forall|x: Seq<char>| list.contains(x) implies a.contains(x) by {
            let k = choose|k: int| 0 <= k < list.len() && list[k] == x;
            assert(a[k] == x);
        }
    }
}

proof fn lemma_untouched(list: Seq<Seq<char>>, term: Seq<char>)
    requires
        !list.contains(term),
    ensures
        without_term(list, term) == list,
    decreases list.len(),
{
    reveal(Seq::filter);
    if list.len() > 0 {
        assert(list.contains(list.last()));
        assert forall|k: int| 0 <= k < list.drop_last().len() implies list.drop_last()[k]
            != term by {
            assert(list.contains(list[k]));
        }
        lemma_untouched(list.drop_last(), term);
        assert(list.drop_last().push(list.last()) =~= list);
    }
}

/// A term is taken exactly where it has 1 to 50 characters besides surrounding white space, is not
/// there yet, and fewer than 100 are; what is wrong otherwise is told, the term's own fault first.
pub proof fn law_term_is_refused_for_a_reason(list: Seq<Seq<char>>, term: Seq<char>)
    ensures
        refusal(list, term) is None <==> {
            &&& 1 <= trimmed(term).len() <= 50
            &&& !list.contains(trimmed(term))
            &&& list.len() < 100
        },
        trimmed(term).len() == 0 ==> refusal(list, term) == Some("热词不能为空"@),
        trimmed(term).len() > 50 ==> refusal(list, term) == Some("热词不超过 50 个字符"@),
        1 <= trimmed(term).len() <= 50 && list.contains(trimmed(term)) ==> refusal(list, term)
            == Some("热词已存在"@),
        1 <= trimmed(term).len() <= 50 && !list.contains(trimmed(term)) && list.len() >= 100
            ==> refusal(list, term) == Some("最多 100 条热词"@),
{
}

/// A term that is taken stands last, without surrounding white space; all terms before it stay
/// where they are. One that is refused changes nothing.
pub proof fn law_new_term_stands_last(list: Seq<Seq<char>>, term: Seq<char>)
    ensures
        refusal(list, term) is None ==> with_term(list, term).len() == list.len() + 1 && with_term(
            list,
            term,
        ).drop_last() == list && with_term(list, term).last() == trimmed(term),
        refusal(list, term) is Some ==> with_term(list, term) == list,
{
    assert(list.push(trimmed(term)).drop_last() =~= list);
}

/// Of the terms, just the others stay, in the same order, however often the removed one stood
/// there.
pub proof fn law_other_terms_stay(list: Seq<Seq<char>>, next: Seq<char>, term: Seq<char>)
    ensures
        without_term(Seq::empty(), term) == Seq::<Seq<char>>::empty(),
        without_term(list.push(next), term) == if next == term {
            without_term(list, term)
        } else {
            without_term(list, term).push(next)
        },
{
    reveal(Seq::filter);
    assert(list.push(next).drop_last() =~= list);
}

/// An array of strings holds just those strings as terms; a value that is anything else, or an
/// array with anything else in it, holds none.
pub proof fn law_terms_are_strings(terms: Seq<Seq<char>>, items: Seq<JsonValue>, other: JsonValue)
    ensures
        strings_in(JsonValue::Array(terms.map_values(|t: Seq<char>| JsonValue::Str(t)))) == terms,
        (exists|i: int| 0 <= i < items.len() && !(#[trigger] items[i] is Str)) ==> strings_in(
            JsonValue::Array(items),
        ).len() == 0,
        !(other is Array) ==> strings_in(other).len() == 0,
{
    assert(strings_in(JsonValue::Array(terms.map_values(|t: Seq<char>| JsonValue::Str(t))))
        =~= terms);
}

/// A dictionary that is missing or cannot be parsed has no terms; else it has those in its text.
pub proof fn law_damaged_dictionary_is_empty(text: Seq<char>)
    ensures
        stored_terms(None).len() == 0,
        parsed_json(text) is Err ==> stored_terms(Some(text)).len() == 0,
        parsed_json(text) matches Ok(v) ==> stored_terms(Some(text)) == strings_in(v),
{
}

} // verus!
