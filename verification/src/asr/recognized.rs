//! Recognised text: picking it out of a result message and merging it with what came before.
use vstd::prelude::*;
use vstd::string::*;

use crate::json::{item_contents, lemma_item_contents, parse_json, parsed_json, Json, JsonValue};
use crate::text::{
    alphanumeric, from_char_range, has_substring, join2, join3, lemma_trimming_is_settled, occurs_at,
    owned, same, starts_with, to_chars, trim, trimmed, white_space,
};

verus! {

/// Whether a space goes between two pieces of text that end and begin so.
pub open spec fn spaced(prev: char, next: char) -> bool {
    &&& !white_space(prev)
    &&& !white_space(next)
    &&& alphanumeric(next)
    &&& (alphanumeric(prev) || ".,;:!?"@.contains(prev))
}

/// `text` behind `target`, with a space between them where words would run together.
pub open spec fn appended(target: Seq<char>, text: Seq<char>) -> Seq<char> {
    if text.len() == 0 {
        target
    } else if target.len() == 0 {
        text
    } else if spaced(target.last(), text[0]) {
        target + " "@ + text
    } else {
        target + text
    }
}

/// Appends a piece of text, with a space where words would run together.
pub fn append_segment(target: &str, text: &str) -> (r: String)
    ensures
        r@ == appended(target@, text@),
{
    let t = to_chars(target);
    let x = to_chars(text);
    if x.len() == 0 {
        return owned(target);
    }
    if t.len() == 0 {
        return owned(text);
    }
    let prev: char = t[t.len() - 1];
    let next: char = x[0];
    if !prev.is_whitespace() && !next.is_whitespace() {
        let stop = prev == '.' || prev == ',' || prev == ';' || prev == ':' || prev == '!' || prev
            == '?';
        proof {
            reveal_strlit(".,;:!?");
            let p = ".,;:!?"@;
            assert(p =~= seq!['.', ',', ';', ':', '!', '?']);
            if stop {
                let k: int = if prev == '.' {
                    0
                } else if prev == ',' {
                    1
                } else if prev == ';' {
                    2
                } else if prev == ':' {
                    3
                } else if prev == '!' {
                    4
                } else {
                    5
                };
                assert(p[k] == prev);
            }
            assert(stop <==> p.contains(prev));
        }
        if next.is_alphanumeric() && (prev.is_alphanumeric() || stop) {
            return join3(target, " ", text);
        }
    }
    join2(target, text)
}

/// The longest overlap, of at most `n` and at least two characters, of the end of `base` with the
/// start of `incoming`; zero where there is none.
pub open spec fn overlap(base: Seq<char>, incoming: Seq<char>, n: nat) -> nat
    decreases n,
{
    if n < 2 {
        0
    } else if base.skip(base.len() - n) == incoming.take(n as int) {
        n
    } else {
        overlap(base, incoming, (n - 1) as nat)
    }
}

/// `incoming` merged into `base`, both without surrounding white space: the one that extends the
/// other, or the two joined at their overlap, or one behind the other.
pub open spec fn merged(base: Seq<char>, incoming: Seq<char>) -> Seq<char> {
    let b = trimmed(base);
    let i = trimmed(incoming);
    let shorter = if b.len() <= i.len() {
        b.len()
    } else {
        i.len()
    };
    let k = overlap(b, i, shorter);
    if b.is_prefix_of(i) {
        i
    } else if i.is_prefix_of(b) {
        b
    } else if k > 0 {
        b + i.skip(k as int)
    } else {
        appended(b, i)
    }
}

/// Merges newly recognised text into what was recognised before.
pub fn merge_recognized_text(base: &str, incoming_raw: &str) -> (r: String)
    ensures
        r@ == merged(base@, incoming_raw@),
{
    let incoming = trim(incoming_raw);
    let have = trim(base);
    if starts_with(incoming.as_str(), have.as_str()) {
        return incoming;
    }
    if starts_with(have.as_str(), incoming.as_str()) {
        return have;
    }
    let b = to_chars(have.as_str());
    let i = to_chars(incoming.as_str());
    let shorter: usize = if b.len() <= i.len() {
        b.len()
    } else {
        i.len()
    };
    let mut len: usize = shorter;
    while len >= 2
        invariant
            len <= shorter <= b@.len(),
            shorter <= i@.len(),
            shorter == b@.len() || shorter == i@.len(),
            b@ == have@,
            have@ == trimmed(base@),
            i@ == incoming@,
            incoming@ == trimmed(incoming_raw@),
            !b@.is_prefix_of(i@),
            !i@.is_prefix_of(b@),
            overlap(b@, i@, shorter as nat) == overlap(b@, i@, len as nat),
        decreases len,
    {
        let suffix = from_char_range(b.as_slice(), b.len() - len, b.len());
        proof {
            assert(suffix@ =~= b@.skip(b@.len() - len));
            assert(i@.subrange(0, len as int) =~= i@.take(len as int));
        }
        if starts_with(incoming.as_str(), suffix.as_str()) {
            let rest = from_char_range(i.as_slice(), len, i.len());
            assert(rest@ =~= i@.skip(len as int));
            return join2(have.as_str(), rest.as_str());
        }
        len -= 1;
    }
    append_segment(have.as_str(), incoming.as_str())
}

proof fn lemma_overlap(base: Seq<char>, incoming: Seq<char>, n: nat)
    requires
        n <= base.len(),
        n <= incoming.len(),
    ensures
        overlap(base, incoming, n) <= n,
        overlap(base, incoming, n) > 0 ==> base.skip(base.len() - overlap(base, incoming, n))
            == incoming.take(overlap(base, incoming, n) as int),
    decreases n,
{
    if n >= 2 && base.skip(base.len() - n) != incoming.take(n as int) {
        lemma_overlap(base, incoming, (n - 1) as nat);
    }
}

proof fn lemma_occurs(s: Seq<char>, p: Seq<char>, i: int)
    requires
        0 <= i,
        i + p.len() <= s.len(),
        s.subrange(i, i + p.len()) =~= p,
    ensures
        has_substring(s, p),
{
    assert(occurs_at(s, p, i));
}

/// Merging loses nothing: the result begins with the text that was there, and the new text stands
/// in it.
pub proof fn law_merge_keeps_both(base: Seq<char>, incoming: Seq<char>)
    ensures
        trimmed(base).is_prefix_of(merged(base, incoming)),
        has_substring(merged(base, incoming), trimmed(incoming)),
{
    let b = trimmed(base);
    let i = trimmed(incoming);
    let m = merged(base, incoming);
    let shorter = if b.len() <= i.len() {
        b.len()
    } else {
        i.len()
    };
    let k = overlap(b, i, shorter);
    lemma_overlap(b, i, shorter);
    reveal_strlit(" ");
    if b.is_prefix_of(i) {
        lemma_occurs(m, i, 0);
    } else if i.is_prefix_of(b) {
        assert(b.is_prefix_of(m)) by {
            assert(b.take(b.len() as int) =~= b);
        }
        lemma_occurs(m, i, 0);
    } else if k > 0 {
        assert(m.subrange(0, b.len() as int) =~= b);
        let at = b.len() - k;
        assert forall|j: int| 0 <= j < i.len() implies m.subrange(at, at + i.len())[j] == i[j] by {
            if j < k {
                assert(b.skip(at)[j] == i.take(k as int)[j]);
            }
        }
        assert(m.subrange(at, at + i.len()) =~= i);
        lemma_occurs(m, i, at);
    } else {
        assert(m.subrange(0, b.len() as int) =~= b);
        let at = m.len() - i.len();
        assert(m.subrange(at, at + i.len()) =~= i);
        lemma_occurs(m, i, at);
    }
}

/// Merging the same text again changes nothing, be it the text that was there or one that was just
/// merged in. A single character that neither text begins with is the exception: it is too short to
/// count as an overlap, so it is appended each time.
pub proof fn law_merge_is_idempotent(base: Seq<char>, incoming: Seq<char>)
    requires
        trimmed(incoming).len() == 1 ==> trimmed(incoming).is_prefix_of(trimmed(base)) || trimmed(
            base,
        ).is_prefix_of(trimmed(incoming)),
    ensures
        merged(base, base) == trimmed(base),
        merged(merged(base, incoming), incoming) == merged(base, incoming),
{
    let b = trimmed(base);
    let i = trimmed(incoming);
    let m = merged(base, incoming);
    let shorter = if b.len() <= i.len() {
        b.len()
    } else {
        i.len()
    };
    let k = overlap(b, i, shorter);
    assert(b.take(b.len() as int) =~= b);
    lemma_trimming_is_settled(base);
    lemma_trimming_is_settled(incoming);
    if !b.is_prefix_of(i) && !i.is_prefix_of(b) {
        lemma_overlap(b, i, shorter);
        reveal_strlit(" ");
        assert(m.skip(m.len() - i.len()) =~= i.take(i.len() as int)) by {
            if k > 0 {
                let at = m.len() - i.len();
                assert forall|j: int| 0 <= j < i.len() implies m.skip(at)[j] == i[j] by {
                    if j < k {
                        assert(b.skip(b.len() - k)[j] == i.take(k as int)[j]);
                    }
                }
            }
        }
        assert(m[0] == b[0]);
        assert(m.last() == i.last()) by {
            assert(m.skip(m.len() - i.len())[i.len() - 1] == i.take(i.len() as int)[i.len() - 1]);
        }
        assert(trimmed(m) == m);
        assert(i.skip(i.len() as int) =~= seq![]);
        assert(m + i.skip(i.len() as int) =~= m);
        assert(overlap(m, i, i.len()) == i.len());
    } else {
        assert(trimmed(m) == m);
        assert(m.take(m.len() as int) =~= m);
    }
}

/// The text of one result object, where it has any.
pub open spec fn result_text(v: JsonValue) -> Option<Seq<char>> {
    match v.str_member("text"@) {
        Some(t) if t.len() > 0 => Some(t),
        _ => None,
    }
}

/// Whether a result object is final: the second recognition pass, or speech that has ended and is
/// no longer interim.
pub open spec fn result_is_final(v: JsonValue) -> bool {
    let interim = match v.bool_member("is_interim"@) {
        Some(b) => b,
        None => true,
    };
    let finished = v.bool_member("is_vad_finished"@) == Some(true);
    let second_pass = match v.member("extra"@) {
        Some(e) => e.bool_member("nonstream_result"@) == Some(true),
        None => false,
    };
    second_pass || (!interim && finished)
}

/// The texts of the result objects one behind the other, and whether the last of them is final.
pub open spec fn gathered(results: Seq<JsonValue>) -> (Seq<char>, bool)
    decreases results.len(),
{
    if results.len() == 0 {
        (seq![], false)
    } else {
        let before = gathered(results.drop_last());
        match result_text(results.last()) {
            Some(t) => (appended(before.0, t), result_is_final(results.last())),
            None => before,
        }
    }
}

/// The text in a result message and whether it is final; `None` where there is no text.
pub open spec fn candidate(message: JsonValue) -> Option<(Seq<char>, bool)> {
    match message.member("results"@) {
        Some(JsonValue::Array(results)) => {
            let g = gathered(results);
            if g.0.len() == 0 {
                None
            } else {
                Some(g)
            }
        },
        _ => None,
    }
}

/// Picks the text out of a parsed result message.
pub fn text_candidate(json: &Json) -> (r: Option<(String, bool)>)
    ensures
        match r {
            Some((t, last)) => candidate(json@) == Some((t@, last)),
            None => candidate(json@) is None,
        },
{
    let results = match json.get("results") {
        Some(Json::Array(results)) => results,
        _ => {
            return None;
        },
    };
    let ghost all = item_contents(results@);
    proof {
        lemma_item_contents(results@);
    }
    let mut aggregate = String::new();
    let mut last_final = false;
    let n: usize = results.len();
    let mut i: usize = 0;
    assert(all.take(0) =~= seq![]);
    while i < n
        invariant
            i <= n == results@.len() == all.len(),
            forall|k: int| 0 <= k < n ==> #[trigger] all[k] == results@[k]@,
            gathered(all.take(i as int)) == (aggregate@, last_final),
        decreases n - i,
    {
        let obj = &results[i];
        proof {
            assert(all.take(i + 1).drop_last() =~= all.take(i as int));
            assert(all.take(i + 1).last() == obj@);
        }
        i += 1;
        let text = match obj.get_str("text") {
            Some(t) => t,
            None => {
                continue;
            },
        };
        if text.is_empty() {
            continue;
        }
        let interim = match obj.get_bool("is_interim") {
            Some(b) => b,
            None => true,
        };
        let finished = match obj.get_bool("is_vad_finished") {
            Some(b) => b,
            None => false,
        };
        let second_pass = match obj.get("extra") {
            Some(e) => match e.get_bool("nonstream_result") {
                Some(b) => b,
                None => false,
            },
            None => false,
        };
        aggregate = append_segment(aggregate.as_str(), text);
        last_final = second_pass || (!interim && finished);
    }
    assert(all.take(n as int) =~= all);
    if aggregate.as_str().is_empty() {
        None
    } else {
        Some((aggregate, last_final))
    }
}

/// The text in a result message that came as JSON text.
pub open spec fn candidate_in_text(text: Seq<char>) -> Option<(Seq<char>, bool)> {
    match parsed_json(text) {
        Ok(message) => candidate(message),
        Err(_) => None,
    }
}

/// Picks the text out of a result message.
pub fn extract_text_candidate(result_json: &str) -> (r: Option<(String, bool)>)
    ensures
        match r {
            Some((t, last)) => candidate_in_text(result_json@) == Some((t@, last)),
            None => candidate_in_text(result_json@) is None,
        },
{
    match parse_json(result_json) {
        Ok(json) => text_candidate(&json),
        Err(_) => None,
    }
}

/// What merging gives neither begins nor ends with white space.
pub proof fn law_merged_text_is_trimmed(base: Seq<char>, incoming: Seq<char>)
    ensures
        trimmed(merged(base, incoming)) == merged(base, incoming),
{
    let b = trimmed(base);
    let i = trimmed(incoming);
    let m = merged(base, incoming);
    lemma_trimming_is_settled(base);
    lemma_trimming_is_settled(incoming);
    if !b.is_prefix_of(i) && !i.is_prefix_of(b) {
        let shorter = if b.len() <= i.len() {
            b.len()
        } else {
            i.len()
        };
        lemma_overlap(b, i, shorter);
        reveal_strlit(" ");
        let k = overlap(b, i, shorter);
        assert(m[0] == b[0]);
        assert(m.last() == i.last()) by {
            if k > 0 && k == i.len() {
                assert(b.skip(b.len() - k)[k - 1] == i.take(k as int)[k - 1]);
            }
        }
    }
}

/// Merging makes nothing up: behind the text that was there stands the rest of the new text from
/// some place on, or all of it behind a single space. Where the one text goes on from the other,
/// the longer one is the result.
pub proof fn law_merge_invents_nothing(base: Seq<char>, incoming: Seq<char>)
    ensures
        ({
            let b = trimmed(base);
            let i = trimmed(incoming);
            let m = merged(base, incoming);
            &&& b.is_prefix_of(i) ==> m == i
            &&& i.is_prefix_of(b) && !b.is_prefix_of(i) ==> m == b
            &&& m.len() <= b.len() + 1 + i.len()
            &&& m == b + seq![' '] + i || exists|k: int|
                0 <= k <= i.len() && m == b + #[trigger] i.skip(k)
        }),
{
    let b = trimmed(base);
    let i = trimmed(incoming);
    let m = merged(base, incoming);
    let shorter = if b.len() <= i.len() {
        b.len()
    } else {
        i.len()
    };
    lemma_overlap(b, i, shorter);
    reveal_strlit(" ");
    assert(" "@ =~= seq![' ']);
    if b.is_prefix_of(i) {
        assert(m =~= b + i.skip(b.len() as int));
    } else if i.is_prefix_of(b) {
        assert(m =~= b + i.skip(i.len() as int));
    } else if overlap(b, i, shorter) > 0 {
        assert(m == b + i.skip(overlap(b, i, shorter) as int));
    } else {
        assert(i.skip(0) =~= i);
        if m != b + seq![' '] + i {
            assert(m =~= b + i.skip(0));
        }
    }
}

/// Texts that have nothing in common are put one behind the other. A space stands between them
/// just where the second begins with a letter or a digit, and the first ends with one or with a
/// mark that ends a clause.
pub proof fn law_words_do_not_run_together(target: Seq<char>, text: Seq<char>)
    requires
        target.len() > 0,
        text.len() > 0,
    ensures
        ({
            let last = target.last();
            let mark = last == '.' || last == ',' || last == ';' || last == ':' || last == '!'
                || last == '?';
            let spaced = !white_space(last) && !white_space(text[0]) && alphanumeric(text[0]) && (
            alphanumeric(last) || mark);
            &&& spaced ==> appended(target, text) == target + seq![' '] + text
            &&& !spaced ==> appended(target, text) == target + text
        }),
{
    reveal_strlit(" ");
    reveal_strlit(".,;:!?");
    assert(" "@ =~= seq![' ']);
    let p = ".,;:!?"@;
    assert(p =~= seq!['.', ',', ';', ':', '!', '?']);
    assert(p[0] == '.' && p[1] == ',' && p[2] == ';' && p[3] == ':' && p[4] == '!' && p[5] == '?');
}

/// Where the end of the one text is the start of the other, they are joined there: at least two
/// characters, and as many as there are.
pub proof fn law_longest_overlap_is_joined(base: Seq<char>, incoming: Seq<char>, n: int)
    requires
        2 <= n <= trimmed(base).len(),
        n <= trimmed(incoming).len(),
        trimmed(base).skip(trimmed(base).len() - n) == trimmed(incoming).take(n),
    ensures
        merged(base, incoming).len() <= trimmed(base).len() + trimmed(incoming).len() - n,
{
    let b = trimmed(base);
    let i = trimmed(incoming);
    let shorter = if b.len() <= i.len() {
        b.len()
    } else {
        i.len()
    };
    lemma_overlap(b, i, shorter);
    lemma_overlap_is_longest(b, i, shorter, n as nat);
}

proof fn lemma_overlap_is_longest(base: Seq<char>, incoming: Seq<char>, most: nat, n: nat)
    requires
        2 <= n <= most,
        base.skip(base.len() - n) == incoming.take(n as int),
    ensures
        overlap(base, incoming, most) >= n,
    decreases most,
{
    if n < most && base.skip(base.len() - most) != incoming.take(most as int) {
        lemma_overlap_is_longest(base, incoming, (most - 1) as nat, n);
    }
}

/// A result is final where it comes from the second pass, whatever else it says, or where speech has
/// ended and it says that it is not interim; without that word it counts as interim.
pub proof fn law_final_results(v: JsonValue)
    ensures
        (v.member("extra"@) matches Some(e) && e.bool_member("nonstream_result"@) == Some(true))
            ==> result_is_final(v),
        v.bool_member("is_interim"@) == Some(false) && v.bool_member("is_vad_finished"@) == Some(
            true,
        ) ==> result_is_final(v),
        v.member("extra"@) is None && (v.bool_member("is_interim"@) != Some(false)
            || v.bool_member("is_vad_finished"@) != Some(true)) ==> !result_is_final(v),
{
}

/// The texts of the results stand one behind the other, and the last result with a text says whether
/// they are final. A result without a text changes nothing.
pub proof fn law_results_follow_each_other(results: Seq<JsonValue>, next: JsonValue)
    ensures
        gathered(Seq::empty()).0.len() == 0 && !gathered(Seq::empty()).1,
        next.str_member("text"@) is None || next.str_member("text"@)->0.len() == 0 ==> gathered(
            results.push(next),
        ) == gathered(results),
        next.str_member("text"@) is Some && next.str_member("text"@)->0.len() > 0 ==> {
            &&& gathered(results.push(next)).0 == appended(
                gathered(results).0,
                next.str_member("text"@)->0,
            )
            &&& gathered(results.push(next)).1 == result_is_final(next)
        },
{
    assert(results.push(next).drop_last() =~= results);
}

/// A message has a text only where its results have one; a message that cannot be parsed has none.
pub proof fn law_text_of_a_message(message: JsonValue, text: Seq<char>)
    ensures
        message.member("results"@) matches Some(JsonValue::Array(results)) ==> (if gathered(
            results,
        ).0.len() > 0 {
            candidate(message) == Some(gathered(results))
        } else {
            candidate(message) is None
        }),
        message.member("results"@) is None ==> candidate(message) is None,
        parsed_json(text) is Err ==> candidate_in_text(text) is None,
        parsed_json(text) == Ok::<JsonValue, Seq<char>>(message) ==> candidate_in_text(text)
            == candidate(message),
{
}

} // verus!
