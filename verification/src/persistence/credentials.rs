//! Credentials: what is kept of each provider, and how the whole is cut into parts that a system's
//! vault can take.
use vstd::prelude::*;
use vstd::string::*;

use crate::text::{
    blank, decimal, decimal_text, is_blank, join2, join3, law_decimal_digits_read_back,
    number_read, owned, same, texts, to_chars,
};
use crate::types::{opt_copy, opt_text, Platform};

verus! {

/// How many UTF-16 units one part holds at most.
pub const KEYRING_CHUNK_MAX_UTF16_UNITS: usize = 1000;

/// How often a vault is read before its failure counts, where failures pass.
pub const KEYRING_READ_RETRY_ATTEMPTS: u64 = 4;

/// The wait after the first failure; it grows with each, in milliseconds.
pub const KEYRING_READ_RETRY_BACKOFF_MS: u64 = 60;

/// What is kept of a provider of speech recognition.
#[derive(Debug)]
pub struct CredsAsrEntry {
    pub api_key: Option<String>,
    pub base_url: Option<String>,
    pub model: Option<String>,
    pub app_key: Option<String>,
    pub access_key: Option<String>,
    pub resource_id: Option<String>,
    pub auth_mode: Option<String>,
    pub volcengine_api_key: Option<String>,
    pub vocabulary_id: Option<String>,
    pub advanced_config: Option<String>,
    pub xfyun_app_id: Option<String>,
    pub xfyun_api_key: Option<String>,
}

/// A text that is missing or empty.
pub open spec fn nothing(s: Option<String>) -> bool {
    s matches Some(t) ==> t@.len() == 0
}

/// Whether a text is missing or empty.
fn is_nothing(s: &Option<String>) -> (r: bool)
    ensures
        r == nothing(*s),
{
    match s {
        Some(t) => t.as_str().is_empty(),
        None => true,
    }
}

impl CredsAsrEntry {
    /// Nothing is kept.
    pub open spec fn empty(self) -> bool {
        &&& nothing(self.api_key)
        &&& nothing(self.base_url)
        &&& nothing(self.model)
        &&& nothing(self.app_key)
        &&& nothing(self.access_key)
        &&& nothing(self.resource_id)
        &&& nothing(self.auth_mode)
        &&& nothing(self.volcengine_api_key)
        &&& nothing(self.vocabulary_id)
        &&& nothing(self.advanced_config)
        &&& nothing(self.xfyun_app_id)
        &&& nothing(self.xfyun_api_key)
    }

    /// Whether nothing is kept.
    pub fn is_empty(&self) -> (r: bool)
        ensures
            r == self.empty(),
    {
        is_nothing(&self.api_key) && is_nothing(&self.base_url) && is_nothing(&self.model)
            && is_nothing(&self.app_key) && is_nothing(&self.access_key) && is_nothing(
            &self.resource_id,
        ) && is_nothing(&self.auth_mode) && is_nothing(&self.volcengine_api_key) && is_nothing(
            &self.vocabulary_id,
        ) && is_nothing(&self.advanced_config) && is_nothing(&self.xfyun_app_id) && is_nothing(
            &self.xfyun_api_key,
        )
    }
}

/// What is kept of a language model.
#[derive(Debug)]
pub struct CredsLlmEntry {
    pub display_name: Option<String>,
    pub api_key: Option<String>,
    pub base_url: Option<String>,
    pub model: Option<String>,
    /// A number, as it is written.
    pub temperature: Option<String>,
    pub extra_headers: Option<Vec<(String, String)>>,
}

impl CredsLlmEntry {
    /// Nothing is kept.
    pub open spec fn empty(self) -> bool {
        &&& nothing(self.display_name)
        &&& nothing(self.api_key)
        &&& nothing(self.base_url)
        &&& nothing(self.model)
        &&& self.temperature is None
        &&& self.extra_headers matches Some(h) ==> h@.len() == 0
    }

    /// Whether nothing is kept.
    pub fn is_empty(&self) -> (r: bool)
        ensures
            r == self.empty(),
    {
        let no_headers = match &self.extra_headers {
            Some(h) => h.len() == 0,
            None => true,
        };
        is_nothing(&self.display_name) && is_nothing(&self.api_key) && is_nothing(&self.base_url)
            && is_nothing(&self.model) && self.temperature.is_none() && no_headers
    }
}

/// All credentials.
pub struct CredsRoot {
    pub version: u32,
    pub active_asr: String,
    pub active_llm: String,
    pub asr: Vec<(String, CredsAsrEntry)>,
    pub llm: Vec<(String, CredsLlmEntry)>,
    pub marketplace_token: Option<String>,
}

impl Default for CredsRoot {
    fn default() -> (r: CredsRoot)
        ensures
            r.version == 0,
            r.active_asr@ == "doubao"@,
            r.active_llm@ == "ark"@,
            r.asr@.len() == 0,
            r.llm@.len() == 0,
            r.marketplace_token is None,
    {
        CredsRoot {
            version: 0,
            active_asr: owned("doubao"),
            active_llm: owned("ark"),
            asr: Vec::new(),
            llm: Vec::new(),
            marketplace_token: None,
        }
    }
}

/// The providers of which something is kept.
pub open spec fn kept_asr(v: Seq<(String, CredsAsrEntry)>) -> Seq<(String, CredsAsrEntry)>
    decreases v.len(),
{
    if v.len() == 0 {
        seq![]
    } else {
        let rest = kept_asr(v.drop_last());
        if v.last().1.empty() {
            rest
        } else {
            rest.push(v.last())
        }
    }
}

/// The language models of which something is kept.
pub open spec fn kept_llm(v: Seq<(String, CredsLlmEntry)>) -> Seq<(String, CredsLlmEntry)>
    decreases v.len(),
{
    if v.len() == 0 {
        seq![]
    } else {
        let rest = kept_llm(v.drop_last());
        if v.last().1.empty() {
            rest
        } else {
            rest.push(v.last())
        }
    }
}

/// The credentials without providers of which nothing is kept.
pub fn clean_credentials(root: CredsRoot) -> (r: CredsRoot)
    ensures
        r.asr@ == kept_asr(root.asr@),
        r.llm@ == kept_llm(root.llm@),
        r == (CredsRoot { asr: r.asr, llm: r.llm, ..root }),
{
    let mut root = root;
    let ghost all_asr = root.asr@;
    let ghost all_llm = root.llm@;
    let mut from_asr: Vec<(String, CredsAsrEntry)> = Vec::new();
    let mut from_llm: Vec<(String, CredsLlmEntry)> = Vec::new();
    std::mem::swap(&mut from_asr, &mut root.asr);
    std::mem::swap(&mut from_llm, &mut root.llm);
    let mut asr: Vec<(String, CredsAsrEntry)> = Vec::new();
    let ghost mut seen: int = 0;
    assert(kept_asr(all_asr.take(0)) =~= seq![]);
    while from_asr.len() > 0
        invariant
            0 <= seen <= all_asr.len(),
            from_asr@ == all_asr.skip(seen),
            asr@ == kept_asr(all_asr.take(seen)),
        decreases from_asr@.len(),
    {
        let entry = from_asr.remove(0);
        proof {
            assert(all_asr.take(seen + 1).drop_last() =~= all_asr.take(seen));
            assert(entry == all_asr[seen]);
            seen = seen + 1;
            assert(from_asr@ =~= all_asr.skip(seen));
        }
        if !entry.1.is_empty() {
            asr.push(entry);
        }
    }
    assert(all_asr.take(seen) =~= all_asr);
    let mut llm: Vec<(String, CredsLlmEntry)> = Vec::new();
    let ghost mut seen_llm: int = 0;
    assert(kept_llm(all_llm.take(0)) =~= seq![]);
    while from_llm.len() > 0
        invariant
            0 <= seen_llm <= all_llm.len(),
            from_llm@ == all_llm.skip(seen_llm),
            llm@ == kept_llm(all_llm.take(seen_llm)),
        decreases from_llm@.len(),
    {
        let entry = from_llm.remove(0);
        proof {
            assert(all_llm.take(seen_llm + 1).drop_last() =~= all_llm.take(seen_llm));
            assert(entry == all_llm[seen_llm]);
            seen_llm = seen_llm + 1;
            assert(from_llm@ =~= all_llm.skip(seen_llm));
        }
        if !entry.1.is_empty() {
            llm.push(entry);
        }
    }
    assert(all_llm.take(seen_llm) =~= all_llm);
    root.asr = asr;
    root.llm = llm;
    root
}

/// The token for the marketplace, where one is kept.
pub open spec fn marketplace_token_of(root: CredsRoot) -> Option<Seq<char>> {
    match root.marketplace_token {
        Some(t) if !blank(t@) => Some(t@),
        _ => None,
    }
}

/// The token for the marketplace, where one is kept.
pub fn lookup_marketplace_github_token(root: &CredsRoot) -> (r: Option<String>)
    ensures
        opt_text(r) == marketplace_token_of(*root),
{
    match &root.marketplace_token {
        Some(t) => {
            if is_blank(t.as_str()) {
                None
            } else {
                Some(owned(t.as_str()))
            }
        },
        None => None,
    }
}

/// The token that is kept of one that was given.
pub open spec fn token_kept(value: Option<String>) -> Option<String> {
    match value {
        Some(t) if !blank(t@) => Some(t),
        _ => None,
    }
}

/// Keeps a token for the marketplace, or none. A blank one is none.
pub fn write_marketplace_github_token(root: &mut CredsRoot, value: Option<String>)
    ensures
        final(root).marketplace_token == token_kept(value),
        *final(root) == (CredsRoot {
            marketplace_token: final(root).marketplace_token,
            ..*old(root)
        }),
{
    root.marketplace_token = match value {
        Some(t) => {
            if is_blank(t.as_str()) {
                None
            } else {
                Some(t)
            }
        },
        None => None,
    };
}

/// The credentials that the program works with.
pub struct CredentialsVault {
    pub root: CredsRoot,
}

impl CredentialsVault {
    /// A vault that holds what there is before anything was kept.
    pub fn new() -> (r: CredentialsVault)
        ensures
            r.root.version == 0,
            r.root.active_asr@ == "doubao"@,
            r.root.active_llm@ == "ark"@,
            r.root.asr@.len() == 0,
            r.root.llm@.len() == 0,
            r.root.marketplace_token is None,
    {
        CredentialsVault { root: CredsRoot::default() }
    }

    /// The engine for dictation.
    pub fn get_active_asr(&self) -> (r: String)
        ensures
            r@ == self.root.active_asr@,
    {
        owned(self.root.active_asr.as_str())
    }

    /// Keeps the engine for dictation. Providers of which nothing is kept go.
    pub fn set_active_asr_provider(&mut self, id: &str)
        ensures
            final(self).root.active_asr@ == id@,
            final(self).root.asr@ == kept_asr(old(self).root.asr@),
            final(self).root.llm@ == kept_llm(old(self).root.llm@),
            final(self).root == (CredsRoot {
                active_asr: final(self).root.active_asr,
                asr: final(self).root.asr,
                llm: final(self).root.llm,
                ..old(self).root
            }),
    {
        let mut root = CredsRoot::default();
        std::mem::swap(&mut root, &mut self.root);
        root.active_asr = owned(id);
        self.root = clean_credentials(root);
    }

    /// Keeps the engine for dictation, where it is another one. The result tells whether it is.
    pub fn sync_active_asr_provider(&mut self, id: &str) -> (r: bool)
        ensures
            r == (old(self).root.active_asr@ != id@),
            final(self).root.active_asr@ == id@,
            !r ==> *final(self) == *old(self),
            r ==> final(self).root.asr@ == kept_asr(old(self).root.asr@) && final(self).root.llm@
                == kept_llm(old(self).root.llm@),
            final(self).root == (CredsRoot {
                active_asr: final(self).root.active_asr,
                asr: final(self).root.asr,
                llm: final(self).root.llm,
                ..old(self).root
            }),
    {
        if same(self.root.active_asr.as_str(), id) {
            return false;
        }
        self.set_active_asr_provider(id);
        true
    }
}

/// How many UTF-16 units a character takes.
pub open spec fn char_units(c: char) -> int {
    if c >= '\u{10000}' {
        2
    } else {
        1
    }
}

/// How many UTF-16 units a text takes.
pub open spec fn units(s: Seq<char>) -> int
    decreases s.len(),
{
    if s.len() == 0 {
        0
    } else {
        units(s.drop_last()) + char_units(s.last())
    }
}

/// Texts one after the other.
pub open spec fn concatenated(parts: Seq<Seq<char>>) -> Seq<char>
    decreases parts.len(),
{
    if parts.len() == 0 {
        seq![]
    } else {
        concatenated(parts.drop_last()) + parts.last()
    }
}

/// A text in parts: together they are the text, none is too long, none is empty unless the text is,
/// and none could take in the first character of the next.
pub open spec fn chunks_of(text: Seq<char>, parts: Seq<Seq<char>>) -> bool {
    &&& parts.len() > 0
    &&& concatenated(parts) == text
    &&& forall|i: int|
        0 <= i < parts.len() ==> units(#[trigger] parts[i]) <= KEYRING_CHUNK_MAX_UTF16_UNITS
    &&& text.len() > 0 ==> forall|i: int| 0 <= i < parts.len() ==> (#[trigger] parts[i]).len() > 0
    &&& forall|i: int, j: int|
        0 <= i && j == i + 1 && j < parts.len() ==> units(#[trigger] parts[i]) + char_units(
            (#[trigger] parts[j])[0],
        ) > KEYRING_CHUNK_MAX_UTF16_UNITS
}

/// Cuts a text into parts that a vault can take.
pub fn chunk_json_payload(json: &str) -> (r: Vec<String>)
    ensures
        chunks_of(json@, texts(r@)),
{
    let v = to_chars(json);
    let mut chunks: Vec<String> = Vec::new();
    let mut current = String::new();
    let mut current_units: usize = 0;
    let n: usize = v.len();
    let mut i: usize = 0;
    assert(texts(chunks@) =~= seq![]);
    assert(concatenated(texts(chunks@)) + current@ =~= v@.take(0));
    while i < n
        invariant
            i <= n == v@.len(),
            v@ == json@,
            concatenated(texts(chunks@)) + current@ == v@.take(i as int),
            current_units == units(current@),
            current_units <= KEYRING_CHUNK_MAX_UTF16_UNITS,
            i > 0 ==> current@.len() > 0,
            i == 0 ==> chunks@.len() == 0 && current@.len() == 0,
            forall|k: int|
                0 <= k < chunks@.len() ==> units(#[trigger] texts(chunks@)[k])
                    <= KEYRING_CHUNK_MAX_UTF16_UNITS,
            forall|k: int|
                0 <= k < chunks@.len() ==> (#[trigger] texts(chunks@)[k]).len() > 0,
            forall|k: int, j: int|
                0 <= k && j == k + 1 && j < chunks@.len() ==> units(
                    #[trigger] texts(chunks@)[k],
                ) + char_units((#[trigger] texts(chunks@)[j])[0])
                    > KEYRING_CHUNK_MAX_UTF16_UNITS,
            chunks@.len() > 0 ==> units(texts(chunks@).last()) + char_units(
                current@[0],
            ) > KEYRING_CHUNK_MAX_UTF16_UNITS,
        decreases n - i,
    {
        let c: char = v[i];
        let u: usize = if c >= '\u{10000}' {
            2
        } else {
            1
        };
        let ghost before = chunks@;
        let ghost cur = current@;
        if i > 0 && current_units + u > KEYRING_CHUNK_MAX_UTF16_UNITS {
            chunks.push(current);
            current = String::new();
            current_units = 0;
            proof {
                let a = texts(before);
                let b = texts(chunks@);
                assert(b =~= a.push(cur));
                assert(b.drop_last() =~= a);
                assert(concatenated(b) == concatenated(a) + cur);
            }
        }
        let ghost cur2 = current@;
        current.push(c);
        current_units = current_units + u;
        proof {
            assert(current@.drop_last() =~= cur2);
            assert(current@.last() == c);
            assert(units(current@) == units(cur2) + char_units(c));
            assert(concatenated(texts(chunks@)) + current@ =~= v@.take(i + 1));
            if cur2.len() == 0 {
                assert(current@[0] == c);
                if chunks@.len() > before.len() {
                    assert(texts(chunks@).last() == cur);
                }
            } else {
                assert(current@[0] == cur2[0]);
            }
        }
        i += 1;
    }
    assert(v@.take(n as int) =~= v@);
    let ghost before = chunks@;
    let ghost cur = current@;
    chunks.push(current);
    proof {
        let a = texts(before);
        let b = texts(chunks@);
        assert(b =~= a.push(cur));
        assert(b.drop_last() =~= a);
        assert(concatenated(b) =~= json@);
    }
    chunks
}

/// The name under which a part is kept. Older ones have a generation in their names.
pub open spec fn account_name(generation: Option<Seq<char>>, index: nat) -> Seq<char> {
    match generation {
        Some(g) => "credentials.v1.chunk."@ + g + "."@ + decimal(index),
        None => "credentials.v1.chunk."@ + decimal(index),
    }
}

/// The name under which a part is kept.
pub fn chunk_account(generation: Option<&str>, index: usize) -> (r: String)
    ensures
        r@ == account_name(crate::permissions::opt_str(generation), index as nat),
{
    let number = decimal_text(index as u64);
    match generation {
        Some(g) => {
            let mut r = join3("credentials.v1.chunk.", g, ".");
            r.append(number.as_str());
            r
        },
        None => join2("credentials.v1.chunk.", number.as_str()),
    }
}

/// What is kept of a text in parts: how many there are, and the generation in their names.
#[derive(Debug)]
pub struct CredsChunkManifest {
    pub generation: Option<String>,
    pub chunks: usize,
}

/// The names of parts that must go once a text was kept in `written` parts.
pub open spec fn stale_accounts(
    generation: Option<Seq<char>>,
    chunks: int,
    written: int,
) -> Seq<Seq<char>> {
    let from = if generation is Some {
        0
    } else {
        written
    };
    if chunks <= from {
        seq![]
    } else {
        Seq::new((chunks - from) as nat, |i: int| account_name(generation, (from + i) as nat))
    }
}

/// The names of parts that must go once a text was kept in so many parts: all of an older
/// generation, else those beyond the new ones.
pub fn stale_chunk_accounts(previous: &CredsChunkManifest, written: usize) -> (r: Vec<String>)
    ensures
        texts(r@) == stale_accounts(
            opt_text(previous.generation),
            previous.chunks as int,
            written as int,
        ),
{
    let from: usize = if previous.generation.is_some() {
        0
    } else {
        written
    };
    let generation = opt_copy(&previous.generation);
    let mut r: Vec<String> = Vec::new();
    let mut i: usize = from;
    let ghost all = stale_accounts(
        opt_text(previous.generation),
        previous.chunks as int,
        written as int,
    );
    assert(texts(r@) =~= seq![]);
    while i < previous.chunks
        invariant
            from <= i,
            i <= previous.chunks || i == from,
            opt_text(generation) == opt_text(previous.generation),
            from == if previous.generation is Some {
                0
            } else {
                written
            },
            all == stale_accounts(
                opt_text(previous.generation),
                previous.chunks as int,
                written as int,
            ),
            texts(r@) == if i <= previous.chunks {
                all.take(i - from)
            } else {
                seq![]
            },
        decreases previous.chunks - i,
    {
        let name = match &generation {
            Some(g) => chunk_account(Some(g.as_str()), i),
            None => chunk_account(None, i),
        };
        let ghost before = r@;
        r.push(name);
        proof {
            assert(texts(r@) =~= texts(before).push(name@));
            assert(all[i - from] == name@);
            assert(texts(r@) =~= all.take(i + 1 - from));
        }
        i += 1;
    }
    assert(texts(r@) =~= all);
    r
}

/// How a manifest says that a text was cut into parts.
pub const CHUNKED_STORAGE: &'static str = "chunked";

/// A manifest of this kind is known.
pub open spec fn known_manifest(storage: Seq<char>, version: u32) -> bool {
    storage == "chunked"@ && version == 1
}

/// Whether a manifest tells how a text was cut into parts: of this kind, in the version that is
/// known.
pub fn manifest_accepted(storage: &str, version: u32) -> (r: bool)
    ensures
        r == known_manifest(storage@, version),
{
    same(storage, CHUNKED_STORAGE) && version == 1
}

/// What reading a vault came to.
#[derive(Debug)]
pub enum VaultRead {
    Value(String),
    NoEntry,
    Failed(String),
}

/// What is done after a vault was read.
#[derive(Debug)]
pub enum VaultStep {
    Done(Option<String>),
    Fail(String),
    /// Read once more after this wait.
    Retry { wait_ms: u64 },
}

/// What is done after the vault was read.
pub open spec fn step_after_vault_read(
    platform: Platform,
    attempt: u64,
    read: VaultRead,
) -> VaultStep {
    match read {
        VaultRead::Value(v) => VaultStep::Done(Some(v)),
        VaultRead::NoEntry => VaultStep::Done(None),
        VaultRead::Failed(e) => if platform == Platform::Windows && attempt
            < KEYRING_READ_RETRY_ATTEMPTS {
            VaultStep::Retry { wait_ms: (KEYRING_READ_RETRY_BACKOFF_MS * attempt) as u64 }
        } else {
            VaultStep::Fail(e)
        },
    }
}

/// What is done after the vault was read for the `attempt`th time. On Windows a failure may pass;
/// elsewhere it counts at once. That nothing is kept is no failure.
pub fn vault_read_step(platform: Platform, attempt: u64, read: VaultRead) -> (r: VaultStep)
    requires
        1 <= attempt <= KEYRING_READ_RETRY_ATTEMPTS,
    ensures
        r == step_after_vault_read(platform, attempt, read),
{
    match read {
        VaultRead::Value(v) => VaultStep::Done(Some(v)),
        VaultRead::NoEntry => VaultStep::Done(None),
        VaultRead::Failed(e) => {
            if platform == Platform::Windows && attempt < KEYRING_READ_RETRY_ATTEMPTS {
                VaultStep::Retry { wait_ms: KEYRING_READ_RETRY_BACKOFF_MS * attempt }
            } else {
                VaultStep::Fail(e)
            }
        },
    }
}

proof fn lemma_cleaned_asr(v: Seq<(String, CredsAsrEntry)>)
    ensures
        kept_asr(kept_asr(v)) == kept_asr(v),
        forall|i: int| 0 <= i < kept_asr(v).len() ==> !(#[trigger] kept_asr(v)[i]).1.empty(),
    decreases v.len(),
{
    if v.len() > 0 {
        lemma_cleaned_asr(v.drop_last());
        let rest = kept_asr(v.drop_last());
        if !v.last().1.empty() {
            assert(rest.push(v.last()).drop_last() =~= rest);
        }
    }
}

proof fn lemma_cleaned_llm(v: Seq<(String, CredsLlmEntry)>)
    ensures
        kept_llm(kept_llm(v)) == kept_llm(v),
        forall|i: int| 0 <= i < kept_llm(v).len() ==> !(#[trigger] kept_llm(v)[i]).1.empty(),
    decreases v.len(),
{
    if v.len() > 0 {
        lemma_cleaned_llm(v.drop_last());
        let rest = kept_llm(v.drop_last());
        if !v.last().1.empty() {
            assert(rest.push(v.last()).drop_last() =~= rest);
        }
    }
}

/// Cleaning leaves nothing to clean, neither among the providers of speech recognition nor among
/// the language models.
pub proof fn law_cleaning_is_settled(
    asr: Seq<(String, CredsAsrEntry)>,
    llm: Seq<(String, CredsLlmEntry)>,
)
    ensures
        kept_asr(kept_asr(asr)) == kept_asr(asr),
        forall|i: int| 0 <= i < kept_asr(asr).len() ==> !(#[trigger] kept_asr(asr)[i]).1.empty(),
        kept_llm(kept_llm(llm)) == kept_llm(llm),
        forall|i: int| 0 <= i < kept_llm(llm).len() ==> !(#[trigger] kept_llm(llm)[i]).1.empty(),
{
    lemma_cleaned_asr(asr);
    lemma_cleaned_llm(llm);
}

/// Something is kept of a provider as soon as any of its texts is there and not empty.
pub proof fn law_any_text_counts(e: CredsAsrEntry)
    ensures
        !e.empty() <==> {
            ||| (e.api_key is Some && e.api_key->0@.len() > 0)
            ||| (e.base_url is Some && e.base_url->0@.len() > 0)
            ||| (e.model is Some && e.model->0@.len() > 0)
            ||| (e.app_key is Some && e.app_key->0@.len() > 0)
            ||| (e.access_key is Some && e.access_key->0@.len() > 0)
            ||| (e.resource_id is Some && e.resource_id->0@.len() > 0)
            ||| (e.auth_mode is Some && e.auth_mode->0@.len() > 0)
            ||| (e.volcengine_api_key is Some && e.volcengine_api_key->0@.len() > 0)
            ||| (e.vocabulary_id is Some && e.vocabulary_id->0@.len() > 0)
            ||| (e.advanced_config is Some && e.advanced_config->0@.len() > 0)
            ||| (e.xfyun_app_id is Some && e.xfyun_app_id->0@.len() > 0)
            ||| (e.xfyun_api_key is Some && e.xfyun_api_key->0@.len() > 0)
        },
{
}

/// Something is kept of a language model as soon as any of its texts is there and not empty, it has
/// a temperature, or it has headers.
pub proof fn law_any_setting_counts(e: CredsLlmEntry)
    ensures
        !e.empty() <==> {
            ||| (e.display_name is Some && e.display_name->0@.len() > 0)
            ||| (e.api_key is Some && e.api_key->0@.len() > 0)
            ||| (e.base_url is Some && e.base_url->0@.len() > 0)
            ||| (e.model is Some && e.model->0@.len() > 0)
            ||| e.temperature is Some
            ||| (e.extra_headers is Some && e.extra_headers->0@.len() > 0)
        },
{
}

/// Of the providers, just those of which something is kept stay, as they are and in their order.
pub proof fn law_kept_entries_stay(
    asr: Seq<(String, CredsAsrEntry)>,
    llm: Seq<(String, CredsLlmEntry)>,
    provider: (String, CredsAsrEntry),
    model: (String, CredsLlmEntry),
)
    ensures
        kept_asr(Seq::empty()).len() == 0,
        kept_llm(Seq::empty()).len() == 0,
        kept_asr(asr.push(provider)) == if provider.1.empty() {
            kept_asr(asr)
        } else {
            kept_asr(asr).push(provider)
        },
        kept_llm(llm.push(model)) == if model.1.empty() {
            kept_llm(llm)
        } else {
            kept_llm(llm).push(model)
        },
{
    assert(asr.push(provider).drop_last() =~= asr);
    assert(llm.push(model).drop_last() =~= llm);
}

/// A token that was kept is found again, unless it is blank: then none is.
pub proof fn law_kept_token_is_found(root: CredsRoot, value: Option<String>)
    ensures
        ({
            let after = CredsRoot { marketplace_token: token_kept(value), ..root };
            &&& value is Some && !blank(value->0@) ==> marketplace_token_of(after) == Some(
                value->0@,
            )
            &&& value is None || blank(value->0@) ==> marketplace_token_of(after) is None
                && after.marketplace_token is None
        }),
{
}

/// A text takes as many UTF-16 units as its parts: one for each character of the basic plane, two
/// for each other.
pub proof fn law_units_add_up(first: Seq<char>, second: Seq<char>, c: char)
    ensures
        units(first + second) == units(first) + units(second),
        units(seq![c]) == if (c as u32) < 0x10000 {
            1int
        } else {
            2int
        },
    decreases second.len(),
{
    reveal_with_fuel(units, 2);
    assert(seq![c].drop_last() =~= seq![]);
    if second.len() == 0 {
        assert(first + second =~= first);
    } else {
        law_units_add_up(first, second.drop_last(), c);
        assert((first + second).drop_last() =~= first + second.drop_last());
    }
}

/// Parts are put together one after the other, with nothing between them.
pub proof fn law_parts_make_the_text(parts: Seq<Seq<char>>, last: Seq<char>)
    ensures
        concatenated(Seq::empty()).len() == 0,
        concatenated(parts.push(last)) == concatenated(parts) + last,
{
    assert(parts.push(last).drop_last() =~= parts);
}

/// A text is cut into parts of at most 1000 units that make the text again; each part but the last
/// is full: the next character would not have fitted in.
pub proof fn law_parts_are_full(text: Seq<char>, parts: Seq<Seq<char>>, i: int)
    requires
        chunks_of(text, parts),
        0 <= i < parts.len(),
    ensures
        concatenated(parts) == text,
        units(parts[i]) <= 1000,
        text.len() > 0 ==> parts[i].len() > 0,
        i + 1 < parts.len() ==> units(parts[i]) + units(seq![parts[i + 1][0]]) > 1000,
{
    if i + 1 < parts.len() {
        reveal_with_fuel(units, 2);
        let next = seq![parts[i + 1][0]];
        assert(next.drop_last() =~= seq![]);
    }
}

/// The name of a part tells its number, and its generation before that where it has one.
pub proof fn law_part_is_named_by_its_number(generation: Seq<char>, index: nat)
    ensures
        "credentials.v1.chunk."@.is_prefix_of(account_name(None, index)),
        number_read(account_name(None, index).skip("credentials.v1.chunk."@.len() as int)) == index,
        account_name(Some(generation), index) == "credentials.v1.chunk."@ + generation + "."@
            + account_name(None, index).skip("credentials.v1.chunk."@.len() as int),
{
    law_decimal_digits_read_back(index);
    assert(account_name(None, index).skip("credentials.v1.chunk."@.len() as int) =~= decimal(index));
    assert(account_name(None, index).subrange(0, "credentials.v1.chunk."@.len() as int)
        =~= "credentials.v1.chunk."@);
}

/// The parts that must go: all parts of an older generation; else, where a part of the same name
/// was not written anew, just that one.
pub proof fn law_stale_parts_go(generation: Seq<char>, chunks: int, written: int, k: int)
    requires
        0 <= written,
        0 <= k < chunks,
    ensures
        stale_accounts(Some(generation), chunks, written).contains(
            account_name(Some(generation), k as nat),
        ),
        stale_accounts(Some(generation), chunks, written).len() == chunks,
        k >= written ==> stale_accounts(None, chunks, written).contains(
            account_name(None, k as nat),
        ),
        k < written ==> !stale_accounts(None, chunks, written).contains(
            account_name(None, k as nat),
        ),
{
    let old = stale_accounts(Some(generation), chunks, written);
    assert(old[k] == account_name(Some(generation), k as nat));
    let same = stale_accounts(None, chunks, written);
    if k >= written {
        assert(same[k - written] == account_name(None, k as nat));
    } else if same.contains(account_name(None, k as nat)) {
        let i = choose|i: int| 0 <= i < same.len() && same[i] == account_name(None, k as nat);
        assert(same[i] == account_name(None, (written + i) as nat));
        law_part_is_named_by_its_number(generation, k as nat);
        law_part_is_named_by_its_number(generation, (written + i) as nat);
    }
}

/// Only a manifest of this kind and of the first version is known.
pub proof fn law_only_the_first_version_is_known(storage: Seq<char>, version: u32)
    ensures
        known_manifest("chunked"@, version) <==> version == 1,
        storage != "chunked"@ ==> !known_manifest(storage, version),
{
}

/// What a vault holds is taken as it is, and that it holds nothing is no failure. A failure counts
/// at once, but on Windows only the fourth time; until then each wait is 60 milliseconds longer
/// than the one before.
pub proof fn law_vault_is_read_again(platform: Platform, attempt: u64, value: String, error: String)
    requires
        1 <= attempt <= 4,
    ensures
        step_after_vault_read(platform, attempt, VaultRead::Value(value)) == VaultStep::Done(
            Some(value),
        ),
        step_after_vault_read(platform, attempt, VaultRead::NoEntry) == VaultStep::Done(None),
        platform != Platform::Windows || attempt == 4 ==> step_after_vault_read(
            platform,
            attempt,
            VaultRead::Failed(error),
        ) == VaultStep::Fail(error),
        platform == Platform::Windows && attempt < 4 ==> (step_after_vault_read(
            platform,
            attempt,
            VaultRead::Failed(error),
        ) matches VaultStep::Retry { wait_ms } && wait_ms == 60 * attempt),
{
}

} // verus!
