//! What the host program asks for, and what it is answered.
use vstd::prelude::*;
use vstd::string::*;

use crate::asr::grok_stt::{is_grok_stt, GrokSttCredentials};
use crate::coordinator::asr_wiring::{is_builtin_doubao, names_doubao};
use crate::coordinator::inner::EngineStatus;
use crate::coordinator_state::SessionId;
use crate::ids::{hex_digit, simple_id};
use crate::json::{
    bool_text, json_bool, parse_json, parsed_json, quote, quote_or_null, quoted, quoted_or_null, Json,
    JsonValue,
};
use crate::providers::{find_provider, found, records, Provider, ProviderRecord};
use crate::text::{
    blank, decimal, decimal_text, is_blank, join2, join3, law_trailing_characters_go, owned, same,
    to_chars, trim, trim_trailing, trimmed, without_trailing,
};
use crate::types::{opt_text, BindingRecord, ShortcutBinding, UserPreferences};
use crate::wav::pcm_from_wav_bytes;

verus! {

/// A hexadecimal digit of either case.
pub open spec fn ascii_hex_digit(c: char) -> bool {
    '0' <= c <= '9' || 'a' <= c <= 'f' || 'A' <= c <= 'F'
}

/// Groups of 8, 4, 4, 4 and 12 hexadecimal digits with hyphens between them, and nothing else. Such
/// a text names a file without leaving its directory.
pub open spec fn session_id_text(s: Seq<char>) -> bool {
    &&& s.len() == 36
    &&& forall|i: int|
        0 <= i < 36 ==> if i == 8 || i == 13 || i == 18 || i == 23 {
            #[trigger] s[i] == '-'
        } else {
            ascii_hex_digit(s[i])
        }
}

/// Whether a text can be the id of a session.
pub fn is_valid_session_id(s: &str) -> (r: bool)
    ensures
        r == session_id_text(s@),
{
    let v = to_chars(s);
    if v.len() != 36 {
        return false;
    }
    let mut i: usize = 0;
    while i < 36
        invariant
            i <= 36,
            v@.len() == 36,
            v@ == s@,
            forall|k: int|
                0 <= k < i ==> if k == 8 || k == 13 || k == 18 || k == 23 {
                    #[trigger] s@[k] == '-'
                } else {
                    ascii_hex_digit(s@[k])
                },
        decreases 36 - i,
    {
        let c: char = v[i];
        let fits = if i == 8 || i == 13 || i == 18 || i == 23 {
            c == '-'
        } else {
            ('0' <= c && c <= '9') || ('a' <= c && c <= 'f') || ('A' <= c && c <= 'F')
        };
        if !fits {
            assert(s@[i as int] == c);
            return false;
        }
        i += 1;
    }
    true
}

proof fn lemma_hex_digit(d: int)
    requires
        0 <= d < 16,
    ensures
        ascii_hex_digit(hex_digit(d)),
{
}

/// The id of every session is accepted, so that the recording of each one can be asked for; and no
/// id that is accepted holds a separator of directories or a dot.
pub proof fn law_session_ids_are_accepted(id: SessionId, s: Seq<char>)
    ensures
        session_id_text(id.text()),
        session_id_text(s) ==> !s.contains('/') && !s.contains('\\') && !s.contains('.'),
{
    let t = id.text();
    let d = simple_id(id.value);
    assert(t.len() == 36);
    assert forall|i: int| 0 <= i < 36 implies if i == 8 || i == 13 || i == 18 || i == 23 {
        #[trigger] t[i] == '-'
    } else {
        ascii_hex_digit(t[i])
    } by {
        let k = if i < 8 {
            i
        } else if i < 13 {
            i - 1
        } else if i < 18 {
            i - 2
        } else if i < 23 {
            i - 3
        } else {
            i - 4
        };
        if !(i == 8 || i == 13 || i == 18 || i == 23) {
            assert(t[i] == d[k]);
            let q = id.value as int / vstd::arithmetic::power::pow(16, (31 - k) as nat);
            assert(d[k] == hex_digit(q % 16));
            lemma_hex_digit(q % 16);
        }
    }
    if session_id_text(s) {
        assert forall|i: int| 0 <= i < s.len() implies s[i] != '/' && s[i] != '\\' && s[i]
            != '.' by {
            assert(s[i] == '-' || ascii_hex_digit(s[i]));
        }
    }
}

/// Whether the engine for dictation is ready to be used: the built-in one always is, the Grok
/// channel needs its credentials, and every other one an address.
pub open spec fn configured(
    provider: Seq<char>,
    grok_configured: bool,
    providers: Seq<ProviderRecord>,
) -> bool {
    if names_doubao(provider) {
        true
    } else if provider == "grok_stt"@ {
        grok_configured
    } else {
        match found(providers, provider) {
            Some(p) => p.url.len() > 0,
            None => false,
        }
    }
}

/// Whether the engine for dictation is ready to be used.
pub fn asr_configured_for_provider(
    provider: &str,
    grok: &GrokSttCredentials,
    providers: &[Provider],
) -> (r: bool)
    ensures
        r == configured(
            provider@,
            !blank(grok.endpoint@) && !blank(grok.api_key@),
            records(providers@),
        ),
{
    if is_builtin_doubao(provider) {
        return true;
    }
    if is_grok_stt(provider) {
        return grok.configured();
    }
    match find_provider(providers, provider) {
        Some(p) => !p.url.as_str().is_empty(),
        None => false,
    }
}

/// How long the check of the network may take, in seconds.
pub const NETWORK_TIMEOUT_SECS: u64 = 8;

/// What is asked to find out whether the network is there: the address of the engine for dictation,
/// where it has one, else the one that hands out tokens.
pub open spec fn network_target(active: Seq<char>, providers: Seq<ProviderRecord>) -> Seq<char> {
    if names_doubao(active) {
        "https://is.snssdk.com/"@
    } else {
        match found(providers, active) {
            Some(p) if p.url.len() > 0 => p.url,
            _ => "https://is.snssdk.com/"@,
        }
    }
}

/// What is asked to find out whether the network is there.
pub fn check_network_url(active: &str, providers: &[Provider]) -> (r: String)
    ensures
        r@ == network_target(active@, records(providers@)),
{
    if !is_builtin_doubao(active) {
        match find_provider(providers, active) {
            Some(p) => {
                if !p.url.as_str().is_empty() {
                    return p.url;
                }
            },
            None => {},
        }
    }
    owned("https://is.snssdk.com/")
}

/// What is told of the network: the delay only where it is there.
pub fn network_latency(online: bool, elapsed_ms: u64) -> (r: Option<u64>)
    ensures
        r == if online {
            Some(elapsed_ms)
        } else {
            None::<u64>
        },
{
    if online {
        Some(elapsed_ms)
    } else {
        None
    }
}

/// Which shortcuts are to be registered anew.
#[derive(Clone, Copy, PartialEq, Eq, Structural, Debug)]
pub struct ShortcutChanges {
    pub dictation: bool,
    pub translation: bool,
    pub open_app: bool,
}

/// The contents of an optional shortcut.
pub open spec fn opt_binding(b: Option<ShortcutBinding>) -> Option<BindingRecord> {
    match b {
        Some(x) => Some(x@),
        None => None,
    }
}

fn same_opt_binding(a: &Option<ShortcutBinding>, b: &Option<ShortcutBinding>) -> (r: bool)
    ensures
        r == (opt_binding(*a) == opt_binding(*b)),
{
    match (a, b) {
        (Some(x), Some(y)) => x.same_as(y),
        (None, None) => true,
        _ => false,
    }
}

/// The shortcuts that differ.
pub open spec fn shortcut_changes(
    before: UserPreferences,
    after: UserPreferences,
) -> ShortcutChanges {
    ShortcutChanges {
        dictation: before.dictation_hotkey@ != after.dictation_hotkey@,
        translation: before.translation_hotkey@ != after.translation_hotkey@,
        open_app: opt_binding(before.open_app_hotkey) != opt_binding(after.open_app_hotkey),
    }
}

/// Which shortcuts are to be registered anew once the preferences were saved: those that differ.
pub fn changed_shortcuts(before: &UserPreferences, after: &UserPreferences) -> (r: ShortcutChanges)
    ensures
        r == shortcut_changes(*before, *after),
{
    ShortcutChanges {
        dictation: !before.dictation_hotkey.same_as(&after.dictation_hotkey),
        translation: !before.translation_hotkey.same_as(&after.translation_hotkey),
        open_app: !same_opt_binding(&before.open_app_hotkey, &after.open_app_hotkey),
    }
}

/// An error as the host is told it, in JSON.
pub open spec fn error_told(message: Seq<char>) -> Seq<char> {
    "{\"error\":"@ + quoted(message) + "}"@
}

/// An error as the host is told it, in JSON.
pub fn error_reply(message: &str) -> (r: String)
    ensures
        r@ == error_told(message@),
{
    join3("{\"error\":", quote(message).as_str(), "}")
}

/// Whether something was done, as the host is told it.
pub fn done_reply(done: Result<(), String>) -> (r: String)
    ensures
        match done {
            Ok(_) => r@ == "{\"ok\":true}"@,
            Err(e) => r@ == error_told(e@),
        },
{
    match done {
        Ok(_) => owned("{\"ok\":true}"),
        Err(e) => error_reply(e.as_str()),
    }
}

/// What is told once the log was to be copied. `path` is that of the log; there is nothing to copy
/// where it is missing.
pub fn export_error_log_reply(path: &str, copied: Option<Result<(), String>>) -> (r: String)
    ensures
        match copied {
            None => r@ == error_told("日志文件不存在："@ + path@),
            Some(Ok(_)) => r@ == "{\"ok\":true}"@,
            Some(Err(e)) => r@ == error_told("复制日志失败："@ + e@),
        },
{
    match copied {
        None => error_reply(join2("日志文件不存在：", path).as_str()),
        Some(Ok(_)) => owned("{\"ok\":true}"),
        Some(Err(e)) => error_reply(join2("复制日志失败：", e.as_str()).as_str()),
    }
}

/// What reading a recording came to.
#[derive(Debug)]
pub enum RecordingRead {
    Contents(Vec<u8>),
    NotFound,
    Failed(String),
    /// There is no place where it could be.
    NoPlace(String),
}

/// The character for six bits.
pub open spec fn base64_digit(v: int) -> char {
    if v < 26 {
        (0x41 + v) as u8 as char
    } else if v < 52 {
        (0x61 + v - 26) as u8 as char
    } else if v < 62 {
        (0x30 + v - 52) as u8 as char
    } else if v == 62 {
        '+'
    } else {
        '/'
    }
}

/// Bytes in Base 64 with padding: each three of them as four characters.
pub open spec fn base64_of(b: Seq<u8>) -> Seq<char>
    decreases b.len(),
{
    if b.len() == 0 {
        seq![]
    } else if b.len() == 1 {
        seq![base64_digit(b[0] as int / 4), base64_digit(b[0] as int % 4 * 16), '=', '=']
    } else if b.len() == 2 {
        seq![
            base64_digit(b[0] as int / 4),
            base64_digit(b[0] as int % 4 * 16 + b[1] as int / 16),
            base64_digit(b[1] as int % 16 * 4),
            '=',
        ]
    } else {
        seq![
            base64_digit(b[0] as int / 4),
            base64_digit(b[0] as int % 4 * 16 + b[1] as int / 16),
            base64_digit(b[1] as int % 16 * 4 + b[2] as int / 64),
            base64_digit(b[2] as int % 64),
        ] + base64_of(b.skip(3))
    }
}

/// There is room for the bytes in Base 64.
pub open spec fn base64_fits(len: nat) -> bool {
    (len + 2) / 3 * 4 <= isize::MAX
}

/// Encodes with `base64::Engine::encode` of `base64::engine::general_purpose::STANDARD`: the
/// standard alphabet with padding. It panics where the text would be too large to hold.
#[verifier::external_body]
fn base64_text(bytes: &[u8]) -> (s: String)
    requires
        base64_fits(bytes@.len()),
    ensures
        s@ == base64_of(bytes@),
{
    base64::Engine::encode(&base64::engine::general_purpose::STANDARD, bytes)
}

/// A recording as the host is told it.
pub open spec fn recording_told(read: RecordingRead) -> Seq<char> {
    match read {
        RecordingRead::Contents(data) => "{\"data\":\"data:audio/wav;base64,"@ + base64_of(data@)
            + "\"}"@,
        RecordingRead::NotFound => error_told("recording not found"@),
        RecordingRead::Failed(e) => error_told("read wav failed: "@ + e@),
        RecordingRead::NoPlace(e) => error_told(e@),
    }
}

/// A recording as the host is told it: as a data URL, or why there is none.
pub fn recording_reply(read: RecordingRead) -> (r: String)
    requires
        read matches RecordingRead::Contents(data) ==> base64_fits(data@.len()),
    ensures
        r@ == recording_told(read),
{
    match read {
        RecordingRead::Contents(data) => join3(
            "{\"data\":\"data:audio/wav;base64,",
            base64_text(data.as_slice()).as_str(),
            "\"}",
        ),
        RecordingRead::NotFound => error_reply("recording not found"),
        RecordingRead::Failed(e) => error_reply(join2("read wav failed: ", e.as_str()).as_str()),
        RecordingRead::NoPlace(e) => error_reply(e.as_str()),
    }
}

/// What is told where the id of a session is none.
pub fn invalid_session_reply() -> (r: String)
    ensures
        r@ == error_told("invalid session id"@),
{
    error_reply("invalid session id")
}

/// The samples of a recording, or why there are none.
pub open spec fn samples_read(read: RecordingRead) -> Result<Seq<u8>, Seq<char>> {
    match read {
        RecordingRead::Contents(wav) => if wav@.len() > 44 {
            Ok(wav@.skip(44))
        } else {
            Err("recording is empty or corrupt"@)
        },
        RecordingRead::NotFound => Err("recording not found"@),
        RecordingRead::Failed(m) => Err("read wav failed: "@ + m@),
        RecordingRead::NoPlace(m) => Err(m@),
    }
}

/// The samples of a recording that is to be recognised anew, or why there are none.
pub fn recording_samples(read: RecordingRead) -> (r: Result<Vec<u8>, String>)
    ensures
        match r {
            Ok(pcm) => samples_read(read) == Ok::<Seq<u8>, Seq<char>>(pcm@),
            Err(e) => samples_read(read) == Err::<Seq<u8>, Seq<char>>(e@),
        },
{
    match read {
        RecordingRead::Contents(wav) => match pcm_from_wav_bytes(wav.as_slice()) {
            Some(pcm) => Ok(pcm),
            None => Err(owned("recording is empty or corrupt")),
        },
        RecordingRead::NotFound => Err(owned("recording not found")),
        RecordingRead::Failed(m) => Err(join2("read wav failed: ", m.as_str())),
        RecordingRead::NoPlace(m) => Err(m),
    }
}

/// Why a recording cannot be copied, as a number for the host.
pub open spec fn refused_export(
    initialised: bool,
    session_id: Seq<char>,
    dest_path: Seq<char>,
) -> Option<i32> {
    if !initialised {
        Some(1i32)
    } else if !session_id_text(session_id) {
        Some(2i32)
    } else if dest_path.len() == 0 {
        Some(4i32)
    } else {
        None::<i32>
    }
}

/// Why a recording cannot be copied, as a number for the host; nothing where it can be tried.
pub fn export_refusal(initialised: bool, session_id: &str, dest_path: &str) -> (r: Option<i32>)
    ensures
        r == refused_export(initialised, session_id@, dest_path@),
{
    if !initialised {
        Some(1)
    } else if !is_valid_session_id(session_id) {
        Some(2)
    } else if dest_path.is_empty() {
        Some(4)
    } else {
        None
    }
}

/// How far copying a recording came.
#[derive(Clone, Copy, PartialEq, Eq, Structural, Debug)]
pub enum ExportOutcome {
    Copied,
    NotFound,
    Failed,
}

/// How far copying a recording came, as a number for the host.
pub open spec fn export_number(outcome: ExportOutcome) -> i32 {
    match outcome {
        ExportOutcome::Copied => 0i32,
        ExportOutcome::NotFound => 3i32,
        ExportOutcome::Failed => 4i32,
    }
}

/// How far copying a recording came, as a number for the host.
pub fn export_code(outcome: ExportOutcome) -> (r: i32)
    ensures
        r == export_number(outcome),
{
    match outcome {
        ExportOutcome::Copied => 0,
        ExportOutcome::NotFound => 3,
        ExportOutcome::Failed => 4,
    }
}

/// What the host tells of a provider.
#[derive(Debug)]
pub struct ProviderFields {
    pub id: String,
    pub name: String,
    pub url: String,
    pub api_key: Option<String>,
    pub notes: Option<String>,
}

/// What the host tells of a provider, as sequences.
pub ghost struct ProviderFieldsView {
    pub id: Seq<char>,
    pub name: Seq<char>,
    pub url: Seq<char>,
    pub api_key: Option<Seq<char>>,
    pub notes: Option<Seq<char>>,
}

impl View for ProviderFields {
    type V = ProviderFieldsView;

    open spec fn view(&self) -> ProviderFieldsView {
        ProviderFieldsView {
            id: self.id@,
            name: self.name@,
            url: self.url@,
            api_key: opt_text(self.api_key),
            notes: opt_text(self.notes),
        }
    }
}

/// The text, or nothing where there is none.
pub open spec fn or_empty(s: Option<Seq<char>>) -> Seq<char> {
    match s {
        Some(t) => t,
        None => seq![],
    }
}

/// What a JSON value tells of a provider: what is missing or no text is empty, the key and the
/// notes are left out.
pub open spec fn fields_in(v: JsonValue) -> ProviderFieldsView {
    ProviderFieldsView {
        id: or_empty(v.str_member("id"@)),
        name: or_empty(v.str_member("name"@)),
        url: or_empty(v.str_member("url"@)),
        api_key: v.str_member("apiKey"@),
        notes: v.str_member("notes"@),
    }
}

fn text_at(value: &Json, key: &str) -> (r: String)
    ensures
        r@ == or_empty(value@.str_member(key@)),
{
    match value.get_str(key) {
        Some(s) => owned(s),
        None => String::new(),
    }
}

fn opt_text_at(value: &Json, key: &str) -> (r: Option<String>)
    ensures
        opt_text(r) == value@.str_member(key@),
{
    match value.get_str(key) {
        Some(s) => Some(owned(s)),
        None => None,
    }
}

/// What a JSON value tells of a provider.
pub fn provider_fields(value: &Json) -> (r: ProviderFields)
    ensures
        r@ == fields_in(value@),
{
    ProviderFields {
        id: text_at(value, "id"),
        name: text_at(value, "name"),
        url: text_at(value, "url"),
        api_key: opt_text_at(value, "apiKey"),
        notes: opt_text_at(value, "notes"),
    }
}

/// What a JSON text tells of a provider; an error where it is none.
pub fn parse_provider_fields(json: &str) -> (r: Result<ProviderFields, String>)
    ensures
        match parsed_json(json@) {
            Ok(v) => r matches Ok(fields) && fields@ == fields_in(v),
            Err(_) => r matches Err(e) && e@ == "参数解析失败"@,
        },
{
    match parse_json(json) {
        Ok(value) => Ok(provider_fields(&value)),
        Err(_) => Err(owned("参数解析失败")),
    }
}

/// The default provider becomes the engine for dictation. The result tells whether it was another.
pub fn adopt_default_provider(active_asr_provider: &mut String, id: &str) -> (r: bool)
    ensures
        r == (old(active_asr_provider)@ != id@),
        final(active_asr_provider)@ == id@,
        !r ==> *final(active_asr_provider) == *old(active_asr_provider),
{
    if same(active_asr_provider.as_str(), id) {
        return false;
    }
    *active_asr_provider = owned(id);
    true
}

/// How long trying out a provider may take, in seconds.
pub const PROVIDER_TEST_TIMEOUT_SECS: u64 = 10;

/// How a provider is tried out.
#[derive(Debug)]
pub enum ProbePlan {
    /// Open a session of the built-in engine.
    OpenBuiltin,
    /// Ask this address, with this key where there is one.
    Get { url: String, api_key: Option<String> },
    /// It is known already that it does not work.
    Fails(String),
}

/// A plan, with its texts as sequences.
pub ghost enum ProbePlanView {
    OpenBuiltin,
    Get { url: Seq<char>, api_key: Option<Seq<char>> },
    Fails(Seq<char>),
}

impl View for ProbePlan {
    type V = ProbePlanView;

    open spec fn view(&self) -> ProbePlanView {
        match *self {
            ProbePlan::OpenBuiltin => ProbePlanView::OpenBuiltin,
            ProbePlan::Get { url, api_key } => ProbePlanView::Get {
                url: url@,
                api_key: opt_text(api_key),
            },
            ProbePlan::Fails(e) => ProbePlanView::Fails(e@),
        }
    }
}

/// How a provider is tried out: by the list of its models.
pub open spec fn provider_probe(id: Seq<char>, providers: Seq<ProviderRecord>) -> ProbePlanView {
    if names_doubao(id) {
        ProbePlanView::OpenBuiltin
    } else {
        match found(providers, id) {
            None => ProbePlanView::Fails("供应商不存在"@),
            Some(p) => if blank(p.url) {
                ProbePlanView::Fails("请先填写 URL"@)
            } else {
                ProbePlanView::Get {
                    url: without_trailing(p.url, '/') + "/v1/models"@,
                    api_key: p.api_key,
                }
            },
        }
    }
}

/// How a provider is tried out.
pub fn test_provider_plan(id: &str, providers: &[Provider]) -> (r: ProbePlan)
    ensures
        r@ == provider_probe(id@, records(providers@)),
{
    if is_builtin_doubao(id) {
        return ProbePlan::OpenBuiltin;
    }
    match find_provider(providers, id) {
        None => ProbePlan::Fails(owned("供应商不存在")),
        Some(p) => {
            if is_blank(p.url.as_str()) {
                ProbePlan::Fails(owned("请先填写 URL"))
            } else {
                ProbePlan::Get {
                    url: join2(trim_trailing(p.url.as_str(), '/').as_str(), "/v1/models"),
                    api_key: p.api_key,
                }
            }
        },
    }
}

/// How the engine for dictation is tried out: by its address, without the key.
pub open spec fn engine_probe(active: Seq<char>, providers: Seq<ProviderRecord>) -> ProbePlanView {
    if names_doubao(active) {
        ProbePlanView::OpenBuiltin
    } else {
        match found(providers, active) {
            None => ProbePlanView::Fails("未找到当前 ASR 供应商"@),
            Some(p) => if p.url.len() == 0 {
                ProbePlanView::Fails("供应商未配置 URL"@)
            } else {
                ProbePlanView::Get {
                    url: without_trailing(trimmed(p.url), '/'),
                    api_key: None,
                }
            },
        }
    }
}

/// How the engine for dictation is tried out.
pub fn test_engine_plan(active: &str, providers: &[Provider]) -> (r: ProbePlan)
    ensures
        r@ == engine_probe(active@, records(providers@)),
{
    if is_builtin_doubao(active) {
        return ProbePlan::OpenBuiltin;
    }
    match find_provider(providers, active) {
        None => ProbePlan::Fails(owned("未找到当前 ASR 供应商")),
        Some(p) => {
            if p.url.as_str().is_empty() {
                ProbePlan::Fails(owned("供应商未配置 URL"))
            } else {
                ProbePlan::Get {
                    url: trim_trailing(trim(p.url.as_str()).as_str(), '/'),
                    api_key: None,
                }
            }
        },
    }
}

/// What trying out the engine for dictation comes to: any answer will do.
pub fn test_engine_outcome(answer: Result<(), String>) -> (r: Result<(), String>)
    ensures
        match answer {
            Ok(_) => r is Ok,
            Err(e) => r matches Err(m) && m@ == "连接失败："@ + e@,
        },
{
    match answer {
        Ok(_) => Ok(()),
        Err(e) => Err(join2("连接失败：", e.as_str())),
    }
}

/// The error of a result, where there is one.
pub open spec fn error_of(r: Result<(), String>) -> Option<Seq<char>> {
    match r {
        Ok(_) => None,
        Err(e) => Some(e@),
    }
}

/// An outcome as the host is told it: whether it is well, and the error where it is not.
pub open spec fn outcome_json(error: Option<Seq<char>>) -> Seq<char> {
    "{\"error\":"@ + quoted_or_null(error) + ",\"ok\":"@ + bool_text(error is None) + "}"@
}

/// An outcome as the host is told it.
pub fn outcome_payload(result: &Result<(), String>) -> (r: String)
    ensures
        r@ == outcome_json(error_of(*result)),
{
    let mut r = owned("{\"error\":");
    match result {
        Ok(_) => {
            r.append(quote_or_null(None).as_str());
            r.append(",\"ok\":");
            r.append(json_bool(true));
        },
        Err(e) => {
            r.append(quote_or_null(Some(e.as_str())).as_str());
            r.append(",\"ok\":");
            r.append(json_bool(false));
        },
    }
    r.append("}");
    r
}

/// The state of the engines, in JSON.
pub open spec fn status_json(ok: bool, error: Option<Seq<char>>) -> Seq<char> {
    "{\"error\":"@ + quoted_or_null(error) + ",\"ok\":"@ + bool_text(ok) + "}"@
}

/// The outcome of trying out a provider, in JSON.
pub open spec fn probe_json(id: Seq<char>, error: Option<Seq<char>>) -> Seq<char> {
    "{\"error\":"@ + quoted_or_null(error) + ",\"id\":"@ + quoted(id) + ",\"ok\":"@ + bool_text(
        error is None,
    ) + "}"@
}

/// The engine for dictation, in JSON.
pub open spec fn engine_json(active: Seq<char>, ready: bool) -> Seq<char> {
    "{\"activeAsrProvider\":"@ + quoted(active) + ",\"asrConfigured\":"@ + bool_text(ready) + "}"@
}

/// A text, in JSON.
pub open spec fn text_json(text: Seq<char>) -> Seq<char> {
    "{\"text\":"@ + quoted(text) + "}"@
}

/// A recording that could not be recognised anew, in JSON.
pub open spec fn failed_again_json(session_id: Seq<char>, error: Seq<char>) -> Seq<char> {
    "{\"error\":"@ + quoted(error) + ",\"id\":"@ + quoted(session_id) + "}"@
}

/// The state of the engines as the host is told it.
pub fn engine_status_payload(status: &EngineStatus) -> (r: String)
    ensures
        r@ == status_json(status.ok, opt_text(status.error)),
{
    let mut r = owned("{\"error\":");
    match &status.error {
        Some(e) => r.append(quote_or_null(Some(e.as_str())).as_str()),
        None => r.append(quote_or_null(None).as_str()),
    }
    r.append(",\"ok\":");
    r.append(json_bool(status.ok));
    r.append("}");
    r
}

/// The outcome of trying out a provider as the host is told it.
pub fn provider_test_payload(id: &str, result: &Result<(), String>) -> (r: String)
    ensures
        r@ == probe_json(id@, error_of(*result)),
{
    let mut r = owned("{\"error\":");
    let ok = match result {
        Ok(_) => {
            r.append(quote_or_null(None).as_str());
            true
        },
        Err(e) => {
            r.append(quote_or_null(Some(e.as_str())).as_str());
            false
        },
    };
    r.append(",\"id\":");
    r.append(quote(id).as_str());
    r.append(",\"ok\":");
    r.append(json_bool(ok));
    r.append("}");
    r
}

/// The state of the network as the host is told it, in JSON.
pub open spec fn network_json(online: bool, elapsed_ms: nat) -> Seq<char> {
    "{\"latencyMs\":"@ + (if online {
        decimal(elapsed_ms)
    } else {
        "null"@
    }) + ",\"online\":"@ + bool_text(online) + "}"@
}

/// The state of the network as the host is told it.
pub fn network_payload(online: bool, elapsed_ms: u64) -> (r: String)
    ensures
        r@ == network_json(online, elapsed_ms as nat),
{
    let mut r = owned("{\"latencyMs\":");
    match network_latency(online, elapsed_ms) {
        Some(ms) => r.append(decimal_text(ms).as_str()),
        None => r.append("null"),
    }
    r.append(",\"online\":");
    r.append(json_bool(online));
    r.append("}");
    r
}

/// The engine for dictation as the host is told it.
pub fn credentials_payload(active: &str, asr_configured: bool) -> (r: String)
    ensures
        r@ == engine_json(active@, asr_configured),
{
    let mut r = owned("{\"activeAsrProvider\":");
    r.append(quote(active).as_str());
    r.append(",\"asrConfigured\":");
    r.append(json_bool(asr_configured));
    r.append("}");
    r
}

/// Text that was recognised while the user still speaks, as the host is told it.
pub fn partial_text_payload(text: &str) -> (r: String)
    ensures
        r@ == text_json(text@),
{
    join3("{\"text\":", quote(text).as_str(), "}")
}

/// A recording that could not be recognised anew, as the host is told it.
pub fn retranscribe_error_payload(session_id: &str, error: &str) -> (r: String)
    ensures
        r@ == failed_again_json(session_id@, error@),
{
    let mut r = owned("{\"error\":");
    r.append(quote(error).as_str());
    r.append(",\"id\":");
    r.append(quote(session_id).as_str());
    r.append("}");
    r
}

/// The least time between two words to the host that the microphones have changed, in milliseconds.
pub const DEVICE_EVENT_GAP_MS: u64 = 300;

/// Changes of the microphones, of which the system may tell many at once.
#[derive(Clone, Copy, PartialEq, Eq, Structural, Debug)]
pub struct DeviceWatch {
    /// A change is being passed on.
    pub in_flight: bool,
    /// When the host was told last, or the watch began.
    pub last_event: u64,
}

impl DeviceWatch {
    /// The host is told of a change that is passed on now.
    pub open spec fn host_is_told(self, now: u64) -> bool {
        now - self.last_event >= DEVICE_EVENT_GAP_MS
    }

    /// The watch once a change was passed on.
    pub open spec fn after_passing_on(self, now: u64) -> DeviceWatch {
        DeviceWatch {
            in_flight: false,
            last_event: if self.host_is_told(now) {
                now
            } else {
                self.last_event
            },
        }
    }

    /// A watch that begins now.
    pub fn new(now: u64) -> (r: DeviceWatch)
        ensures
            r == (DeviceWatch { in_flight: false, last_event: now }),
    {
        DeviceWatch { in_flight: false, last_event: now }
    }

    /// The system tells of a change. The result tells whether it is to be passed on; while one is,
    /// no other is.
    pub fn changed(&mut self) -> (r: bool)
        ensures
            r == !old(self).in_flight,
            *final(self) == (DeviceWatch { in_flight: true, ..*old(self) }),
    {
        let first = !self.in_flight;
        self.in_flight = true;
        first
    }

    /// A change is passed on. The result tells whether the host is told: not where it was told just
    /// before.
    pub fn passed_on(&mut self, now: u64) -> (r: bool)
        ensures
            r == old(self).host_is_told(now),
            *final(self) == old(self).after_passing_on(now),
    {
        self.in_flight = false;
        if now >= self.last_event && now - self.last_event >= DEVICE_EVENT_GAP_MS {
            self.last_event = now;
            true
        } else {
            false
        }
    }

    /// A change could not be passed on.
    pub fn dropped(&mut self)
        ensures
            *final(self) == (DeviceWatch { in_flight: false, ..*old(self) }),
    {
        self.in_flight = false;
    }
}

/// The id of a session is 36 characters long: hyphens at the 9th, 14th, 19th and 24th place, and
/// hexadecimal digits of either case everywhere else.
pub proof fn law_form_of_a_session_id(s: Seq<char>)
    ensures
        session_id_text(s) <==> s.len() == 36 && s[8] == '-' && s[13] == '-' && s[18] == '-'
            && s[23] == '-' && forall|i: int|
            0 <= i < 36 && i != 8 && i != 13 && i != 18 && i != 23 ==> ('0' <= #[trigger] s[i]
                && s[i] <= '9') || ('a' <= s[i] && s[i] <= 'f') || ('A' <= s[i] && s[i] <= 'F'),
{
}

/// The built-in engine is always ready, whatever else is there; the Grok channel is once it has its
/// credentials, and each other engine once it is listed with an address.
pub proof fn law_engine_is_ready(
    provider: Seq<char>,
    grok_configured: bool,
    providers: Seq<ProviderRecord>,
)
    ensures
        configured("doubao"@, grok_configured, providers),
        configured("builtin-doubao"@, grok_configured, providers),
        configured("grok_stt"@, grok_configured, providers) == grok_configured,
        provider != "doubao"@ && provider != "builtin-doubao"@ && provider != "grok_stt"@ ==> (
        configured(provider, grok_configured, providers) <==> (found(providers, provider) is Some
            && found(providers, provider)->0.url.len() > 0)),
{
    reveal_strlit("doubao");
    reveal_strlit("builtin-doubao");
    reveal_strlit("grok_stt");
    assert("grok_stt"@.len() != "doubao"@.len());
    assert("grok_stt"@.len() != "builtin-doubao"@.len());
}

/// The network is looked for at the address of the engine for dictation, where it has one of its
/// own, and else where the built-in engine gets its tokens.
pub proof fn law_network_is_looked_for(active: Seq<char>, providers: Seq<ProviderRecord>)
    ensures
        active == "doubao"@ || active == "builtin-doubao"@ ==> network_target(active, providers)
            == "https://is.snssdk.com/"@,
        active != "doubao"@ && active != "builtin-doubao"@ && found(providers, active) is Some
            && found(providers, active)->0.url.len() > 0 ==> network_target(active, providers)
            == found(providers, active)->0.url,
        found(providers, active) is None || found(providers, active)->0.url.len() == 0
            ==> network_target(active, providers) == "https://is.snssdk.com/"@,
{
}

/// The host is told of the network as it is, and of the delay only where it is there; after eight
/// seconds it is not.
pub proof fn law_delay_is_told_online(elapsed_ms: nat)
    ensures
        network_json(true, elapsed_ms) == "{\"latencyMs\":"@ + decimal(elapsed_ms)
            + ",\"online\":"@ + "true"@ + "}"@,
        network_json(false, elapsed_ms) == "{\"latencyMs\":"@ + "null"@ + ",\"online\":"@
            + "false"@ + "}"@,
        NETWORK_TIMEOUT_SECS == 8,
{
}

/// A shortcut is registered anew exactly where it has changed; one that stays is left alone.
pub proof fn law_changed_shortcuts_are_registered(before: UserPreferences, after: UserPreferences)
    ensures
        shortcut_changes(before, after).dictation <==> before.dictation_hotkey@
            != after.dictation_hotkey@,
        shortcut_changes(before, after).translation <==> before.translation_hotkey@
            != after.translation_hotkey@,
        before.open_app_hotkey is None && after.open_app_hotkey is None ==> !shortcut_changes(
            before,
            after,
        ).open_app,
        before.open_app_hotkey is Some != after.open_app_hotkey is Some ==> shortcut_changes(
            before,
            after,
        ).open_app,
        before.open_app_hotkey is Some && after.open_app_hotkey is Some ==> (shortcut_changes(
            before,
            after,
        ).open_app <==> before.open_app_hotkey->0@ != after.open_app_hotkey->0@),
        !shortcut_changes(before, before).dictation,
{
}

/// A recording is told as a data URL with all its bytes, and recognised anew from all its samples:
/// those after the header. Where there is none, the same is said of it in both cases.
pub proof fn law_recording_is_handed_over(read: RecordingRead)
    ensures
        read matches RecordingRead::Contents(data) ==> {
            &&& recording_told(read) == "{\"data\":\"data:audio/wav;base64,"@ + base64_of(data@)
                + "\"}"@
            &&& data@.len() > 44 ==> (samples_read(read) matches Ok(pcm) && pcm.len() == data@.len()
                - 44 && forall|i: int| 0 <= i < pcm.len() ==> #[trigger] pcm[i] == data@[i + 44])
            &&& data@.len() <= 44 ==> samples_read(read) is Err
        },
        !(read is Contents) ==> (samples_read(read) matches Err(e) && recording_told(read)
            == error_told(e)),
        read is NotFound ==> samples_read(read) == Err::<Seq<u8>, Seq<char>>(
            "recording not found"@,
        ),
{
}

/// Copying a recording is refused before the program is ready, then for an id that is none, then
/// for a missing destination; the numbers for these and for what copying comes to are only shared
/// by a destination that is missing and one that cannot be written.
pub proof fn law_copying_is_answered(
    session_id: Seq<char>,
    dest_path: Seq<char>,
    outcome: ExportOutcome,
)
    ensures
        refused_export(false, session_id, dest_path) == Some(1i32),
        !session_id_text(session_id) ==> refused_export(true, session_id, dest_path) == Some(2i32),
        session_id_text(session_id) && dest_path.len() == 0 ==> refused_export(
            true,
            session_id,
            dest_path,
        ) == Some(4i32),
        session_id_text(session_id) && dest_path.len() > 0 ==> refused_export(
            true,
            session_id,
            dest_path,
        ) is None,
        export_number(outcome) == 0 <==> outcome == ExportOutcome::Copied,
        export_number(outcome) == 3 <==> outcome == ExportOutcome::NotFound,
        export_number(outcome) == 4 <==> outcome == ExportOutcome::Failed,
{
}

/// What the host tells of a provider is taken from the members of these names; what is missing is
/// empty, but for the key and the notes, which are left out.
pub proof fn law_provider_fields_are_read(v: JsonValue, text: Seq<char>)
    ensures
        v.str_member("id"@) == Some(text) ==> fields_in(v).id == text,
        v.str_member("name"@) == Some(text) ==> fields_in(v).name == text,
        v.str_member("url"@) == Some(text) ==> fields_in(v).url == text,
        v.str_member("id"@) is None ==> fields_in(v).id.len() == 0,
        v.str_member("name"@) is None ==> fields_in(v).name.len() == 0,
        v.str_member("url"@) is None ==> fields_in(v).url.len() == 0,
        fields_in(v).api_key == v.str_member("apiKey"@),
        fields_in(v).notes == v.str_member("notes"@),
{
}

/// Trying out a provider opens a session of the built-in engine, or asks for the list of models
/// with the key, whatever slashes the address ends with, for ten seconds at most; it fails at once
/// where the provider or its address is missing.
pub proof fn law_provider_is_tried_out(
    id: Seq<char>,
    providers: Seq<ProviderRecord>,
    address: Seq<char>,
    slashes: nat,
)
    requires
        address.len() > 0,
        address.last() != '/',
    ensures
        provider_probe("doubao"@, providers) == ProbePlanView::OpenBuiltin,
        provider_probe("builtin-doubao"@, providers) == ProbePlanView::OpenBuiltin,
        id != "doubao"@ && id != "builtin-doubao"@ ==> {
            &&& found(providers, id) is None ==> provider_probe(id, providers)
                == ProbePlanView::Fails("供应商不存在"@)
            &&& found(providers, id) is Some && blank(found(providers, id)->0.url)
                ==> provider_probe(id, providers) == ProbePlanView::Fails("请先填写 URL"@)
            &&& found(providers, id) is Some && !blank(found(providers, id)->0.url) && found(
                providers,
                id,
            )->0.url == address + Seq::new(slashes, |i: int| '/') ==> provider_probe(id, providers)
                == (ProbePlanView::Get {
                url: address + "/v1/models"@,
                api_key: found(providers, id)->0.api_key,
            })
        },
        PROVIDER_TEST_TIMEOUT_SECS == 10,
{
    law_trailing_characters_go(address, '/', slashes);
}

/// Trying out the engine for dictation asks its bare address without the key; it fails at once
/// where the engine or its address is missing.
pub proof fn law_engine_is_tried_out(active: Seq<char>, providers: Seq<ProviderRecord>)
    ensures
        engine_probe("doubao"@, providers) == ProbePlanView::OpenBuiltin,
        engine_probe("builtin-doubao"@, providers) == ProbePlanView::OpenBuiltin,
        active != "doubao"@ && active != "builtin-doubao"@ ==> {
            &&& found(providers, active) is None ==> engine_probe(active, providers)
                == ProbePlanView::Fails("未找到当前 ASR 供应商"@)
            &&& found(providers, active) is Some && found(providers, active)->0.url.len() == 0
                ==> engine_probe(active, providers) == ProbePlanView::Fails("供应商未配置 URL"@)
            &&& found(providers, active) is Some && found(providers, active)->0.url.len() > 0 ==> (
            engine_probe(active, providers) matches ProbePlanView::Get { url, api_key } && api_key
                is None && url == without_trailing(trimmed(found(providers, active)->0.url), '/'))
        },
{
}

/// The host is told that all is well only where there is no error, and else the error.
pub proof fn law_outcome_is_told(error: Seq<char>)
    ensures
        outcome_json(None) == "{\"error\":"@ + "null"@ + ",\"ok\":"@ + "true"@ + "}"@,
        outcome_json(Some(error)) == "{\"error\":"@ + quoted(error) + ",\"ok\":"@ + "false"@
            + "}"@,
        error_told(error) == "{\"error\":"@ + quoted(error) + "}"@,
{
}

/// Changes of the microphones are told at most every three tenths of a second; after each the
/// watch is free for the next.
pub proof fn law_microphone_changes_are_told_sparingly(watch: DeviceWatch, now: u64)
    ensures
        watch.host_is_told(now) <==> now >= watch.last_event + 300,
        !watch.after_passing_on(now).in_flight,
        watch.host_is_told(now) ==> watch.after_passing_on(now).last_event == now,
        !watch.host_is_told(now) ==> watch.after_passing_on(now).last_event == watch.last_event,
{
}

/// The number that a character of Base 64 stands for.
pub open spec fn base64_value(c: char) -> int {
    if 'A' <= c <= 'Z' {
        c as int - 'A' as int
    } else if 'a' <= c <= 'z' {
        26 + (c as int - 'a' as int)
    } else if '0' <= c <= '9' {
        52 + (c as int - '0' as int)
    } else if c == '+' {
        62
    } else {
        63
    }
}

/// Each character stands for six bits.
pub proof fn law_base64_digits_read_back(v: int)
    requires
        0 <= v < 64,
    ensures
        base64_value(base64_digit(v)) == v,
        base64_digit(63) == '/',
{
}

/// Three bytes are read back from the four characters that they are written as; what follows them
/// is written as if it stood alone, and fewer than three bytes at the end are filled up.
pub proof fn law_base64_reads_back(a: u8, b: u8, c: u8, rest: Seq<u8>)
    ensures
        ({
            let s = base64_of(seq![a, b, c] + rest);
            &&& s.len() == 4 + base64_of(rest).len()
            &&& s.skip(4) == base64_of(rest)
            &&& ((base64_value(s[0]) * 64 + base64_value(s[1])) * 64 + base64_value(s[2])) * 64
                + base64_value(s[3]) == (a * 256 + b) * 256 + c
        }),
        ({
            let s = base64_of(seq![a, b]);
            &&& s.len() == 4
            &&& s[3] == '='
            &&& (base64_value(s[0]) * 64 + base64_value(s[1])) * 64 + base64_value(s[2]) == (a * 256
                + b) * 4
        }),
        ({
            let s = base64_of(seq![a]);
            &&& s.len() == 4
            &&& s[2] == '=' && s[3] == '='
            &&& base64_value(s[0]) * 64 + base64_value(s[1]) == a * 16
        }),
        base64_of(Seq::empty()).len() == 0,
{
    let all = seq![a, b, c] + rest;
    assert(all.skip(3) =~= rest);
    assert(base64_of(all).skip(4) =~= base64_of(rest));
    law_base64_digits_read_back(a as int / 4);
    law_base64_digits_read_back(a as int % 4 * 16 + b as int / 16);
    law_base64_digits_read_back(b as int % 16 * 4 + c as int / 64);
    law_base64_digits_read_back(c as int % 64);
    law_base64_digits_read_back(b as int % 16 * 4);
    law_base64_digits_read_back(a as int % 4 * 16);
}

/// What the host is told stands under these names, with all texts quoted and an error only where
/// there is one; a provider works just where trying it out brought no error.
pub proof fn law_host_is_told_by_name(id: Seq<char>, text: Seq<char>, ok: bool)
    ensures
        status_json(ok, None) == "{\"error\":"@ + "null"@ + ",\"ok\":"@ + bool_text(ok) + "}"@,
        status_json(ok, Some(text)) == "{\"error\":"@ + quoted(text) + ",\"ok\":"@ + bool_text(ok)
            + "}"@,
        probe_json(id, None) == "{\"error\":"@ + "null"@ + ",\"id\":"@ + quoted(id) + ",\"ok\":"@
            + "true"@ + "}"@,
        probe_json(id, Some(text)) == "{\"error\":"@ + quoted(text) + ",\"id\":"@ + quoted(id)
            + ",\"ok\":"@ + "false"@ + "}"@,
        engine_json(id, ok) == "{\"activeAsrProvider\":"@ + quoted(id) + ",\"asrConfigured\":"@
            + bool_text(ok) + "}"@,
        text_json(text) == "{\"text\":"@ + quoted(text) + "}"@,
        failed_again_json(id, text) == "{\"error\":"@ + quoted(text) + ",\"id\":"@ + quoted(id)
            + "}"@,
{
}

} // verus!
