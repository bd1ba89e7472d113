//! What must hold before an engine is used, which engine it is, and the script of its text.
use ferrous_opencc::config::BuiltinConfig;
use ferrous_opencc::OpenCC;
use vstd::prelude::*;
use vstd::string::*;

use crate::asr::doubao::is_doubao;
use crate::asr::grok_stt::is_grok_stt;
use crate::coordinator::inner::{label_of, AsrCallLabel, LabelRecord};
use crate::coordinator::resources::Engine;
use crate::permissions::PermissionStatus;
use crate::providers::{find_provider, found, listed, records, Provider, ProviderRecord};
use crate::text::{has_substring, join2, join3, occurs_at, owned, same};
use crate::types::{opt_text, ChineseScriptPreference, Platform, PolishMode};

verus! {

/// How a permission is told to the user.
pub open spec fn permission_name(status: PermissionStatus) -> Seq<char> {
    match status {
        PermissionStatus::Granted => "Granted"@,
        PermissionStatus::Denied => "Denied"@,
        PermissionStatus::NotDetermined => "NotDetermined"@,
        PermissionStatus::Restricted => "Restricted"@,
        PermissionStatus::NotApplicable => "NotApplicable"@,
        PermissionStatus::NoDevice => "NoDevice"@,
    }
}

/// How a permission is told to the user.
fn permission_text(status: PermissionStatus) -> (r: &'static str)
    ensures
        r@ == permission_name(status),
{
    match status {
        PermissionStatus::Granted => "Granted",
        PermissionStatus::Denied => "Denied",
        PermissionStatus::NotDetermined => "NotDetermined",
        PermissionStatus::Restricted => "Restricted",
        PermissionStatus::NotApplicable => "NotApplicable",
        PermissionStatus::NoDevice => "NoDevice",
    }
}

/// Whether the microphone may be used as far as the permission goes.
pub open spec fn usable(status: PermissionStatus) -> bool {
    status == PermissionStatus::Granted || status == PermissionStatus::NotApplicable
}

/// What a look at the microphone comes to.
#[derive(Debug)]
pub enum MicrophoneGate {
    Open,
    Closed(String),
    /// The system must be asked for the permission.
    Ask,
}

/// A look at the microphone comes to that.
pub open spec fn gate_of(
    platform: Platform,
    explicitly_denied: bool,
    has_device: bool,
    status: PermissionStatus,
    gate: MicrophoneGate,
) -> bool {
    match gate {
        MicrophoneGate::Open => if platform == Platform::Windows {
            !explicitly_denied && has_device
        } else {
            usable(status)
        },
        MicrophoneGate::Closed(m) => if platform == Platform::Windows {
            if explicitly_denied {
                m@ == "需要麦克风权限，当前状态: Denied"@
            } else {
                !has_device && m@ == "未检测到麦克风，请连接麦克风后重试"@
            }
        } else {
            status == PermissionStatus::NoDevice && m@ == "未检测到麦克风，请连接麦克风后重试"@
        },
        MicrophoneGate::Ask => platform != Platform::Windows && !usable(status) && status
            != PermissionStatus::NoDevice,
    }
}

/// Whether a session may record. Windows tells whether access is denied and whether a device is
/// there; elsewhere the permission decides.
pub fn ensure_microphone_permission(
    platform: Platform,
    explicitly_denied: bool,
    has_device: bool,
    status: PermissionStatus,
) -> (r: MicrophoneGate)
    ensures
        gate_of(platform, explicitly_denied, has_device, status, r),
{
    if platform == Platform::Windows {
        if explicitly_denied {
            return MicrophoneGate::Closed(owned("需要麦克风权限，当前状态: Denied"));
        }
        if has_device {
            return MicrophoneGate::Open;
        }
        return MicrophoneGate::Closed(owned("未检测到麦克风，请连接麦克风后重试"));
    }
    if status == PermissionStatus::Granted || status == PermissionStatus::NotApplicable {
        return MicrophoneGate::Open;
    }
    if status == PermissionStatus::NoDevice {
        return MicrophoneGate::Closed(owned("未检测到麦克风，请连接麦克风后重试"));
    }
    MicrophoneGate::Ask
}

/// What the system's answer comes to, once it was asked for the permission.
pub fn microphone_answer(requested: PermissionStatus) -> (r: Result<(), String>)
    ensures
        r is Ok <==> usable(requested),
        r matches Err(m) ==> m@ == "需要麦克风权限，当前状态: "@ + permission_name(requested),
{
    if requested == PermissionStatus::Granted || requested == PermissionStatus::NotApplicable {
        Ok(())
    } else {
        Err(join2("需要麦克风权限，当前状态: ", permission_text(requested)))
    }
}

/// The id names the engine that is built in.
pub open spec fn names_doubao(id: Seq<char>) -> bool {
    id == "builtin-doubao"@ || id == "doubao"@
}

/// Whether the id names the engine that is built in.
pub fn is_builtin_doubao(id: &str) -> (r: bool)
    ensures
        r == names_doubao(id@),
{
    same(id, "builtin-doubao") || is_doubao(id)
}

/// Why an engine cannot be used, where it cannot: it is unknown, or has no address. The built-in
/// one needs nothing.
pub open spec fn credential_error(providers: Seq<ProviderRecord>, active: Seq<char>) -> Option<
    Seq<char>,
> {
    if names_doubao(active) {
        None
    } else {
        match found(providers, active) {
            Some(p) => if p.url.len() == 0 {
                Some("供应商「"@ + p.name + "」未配置 URL"@)
            } else {
                None
            },
            None => Some(
                "未找到语音引擎「"@ + active + "」，请在供应商页面添加"@,
            ),
        }
    }
}

/// Whether the engine can be used.
pub fn ensure_asr_credentials(providers: &[Provider], active_asr: &str) -> (r: Result<(), String>)
    ensures
        match r {
            Ok(_) => credential_error(records(providers@), active_asr@) is None,
            Err(m) => credential_error(records(providers@), active_asr@) == Some(m@),
        },
{
    if is_builtin_doubao(active_asr) {
        return Ok(());
    }
    match find_provider(providers, active_asr) {
        Some(p) => {
            if p.url.as_str().is_empty() {
                return Err(join3("供应商「", p.name.as_str(), "」未配置 URL"));
            }
            Ok(())
        },
        None => Err(
            join3("未找到语音引擎「", active_asr, "」，请在供应商页面添加"),
        ),
    }
}

/// A Chinese script.
#[derive(Clone, Copy, PartialEq, Eq, Structural, Debug)]
pub enum ScriptTarget {
    Simplified,
    Traditional,
}

/// A text in the other Chinese script, in traditional or else in simplified characters; none where
/// the converter cannot be set up.
pub uninterp spec fn script_converted(text: Seq<char>, traditional: bool) -> Option<Seq<char>>;

/// `ferrous_opencc::OpenCC::from_config` sets up a converter from dictionaries that are part of the
/// crate, and `OpenCC::convert` applies it. The result depends on the configuration and the text
/// alone.
#[verifier::external_body]
fn convert_script(text: &str, target: ScriptTarget) -> (r: Option<String>)
    ensures
        opt_text(r) == script_converted(text@, target == ScriptTarget::Traditional),
{
    let config = match target {
        ScriptTarget::Simplified => BuiltinConfig::T2s,
        ScriptTarget::Traditional => BuiltinConfig::S2t,
    };
    match OpenCC::from_config(config) {
        Ok(converter) => Some(converter.convert(text)),
        Err(_) => None,
    }
}

/// A text in the script that the user prefers, where `converted` is what the converter makes of it.
pub open spec fn in_script(
    text: Seq<char>,
    pref: ChineseScriptPreference,
    converted: Option<Seq<char>>,
) -> Seq<char> {
    if text.len() == 0 || pref == ChineseScriptPreference::Auto {
        text
    } else {
        match converted {
            Some(t) => t,
            None => text,
        }
    }
}

/// A text in the script that the user prefers, given what the converter made of it.
pub fn script_applied(
    text: &str,
    pref: ChineseScriptPreference,
    converted: Option<String>,
) -> (r: String)
    ensures
        r@ == in_script(text@, pref, opt_text(converted)),
{
    if text.is_empty() || pref == ChineseScriptPreference::Auto {
        return owned(text);
    }
    match converted {
        Some(t) => t,
        None => owned(text),
    }
}

/// A text in the script that the user prefers.
pub open spec fn script_preferred(text: Seq<char>, pref: ChineseScriptPreference) -> Seq<char> {
    in_script(
        text,
        pref,
        script_converted(text, pref == ChineseScriptPreference::Traditional),
    )
}

/// Writes a text in the script that the user prefers.
pub fn apply_chinese_script_preference(text: &str, pref: ChineseScriptPreference) -> (r: String)
    ensures
        r@ == script_preferred(text@, pref),
{
    if text.is_empty() {
        return owned(text);
    }
    let target = match pref {
        ChineseScriptPreference::Simplified => ScriptTarget::Simplified,
        ChineseScriptPreference::Traditional => ScriptTarget::Traditional,
        ChineseScriptPreference::Auto => {
            return owned(text);
        },
    };
    script_applied(text, pref, convert_script(text, target))
}

/// The engine for a recording, how it is labelled, and the credentials that go with it.
#[derive(Debug)]
pub struct EngineChoice {
    pub engine: Engine,
    pub label: AsrCallLabel,
    /// Address and key of a provider that the user has added.
    pub credentials: Option<(String, String)>,
}

/// Address and key of a provider.
pub open spec fn provider_credentials(p: ProviderRecord) -> (Seq<char>, Seq<char>) {
    (
        p.url,
        match p.api_key {
            Some(key) => key,
            None => seq![],
        },
    )
}

/// The contents of optional credentials.
pub open spec fn opt_credentials(c: Option<(String, String)>) -> Option<(Seq<char>, Seq<char>)> {
    match c {
        Some((url, key)) => Some((url@, key@)),
        None => None,
    }
}

fn credentials_of(p: &Provider) -> (r: (String, String))
    ensures
        (r.0@, r.1@) == provider_credentials(p@),
{
    let key = match &p.api_key {
        Some(key) => owned(key.as_str()),
        None => String::new(),
    };
    assert(p.api_key is None ==> key@ =~= seq![]);
    (owned(p.url.as_str()), key)
}

/// The name of the built-in engine: the one it has in the list.
pub open spec fn doubao_name(providers: Seq<ProviderRecord>) -> Seq<char> {
    match found(providers, "builtin-doubao"@) {
        Some(p) => p.name,
        None => "豆包 IME"@,
    }
}

/// The contents of a choice.
pub ghost struct ChoiceRecord {
    pub engine: Engine,
    pub label: LabelRecord,
    pub credentials: Option<(Seq<char>, Seq<char>)>,
}

impl View for EngineChoice {
    type V = ChoiceRecord;

    open spec fn view(&self) -> ChoiceRecord {
        ChoiceRecord {
            engine: self.engine,
            label: self.label@,
            credentials: opt_credentials(self.credentials),
        }
    }
}

/// The engine for dictation, where there is one.
pub open spec fn chosen(providers: Seq<ProviderRecord>, active: Seq<char>) -> Option<ChoiceRecord> {
    if names_doubao(active) {
        Some(
            ChoiceRecord {
                engine: Engine::Doubao,
                label: label_of(doubao_name(providers), None),
                credentials: None,
            },
        )
    } else {
        match found(providers, active) {
            Some(p) => Some(
                ChoiceRecord {
                    engine: Engine::GrokStt,
                    label: label_of(p.name, None),
                    credentials: Some(provider_credentials(p)),
                },
            ),
            None => None,
        }
    }
}

/// The engine for dictation: the built-in one, or the Grok channel with the credentials of the
/// provider; none where the provider is gone.
pub fn choose_engine(providers: &[Provider], active_asr: &str) -> (r: Option<EngineChoice>)
    ensures
        match r {
            Some(c) => chosen(records(providers@), active_asr@) == Some(c@),
            None => chosen(records(providers@), active_asr@) is None,
        },
{
    if is_builtin_doubao(active_asr) {
        let name = match find_provider(providers, "builtin-doubao") {
            Some(p) => p.name,
            None => owned("豆包 IME"),
        };
        return Some(
            EngineChoice {
                engine: Engine::Doubao,
                label: AsrCallLabel::new(name.as_str(), None),
                credentials: None,
            },
        );
    }
    match find_provider(providers, active_asr) {
        Some(p) => Some(
            EngineChoice {
                engine: Engine::GrokStt,
                label: AsrCallLabel::new(p.name.as_str(), None),
                credentials: Some(credentials_of(&p)),
            },
        ),
        None => None,
    }
}

/// The Grok channel serves the id: it is its own, or that of a provider in the list other than the
/// built-in engine.
pub open spec fn third_party(providers: Seq<ProviderRecord>, active: Seq<char>) -> bool {
    !names_doubao(active) && (active == "grok_stt"@ || listed(providers, active))
}

/// The engine that is kept warm for the id.
pub fn warmup_engine(providers: &[Provider], active_asr: &str) -> (r: Engine)
    ensures
        r == if third_party(records(providers@), active_asr@) {
            Engine::GrokStt
        } else {
            Engine::Doubao
        },
{
    if is_builtin_doubao(active_asr) {
        return Engine::Doubao;
    }
    if is_grok_stt(active_asr) || find_provider(providers, active_asr).is_some() {
        Engine::GrokStt
    } else {
        Engine::Doubao
    }
}

/// The engine with which a recording is recognised anew.
pub open spec fn chosen_anew(providers: Seq<ProviderRecord>, active: Seq<char>) -> ChoiceRecord {
    if third_party(providers, active) {
        ChoiceRecord {
            engine: Engine::GrokStt,
            label: label_of("grok_stt"@, None),
            credentials: if active == "grok_stt"@ {
                None
            } else {
                Some(provider_credentials(found(providers, active)->0))
            },
        }
    } else {
        ChoiceRecord {
            engine: Engine::Doubao,
            label: label_of("doubao"@, None),
            credentials: None,
        }
    }
}

/// The engine with which a recording is recognised anew, apart from the one used for dictation.
pub fn build_qa_asr_start(providers: &[Provider], active_asr: &str) -> (r: EngineChoice)
    ensures
        r@ == chosen_anew(records(providers@), active_asr@),
{
    if !is_builtin_doubao(active_asr) {
        if is_grok_stt(active_asr) {
            return EngineChoice {
                engine: Engine::GrokStt,
                label: AsrCallLabel::new("grok_stt", None),
                credentials: None,
            };
        }
        match find_provider(providers, active_asr) {
            Some(p) => {
                return EngineChoice {
                    engine: Engine::GrokStt,
                    label: AsrCallLabel::new("grok_stt", None),
                    credentials: Some(credentials_of(&p)),
                };
            },
            None => {},
        }
    }
    EngineChoice {
        engine: Engine::Doubao,
        label: AsrCallLabel::new("doubao", None),
        credentials: None,
    }
}

/// Preferences as they must be: the engine and the mode, and whether they were changed for that.
#[derive(Debug)]
pub struct Migrated {
    pub active_asr_provider: String,
    pub default_mode: PolishMode,
    pub changed: bool,
}

/// A provider that preferences may name.
pub open spec fn known_provider(providers: Seq<ProviderRecord>, id: Seq<char>) -> bool {
    id == "doubao"@ || id == "grok_stt"@ || listed(providers, id)
}

/// The engine that preferences name once they are up to date.
pub open spec fn migrated_engine(providers: Seq<ProviderRecord>, id: Seq<char>) -> Seq<char> {
    if known_provider(providers, id) {
        id
    } else {
        "doubao"@
    }
}

/// Brings preferences up to date: an unknown engine becomes the built-in one, and text is not
/// reworked.
pub fn migrate_doubao_prefs(providers: &[Provider], active_asr: &str, mode: PolishMode) -> (r:
    Migrated)
    ensures
        r.active_asr_provider@ == migrated_engine(records(providers@), active_asr@),
        r.default_mode == PolishMode::Raw,
        r.changed <==> !known_provider(records(providers@), active_asr@) || mode != PolishMode::Raw,
{
    let known = is_doubao(active_asr) || is_grok_stt(active_asr) || find_provider(
        providers,
        active_asr,
    ).is_some();
    Migrated {
        active_asr_provider: if known {
            owned(active_asr)
        } else {
            owned("doubao")
        },
        default_mode: PolishMode::Raw,
        changed: !known || mode != PolishMode::Raw,
    }
}

/// Bringing preferences up to date a second time changes nothing.
pub proof fn law_migration_is_settled(providers: Seq<ProviderRecord>, id: Seq<char>)
    ensures
        ({
            let after = if known_provider(providers, id) {
                id
            } else {
                "doubao"@
            };
            known_provider(providers, after)
        }),
{
}

/// A session records only where the microphone is allowed, or where the system has no such
/// permission.
pub proof fn law_microphone_must_be_allowed(status: PermissionStatus)
    ensures
        usable(status) <==> status == PermissionStatus::Granted || status
            == PermissionStatus::NotApplicable,
        !usable(PermissionStatus::Denied) && !usable(PermissionStatus::NotDetermined) && !usable(
            PermissionStatus::Restricted,
        ) && !usable(PermissionStatus::NoDevice),
{
}

/// The built-in engine can be used without any set-up. Any other one must be in the list and have an
/// address; the user is told which of the two is missing, and of which engine.
pub proof fn law_engine_needs_an_address(providers: Seq<ProviderRecord>, active: Seq<char>)
    ensures
        active == "builtin-doubao"@ || active == "doubao"@ ==> credential_error(providers, active)
            is None,
        active != "builtin-doubao"@ && active != "doubao"@ ==> match found(providers, active) {
            Some(p) => {
                &&& credential_error(providers, active) is Some <==> p.url.len() == 0
                &&& p.url.len() == 0 ==> has_substring(credential_error(providers, active)->0, p.name)
                &&& p.url.len() == 0 ==> credential_error(providers, active)->0 == "供应商「"@
                    + p.name + "」未配置 URL"@
            },
            None => {
                &&& credential_error(providers, active) is Some
                &&& has_substring(credential_error(providers, active)->0, active)
                &&& credential_error(providers, active)->0 == "未找到语音引擎「"@ + active
                    + "」，请在供应商页面添加"@
            },
        },
{
    if !names_doubao(active) {
        match found(providers, active) {
            Some(p) => {
                if p.url.len() == 0 {
                    let m = credential_error(providers, active)->0;
                    let at = "供应商「"@.len() as int;
                    assert(m.subrange(at, at + p.name.len()) =~= p.name);
                    assert(occurs_at(m, p.name, at));
                }
            },
            None => {
                let m = credential_error(providers, active)->0;
                let at = "未找到语音引擎「"@.len() as int;
                assert(m.subrange(at, at + active.len()) =~= active);
                assert(occurs_at(m, active, at));
            },
        }
    }
}

/// Text stays as it was recognised unless the user prefers a script; a text that cannot be converted
/// stays too, and so does an empty one.
pub proof fn law_script_is_the_preferred_one(text: Seq<char>, converted: Seq<char>)
    requires
        text.len() > 0,
    ensures
        script_preferred(text, ChineseScriptPreference::Auto) == text,
        script_preferred(seq![], ChineseScriptPreference::Traditional).len() == 0,
        script_preferred(seq![], ChineseScriptPreference::Simplified).len() == 0,
        script_converted(text, true) == Some(converted) ==> script_preferred(
            text,
            ChineseScriptPreference::Traditional,
        ) == converted,
        script_converted(text, false) == Some(converted) ==> script_preferred(
            text,
            ChineseScriptPreference::Simplified,
        ) == converted,
        script_converted(text, true) is None ==> script_preferred(
            text,
            ChineseScriptPreference::Traditional,
        ) == text,
        script_converted(text, false) is None ==> script_preferred(
            text,
            ChineseScriptPreference::Simplified,
        ) == text,
{
}

/// The Grok channel is used for its own id and for providers that the user has added, never for the
/// built-in engine, whatever the list holds. Preferences may name any of these.
pub proof fn law_channel_of_an_engine(providers: Seq<ProviderRecord>, id: Seq<char>)
    ensures
        !third_party(providers, "builtin-doubao"@),
        !third_party(providers, "doubao"@),
        third_party(providers, "grok_stt"@),
        id != "builtin-doubao"@ && id != "doubao"@ && id != "grok_stt"@ ==> (third_party(
            providers,
            id,
        ) <==> exists|i: int| 0 <= i < providers.len() && (#[trigger] providers[i]).id == id),
        known_provider(providers, "doubao"@) && known_provider(providers, "grok_stt"@),
        id != "doubao"@ && id != "grok_stt"@ ==> (known_provider(providers, id) <==> exists|i: int|
            0 <= i < providers.len() && (#[trigger] providers[i]).id == id),
{
    reveal_strlit("grok_stt");
    reveal_strlit("doubao");
    reveal_strlit("builtin-doubao");
    assert("grok_stt"@.len() != "doubao"@.len());
    assert("grok_stt"@.len() != "builtin-doubao"@.len());
}

/// A look at the microphone: Windows tells of settings that deny it before it tells of a missing
/// device, and never asks; elsewhere a missing device is told, a permission that is granted or not
/// needed lets the session record, and else the system is asked.
pub proof fn law_microphone_is_looked_at(
    platform: Platform,
    explicitly_denied: bool,
    has_device: bool,
    status: PermissionStatus,
    gate: MicrophoneGate,
)
    requires
        gate_of(platform, explicitly_denied, has_device, status, gate),
    ensures
        platform == Platform::Windows ==> {
            &&& gate is Open <==> !explicitly_denied && has_device
            &&& !(gate is Ask)
            &&& explicitly_denied ==> (gate matches MicrophoneGate::Closed(m) && m@
                == "需要麦克风权限，当前状态: Denied"@)
            &&& !explicitly_denied && !has_device ==> (gate matches MicrophoneGate::Closed(m) && m@
                == "未检测到麦克风，请连接麦克风后重试"@)
        },
        platform != Platform::Windows ==> {
            &&& gate is Open <==> status == PermissionStatus::Granted || status
                == PermissionStatus::NotApplicable
            &&& gate is Closed <==> status == PermissionStatus::NoDevice
            &&& gate is Ask <==> status == PermissionStatus::Denied || status
                == PermissionStatus::NotDetermined || status == PermissionStatus::Restricted
        },
{
}

/// The engine for dictation: the built-in one under either of its ids and under the name that it has
/// in the list, and else the Grok channel with the address, the key and the name of the provider. A
/// provider that is gone leaves none.
pub proof fn law_engine_for_dictation(providers: Seq<ProviderRecord>, active: Seq<char>)
    ensures
        active == "doubao"@ || active == "builtin-doubao"@ ==> {
            &&& chosen(providers, active) matches Some(c)
            &&& c.engine == Engine::Doubao
            &&& c.credentials is None
            &&& c.label.model is None
            &&& found(providers, "builtin-doubao"@) matches Some(p) ==> c.label.provider == p.name
            &&& found(providers, "builtin-doubao"@) is None ==> c.label.provider == "豆包 IME"@
        },
        active != "doubao"@ && active != "builtin-doubao"@ ==> match found(providers, active) {
            None => chosen(providers, active) is None,
            Some(p) => {
                &&& chosen(providers, active) matches Some(c)
                &&& c.engine == Engine::GrokStt
                &&& c.label.provider == p.name
                &&& c.label.model is None
                &&& c.credentials matches Some(held)
                &&& held.0 == p.url
                &&& p.api_key matches Some(key) ==> held.1 == key
                &&& p.api_key is None ==> held.1.len() == 0
            },
        },
{
}

/// A recording is recognised anew with the engine for dictation: the Grok channel has its own
/// credentials under its own id, and those of the provider under that of a provider.
pub proof fn law_engine_for_recognising_anew(providers: Seq<ProviderRecord>, active: Seq<char>)
    ensures
        active == "doubao"@ || active == "builtin-doubao"@ ==> chosen_anew(providers, active).engine
            == Engine::Doubao,
        chosen_anew(providers, "grok_stt"@).engine == Engine::GrokStt,
        chosen_anew(providers, "grok_stt"@).credentials is None,
        chosen_anew(providers, active).engine == Engine::Doubao ==> chosen_anew(
            providers,
            active,
        ).label.provider == "doubao"@ && chosen_anew(providers, active).credentials is None,
        chosen_anew(providers, active).engine == Engine::GrokStt ==> chosen_anew(
            providers,
            active,
        ).label.provider == "grok_stt"@,
        active != "doubao"@ && active != "builtin-doubao"@ && active != "grok_stt"@ && found(
            providers,
            active,
        ) is Some ==> {
            &&& chosen_anew(providers, active).engine == Engine::GrokStt
            &&& chosen_anew(providers, active).credentials matches Some(held)
            &&& held.0 == found(providers, active)->0.url
            &&& found(providers, active)->0.api_key matches Some(key) ==> held.1 == key
        },
        active != "doubao"@ && active != "builtin-doubao"@ && active != "grok_stt"@ && found(
            providers,
            active,
        ) is None ==> chosen_anew(providers, active).engine == Engine::Doubao,
{
    reveal_strlit("doubao");
    reveal_strlit("builtin-doubao");
    reveal_strlit("grok_stt");
    assert("grok_stt"@.len() != "doubao"@.len());
    assert("grok_stt"@.len() != "builtin-doubao"@.len());
}

/// Preferences keep an engine that they may name; an unknown one becomes the built-in one.
pub proof fn law_unknown_engine_becomes_the_builtin_one(
    providers: Seq<ProviderRecord>,
    id: Seq<char>,
)
    ensures
        id == "doubao"@ || id == "grok_stt"@ ==> migrated_engine(providers, id) == id,
        (exists|i: int| 0 <= i < providers.len() && (#[trigger] providers[i]).id == id)
            ==> migrated_engine(providers, id) == id,
        id != "doubao"@ && id != "grok_stt"@ && (forall|i: int|
            0 <= i < providers.len() ==> (#[trigger] providers[i]).id != id) ==> migrated_engine(
            providers,
            id,
        ) == "doubao"@,
{
}

/// A permission is told to the user by its name.
pub proof fn law_permissions_have_names(status: PermissionStatus)
    ensures
        permission_name(PermissionStatus::Granted) == "Granted"@,
        permission_name(PermissionStatus::Denied) == "Denied"@,
        permission_name(PermissionStatus::NotDetermined) == "NotDetermined"@,
        permission_name(PermissionStatus::Restricted) == "Restricted"@,
        permission_name(PermissionStatus::NotApplicable) == "NotApplicable"@,
        permission_name(PermissionStatus::NoDevice) == "NoDevice"@,
{
}

} // verus!
