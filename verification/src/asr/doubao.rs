//! The Doubao IME channel: credentials, session handshake, audio frames and result messages.
//!
//! The flow is: register the device, fetch a token, open the WebSocket, `StartTask`,
//! `StartSession`, one `TaskRequest` per audio frame, `FinishSession`.
use vstd::prelude::*;
use vstd::string::*;

use super::doubao_proto::{
    decode_response, encode_request, read_fields, request_bytes, AsrResponse, ResponseFields,
};
use super::recognized::{
    candidate_in_text, extract_text_candidate, law_merge_keeps_both, law_merged_text_is_trimmed,
    merge_recognized_text, merged,
};
use crate::ids::{new_simple_id, simple_id, upper_hex_digit};
use crate::json::{
    find_string, find_string_recursive, parse_json, parsed_json, quote, quoted, Json, JsonValue,
};
use crate::text::{
    contains, decimal, decimal_text, first_n_chars, has_substring, join2, join3,
    law_substring_has_surroundings, lemma_trimming_is_settled, occurs_at, owned, same,
    signed_decimal, signed_decimal_text, trimmed,
};

verus! {

/// The id under which preferences name this provider.
pub const PROVIDER_ID: &'static str = "doubao";

/// The application id of the channel.
pub const AID: u64 = 401734;

/// The client version that the channel expects.
pub const VERSION_CODE: u64 = 100102018;

/// The samples of one frame: 20 ms at 16 kHz.
pub const FRAME_SAMPLES: usize = 320;

/// Whether the provider id names this provider.
pub fn is_doubao(id: &str) -> (r: bool)
    ensures
        r == (id@ == "doubao"@),
{
    same(id, PROVIDER_ID)
}

/// What can go wrong with the channel.
#[derive(Debug)]
pub enum DoubaoError {
    Register(String),
    Token(String),
    Connect(String),
    Session(String),
    Opus(String),
    Transport(String),
    Timeout(String),
}

impl DoubaoError {
    /// The text shown for the error.
    pub open spec fn text(self) -> Seq<char> {
        match self {
            DoubaoError::Register(m) => "设备注册失败: "@ + m@,
            DoubaoError::Token(m) => "获取 token 失败: "@ + m@,
            DoubaoError::Connect(m) => "WebSocket 连接失败: "@ + m@,
            DoubaoError::Session(m) => "会话失败: "@ + m@,
            DoubaoError::Opus(m) => "Opus 编码失败: "@ + m@,
            DoubaoError::Transport(m) => "传输中断: "@ + m@,
            DoubaoError::Timeout(m) => "等待 "@ + m@ + " 超时"@,
        }
    }

    /// The text shown for the error.
    pub fn message(&self) -> (r: String)
        ensures
            r@ == self.text(),
    {
        match self {
            DoubaoError::Register(m) => join2("设备注册失败: ", m.as_str()),
            DoubaoError::Token(m) => join2("获取 token 失败: ", m.as_str()),
            DoubaoError::Connect(m) => join2("WebSocket 连接失败: ", m.as_str()),
            DoubaoError::Session(m) => join2("会话失败: ", m.as_str()),
            DoubaoError::Opus(m) => join2("Opus 编码失败: ", m.as_str()),
            DoubaoError::Transport(m) => join2("传输中断: ", m.as_str()),
            DoubaoError::Timeout(m) => join3("等待 ", m.as_str(), " 超时"),
        }
    }
}

/// Whether the text of an error tells of the server's limit on concurrent sessions.
pub open spec fn quota_text(text: Seq<char>) -> bool {
    has_substring(text, "40200011"@) || has_substring(text, "concurrency quota"@)
}

/// Whether the server refused because too many sessions are open. The connection itself is sound
/// then, and reconnecting is of no use.
pub fn is_quota_error(e: &DoubaoError) -> (r: bool)
    ensures
        r == quota_text(e.text()),
{
    let text = e.message();
    contains(text.as_str(), "40200011") || contains(text.as_str(), "concurrency quota")
}

/// What the channel knows a device by.
#[derive(Debug)]
pub struct DoubaoImeCredentials {
    pub device_id: String,
    pub cdid: String,
    pub token: String,
}

impl DoubaoImeCredentials {
    /// All three parts are there.
    pub open spec fn complete(self) -> bool {
        self.device_id@.len() > 0 && self.cdid@.len() > 0 && self.token@.len() > 0
    }

    /// Whether all three parts are there.
    pub fn auth_ok(&self) -> (r: bool)
        ensures
            r == self.complete(),
    {
        !self.device_id.as_str().is_empty() && !self.cdid.as_str().is_empty()
            && !self.token.as_str().is_empty()
    }
}

/// What getting hold of credentials has come to.
pub enum CredentialEvent {
    Start,
    /// What the cache file holds, where it could be read.
    CacheRead(Option<DoubaoImeCredentials>),
    /// The device id and cdid of a new registration.
    Registered(Result<(String, String), DoubaoError>),
    TokenFetched { device_id: String, cdid: String, token: Result<String, DoubaoError> },
}

/// What is to be done next to get hold of credentials.
pub enum CredentialAction {
    /// The credentials are complete.
    Ready,
    ReadCache,
    Register,
    FetchToken { device_id: String, cdid: String },
    /// The credentials are new: write them to the cache file.
    SaveCache,
    Fail(DoubaoError),
}

/// The credentials once an event has come.
pub open spec fn credentials_after(
    credentials: DoubaoImeCredentials,
    event: CredentialEvent,
) -> DoubaoImeCredentials {
    match event {
        CredentialEvent::CacheRead(Some(cached)) if cached.complete() => cached,
        CredentialEvent::TokenFetched { device_id, cdid, token: Ok(token) } =>
            DoubaoImeCredentials { device_id, cdid, token },
        _ => credentials,
    }
}

/// What is to be done once an event has come.
pub open spec fn credential_action(
    credentials: DoubaoImeCredentials,
    event: CredentialEvent,
) -> CredentialAction {
    match event {
        CredentialEvent::Start => if credentials.complete() {
            CredentialAction::Ready
        } else {
            CredentialAction::ReadCache
        },
        CredentialEvent::CacheRead(Some(cached)) if cached.complete() => CredentialAction::Ready,
        CredentialEvent::CacheRead(_) => CredentialAction::Register,
        CredentialEvent::Registered(Ok((device_id, cdid))) => CredentialAction::FetchToken {
            device_id,
            cdid,
        },
        CredentialEvent::Registered(Err(e)) => CredentialAction::Fail(e),
        CredentialEvent::TokenFetched { token: Ok(_), .. } => CredentialAction::SaveCache,
        CredentialEvent::TokenFetched { token: Err(e), .. } => CredentialAction::Fail(e),
    }
}

/// One step towards complete credentials: those in memory, else those in the cache file, else a
/// new registration and its token.
pub fn ensure_credentials_step(
    credentials: &mut DoubaoImeCredentials,
    event: CredentialEvent,
) -> (action: CredentialAction)
    ensures
        *final(credentials) == credentials_after(*old(credentials), event),
        action == credential_action(*old(credentials), event),
{
    match event {
        CredentialEvent::Start => {
            if credentials.auth_ok() {
                CredentialAction::Ready
            } else {
                CredentialAction::ReadCache
            }
        },
        CredentialEvent::CacheRead(Some(cached)) => {
            if cached.auth_ok() {
                *credentials = cached;
                CredentialAction::Ready
            } else {
                CredentialAction::Register
            }
        },
        CredentialEvent::CacheRead(None) => CredentialAction::Register,
        CredentialEvent::Registered(Ok((device_id, cdid))) => CredentialAction::FetchToken {
            device_id,
            cdid,
        },
        CredentialEvent::Registered(Err(e)) => CredentialAction::Fail(e),
        CredentialEvent::TokenFetched { device_id, cdid, token: Ok(token) } => {
            *credentials = DoubaoImeCredentials { device_id, cdid, token };
            CredentialAction::SaveCache
        },
        CredentialEvent::TokenFetched { token: Err(e), .. } => CredentialAction::Fail(e),
    }
}

/// The path and query of a device registration.
pub open spec fn register_query_text(now_ms: u64, cdid: Seq<char>) -> Seq<char> {
    "/service/2/device_register/?device_platform=android&os=android&ssmix=a&_rticket="@ + decimal(
        now_ms as nat,
    ) + "&cdid="@ + cdid
        + "&channel=official&aid=401734&app_name=oime&version_code=100102018&version_name=1.1.2&manifest_version_code=100102018&update_version_code=100102018&resolution=1080*2400&dpi=420&device_type=Pixel%207%20Pro&device_brand=google&language=zh&os_api=34&os_version=16&ac=wifi"@
}

/// Writes the path and query of a device registration.
pub fn register_query(now_ms: u64, cdid: &str) -> (r: String)
    ensures
        r@ == register_query_text(now_ms, cdid@),
{
    let mut r = owned(
        "/service/2/device_register/?device_platform=android&os=android&ssmix=a&_rticket=",
    );
    r.append(decimal_text(now_ms).as_str());
    r.append("&cdid=");
    r.append(cdid);
    r.append(
        "&channel=official&aid=401734&app_name=oime&version_code=100102018&version_name=1.1.2&manifest_version_code=100102018&update_version_code=100102018&resolution=1080*2400&dpi=420&device_type=Pixel%207%20Pro&device_brand=google&language=zh&os_api=34&os_version=16&ac=wifi",
    );
    r
}

/// The path and query of a token request.
pub open spec fn token_query_text(device_id: Seq<char>, cdid: Seq<char>) -> Seq<char> {
    "/service/settings/v3/?device_platform=android&os=android&ssmix=a&channel=official&aid=401734&app_name=oime&version_code=100102018&version_name=1.1.2&device_id="@
        + device_id + "&cdid="@ + cdid
}

/// Writes the path and query of a token request.
pub fn token_query(device_id: &str, cdid: &str) -> (r: String)
    ensures
        r@ == token_query_text(device_id@, cdid@),
{
    let mut r = owned(
        "/service/settings/v3/?device_platform=android&os=android&ssmix=a&channel=official&aid=401734&app_name=oime&version_code=100102018&version_name=1.1.2&device_id=",
    );
    r.append(device_id);
    r.append("&cdid=");
    r.append(cdid);
    r
}

/// The address of the channel's WebSocket.
pub fn ws_url(device_id: &str) -> (r: String)
    ensures
        r@
            == "wss://frontier-audio-ime-ws.doubao.com/ocean/api/v1/ws?aid=401734&device_id="@
            + device_id@,
{
    join2(
        "wss://frontier-audio-ime-ws.doubao.com/ocean/api/v1/ws?aid=401734&device_id=",
        device_id,
    )
}

/// The identifiers of a new installation: cdid, open udid and client udid.
pub struct DeviceIds {
    pub cdid: String,
    pub openudid: String,
    pub clientudid: String,
}

/// Draws the identifiers of a new installation. The open udid is half as long as the others.
pub fn new_device_ids() -> (r: DeviceIds)
    ensures
        exists|n: u128| r.cdid@ == #[trigger] simple_id(n),
        exists|n: u128| r.openudid@ == (#[trigger] simple_id(n)).take(16),
        exists|n: u128| r.clientudid@ == #[trigger] simple_id(n),
{
    let cdid = new_simple_id();
    let long = new_simple_id();
    let clientudid = new_simple_id();
    let openudid = first_n_chars(long.as_str(), 16);
    DeviceIds { cdid, openudid, clientudid }
}

/// The body of a device registration.
pub open spec fn register_body_text(
    gen_time: u64,
    cdid: Seq<char>,
    clientudid: Seq<char>,
    openudid: Seq<char>,
) -> Seq<char> {
    "{\"_gen_time\":"@ + decimal(gen_time as nat)
        + ",\"header\":{\"access\":\"wifi\",\"aid\":401734,\"app_name\":\"oime\",\"build_serial\":\"unknown\",\"carrier_region\":\"cn\",\"cdid\":"@
        + quoted(cdid)
        + ",\"channel\":\"official\",\"clientudid\":"@
        + quoted(clientudid)
        + ",\"cpu_abi\":\"arm64-v8a\",\"device_brand\":\"google\",\"device_id\":0,\"device_model\":\"Pixel 7 Pro\",\"device_platform\":\"android\",\"device_type\":\"Pixel 7 Pro\",\"dpi\":\"420\",\"google_aid\":\"\",\"install_id\":0,\"language\":\"zh\",\"manifest_version_code\":100102018,\"mc\":\"\",\"not_request_sender\":0,\"openudid\":"@
        + quoted(openudid)
        + ",\"os\":\"android\",\"os_api\":\"34\",\"os_version\":\"16\",\"package\":\"com.bytedance.android.doubaoime\",\"region\":\"CN\",\"resolution\":\"1080*2400\",\"rom\":\"UP1A.231005.007\",\"rom_version\":\"UP1A.231005.007\",\"serial_number\":\"\",\"sig_hash\":\"\",\"sim_region\":\"cn\",\"timezone\":8,\"tz_name\":\"Asia/Shanghai\",\"tz_offset\":28800,\"update_version_code\":100102018,\"version_code\":100102018,\"version_name\":\"1.1.2\"},\"magic_tag\":\"ss_app_log\"}"@
}

/// Writes the body of a device registration.
pub fn register_body(ids: &DeviceIds, gen_time: u64) -> (r: String)
    ensures
        r@ == register_body_text(gen_time, ids.cdid@, ids.clientudid@, ids.openudid@),
{
    let mut r = owned("{\"_gen_time\":");
    r.append(decimal_text(gen_time).as_str());
    r.append(
        ",\"header\":{\"access\":\"wifi\",\"aid\":401734,\"app_name\":\"oime\",\"build_serial\":\"unknown\",\"carrier_region\":\"cn\",\"cdid\":",
    );
    r.append(quote(ids.cdid.as_str()).as_str());
    r.append(
        ",\"channel\":\"official\",\"clientudid\":",
    );
    r.append(quote(ids.clientudid.as_str()).as_str());
    r.append(
        ",\"cpu_abi\":\"arm64-v8a\",\"device_brand\":\"google\",\"device_id\":0,\"device_model\":\"Pixel 7 Pro\",\"device_platform\":\"android\",\"device_type\":\"Pixel 7 Pro\",\"dpi\":\"420\",\"google_aid\":\"\",\"install_id\":0,\"language\":\"zh\",\"manifest_version_code\":100102018,\"mc\":\"\",\"not_request_sender\":0,\"openudid\":",
    );
    r.append(quote(ids.openudid.as_str()).as_str());
    r.append(
        ",\"os\":\"android\",\"os_api\":\"34\",\"os_version\":\"16\",\"package\":\"com.bytedance.android.doubaoime\",\"region\":\"CN\",\"resolution\":\"1080*2400\",\"rom\":\"UP1A.231005.007\",\"rom_version\":\"UP1A.231005.007\",\"serial_number\":\"\",\"sig_hash\":\"\",\"sim_region\":\"cn\",\"timezone\":8,\"tz_name\":\"Asia/Shanghai\",\"tz_offset\":28800,\"update_version_code\":100102018,\"version_code\":100102018,\"version_name\":\"1.1.2\"},\"magic_tag\":\"ss_app_log\"}",
    );
    r
}

/// The MD5 digest of some bytes.
pub uninterp spec fn md5_of(bytes: Seq<u8>) -> Seq<u8>;

/// `md5::Md5::digest`: sixteen bytes that depend on the input alone.
#[verifier::external_body]
fn md5_digest(bytes: &[u8]) -> (r: Vec<u8>)
    ensures
        r@ == md5_of(bytes@),
        r@.len() == 16,
{
    <md5::Md5 as md5::Digest>::digest(bytes).to_vec()
}

/// Two upper-case hexadecimal digits per byte.
pub open spec fn upper_hex(bytes: Seq<u8>) -> Seq<char>
    decreases bytes.len(),
{
    if bytes.len() == 0 {
        seq![]
    } else {
        upper_hex(bytes.drop_last()) + seq![
            upper_hex_digit((bytes.last() / 16) as int),
            upper_hex_digit((bytes.last() % 16) as int),
        ]
    }
}

fn upper_hex_char(d: u8) -> (c: char)
    requires
        d < 16,
    ensures
        c == upper_hex_digit(d as int),
{
    let u: u8 = if d < 10 {
        0x30 + d
    } else {
        0x37 + d
    };
    u as char
}

/// Writes bytes in upper-case hexadecimal digits.
pub fn upper_hex_text(bytes: &[u8]) -> (s: String)
    ensures
        s@ == upper_hex(bytes@),
{
    let mut s = String::new();
    let mut i: usize = 0;
    assert(bytes@.take(0) =~= seq![]);
    while i < bytes.len()
        invariant
            i <= bytes@.len(),
            s@ == upper_hex(bytes@.take(i as int)),
        decreases bytes@.len() - i,
    {
        let b: u8 = bytes[i];
        let ghost before = s@;
        s.push(upper_hex_char(b / 16));
        s.push(upper_hex_char(b % 16));
        proof {
            assert(bytes@.take(i + 1).drop_last() =~= bytes@.take(i as int));
            assert(s@ =~= before + seq![
                upper_hex_digit((b / 16) as int),
                upper_hex_digit((b % 16) as int),
            ]);
        }
        i += 1;
    }
    assert(bytes@.take(i as int) =~= bytes@);
    s
}

/// The checksum header of a request body.
pub fn request_stub(body: &str) -> (r: String)
    ensures
        r@ == upper_hex(md5_of(vstd::utf8::encode_utf8(body@))),
{
    let digest = md5_digest(body.as_bytes());
    upper_hex_text(digest.as_slice())
}

/// The device id that a registration reply carries.
pub open spec fn device_id_of(reply: JsonValue) -> Option<i64> {
    match reply.member("device_id"@) {
        Some(JsonValue::Int(id)) if id != 0 => Some(id),
        _ => None,
    }
}

/// Reads the device id out of a registration reply.
pub fn device_id_in(reply: &Json) -> (r: Result<String, DoubaoError>)
    ensures
        match device_id_of(reply@) {
            Some(id) => r matches Ok(text) && text@ == signed_decimal(id as int),
            None => r matches Err(DoubaoError::Register(m)) && m@ == "响应缺少 device_id"@,
        },
{
    match reply.get("device_id") {
        Some(Json::Int(id)) => {
            if *id != 0 {
                return Ok(signed_decimal_text(*id));
            }
        },
        _ => {},
    }
    Err(DoubaoError::Register(owned("响应缺少 device_id")))
}

/// Reads the reply to a device registration: its status, then its JSON text.
pub fn register_outcome(success: bool, status: &str, text: &str) -> (r: Result<
    String,
    DoubaoError,
>)
    ensures
        !success ==> (r matches Err(DoubaoError::Register(m)) && m@ == "HTTP "@ + status@ + " "@
            + text@),
        success ==> match parsed_json(text@) {
            Err(e) => r matches Err(DoubaoError::Register(m)) && m@ == "响应解析失败: "@ + e,
            Ok(reply) => match device_id_of(reply) {
                Some(id) => r matches Ok(t) && t@ == signed_decimal(id as int),
                None => r matches Err(DoubaoError::Register(m)) && m@ == "响应缺少 device_id"@,
            },
        },
{
    if !success {
        let mut m = join3("HTTP ", status, " ");
        m.append(text);
        return Err(DoubaoError::Register(m));
    }
    match parse_json(text) {
        Err(e) => Err(DoubaoError::Register(join2("响应解析失败: ", e.as_str()))),
        Ok(reply) => device_id_in(&reply),
    }
}

/// The token that a settings reply carries.
pub open spec fn token_of(reply: JsonValue) -> Option<Seq<char>> {
    match find_string(reply, "app_key"@) {
        Some(key) if key.len() > 0 => Some(key),
        _ => None,
    }
}

/// Reads the token out of a settings reply: the first `app_key` that is found in it. There is none
/// where that one is empty.
pub fn token_in(reply: &Json, text: &str) -> (r: Result<String, DoubaoError>)
    ensures
        match token_of(reply@) {
            Some(key) => r matches Ok(t) && t@ == key,
            None => r matches Err(DoubaoError::Token(m)) && m@ == "响应缺少 app_key: "@ + text@,
        },
{
    match find_string_recursive(reply, "app_key") {
        Some(key) => {
            if !key.as_str().is_empty() {
                return Ok(key);
            }
        },
        None => {},
    }
    Err(DoubaoError::Token(join2("响应缺少 app_key: ", text)))
}

/// Reads the reply to a token request: its status, then its JSON text.
pub fn token_outcome(success: bool, status: &str, text: &str) -> (r: Result<String, DoubaoError>)
    ensures
        !success ==> (r matches Err(DoubaoError::Token(m)) && m@ == "HTTP "@ + status@ + " "@
            + text@),
        success ==> match parsed_json(text@) {
            Err(e) => r matches Err(DoubaoError::Token(m)) && m@ == "响应解析失败: "@ + e + ": "@
                + text@,
            Ok(reply) => match token_of(reply) {
                Some(key) => r matches Ok(t) && t@ == key,
                None => r matches Err(DoubaoError::Token(m)) && m@ == "响应缺少 app_key: "@ + text@,
            },
        },
{
    if !success {
        let mut m = join3("HTTP ", status, " ");
        m.append(text);
        return Err(DoubaoError::Token(m));
    }
    match parse_json(text) {
        Err(e) => {
            let mut m = join3("响应解析失败: ", e.as_str(), ": ");
            m.append(text);
            Err(DoubaoError::Token(m))
        },
        Ok(reply) => token_in(&reply, text),
    }
}

/// The payload of `StartSession`.
pub open spec fn session_payload(device_id: Seq<char>) -> Seq<char> {
    "{\"audio_info\":{\"channel\":1,\"format\":\"speech_opus\",\"sample_rate\":16000},\"enable_punctuation\":true,\"enable_speech_rejection\":false,\"extra\":{\"app_name\":\"com.android.chrome\",\"cell_compress_rate\":8,\"did\":\""@
        + device_id
        + "\",\"enable_asr_threepass\":true,\"enable_asr_twopass\":true,\"input_mode\":\"tool\"}}"@
}

/// Writes the payload of `StartSession`.
pub fn start_session_payload(device_id: &str) -> (r: String)
    ensures
        r@ == session_payload(device_id@),
{
    join3(
        "{\"audio_info\":{\"channel\":1,\"format\":\"speech_opus\",\"sample_rate\":16000},\"enable_punctuation\":true,\"enable_speech_rejection\":false,\"extra\":{\"app_name\":\"com.android.chrome\",\"cell_compress_rate\":8,\"did\":\"",
        device_id,
        "\",\"enable_asr_threepass\":true,\"enable_asr_twopass\":true,\"input_mode\":\"tool\"}}",
    )
}

/// Where opening a session stands.
#[derive(Clone, Copy, PartialEq, Eq, Structural, Debug)]
pub enum OpenStage {
    Credentials,
    Connecting,
    Handshaking,
    /// The handshake failed on a connection that was there: connecting anew.
    Reconnecting,
    HandshakingAgain,
    Finished,
}

/// What is to be done next to open a session.
pub enum OpenAction {
    Connect,
    Handshake,
    /// Drop the connection, which is no longer sound, and connect.
    Reconnect,
    /// Make sure of the audio encoder; the session is then open.
    PrepareEncoder,
    Fail(DoubaoError),
}

/// The next stage and action of opening a session.
pub open spec fn opened(
    stage: OpenStage,
    connected: bool,
    outcome: Result<(), DoubaoError>,
) -> (OpenStage, OpenAction) {
    match outcome {
        Ok(_) => match stage {
            OpenStage::Credentials => if connected {
                (OpenStage::Handshaking, OpenAction::Handshake)
            } else {
                (OpenStage::Connecting, OpenAction::Connect)
            },
            OpenStage::Connecting => (OpenStage::Handshaking, OpenAction::Handshake),
            OpenStage::Reconnecting => (OpenStage::HandshakingAgain, OpenAction::Handshake),
            _ => (OpenStage::Finished, OpenAction::PrepareEncoder),
        },
        Err(e) => if stage == OpenStage::Handshaking && !quota_text(e.text()) {
            (OpenStage::Reconnecting, OpenAction::Reconnect)
        } else {
            (OpenStage::Finished, OpenAction::Fail(e))
        },
    }
}

/// One step of opening a session, from the outcome of the step before. A handshake that fails is
/// tried once more on a new connection, unless the server has too many sessions open.
pub fn open_session_step(
    stage: OpenStage,
    connected: bool,
    outcome: Result<(), DoubaoError>,
) -> (r: (OpenStage, OpenAction))
    ensures
        r == opened(stage, connected, outcome),
{
    match outcome {
        Ok(_) => match stage {
            OpenStage::Credentials => {
                if connected {
                    (OpenStage::Handshaking, OpenAction::Handshake)
                } else {
                    (OpenStage::Connecting, OpenAction::Connect)
                }
            },
            OpenStage::Connecting => (OpenStage::Handshaking, OpenAction::Handshake),
            OpenStage::Reconnecting => (OpenStage::HandshakingAgain, OpenAction::Handshake),
            _ => (OpenStage::Finished, OpenAction::PrepareEncoder),
        },
        Err(e) => {
            if stage == OpenStage::Handshaking && !is_quota_error(&e) {
                (OpenStage::Reconnecting, OpenAction::Reconnect)
            } else {
                (OpenStage::Finished, OpenAction::Fail(e))
            }
        },
    }
}

/// What a caller that wants a connection does next.
pub enum ConnectStep {
    /// A connection is there.
    Ready,
    /// This caller connects; others wait for it.
    Connect,
    /// Another caller connects: look again in 50 ms.
    Wait,
    Fail(DoubaoError),
}

/// What a caller that wants a connection does, and whether somebody connects afterwards.
pub open spec fn connects(
    connected: bool,
    connecting: bool,
    past_deadline: bool,
    step: ConnectStep,
    connecting_after: bool,
) -> bool {
    match step {
        ConnectStep::Ready => connected && connecting_after == connecting,
        ConnectStep::Connect => !connected && !connecting && connecting_after,
        ConnectStep::Wait => !connected && connecting && !past_deadline && connecting_after,
        ConnectStep::Fail(e) => {
            &&& !connected && connecting && past_deadline && connecting_after
            &&& e matches DoubaoError::Connect(m)
            &&& m@ == "连接建立超时(3s)"@
        },
    }
}

/// Lets one caller at a time connect. The others wait for it until their deadline.
pub fn connect_step(
    connected: bool,
    connecting: &mut bool,
    past_deadline: bool,
) -> (r: ConnectStep)
    ensures
        connects(connected, *old(connecting), past_deadline, r, *final(connecting)),
{
    if connected {
        ConnectStep::Ready
    } else if !*connecting {
        *connecting = true;
        ConnectStep::Connect
    } else if past_deadline {
        ConnectStep::Fail(DoubaoError::Connect(owned("连接建立超时(3s)")))
    } else {
        ConnectStep::Wait
    }
}

/// What a caller that waits for a message gets.
pub enum WaitResult {
    /// The server's reply: a text, or the text of an error.
    Reply(Result<String, String>),
    /// Nobody will reply any more.
    Closed,
    TimedOut,
}

/// What waiting for a message comes to: its text, or the text of the error.
pub open spec fn waited(key: Seq<char>, result: WaitResult) -> Result<Seq<char>, Seq<char>> {
    match result {
        WaitResult::Reply(Ok(text)) => Ok(text@),
        WaitResult::Reply(Err(m)) => Err("会话失败: "@ + m@),
        WaitResult::Closed => Err("传输中断: "@ + "等待通道中断"@),
        WaitResult::TimedOut => Err("等待 "@ + key + " 超时"@),
    }
}

/// What waiting for the message `key` comes to.
pub fn wait_outcome(key: &str, result: WaitResult) -> (r: Result<String, DoubaoError>)
    ensures
        match result {
            WaitResult::Reply(Ok(text)) => r == Ok::<String, DoubaoError>(text),
            WaitResult::Reply(Err(m)) => r == Err::<String, DoubaoError>(DoubaoError::Session(m)),
            WaitResult::Closed => r matches Err(DoubaoError::Transport(m)) && m@
                == "等待通道中断"@,
            WaitResult::TimedOut => r matches Err(DoubaoError::Timeout(m)) && m@ == key@,
        },
        match r {
            Ok(text) => waited(key@, result) == Ok::<Seq<char>, Seq<char>>(text@),
            Err(e) => waited(key@, result) == Err::<Seq<char>, Seq<char>>(e.text()),
        },
{
    match result {
        WaitResult::Reply(Ok(text)) => Ok(text),
        WaitResult::Reply(Err(m)) => Err(DoubaoError::Session(m)),
        WaitResult::Closed => Err(DoubaoError::Transport(owned("等待通道中断"))),
        WaitResult::TimedOut => Err(DoubaoError::Timeout(owned(key))),
    }
}

/// The first message of a session.
pub fn start_task_message(token: &str, request_id: &str) -> (m: Vec<u8>)
    ensures
        m@ == request_bytes(token@, "StartTask"@, ""@, seq![], request_id@, 0),
{
    let none: Vec<u8> = Vec::new();
    encode_request(token, "StartTask", "", none.as_slice(), request_id, 0)
}

/// The second message of a session, sent once the task has started.
pub fn start_session_message(token: &str, device_id: &str, request_id: &str) -> (m: Vec<u8>)
    ensures
        m@ == request_bytes(
            token@,
            "StartSession"@,
            session_payload(device_id@),
            seq![],
            request_id@,
            0,
        ),
{
    let none: Vec<u8> = Vec::new();
    let payload = start_session_payload(device_id);
    encode_request(token, "StartSession", payload.as_str(), none.as_slice(), request_id, 0)
}

/// The last message of a session.
pub fn finish_session_message(token: &str, request_id: &str) -> (m: Vec<u8>)
    ensures
        m@ == request_bytes(token@, "FinishSession"@, ""@, seq![], request_id@, 0),
{
    let none: Vec<u8> = Vec::new();
    encode_request(token, "FinishSession", "", none.as_slice(), request_id, 0)
}

/// A sample from its two bytes, the lower one first.
pub open spec fn sample(low: u8, high: u8) -> int {
    let u = low + 256 * high;
    if u >= 0x8000 {
        u - 0x1_0000
    } else {
        u
    }
}

/// The samples in a run of bytes; an odd byte at the end is dropped.
pub open spec fn samples(pcm: Seq<u8>) -> Seq<i16> {
    Seq::new((pcm.len() / 2) as nat, |k: int| sample(pcm[2 * k], pcm[2 * k + 1]) as i16)
}

/// How long a session has been recording: not at all before its beginning is known.
pub open spec fn recorded_ms(base_ms: u64, now_ms: u64) -> int {
    if base_ms == 0 || now_ms < base_ms {
        0
    } else {
        now_ms - base_ms
    }
}

/// The samples that wait for a frame once bytes were recorded.
pub open spec fn gathered(pending: Seq<i16>, connected: bool, pcm: Seq<u8>) -> Seq<i16> {
    if connected {
        pending + samples(pcm)
    } else {
        pending
    }
}

/// There are samples enough for a frame.
pub open spec fn has_frame(pending: Seq<i16>) -> bool {
    pending.len() >= FRAME_SAMPLES
}

/// How many samples the next frame takes.
pub open spec fn frame_takes(pending: Seq<i16>) -> int {
    if pending.len() < FRAME_SAMPLES {
        pending.len() as int
    } else {
        FRAME_SAMPLES as int
    }
}

/// The next frame, filled up with silence where there are too few samples.
pub open spec fn filled_frame(pending: Seq<i16>) -> Seq<i16> {
    pending.take(frame_takes(pending)) + Seq::new(
        (FRAME_SAMPLES - frame_takes(pending)) as nat,
        |i: int| 0i16,
    )
}

/// The samples that are left once the next frame was taken.
pub open spec fn after_frame(pending: Seq<i16>) -> Seq<i16> {
    pending.skip(frame_takes(pending))
}

/// The state of a session.
pub struct SyncState {
    /// Samples that make no full frame yet.
    pub pending: Vec<i16>,
    pub frame_index: u64,
    pub timestamp_base_ms: u64,
    pub request_id: String,
    /// Whether the audio encoder is there.
    pub encoder_ready: bool,
    pub final_accumulator: String,
    pub last_final_segment: String,
}

impl Default for SyncState {
    fn default() -> (r: SyncState)
        ensures
            r.pending@ == Seq::<i16>::empty(),
            r.frame_index == 0,
            r.timestamp_base_ms == 0,
            r.request_id@ == Seq::<char>::empty(),
            !r.encoder_ready,
            r.final_accumulator@ == Seq::<char>::empty(),
            r.last_final_segment@ == Seq::<char>::empty(),
    {
        SyncState {
            pending: Vec::new(),
            frame_index: 0,
            timestamp_base_ms: 0,
            request_id: String::new(),
            encoder_ready: false,
            final_accumulator: String::new(),
            last_final_segment: String::new(),
        }
    }
}

impl SyncState {
    /// Starts a session: everything but the encoder begins anew.
    pub fn begin_handshake(&mut self, request_id: String, now_ms: u64)
        ensures
            final(self).request_id == request_id,
            final(self).frame_index == 0,
            final(self).timestamp_base_ms == now_ms,
            final(self).final_accumulator@ == Seq::<char>::empty(),
            final(self).last_final_segment@ == Seq::<char>::empty(),
            final(self).pending@ == Seq::<i16>::empty(),
            final(self).encoder_ready == old(self).encoder_ready,
    {
        self.request_id = request_id;
        self.frame_index = 0;
        self.timestamp_base_ms = now_ms;
        self.final_accumulator = String::new();
        self.last_final_segment = String::new();
        self.pending = Vec::new();
    }

    /// Sets the time at which the recording began.
    pub fn set_timestamp_base(&mut self, ms: u64)
        ensures
            *final(self) == (SyncState { timestamp_base_ms: ms, ..*old(self) }),
    {
        self.timestamp_base_ms = ms;
    }

    /// How long the session has been recording, at the time `now_ms`.
    pub fn session_duration_ms(&self, now_ms: u64) -> (r: u64)
        ensures
            r == recorded_ms(self.timestamp_base_ms, now_ms),
    {
        if self.timestamp_base_ms == 0 {
            return 0;
        }
        now_ms.saturating_sub(self.timestamp_base_ms)
    }

    /// Takes in recorded bytes, while connected.
    pub fn push_pcm(&mut self, connected: bool, pcm: &[u8])
        ensures
            final(self).pending@ == gathered(old(self).pending@, connected, pcm@),
            *final(self) == (SyncState { pending: final(self).pending, ..*old(self) }),
    {
        if !connected {
            return;
        }
        let n: usize = pcm.len() / 2;
        let mut k: usize = 0;
        assert(samples(pcm@).take(0) =~= seq![]);
        while k < n
            invariant
                k <= n == pcm@.len() / 2,
                pcm@.len() <= usize::MAX,
                *self == (SyncState { pending: self.pending, ..*old(self) }),
                self.pending@ == old(self).pending@ + samples(pcm@).take(k as int),
            decreases n - k,
        {
            let low: u8 = pcm[2 * k];
            let high: u8 = pcm[2 * k + 1];
            let u: i32 = low as i32 + 256 * (high as i32);
            let x: i16 = if u >= 0x8000 {
                (u - 0x1_0000) as i16
            } else {
                u as i16
            };
            assert(x == samples(pcm@)[k as int]);
            self.pending.push(x);
            assert(samples(pcm@).take(k + 1) =~= samples(pcm@).take(k as int).push(x));
            k += 1;
        }
        assert(samples(pcm@).take(n as int) =~= samples(pcm@));
    }

    /// Takes the next full frame, where there is one and the encoder is there.
    pub fn next_frame(&mut self) -> (r: Option<Vec<i16>>)
        ensures
            r is Some <==> old(self).encoder_ready && has_frame(old(self).pending@),
            r matches Some(frame) ==> {
                &&& frame@ == filled_frame(old(self).pending@)
                &&& final(self).pending@ == after_frame(old(self).pending@)
            },
            r is None ==> *final(self) == *old(self),
            *final(self) == (SyncState { pending: final(self).pending, ..*old(self) }),
    {
        if !self.encoder_ready || self.pending.len() < FRAME_SAMPLES {
            return None;
        }
        let mut frame: Vec<i16> = self.pending.split_off(FRAME_SAMPLES);
        std::mem::swap(&mut frame, &mut self.pending);
        assert(old(self).pending@ =~= frame@ + self.pending@);
        Some(frame)
    }

    /// Takes the last frame of the session, filled up with silence. There is none where nothing
    /// was recorded.
    pub fn last_frame(&mut self) -> (r: Result<Option<Vec<i16>>, DoubaoError>)
        ensures
            match r {
                Ok(None) => {
                    &&& old(self).pending@.len() == 0 && old(self).frame_index == 0
                    &&& *final(self) == *old(self)
                },
                Err(e) => {
                    &&& old(self).pending@.len() > 0 || old(self).frame_index > 0
                    &&& !old(self).encoder_ready
                    &&& e matches DoubaoError::Opus(m)
                    &&& m@ == "编码器未初始化"@
                    &&& *final(self) == *old(self)
                },
                Ok(Some(frame)) => {
                    &&& old(self).pending@.len() > 0 || old(self).frame_index > 0
                    &&& old(self).encoder_ready
                    &&& frame@ == filled_frame(old(self).pending@)
                    &&& final(self).pending@ == after_frame(old(self).pending@)
                    &&& *final(self) == (SyncState { pending: final(self).pending, ..*old(self) })
                },
            },
    {
        if self.pending.len() == 0 && self.frame_index == 0 {
            return Ok(None);
        }
        if !self.encoder_ready {
            return Err(DoubaoError::Opus(owned("编码器未初始化")));
        }
        let taken: usize = if self.pending.len() < FRAME_SAMPLES {
            self.pending.len()
        } else {
            FRAME_SAMPLES
        };
        let mut frame: Vec<i16> = self.pending.split_off(taken);
        std::mem::swap(&mut frame, &mut self.pending);
        while frame.len() < FRAME_SAMPLES
            invariant
                taken <= frame@.len() <= FRAME_SAMPLES,
                taken <= old(self).pending@.len(),
                frame@ == old(self).pending@.take(taken as int) + Seq::new(
                    (frame@.len() - taken) as nat,
                    |i: int| 0i16,
                ),
            decreases FRAME_SAMPLES - frame@.len(),
        {
            let ghost before = frame@;
            frame.push(0);
            assert(frame@ =~= old(self).pending@.take(taken as int) + Seq::new(
                (before.len() + 1 - taken) as nat,
                |i: int| 0i16,
            ));
        }
        Ok(Some(frame))
    }

    /// The frame state that goes with a frame: 9 for the last, 1 for the first, else 3.
    pub open spec fn frame_flag(self, is_last: bool) -> u64 {
        if is_last {
            9
        } else if self.frame_index == 0 {
            1
        } else {
            3
        }
    }

    /// The payload that goes with a frame: its time, 20 ms after the frame before it.
    pub open spec fn frame_payload(self) -> Seq<char> {
        "{\"extra\":{},\"timestamp_ms\":"@ + decimal(
            (self.timestamp_base_ms + self.frame_index * 20) as nat,
        ) + "}"@
    }

    /// The message that carries an encoded frame.
    pub fn frame_message(&mut self, payload: &[u8], is_last: bool) -> (m: Vec<u8>)
        requires
            old(self).frame_index < u64::MAX,
            old(self).timestamp_base_ms + old(self).frame_index * 20 <= u64::MAX,
        ensures
            m@ == request_bytes(
                ""@,
                "TaskRequest"@,
                old(self).frame_payload(),
                payload@,
                old(self).request_id@,
                old(self).frame_flag(is_last),
            ),
            *final(self) == (SyncState {
                frame_index: (old(self).frame_index + 1) as u64,
                ..*old(self)
            }),
    {
        let flag: u64 = if is_last {
            9
        } else if self.frame_index == 0 {
            1
        } else {
            3
        };
        let timestamp: u64 = self.timestamp_base_ms + self.frame_index * 20;
        let time = decimal_text(timestamp);
        let json = join3("{\"extra\":{},\"timestamp_ms\":", time.as_str(), "}");
        let m = encode_request(
            "",
            "TaskRequest",
            json.as_str(),
            payload,
            self.request_id.as_str(),
            flag,
        );
        self.frame_index = self.frame_index + 1;
        m
    }
}

/// A message that somebody may be waiting for.
#[derive(Clone, Copy, PartialEq, Eq, Structural, Debug)]
pub enum Waiter {
    TaskStarted,
    SessionStarted,
    TaskFailed,
    SessionFailed,
    SessionFinished,
}

/// What one who waits for a message is told.
pub struct Completion {
    pub waiter: Waiter,
    pub value: Result<String, String>,
}

impl View for Completion {
    type V = (Waiter, Result<Seq<char>, Seq<char>>);

    open spec fn view(&self) -> (Waiter, Result<Seq<char>, Seq<char>>) {
        (
            self.waiter,
            match self.value {
                Ok(s) => Ok(s@),
                Err(e) => Err(e@),
            },
        )
    }
}

/// The contents of completions.
pub open spec fn completions_view(
    v: Seq<Completion>,
) -> Seq<(Waiter, Result<Seq<char>, Seq<char>>)> {
    v.map_values(|c: Completion| c@)
}

/// What a message from the server leads to.
pub struct MessageOutcome {
    /// Text that is not final yet.
    pub partial: Option<String>,
    /// Who is told what, in order.
    pub completions: Vec<Completion>,
}

/// The text that a final segment makes of the text so far; a segment that comes twice in a row
/// counts once.
pub open spec fn accumulated(so_far: Seq<char>, last: Seq<char>, segment: Seq<char>) -> Seq<char> {
    if segment == last {
        so_far
    } else {
        merged(so_far, segment)
    }
}

/// The text that a failure is told with: the server's words, or the kind of message where it has
/// none, but a hint of its own where the limit on sessions is the reason.
pub open spec fn failure_text(r: ResponseFields) -> Seq<char> {
    if r.status_code == 40200011 {
        "豆包免费通道并发已达上限，请稍后再试 (status=40200011)"@
    } else if r.status_message.len() == 0 {
        r.message_type
    } else {
        r.status_message
    }
}

/// Who is told what by a response, given the final text so far.
pub open spec fn told(
    r: ResponseFields,
    final_text: Seq<char>,
) -> Seq<(Waiter, Result<Seq<char>, Seq<char>>)> {
    let failed = Err::<Seq<char>, Seq<char>>(failure_text(r));
    if r.message_type == "TaskStarted"@ {
        seq![(Waiter::TaskStarted, Ok(seq![]))]
    } else if r.message_type == "SessionStarted"@ {
        seq![(Waiter::SessionStarted, Ok(seq![]))]
    } else if r.message_type == "TaskFailed"@ {
        seq![
            (Waiter::TaskStarted, failed),
            (Waiter::SessionStarted, failed),
            (Waiter::TaskFailed, failed),
            (Waiter::SessionFinished, failed),
        ]
    } else if r.message_type == "SessionFailed"@ {
        seq![
            (Waiter::TaskStarted, failed),
            (Waiter::SessionStarted, failed),
            (Waiter::SessionFailed, failed),
            (Waiter::SessionFinished, failed),
        ]
    } else if r.message_type == "SessionFinished"@ {
        seq![(Waiter::SessionFinished, Ok(final_text))]
    } else {
        seq![]
    }
}

/// The text in a response, where it carries a result with any.
pub open spec fn response_candidate(r: ResponseFields) -> Option<(Seq<char>, bool)> {
    if r.result_json.len() == 0 {
        None
    } else {
        candidate_in_text(r.result_json)
    }
}

fn ok_completion(waiter: Waiter, text: String) -> (c: Completion)
    ensures
        c@ == (waiter, Ok::<Seq<char>, Seq<char>>(text@)),
{
    Completion { waiter, value: Ok(text) }
}

fn err_completion(waiter: Waiter, text: &str) -> (c: Completion)
    ensures
        c@ == (waiter, Err::<Seq<char>, Seq<char>>(text@)),
{
    Completion { waiter, value: Err(owned(text)) }
}

/// Takes in the text of a result: a final segment joins the final text, other text is shown.
pub fn take_result(state: &mut SyncState, text: String, is_final: bool) -> (partial: Option<String>)
    ensures
        is_final ==> {
            &&& partial is None
            &&& final(state).final_accumulator@ == accumulated(
                old(state).final_accumulator@,
                old(state).last_final_segment@,
                text@,
            )
            &&& final(state).last_final_segment@ == text@
        },
        !is_final ==> partial == Some(text) && *final(state) == *old(state),
        *final(state) == (SyncState {
            final_accumulator: final(state).final_accumulator,
            last_final_segment: final(state).last_final_segment,
            ..*old(state)
        }),
{
    if !is_final {
        return Some(text);
    }
    if !same(text.as_str(), state.last_final_segment.as_str()) {
        state.final_accumulator = merge_recognized_text(
            state.final_accumulator.as_str(),
            text.as_str(),
        );
        state.last_final_segment = text;
    }
    None
}

/// Tells those who wait for messages what a response means for them.
pub fn tell_waiters(response: &AsrResponse, final_text: &str) -> (v: Vec<Completion>)
    ensures
        completions_view(v@) == told(response@, final_text@),
{
    let message_type = response.message_type.as_str();
    let status_message = response.status_message.as_str();
    let mut v: Vec<Completion> = Vec::new();
    if same(message_type, "TaskStarted") {
        v.push(ok_completion(Waiter::TaskStarted, String::new()));
    } else if same(message_type, "SessionStarted") {
        v.push(ok_completion(Waiter::SessionStarted, String::new()));
    } else if same(message_type, "TaskFailed") || same(message_type, "SessionFailed") {
        let text = if response.status_code == 40200011 {
            owned("豆包免费通道并发已达上限，请稍后再试 (status=40200011)")
        } else if status_message.is_empty() {
            owned(message_type)
        } else {
            owned(status_message)
        };
        v.push(err_completion(Waiter::TaskStarted, text.as_str()));
        v.push(err_completion(Waiter::SessionStarted, text.as_str()));
        if same(message_type, "TaskFailed") {
            v.push(err_completion(Waiter::TaskFailed, text.as_str()));
        } else {
            v.push(err_completion(Waiter::SessionFailed, text.as_str()));
        }
        v.push(err_completion(Waiter::SessionFinished, text.as_str()));
    } else if same(message_type, "SessionFinished") {
        v.push(ok_completion(Waiter::SessionFinished, owned(final_text)));
    }
    assert(completions_view(v@) =~= told(response@, final_text@));
    v
}

/// The final text after a response.
pub open spec fn final_text_after(
    so_far: Seq<char>,
    last: Seq<char>,
    r: ResponseFields,
) -> Seq<char> {
    match response_candidate(r) {
        Some((text, true)) => accumulated(so_far, last, text),
        _ => so_far,
    }
}

/// Takes in a decoded response. Its text is taken in first, so that the end of the session is told
/// with the text that came along with it.
pub fn handle_response(state: &mut SyncState, response: &AsrResponse) -> (r: MessageOutcome)
    ensures
        final(state).final_accumulator@ == final_text_after(
            old(state).final_accumulator@,
            old(state).last_final_segment@,
            response@,
        ),
        final(state).last_final_segment@ == match response_candidate(response@) {
            Some((text, true)) => text,
            _ => old(state).last_final_segment@,
        },
        match response_candidate(response@) {
            Some((text, false)) => r.partial is Some && r.partial->0@ == text,
            _ => r.partial is None,
        },
        completions_view(r.completions@) == told(response@, final(state).final_accumulator@),
        *final(state) == (SyncState {
            final_accumulator: final(state).final_accumulator,
            last_final_segment: final(state).last_final_segment,
            ..*old(state)
        }),
{
    let mut partial: Option<String> = None;
    if !response.result_json.as_str().is_empty() {
        match extract_text_candidate(response.result_json.as_str()) {
            Some((text, is_final)) => {
                partial = take_result(state, text, is_final);
            },
            None => {},
        }
    }
    let completions = tell_waiters(response, state.final_accumulator.as_str());
    MessageOutcome { partial, completions }
}

/// Takes in a binary message from the server. Bytes that are no response are ignored.
pub fn handle_binary(state: &mut SyncState, data: &[u8]) -> (r: MessageOutcome)
    ensures
        match read_fields(data@, ResponseFields::empty()) {
            None => {
                &&& *final(state) == *old(state)
                &&& r.partial is None
                &&& r.completions@.len() == 0
            },
            Some(response) => {
                &&& final(state).final_accumulator@ == final_text_after(
                    old(state).final_accumulator@,
                    old(state).last_final_segment@,
                    response,
                )
                &&& final(state).last_final_segment@ == match response_candidate(response) {
                    Some((text, true)) => text,
                    _ => old(state).last_final_segment@,
                }
                &&& match response_candidate(response) {
                    Some((text, false)) => r.partial is Some && r.partial->0@ == text,
                    _ => r.partial is None,
                }
                &&& completions_view(r.completions@) == told(
                    response,
                    final(state).final_accumulator@,
                )
                &&& *final(state) == (SyncState {
                    final_accumulator: final(state).final_accumulator,
                    last_final_segment: final(state).last_final_segment,
                    ..*old(state)
                })
            },
        },
{
    match decode_response(data) {
        None => MessageOutcome { partial: None, completions: Vec::new() },
        Some(response) => handle_response(state, &response),
    }
}

/// Who is told of a lost connection, and how.
pub open spec fn told_of_loss() -> Seq<(Waiter, Result<Seq<char>, Seq<char>>)> {
    seq![
        (Waiter::TaskStarted, Err::<Seq<char>, Seq<char>>("连接中断"@)),
        (Waiter::SessionStarted, Err::<Seq<char>, Seq<char>>("连接中断"@)),
        (Waiter::SessionFinished, Err::<Seq<char>, Seq<char>>("连接中断"@)),
    ]
}

/// Whom a lost connection is told to, so that nobody waits in vain.
pub fn disconnect_completions() -> (v: Vec<Completion>)
    ensures
        completions_view(v@) == told_of_loss(),
{
    let mut v: Vec<Completion> = Vec::new();
    v.push(err_completion(Waiter::TaskStarted, "连接中断"));
    v.push(err_completion(Waiter::SessionStarted, "连接中断"));
    v.push(err_completion(Waiter::SessionFinished, "连接中断"));
    assert(completions_view(v@) =~= seq![
        (Waiter::TaskStarted, Err::<Seq<char>, Seq<char>>("连接中断"@)),
        (Waiter::SessionStarted, Err::<Seq<char>, Seq<char>>("连接中断"@)),
        (Waiter::SessionFinished, Err::<Seq<char>, Seq<char>>("连接中断"@)),
    ]);
    v
}

/// A final segment that the server repeats changes the final text no further.
pub proof fn law_repeated_segment_counts_once(
    so_far: Seq<char>,
    last: Seq<char>,
    segment: Seq<char>,
)
    ensures
        accumulated(accumulated(so_far, last, segment), segment, segment) == accumulated(
            so_far,
            last,
            segment,
        ),
{
}

/// A failure of the task or the session reaches everyone who may be waiting for it, with the same
/// words.
pub proof fn law_failure_reaches_every_waiter(r: ResponseFields, final_text: Seq<char>)
    requires
        r.message_type == "TaskFailed"@ || r.message_type == "SessionFailed"@,
    ensures
        forall|w: Waiter|
            (w == Waiter::TaskStarted || w == Waiter::SessionStarted || w
                == Waiter::SessionFinished) ==> #[trigger] told(r, final_text).contains(
                (w, Err(failure_text(r))),
            ),
{
    reveal_strlit("TaskFailed");
    reveal_strlit("SessionFailed");
    reveal_strlit("TaskStarted");
    reveal_strlit("SessionStarted");
    assert("TaskFailed"@.len() != "TaskStarted"@.len());
    assert("SessionFailed"@.len() != "SessionStarted"@.len());
    assert("TaskFailed"@[0] != "SessionStarted"@[0]);
    assert("SessionFailed"@[0] != "TaskStarted"@[0]);
    let t = told(r, final_text);
    let failed = Err::<Seq<char>, Seq<char>>(failure_text(r));
    assert(t[0] == (Waiter::TaskStarted, failed));
    assert(t[1] == (Waiter::SessionStarted, failed));
    assert(t[3] == (Waiter::SessionFinished, failed));
}

/// The final text and the last final segment after final segments have come, one after the other,
/// in a session that begins with none.
pub open spec fn after_segments(segments: Seq<Seq<char>>) -> (Seq<char>, Seq<char>)
    decreases segments.len(),
{
    if segments.len() == 0 {
        (seq![], seq![])
    } else {
        let (text, last) = after_segments(segments.drop_last());
        (accumulated(text, last, segments.last()), segments.last())
    }
}

/// Nothing that was final is lost: a new final segment leaves the text so far at the beginning of
/// the final text, and stands in it itself.
pub proof fn law_final_segment_joins_the_text(
    so_far: Seq<char>,
    last: Seq<char>,
    segment: Seq<char>,
)
    requires
        trimmed(so_far) == so_far,
        has_substring(so_far, trimmed(last)),
    ensures
        so_far.is_prefix_of(accumulated(so_far, last, segment)),
        has_substring(accumulated(so_far, last, segment), trimmed(segment)),
        trimmed(accumulated(so_far, last, segment)) == accumulated(so_far, last, segment),
        segment == last ==> accumulated(so_far, last, segment) == so_far,
{
    if segment == last {
        assert(so_far.is_prefix_of(so_far)) by {
            assert(so_far.take(so_far.len() as int) =~= so_far);
        }
    } else {
        law_merge_keeps_both(so_far, segment);
        law_merged_text_is_trimmed(so_far, segment);
    }
}

/// However many final segments come, each of them stands in the final text, and the text after
/// fewer of them is its beginning.
pub proof fn law_every_final_segment_is_kept(segments: Seq<Seq<char>>, n: int)
    requires
        0 <= n <= segments.len(),
    ensures
        ({
            let text = after_segments(segments).0;
            &&& trimmed(text) == text
            &&& after_segments(segments.take(n)).0.is_prefix_of(text)
            &&& n < segments.len() ==> has_substring(text, trimmed(segments[n]))
        }),
    decreases segments.len(),
{
    if segments.len() == 0 {
        assert(segments.take(n) =~= segments);
        lemma_trimming_is_settled(seq![]);
    } else {
        let before = segments.drop_last();
        let (so_far, last) = after_segments(before);
        let text = after_segments(segments).0;
        if before.len() > 0 {
            law_every_final_segment_is_kept(before, before.len() - 1);
            assert(last == before[before.len() - 1]);
        } else {
            lemma_trimming_is_settled(seq![]);
            assert(occurs_at(so_far, trimmed(last), 0)) by {
                assert(so_far.subrange(0, 0) =~= trimmed(last));
            }
        }
        law_final_segment_joins_the_text(so_far, last, segments.last());
        if n == segments.len() {
            assert(segments.take(n) =~= segments);
            assert(text.take(text.len() as int) =~= text);
        } else {
            law_every_final_segment_is_kept(before, n);
            assert(segments.take(n) =~= before.take(n));
            let earlier = after_segments(segments.take(n)).0;
            assert(so_far =~= text.subrange(0, so_far.len() as int));
            assert(earlier =~= so_far.subrange(0, earlier.len() as int));
            assert(earlier =~= text.subrange(0, earlier.len() as int));
            if n < before.len() {
                let p = trimmed(segments[n]);
                assert(before[n] == segments[n]);
                let i = choose|i: int| occurs_at(so_far, p, i);
                assert(occurs_at(so_far, p, i));
                assert(text.subrange(i, i + p.len()) =~= so_far.subrange(i, i + p.len()));
                assert(occurs_at(text, p, i));
            } else {
                assert(segments[n] == segments.last());
            }
        }
    }
}

/// Credentials are used only where they are complete, and got hold of in this order: those in
/// memory, those in the cache file, and only then a new registration, whose ids go with its token.
/// Whatever fails changes nothing.
pub proof fn law_credentials_are_got_hold_of(
    credentials: DoubaoImeCredentials,
    event: CredentialEvent,
)
    ensures
        ({
            let action = credential_action(credentials, event);
            let after = credentials_after(credentials, event);
            &&& action is Ready ==> after.complete()
            &&& action is ReadCache <==> event is Start && !credentials.complete()
            &&& action is Register <==> (event matches CredentialEvent::CacheRead(c) && !(c is Some
                && c->0.complete()))
            &&& action is Fail ==> after == credentials
            &&& event matches CredentialEvent::Registered(Ok(ids)) ==> action == (
            CredentialAction::FetchToken { device_id: ids.0, cdid: ids.1 })
            &&& event matches CredentialEvent::Registered(Err(e)) ==> action
                == CredentialAction::Fail(e)
        }),
        event matches CredentialEvent::TokenFetched { device_id, cdid, token } ==> {
            &&& token is Ok <==> credential_action(credentials, event) is SaveCache
            &&& token matches Ok(t) ==> credentials_after(credentials, event) == (
            DoubaoImeCredentials { device_id, cdid, token: t })
            &&& token matches Err(e) ==> credential_action(credentials, event)
                == CredentialAction::Fail(e)
        },
        credentials.complete() <==> credentials.device_id@.len() > 0 && credentials.cdid@.len() > 0
            && credentials.token@.len() > 0,
{
}

/// Only one caller connects at a time, and none where a connection is there; the others wait, and
/// give up only past their deadline.
pub proof fn law_one_caller_connects(
    connected: bool,
    connecting: bool,
    past_deadline: bool,
    step: ConnectStep,
    connecting_after: bool,
)
    requires
        connects(connected, connecting, past_deadline, step, connecting_after),
    ensures
        connected <==> step is Ready,
        step is Connect <==> !connected && !connecting,
        step is Wait <==> !connected && connecting && !past_deadline,
        step is Fail <==> !connected && connecting && past_deadline,
        connecting_after <==> connecting || step is Connect,
        step matches ConnectStep::Fail(e) ==> e.text() == "WebSocket 连接失败: "@
            + "连接建立超时(3s)"@,
{
}

/// Where opening a session stands in its course.
pub open spec fn course(stage: OpenStage) -> int {
    match stage {
        OpenStage::Credentials => 0,
        OpenStage::Connecting => 1,
        OpenStage::Handshaking => 2,
        OpenStage::Reconnecting => 3,
        OpenStage::HandshakingAgain => 4,
        OpenStage::Finished => 5,
    }
}

/// Opening a session goes on with every step, so it ends. There is a handshake after each
/// connection, a connection is made anew only once, and only after a handshake that failed for
/// another reason than the limit on sessions.
pub proof fn law_opening_a_session_ends(
    stage: OpenStage,
    connected: bool,
    outcome: Result<(), DoubaoError>,
)
    requires
        stage != OpenStage::Finished,
    ensures
        ({
            let (next, action) = opened(stage, connected, outcome);
            &&& course(next) > course(stage)
            &&& action is Connect <==> outcome is Ok && stage == OpenStage::Credentials
                && !connected
            &&& action is Handshake <==> outcome is Ok && ((stage == OpenStage::Credentials
                && connected) || stage == OpenStage::Connecting || stage
                == OpenStage::Reconnecting)
            &&& action is PrepareEncoder <==> outcome is Ok && (stage == OpenStage::Handshaking
                || stage == OpenStage::HandshakingAgain)
            &&& action is Reconnect <==> (outcome matches Err(e) && stage == OpenStage::Handshaking
                && !quota_text(e.text()))
            &&& outcome matches Err(e) ==> (action is Reconnect || action == OpenAction::Fail(e))
            &&& action is Connect ==> next == OpenStage::Connecting
            &&& action is Reconnect ==> next == OpenStage::Reconnecting
            &&& action is PrepareEncoder || action is Fail ==> next == OpenStage::Finished
        }),
{
}

/// The limit on sessions is told by its number or by its name, wherever in the text it stands.
pub proof fn law_limit_is_recognised(before: Seq<char>, after: Seq<char>)
    ensures
        quota_text(before + "40200011"@ + after),
        quota_text(before + "concurrency quota"@ + after),
        !has_substring(before, "40200011"@) && !has_substring(before, "concurrency quota"@)
            ==> !quota_text(before),
{
    law_substring_has_surroundings(before + "40200011"@ + after, "40200011"@);
    law_substring_has_surroundings(before + "concurrency quota"@ + after, "concurrency quota"@);
}

/// The server knows the device by these queries, bodies and payloads: each identifier stands in its
/// place.
pub proof fn law_device_is_named_in_requests(
    now_ms: u64,
    cdid: Seq<char>,
    device_id: Seq<char>,
    clientudid: Seq<char>,
    openudid: Seq<char>,
)
    ensures
        register_query_text(now_ms, cdid) == "/service/2/device_register/?device_platform=android&os=android&ssmix=a&_rticket="@ + decimal(
                now_ms as nat,
            ) + "&cdid="@ + cdid
                + "&channel=official&aid=401734&app_name=oime&version_code=100102018&version_name=1.1.2&manifest_version_code=100102018&update_version_code=100102018&resolution=1080*2400&dpi=420&device_type=Pixel%207%20Pro&device_brand=google&language=zh&os_api=34&os_version=16&ac=wifi"@,
        token_query_text(device_id, cdid) == "/service/settings/v3/?device_platform=android&os=android&ssmix=a&channel=official&aid=401734&app_name=oime&version_code=100102018&version_name=1.1.2&device_id="@
                + device_id + "&cdid="@ + cdid,
        register_body_text(now_ms, cdid, clientudid, openudid) == "{\"_gen_time\":"@ + decimal(now_ms as nat)
                + ",\"header\":{\"access\":\"wifi\",\"aid\":401734,\"app_name\":\"oime\",\"build_serial\":\"unknown\",\"carrier_region\":\"cn\",\"cdid\":"@
                + quoted(cdid)
                + ",\"channel\":\"official\",\"clientudid\":"@
                + quoted(clientudid)
                + ",\"cpu_abi\":\"arm64-v8a\",\"device_brand\":\"google\",\"device_id\":0,\"device_model\":\"Pixel 7 Pro\",\"device_platform\":\"android\",\"device_type\":\"Pixel 7 Pro\",\"dpi\":\"420\",\"google_aid\":\"\",\"install_id\":0,\"language\":\"zh\",\"manifest_version_code\":100102018,\"mc\":\"\",\"not_request_sender\":0,\"openudid\":"@
                + quoted(openudid)
                + ",\"os\":\"android\",\"os_api\":\"34\",\"os_version\":\"16\",\"package\":\"com.bytedance.android.doubaoime\",\"region\":\"CN\",\"resolution\":\"1080*2400\",\"rom\":\"UP1A.231005.007\",\"rom_version\":\"UP1A.231005.007\",\"serial_number\":\"\",\"sig_hash\":\"\",\"sim_region\":\"cn\",\"timezone\":8,\"tz_name\":\"Asia/Shanghai\",\"tz_offset\":28800,\"update_version_code\":100102018,\"version_code\":100102018,\"version_name\":\"1.1.2\"},\"magic_tag\":\"ss_app_log\"}"@,
        AID == 401734,
        VERSION_CODE == 100102018,
        session_payload(device_id) == "{\"audio_info\":{\"channel\":1,\"format\":\"speech_opus\",\"sample_rate\":16000},\"enable_punctuation\":true,\"enable_speech_rejection\":false,\"extra\":{\"app_name\":\"com.android.chrome\",\"cell_compress_rate\":8,\"did\":\""@
                + device_id
                + "\",\"enable_asr_threepass\":true,\"enable_asr_twopass\":true,\"input_mode\":\"tool\"}}"@,
{
}

/// A registration has brought a device id only where it is an integer other than zero.
pub proof fn law_device_id_is_a_number(reply: JsonValue, id: i64)
    ensures
        device_id_of(reply) == Some(id) <==> id != 0 && reply.member("device_id"@) == Some(
            JsonValue::Int(id),
        ),
{
}

/// A token is the first `app_key` of the reply, unless that is empty.
pub proof fn law_token_is_not_empty(reply: JsonValue)
    ensures
        token_of(reply) matches Some(t) ==> t.len() > 0 && find_string(reply, "app_key"@) == Some(t),
        find_string(reply, "app_key"@) is Some && find_string(reply, "app_key"@)->0.len() > 0
            ==> token_of(reply) is Some,
{
}

/// Bytes are written as two digits each, the higher one first, in their order.
pub proof fn law_bytes_are_written_in_pairs(first: Seq<u8>, b: u8)
    ensures
        upper_hex(first.push(b)).len() == upper_hex(first).len() + 2,
        upper_hex(first.push(b)).take(upper_hex(first).len() as int) == upper_hex(first),
        upper_hex(first.push(b))[upper_hex(first).len() as int] == upper_hex_digit(b as int / 16),
        upper_hex(first.push(b)).last() == upper_hex_digit(b as int % 16),
        upper_hex(Seq::empty()).len() == 0,
{
    assert(first.push(b).drop_last() =~= first);
    assert(upper_hex(first.push(b)).take(upper_hex(first).len() as int) =~= upper_hex(first));
}

/// A session has been recording for as long as the clock has gone on since it began; a clock that
/// was set back does not count.
pub proof fn law_recording_time_goes_on(base_ms: u64, passed: u64)
    requires
        0 < base_ms,
        base_ms + passed <= u64::MAX,
    ensures
        recorded_ms(base_ms, (base_ms + passed) as u64) == passed,
        recorded_ms(0, passed) == 0,
        passed < base_ms ==> recorded_ms(base_ms, passed) == 0,
{
}

/// A sample is a signed number of 16 bits, its lower byte first; each two bytes make one, in their
/// order.
pub proof fn law_samples_are_signed(pcm: Seq<u8>, k: int)
    requires
        0 <= k < pcm.len() / 2,
    ensures
        samples(pcm).len() == pcm.len() / 2,
        pcm[2 * k + 1] < 128 ==> samples(pcm)[k] == pcm[2 * k] + 256 * pcm[2 * k + 1],
        pcm[2 * k + 1] >= 128 ==> samples(pcm)[k] == pcm[2 * k] + 256 * pcm[2 * k + 1] - 65536,
{
}

/// While connected, what is recorded joins the samples that wait, after them; else it is dropped.
pub proof fn law_recorded_samples_wait(pending: Seq<i16>, pcm: Seq<u8>)
    ensures
        gathered(pending, true, pcm).len() == pending.len() + pcm.len() / 2,
        pending.is_prefix_of(gathered(pending, true, pcm)),
        gathered(pending, true, pcm).skip(pending.len() as int) == samples(pcm),
        gathered(pending, false, pcm) == pending,
{
    assert(gathered(pending, true, pcm).subrange(0, pending.len() as int) =~= pending);
    assert(gathered(pending, true, pcm).skip(pending.len() as int) =~= samples(pcm));
}

/// A frame is 20 milliseconds of samples at 16000 a second. It takes the samples that waited
/// longest, and only where these are too few is it filled up with silence; none is lost or sent
/// twice.
pub proof fn law_frames_take_all_samples(pending: Seq<i16>)
    ensures
        filled_frame(pending).len() == 16000 * 20 / 1000,
        has_frame(pending) <==> pending.len() >= 16000 * 20 / 1000,
        has_frame(pending) ==> filled_frame(pending) + after_frame(pending) == pending,
        !has_frame(pending) ==> {
            &&& after_frame(pending).len() == 0
            &&& pending.is_prefix_of(filled_frame(pending))
            &&& forall|i: int|
                pending.len() <= i < 320 ==> #[trigger] filled_frame(pending)[i] == 0
        },
{
    if has_frame(pending) {
        assert(filled_frame(pending) + after_frame(pending) =~= pending);
    } else {
        assert(filled_frame(pending).subrange(0, pending.len() as int) =~= pending);
    }
}

/// The last frame is marked as such, whatever came before; the first is marked too, and each
/// between them as one that goes on. Each frame is 20 milliseconds after the one before.
pub proof fn law_frames_are_marked(s: SyncState, is_last: bool)
    ensures
        s.frame_flag(true) == 9,
        s.frame_index == 0 ==> s.frame_flag(false) == 1,
        s.frame_index > 0 ==> s.frame_flag(false) == 3,
        s.frame_payload() == "{\"extra\":{},\"timestamp_ms\":"@ + decimal(
            (s.timestamp_base_ms + 20 * s.frame_index) as nat,
        ) + "}"@,
{
}

/// A start and the end of a session are told just to those who wait for them, the end with the
/// final text. Other messages are told to nobody.
pub proof fn law_messages_reach_their_waiters(r: ResponseFields, final_text: Seq<char>)
    ensures
        r.message_type == "TaskStarted"@ ==> told(r, final_text).len() == 1 && told(
            r,
            final_text,
        )[0].0 == Waiter::TaskStarted && told(r, final_text)[0].1 is Ok,
        r.message_type == "SessionStarted"@ ==> told(r, final_text).len() == 1 && told(
            r,
            final_text,
        )[0].0 == Waiter::SessionStarted && told(r, final_text)[0].1 is Ok,
        r.message_type == "SessionFinished"@ ==> told(r, final_text) == seq![
            (Waiter::SessionFinished, Ok::<Seq<char>, Seq<char>>(final_text)),
        ],
        r.message_type != "TaskStarted"@ && r.message_type != "SessionStarted"@ && r.message_type
            != "SessionFinished"@ && r.message_type != "TaskFailed"@ && r.message_type
            != "SessionFailed"@ ==> told(r, final_text).len() == 0,
{
    reveal_strlit("TaskStarted");
    reveal_strlit("SessionStarted");
    reveal_strlit("TaskFailed");
    reveal_strlit("SessionFailed");
    reveal_strlit("SessionFinished");
    assert("TaskStarted"@.len() == 11);
    assert("SessionStarted"@.len() == 14);
    assert("TaskFailed"@.len() == 10);
    assert("SessionFailed"@.len() == 13);
    assert("SessionFinished"@.len() == 15);
}

/// A failure is told in the server's own words, or by the kind of its message where it has none;
/// the limit on sessions is told by a hint.
pub proof fn law_failure_is_told_in_words(r: ResponseFields)
    ensures
        r.status_code == 40200011 ==> failure_text(r)
            == "豆包免费通道并发已达上限，请稍后再试 (status=40200011)"@,
        r.status_code != 40200011 && r.status_message.len() > 0 ==> failure_text(r)
            == r.status_message,
        r.status_code != 40200011 && r.status_message.len() == 0 ==> failure_text(r)
            == r.message_type,
{
}

/// Only text that is final joins the final text; other text, and a response without any, leaves it
/// as it is.
pub proof fn law_only_final_text_joins(so_far: Seq<char>, last: Seq<char>, r: ResponseFields)
    ensures
        r.result_json.len() == 0 ==> final_text_after(so_far, last, r) == so_far,
        response_candidate(r) is None ==> final_text_after(so_far, last, r) == so_far,
        response_candidate(r) matches Some((text, is_final)) ==> final_text_after(so_far, last, r)
            == if is_final {
            accumulated(so_far, last, text)
        } else {
            so_far
        },
{
}

/// Each error says what failed before it says why.
pub proof fn law_error_says_what_failed(m: String)
    ensures
        DoubaoError::Register(m).text() == "设备注册失败: "@ + m@,
        DoubaoError::Token(m).text() == "获取 token 失败: "@ + m@,
        DoubaoError::Connect(m).text() == "WebSocket 连接失败: "@ + m@,
        DoubaoError::Session(m).text() == "会话失败: "@ + m@,
        DoubaoError::Opus(m).text() == "Opus 编码失败: "@ + m@,
        DoubaoError::Transport(m).text() == "传输中断: "@ + m@,
        DoubaoError::Timeout(m).text() == "等待 "@ + m@ + " 超时"@,
{
}

/// Everyone who waits for a start or for the end of a session learns that the connection is lost.
pub proof fn law_lost_connection_reaches_every_waiter(w: Waiter)
    ensures
        (exists|i: int| 0 <= i < told_of_loss().len() && (#[trigger] told_of_loss()[i]).0 == w)
            <==> w == Waiter::TaskStarted || w == Waiter::SessionStarted || w
            == Waiter::SessionFinished,
        forall|i: int|
            0 <= i < told_of_loss().len() ==> (#[trigger] told_of_loss()[i]).1 == Err::<
                Seq<char>,
                Seq<char>,
            >("连接中断"@),
{
    assert(told_of_loss()[0].0 == Waiter::TaskStarted);
    assert(told_of_loss()[1].0 == Waiter::SessionStarted);
    assert(told_of_loss()[2].0 == Waiter::SessionFinished);
}

/// Who waits for a message gets the server's text, or learns whether the server refused, the
/// connection went or the time ran out, and what was waited for.
pub proof fn law_waiting_comes_to_an_end(key: Seq<char>, text: String)
    ensures
        waited(key, WaitResult::Reply(Ok(text))) == Ok::<Seq<char>, Seq<char>>(text@),
        waited(key, WaitResult::Reply(Err(text))) == Err::<Seq<char>, Seq<char>>(
            "会话失败: "@ + text@,
        ),
        waited(key, WaitResult::Closed) == Err::<Seq<char>, Seq<char>>(
            "传输中断: "@ + "等待通道中断"@,
        ),
        waited(key, WaitResult::TimedOut) == Err::<Seq<char>, Seq<char>>(
            "等待 "@ + key + " 超时"@,
        ),
{
}

} // verus!
