//! The Grok speech-to-text channel: audio is gathered while recording and sent in one request.
use vstd::prelude::*;
use vstd::string::*;

use crate::json::Json;
use crate::asr::doubao::recorded_ms;
use crate::text::{
    blank, decimal, decimal_text, first_chars, first_n_chars, is_blank, join2, join3, join_all,
    joined, law_first_characters_are_a_beginning, law_trailing_characters_go,
    lemma_blank_is_trimmed_away, lemma_trimming_is_settled, owned, same, texts, trim,
    trim_trailing, trimmed, without_trailing,
};
use crate::wav::{wav_from_pcm, wav_header};

verus! {

/// The id under which preferences name this provider.
pub const PROVIDER_ID: &'static str = "grok_stt";

/// Whether the provider id names this provider.
pub fn is_grok_stt(id: &str) -> (r: bool)
    ensures
        r == (id@ == "grok_stt"@),
{
    same(id, PROVIDER_ID)
}

/// What can go wrong with the channel.
#[derive(Debug)]
pub enum GrokSttError {
    MissingCredentials(String),
    Request(String),
    Upstream(u16, String),
    EmptyResponse,
    Timeout,
    Channel(String),
}

impl GrokSttError {
    /// The text shown for the error.
    pub open spec fn text(self) -> Seq<char> {
        match self {
            GrokSttError::MissingCredentials(m) => "未配置"@ + m@ + "，请在设置中填写"@,
            GrokSttError::Request(m) => "请求失败: "@ + m@,
            GrokSttError::Upstream(status, m) => "上游错误 "@ + decimal(status as nat) + ": "@ + m@,
            GrokSttError::EmptyResponse => "上游返回为空"@,
            GrokSttError::Timeout => "等待结果超时"@,
            GrokSttError::Channel(m) => "通道中断: "@ + m@,
        }
    }

    /// The text shown for the error.
    pub fn message(&self) -> (r: String)
        ensures
            r@ == self.text(),
    {
        match self {
            GrokSttError::MissingCredentials(m) => join3(
                "未配置",
                m.as_str(),
                "，请在设置中填写",
            ),
            GrokSttError::Request(m) => join2("请求失败: ", m.as_str()),
            GrokSttError::Upstream(status, m) => {
                let mut r = join3("上游错误 ", decimal_text(*status as u64).as_str(), ": ");
                r.append(m.as_str());
                r
            },
            GrokSttError::EmptyResponse => owned("上游返回为空"),
            GrokSttError::Timeout => owned("等待结果超时"),
            GrokSttError::Channel(m) => join2("通道中断: ", m.as_str()),
        }
    }
}

/// Where the channel is and the key to it.
#[derive(Debug)]
pub struct GrokSttCredentials {
    pub endpoint: String,
    pub api_key: String,
}

impl Default for GrokSttCredentials {
    fn default() -> (r: GrokSttCredentials)
        ensures
            r.endpoint@ == Seq::<char>::empty(),
            r.api_key@ == Seq::<char>::empty(),
    {
        GrokSttCredentials { endpoint: String::new(), api_key: String::new() }
    }
}

impl GrokSttCredentials {
    /// Whether both parts are filled in.
    pub fn configured(&self) -> (r: bool)
        ensures
            r == (!blank(self.endpoint@) && !blank(self.api_key@)),
    {
        !is_blank(self.endpoint.as_str()) && !is_blank(self.api_key.as_str())
    }
}

/// The endpoint and the key of credentials.
pub open spec fn parts(c: GrokSttCredentials) -> (Seq<char>, Seq<char>) {
    (c.endpoint@, c.api_key@)
}

/// The endpoint and the key as they are stored: without surrounding white space.
pub open spec fn stored_parts(endpoint: Seq<char>, api_key: Seq<char>) -> (Seq<char>, Seq<char>) {
    (trimmed(endpoint), trimmed(api_key))
}

/// The endpoint and the key, given what their file holds; both empty where it holds none.
pub open spec fn loaded_parts(file: Option<(Seq<char>, Seq<char>)>) -> (Seq<char>, Seq<char>) {
    match file {
        Some(held) => held,
        None => (Seq::empty(), Seq::empty()),
    }
}

/// The credentials as they are stored: without surrounding white space.
pub fn stored_credentials(endpoint: &str, api_key: &str) -> (r: GrokSttCredentials)
    ensures
        parts(r) == stored_parts(endpoint@, api_key@),
{
    GrokSttCredentials { endpoint: trim(endpoint), api_key: trim(api_key) }
}

/// The credentials, given what their file holds: empty ones where there is no file or it is
/// damaged.
pub fn loaded_credentials(file: Option<GrokSttCredentials>) -> (r: GrokSttCredentials)
    ensures
        parts(r) == loaded_parts(
            match file {
                Some(c) => Some(parts(c)),
                None => None,
            },
        ),
{
    match file {
        Some(c) => c,
        None => {
            let none = GrokSttCredentials { endpoint: String::new(), api_key: String::new() };
            assert(none.endpoint@ =~= Seq::empty());
            assert(none.api_key@ =~= Seq::empty());
            none
        },
    }
}

/// Credentials that were stored are read back without surrounding white space, and so they are
/// used: a part that was filled in is still filled in, and trimming it again changes nothing.
pub proof fn law_stored_credentials_are_read_back(endpoint: Seq<char>, api_key: Seq<char>)
    ensures
        ({
            let read = loaded_parts(Some(stored_parts(endpoint, api_key)));
            &&& read == (trimmed(endpoint), trimmed(api_key))
            &&& (trimmed(read.0), trimmed(read.1)) == read
            &&& blank(read.0) <==> blank(endpoint)
            &&& blank(read.1) <==> blank(api_key)
        }),
{
    lemma_trimming_is_settled(endpoint);
    lemma_trimming_is_settled(api_key);
    lemma_blank_is_trimmed_away(endpoint);
    lemma_blank_is_trimmed_away(api_key);
    lemma_blank_is_trimmed_away(trimmed(endpoint));
    lemma_blank_is_trimmed_away(trimmed(api_key));
}

/// What is missing of the credentials, the endpoint first.
pub open spec fn missing_part(endpoint: Seq<char>, api_key: Seq<char>) -> Option<Seq<char>> {
    if blank(endpoint) {
        Some("端点(baseURL)"@)
    } else if blank(api_key) {
        Some("API Key"@)
    } else {
        None
    }
}

/// The endpoint and key to use, without surrounding white space; an error where one is missing.
pub fn credentials(creds: &GrokSttCredentials) -> (r: Result<(String, String), GrokSttError>)
    ensures
        match r {
            Err(e) => {
                &&& e matches GrokSttError::MissingCredentials(m)
                &&& missing_part(creds.endpoint@, creds.api_key@) == Some(m@)
            },
            Ok((endpoint, api_key)) => {
                &&& missing_part(creds.endpoint@, creds.api_key@) is None
                &&& (endpoint@, api_key@) == stored_parts(creds.endpoint@, creds.api_key@)
            },
        },
{
    if is_blank(creds.endpoint.as_str()) {
        return Err(GrokSttError::MissingCredentials(owned("端点(baseURL)")));
    }
    if is_blank(creds.api_key.as_str()) {
        return Err(GrokSttError::MissingCredentials(owned("API Key")));
    }
    Ok((trim(creds.endpoint.as_str()), trim(creds.api_key.as_str())))
}

/// Whether the credentials are there.
pub fn check_credentials(creds: &GrokSttCredentials) -> (r: Result<(), GrokSttError>)
    ensures
        match r {
            Err(e) => {
                &&& e matches GrokSttError::MissingCredentials(m)
                &&& missing_part(creds.endpoint@, creds.api_key@) == Some(m@)
            },
            Ok(_) => missing_part(creds.endpoint@, creds.api_key@) is None,
        },
{
    match credentials(creds) {
        Ok(_) => Ok(()),
        Err(e) => Err(e),
    }
}

/// Where audio is sent, below an address.
pub open spec fn transcription_address(base_url: Seq<char>) -> Seq<char> {
    without_trailing(base_url, '/') + "/v1/audio/transcriptions"@
}

/// Where the connection is kept warm, below an address.
pub open spec fn preheat_address(base_url: Seq<char>) -> Seq<char> {
    without_trailing(base_url, '/') + "/v1/dpop/ping"@
}

/// Where audio is sent.
pub fn transcription_url(base_url: &str) -> (r: String)
    ensures
        r@ == transcription_address(base_url@),
{
    join2(trim_trailing(base_url, '/').as_str(), "/v1/audio/transcriptions")
}

/// Where the connection is kept warm.
pub fn preheat_url(base_url: &str) -> (r: String)
    ensures
        r@ == preheat_address(base_url@),
{
    join2(trim_trailing(base_url, '/').as_str(), "/v1/dpop/ping")
}

/// A text field of a multipart form.
pub struct FormField {
    pub name: String,
    pub value: String,
}

/// The contents of form fields.
pub open spec fn fields_view(v: Seq<FormField>) -> Seq<(Seq<char>, Seq<char>)> {
    v.map_values(|f: FormField| (f.name@, f.value@))
}

/// A transcription request: its text fields, which stand before the file, and the file.
pub struct TranscriptionRequest {
    pub url: String,
    pub fields: Vec<FormField>,
    pub wav: Vec<u8>,
}

/// One field for each key term, in order: a repeated field passes several of them.
pub open spec fn keyterm_fields(keyterms: Seq<Seq<char>>) -> Seq<(Seq<char>, Seq<char>)> {
    keyterms.map_values(|term: Seq<char>| ("keyterm"@, term))
}

/// The text fields of a request: the key terms one by one and all in one prompt, where there are
/// any, and the model.
pub open spec fn request_fields(keyterms: Seq<Seq<char>>) -> Seq<(Seq<char>, Seq<char>)> {
    let model = seq![("model"@, "grok-stt"@)];
    if keyterms.len() == 0 {
        model
    } else {
        keyterm_fields(keyterms) + seq![("prompt"@, joined(keyterms, ", "@))] + model
    }
}

fn form_field(name: &str, value: String) -> (f: FormField)
    ensures
        f.name@ == name@,
        f.value == value,
{
    FormField { name: owned(name), value }
}

/// Builds a transcription request.
pub fn transcription_request(base_url: &str, pcm: &[u8], keyterms: &[String]) -> (r:
    TranscriptionRequest)
    requires
        pcm@.len() + 36 <= u32::MAX,
    ensures
        r.url@ == transcription_address(base_url@),
        fields_view(r.fields@) == request_fields(texts(keyterms@)),
        r.wav@ == wav_header((pcm@.len() + 36) as u32, pcm@.len() as u32) + pcm@,
{
    let mut fields: Vec<FormField> = Vec::new();
    let n: usize = keyterms.len();
    if n > 0 {
        let ghost terms = texts(keyterms@);
        let mut i: usize = 0;
        while i < n
            invariant
                i <= n == keyterms@.len(),
                terms == texts(keyterms@),
                fields_view(fields@) == keyterm_fields(terms.take(i as int)),
            decreases n - i,
        {
            let ghost before = fields_view(fields@);
            fields.push(form_field("keyterm", owned(keyterms[i].as_str())));
            proof {
                assert(fields_view(fields@) =~= before.push(("keyterm"@, terms[i as int])));
                assert(keyterm_fields(terms.take(i + 1)) =~= keyterm_fields(
                    terms.take(i as int),
                ).push(("keyterm"@, terms[i as int])));
            }
            i += 1;
        }
        assert(terms.take(n as int) =~= terms);
        fields.push(form_field("prompt", join_all(keyterms, ", ")));
    }
    fields.push(form_field("model", owned("grok-stt")));
    assert(fields_view(fields@) =~= request_fields(texts(keyterms@)));
    TranscriptionRequest { url: transcription_url(base_url), fields, wav: wav_from_pcm(pcm) }
}

/// What is told of the body of such a reply.
pub open spec fn told_body(body: Seq<char>) -> Seq<char> {
    first_chars(body, 300)
}

/// The error for a reply with a status other than success: its first 300 characters.
pub fn upstream_error(status: u16, body: &str) -> (e: GrokSttError)
    ensures
        e matches GrokSttError::Upstream(s, m) && s == status && m@ == told_body(body@),
{
    GrokSttError::Upstream(status, first_n_chars(body, 300))
}

/// The text in a reply.
pub fn reply_text(reply: &Json) -> (r: Result<String, GrokSttError>)
    ensures
        match reply@.str_member("text"@) {
            Some(t) => r matches Ok(s) && s@ == t,
            None => r == Err::<String, GrokSttError>(GrokSttError::EmptyResponse),
        },
{
    match reply.get_str("text") {
        Some(s) => Ok(owned(s)),
        None => Err(GrokSttError::EmptyResponse),
    }
}

/// The state of a session.
pub struct SyncState {
    /// The audio so far.
    pub pcm: Vec<u8>,
    pub timestamp_base_ms: u64,
    /// Whether a result is under way.
    pub in_flight: bool,
}

/// What the end of the recording leads to.
pub enum LastFrame {
    /// Nothing was recorded: the result is the empty text, at once.
    Empty,
    /// The audio goes out.
    Send(Vec<u8>),
}

impl Default for SyncState {
    fn default() -> (r: SyncState)
        ensures
            r.pcm@ == Seq::<u8>::empty(),
            r.timestamp_base_ms == 0,
            !r.in_flight,
    {
        SyncState { pcm: Vec::new(), timestamp_base_ms: 0, in_flight: false }
    }
}

impl SyncState {
    /// Starts a session, with nothing left of the one before.
    pub fn open_session(&mut self)
        ensures
            final(self).pcm@ == Seq::<u8>::empty(),
            !final(self).in_flight,
            final(self).timestamp_base_ms == old(self).timestamp_base_ms,
    {
        self.pcm = Vec::new();
        self.in_flight = false;
    }

    /// Takes in recorded bytes.
    pub fn consume_pcm_chunk(&mut self, pcm: &[u8])
        ensures
            final(self).pcm@ == old(self).pcm@ + pcm@,
            final(self).timestamp_base_ms == old(self).timestamp_base_ms,
            final(self).in_flight == old(self).in_flight,
    {
        self.pcm.extend_from_slice(pcm);
        assert(self.pcm@ =~= old(self).pcm@ + pcm@);
    }

    /// Ends the recording: takes the audio, where there is any.
    pub fn send_last_frame(&mut self) -> (r: LastFrame)
        ensures
            match r {
                LastFrame::Empty => old(self).pcm@.len() == 0,
                LastFrame::Send(pcm) => old(self).pcm@.len() > 0 && pcm@ == old(self).pcm@,
            },
            final(self).pcm@ == Seq::<u8>::empty(),
            final(self).in_flight,
            final(self).timestamp_base_ms == old(self).timestamp_base_ms,
    {
        self.in_flight = true;
        if self.pcm.len() == 0 {
            assert(self.pcm@ =~= seq![]);
            return LastFrame::Empty;
        }
        let mut pcm: Vec<u8> = Vec::new();
        std::mem::swap(&mut pcm, &mut self.pcm);
        LastFrame::Send(pcm)
    }

    /// Takes the result that is under way; an error where there is none.
    pub fn take_result(&mut self) -> (r: Result<(), GrokSttError>)
        ensures
            match r {
                Ok(_) => old(self).in_flight,
                Err(e) => {
                    &&& !old(self).in_flight
                    &&& e matches GrokSttError::Channel(m)
                    &&& m@ == "没有在途请求"@
                },
            },
            *final(self) == (SyncState { in_flight: false, ..*old(self) }),
    {
        let had = self.in_flight;
        self.in_flight = false;
        if had {
            Ok(())
        } else {
            Err(GrokSttError::Channel(owned("没有在途请求")))
        }
    }

    /// Gives up the result that is under way.
    pub fn cancel(&mut self)
        ensures
            *final(self) == (SyncState { in_flight: false, ..*old(self) }),
    {
        self.in_flight = false;
    }

    /// Ends the session.
    pub fn close(&mut self)
        ensures
            final(self).pcm@ == Seq::<u8>::empty(),
            !final(self).in_flight,
            final(self).timestamp_base_ms == old(self).timestamp_base_ms,
    {
        self.pcm = Vec::new();
        self.in_flight = false;
    }

    /// Sets the time at which the recording began.
    pub fn set_timestamp_base(&mut self, ms: u64)
        ensures
            *final(self) == (SyncState { timestamp_base_ms: ms, ..*old(self) }),
    {
        self.timestamp_base_ms = ms;
    }

    /// How long the session has been recording, at the time `now_ms`.
    pub fn session_duration_ms(&self, now_ms: u64) -> (r: u64)
        ensures
            r == recorded_ms(self.timestamp_base_ms, now_ms),
    {
        if self.timestamp_base_ms == 0 {
            return 0;
        }
        now_ms.saturating_sub(self.timestamp_base_ms)
    }
}

/// How waiting for a result ends.
pub enum ResultWait {
    Reply(Result<String, GrokSttError>),
    /// The request was dropped.
    Dropped,
    TimedOut,
}

/// What waiting for a result comes to.
pub fn result_outcome(wait: ResultWait) -> (r: Result<String, GrokSttError>)
    ensures
        match wait {
            ResultWait::Reply(result) => r == result,
            ResultWait::Dropped => r matches Err(GrokSttError::Channel(m)) && m@
                == "发送端已丢弃"@,
            ResultWait::TimedOut => r == Err::<String, GrokSttError>(GrokSttError::Timeout),
        },
{
    match wait {
        ResultWait::Reply(result) => result,
        ResultWait::Dropped => Err(GrokSttError::Channel(owned("发送端已丢弃"))),
        ResultWait::TimedOut => Err(GrokSttError::Timeout),
    }
}

/// Audio is sent and the connection kept warm below the address of the channel, however many
/// slashes it ends with.
pub proof fn law_channel_is_below_its_address(address: Seq<char>, slashes: nat)
    requires
        address.len() > 0 ==> address.last() != '/',
    ensures
        transcription_address(address + Seq::new(slashes, |i: int| '/')) == address
            + "/v1/audio/transcriptions"@,
        preheat_address(address + Seq::new(slashes, |i: int| '/')) == address + "/v1/dpop/ping"@,
{
    law_trailing_characters_go(address, '/', slashes);
}

/// A request names its model, and before that each key term in a field of its own, in order, and
/// all of them in one prompt, where there are any.
pub proof fn law_key_terms_are_sent(keyterms: Seq<Seq<char>>, i: int)
    ensures
        request_fields(keyterms).last() == ("model"@, "grok-stt"@),
        keyterms.len() == 0 ==> request_fields(keyterms).len() == 1,
        keyterms.len() > 0 ==> {
            &&& request_fields(keyterms).len() == keyterms.len() + 2
            &&& request_fields(keyterms)[keyterms.len() as int] == (
                "prompt"@,
                joined(keyterms, ", "@),
            )
            &&& 0 <= i < keyterms.len() ==> request_fields(keyterms)[i] == ("keyterm"@, keyterms[i])
        },
{
}

/// The channel can be used exactly where neither part of its credentials is blank; the endpoint is
/// missed before the key, and what is used has no white space around it.
pub proof fn law_credentials_must_be_there(endpoint: Seq<char>, api_key: Seq<char>)
    ensures
        missing_part(endpoint, api_key) is None <==> !blank(endpoint) && !blank(api_key),
        blank(endpoint) ==> missing_part(endpoint, api_key) == Some("端点(baseURL)"@),
        !blank(endpoint) && blank(api_key) ==> missing_part(endpoint, api_key) == Some("API Key"@),
        stored_parts(endpoint, api_key).0 == trimmed(endpoint),
        stored_parts(endpoint, api_key).1 == trimmed(api_key),
{
}

/// Of a reply that is no success at most 300 characters are told, from its beginning on.
pub proof fn law_long_replies_are_cut(body: Seq<char>)
    ensures
        told_body(body).is_prefix_of(body),
        body.len() <= 300 ==> told_body(body) == body,
        body.len() > 300 ==> told_body(body).len() == 300,
{
    law_first_characters_are_a_beginning(body, 300);
}

/// Each error says what went wrong, with the status where the server gave one.
pub proof fn law_error_says_what_went_wrong(m: String, status: u16)
    ensures
        GrokSttError::MissingCredentials(m).text() == "未配置"@ + m@ + "，请在设置中填写"@,
        GrokSttError::Request(m).text() == "请求失败: "@ + m@,
        GrokSttError::Upstream(status, m).text() == "上游错误 "@ + decimal(status as nat) + ": "@
            + m@,
        GrokSttError::Channel(m).text() == "通道中断: "@ + m@,
        GrokSttError::EmptyResponse.text() == "上游返回为空"@,
        GrokSttError::Timeout.text() == "等待结果超时"@,
{
}

} // verus!
