//! The translation client's request: canonical parameter string, signature
//! and form fields, and the classification of the service's answer.

use vstd::prelude::*;
use vstd::string::StringExecFns;
use vstd::utf8::encode_utf8;
use crate::text::{decimal, decimal_string, hex_lower, hex_string};

verus! {

/// The MD5 digest of a byte string, as the `md5` crate computes it.
pub uninterp spec fn md5_of(data: Seq<u8>) -> Seq<u8>;

/// Calls `md5::compute` and hands back the sixteen bytes of its `Digest`.
/// Trusted: the result is the MD5 digest of `data`, a function of the
/// bytes alone; the call neither fails nor panics.
#[verifier::external_body]
fn md5_digest(data: &[u8]) -> (r: [u8; 16])
    ensures
        r@ == md5_of(data@),
{
    md5::compute(data).0
}

/// The canonical parameter string that the signature is taken over. Field
/// order and separators are fixed.
pub open spec fn canonical(
    api_key: Seq<char>,
    app_id: Seq<char>,
    src_text: Seq<char>,
    timestamp: Seq<char>,
) -> Seq<char> {
    "apikey="@ + api_key + "&appId="@ + app_id + "&from=en&srcText="@ + src_text + "&timestamp="@
        + timestamp + "&to=zh"@
}

/// The signature of a request: the digest of the canonical string's UTF-8
/// bytes in lowercase hexadecimal.
pub open spec fn signature(
    api_key: Seq<char>,
    app_id: Seq<char>,
    src_text: Seq<char>,
    timestamp: Seq<char>,
) -> Seq<char> {
    hex_lower(md5_of(encode_utf8(canonical(api_key, app_id, src_text, timestamp))))
}

/// Where translation requests are posted.
pub fn endpoint() -> (r: &'static str)
    ensures
        r@ == "https://api.niutrans.com/v2/text/translate"@,
{
    "https://api.niutrans.com/v2/text/translate"
}

/// Builds the canonical parameter string.
pub fn canonical_params(api_key: &str, app_id: &str, src_text: &str, timestamp: &str) -> (r: String)
    ensures
        r@ == canonical(api_key@, app_id@, src_text@, timestamp@),
{
    let mut s = String::from_str("apikey=");
    s.append(api_key);
    s.append("&appId=");
    s.append(app_id);
    s.append("&from=en&srcText=");
    s.append(src_text);
    s.append("&timestamp=");
    s.append(timestamp);
    s.append("&to=zh");
    s
}

/// Signs the four inputs.
pub fn sign(api_key: &str, app_id: &str, src_text: &str, timestamp: &str) -> (r: String)
    ensures
        r@ == signature(api_key@, app_id@, src_text@, timestamp@),
{
    let params = canonical_params(api_key, app_id, src_text, timestamp);
    let digest = md5_digest(params.as_str().as_bytes());
    hex_string(digest.as_slice())
}

/// Equal inputs give equal signatures.
pub proof fn signature_deterministic(
    api_key: Seq<char>,
    app_id: Seq<char>,
    src_text: Seq<char>,
    timestamp: Seq<char>,
    api_key2: Seq<char>,
    app_id2: Seq<char>,
    src_text2: Seq<char>,
    timestamp2: Seq<char>,
)
    requires
        api_key == api_key2,
        app_id == app_id2,
        src_text == src_text2,
        timestamp == timestamp2,
    ensures
        signature(api_key, app_id, src_text, timestamp) == signature(
            api_key2,
            app_id2,
            src_text2,
            timestamp2,
        ),
{
}

/// Two texts that agree once the same text is put before and behind each
/// are the same.
pub proof fn middle_cancels(
    before: Seq<char>,
    m1: Seq<char>,
    m2: Seq<char>,
    behind: Seq<char>,
)
    requires
        before + m1 + behind == before + m2 + behind,
    ensures
        m1 == m2,
{
    let whole1 = before + m1 + behind;
    let whole2 = before + m2 + behind;
    assert(whole1.len() == before.len() + m1.len() + behind.len());
    assert(whole2.len() == before.len() + m2.len() + behind.len());
    assert forall|i: int| 0 <= i < m1.len() implies m1[i] == m2[i] by {
        assert(whole1[before.len() + i] == m1[i]);
        assert(whole2[before.len() + i] == m2[i]);
    }
    assert(m1 =~= m2);
}

/// A change of one input alone changes the canonical string, and so the
/// bytes that are signed: two canonical strings that agree, built from
/// inputs of which three agree, agree in the fourth too.
pub proof fn canonical_tells_inputs_apart(
    api_key: Seq<char>,
    app_id: Seq<char>,
    src_text: Seq<char>,
    timestamp: Seq<char>,
    api_key2: Seq<char>,
    app_id2: Seq<char>,
    src_text2: Seq<char>,
    timestamp2: Seq<char>,
)
    requires
        canonical(api_key, app_id, src_text, timestamp) == canonical(
            api_key2,
            app_id2,
            src_text2,
            timestamp2,
        ),
        (app_id == app_id2 && src_text == src_text2 && timestamp == timestamp2) || (api_key
            == api_key2 && src_text == src_text2 && timestamp == timestamp2) || (api_key
            == api_key2 && app_id == app_id2 && timestamp == timestamp2) || (api_key == api_key2
            && app_id == app_id2 && src_text == src_text2),
    ensures
        api_key == api_key2,
        app_id == app_id2,
        src_text == src_text2,
        timestamp == timestamp2,
{
    let p0 = "apikey="@;
    let p1 = "&appId="@;
    let p2 = "&from=en&srcText="@;
    let p3 = "&timestamp="@;
    let p4 = "&to=zh"@;
    let c1 = canonical(api_key, app_id, src_text, timestamp);
    let c2 = canonical(api_key2, app_id2, src_text2, timestamp2);
    if app_id == app_id2 && src_text == src_text2 && timestamp == timestamp2 {
        let behind = p1 + app_id + p2 + src_text + p3 + timestamp + p4;
        assert(c1 =~= p0 + api_key + behind);
        assert(c2 =~= p0 + api_key2 + behind);
        middle_cancels(p0, api_key, api_key2, behind);
    } else if api_key == api_key2 && src_text == src_text2 && timestamp == timestamp2 {
        let before = p0 + api_key + p1;
        let behind = p2 + src_text + p3 + timestamp + p4;
        assert(c1 =~= before + app_id + behind);
        assert(c2 =~= before + app_id2 + behind);
        middle_cancels(before, app_id, app_id2, behind);
    } else if api_key == api_key2 && app_id == app_id2 && timestamp == timestamp2 {
        let before = p0 + api_key + p1 + app_id + p2;
        let behind = p3 + timestamp + p4;
        assert(c1 =~= before + src_text + behind);
        assert(c2 =~= before + src_text2 + behind);
        middle_cancels(before, src_text, src_text2, behind);
    } else {
        let before = p0 + api_key + p1 + app_id + p2 + src_text + p3;
        assert(c1 =~= before + timestamp + p4);
        assert(c2 =~= before + timestamp2 + p4);
        middle_cancels(before, timestamp, timestamp2, p4);
    }
}

/// A signed translation request. The signature is taken over the very
/// timestamp that the request carries.
#[derive(Debug, PartialEq, Eq)]
pub struct TranslationRequest {
    pub app_id: String,
    pub src_text: String,
    pub timestamp: String,
    pub from_lang: String,
    pub to_lang: String,
    pub signature: String,
}

impl TranslationRequest {
    /// The request for `src_text` at `epoch_secs` seconds since the epoch.
    pub open spec fn spec_build(
        api_key: Seq<char>,
        app_id: Seq<char>,
        src_text: Seq<char>,
        epoch_secs: u64,
    ) -> RequestModel {
        RequestModel {
            app_id,
            src_text,
            timestamp: decimal(epoch_secs as nat),
            from_lang: "en"@,
            to_lang: "zh"@,
            signature: signature(api_key, app_id, src_text, decimal(epoch_secs as nat)),
        }
    }

    /// Builds and signs the request at the given time.
    pub fn build(api_key: &str, app_id: &str, src_text: &str, epoch_secs: u64) -> (r: Self)
        ensures
            r@ == Self::spec_build(api_key@, app_id@, src_text@, epoch_secs),
            r@.signed_by(api_key@),
    {
        let timestamp = decimal_string(epoch_secs);
        let signature = sign(api_key, app_id, src_text, timestamp.as_str());
        TranslationRequest {
            app_id: String::from_str(app_id),
            src_text: String::from_str(src_text),
            timestamp,
            from_lang: String::from_str("en"),
            to_lang: String::from_str("zh"),
            signature,
        }
    }

    /// The form body, as name and value pairs in the order they are sent.
    pub fn form_fields(&self) -> (r: Vec<(String, String)>)
        ensures
            r@.len() == 6,
            r@[0].0@ == "from"@ && r@[0].1@ == self@.from_lang,
            r@[1].0@ == "to"@ && r@[1].1@ == self@.to_lang,
            r@[2].0@ == "appId"@ && r@[2].1@ == self@.app_id,
            r@[3].0@ == "timestamp"@ && r@[3].1@ == self@.timestamp,
            r@[4].0@ == "srcText"@ && r@[4].1@ == self@.src_text,
            r@[5].0@ == "authStr"@ && r@[5].1@ == self@.signature,
    {
        let mut fields: Vec<(String, String)> = Vec::new();
        fields.push((String::from_str("from"), self.from_lang.clone()));
        fields.push((String::from_str("to"), self.to_lang.clone()));
        fields.push((String::from_str("appId"), self.app_id.clone()));
        fields.push((String::from_str("timestamp"), self.timestamp.clone()));
        fields.push((String::from_str("srcText"), self.src_text.clone()));
        fields.push((String::from_str("authStr"), self.signature.clone()));
        fields
    }
}

/// What a [`TranslationRequest`] holds, as sequences of characters.
pub struct RequestModel {
    pub app_id: Seq<char>,
    pub src_text: Seq<char>,
    pub timestamp: Seq<char>,
    pub from_lang: Seq<char>,
    pub to_lang: Seq<char>,
    pub signature: Seq<char>,
}

impl RequestModel {
    /// The request is one that the service can check: from English to
    /// Chinese, and signed with `api_key` over the fields it carries.
    pub open spec fn signed_by(self, api_key: Seq<char>) -> bool {
        &&& self.from_lang == "en"@
        &&& self.to_lang == "zh"@
        &&& self.signature == signature(api_key, self.app_id, self.src_text, self.timestamp)
    }
}

/// A request is signed over the timestamp that it carries, whatever the
/// time it was built at.
pub proof fn built_request_is_signed(
    api_key: Seq<char>,
    app_id: Seq<char>,
    src_text: Seq<char>,
    epoch_secs: u64,
)
    ensures
        TranslationRequest::spec_build(api_key, app_id, src_text, epoch_secs).signed_by(api_key),
        TranslationRequest::spec_build(api_key, app_id, src_text, epoch_secs).timestamp
            == decimal(epoch_secs as nat),
{
}

impl View for TranslationRequest {
    type V = RequestModel;

    open spec fn view(&self) -> RequestModel {
        RequestModel {
            app_id: self.app_id@,
            src_text: self.src_text@,
            timestamp: self.timestamp@,
            from_lang: self.from_lang@,
            to_lang: self.to_lang@,
            signature: self.signature@,
        }
    }
}

/// The service's answer to a translation request.
#[derive(Debug, PartialEq, Eq)]
pub struct TranslationResponse {
    pub from: String,
    pub to: String,
    pub tgt_text: String,
}

/// Why a translation attempt failed.
#[derive(Debug, PartialEq, Eq)]
pub enum TranslateError {
    /// The request did not reach the service, or the service refused it.
    NetworkFailure(String),
    /// The service did not accept the credentials.
    AuthFailure(String),
    /// The answer was not the expected document.
    MalformedResponse(String),
}

/// What came back from one attempt to reach the service.
#[derive(Debug, PartialEq, Eq)]
pub enum Reply {
    /// No answer: the transport's own description of the failure.
    Unreachable(String),
    /// An answer with its status code, and its body where it could be read
    /// as a response document, else the reader's complaint.
    Answer(u16, Result<TranslationResponse, String>),
}

/// Character view of a [`TranslateError`].
pub enum TranslateErrorModel {
    NetworkFailure(Seq<char>),
    AuthFailure(Seq<char>),
    MalformedResponse(Seq<char>),
}

impl View for TranslateError {
    type V = TranslateErrorModel;

    open spec fn view(&self) -> TranslateErrorModel {
        match *self {
            TranslateError::NetworkFailure(why) => TranslateErrorModel::NetworkFailure(why@),
            TranslateError::AuthFailure(why) => TranslateErrorModel::AuthFailure(why@),
            TranslateError::MalformedResponse(why) => TranslateErrorModel::MalformedResponse(why@),
        }
    }
}

impl TranslateErrorModel {
    /// The failure's description.
    pub open spec fn message(self) -> Seq<char> {
        match self {
            TranslateErrorModel::NetworkFailure(why) => why,
            TranslateErrorModel::AuthFailure(why) => why,
            TranslateErrorModel::MalformedResponse(why) => why,
        }
    }
}

/// Character view of a translation attempt's result.
pub open spec fn attempt_view(r: Result<String, TranslateError>) -> Result<
    Seq<char>,
    TranslateErrorModel,
> {
    match r {
        Ok(text) => Ok(text@),
        Err(e) => Err(e@),
    }
}

/// The text of a status code's refusal.
pub open spec fn status_text(status: u16) -> Seq<char> {
    "HTTP status "@ + decimal(status as nat)
}

/// How a reply is read: no answer and statuses outside 200..300 are network
/// failures, but for 401 and 403, which are failures of authorization; an
/// answer in 200..300 gives its translated text, or is malformed where the
/// body could not be read.
pub open spec fn classify(reply: Reply) -> Result<Seq<char>, TranslateErrorModel> {
    match reply {
        Reply::Unreachable(why) => Err(TranslateErrorModel::NetworkFailure(why@)),
        Reply::Answer(status, body) => if status == 401 || status == 403 {
            Err(TranslateErrorModel::AuthFailure(status_text(status)))
        } else if status < 200 || status >= 300 {
            Err(TranslateErrorModel::NetworkFailure(status_text(status)))
        } else {
            match body {
                Ok(doc) => Ok(doc.tgt_text@),
                Err(why) => Err(TranslateErrorModel::MalformedResponse(why@)),
            }
        },
    }
}

/// Reads a reply: the translated text, or the failure it amounts to.
pub fn read_reply(reply: Reply) -> (r: Result<String, TranslateError>)
    ensures
        attempt_view(r) == classify(reply),
{
    match reply {
        Reply::Unreachable(why) => Err(TranslateError::NetworkFailure(why)),
        Reply::Answer(status, body) => {
            if status == 401 || status == 403 {
                let mut why = String::from_str("HTTP status ");
                why.append(decimal_string(status as u64).as_str());
                Err(TranslateError::AuthFailure(why))
            } else if status < 200 || status >= 300 {
                let mut why = String::from_str("HTTP status ");
                why.append(decimal_string(status as u64).as_str());
                Err(TranslateError::NetworkFailure(why))
            } else {
                match body {
                    Ok(doc) => Ok(doc.tgt_text),
                    Err(why) => Err(TranslateError::MalformedResponse(why)),
                }
            }
        },
    }
}

impl TranslateError {
    /// The failure's description.
    pub fn message(&self) -> (r: String)
        ensures
            r@ == self@.message(),
    {
        match self {
            TranslateError::NetworkFailure(why) => why.clone(),
            TranslateError::AuthFailure(why) => why.clone(),
            TranslateError::MalformedResponse(why) => why.clone(),
        }
    }
}

} // verus!
