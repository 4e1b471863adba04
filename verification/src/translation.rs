use vstd::prelude::*;
use vstd::string::StrSliceExecFns;
use rand::distr::SampleString;
use crate::text::concat4;

verus! {

/// Why a translation request was refused or a provider response rejected.
#[derive(Debug, PartialEq, Eq)]
pub enum TranslationError {
    /// The provider credentials are not configured.
    MissingCredentials,
    /// The text exceeds the 2000-character limit.
    TextTooLong,
    /// The provider answered with an application-level error code and message.
    Upstream(String, String),
    /// The provider answered without any translated segment.
    EmptyResult,
    /// The provider answered with JSON of no recognizable shape.
    Unrecognized,
}

/// The configured translation provider credentials and language pair.
pub struct TranslationSettings {
    pub appid: String,
    pub key: String,
    pub translation_from: String,
    pub translation_to: String,
}

impl TranslationSettings {
    /// A field-for-field copy of the settings.
    pub fn duplicate(&self) -> (r: Self)
        ensures
            r == *self,
    {
        TranslationSettings {
            appid: self.appid.clone(),
            key: self.key.clone(),
            translation_from: self.translation_from.clone(),
            translation_to: self.translation_to.clone(),
        }
    }
}

impl Default for TranslationSettings {
    /// Empty credentials, detecting the source language and translating to
    /// Chinese.
    fn default() -> (r: Self)
        ensures
            r.appid@.len() == 0,
            r.key@.len() == 0,
            r.translation_from@ == "auto"@,
            r.translation_to@ == "zh"@,
    {
        TranslationSettings {
            appid: String::new(),
            key: String::new(),
            translation_from: "auto".to_owned(),
            translation_to: "zh".to_owned(),
        }
    }
}

/// One translated segment of the provider response.
#[derive(Debug)]
pub struct TranslationItem {
    pub src: String,
    pub dst: String,
}

/// The decoded provider response.
#[derive(Debug)]
pub struct TranslationResult {
    pub from: String,
    pub to: String,
    pub trans_result: Vec<TranslationItem>,
    pub error_code: Option<String>,
    pub error_msg: Option<String>,
}

/// A translation language choice offered to the user.
pub struct LanguageInfo {
    pub code: String,
    pub name: String,
}

/// The form fields of one translation call.
#[derive(Debug)]
pub struct TranslateRequest {
    pub q: String,
    pub from: String,
    pub to: String,
    pub appid: String,
    pub salt: String,
    pub sign: String,
}

/// An ASCII letter or digit.
pub open spec fn is_ascii_alnum(c: char) -> bool {
    ('a' <= c && c <= 'z') || ('A' <= c && c <= 'Z') || ('0' <= c && c <= '9')
}

/// The hex digest that `md5::compute` and its `LowerHex` form produce; it
/// depends on the input characters alone.
pub uninterp spec fn md5_hex(s: Seq<char>) -> Seq<char>;

/// Relies on `md5::compute` over the UTF-8 bytes and the digest rendered in
/// lowercase hex: 32 digits that depend on the input alone.
#[verifier::external_body]
fn md5_hex_exec(s: &str) -> (r: String)
    ensures
        r@ == md5_hex(s@),
        r@.len() == 32,
{
    format!("{:x}", md5::compute(s.as_bytes()))
}

/// Relies on rand's `Alphanumeric` distribution: eight characters drawn
/// from a-z, A-Z and 0-9. Nothing else is promised of the value.
#[verifier::external_body]
fn random_salt() -> (r: String)
    ensures
        r@.len() == 8,
        forall|i: int| 0 <= i < r@.len() ==> is_ascii_alnum(#[trigger] r@[i]),
{
    rand::distr::Alphanumeric.sample_string(&mut rand::rng(), 8)
}

/// The in-memory translation settings store. Persistence lives with the
/// caller.
pub struct TranslationManager {
    settings: TranslationSettings,
}

impl TranslationManager {
    /// The current settings.
    pub closed spec fn spec_settings(&self) -> TranslationSettings {
        self.settings
    }

    /// A manager holding the default settings.
    pub fn new() -> (r: Self)
        ensures
            r.spec_settings().appid@.len() == 0,
            r.spec_settings().key@.len() == 0,
            r.spec_settings().translation_from@ == "auto"@,
            r.spec_settings().translation_to@ == "zh"@,
    {
        TranslationManager { settings: TranslationSettings::default() }
    }

    /// A manager holding the given settings.
    pub fn with_settings(settings: TranslationSettings) -> (r: Self)
        ensures
            r.spec_settings() == settings,
    {
        TranslationManager { settings }
    }

    /// A copy of the current settings.
    pub fn get_settings(&self) -> (r: TranslationSettings)
        ensures
            r == self.spec_settings(),
    {
        self.settings.duplicate()
    }

    /// Replaces the settings.
    pub fn update_settings(&mut self, settings: TranslationSettings)
        ensures
            final(self).spec_settings() == settings,
    {
        self.settings = settings;
    }

    /// The provider signature: the md5 hex digest of appid, text, salt and
    /// key concatenated in that order.
    pub fn generate_sign(&self, text: &str, salt: &str) -> (r: String)
        ensures
            r@ == md5_hex(
                self.spec_settings().appid@ + text@ + salt@ + self.spec_settings().key@,
            ),
            r@.len() == 32,
    {
        let joined = concat4(
            self.settings.appid.as_str(),
            text,
            salt,
            self.settings.key.as_str(),
        );
        md5_hex_exec(joined.as_str())
    }

    /// Builds the form fields of one translation call: a fresh eight-character
    /// salt and the matching signature. Fails when the credentials are not
    /// configured or the text exceeds 2000 characters.
    pub fn prepare_translate_request(&self, text: &str) -> (r: Result<
        TranslateRequest,
        TranslationError,
    >)
        ensures
            r is Ok <==> (self.spec_settings().appid@.len() > 0
                && self.spec_settings().key@.len() > 0 && text@.len() <= 2000),
            (self.spec_settings().appid@.len() == 0 || self.spec_settings().key@.len()
                == 0) ==> r == Err::<TranslateRequest, TranslationError>(
                TranslationError::MissingCredentials,
            ),
            (self.spec_settings().appid@.len() > 0 && self.spec_settings().key@.len() > 0
                && text@.len() > 2000) ==> r == Err::<TranslateRequest, TranslationError>(
                TranslationError::TextTooLong,
            ),
            r is Ok ==> ({
                let req = r.unwrap();
                &&& req.q@ == text@
                &&& req.from@ == self.spec_settings().translation_from@
                &&& req.to@ == self.spec_settings().translation_to@
                &&& req.appid@ == self.spec_settings().appid@
                &&& req.salt@.len() == 8
                &&& forall|i: int| 0 <= i < req.salt@.len() ==> is_ascii_alnum(
                    #[trigger] req.salt@[i],
                )
                &&& req.sign@ == md5_hex(
                    self.spec_settings().appid@ + text@ + req.salt@
                        + self.spec_settings().key@,
                )
            }),
    {
        if self.settings.appid.as_str().is_empty() || self.settings.key.as_str().is_empty() {
            return Err(TranslationError::MissingCredentials);
        }
        let n: usize = text.unicode_len();
        if n > 2000 {
            return Err(TranslationError::TextTooLong);
        }
        let salt = random_salt();
        let sign = self.generate_sign(text, salt.as_str());
        Ok(TranslateRequest {
            q: text.to_owned(),
            from: self.settings.translation_from.clone(),
            to: self.settings.translation_to.clone(),
            appid: self.settings.appid.clone(),
            salt,
            sign,
        })
    }
}

/// Decides whether a decoded provider response is a usable translation: an
/// application-level error code is surfaced with its message, an empty
/// result list is rejected, anything else is accepted unchanged.
pub fn accept_translation(result: TranslationResult) -> (r: Result<
    TranslationResult,
    TranslationError,
>)
    ensures
        result.error_code is Some ==> ({
            &&& r is Err
            &&& r->Err_0 is Upstream
            &&& r->Err_0->Upstream_0@ == result.error_code.unwrap()@
            &&& r->Err_0->Upstream_1@ == (match result.error_msg {
                Some(m) => m@,
                None => "\u{672a}\u{77e5}\u{9519}\u{8bef}"@,
            })
        }),
        result.error_code is None && result.trans_result@.len() == 0 ==> r == Err::<
            TranslationResult,
            TranslationError,
        >(TranslationError::EmptyResult),
        result.error_code is None && result.trans_result@.len() > 0 ==> r
            == Ok::<TranslationResult, TranslationError>(result),
{
    match result.error_code {
        Some(code) => {
            let msg = match result.error_msg {
                Some(m) => m,
                None => "\u{672a}\u{77e5}\u{9519}\u{8bef}".to_owned(),
            };
            Err(TranslationError::Upstream(code, msg))
        },
        None => {
            if result.trans_result.len() == 0 {
                Err(TranslationError::EmptyResult)
            } else {
                Ok(result)
            }
        },
    }
}

/// What a connectivity probe of the translation provider decoded from the
/// answer body: whether a `trans_result` field was present at all, and any
/// application-level error code and message.
pub struct TranslationProbeReply {
    pub has_trans_result: bool,
    pub error_code: Option<String>,
    pub error_msg: Option<String>,
}

/// Judges a connectivity probe of the translation provider: an
/// application-level error code is surfaced with its message; any answer
/// that carries a `trans_result` field passes, even with no segment in it;
/// anything else is of no recognizable shape.
pub fn evaluate_translation_probe(reply: TranslationProbeReply) -> (r: Result<
    bool,
    TranslationError,
>)
    ensures
        reply.error_code is Some ==> ({
            &&& r is Err
            &&& r->Err_0 is Upstream
            &&& r->Err_0->Upstream_0@ == reply.error_code.unwrap()@
            &&& r->Err_0->Upstream_1@ == (match reply.error_msg {
                Some(m) => m@,
                None => "\u{672a}\u{77e5}\u{9519}\u{8bef}"@,
            })
        }),
        reply.error_code is None && reply.has_trans_result ==> r == Ok::<
            bool,
            TranslationError,
        >(true),
        reply.error_code is None && !reply.has_trans_result ==> r == Err::<
            bool,
            TranslationError,
        >(TranslationError::Unrecognized),
{
    match reply.error_code {
        Some(code) => {
            let msg = match reply.error_msg {
                Some(m) => m,
                None => "\u{672a}\u{77e5}\u{9519}\u{8bef}".to_owned(),
            };
            Err(TranslationError::Upstream(code, msg))
        },
        None => {
            if reply.has_trans_result {
                Ok(true)
            } else {
                Err(TranslationError::Unrecognized)
            }
        },
    }
}

/// The fixed list of languages offered for translation.
pub fn get_supported_languages() -> (r: Vec<LanguageInfo>)
    ensures
        r@.len() == 29,
        r@[0].code@ == "auto"@ && r@[0].name@ == "自动检测"@,
        r@[1].code@ == "zh"@ && r@[1].name@ == "中文"@,
        r@[2].code@ == "en"@ && r@[2].name@ == "英语"@,
        r@[3].code@ == "yue"@ && r@[3].name@ == "粤语"@,
        r@[4].code@ == "wyw"@ && r@[4].name@ == "文言文"@,
        r@[5].code@ == "jp"@ && r@[5].name@ == "日语"@,
        r@[6].code@ == "kor"@ && r@[6].name@ == "韩语"@,
        r@[7].code@ == "fra"@ && r@[7].name@ == "法语"@,
        r@[8].code@ == "spa"@ && r@[8].name@ == "西班牙语"@,
        r@[9].code@ == "th"@ && r@[9].name@ == "泰语"@,
        r@[10].code@ == "ara"@ && r@[10].name@ == "阿拉伯语"@,
        r@[11].code@ == "ru"@ && r@[11].name@ == "俄语"@,
        r@[12].code@ == "pt"@ && r@[12].name@ == "葡萄牙语"@,
        r@[13].code@ == "de"@ && r@[13].name@ == "德语"@,
        r@[14].code@ == "it"@ && r@[14].name@ == "意大利语"@,
        r@[15].code@ == "el"@ && r@[15].name@ == "希腊语"@,
        r@[16].code@ == "nl"@ && r@[16].name@ == "荷兰语"@,
        r@[17].code@ == "pl"@ && r@[17].name@ == "波兰语"@,
        r@[18].code@ == "bul"@ && r@[18].name@ == "保加利亚语"@,
        r@[19].code@ == "est"@ && r@[19].name@ == "爱沙尼亚语"@,
        r@[20].code@ == "dan"@ && r@[20].name@ == "丹麦语"@,
        r@[21].code@ == "fin"@ && r@[21].name@ == "芬兰语"@,
        r@[22].code@ == "cs"@ && r@[22].name@ == "捷克语"@,
        r@[23].code@ == "rom"@ && r@[23].name@ == "罗马尼亚语"@,
        r@[24].code@ == "slo"@ && r@[24].name@ == "斯洛文尼亚语"@,
        r@[25].code@ == "swe"@ && r@[25].name@ == "瑞典语"@,
        r@[26].code@ == "hu"@ && r@[26].name@ == "匈牙利语"@,
        r@[27].code@ == "cht"@ && r@[27].name@ == "繁体中文"@,
        r@[28].code@ == "vie"@ && r@[28].name@ == "越南语"@,
{
    let mut v: Vec<LanguageInfo> = Vec::new();
    v.push(LanguageInfo { code: "auto".to_owned(), name: "自动检测".to_owned() });
    v.push(LanguageInfo { code: "zh".to_owned(), name: "中文".to_owned() });
    v.push(LanguageInfo { code: "en".to_owned(), name: "英语".to_owned() });
    v.push(LanguageInfo { code: "yue".to_owned(), name: "粤语".to_owned() });
    v.push(LanguageInfo { code: "wyw".to_owned(), name: "文言文".to_owned() });
    v.push(LanguageInfo { code: "jp".to_owned(), name: "日语".to_owned() });
    v.push(LanguageInfo { code: "kor".to_owned(), name: "韩语".to_owned() });
    v.push(LanguageInfo { code: "fra".to_owned(), name: "法语".to_owned() });
    v.push(LanguageInfo { code: "spa".to_owned(), name: "西班牙语".to_owned() });
    v.push(LanguageInfo { code: "th".to_owned(), name: "泰语".to_owned() });
    v.push(LanguageInfo { code: "ara".to_owned(), name: "阿拉伯语".to_owned() });
    v.push(LanguageInfo { code: "ru".to_owned(), name: "俄语".to_owned() });
    v.push(LanguageInfo { code: "pt".to_owned(), name: "葡萄牙语".to_owned() });
    v.push(LanguageInfo { code: "de".to_owned(), name: "德语".to_owned() });
    v.push(LanguageInfo { code: "it".to_owned(), name: "意大利语".to_owned() });
    v.push(LanguageInfo { code: "el".to_owned(), name: "希腊语".to_owned() });
    v.push(LanguageInfo { code: "nl".to_owned(), name: "荷兰语".to_owned() });
    v.push(LanguageInfo { code: "pl".to_owned(), name: "波兰语".to_owned() });
    v.push(LanguageInfo { code: "bul".to_owned(), name: "保加利亚语".to_owned() });
    v.push(LanguageInfo { code: "est".to_owned(), name: "爱沙尼亚语".to_owned() });
    v.push(LanguageInfo { code: "dan".to_owned(), name: "丹麦语".to_owned() });
    v.push(LanguageInfo { code: "fin".to_owned(), name: "芬兰语".to_owned() });
    v.push(LanguageInfo { code: "cs".to_owned(), name: "捷克语".to_owned() });
    v.push(LanguageInfo { code: "rom".to_owned(), name: "罗马尼亚语".to_owned() });
    v.push(LanguageInfo { code: "slo".to_owned(), name: "斯洛文尼亚语".to_owned() });
    v.push(LanguageInfo { code: "swe".to_owned(), name: "瑞典语".to_owned() });
    v.push(LanguageInfo { code: "hu".to_owned(), name: "匈牙利语".to_owned() });
    v.push(LanguageInfo { code: "cht".to_owned(), name: "繁体中文".to_owned() });
    v.push(LanguageInfo { code: "vie".to_owned(), name: "越南语".to_owned() });
    v
}

} // verus!
