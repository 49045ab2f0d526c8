use vstd::prelude::*;
use vstd::string::StrSliceExecFns;
use vstd::string::StringExecFns;

use crate::pastebins::{
    has_prefix, PasteBin, PasteBinMeta, RequestView, Response, ResponseView, UploadError,
    UploadErrorView, UploadRequest, upload_result_view,
};

verus! {

/// The backend's identifier, display name and domain.
pub const ID: &'static str = "pastebin";

pub const DISPLAY_NAME: &'static str = "Pastebin";

pub const DOMAIN: &'static str = "pastebin.com";

/// The endpoint that creates pastes.
pub const URL: &'static str = "https://pastebin.com/api/api_post.php";

/// A response body that begins with this text is an error reported by the service.
pub const API_ERROR_PREFIX: &'static str = "Bad API request";

/// Form field names and the operation selector of the paste API.
pub const FIELD_DEV_KEY: &'static str = "api_dev_key";

pub const FIELD_OPTION: &'static str = "api_option";

pub const FIELD_PASTE_CODE: &'static str = "api_paste_code";

pub const OPTION_PASTE: &'static str = "paste";

/// The pastebin.com backend (https://pastebin.com/). Its developer key is
/// listed on https://pastebin.com/doc_api once registered.
pub struct PastebinCom {
    api_key: String,
}

impl PasteBinMeta for PastebinCom {
    const ID: &'static str = ID;
    const DISPLAY_NAME: &'static str = DISPLAY_NAME;
    const DOMAIN: &'static str = DOMAIN;
}

/// What a response body means: an error when it starts with the error prefix,
/// otherwise the whole body is the address of the new paste.
pub open spec fn body_outcome(body: Seq<char>) -> Result<Seq<char>, UploadErrorView> {
    if has_prefix(body, API_ERROR_PREFIX@) {
        Err(UploadErrorView::Api(body))
    } else {
        Ok(body)
    }
}

/// The outcome of an upload for each thing the transport can hand back.
pub open spec fn pastebin_com_outcome(response: ResponseView) -> Result<Seq<char>, UploadErrorView> {
    match response {
        ResponseView::Body(body) => body_outcome(body),
        ResponseView::SendFailed(cause) => Err(UploadErrorView::Send(cause)),
        ResponseView::ReadFailed(cause) => Err(UploadErrorView::Read(cause)),
    }
}

/// The request that uploads `content` with developer key `key`.
pub open spec fn pastebin_com_request(key: Seq<char>, content: Seq<char>) -> RequestView {
    RequestView {
        url: URL@,
        form: seq![
            (FIELD_DEV_KEY@, key),
            (FIELD_OPTION@, OPTION_PASTE@),
            (FIELD_PASTE_CODE@, content),
        ],
    }
}

/// Whether `s` begins with `p`, character by character.
pub fn starts_with(s: &str, p: &str) -> (r: bool)
    ensures
        r == has_prefix(s@, p@),
{
    let n = p.unicode_len();
    let m = s.unicode_len();
    if n > m {
        return false;
    }
    let mut i: usize = 0;
    while i < n
        invariant
            i <= n <= m,
            n == p@.len(),
            m == s@.len(),
            forall|j: int| 0 <= j < i ==> s@[j] == p@[j],
        decreases n - i,
    {
        if s.get_char(i) != p.get_char(i) {
            assert(s@.subrange(0, n as int)[i as int] != p@[i as int]);
            return false;
        }
        i = i + 1;
    }
    assert(s@.subrange(0, n as int) =~= p@);
    true
}

impl PastebinCom {
    /// The developer key, as given.
    pub closed spec fn spec_api_key(&self) -> Seq<char> {
        self.api_key@
    }

    /// A backend that sends `api_key` verbatim with every request.
    pub fn new(api_key: &str) -> (r: Self)
        ensures
            r.spec_api_key() == api_key@,
    {
        PastebinCom { api_key: String::from_str(api_key) }
    }

    /// Turns a response body into the paste address or the service's error.
    pub fn classify_body(body: String) -> (r: Result<String, UploadError>)
        ensures
            upload_result_view(r) == body_outcome(body@),
    {
        if starts_with(body.as_str(), API_ERROR_PREFIX) {
            Err(UploadError::Api(body))
        } else {
            Ok(body)
        }
    }
}

impl PasteBin for PastebinCom {
    open spec fn request_spec(&self, content: Seq<char>) -> RequestView {
        pastebin_com_request(self.spec_api_key(), content)
    }

    fn upload_request(&self, content: &str) -> (r: UploadRequest) {
        let mut form: Vec<(String, String)> = Vec::new();
        form.push((String::from_str(FIELD_DEV_KEY), self.api_key.clone()));
        form.push((String::from_str(FIELD_OPTION), String::from_str(OPTION_PASTE)));
        form.push((String::from_str(FIELD_PASTE_CODE), String::from_str(content)));
        let r = UploadRequest { url: String::from_str(URL), form };
        assert(r@.form =~= pastebin_com_request(self.spec_api_key(), content@).form);
        r
    }

    open spec fn outcome_spec(&self, response: ResponseView) -> Result<Seq<char>, UploadErrorView> {
        pastebin_com_outcome(response)
    }

    fn upload_outcome(&self, response: Response) -> (r: Result<String, UploadError>) {
        match response {
            Response::Body(body) => PastebinCom::classify_body(body),
            Response::SendFailed(cause) => Err(UploadError::Send(cause)),
            Response::ReadFailed(cause) => Err(UploadError::Read(cause)),
        }
    }
}

} // verus!
