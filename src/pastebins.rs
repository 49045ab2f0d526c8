use std::sync::Arc;

use vstd::prelude::*;
use vstd::string::StringExecFns;

pub mod pastebin_com;
pub mod registration;

use crate::pastebins::pastebin_com::PastebinCom;

verus! {

/// `s` begins with `p`.
pub open spec fn has_prefix(s: Seq<char>, p: Seq<char>) -> bool {
    p.len() <= s.len() && s.subrange(0, p.len() as int) == p
}

/// A form-encoded POST request: the endpoint and the fields, in order.
pub struct UploadRequest {
    pub url: String,
    pub form: Vec<(String, String)>,
}

pub ghost struct RequestView {
    pub url: Seq<char>,
    pub form: Seq<(Seq<char>, Seq<char>)>,
}

impl View for UploadRequest {
    type V = RequestView;

    open spec fn view(&self) -> RequestView {
        RequestView { url: self.url@, form: self.form@.map_values(|f: (String, String)| (f.0@, f.1@)) }
    }
}

/// What the transport handed back for a request: the whole response body, or
/// the cause of a failure while sending the request or while reading the
/// response.
pub enum Response {
    Body(String),
    SendFailed(String),
    ReadFailed(String),
}

pub ghost enum ResponseView {
    Body(Seq<char>),
    SendFailed(Seq<char>),
    ReadFailed(Seq<char>),
}

impl View for Response {
    type V = ResponseView;

    open spec fn view(&self) -> ResponseView {
        match self {
            Response::Body(b) => ResponseView::Body(b@),
            Response::SendFailed(c) => ResponseView::SendFailed(c@),
            Response::ReadFailed(c) => ResponseView::ReadFailed(c@),
        }
    }
}

/// Why an upload failed: the request could not be sent, the response could
/// not be read (each with the transport's cause), or the service answered
/// with an error (with the service's text).
#[derive(Debug)]
pub enum UploadError {
    Send(String),
    Read(String),
    Api(String),
}

pub ghost enum UploadErrorView {
    Send(Seq<char>),
    Read(Seq<char>),
    Api(Seq<char>),
}

impl View for UploadError {
    type V = UploadErrorView;

    open spec fn view(&self) -> UploadErrorView {
        match self {
            UploadError::Send(c) => UploadErrorView::Send(c@),
            UploadError::Read(c) => UploadErrorView::Read(c@),
            UploadError::Api(t) => UploadErrorView::Api(t@),
        }
    }
}

pub open spec fn upload_result_view(r: Result<String, UploadError>) -> Result<Seq<char>, UploadErrorView> {
    match r {
        Ok(url) => Ok(url@),
        Err(e) => Err(e@),
    }
}

pub open spec fn upload_error_message(e: UploadErrorView) -> Seq<char> {
    match e {
        UploadErrorView::Send(c) => "failed to send request to pastebin: "@ + c,
        UploadErrorView::Read(c) => "failed to read pastebin response: "@ + c,
        UploadErrorView::Api(t) => "pastebin error: "@ + t,
    }
}

impl UploadError {
    /// A sentence that says which phase failed, followed by the cause or the
    /// service's text.
    pub fn message(&self) -> (r: String)
        ensures
            r@ == upload_error_message(self@),
    {
        match self {
            UploadError::Send(c) => String::from_str("failed to send request to pastebin: ").concat(c.as_str()),
            UploadError::Read(c) => String::from_str("failed to read pastebin response: ").concat(c.as_str()),
            UploadError::Api(t) => String::from_str("pastebin error: ").concat(t.as_str()),
        }
    }
}

/// The identity of a backend: the same for every instance of it.
pub trait PasteBinMeta {
    const ID: &'static str;
    const DISPLAY_NAME: &'static str;
    const DOMAIN: &'static str;
}

/// A paste-hosting backend. An upload is one request, built by
/// `upload_request`, whose transport outcome `upload_outcome` turns into the
/// address of the paste or an error.
pub trait PasteBin {
    spec fn request_spec(&self, content: Seq<char>) -> RequestView;

    fn upload_request(&self, content: &str) -> (r: UploadRequest)
        ensures
            r@ == self.request_spec(content@),
    ;

    spec fn outcome_spec(&self, response: ResponseView) -> Result<Seq<char>, UploadErrorView>;

    fn upload_outcome(&self, response: Response) -> (r: Result<String, UploadError>)
        ensures
            upload_result_view(r) == self.outcome_spec(response@),
    ;
}

/// Every backend this library knows, as one type so that a registry can hold
/// any of them.
pub enum Service {
    PastebinCom(PastebinCom),
}

impl Service {
    pub open spec fn spec_id(&self) -> Seq<char> {
        match self {
            Service::PastebinCom(_) => pastebin_com::ID@,
        }
    }

    pub open spec fn spec_display_name(&self) -> Seq<char> {
        match self {
            Service::PastebinCom(_) => pastebin_com::DISPLAY_NAME@,
        }
    }

    pub open spec fn spec_domain(&self) -> Seq<char> {
        match self {
            Service::PastebinCom(_) => pastebin_com::DOMAIN@,
        }
    }

    /// The identifier under which the backend is registered.
    pub fn id(&self) -> (r: &'static str)
        ensures
            r@ == self.spec_id(),
    {
        match self {
            Service::PastebinCom(_) => pastebin_com::ID,
        }
    }

    pub fn display_name(&self) -> (r: &'static str)
        ensures
            r@ == self.spec_display_name(),
    {
        match self {
            Service::PastebinCom(_) => pastebin_com::DISPLAY_NAME,
        }
    }

    pub fn domain(&self) -> (r: &'static str)
        ensures
            r@ == self.spec_domain(),
    {
        match self {
            Service::PastebinCom(_) => pastebin_com::DOMAIN,
        }
    }
}

impl PasteBin for Service {
    open spec fn request_spec(&self, content: Seq<char>) -> RequestView {
        match self {
            Service::PastebinCom(p) => p.request_spec(content),
        }
    }

    fn upload_request(&self, content: &str) -> (r: UploadRequest) {
        match self {
            Service::PastebinCom(p) => p.upload_request(content),
        }
    }

    open spec fn outcome_spec(&self, response: ResponseView) -> Result<Seq<char>, UploadErrorView> {
        match self {
            Service::PastebinCom(p) => p.outcome_spec(response),
        }
    }

    fn upload_outcome(&self, response: Response) -> (r: Result<String, UploadError>) {
        match self {
            Service::PastebinCom(p) => p.upload_outcome(response),
        }
    }
}

/// The backends available in this run, each under its identifier. A backend
/// registered under an identifier that is already taken replaces the earlier
/// one.
pub struct PasteBins {
    services: Vec<(String, Arc<Service>)>,
    registered: Ghost<Map<Seq<char>, Arc<Service>>>,
}

impl View for PasteBins {
    type V = Map<Seq<char>, Arc<Service>>;

    closed spec fn view(&self) -> Map<Seq<char>, Arc<Service>> {
        self.registered@
    }
}

impl PasteBins {
    spec fn key_at(&self, i: int) -> Seq<char> {
        self.services@[i].0@
    }

    /// Identifiers are unique, each entry stands under its backend's own
    /// identifier, and the map holds exactly the entries.
    pub closed spec fn wf(&self) -> bool {
        &&& forall|i: int, j: int|
            0 <= i < j < self.services@.len() ==> #[trigger] self.key_at(i) != #[trigger] self.key_at(j)
        &&& forall|i: int|
            0 <= i < self.services@.len() ==> #[trigger] self.key_at(i) == self.services@[i].1.spec_id()
        &&& forall|k: Seq<char>|
            #[trigger] self.registered@.contains_key(k) <==> exists|i: int|
                0 <= i < self.services@.len() && #[trigger] self.key_at(i) == k
        &&& forall|i: int|
            0 <= i < self.services@.len() ==> self.registered@[#[trigger] self.key_at(i)]
                == self.services@[i].1
    }

    /// An empty registry.
    pub fn new() -> (r: Self)
        ensures
            r.wf(),
            r@ == Map::<Seq<char>, Arc<Service>>::empty(),
    {
        PasteBins { services: Vec::new(), registered: Ghost(Map::empty()) }
    }

    fn position(&self, key: &String) -> (r: Option<usize>)
        requires
            self.wf(),
        ensures
            match r {
                Some(i) => i < self.services@.len() && self.key_at(i as int) == key@,
                None => !self@.contains_key(key@),
            },
    {
        let mut i: usize = 0;
        while i < self.services.len()
            invariant
                self.wf(),
                i <= self.services@.len(),
                forall|j: int| 0 <= j < i ==> #[trigger] self.key_at(j) != key@,
            decreases self.services@.len() - i,
        {
            if self.services[i].0 == *key {
                return Some(i);
            }
            i = i + 1;
        }
        None
    }

    /// Makes `service` available under its identifier, in place of any
    /// backend registered there before.
    pub fn register(&mut self, service: Arc<Service>)
        requires
            old(self).wf(),
        ensures
            final(self).wf(),
            final(self)@ == old(self)@.insert(service.spec_id(), service),
    {
        let key = String::from_str(service.id());
        let ghost k = key@;
        let ghost pre = *self;
        let ghost m = self.registered@.insert(k, service);
        match self.position(&key) {
            Some(i) => {
                self.services[i] = (key, service);
                self.registered = Ghost(m);
                assert forall|j: int| 0 <= j < self.services@.len() implies #[trigger] self.key_at(j)
                    == if j == i { k } else { pre.key_at(j) } by {}
                assert forall|kk: Seq<char>| #[trigger] m.contains_key(kk) implies exists|j: int|
                    0 <= j < self.services@.len() && #[trigger] self.key_at(j) == kk by {
                    if kk != k {
                        let j = choose|j: int| 0 <= j < pre.services@.len() && #[trigger] pre.key_at(j) == kk;
                        assert(self.key_at(j) == kk);
                    } else {
                        assert(self.key_at(i as int) == kk);
                    }
                }
            },
            None => {
                self.services.push((key, service));
                self.registered = Ghost(m);
                let ghost n = pre.services@.len() as int;
                assert forall|j: int| 0 <= j < self.services@.len() implies #[trigger] self.key_at(j)
                    == if j == n { k } else { pre.key_at(j) } by {}
                assert forall|kk: Seq<char>| #[trigger] m.contains_key(kk) implies exists|j: int|
                    0 <= j < self.services@.len() && #[trigger] self.key_at(j) == kk by {
                    if kk != k {
                        let j = choose|j: int| 0 <= j < pre.services@.len() && #[trigger] pre.key_at(j) == kk;
                        assert(self.key_at(j) == kk);
                    } else {
                        assert(self.key_at(n) == kk);
                    }
                }
            },
        }
    }

    /// The backend registered under `id`, if any.
    pub fn get(&self, id: &str) -> (r: Option<&Arc<Service>>)
        requires
            self.wf(),
        ensures
            match r {
                Some(s) => self@.contains_key(id@) && *s == self@[id@],
                None => !self@.contains_key(id@),
            },
    {
        let key = id.to_owned();
        match self.position(&key) {
            Some(i) => Some(&self.services[i].1),
            None => None,
        }
    }

    /// Every registered backend once, in no particular order.
    pub fn all(&self) -> (r: Vec<&Arc<Service>>)
        requires
            self.wf(),
        ensures
            forall|i: int| 0 <= i < r@.len() ==> #[trigger] self@.contains_key(r@[i].spec_id())
                && self@[r@[i].spec_id()] == *r@[i],
            forall|k: Seq<char>| #[trigger] self@.contains_key(k) ==> exists|i: int|
                0 <= i < r@.len() && #[trigger] r@[i].spec_id() == k,
            forall|i: int, j: int| 0 <= i < j < r@.len() ==> r@[i].spec_id() != r@[j].spec_id(),
    {
        let mut r: Vec<&Arc<Service>> = Vec::new();
        let mut i: usize = 0;
        while i < self.services.len()
            invariant
                self.wf(),
                i <= self.services@.len(),
                r@.len() == i,
                forall|j: int| 0 <= j < i ==> *#[trigger] r@[j] == self.services@[j].1,
            decreases self.services@.len() - i,
        {
            r.push(&self.services[i].1);
            i = i + 1;
        }
        assert forall|k: Seq<char>| #[trigger] self@.contains_key(k) implies exists|i: int|
            0 <= i < r@.len() && #[trigger] r@[i].spec_id() == k by {
            let i = choose|i: int| 0 <= i < self.services@.len() && #[trigger] self.key_at(i) == k;
            assert(r@[i].spec_id() == k);
        }
        assert forall|i: int, j: int| 0 <= i < j < r@.len() implies r@[i].spec_id() != r@[j].spec_id() by {
            assert(self.key_at(i) != self.key_at(j));
        }
        assert forall|i: int| 0 <= i < r@.len() implies #[trigger] self@.contains_key(r@[i].spec_id())
            && self@[r@[i].spec_id()] == *r@[i] by {
            assert(self.key_at(i) == r@[i].spec_id());
        }
        r
    }
}

/// The registry's contents after `services` were registered one after
/// another into an empty registry, as `register` states each step.
pub open spec fn registered_after(services: Seq<Arc<Service>>) -> Map<Seq<char>, Arc<Service>>
    decreases services.len(),
{
    if services.len() == 0 {
        Map::empty()
    } else {
        registered_after(services.drop_last()).insert(services.last().spec_id(), services.last())
    }
}

/// After any series of registrations, looking up an identifier finds the
/// backend registered last under it, and only that one; an identifier that
/// no registration used finds nothing.
pub proof fn lemma_lookup_finds_latest(services: Seq<Arc<Service>>, id: Seq<char>)
    ensures
        registered_after(services).contains_key(id) <==> exists|i: int|
            0 <= i < services.len() && #[trigger] services[i].spec_id() == id,
        forall|i: int|
            0 <= i < services.len() && #[trigger] services[i].spec_id() == id && (forall|j: int|
                i < j < services.len() ==> #[trigger] services[j].spec_id() != id)
                ==> registered_after(services)[id] == services[i],
    decreases services.len(),
{
    if services.len() > 0 {
        let init = services.drop_last();
        let n = services.len() - 1;
        lemma_lookup_finds_latest(init, id);
        assert forall|i: int| 0 <= i < n implies #[trigger] services[i] == init[i] by {}
        if registered_after(services).contains_key(id) && services.last().spec_id() != id {
            let i = choose|i: int| 0 <= i < init.len() && #[trigger] init[i].spec_id() == id;
            assert(services[i].spec_id() == id);
        }
        if exists|i: int| 0 <= i < services.len() && #[trigger] services[i].spec_id() == id {
            let i = choose|i: int| 0 <= i < services.len() && #[trigger] services[i].spec_id() == id;
            if i < n {
                assert(init[i].spec_id() == id);
            }
        }
        assert forall|i: int|
            0 <= i < services.len() && #[trigger] services[i].spec_id() == id && (forall|j: int|
                i < j < services.len() ==> #[trigger] services[j].spec_id() != id)
                implies registered_after(services)[id] == services[i] by {
            if i < n {
                assert(services[n].spec_id() != id);
                assert forall|j: int| i < j < init.len() implies #[trigger] init[j].spec_id() != id by {
                    assert(services[j].spec_id() != id);
                }
                assert(init[i].spec_id() == id);
            }
        }
    }
}

} // verus!
