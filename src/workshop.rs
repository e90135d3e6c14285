//! The client's configuration and the request for each Workshop operation.

use vstd::prelude::*;

use crate::decimal::{decimal_string, decimal_text, is_u64_text, parse_u64};
use crate::request::{
    endpoint, endpoint_url, pairs_view, push_pair, strings_view, HttpMethod, Request, RequestView,
};
use crate::search::{joined, join_strings, SearchOptions};

verus! {

/// Host of the official Web API.
pub const DEFAULT_DOMAIN: &'static str = "api.steampowered.com";

/// The `User-Agent` every request carries.
pub const USER_AGENT: &'static str = "rs-steamwebapi/v0.5.0";

pub const DETAILS_PATH: &'static str = "/ISteamRemoteStorage/GetPublishedFileDetails/v1/";

pub const COLLECTION_PATH: &'static str = "/ISteamRemoteStorage/GetCollectionDetails/v1/";

pub const QUERY_PATH: &'static str = "/IPublishedFileService/QueryFiles/v1/";

pub const CAN_SUBSCRIBE_PATH: &'static str = "/IPublishedFileService/CanSubscribe/v1/";

pub const SUBSCRIBE_PATH: &'static str = "/IPublishedFileService/Subscribe/v1/";

pub const UNSUBSCRIBE_PATH: &'static str = "/IPublishedFileService/Unsubscribe/v1/";

/// Start of the message of the error for an identifier that is not a `u64`.
pub const BAD_ID_MESSAGE: &'static str = "Item is not valid publishedfileid: ";

#[derive(Clone, Debug, PartialEq)]
pub enum Error {
    /// Request requires authorization either via an apikey, or using a domain proxy that uses their own key
    NotAuthorized,
    /// The transport or the remote service failed, or its answer could not be read.
    RequestError(String),
    /// Data supplied by the caller failed local validation.
    BadRequest(String),
}

pub open spec fn error_text(e: Error) -> Seq<char> {
    match e {
        Error::NotAuthorized => "Not authorized"@,
        Error::RequestError(m) => "Request Error: "@ + m@,
        Error::BadRequest(m) => "Incorrect request: "@ + m@,
    }
}

impl Error {
    /// A one-line description of the error.
    pub fn to_string(&self) -> (r: String)
        ensures
            r@ == error_text(*self),
    {
        match self {
            Error::NotAuthorized => String::from_str("Not authorized"),
            Error::RequestError(m) => {
                let mut r = String::from_str("Request Error: ");
                r.append(m.as_str());
                r
            },
            Error::BadRequest(m) => {
                let mut r = String::from_str("Incorrect request: ");
                r.append(m.as_str());
                r
            },
        }
    }
}

/// The configuration of a client: its key, the host it talks to, and the
/// user agent it announces.
pub struct WorkshopConfig {
    pub apikey: Option<Seq<char>>,
    pub domain: Seq<char>,
    pub user_agent: Seq<char>,
}

pub open spec fn opt_view(o: Option<String>) -> Option<Seq<char>> {
    match o {
        Some(s) => Some(s@),
        None => None,
    }
}

/// Searches and subscriptions need a key, or a proxy that supplies its own.
pub open spec fn is_authorized(c: WorkshopConfig) -> bool {
    c.apikey is Some || c.domain != DEFAULT_DOMAIN@
}

/// The key sent with a request; empty when the client has none.
pub open spec fn key_text(c: WorkshopConfig) -> Seq<char> {
    match c.apikey {
        Some(k) => k,
        None => Seq::empty(),
    }
}

pub open spec fn agent_headers(c: WorkshopConfig) -> Seq<(Seq<char>, Seq<char>)> {
    seq![("User-Agent"@, c.user_agent)]
}

/// Name of the form field that carries the `i`-th identifier.
pub open spec fn id_field(i: nat) -> Seq<char> {
    "publishedfileids["@ + decimal_text(i) + "]"@
}

/// One field per identifier, each named by its position.
pub open spec fn id_params(ids: Seq<Seq<char>>) -> Seq<(Seq<char>, Seq<char>)> {
    Seq::new(ids.len(), |i: int| (id_field(i as nat), ids[i]))
}

pub open spec fn details_params(ids: Seq<Seq<char>>) -> Seq<(Seq<char>, Seq<char>)> {
    seq![("itemcount"@, decimal_text(ids.len()))] + id_params(ids)
}

pub open spec fn details_request(c: WorkshopConfig, ids: Seq<Seq<char>>) -> RequestView {
    RequestView {
        method: HttpMethod::Post,
        url: endpoint(c.domain, DETAILS_PATH@),
        headers: agent_headers(c),
        params: details_params(ids),
    }
}

/// Index of the first identifier in `ids` that is not a `u64`.
pub open spec fn is_first_bad_id(ids: Seq<Seq<char>>, i: int) -> bool {
    &&& 0 <= i < ids.len()
    &&& !is_u64_text(ids[i])
    &&& forall|j: int| 0 <= j < i ==> is_u64_text(#[trigger] ids[j])
}

pub open spec fn collection_request(c: WorkshopConfig, fileid: Seq<char>) -> RequestView {
    RequestView {
        method: HttpMethod::Post,
        url: endpoint(c.domain, COLLECTION_PATH@),
        headers: agent_headers(c),
        params: seq![("collectioncount"@, "1"@), ("publishedfileids[0]"@, fileid)],
    }
}

/// The tags of an optional tag list, each as text.
pub open spec fn tag_texts(tags: Vec<String>) -> Seq<Seq<char>> {
    strings_view(tags@)
}

pub open spec fn search_params(c: WorkshopConfig, query: Seq<char>, o: SearchOptions) -> Seq<
    (Seq<char>, Seq<char>),
> {
    let app = decimal_text(o.app_id as nat);
    let base = seq![
        ("page"@, "1"@),
        ("numperpage"@, decimal_text(o.count as nat)),
        ("cursor"@, match o.cursor {
            Some(cur) => cur@,
            None => "*"@,
        }),
        ("search_text"@, query),
        ("appid"@, app),
        ("creator_appid"@, app),
        ("return_metadata"@, "1"@),
        ("key"@, key_text(c)),
    ];
    let required = match o.required_tags {
        Some(t) => seq![
            ("requiredtags"@, joined(tag_texts(t.tags), ","@)),
            ("match_all_tags"@, if t.require_all {
                "1"@
            } else {
                "0"@
            }),
        ],
        None => Seq::empty(),
    };
    let excluded = match o.excluded_tags {
        Some(t) => seq![("excludedtags"@, joined(tag_texts(t), ","@))],
        None => Seq::empty(),
    };
    base + required + excluded
}

pub open spec fn search_request(c: WorkshopConfig, query: Seq<char>, o: SearchOptions) -> RequestView {
    RequestView {
        method: HttpMethod::Get,
        url: endpoint(c.domain, QUERY_PATH@),
        headers: agent_headers(c).push(("Content-Type"@, "application/x-www-form-urlencoded"@)),
        params: search_params(c, query, o),
    }
}

/// The subscription check always goes to the official host.
pub open spec fn can_subscribe_request(key: Seq<char>, fileid: Seq<char>, c: WorkshopConfig) -> RequestView {
    RequestView {
        method: HttpMethod::Get,
        url: endpoint(DEFAULT_DOMAIN@, CAN_SUBSCRIBE_PATH@),
        headers: agent_headers(c),
        params: seq![("key"@, key), ("publishedfileid"@, fileid)],
    }
}

pub open spec fn subscribe_request(c: WorkshopConfig, fileid: Seq<char>, notify_client: bool) -> RequestView {
    RequestView {
        method: HttpMethod::Post,
        url: endpoint(c.domain, SUBSCRIBE_PATH@),
        headers: agent_headers(c),
        params: seq![
            ("key"@, key_text(c)),
            ("publishedfileid"@, fileid),
            ("list_type"@, "1"@),
            ("notify_client"@, if notify_client {
                "1"@
            } else {
                "0"@
            }),
        ],
    }
}

pub open spec fn unsubscribe_request(c: WorkshopConfig, fileid: Seq<char>) -> RequestView {
    RequestView {
        method: HttpMethod::Post,
        url: endpoint(c.domain, UNSUBSCRIBE_PATH@),
        headers: agent_headers(c),
        params: seq![("key"@, key_text(c)), ("publishedfileid"@, fileid), ("list_type"@, "1"@)],
    }
}

#[derive(Clone, Debug)]
pub struct SteamWorkshop {
    apikey: Option<String>,
    request_domain: String,
    user_agent: String,
}

impl View for SteamWorkshop {
    type V = WorkshopConfig;

    closed spec fn view(&self) -> WorkshopConfig {
        WorkshopConfig {
            apikey: opt_view(self.apikey),
            domain: self.request_domain@,
            user_agent: self.user_agent@,
        }
    }
}

impl SteamWorkshop {
    /// A client without a key that talks to the official host.
    pub fn new() -> (r: SteamWorkshop)
        ensures
            r@.apikey is None,
            r@.domain == DEFAULT_DOMAIN@,
            r@.user_agent == USER_AGENT@,
    {
        SteamWorkshop {
            apikey: None,
            request_domain: String::from_str(DEFAULT_DOMAIN),
            user_agent: String::from_str(USER_AGENT),
        }
    }

    /// Sets or clears the key that authorized methods send.
    /// Get api keys from https://steamcommunity.com/dev/apikey
    pub fn set_apikey(&mut self, apikey: Option<String>)
        ensures
            final(self)@.apikey == opt_view(apikey),
            final(self)@.domain == old(self)@.domain,
            final(self)@.user_agent == old(self)@.user_agent,
    {
        self.apikey = apikey;
    }

    /// Sends later requests to `proxy_domain`, or back to the official host
    /// when it is `None`.
    pub fn set_proxy_domain(&mut self, proxy_domain: Option<String>)
        ensures
            final(self)@.domain == (match proxy_domain {
                Some(d) => d@,
                None => DEFAULT_DOMAIN@,
            }),
            final(self)@.apikey == old(self)@.apikey,
            final(self)@.user_agent == old(self)@.user_agent,
    {
        self.request_domain = match proxy_domain {
            Some(d) => d,
            None => String::from_str(DEFAULT_DOMAIN),
        };
    }

    pub fn apikey(&self) -> (r: Option<&String>)
        ensures
            match r {
                Some(k) => self@.apikey == Some(k@),
                None => self@.apikey is None,
            },
    {
        match &self.apikey {
            Some(k) => Some(k),
            None => None,
        }
    }

    pub fn request_domain(&self) -> (r: &str)
        ensures
            r@ == self@.domain,
    {
        self.request_domain.as_str()
    }

    fn agent_headers(&self) -> (r: Vec<(String, String)>)
        ensures
            pairs_view(r@) == agent_headers(self@),
    {
        let mut headers: Vec<(String, String)> = Vec::new();
        push_pair(&mut headers, "User-Agent", self.user_agent.clone());
        assert(pairs_view(headers@) =~= agent_headers(self@));
        headers
    }

    fn is_authorized(&self) -> (r: bool)
        ensures
            r == is_authorized(self@),
    {
        let default = String::from_str(DEFAULT_DOMAIN);
        self.apikey.is_some() || !(self.request_domain == default)
    }

    fn key_text(&self) -> (r: String)
        ensures
            r@ == key_text(self@),
    {
        match &self.apikey {
            Some(k) => k.clone(),
            None => String::new(),
        }
    }

    /// The detail lookup for `fileids`. Fails with `BadRequest`, naming the
    /// first identifier that is not a `u64`, when there is one.
    pub fn published_file_details_request(&self, fileids: &[String]) -> (r: Result<
        Request,
        Error,
    >)
        ensures
            r is Ok <==> forall|i: int|
                0 <= i < fileids@.len() ==> is_u64_text(#[trigger] fileids@[i]@),
            r matches Ok(req) ==> req@ == details_request(self@, strings_view(fileids@)),
            r matches Err(e) ==> exists|i: int|
                is_first_bad_id(strings_view(fileids@), i) && (e matches Error::BadRequest(m)
                    && m@ == BAD_ID_MESSAGE@ + fileids@[i]@),
    {
        let ghost ids = strings_view(fileids@);
        assert(ids.len() == fileids@.len());
        let mut params: Vec<(String, String)> = Vec::new();
        push_pair(&mut params, "itemcount", decimal_string(fileids.len() as u64));
        let mut i: usize = 0;
        while i < fileids.len()
            invariant
                i <= fileids@.len(),
                ids == strings_view(fileids@),
                forall|j: int| 0 <= j < i ==> is_u64_text(#[trigger] ids[j]),
                pairs_view(params@) == seq![("itemcount"@, decimal_text(ids.len()))] + id_params(
                    ids.take(i as int),
                ),
            decreases fileids@.len() - i,
        {
            let id = &fileids[i];
            if parse_u64(id.as_str()).is_none() {
                let mut m = String::from_str(BAD_ID_MESSAGE);
                m.append(id.as_str());
                assert(ids[i as int] == fileids@[i as int]@);
                assert(is_first_bad_id(ids, i as int));
                return Err(Error::BadRequest(m));
            }
            let mut name = String::from_str("publishedfileids[");
            name.append(decimal_string(i as u64).as_str());
            name.append("]");
            let ghost before = pairs_view(params@);
            push_pair(&mut params, name.as_str(), id.clone());
            proof {
                assert(id_params(ids.take(i + 1)) =~= id_params(ids.take(i as int)).push(
                    (id_field(i as nat), ids[i as int]),
                ));
                assert(pairs_view(params@) =~= seq![("itemcount"@, decimal_text(ids.len()))]
                    + id_params(ids.take(i + 1)));
            }
            i = i + 1;
        }
        assert(ids.take(i as int) =~= ids);
        assert forall|k: int| 0 <= k < fileids@.len() implies is_u64_text(#[trigger] fileids@[k]@) by {
            assert(ids[k] == fileids@[k]@);
        }
        Ok(Request {
            method: HttpMethod::Post,
            url: endpoint_url(self.request_domain.as_str(), DETAILS_PATH),
            headers: self.agent_headers(),
            params,
        })
    }

    /// The lookup of the children of the collection `fileid`.
    pub fn collection_details_request(&self, fileid: &str) -> (r: Request)
        ensures
            r@ == collection_request(self@, fileid@),
    {
        let mut params: Vec<(String, String)> = Vec::new();
        push_pair(&mut params, "collectioncount", String::from_str("1"));
        push_pair(&mut params, "publishedfileids[0]", String::from_str(fileid));
        assert(pairs_view(params@) =~= collection_request(self@, fileid@).params);
        Request {
            method: HttpMethod::Post,
            url: endpoint_url(self.request_domain.as_str(), COLLECTION_PATH),
            headers: self.agent_headers(),
            params,
        }
    }

    /// The search for `query` with `options`. Fails with `NotAuthorized`
    /// when the client has neither a key nor a proxy.
    pub fn search_request(&self, query: &str, options: &SearchOptions) -> (r: Result<Request, Error>)
        ensures
            r is Err <==> !is_authorized(self@),
            r matches Err(e) ==> e == Error::NotAuthorized,
            r matches Ok(req) ==> req@ == search_request(self@, query@, *options),
    {
        if !self.is_authorized() {
            return Err(Error::NotAuthorized);
        }
        let mut params: Vec<(String, String)> = Vec::new();
        push_pair(&mut params, "page", String::from_str("1"));
        push_pair(&mut params, "numperpage", decimal_string(options.count as u64));
        let cursor = match &options.cursor {
            Some(cur) => cur.clone(),
            None => String::from_str("*"),
        };
        push_pair(&mut params, "cursor", cursor);
        push_pair(&mut params, "search_text", String::from_str(query));
        push_pair(&mut params, "appid", decimal_string(options.app_id as u64));
        push_pair(&mut params, "creator_appid", decimal_string(options.app_id as u64));
        push_pair(&mut params, "return_metadata", String::from_str("1"));
        push_pair(&mut params, "key", self.key_text());
        match &options.required_tags {
            Some(t) => {
                push_pair(&mut params, "requiredtags", join_strings(&t.tags, ","));
                let all = if t.require_all {
                    String::from_str("1")
                } else {
                    String::from_str("0")
                };
                push_pair(&mut params, "match_all_tags", all);
            },
            None => {},
        }
        match &options.excluded_tags {
            Some(t) => {
                push_pair(&mut params, "excludedtags", join_strings(t, ","));
            },
            None => {},
        }
        let mut headers = self.agent_headers();
        push_pair(&mut headers, "Content-Type", String::from_str("application/x-www-form-urlencoded"));
        let req = Request {
            method: HttpMethod::Get,
            url: endpoint_url(self.request_domain.as_str(), QUERY_PATH),
            headers,
            params,
        };
        assert(req@.params =~= search_params(self@, query@, *options));
        Ok(req)
    }

    /// The check whether the key's owner may subscribe to `fileid`. Fails
    /// with `NotAuthorized` when the client has no key.
    pub fn can_subscribe_request(&self, fileid: &str) -> (r: Result<Request, Error>)
        ensures
            r is Err <==> self@.apikey is None,
            r matches Err(e) ==> e == Error::NotAuthorized,
            r matches Ok(req) ==> req@ == can_subscribe_request(self@.apikey->0, fileid@, self@),
    {
        match &self.apikey {
            None => Err(Error::NotAuthorized),
            Some(key) => {
                let mut params: Vec<(String, String)> = Vec::new();
                push_pair(&mut params, "key", key.clone());
                push_pair(&mut params, "publishedfileid", String::from_str(fileid));
                assert(pairs_view(params@) =~= seq![("key"@, key@), ("publishedfileid"@, fileid@)]);
                Ok(Request {
                    method: HttpMethod::Get,
                    url: endpoint_url(DEFAULT_DOMAIN, CAN_SUBSCRIBE_PATH),
                    headers: self.agent_headers(),
                    params,
                })
            },
        }
    }

    /// The subscription of the key's owner to `fileid`. Fails with
    /// `NotAuthorized` when the client has neither a key nor a proxy.
    pub fn subscribe_request(&self, fileid: &str, notify_client: bool) -> (r: Result<Request, Error>)
        ensures
            r is Err <==> !is_authorized(self@),
            r matches Err(e) ==> e == Error::NotAuthorized,
            r matches Ok(req) ==> req@ == subscribe_request(self@, fileid@, notify_client),
    {
        if !self.is_authorized() {
            return Err(Error::NotAuthorized);
        }
        let mut params: Vec<(String, String)> = Vec::new();
        push_pair(&mut params, "key", self.key_text());
        push_pair(&mut params, "publishedfileid", String::from_str(fileid));
        push_pair(&mut params, "list_type", String::from_str("1"));
        let notify = if notify_client {
            String::from_str("1")
        } else {
            String::from_str("0")
        };
        push_pair(&mut params, "notify_client", notify);
        assert(pairs_view(params@) =~= subscribe_request(self@, fileid@, notify_client).params);
        Ok(Request {
            method: HttpMethod::Post,
            url: endpoint_url(self.request_domain.as_str(), SUBSCRIBE_PATH),
            headers: self.agent_headers(),
            params,
        })
    }

    /// The removal of the key owner's subscription to `fileid`. Fails with
    /// `NotAuthorized` when the client has neither a key nor a proxy.
    pub fn unsubscribe_request(&self, fileid: &str) -> (r: Result<Request, Error>)
        ensures
            r is Err <==> !is_authorized(self@),
            r matches Err(e) ==> e == Error::NotAuthorized,
            r matches Ok(req) ==> req@ == unsubscribe_request(self@, fileid@),
    {
        if !self.is_authorized() {
            return Err(Error::NotAuthorized);
        }
        let mut params: Vec<(String, String)> = Vec::new();
        push_pair(&mut params, "key", self.key_text());
        push_pair(&mut params, "publishedfileid", String::from_str(fileid));
        push_pair(&mut params, "list_type", String::from_str("1"));
        assert(pairs_view(params@) =~= unsubscribe_request(self@, fileid@).params);
        Ok(Request {
            method: HttpMethod::Post,
            url: endpoint_url(self.request_domain.as_str(), UNSUBSCRIBE_PATH),
            headers: self.agent_headers(),
            params,
        })
    }
}

/// `name` ends in `.vpk`, the extension of Workshop package files.
pub open spec fn has_vpk_extension(name: Seq<char>) -> bool {
    name.len() >= 4 && name.subrange(name.len() - 4, name.len() as int) == ".vpk"@
}

/// Whether a file of this name is a Workshop package.
pub fn is_vpk_file_name(name: &str) -> (r: bool)
    ensures
        r == has_vpk_extension(name@),
{
    proof {
        reveal_strlit(".vpk");
    }
    let n: usize = name.unicode_len();
    if n < 4 {
        return false;
    }
    let r = name.get_char(n - 4) == '.' && name.get_char(n - 3) == 'v' && name.get_char(n - 2)
        == 'p' && name.get_char(n - 1) == 'k';
    let ghost tail = name@.subrange(n - 4, n as int);
    assert(r ==> tail =~= ".vpk"@);
    assert(tail == ".vpk"@ ==> tail[0] == '.' && tail[1] == 'v' && tail[2] == 'p' && tail[3] == 'k');
    r
}

} // verus!
