//! Bilibili API Client with cookie management and WBI signing.
//!
//! The client keeps the state that shapes its requests (the session cookie
//! and the WBI signing keys), says where each request goes and with which
//! parameters, and turns each reply into what the pages use. Sending the
//! requests is left to the caller.

use vstd::prelude::*;
use crate::api::models::{
    CommentData, DynamicFeedData, QrcodeData, RecommendData, RelatedVideoItem, SearchData, VideoInfo,
    VideoItem,
};
use crate::api::actions::params_view;
use crate::storage::{Credentials, opt_view};
use crate::text::{decimal, i32_to_decimal, i64_to_decimal};

verus! {

/// The browser identity sent with every request.
pub open spec fn user_agent() -> Seq<char> {
    "Mozilla/5.0 (Windows NT 10.0; Win64; x64) AppleWebKit/537.36 (KHTML, like Gecko) Chrome/120.0.0.0 Safari/537.36"@
}

pub enum BilibiliApiDomain {
    Main,
    Passport,
}

/// The origin of a domain.
pub open spec fn domain_origin(d: BilibiliApiDomain) -> Seq<char> {
    match d {
        BilibiliApiDomain::Main => "https://api.bilibili.com"@,
        BilibiliApiDomain::Passport => "https://passport.bilibili.com"@,
    }
}

impl BilibiliApiDomain {
    /// The origin of the domain.
    pub fn as_str(&self) -> (r: &'static str)
        ensures
            r@ == domain_origin(*self),
    {
        match self {
            BilibiliApiDomain::Main => "https://api.bilibili.com",
            BilibiliApiDomain::Passport => "https://passport.bilibili.com",
        }
    }
}

pub struct ApiResponse<T> {
    pub code: i32,
    pub message: String,
    pub ttl: Option<i32>,
    pub data: Option<T>,
}

/// WBI keys for signing requests
pub struct WbiKeys {
    pub img_key: String,
    pub sub_key: String,
}

/// Why a reply could not be used.
#[derive(Debug, PartialEq, Eq, Structural, Clone, Copy)]
pub enum ApiError {
    /// The navigation reply held no usable image key.
    ImgKeyMissing,
    /// The navigation reply held no usable sub key.
    SubKeyMissing,
    /// The QR code reply carried no data.
    NoQrcodeData,
    /// The video information reply carried no data.
    NoVideoInfoData,
    /// The navigation reply carried no data, so no signing keys.
    NoNavData,
}

/// The text shown for an error.
pub open spec fn api_error_text(e: ApiError) -> Seq<char> {
    match e {
        ApiError::ImgKeyMissing => "Failed to extract img_key"@,
        ApiError::SubKeyMissing => "Failed to extract sub_key"@,
        ApiError::NoQrcodeData => "No data in QR code response"@,
        ApiError::NoVideoInfoData => "No data in video info response"@,
        ApiError::NoNavData => "No data in nav response"@,
    }
}

impl ApiError {
    /// The text shown for this error.
    pub fn message(&self) -> (r: String)
        ensures
            r@ == api_error_text(*self),
    {
        match self {
            ApiError::ImgKeyMissing => String::from_str("Failed to extract img_key"),
            ApiError::SubKeyMissing => String::from_str("Failed to extract sub_key"),
            ApiError::NoQrcodeData => String::from_str("No data in QR code response"),
            ApiError::NoVideoInfoData => String::from_str("No data in video info response"),
            ApiError::NoNavData => String::from_str("No data in nav response"),
        }
    }
}

/// The `Cookie` header that authenticates requests as the given user.
pub open spec fn cookie_header_for(sessdata: Seq<char>, bili_jct: Seq<char>, uid: Seq<char>) -> Seq<char> {
    "SESSDATA="@ + sessdata + "; bili_jct="@ + bili_jct + "; DedeUserID="@ + uid
}

fn cookie_string(credentials: &Credentials) -> (r: String)
    ensures
        r@ == cookie_header_for(credentials.sessdata@, credentials.bili_jct@, credentials.dede_user_id@),
{
    let mut r = String::from_str("SESSDATA=");
    r.append(credentials.sessdata.as_str());
    r.append("; bili_jct=");
    r.append(credentials.bili_jct.as_str());
    r.append("; DedeUserID=");
    r.append(credentials.dede_user_id.as_str());
    r
}


/// The request state of the client: the cookie header sent with every
/// request, once credentials are set, and the WBI signing keys, once
/// fetched.
pub struct ApiClient {
    cookies: Option<String>,
    wbi_keys: Option<WbiKeys>,
}

/// What the client holds: the cookie header, and the image and sub keys.
pub struct ApiClientView {
    pub cookies: Option<Seq<char>>,
    pub wbi_keys: Option<(Seq<char>, Seq<char>)>,
}

impl View for ApiClient {
    type V = ApiClientView;

    closed spec fn view(&self) -> ApiClientView {
        ApiClientView {
            cookies: opt_view(self.cookies),
            wbi_keys: match self.wbi_keys {
                Some(k) => Some((k.img_key@, k.sub_key@)),
                None => None,
            },
        }
    }
}

impl ApiClient {
    /// A client without credentials or signing keys.
    pub fn new() -> (r: Self)
        ensures
            r@.cookies is None,
            r@.wbi_keys is None,
    {
        ApiClient { cookies: None, wbi_keys: None }
    }

    /// A client whose requests carry the cookies of `credentials`.
    pub fn with_cookies(credentials: &Credentials) -> (r: Self)
        ensures
            r@.cookies == Some(
                cookie_header_for(credentials.sessdata@, credentials.bili_jct@, credentials.dede_user_id@),
            ),
            r@.wbi_keys is None,
    {
        let mut client = Self::new();
        client.set_credentials(credentials);
        client
    }

    /// The headers every request carries: the browser identity and the
    /// site as referer, as (name, value) pairs.
    pub fn default_headers() -> (r: Vec<(String, String)>)
        ensures
            r@.len() == 2,
            r@[0].0@ == "user-agent"@,
            r@[0].1@ == user_agent(),
            r@[1].0@ == "referer"@,
            r@[1].1@ == "https://www.bilibili.com/"@,
    {
        let mut headers: Vec<(String, String)> = Vec::new();
        headers.push(
            (
                String::from_str("user-agent"),
                String::from_str(
                    "Mozilla/5.0 (Windows NT 10.0; Win64; x64) AppleWebKit/537.36 (KHTML, like Gecko) Chrome/120.0.0.0 Safari/537.36",
                ),
            ),
        );
        headers.push((String::from_str("referer"), String::from_str("https://www.bilibili.com/")));
        headers
    }

    /// Authenticates later requests with the given credentials.
    pub fn set_credentials(&mut self, credentials: &Credentials)
        ensures
            final(self)@.cookies == Some(
                cookie_header_for(credentials.sessdata@, credentials.bili_jct@, credentials.dede_user_id@),
            ),
            final(self)@.wbi_keys == old(self)@.wbi_keys,
    {
        self.cookies = Some(cookie_string(credentials));
    }

    /// The `Cookie` header to send, if credentials are set.
    pub fn cookie_header(&self) -> (r: Option<String>)
        ensures
            opt_view(r) == self@.cookies,
    {
        match &self.cookies {
            Some(c) => Some(c.clone()),
            None => None,
        }
    }

    /// The address of `endpoint` on `domain`.
    pub fn build_url(&self, domain: BilibiliApiDomain, endpoint: &str) -> (r: String)
        ensures
            r@ == domain_origin(domain) + endpoint@,
    {
        let mut r = String::from_str(domain.as_str());
        r.append(endpoint);
        r
    }
}


/// `start..end` delimits the signing key in the image address `url`: the
/// file name after the last `/`, up to its first `.`.
pub open spec fn is_url_key(url: Seq<char>, start: int, end: int) -> bool {
    &&& 0 <= start <= end <= url.len()
    &&& (start == 0 || url[start - 1] == '/')
    &&& forall|j: int| start <= j < url.len() ==> url[j] != '/'
    &&& forall|j: int| start <= j < end ==> url[j] != '.'
    &&& (end == url.len() || url[end] == '.')
}

/// The signing key carried by a WBI image address (the name of the image
/// file, without its extension), or nothing when that name is empty.
pub fn wbi_key_from_url(url: &str) -> (r: Option<String>)
    ensures
        exists|start: int, end: int| {
            &&& #[trigger] is_url_key(url@, start, end)
            &&& (r is None <==> start == end)
            &&& (r matches Some(k) ==> k@ == url@.subrange(start, end))
        },
{
    let n = url.unicode_len();
    let mut start: usize = n;
    while start > 0 && url.get_char(start - 1) != '/'
        invariant
            start <= n,
            n == url@.len(),
            forall|j: int| start <= j < n ==> url@[j] != '/',
        decreases start,
    {
        start = start - 1;
    }
    let mut end: usize = start;
    while end < n && url.get_char(end) != '.'
        invariant
            start <= end <= n,
            n == url@.len(),
            forall|j: int| start <= j < end ==> url@[j] != '.',
        decreases n - end,
    {
        end = end + 1;
    }
    assert(is_url_key(url@, start as int, end as int));
    if start == end {
        None
    } else {
        let key = url.substring_char(start, end);
        Some(String::from_str(key))
    }
}

/// The query of the address that `url::Url::parse_with_params` makes of
/// `url` and `params`: nothing where `url` is no absolute address.
pub uninterp spec fn encoded_query(url: Seq<char>, params: Seq<(Seq<char>, Seq<char>)>) -> Option<Seq<char>>;

/// `reqwest::Url::parse_with_params` (the `url` crate's `Url`) on `url` and
/// `params`, keeping the query of the address it gives: the parameters
/// form-urlencoded, in order, after any query `url` had. The contract only
/// names the result, which depends on the two arguments alone; a parse error
/// gives nothing.
#[verifier::external_body]
fn encode_query(url: &str, params: &Vec<(&'static str, String)>) -> (r: Option<String>)
    ensures
        opt_view(r) == encoded_query(url@, params_view(params@)),
{
    match reqwest::Url::parse_with_params(url, params.iter()) {
        Ok(u) => u.query().map(String::from),
        Err(_) => None,
    }
}

/// The WBI keys the navigation reply yields: nothing when the reply
/// carried no data, else the image key and the sub key as far as they could
/// be read from their URLs.
pub type NavKeys = Option<(Option<String>, Option<String>)>;

impl ApiClient {
    /// Whether the signing keys still have to be fetched before a signed
    /// request can go out.
    pub fn needs_wbi_keys(&self) -> (r: bool)
        ensures
            r == (self@.wbi_keys is None),
    {
        self.wbi_keys.is_none()
    }

    /// The signing keys, once fetched.
    pub fn signing_keys(&self) -> (r: Option<&WbiKeys>)
        ensures
            match r {
                Some(k) => self@.wbi_keys == Some((k.img_key@, k.sub_key@)),
                None => self@.wbi_keys is None,
            },
    {
        self.wbi_keys.as_ref()
    }

    /// Takes in the keys read from the navigation reply. A reply without
    /// data, or whose image key or sub key could not be read, is an error
    /// and stores nothing, so that no signed request goes out without keys;
    /// otherwise both keys are stored.
    pub fn accept_nav_keys(&mut self, keys: NavKeys) -> (r: Result<(), ApiError>)
        ensures
            final(self)@.cookies == old(self)@.cookies,
            match keys {
                None => r == Err::<(), ApiError>(ApiError::NoNavData) && final(self)@ == old(self)@,
                Some((None, _)) => r == Err::<(), ApiError>(ApiError::ImgKeyMissing) && final(self)@ == old(self)@,
                Some((Some(_), None)) => r == Err::<(), ApiError>(ApiError::SubKeyMissing) && final(self)@ == old(self)@,
                Some((Some(img), Some(sub))) => r == Ok::<(), ApiError>(()) && final(self)@.wbi_keys == Some((img@, sub@)),
            },
    {
        match keys {
            None => Err(ApiError::NoNavData),
            Some((None, _)) => Err(ApiError::ImgKeyMissing),
            Some((Some(_), None)) => Err(ApiError::SubKeyMissing),
            Some((Some(img_key), Some(sub_key))) => {
                self.wbi_keys = Some(WbiKeys { img_key, sub_key });
                Ok(())
            },
        }
    }

    /// The address of a request with a query: the endpoint, `?`, then the
    /// query.
    pub fn url_with_query(base_url: &str, query: &str) -> (r: String)
        ensures
            r@ == base_url@ + "?"@ + query@,
    {
        let mut r = String::from_str(base_url);
        r.append("?");
        r.append(query);
        r
    }

    /// The address of a request to the WBI endpoint `base` with the
    /// parameters `params`, once the signing keys are there: the endpoint,
    /// `?`, then the parameters as `reqwest::Url` encodes them. Nothing
    /// without the keys, or where the endpoint could not be parsed.
    pub fn wbi_request_url(&self, base: &str, params: &Vec<(&'static str, String)>) -> (r: Option<String>)
        ensures
            opt_view(r) == if self@.wbi_keys is None {
                None
            } else {
                match encoded_query(base@, params_view(params@)) {
                    Some(q) => Some(base@ + "?"@ + q),
                    None => None,
                }
            },
    {
        if self.wbi_keys.is_none() {
            return None;
        }
        match encode_query(base, params) {
            Some(q) => Some(Self::url_with_query(base, q.as_str())),
            None => None,
        }
    }

    /// The navigation endpoint, which hands out the signing keys.
    pub fn nav_url(&self) -> (r: String)
        ensures
            r@ == "https://api.bilibili.com"@ + "/x/web-interface/nav"@,
    {
        self.build_url(BilibiliApiDomain::Main, "/x/web-interface/nav")
    }

    /// The endpoint that issues a login QR code.
    pub fn qrcode_generate_url(&self) -> (r: String)
        ensures
            r@ == "https://passport.bilibili.com"@ + "/x/passport-login/web/qrcode/generate"@,
    {
        self.build_url(BilibiliApiDomain::Passport, "/x/passport-login/web/qrcode/generate")
    }

    /// The endpoint that reports on the login QR code `qrcode_key`.
    pub fn qrcode_poll_url(qrcode_key: &str) -> (r: String)
        ensures
            r@ == "https://passport.bilibili.com"@ + "/x/passport-login/web/qrcode/poll?qrcode_key="@
                + qrcode_key@,
    {
        let mut r = String::from_str(BilibiliApiDomain::Passport.as_str());
        r.append("/x/passport-login/web/qrcode/poll?qrcode_key=");
        r.append(qrcode_key);
        r
    }

    /// The signed recommendation feed endpoint.
    pub fn recommend_url(&self) -> (r: String)
        ensures
            r@ == "https://api.bilibili.com"@ + "/x/web-interface/wbi/index/top/feed/rcmd"@,
    {
        self.build_url(BilibiliApiDomain::Main, "/x/web-interface/wbi/index/top/feed/rcmd")
    }

    /// The parameters of the recommendation request for the feed page
    /// `fresh_idx` (page 1 is the first load).
    pub fn recommendation_params(fresh_idx: i32) -> (r: Vec<(&'static str, String)>)
        ensures
            r@.len() == 4,
            r@[0].0@ == "fresh_type"@ && r@[0].1@ == "4"@,
            r@[1].0@ == "ps"@ && r@[1].1@ == "20"@,
            r@[2].0@ == "fresh_idx"@ && r@[2].1@ == decimal(fresh_idx as int),
            r@[3].0@ == "fresh_idx_1h"@ && r@[3].1@ == decimal(fresh_idx as int),
    {
        let mut params: Vec<(&'static str, String)> = Vec::new();
        params.push(("fresh_type", String::from_str("4")));
        params.push(("ps", String::from_str("20")));
        params.push(("fresh_idx", i32_to_decimal(fresh_idx)));
        params.push(("fresh_idx_1h", i32_to_decimal(fresh_idx)));
        params
    }

    /// The endpoint with the details of video `bvid`.
    pub fn video_info_url(bvid: &str) -> (r: String)
        ensures
            r@ == "https://api.bilibili.com"@ + "/x/web-interface/view?bvid="@ + bvid@,
    {
        let mut r = String::from_str(BilibiliApiDomain::Main.as_str());
        r.append("/x/web-interface/view?bvid=");
        r.append(bvid);
        r
    }

    /// The signed video search endpoint.
    pub fn search_url(&self) -> (r: String)
        ensures
            r@ == "https://api.bilibili.com"@ + "/x/web-interface/wbi/search/type"@,
    {
        self.build_url(BilibiliApiDomain::Main, "/x/web-interface/wbi/search/type")
    }

    /// The parameters of a video search for `keyword`, result page `page`,
    /// ranked by overall relevance.
    pub fn search_params(keyword: &str, page: i32) -> (r: Vec<(&'static str, String)>)
        ensures
            r@.len() == 4,
            r@[0].0@ == "search_type"@ && r@[0].1@ == "video"@,
            r@[1].0@ == "keyword"@ && r@[1].1@ == keyword@,
            r@[2].0@ == "page"@ && r@[2].1@ == decimal(page as int),
            r@[3].0@ == "order"@ && r@[3].1@ == "totalrank"@,
    {
        let mut params: Vec<(&'static str, String)> = Vec::new();
        params.push(("search_type", String::from_str("video")));
        params.push(("keyword", String::from_str(keyword)));
        params.push(("page", i32_to_decimal(page)));
        params.push(("order", String::from_str("totalrank")));
        params
    }

    /// The video feed of followed uploaders, continued after `offset` when
    /// one is given.
    pub fn dynamic_feed_url(offset: Option<&str>) -> (r: String)
        ensures
            r@ == "https://api.bilibili.com"@ + "/x/polymer/web-dynamic/v1/feed/all?type=video"@ + match offset {
                Some(off) => "&offset="@ + off@,
                None => Seq::<char>::empty(),
            },
    {
        let mut r = String::from_str(BilibiliApiDomain::Main.as_str());
        r.append("/x/polymer/web-dynamic/v1/feed/all?type=video");
        match offset {
            Some(off) => {
                r.append("&offset=");
                r.append(off);
                r
            },
            None => {
                assert(r@ =~= r@ + Seq::<char>::empty());
                r
            },
        }
    }

    /// Page `pn` of the comments under video `oid`, twenty per page, hottest
    /// first.
    pub fn comments_url(oid: i64, pn: i32) -> (r: String)
        ensures
            r@ == "https://api.bilibili.com"@ + "/x/v2/reply?type=1&oid="@ + decimal(oid as int)
                + "&sort=1&ps=20&pn="@ + decimal(pn as int),
    {
        let mut r = String::from_str(BilibiliApiDomain::Main.as_str());
        r.append("/x/v2/reply?type=1&oid=");
        r.append(i64_to_decimal(oid).as_str());
        r.append("&sort=1&ps=20&pn=");
        r.append(i32_to_decimal(pn).as_str());
        r
    }

    /// The videos related to video `bvid`.
    pub fn related_videos_url(bvid: &str) -> (r: String)
        ensures
            r@ == "https://api.bilibili.com"@ + "/x/web-interface/archive/related?bvid="@ + bvid@,
    {
        let mut r = String::from_str(BilibiliApiDomain::Main.as_str());
        r.append("/x/web-interface/archive/related?bvid=");
        r.append(bvid);
        r
    }
}


/// The videos of a feed that can be opened: those with a BV id, in order.
pub open spec fn playable(items: Seq<VideoItem>) -> Seq<VideoItem>
    decreases items.len(),
{
    if items.len() == 0 {
        Seq::empty()
    } else if items.last().bvid is Some {
        playable(items.drop_last()).push(items.last())
    } else {
        playable(items.drop_last())
    }
}

/// The data of a reply, or `err` when it carries none.
pub fn data_or<T>(resp: ApiResponse<T>, err: ApiError) -> (r: Result<T, ApiError>)
    ensures
        match resp.data {
            Some(d) => r == Ok::<T, ApiError>(d),
            None => r == Err::<T, ApiError>(err),
        },
{
    match resp.data {
        Some(d) => Ok(d),
        None => Err(err),
    }
}

/// The QR code of a QR code reply.
pub fn qrcode_from_reply(resp: ApiResponse<QrcodeData>) -> (r: Result<QrcodeData, ApiError>)
    ensures
        match resp.data {
            Some(d) => r == Ok::<QrcodeData, ApiError>(d),
            None => r == Err::<QrcodeData, ApiError>(ApiError::NoQrcodeData),
        },
{
    data_or(resp, ApiError::NoQrcodeData)
}

/// The details of a video information reply.
pub fn video_info_from_reply(resp: ApiResponse<VideoInfo>) -> (r: Result<VideoInfo, ApiError>)
    ensures
        match resp.data {
            Some(d) => r == Ok::<VideoInfo, ApiError>(d),
            None => r == Err::<VideoInfo, ApiError>(ApiError::NoVideoInfoData),
        },
{
    data_or(resp, ApiError::NoVideoInfoData)
}

/// The openable videos of a recommendation reply; none when it carries no
/// data.
pub fn recommended_videos(resp: ApiResponse<RecommendData>) -> (r: Vec<VideoItem>)
    ensures
        match resp.data {
            Some(d) => r@ == playable(d.item@),
            None => r@.len() == 0,
        },
{
    match resp.data {
        Some(d) => {
            let mut out: Vec<VideoItem> = Vec::new();
            let ghost items = d.item@;
            for v in it: d.item
                invariant
                    items == it.seq(),
                    out@ == playable(items.take(it.index() as int)),
            {
                assert(items.take(it.index() + 1).drop_last() =~= items.take(it.index() as int));
                if v.bvid.is_some() {
                    out.push(v);
                }
            }
            assert(items.take(items.len() as int) =~= items);
            out
        },
        None => Vec::new(),
    }
}

/// The search page of a reply; when the reply carries no data, an empty
/// page `page` of twenty results with no result list.
pub fn search_data_or_empty(resp: ApiResponse<SearchData>, page: i32) -> (r: SearchData)
    ensures
        match resp.data {
            Some(d) => r == d,
            None => r.result is None && r.num_results == Some(0i32) && r.page == Some(page)
                && r.pagesize == Some(20i32),
        },
{
    match resp.data {
        Some(d) => d,
        None => SearchData { result: None, num_results: Some(0), page: Some(page), pagesize: Some(20) },
    }
}

/// The feed page of a reply; when the reply carries no data, an empty page
/// with nothing more to load.
pub fn dynamic_feed_or_empty(resp: ApiResponse<DynamicFeedData>) -> (r: DynamicFeedData)
    ensures
        match resp.data {
            Some(d) => r == d,
            None => r.items is None && r.offset is None && r.has_more == Some(false)
                && r.update_num == Some(0i32),
        },
{
    match resp.data {
        Some(d) => d,
        None => DynamicFeedData { items: None, offset: None, has_more: Some(false), update_num: Some(0) },
    }
}

/// The comment page of a reply; when the reply carries no data, a page
/// without paging, comments or hot comments.
pub fn comments_or_empty(resp: ApiResponse<CommentData>) -> (r: CommentData)
    ensures
        match resp.data {
            Some(d) => r == d,
            None => r.page is None && r.replies is None && r.hots is None,
        },
{
    match resp.data {
        Some(d) => d,
        None => CommentData { page: None, replies: None, hots: None },
    }
}

/// The related videos of a reply; none when it carries no data.
pub fn related_or_empty(resp: ApiResponse<Vec<RelatedVideoItem>>) -> (r: Vec<RelatedVideoItem>)
    ensures
        match resp.data {
            Some(d) => r == d,
            None => r@.len() == 0,
        },
{
    match resp.data {
        Some(d) => d,
        None => Vec::new(),
    }
}

impl Default for ApiClient {
    fn default() -> (r: Self)
        ensures
            r@.cookies is None,
            r@.wbi_keys is None,
    {
        Self::new()
    }
}

} // verus!
