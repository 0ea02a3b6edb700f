use vstd::prelude::*;

use reqwest::{Client, RequestBuilder};

use crate::query::{latest_query, latest_query_of, price_query, price_query_of, PriceParams};

verus! {

#[verifier::external_type_specification]
#[verifier::external_body]
pub struct ExClient(Client);

#[verifier::external_type_specification]
#[verifier::external_body]
pub struct ExRequestBuilder(RequestBuilder);

/// Relies on reqwest::ClientBuilder::build, from Client::builder: builds one
/// connection-pooled transport with the default settings, or fails (as `None`) where the
/// process cannot set up a TLS backend or a resolver.
#[verifier::external_body]
fn new_transport() -> (r: Option<Client>) {
    Client::builder().build().ok()
}

/// A request being built, with what is known of it: the URL it was started on, the query
/// pairs appended since, in order, whether its method is GET, and the transport it goes on.
pub struct Request {
    builder: RequestBuilder,
    transport: Ghost<Client>,
    target: Ghost<Seq<char>>,
    pairs: Ghost<Seq<(Seq<char>, Seq<char>)>>,
    get: Ghost<bool>,
}

impl Request {
    /// The URL text the request was started on, before any query was appended.
    pub closed spec fn target(&self) -> Seq<char> {
        self.target@
    }

    /// The query pairs appended to the request, in order, repeated keys kept.
    pub closed spec fn query(&self) -> Seq<(Seq<char>, Seq<char>)> {
        self.pairs@
    }

    /// Whether the request's method is GET.
    pub closed spec fn is_get(&self) -> bool {
        self.get@
    }

    /// The transport the request was started on.
    pub closed spec fn transport(&self) -> Client {
        self.transport@
    }

    /// The builder to send.
    pub fn into_builder(self) -> RequestBuilder {
        self.builder
    }
}

/// Relies on reqwest::Client::get: starts a GET request on `client` to `url` with no query
/// yet; a URL
/// that does not parse is kept as an error inside the builder and surfaces when it is sent.
#[verifier::external_body]
fn get_request(client: &Client, url: &str) -> (r: Request)
    ensures
        r.target() == url@,
        r.query() == Seq::<(Seq<char>, Seq<char>)>::empty(),
        r.is_get(),
        r.transport() == *client,
{
    Request {
        builder: client.get(url),
        transport: Ghost(*client),
        target: Ghost(url@),
        pairs: Ghost(Seq::empty()),
        get: Ghost(true),
    }
}

/// Relies on reqwest::RequestBuilder::query: appends `pairs` to the query string, in
/// order, keeping repeated keys; the URL, the method and the transport stay as they were.
#[verifier::external_body]
fn with_query(req: Request, pairs: &Vec<(String, String)>) -> (r: Request)
    ensures
        r.target() == req.target(),
        r.query() == req.query() + pairs.deep_view(),
        r.is_get() == req.is_get(),
        r.transport() == req.transport(),
{
    Request {
        builder: req.builder.query(pairs),
        transport: Ghost(req.transport@),
        target: Ghost(req.target@),
        pairs: Ghost(req.pairs@ + pairs.deep_view()),
        get: Ghost(req.get@),
    }
}

/// The route of a historical lookup, relative to the base URL.
pub const PRICE_ROUTE: &'static str = "updates/price/";

/// The route of a latest lookup, relative to the base URL.
pub const LATEST_ROUTE: &'static str = "updates/price/latest";

/// The historical route, as characters.
pub open spec fn price_route() -> Seq<char> {
    seq!['u', 'p', 'd', 'a', 't', 'e', 's', '/', 'p', 'r', 'i', 'c', 'e', '/']
}

/// The latest route, as characters.
pub open spec fn latest_route() -> Seq<char> {
    price_route() + seq!['l', 'a', 't', 'e', 's', 't']
}

/// The full URL of `route`: the base URL, one `/`, then the route. Neither part is
/// otherwise changed: a base URL that ends in `/` gives two.
pub fn request_url(base_url: &str, route: &str) -> (r: String)
    ensures
        r@ == base_url@ + seq!['/'] + route@,
{
    proof {
        reveal_strlit("/");
    }
    let mut r = String::from_str(base_url);
    r.append("/");
    r.append(route);
    assert(r@ =~= base_url@ + seq!['/'] + route@);
    r
}

/// What every typed client of the service offers: a base URL, one shared transport and a
/// hook that adjusts each outgoing request before it is sent.
pub trait ApiClient {
    spec fn base_url_view(&self) -> Seq<char>;

    /// The URL that routes are resolved against.
    fn base_url(&self) -> (r: &str)
        ensures
            r@ == self.base_url_view(),
    ;

    /// The transport this client was made with.
    spec fn transport(&self) -> Client;

    /// The transport shared by every request of this client.
    fn client(&self) -> (r: &Client)
        ensures
            *r == self.transport(),
    ;

    /// Adjusts an outgoing request (headers, tokens, timeouts) just before it is sent,
    /// leaving its URL, query, method and transport alone.
    fn customize(&self, req: Request) -> (r: Request)
        ensures
            r.target() == req.target(),
            r.query() == req.query(),
            r.is_get() == req.is_get(),
            r.transport() == req.transport(),
    ;

    /// A GET request to `route` under the base URL on the shared transport, with `pairs`
    /// as its query in order, passed through `customize`: all that is left is to send it.
    fn prepare(&self, route: &str, pairs: &Vec<(String, String)>) -> (r: Request)
        ensures
            r.target() == self.base_url_view() + seq!['/'] + route@,
            r.query() == pairs.deep_view(),
            r.is_get(),
            r.transport() == self.transport(),
    {
        let url = request_url(self.base_url(), route);
        let req = get_request(self.client(), url.as_str());
        let req = with_query(req, pairs);
        assert(req.query() =~= pairs.deep_view());
        self.customize(req)
    }
}

/// A client of the price oracle.
pub struct Pyth {
    base_url: String,
    client: Client,
}

impl ApiClient for Pyth {
    open spec fn base_url_view(&self) -> Seq<char> {
        self.url_view()
    }

    fn base_url(&self) -> (r: &str) {
        let r = self.base_url.as_str();
        assert(self.base_url_view() == self.base_url@);
        r
    }

    closed spec fn transport(&self) -> Client {
        self.client
    }

    fn client(&self) -> (r: &Client) {
        assert(self.transport() == self.client);
        &self.client
    }

    /// This client sends its requests as they are built.
    fn customize(&self, req: Request) -> (r: Request)
        ensures
            r == req,
    {
        req
    }
}

impl Pyth {
    /// The base URL this client was made with.
    pub closed spec fn url_view(&self) -> Seq<char> {
        self.base_url@
    }

    /// A client of the service at `base_url`, with one transport made now and kept for
    /// its lifetime; `None` where the process cannot make a transport.
    pub fn new(base_url: String) -> (r: Option<Self>)
        ensures
            r matches Some(p) ==> p.url_view() == base_url@,
    {
        match new_transport() {
            Some(client) => Some(Self { base_url, client }),
            None => None,
        }
    }

    /// The request of a historical lookup: a GET on this client's transport to the base URL,
    /// `/` and the historical route, with the query `price_query_of`. No check is made on the
    /// identifiers.
    pub fn price_request(&self, params: PriceParams) -> (r: Request)
        ensures
            r.target() == self.url_view() + seq!['/'] + price_route(),
            r.query() == price_query_of(params.ids@, params.timestamp),
            r.is_get(),
            r.transport() == self.transport(),
    {
        proof {
            reveal_strlit("updates/price/");
        }
        assert(PRICE_ROUTE@ =~= price_route());
        let pairs = price_query(&params);
        self.prepare(PRICE_ROUTE, &pairs)
    }

    /// The request of a latest lookup: a GET on this client's transport to the base URL, `/`
    /// and the latest route, with the query `latest_query_of`. No check is made on the
    /// identifiers.
    pub fn latest_price_request(&self, ids: Vec<u64>) -> (r: Request)
        ensures
            r.target() == self.url_view() + seq!['/'] + latest_route(),
            r.query() == latest_query_of(ids@),
            r.is_get(),
            r.transport() == self.transport(),
    {
        proof {
            reveal_strlit("updates/price/latest");
        }
        assert(LATEST_ROUTE@ =~= latest_route());
        let pairs = latest_query(&ids);
        self.prepare(LATEST_ROUTE, &pairs)
    }
}

/// The historical and the latest lookups of one client go to different URLs.
pub proof fn lemma_routes_differ(pyth: &Pyth)
    ensures
        pyth.url_view() + seq!['/'] + price_route() != pyth.url_view() + seq!['/'] + latest_route(),
{
    assert((pyth.url_view() + seq!['/'] + price_route()).len() != (pyth.url_view() + seq!['/']
        + latest_route()).len());
}

} // verus!
