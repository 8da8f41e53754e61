//! Pending OAuth authorisations of outside services: the bot registers a
//! request, the user authorises in a browser, and the redirect back hands the
//! authorisation code to the waiting requester.
use rand::Rng;
use std::sync::mpsc::Sender;
use crate::delivery::{send_code, DeliveryLog};
use crate::encoding::{form_urlencode, url_encode};
use crate::text::str_eq;
use vstd::prelude::*;
use vstd::utf8::encode_utf8;

verus! {

/// An ASCII letter or digit.
pub open spec fn is_alphanumeric(c: char) -> bool {
    ('a' <= c && c <= 'z') || ('A' <= c && c <= 'Z') || ('0' <= c && c <= '9')
}

/// Draws `n` characters from the letters and digits with the thread-local
/// generator of `rand` (`rand::rng().sample_iter(&Alphanumeric)`). The outcome is
/// random; what holds of every outcome is its length and its alphabet.
#[verifier::external_body]
fn sample_alphanumeric(n: usize) -> (s: String)
    ensures
        s@.len() == n,
        forall|i: int| 0 <= i < n ==> is_alphanumeric(#[trigger] s@[i]),
{
    rand::rng().sample_iter(&rand::distr::Alphanumeric).take(n).map(char::from).collect()
}

/// One pending authorisation request, as the contracts see it.
pub struct OauthRequestView {
    pub state: Seq<char>,
    pub url: Seq<char>,
    pub account_name: Seq<char>,
    pub service_name: Seq<char>,
}

/// One pending authorisation request and the channel its requester waits on.
pub struct OauthRequest {
    state: String,
    url: String,
    account_name: String,
    service_name: String,
    return_channel: Sender<String>,
}

impl View for OauthRequest {
    type V = OauthRequestView;

    closed spec fn view(&self) -> OauthRequestView {
        OauthRequestView {
            state: self.state@,
            url: self.url@,
            account_name: self.account_name@,
            service_name: self.service_name@,
        }
    }
}

/// Why an authorisation code could not be handed back.
#[derive(Clone, Copy, Debug, PartialEq, Eq, Structural)]
pub enum OauthReturnError {
    NotRequested,
    ReturnChannelClosed,
}

/// What the panel shows of a pending request.
#[derive(Clone, Debug)]
pub struct OauthRequestDisplay {
    pub account_name: String,
    pub service_name: String,
    pub url: String,
}

/// The index of the first request for `service` with `state`, if there is one.
pub open spec fn first_match(
    requests: Seq<OauthRequestView>,
    service: Seq<char>,
    state: Seq<char>,
) -> Option<int> {
    if exists|i: int|
        0 <= i < requests.len() && requests[i].service_name == service && requests[i].state
            == state {
        Some(
            choose|i: int|
                0 <= i < requests.len() && requests[i].service_name == service
                    && requests[i].state == state && forall|j: int|
                    0 <= j < i ==> !(requests[j].service_name == service && requests[j].state
                        == state),
        )
    } else {
        None
    }
}

proof fn lemma_first_match(requests: Seq<OauthRequestView>, service: Seq<char>, state: Seq<char>, i: int)
    requires
        0 <= i < requests.len(),
        requests[i].service_name == service,
        requests[i].state == state,
        forall|j: int|
            0 <= j < i ==> !(requests[j].service_name == service && requests[j].state == state),
    ensures
        first_match(requests, service, state) == Some(i),
{
    let k = choose|k: int|
        0 <= k < requests.len() && requests[k].service_name == service && requests[k].state
            == state && forall|j: int|
            0 <= j < k ==> !(requests[j].service_name == service && requests[j].state == state);
    assert(0 <= k < requests.len() && requests[k].service_name == service && requests[k].state
        == state);
    if k < i {
    } else if i < k {
        assert(!(requests[i].service_name == service && requests[i].state == state));
    }
}

/// The pending authorisation requests, oldest first, and a ghost record of
/// every code handed to a requester's channel, with that channel.
pub struct OAuthService {
    active_requests: Vec<OauthRequest>,
    deliveries: DeliveryLog,
}

impl View for OAuthService {
    type V = Seq<OauthRequestView>;

    closed spec fn view(&self) -> Seq<OauthRequestView> {
        self.active_requests@.map_values(|r: OauthRequest| r@)
    }
}

impl OAuthService {
    /// The channels on which the pending requesters wait, in the order of the
    /// requests.
    pub closed spec fn channels(&self) -> Seq<Sender<String>> {
        self.active_requests@.map_values(|r: OauthRequest| r.return_channel)
    }

    /// Every code handed to `Sender::send` so far, with the channel it was sent
    /// on and whether the send succeeded, oldest first.
    pub closed spec fn deliveries(&self) -> Seq<(Sender<String>, Seq<char>, bool)> {
        self.deliveries@
    }

    /// A service with no pending request, that has handed out no code.
    pub fn new() -> (s: OAuthService)
        ensures
            s@ == Seq::<OauthRequestView>::empty(),
            s.channels() == Seq::<Sender<String>>::empty(),
            s.deliveries() == Seq::<(Sender<String>, Seq<char>, bool)>::empty(),
    {
        let s = OAuthService { active_requests: Vec::new(), deliveries: DeliveryLog::new() };
        assert(s@ =~= Seq::<OauthRequestView>::empty());
        assert(s.channels() =~= Seq::<Sender<String>>::empty());
        s
    }

    /// A fresh `state` for an authorisation request: 32 random letters and digits.
    pub fn random_state() -> (s: String)
        ensures
            s@.len() == 32,
            forall|i: int| 0 <= i < 32 ==> is_alphanumeric(#[trigger] s@[i]),
    {
        sample_alphanumeric(32)
    }

    /// Registers a request; its requester waits on the receiving end of
    /// `return_channel` for the authorisation code.
    pub fn new_oauth_request(
        &mut self,
        service_name: String,
        account_name: String,
        authorization_url: String,
        state: String,
        return_channel: Sender<String>,
    )
        ensures
            final(self)@ == old(self)@.push(
                OauthRequestView {
                    state: state@,
                    url: authorization_url@,
                    account_name: account_name@,
                    service_name: service_name@,
                },
            ),
            final(self).channels() == old(self).channels().push(return_channel),
            final(self).deliveries() == old(self).deliveries(),
    {
        let ghost channel = return_channel;
        let request = OauthRequest {
            state,
            url: authorization_url,
            account_name,
            service_name,
            return_channel,
        };
        self.active_requests.push(request);
        assert(self@ =~= old(self)@.push(request@));
        assert(self.channels() =~= old(self).channels().push(channel));
    }

    /// Draws a fresh state with `random_state`, registers a request for it whose
    /// address is `authorization_url(service_name, state)`, and gives the state
    /// and the address; the requester waits on the receiving end of
    /// `return_channel`.
    pub fn register_oauth_request<F: Fn(&str, &str) -> String>(
        &mut self,
        service_name: String,
        account_name: String,
        authorization_url: F,
        return_channel: Sender<String>,
    ) -> (r: (String, String))
        requires
            forall|a: &str, b: &str| #[trigger] authorization_url.requires((a, b)),
        ensures
            r.0@.len() == 32,
            forall|i: int| 0 <= i < 32 ==> is_alphanumeric(#[trigger] r.0@[i]),
            exists|a: &str, b: &str|
                a@ == service_name@ && b@ == r.0@ && #[trigger] authorization_url.ensures(
                    (a, b),
                    r.1,
                ),
            final(self)@ == old(self)@.push(
                OauthRequestView {
                    state: r.0@,
                    url: r.1@,
                    account_name: account_name@,
                    service_name: service_name@,
                },
            ),
            final(self).channels() == old(self).channels().push(return_channel),
            final(self).deliveries() == old(self).deliveries(),
    {
        let state = OAuthService::random_state();
        let url = authorization_url(service_name.as_str(), state.as_str());
        self.new_oauth_request(service_name, account_name, url.clone(), state.clone(), return_channel);
        (state, url)
    }

    /// Takes the first pending request for `service` with `state` out of the
    /// list, and gives its requester's channel together with `code`, ready to be
    /// sent; `None`, with nothing changed, when there is no such request.
    pub fn take_first_match(&mut self, service: &str, state: &str, code: String) -> (r: Option<
        (Sender<String>, String),
    >)
        ensures
            final(self).deliveries() == old(self).deliveries(),
            match first_match(old(self)@, service@, state@) {
                None => r is None && final(self)@ == old(self)@ && final(self).channels() == old(
                    self,
                ).channels(),
                Some(i) => r matches Some(p) && p.0 == old(self).channels()[i] && p.1 == code
                    && final(self)@ == old(self)@.remove(i) && final(self).channels() == old(
                    self,
                ).channels().remove(i),
            },
    {
        let mut i: usize = 0;
        while i < self.active_requests.len()
            invariant
                i <= self@.len(),
                *self == *old(self),
                forall|j: int|
                    0 <= j < i ==> !(#[trigger] self@[j].service_name == service@ && self@[j].state
                        == state@),
            decreases self@.len() - i,
        {
            let matches = str_eq(self.active_requests[i].service_name.as_str(), service) && str_eq(
                self.active_requests[i].state.as_str(),
                state,
            );
            if matches {
                proof {
                    lemma_first_match(self@, service@, state@, i as int);
                }
                let request = self.active_requests.remove(i);
                assert(self@ =~= old(self)@.remove(i as int));
                assert(self.channels() =~= old(self).channels().remove(i as int));
                return Some((request.return_channel, code));
            }
            i = i + 1;
        }
        assert(first_match(old(self)@, service@, state@) is None);
        None
    }

    /// Hands `code` to the requester of the first pending request for `service`
    /// with `state`, and removes that request whether or not the requester still
    /// listens.
    pub fn return_oauth(&mut self, service: String, state: String, scope: String, code: String) -> (r:
        Result<(), OauthReturnError>)
        ensures
            match first_match(old(self)@, service@, state@) {
                None => r == Err::<(), OauthReturnError>(OauthReturnError::NotRequested)
                    && final(self)@ == old(self)@ && final(self).channels() == old(self).channels()
                    && final(self).deliveries() == old(self).deliveries(),
                Some(i) => final(self)@ == old(self)@.remove(i) && final(self).channels() == old(
                    self,
                ).channels().remove(i) && final(self).deliveries() == old(self).deliveries().push(
                    (old(self).channels()[i], code@, r is Ok),
                ) && (r is Ok || r == Err::<(), OauthReturnError>(
                    OauthReturnError::ReturnChannelClosed,
                )),
            },
    {
        match self.take_first_match(service.as_str(), state.as_str(), code) {
            None => Err(OauthReturnError::NotRequested),
            Some((channel, code)) => {
                let delivered = send_code(&channel, code, &mut self.deliveries);
                if delivered {
                    Ok(())
                } else {
                    Err(OauthReturnError::ReturnChannelClosed)
                }
            },
        }
    }

    /// What the panel lists of the pending requests, in order.
    pub fn get_active_requests(&self) -> (r: Vec<OauthRequestDisplay>)
        ensures
            r@.len() == self@.len(),
            forall|i: int|
                0 <= i < r@.len() ==> (#[trigger] r@[i]).account_name@ == self@[i].account_name
                    && r@[i].service_name@ == self@[i].service_name && r@[i].url@
                    == self@[i].url,
    {
        let mut r: Vec<OauthRequestDisplay> = Vec::new();
        let mut i: usize = 0;
        while i < self.active_requests.len()
            invariant
                i <= self@.len(),
                r@.len() == i,
                forall|j: int|
                    0 <= j < i ==> (#[trigger] r@[j]).account_name@ == self@[j].account_name
                        && r@[j].service_name@ == self@[j].service_name && r@[j].url@
                        == self@[j].url,
            decreases self@.len() - i,
        {
            let req = &self.active_requests[i];
            r.push(
                OauthRequestDisplay {
                    account_name: req.account_name.clone(),
                    service_name: req.service_name.clone(),
                    url: req.url.clone(),
                },
            );
            i = i + 1;
        }
        r
    }
}

impl Default for OAuthService {
    fn default() -> (s: OAuthService)
        ensures
            s@ == Seq::<OauthRequestView>::empty(),
    {
        OAuthService::new()
    }
}

/// The address to which an outside service redirects after authorisation:
/// `bot_base_url_config` followed by `/auth/` and the service's name.
pub fn get_redirect_url(bot_base_url_config: String, service_name: &str) -> (r: String)
    ensures
        r@ == bot_base_url_config@ + "/auth/"@ + service_name@,
{
    let mut r = bot_base_url_config;
    r.append("/auth/");
    r.append(service_name);
    r
}

/// The public address of the panel's authorisation setup page.
pub fn get_oauth_setup_url(bot_base_url_config: String) -> (r: String)
    ensures
        r@ == bot_base_url_config@ + "/auth"@,
{
    let mut r = bot_base_url_config;
    r.append("/auth");
    r
}

/// The query of an authorisation redirect.
pub struct ReceiveOAuthQuery {
    pub state: String,
    pub scope: Option<String>,
    pub code: Option<String>,
    pub error: Option<String>,
    pub error_description: Option<String>,
}

/// The panel address that reports a failed authorisation with `message`.
pub open spec fn failure_page(panel_base_url: Seq<char>, message: Seq<char>) -> Seq<char> {
    panel_base_url + "?success=false&error="@ + form_urlencode(encode_utf8(message))
}

fn failure_page_exec(panel_base_url: &str, message: &str) -> (r: String)
    ensures
        r@ == failure_page(panel_base_url@, message@),
{
    let mut r = String::from_str(panel_base_url);
    r.append("?success=false&error=");
    let encoded = url_encode(message);
    r.append(encoded.as_str());
    r
}

/// Answers an authorisation redirect for `service`: a redirect that reports an
/// error, or lacks the scope or the code, is answered with a failure page;
/// otherwise the code goes to the first pending request for `service` with the
/// query's state, and the answer is the panel address followed by the page
/// that reports the outcome. A query with an error description must also carry
/// the error itself.
pub fn receive_oauth(
    oauth_service: &mut OAuthService,
    panel_base_url: &str,
    service: String,
    query: ReceiveOAuthQuery,
) -> (body: String)
    requires
        query.error_description is Some ==> query.error is Some,
    ensures
        if query.error is Some || query.error_description is Some {
            &&& final(oauth_service)@ == old(oauth_service)@
            &&& final(oauth_service).channels() == old(oauth_service).channels()
            &&& final(oauth_service).deliveries() == old(oauth_service).deliveries()
            &&& body@ == failure_page(
                panel_base_url@,
                match query.error_description {
                    Some(d) => d@,
                    None => query.error->0@,
                },
            )
        } else if query.scope is None {
            &&& final(oauth_service)@ == old(oauth_service)@
            &&& final(oauth_service).channels() == old(oauth_service).channels()
            &&& final(oauth_service).deliveries() == old(oauth_service).deliveries()
            &&& body@ == failure_page(
                panel_base_url@,
                "Query param scope is required for non error Oauth response"@,
            )
        } else if query.code is None {
            &&& final(oauth_service)@ == old(oauth_service)@
            &&& final(oauth_service).channels() == old(oauth_service).channels()
            &&& final(oauth_service).deliveries() == old(oauth_service).deliveries()
            &&& body@ == failure_page(
                panel_base_url@,
                "Query param code is required for non error Oauth response"@,
            )
        } else {
            match first_match(old(oauth_service)@, service@, query.state@) {
                None => {
                    &&& final(oauth_service)@ == old(oauth_service)@
                    &&& final(oauth_service).channels() == old(oauth_service).channels()
                    &&& final(oauth_service).deliveries() == old(oauth_service).deliveries()
                    &&& body@ == panel_base_url@ + failure_page(
                        panel_base_url@,
                        "This oauth was never requested from the bot"@,
                    )
                },
                Some(i) => {
                    &&& final(oauth_service)@ == old(oauth_service)@.remove(i)
                    &&& final(oauth_service).channels() == old(oauth_service).channels().remove(i)
                    &&& final(oauth_service).deliveries() == old(oauth_service).deliveries().push(
                        (
                            old(oauth_service).channels()[i],
                            query.code->0@,
                            final(oauth_service).deliveries().last().2,
                        ),
                    )
                    &&& body@ == panel_base_url@ + return_page_of(
                        panel_base_url@,
                        if final(oauth_service).deliveries().last().2 {
                            Ok(())
                        } else {
                            Err(OauthReturnError::ReturnChannelClosed)
                        },
                    )
                },
            }
        },
{
    if query.error.is_some() || query.error_description.is_some() {
        let message = match query.error_description {
            Some(d) => d,
            None => match query.error {
                Some(e) => e,
                None => String::new(),
            },
        };
        return failure_page_exec(panel_base_url, message.as_str());
    }
    let scope = match query.scope {
        Some(s) => s,
        None => {
            return failure_page_exec(
                panel_base_url,
                "Query param scope is required for non error Oauth response",
            );
        },
    };
    let code = match query.code {
        Some(c) => c,
        None => {
            return failure_page_exec(
                panel_base_url,
                "Query param code is required for non error Oauth response",
            );
        },
    };
    let result = oauth_service.return_oauth(service, query.state, scope, code);
    let page = return_page(panel_base_url, result);
    let mut body = String::from_str(panel_base_url);
    body.append(page.as_str());
    body
}

/// The page that reports the outcome of handing back an authorisation code.
pub open spec fn return_page_of(panel_base_url: Seq<char>, result: Result<(), OauthReturnError>) -> Seq<
    char,
> {
    match result {
        Ok(()) => panel_base_url + "?success=true"@,
        Err(OauthReturnError::NotRequested) => failure_page(
            panel_base_url,
            "This oauth was never requested from the bot"@,
        ),
        Err(OauthReturnError::ReturnChannelClosed) => failure_page(
            panel_base_url,
            "Could not process auth code. Internal server error"@,
        ),
    }
}

/// The page that reports the outcome of handing back an authorisation code:
/// success, a request that was never made, or a requester that stopped
/// waiting.
pub fn return_page(panel_base_url: &str, result: Result<(), OauthReturnError>) -> (page: String)
    ensures
        page@ == return_page_of(panel_base_url@, result),
{
    match result {
        Ok(()) => {
            let mut p = String::from_str(panel_base_url);
            p.append("?success=true");
            p
        },
        Err(OauthReturnError::NotRequested) => failure_page_exec(
            panel_base_url,
            "This oauth was never requested from the bot",
        ),
        Err(OauthReturnError::ReturnChannelClosed) => failure_page_exec(
            panel_base_url,
            "Could not process auth code. Internal server error",
        ),
    }
}

/// A request just registered is found by the next return for its service and
/// state.
pub proof fn lemma_registered_request_is_found(
    requests: Seq<OauthRequestView>,
    request: OauthRequestView,
)
    ensures
        first_match(requests.push(request), request.service_name, request.state) is Some,
{
    let all = requests.push(request);
    assert(all[requests.len() as int] == request);
    assert(exists|i: int|
        0 <= i < all.len() && all[i].service_name == request.service_name && all[i].state
            == request.state);
}

/// When no earlier request has the same service and state, returning the code
/// of a request just registered removes exactly that request again.
pub proof fn lemma_return_undoes_register(
    requests: Seq<OauthRequestView>,
    request: OauthRequestView,
)
    requires
        first_match(requests, request.service_name, request.state) is None,
    ensures
        first_match(requests.push(request), request.service_name, request.state) == Some(
            requests.len() as int,
        ),
        requests.push(request).remove(requests.len() as int) == requests,
{
    let all = requests.push(request);
    assert forall|j: int| 0 <= j < requests.len() implies !(all[j].service_name
        == request.service_name && all[j].state == request.state) by {
        assert(all[j] == requests[j]);
        if all[j].service_name == request.service_name && all[j].state == request.state {
            assert(0 <= j < requests.len() && requests[j].service_name == request.service_name
                && requests[j].state == request.state);
        }
    }
    lemma_first_match(all, request.service_name, request.state, requests.len() as int);
    assert(all.remove(requests.len() as int) =~= requests);
}

/// A request registered while no other pending request has its service and
/// state is the only pending entry with them and is listed last. The next
/// answer for that service and state takes exactly this entry out, and the
/// channel it hands the code to is the one the requester registered with; the
/// requests and channels are then as they were before the registration.
pub proof fn lemma_answer_reaches_waiting_requester(
    requests: Seq<OauthRequestView>,
    channels: Seq<Sender<String>>,
    request: OauthRequestView,
    channel: Sender<String>,
)
    requires
        channels.len() == requests.len(),
        first_match(requests, request.service_name, request.state) is None,
    ensures
        ({
            let all = requests.push(request);
            let waiting = channels.push(channel);
            let n = requests.len() as int;
            &&& first_match(all, request.service_name, request.state) == Some(n)
            &&& forall|j: int|
                0 <= j < all.len() && #[trigger] all[j].service_name == request.service_name
                    && all[j].state == request.state ==> j == n
            &&& all[n] == request
            &&& waiting[n] == channel
            &&& all.remove(n) == requests
            &&& waiting.remove(n) == channels
        }),
{
    lemma_return_undoes_register(requests, request);
    let all = requests.push(request);
    let n = requests.len() as int;
    assert forall|j: int|
        0 <= j < all.len() && #[trigger] all[j].service_name == request.service_name
            && all[j].state == request.state implies j == n by {
        if j < n {
            assert(all[j] == requests[j]);
        }
    }
    assert(channels.push(channel).remove(n) =~= channels);
}

/// Every pending request has its requester's channel: the channels and the
/// requests are equally many.
pub proof fn lemma_one_channel_per_request(service: &OAuthService)
    ensures
        service.channels().len() == service@.len(),
{
}

} // verus!
