//! The account façade: one request per exchange endpoint, and the
//! handling of the balance response.
use vstd::prelude::*;
use vstd::string::StringExecFns;
use crate::decimal::{decimal, decimal_text};
use crate::error::ApiError;
use crate::json::{key_less, string_object, string_object_text};
use crate::model::{AccountBalanceInfo, Balance};
use crate::query::{opt_param, opt_view, params_view, push_opt, push_param, query_string, query_text, ParamView};

verus! {

/// The keys that sign requests to the exchange.
#[derive(Debug, Clone)]
pub struct Credentials {
    pub api_key: String,
    pub secret_key: String,
    pub passphrase: String,
}

/// The client that requests go through: it holds the credentials.
#[derive(Debug, Clone)]
pub struct OkxClient {
    pub credentials: Credentials,
}

impl OkxClient {
    /// A client that signs with `credentials`.
    pub fn new(credentials: Credentials) -> (r: Self)
        ensures
            r.credentials == credentials,
    {
        OkxClient { credentials }
    }
}

/// HTTP method of a request.
#[derive(Debug, Clone, Copy, PartialEq, Eq, Structural)]
pub enum Method {
    Get,
    Post,
}

/// One call to the exchange: method, path with its query string, and body.
#[derive(Debug, Clone)]
pub struct Request {
    pub method: Method,
    pub path: String,
    pub body: String,
}

/// Path of the account endpoints.
pub open spec fn account_prefix() -> Seq<char> {
    "/api/v5/account"@
}

/// A `GET` of `path` with an empty body.
pub open spec fn is_get(r: Request, path: Seq<char>) -> bool {
    &&& r.method == Method::Get
    &&& r.path@ == path
    &&& r.body@ == Seq::<char>::empty()
}

/// Filters of the positions endpoint, in the order in which they are sent.
pub open spec fn positions_params(
    inst_type: Option<Seq<char>>,
    inst_id: Option<Seq<char>>,
    pos_id: Option<Seq<char>>,
) -> Seq<ParamView> {
    opt_param("instType"@, inst_type) + opt_param("instId"@, inst_id) + opt_param("posId"@, pos_id)
}

/// Parameters of the max-size endpoint, in the order in which they are sent.
pub open spec fn max_size_params(
    inst_id: Seq<char>,
    td_mode: Seq<char>,
    ccy: Option<Seq<char>>,
    px: Option<Seq<char>>,
    leverage: Option<Seq<char>>,
) -> Seq<ParamView> {
    seq![("instId"@, inst_id), ("tdMode"@, td_mode)] + opt_param("ccy"@, ccy) + opt_param(
        "px"@,
        px,
    ) + opt_param("leverage"@, leverage)
}

/// The decimal text of a limit that may be absent.
pub open spec fn opt_decimal(v: Option<u32>) -> Option<Seq<char>> {
    match v {
        Some(n) => Some(decimal(n as nat)),
        None => None,
    }
}

/// Filters of the bills endpoint, in the order in which they are sent. The
/// start and end times go out as `begin` and `end`.
pub open spec fn bills_params(
    inst_type: Option<Seq<char>>,
    ccy: Option<Seq<char>>,
    margin_mode: Option<Seq<char>>,
    typ: Option<Seq<char>>,
    start_time: Option<Seq<char>>,
    end_time: Option<Seq<char>>,
    limit: Option<u32>,
) -> Seq<ParamView> {
    opt_param("instType"@, inst_type) + opt_param("ccy"@, ccy) + opt_param("mgnMode"@, margin_mode)
        + opt_param("type"@, typ) + opt_param("begin"@, start_time) + opt_param("end"@, end_time)
        + opt_param("limit"@, opt_decimal(limit))
}

/// Fields of the set-leverage body; `posSide` only where a side is given.
pub open spec fn leverage_fields(
    inst_id: Seq<char>,
    leverage: Seq<char>,
    margin_mode: Seq<char>,
    pos_side: Option<Seq<char>>,
) -> Seq<ParamView> {
    seq![("instId"@, inst_id), ("lever"@, leverage), ("mgnMode"@, margin_mode)] + opt_param(
        "posSide"@,
        pos_side,
    )
}

fn account_endpoint(endpoint: &str) -> (r: String)
    ensures
        r@ == account_prefix() + endpoint@,
{
    let mut s = String::from_str("/api/v5/account");
    s.append(endpoint);
    s
}

fn get(path: String) -> (r: Request)
    ensures
        is_get(r, path@),
{
    Request { method: Method::Get, path, body: String::new() }
}

fn get_with_query(endpoint: &str, params: &Vec<(String, String)>) -> (r: Request)
    ensures
        is_get(r, account_prefix() + endpoint@ + query_text(params_view(params@))),
{
    let mut path = account_endpoint(endpoint);
    let q = query_string(params);
    path.append(q.as_str());
    get(path)
}

/// The account's balance records from the decoded response: the balances of
/// the first record, or an error where the response holds none.
pub fn balance_details(infos: Vec<AccountBalanceInfo>) -> (r: Result<Vec<Balance>, ApiError>)
    ensures
        infos@.len() == 0 <==> r is Err,
        r is Err ==> r->Err_0 is EmptyResponse,
        r is Ok ==> r->Ok_0 == infos@[0].details,
{
    let mut infos = infos;
    if infos.len() == 0 {
        Err(ApiError::EmptyResponse)
    } else {
        let first = infos.remove(0);
        Ok(first.details)
    }
}

/// The account API.
#[derive(Debug)]
pub struct OkxAccount {
    client: OkxClient,
}

impl OkxAccount {
    /// The client that the account's requests go through.
    pub closed spec fn spec_client(&self) -> OkxClient {
        self.client
    }

    /// An account API over `client`.
    pub fn new(client: OkxClient) -> (r: Self)
        ensures
            r.spec_client() == client,
    {
        OkxAccount { client }
    }

    /// An account API whose client signs with the given keys, as read from
    /// the environment; an error where one of them is missing.
    pub fn from_env(
        api_key: Option<String>,
        secret_key: Option<String>,
        passphrase: Option<String>,
    ) -> (r: Result<Self, ApiError>)
        ensures
            r is Ok <==> (api_key is Some && secret_key is Some && passphrase is Some),
            r is Err ==> r->Err_0 is MissingCredential,
            r is Ok ==> r->Ok_0.spec_client().credentials == (Credentials {
                api_key: api_key->Some_0,
                secret_key: secret_key->Some_0,
                passphrase: passphrase->Some_0,
            }),
    {
        match (api_key, secret_key, passphrase) {
            (Some(api_key), Some(secret_key), Some(passphrase)) => {
                let credentials = Credentials { api_key, secret_key, passphrase };
                Ok(OkxAccount { client: OkxClient::new(credentials) })
            },
            _ => Err(ApiError::MissingCredential),
        }
    }

    /// The client that the account's requests go through.
    pub fn client(&self) -> (r: &OkxClient)
        ensures
            *r == self.spec_client(),
    {
        &self.client
    }

    /// Request for the balances, of one currency where `ccy` is given.
    pub fn balance_request(&self, ccy: Option<&str>) -> (r: Request)
        ensures
            is_get(r, account_prefix() + "/balance"@ + query_text(opt_param("ccy"@, opt_view(ccy)))),
    {
        let mut params: Vec<(String, String)> = Vec::new();
        push_opt(&mut params, "ccy", ccy);
        assert(params_view(params@) =~= opt_param("ccy"@, opt_view(ccy)));
        get_with_query("/balance", &params)
    }

    /// Request for the open positions, filtered by the parameters given.
    pub fn positions_request(
        &self,
        inst_type: Option<&str>,
        inst_id: Option<&str>,
        pos_id: Option<&str>,
    ) -> (r: Request)
        ensures
            is_get(
                r,
                account_prefix() + "/positions"@ + query_text(
                    positions_params(opt_view(inst_type), opt_view(inst_id), opt_view(pos_id)),
                ),
            ),
    {
        let mut params: Vec<(String, String)> = Vec::new();
        push_opt(&mut params, "instType", inst_type);
        push_opt(&mut params, "instId", inst_id);
        push_opt(&mut params, "posId", pos_id);
        assert(params_view(params@) =~= positions_params(
            opt_view(inst_type),
            opt_view(inst_id),
            opt_view(pos_id),
        ));
        get_with_query("/positions", &params)
    }

    /// Request for the account's positions; the same call as `positions_request`.
    pub fn account_positions_request(
        &self,
        inst_type: Option<&str>,
        inst_id: Option<&str>,
        pos_id: Option<&str>,
    ) -> (r: Request)
        ensures
            is_get(
                r,
                account_prefix() + "/positions"@ + query_text(
                    positions_params(opt_view(inst_type), opt_view(inst_id), opt_view(pos_id)),
                ),
            ),
    {
        self.positions_request(inst_type, inst_id, pos_id)
    }

    /// Request for the account's configuration.
    pub fn config_request(&self) -> (r: Request)
        ensures
            is_get(r, account_prefix() + "/config"@),
    {
        get(account_endpoint("/config"))
    }

    /// Request for the account's risk figures.
    pub fn account_risk_request(&self) -> (r: Request)
        ensures
            is_get(r, account_prefix() + "/account-risk"@),
    {
        get(account_endpoint("/account-risk"))
    }

    /// Request that sets the leverage of an instrument: a `POST` whose body
    /// is a JSON object of the given fields, with `posSide` only where a side
    /// is given.
    pub fn set_leverage_request(
        &self,
        inst_id: &str,
        leverage: &str,
        margin_mode: &str,
        pos_side: Option<&str>,
    ) -> (r: Result<Request, ApiError>)
        ensures
            r is Ok,
            r->Ok_0.method == Method::Post,
            r->Ok_0.path@ == account_prefix() + "/set-leverage"@,
            r->Ok_0.body@ == string_object_text(
                leverage_fields(inst_id@, leverage@, margin_mode@, opt_view(pos_side)),
            ),
    {
        let mut fields: Vec<(String, String)> = Vec::new();
        push_param(&mut fields, "instId", inst_id);
        push_param(&mut fields, "lever", leverage);
        push_param(&mut fields, "mgnMode", margin_mode);
        push_opt(&mut fields, "posSide", pos_side);
        assert(params_view(fields@) =~= leverage_fields(
            inst_id@,
            leverage@,
            margin_mode@,
            opt_view(pos_side),
        ));
        proof {
            reveal_strlit("instId");
            reveal_strlit("lever");
            reveal_strlit("mgnMode");
            reveal_strlit("posSide");
            let fs = params_view(fields@);
            assert(key_less(fs[0].0, fs[1].0));
            assert(key_less(fs[1].0, fs[2].0));
            if pos_side is Some {
                assert(key_less(fs[2].0, fs[3].0));
            }
        }
        let body = string_object(&fields)?;
        Ok(Request { method: Method::Post, path: account_endpoint("/set-leverage"), body })
    }

    /// Request for the largest quantity that can be traded.
    pub fn max_size_request(
        &self,
        inst_id: &str,
        td_mode: &str,
        ccy: Option<&str>,
        px: Option<&str>,
        leverage: Option<&str>,
    ) -> (r: Request)
        ensures
            is_get(
                r,
                account_prefix() + "/max-size"@ + query_text(
                    max_size_params(inst_id@, td_mode@, opt_view(ccy), opt_view(px), opt_view(leverage)),
                ),
            ),
    {
        let mut params: Vec<(String, String)> = Vec::new();
        push_param(&mut params, "instId", inst_id);
        push_param(&mut params, "tdMode", td_mode);
        push_opt(&mut params, "ccy", ccy);
        push_opt(&mut params, "px", px);
        push_opt(&mut params, "leverage", leverage);
        assert(params_view(params@) =~= max_size_params(
            inst_id@,
            td_mode@,
            opt_view(ccy),
            opt_view(px),
            opt_view(leverage),
        ));
        get_with_query("/max-size", &params)
    }

    /// Request for the account's bills, filtered by the parameters given.
    pub fn bills_request(
        &self,
        inst_type: Option<&str>,
        ccy: Option<&str>,
        margin_mode: Option<&str>,
        typ: Option<&str>,
        start_time: Option<&str>,
        end_time: Option<&str>,
        limit: Option<u32>,
    ) -> (r: Request)
        ensures
            is_get(
                r,
                account_prefix() + "/bills"@ + query_text(
                    bills_params(
                        opt_view(inst_type),
                        opt_view(ccy),
                        opt_view(margin_mode),
                        opt_view(typ),
                        opt_view(start_time),
                        opt_view(end_time),
                        limit,
                    ),
                ),
            ),
    {
        let mut params: Vec<(String, String)> = Vec::new();
        push_opt(&mut params, "instType", inst_type);
        push_opt(&mut params, "ccy", ccy);
        push_opt(&mut params, "mgnMode", margin_mode);
        push_opt(&mut params, "type", typ);
        push_opt(&mut params, "begin", start_time);
        push_opt(&mut params, "end", end_time);
        match limit {
            Some(l) => {
                let text = decimal_text(l);
                push_param(&mut params, "limit", text.as_str());
            },
            None => {},
        }
        assert(params_view(params@) =~= bills_params(
            opt_view(inst_type),
            opt_view(ccy),
            opt_view(margin_mode),
            opt_view(typ),
            opt_view(start_time),
            opt_view(end_time),
            limit,
        ));
        get_with_query("/bills", &params)
    }
}

} // verus!
