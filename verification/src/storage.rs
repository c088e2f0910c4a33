//! The shape in which requests are stored: the row of a request, and the
//! statements, in order, that create, change and delete it.

use vstd::prelude::*;
use vstd::string::*;
use crate::models::{
    ApiRequest,
    AuthDetails,
    AuthType,
    BasicAuth,
    Credentials,
    DetailsView,
    RequestDetails,
    RequestType,
    RequestView,
};
use crate::string_map::{
    bind_all,
    lemma_bind_all_of_distinct,
    pairs_to_map,
    pairs_view,
    Pair,
    StringMap,
};
use crate::text::{option_view, str_eq};

verus! {

/// The scalar columns of a stored request.
#[derive(Clone, Debug)]
pub struct RequestRow {
    pub name: String,
    pub request_type: String,
    pub url: String,
    pub body: String,
    pub auth_type: String,
    pub auth_username: Option<String>,
    pub auth_password: Option<String>,
}

/// What a `RequestRow` stands for.
pub struct RowView {
    pub name: Seq<char>,
    pub request_type: Seq<char>,
    pub url: Seq<char>,
    pub body: Seq<char>,
    pub auth_type: Seq<char>,
    pub auth_username: Option<Seq<char>>,
    pub auth_password: Option<Seq<char>>,
}

impl View for RequestRow {
    type V = RowView;

    open spec fn view(&self) -> RowView {
        RowView {
            name: self.name@,
            request_type: self.request_type@,
            url: self.url@,
            body: self.body@,
            auth_type: self.auth_type@,
            auth_username: option_view(self.auth_username),
            auth_password: option_view(self.auth_password),
        }
    }
}

/// The method that a stored name stands for: GET for any unknown name.
pub open spec fn method_of_name(name: Seq<char>) -> RequestType {
    if name == "POST"@ {
        RequestType::POST
    } else if name == "PUT"@ {
        RequestType::PUT
    } else if name == "DELETE"@ {
        RequestType::DELETE
    } else if name == "PATCH"@ {
        RequestType::PATCH
    } else {
        RequestType::GET
    }
}

/// The scheme that a stored name stands for: none for any name but `Basic`.
pub open spec fn scheme_of_name(name: Seq<char>) -> AuthType {
    if name == "Basic"@ {
        AuthType::Basic
    } else {
        AuthType::NoAuth
    }
}

/// The payload that the two stored credentials stand for: one only where
/// both are there.
pub open spec fn payload_of(
    username: Option<Seq<char>>,
    password: Option<Seq<char>>,
) -> Option<Credentials> {
    match (username, password) {
        (Some(u), Some(p)) => Some(Credentials { username: u, password: p }),
        _ => None,
    }
}

/// The row under which `request` is stored.
pub open spec fn row_of(request: RequestView) -> RowView {
    RowView {
        name: request.name,
        request_type: request.request_type.name(),
        url: request.details.url,
        body: request.details.body,
        auth_type: request.details.auth_type.name(),
        auth_username: match request.details.auth_details {
            Some(c) => Some(c.username),
            None => None,
        },
        auth_password: match request.details.auth_details {
            Some(c) => Some(c.password),
            None => None,
        },
    }
}

/// The request that a row stands for, with the stored header and parameter
/// rows bound one after the other.
pub open spec fn request_of(row: RowView, headers: Seq<Pair>, params: Seq<Pair>) -> RequestView {
    RequestView {
        name: row.name,
        request_type: method_of_name(row.request_type),
        details: DetailsView {
            url: row.url,
            body: row.body,
            params: pairs_to_map(bind_all(params)),
            headers: pairs_to_map(bind_all(headers)),
            auth_type: scheme_of_name(row.auth_type),
            auth_details: payload_of(row.auth_username, row.auth_password),
        },
    }
}

/// Reads a stored method name.
pub fn parse_request_type(name: &str) -> (r: RequestType)
    ensures
        r == method_of_name(name@),
{
    if str_eq(name, "POST") {
        RequestType::POST
    } else if str_eq(name, "PUT") {
        RequestType::PUT
    } else if str_eq(name, "DELETE") {
        RequestType::DELETE
    } else if str_eq(name, "PATCH") {
        RequestType::PATCH
    } else {
        RequestType::GET
    }
}

/// Reads a stored scheme name.
pub fn parse_auth_type(name: &str) -> (r: AuthType)
    ensures
        r == scheme_of_name(name@),
{
    if str_eq(name, "Basic") {
        AuthType::Basic
    } else {
        AuthType::NoAuth
    }
}

/// Every method is read back from its own name, and every scheme from its.
pub proof fn lemma_names_read_back(method: RequestType, scheme: AuthType)
    ensures
        method_of_name(method.name()) == method,
        scheme_of_name(scheme.name()) == scheme,
{
    reveal_strlit("GET");
    reveal_strlit("POST");
    reveal_strlit("PUT");
    reveal_strlit("DELETE");
    reveal_strlit("PATCH");
    reveal_strlit("None");
    reveal_strlit("Basic");
    assert("GET"@.len() == 3 && "POST"@.len() == 4 && "PUT"@.len() == 3 && "DELETE"@.len() == 6
        && "PATCH"@.len() == 5);
    assert("PUT"@[0] == 'P' && "GET"@[0] == 'G');
    assert("POST"@.len() != "PUT"@.len());
    assert("None"@.len() == 4 && "Basic"@.len() == 5);
}

/// The scalar columns under which `request` is stored.
pub fn request_row(request: &ApiRequest) -> (row: RequestRow)
    ensures
        row@ == row_of(request@),
{
    let (auth_username, auth_password) = match &request.details.auth_details {
        AuthDetails::Basic(basic) => (Some(basic.username.clone()), Some(basic.password.clone())),
        AuthDetails::NoAuth => (None, None),
    };
    RequestRow {
        name: request.name.clone(),
        request_type: String::from_str(request.request_type.as_str()),
        url: request.details.url.clone(),
        body: request.details.body.clone(),
        auth_type: String::from_str(request.details.auth_type.as_str()),
        auth_username,
        auth_password,
    }
}

/// Puts a request together from its stored row and its stored header and
/// parameter rows.
pub fn request_from_row(
    row: RequestRow,
    headers: Vec<(String, String)>,
    params: Vec<(String, String)>,
) -> (request: ApiRequest)
    ensures
        request@ == request_of(row@, pairs_view(headers@), pairs_view(params@)),
{
    let request_type = parse_request_type(row.request_type.as_str());
    let auth_type = parse_auth_type(row.auth_type.as_str());
    let auth_details = match (row.auth_username, row.auth_password) {
        (Some(username), Some(password)) => AuthDetails::Basic(BasicAuth { username, password }),
        _ => AuthDetails::NoAuth,
    };
    ApiRequest {
        name: row.name,
        request_type,
        details: RequestDetails {
            url: row.url,
            body: row.body,
            params: StringMap::from_pairs(params),
            headers: StringMap::from_pairs(headers),
            auth_type,
            auth_details,
        },
    }
}

/// The request whose header and parameter rows a statement writes.
#[derive(Clone, Copy, Debug, PartialEq, Eq)]
pub enum RowRef {
    /// The request with this key.
    Id(i64),
    /// The request that the transaction has just inserted.
    LastInserted,
}

/// One statement of a transaction.
#[derive(Clone, Debug)]
pub enum Statement {
    InsertGroup { name: String },
    InsertRequest { group_id: i64, row: RequestRow },
    UpdateRequest { id: i64, row: RequestRow },
    InsertHeader { request: RowRef, key: String, value: String },
    InsertParam { request: RowRef, key: String, value: String },
    DeleteHeaders { request_id: i64 },
    DeleteParams { request_id: i64 },
    DeleteRequest { id: i64 },
}

/// What a `Statement` stands for.
pub enum StatementView {
    InsertGroup { name: Seq<char> },
    InsertRequest { group_id: i64, row: RowView },
    UpdateRequest { id: i64, row: RowView },
    InsertHeader { request: RowRef, key: Seq<char>, value: Seq<char> },
    InsertParam { request: RowRef, key: Seq<char>, value: Seq<char> },
    DeleteHeaders { request_id: i64 },
    DeleteParams { request_id: i64 },
    DeleteRequest { id: i64 },
}

impl View for Statement {
    type V = StatementView;

    open spec fn view(&self) -> StatementView {
        match self {
            Statement::InsertGroup { name } => StatementView::InsertGroup { name: name@ },
            Statement::InsertRequest { group_id, row } => StatementView::InsertRequest {
                group_id: *group_id,
                row: row@,
            },
            Statement::UpdateRequest { id, row } => StatementView::UpdateRequest {
                id: *id,
                row: row@,
            },
            Statement::InsertHeader { request, key, value } => StatementView::InsertHeader {
                request: *request,
                key: key@,
                value: value@,
            },
            Statement::InsertParam { request, key, value } => StatementView::InsertParam {
                request: *request,
                key: key@,
                value: value@,
            },
            Statement::DeleteHeaders { request_id } => StatementView::DeleteHeaders {
                request_id: *request_id,
            },
            Statement::DeleteParams { request_id } => StatementView::DeleteParams {
                request_id: *request_id,
            },
            Statement::DeleteRequest { id } => StatementView::DeleteRequest { id: *id },
        }
    }
}

/// What a vector of statements stands for.
pub open spec fn plan_view(plan: Seq<Statement>) -> Seq<StatementView> {
    plan.map_values(|s: Statement| s@)
}

/// One header statement for each pair, in order.
pub open spec fn header_inserts(request: RowRef, pairs: Seq<Pair>) -> Seq<StatementView> {
    pairs.map_values(
        |p: Pair| StatementView::InsertHeader { request, key: p.0, value: p.1 },
    )
}

/// One parameter statement for each pair, in order.
pub open spec fn param_inserts(request: RowRef, pairs: Seq<Pair>) -> Seq<StatementView> {
    pairs.map_values(
        |p: Pair| StatementView::InsertParam { request, key: p.0, value: p.1 },
    )
}

/// The transaction that stores a new request: its row, then its headers,
/// then its parameters.
pub open spec fn creation_plan(
    group_id: i64,
    request: RequestView,
    headers: Seq<Pair>,
    params: Seq<Pair>,
) -> Seq<StatementView> {
    seq![StatementView::InsertRequest { group_id, row: row_of(request) }] + header_inserts(
        RowRef::LastInserted,
        headers,
    ) + param_inserts(RowRef::LastInserted, params)
}

/// The transaction that stores a changed request: its row, then its headers
/// deleted and written anew, then its parameters deleted and written anew.
pub open spec fn update_plan(
    id: i64,
    request: RequestView,
    headers: Seq<Pair>,
    params: Seq<Pair>,
) -> Seq<StatementView> {
    seq![
        StatementView::UpdateRequest { id, row: row_of(request) },
        StatementView::DeleteHeaders { request_id: id },
    ] + header_inserts(RowRef::Id(id), headers) + seq![
        StatementView::DeleteParams { request_id: id },
    ] + param_inserts(RowRef::Id(id), params)
}

/// The transaction that deletes a request: its headers and its parameters
/// before its row.
pub open spec fn deletion_plan(id: i64) -> Seq<StatementView> {
    seq![
        StatementView::DeleteHeaders { request_id: id },
        StatementView::DeleteParams { request_id: id },
        StatementView::DeleteRequest { id },
    ]
}

fn push_headers(plan: &mut Vec<Statement>, request: RowRef, map: &StringMap)
    ensures
        plan_view(final(plan)@) == plan_view(old(plan)@) + header_inserts(request, map.pairs()),
{
    let ghost start = plan_view(plan@);
    let mut i: usize = 0;
    proof {
        assert(header_inserts(request, map.pairs().take(0)) =~= Seq::empty());
        assert(start + Seq::empty() =~= start);
    }
    while i < map.len()
        invariant
            i <= map.pairs().len(),
            plan_view(plan@) == start + header_inserts(request, map.pairs().take(i as int)),
        decreases map.pairs().len() - i,
    {
        match map.get_index(i) {
            Some((key, value)) => {
                let ghost before = plan@;
                plan.push(Statement::InsertHeader { request, key: key.clone(), value: value.clone() });
                proof {
                    assert(plan_view(plan@) =~= plan_view(before).push(
                        StatementView::InsertHeader { request, key: key@, value: value@ },
                    ));
                    assert(header_inserts(request, map.pairs().take(i + 1)) =~= header_inserts(
                        request,
                        map.pairs().take(i as int),
                    ).push(StatementView::InsertHeader { request, key: key@, value: value@ }));
                    assert(plan_view(plan@) =~= start + header_inserts(
                        request,
                        map.pairs().take(i + 1),
                    ));
                }
            },
            None => {},
        }
        i += 1;
    }
    proof {
        assert(map.pairs().take(map.pairs().len() as int) =~= map.pairs());
    }
}

fn push_params(plan: &mut Vec<Statement>, request: RowRef, map: &StringMap)
    ensures
        plan_view(final(plan)@) == plan_view(old(plan)@) + param_inserts(request, map.pairs()),
{
    let ghost start = plan_view(plan@);
    let mut i: usize = 0;
    proof {
        assert(param_inserts(request, map.pairs().take(0)) =~= Seq::empty());
        assert(start + Seq::empty() =~= start);
    }
    while i < map.len()
        invariant
            i <= map.pairs().len(),
            plan_view(plan@) == start + param_inserts(request, map.pairs().take(i as int)),
        decreases map.pairs().len() - i,
    {
        match map.get_index(i) {
            Some((key, value)) => {
                let ghost before = plan@;
                plan.push(Statement::InsertParam { request, key: key.clone(), value: value.clone() });
                proof {
                    assert(plan_view(plan@) =~= plan_view(before).push(
                        StatementView::InsertParam { request, key: key@, value: value@ },
                    ));
                    assert(param_inserts(request, map.pairs().take(i + 1)) =~= param_inserts(
                        request,
                        map.pairs().take(i as int),
                    ).push(StatementView::InsertParam { request, key: key@, value: value@ }));
                    assert(plan_view(plan@) =~= start + param_inserts(
                        request,
                        map.pairs().take(i + 1),
                    ));
                }
            },
            None => {},
        }
        i += 1;
    }
    proof {
        assert(map.pairs().take(map.pairs().len() as int) =~= map.pairs());
    }
}

/// The statement that stores a new group.
pub fn create_group_plan(name: &str) -> (plan: Vec<Statement>)
    ensures
        plan_view(plan@) == seq![StatementView::InsertGroup { name: name@ }],
{
    let mut plan: Vec<Statement> = Vec::new();
    plan.push(Statement::InsertGroup { name: String::from_str(name) });
    proof {
        assert(plan_view(plan@) =~= seq![StatementView::InsertGroup { name: name@ }]);
    }
    plan
}

/// The statements, in order, of the transaction that stores `request` as a
/// new request of the group with the key `group_id`.
pub fn create_request_plan(group_id: i64, request: &ApiRequest) -> (plan: Vec<Statement>)
    ensures
        plan_view(plan@) == creation_plan(
            group_id,
            request@,
            request.details.headers.pairs(),
            request.details.params.pairs(),
        ),
{
    let mut plan: Vec<Statement> = Vec::new();
    plan.push(Statement::InsertRequest { group_id, row: request_row(request) });
    proof {
        assert(plan_view(plan@) =~= seq![
            StatementView::InsertRequest { group_id, row: row_of(request@) },
        ]);
    }
    push_headers(&mut plan, RowRef::LastInserted, &request.details.headers);
    push_params(&mut plan, RowRef::LastInserted, &request.details.params);
    plan
}

/// The statements, in order, of the transaction that stores `request` in
/// place of the request with the key `id`.
pub fn update_request_plan(id: i64, request: &ApiRequest) -> (plan: Vec<Statement>)
    ensures
        plan_view(plan@) == update_plan(
            id,
            request@,
            request.details.headers.pairs(),
            request.details.params.pairs(),
        ),
{
    let mut plan: Vec<Statement> = Vec::new();
    plan.push(Statement::UpdateRequest { id, row: request_row(request) });
    plan.push(Statement::DeleteHeaders { request_id: id });
    proof {
        assert(plan_view(plan@) =~= seq![
            StatementView::UpdateRequest { id, row: row_of(request@) },
            StatementView::DeleteHeaders { request_id: id },
        ]);
    }
    push_headers(&mut plan, RowRef::Id(id), &request.details.headers);
    let ghost before = plan@;
    plan.push(Statement::DeleteParams { request_id: id });
    proof {
        assert(plan_view(plan@) =~= plan_view(before) + seq![
            StatementView::DeleteParams { request_id: id },
        ]);
    }
    push_params(&mut plan, RowRef::Id(id), &request.details.params);
    plan
}

/// The statements, in order, of the transaction that deletes the request
/// with the key `id`.
pub fn delete_request_plan(id: i64) -> (plan: Vec<Statement>)
    ensures
        plan_view(plan@) == deletion_plan(id),
{
    let mut plan: Vec<Statement> = Vec::new();
    plan.push(Statement::DeleteHeaders { request_id: id });
    plan.push(Statement::DeleteParams { request_id: id });
    plan.push(Statement::DeleteRequest { id });
    proof {
        assert(plan_view(plan@) =~= deletion_plan(id));
    }
    plan
}

/// A request that is stored and read back is the request that was stored:
/// its name, method, URL, body, scheme, payload, headers and parameters.
pub proof fn lemma_stored_request_reads_back(request: ApiRequest)
    requires
        request.details.headers.wf(),
        request.details.params.wf(),
    ensures
        request_of(
            row_of(request@),
            request.details.headers.pairs(),
            request.details.params.pairs(),
        ) == request@,
{
    lemma_names_read_back(request.request_type, request.details.auth_type);
    request.details.headers.lemma_wf();
    request.details.params.lemma_wf();
    lemma_bind_all_of_distinct(request.details.headers.pairs());
    lemma_bind_all_of_distinct(request.details.params.pairs());
    request.details.headers.lemma_view();
    request.details.params.lemma_view();
}

} // verus!
