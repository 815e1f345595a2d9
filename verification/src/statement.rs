//! The four statements, each a fixed text with numbered placeholders and the
//! values bound to them. No value ever becomes part of a statement's text.

use vstd::prelude::*;

verus! {

/// Inserts one row and asks for it back, identifier included.
pub const INSERT_USER: &'static str =
    "INSERT INTO users (name, email) VALUES ($1, $2) RETURNING id, name, email";

/// Fetches the row with a given identifier.
pub const SELECT_USER: &'static str = "SELECT id, name, email FROM users WHERE id = $1";

/// Replaces both text columns of the row with a given identifier and asks for
/// the row back.
pub const UPDATE_USER: &'static str =
    "UPDATE users SET name = $1, email = $2 WHERE id = $3 RETURNING id, name, email";

/// Removes the row with a given identifier.
pub const DELETE_USER: &'static str = "DELETE FROM users WHERE id = $1";

/// A value bound to a placeholder.
#[derive(Debug, Clone, PartialEq, Eq)]
pub enum Param {
    Int(i32),
    Text(String),
}

/// The value of a [`Param`].
pub enum ParamView {
    Int(int),
    Text(Seq<char>),
}

impl View for Param {
    type V = ParamView;

    open spec fn view(&self) -> ParamView {
        match self {
            Param::Int(i) => ParamView::Int(*i as int),
            Param::Text(s) => ParamView::Text(s@),
        }
    }
}

/// What a statement's answer consists of.
#[derive(Debug, Clone, Copy, PartialEq, Eq, Structural)]
pub enum Expect {
    /// The rows that the statement returns.
    Rows,
    /// The number of rows that the statement changed.
    Count,
}

/// One parameterized statement: its text, the values for `$1`, `$2`, ... in
/// that order, and the form of answer it asks for.
#[derive(Debug, Clone, PartialEq, Eq)]
pub struct Statement {
    pub sql: &'static str,
    pub params: Vec<Param>,
    pub expect: Expect,
}

/// The value of a [`Statement`].
pub struct StatementView {
    pub sql: Seq<char>,
    pub params: Seq<ParamView>,
    pub expect: Expect,
}

impl View for Statement {
    type V = StatementView;

    open spec fn view(&self) -> StatementView {
        StatementView {
            sql: self.sql@,
            params: self.params@.map_values(|p: Param| p@),
            expect: self.expect,
        }
    }
}

/// One of the four operations with its arguments.
#[derive(Debug, Clone, PartialEq, Eq)]
pub enum Request {
    Create { name: String, email: String },
    Read { id: i32 },
    Update { id: i32, name: String, email: String },
    Delete { id: i32 },
}

/// The value of a [`Request`].
pub enum RequestView {
    Create { name: Seq<char>, email: Seq<char> },
    Read { id: int },
    Update { id: int, name: Seq<char>, email: Seq<char> },
    Delete { id: int },
}

impl View for Request {
    type V = RequestView;

    open spec fn view(&self) -> RequestView {
        match self {
            Request::Create { name, email } => RequestView::Create { name: name@, email: email@ },
            Request::Read { id } => RequestView::Read { id: *id as int },
            Request::Update { id, name, email } => RequestView::Update {
                id: *id as int,
                name: name@,
                email: email@,
            },
            Request::Delete { id } => RequestView::Delete { id: *id as int },
        }
    }
}

/// The statement that creates a user: the insert, with name and email bound in
/// that order.
pub open spec fn create_statement_spec(name: Seq<char>, email: Seq<char>) -> StatementView {
    StatementView {
        sql: INSERT_USER@,
        params: seq![ParamView::Text(name), ParamView::Text(email)],
        expect: Expect::Rows,
    }
}

/// The statement that reads a user: the select, with the identifier bound.
pub open spec fn read_statement_spec(id: int) -> StatementView {
    StatementView { sql: SELECT_USER@, params: seq![ParamView::Int(id)], expect: Expect::Rows }
}

/// The statement that updates a user: the update, with name, email and
/// identifier bound in that order.
pub open spec fn update_statement_spec(id: int, name: Seq<char>, email: Seq<char>) -> StatementView {
    StatementView {
        sql: UPDATE_USER@,
        params: seq![ParamView::Text(name), ParamView::Text(email), ParamView::Int(id)],
        expect: Expect::Rows,
    }
}

/// The statement that deletes a user: the delete, with the identifier bound.
pub open spec fn delete_statement_spec(id: int) -> StatementView {
    StatementView { sql: DELETE_USER@, params: seq![ParamView::Int(id)], expect: Expect::Count }
}

/// The one statement that a request is carried out with.
pub open spec fn statement_of(request: RequestView) -> StatementView {
    match request {
        RequestView::Create { name, email } => create_statement_spec(name, email),
        RequestView::Read { id } => read_statement_spec(id),
        RequestView::Update { id, name, email } => update_statement_spec(id, name, email),
        RequestView::Delete { id } => delete_statement_spec(id),
    }
}

/// The statement for `create(name, email)`.
pub fn create_statement(name: &str, email: &str) -> (statement: Statement)
    ensures
        statement@ == create_statement_spec(name@, email@),
{
    let mut params: Vec<Param> = Vec::new();
    params.push(Param::Text(name.to_owned()));
    params.push(Param::Text(email.to_owned()));
    let statement = Statement { sql: INSERT_USER, params, expect: Expect::Rows };
    assert(statement@.params =~= create_statement_spec(name@, email@).params);
    statement
}

/// The statement for `read(id)`.
pub fn read_statement(id: i32) -> (statement: Statement)
    ensures
        statement@ == read_statement_spec(id as int),
{
    let mut params: Vec<Param> = Vec::new();
    params.push(Param::Int(id));
    let statement = Statement { sql: SELECT_USER, params, expect: Expect::Rows };
    assert(statement@.params =~= read_statement_spec(id as int).params);
    statement
}

/// The statement for `update(id, name, email)`.
pub fn update_statement(id: i32, name: &str, email: &str) -> (statement: Statement)
    ensures
        statement@ == update_statement_spec(id as int, name@, email@),
{
    let mut params: Vec<Param> = Vec::new();
    params.push(Param::Text(name.to_owned()));
    params.push(Param::Text(email.to_owned()));
    params.push(Param::Int(id));
    let statement = Statement { sql: UPDATE_USER, params, expect: Expect::Rows };
    assert(statement@.params =~= update_statement_spec(id as int, name@, email@).params);
    statement
}

/// The statement for `delete(id)`.
pub fn delete_statement(id: i32) -> (statement: Statement)
    ensures
        statement@ == delete_statement_spec(id as int),
{
    let mut params: Vec<Param> = Vec::new();
    params.push(Param::Int(id));
    let statement = Statement { sql: DELETE_USER, params, expect: Expect::Count };
    assert(statement@.params =~= delete_statement_spec(id as int).params);
    statement
}

impl Request {
    /// The statement that carries this request out.
    pub fn statement(&self) -> (statement: Statement)
        ensures
            statement@ == statement_of(self@),
    {
        match self {
            Request::Create { name, email } => create_statement(name.as_str(), email.as_str()),
            Request::Read { id } => read_statement(*id),
            Request::Update { id, name, email } => update_statement(
                *id,
                name.as_str(),
                email.as_str(),
            ),
            Request::Delete { id } => delete_statement(*id),
        }
    }
}

/// A statement's text is chosen by the operation alone: two requests for the
/// same operation are sent with the same text and the same number of bound
/// values, whatever their arguments hold.
pub proof fn lemma_text_is_fixed(a: RequestView, b: RequestView)
    requires
        a is Create == b is Create,
        a is Read == b is Read,
        a is Update == b is Update,
        a is Delete == b is Delete,
    ensures
        statement_of(a).sql == statement_of(b).sql,
        statement_of(a).params.len() == statement_of(b).params.len(),
        statement_of(a).expect == statement_of(b).expect,
{
}

} // verus!
