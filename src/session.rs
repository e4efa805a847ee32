use vstd::prelude::*;
use vstd::string::*;

use crate::envelope::{
    Action, action_name, carries_data, carries_where, frame_text, json_string_literal,
    opt_view, request_frame,
};
use crate::errors::TdbError;

verus! {

/// Credentials sent to the server with the connection request.
pub struct TdbAuthParms<'a> {
    pub username: &'a str,
    pub password: &'a str,
}

impl<'b> TdbAuthParms<'b> {
    pub fn new(username: &'b str, password: &'b str) -> (r: TdbAuthParms<'b>)
        ensures
            r.username@ == username@,
            r.password@ == password@,
    {
        TdbAuthParms { username, password }
    }
}

pub open spec fn auth_view(auth: Option<TdbAuthParms>) -> Option<(Seq<char>, Seq<char>)> {
    match auth {
        Some(a) => Some((a.username@, a.password@)),
        None => None,
    }
}

/// The query parameters of the endpoint, in order: `db`, `schema`, then
/// `username` and `password` where credentials are given.
pub open spec fn endpoint_pairs(
    db_name: Seq<char>,
    schema: Seq<char>,
    auth: Option<(Seq<char>, Seq<char>)>,
) -> Seq<(Seq<char>, Seq<char>)> {
    let base = seq![("db"@, db_name), ("schema"@, schema)];
    match auth {
        Some((user, pass)) => base + seq![("username"@, user), ("password"@, pass)],
        None => base,
    }
}

pub open spec fn pairs_view(v: Seq<(String, String)>) -> Seq<(Seq<char>, Seq<char>)> {
    v.map_values(|p: (String, String)| (p.0@, p.1@))
}

pub fn endpoint_params(db_name: &str, schema: &str, auth: &Option<TdbAuthParms>) -> (r: Vec<(String, String)>)
    ensures
        pairs_view(r@) == endpoint_pairs(db_name@, schema@, auth_view(*auth)),
{
    let mut params: Vec<(String, String)> = Vec::new();
    params.push((String::from_str("db"), String::from_str(db_name)));
    params.push((String::from_str("schema"), String::from_str(schema)));
    match auth {
        Some(a) => {
            params.push((String::from_str("username"), String::from_str(a.username)));
            params.push((String::from_str("password"), String::from_str(a.password)));
        },
        None => {},
    }
    assert(pairs_view(params@) =~= endpoint_pairs(db_name@, schema@, auth_view(*auth)));
    params
}

/// Whether the url crate parses `s` as an absolute URL.
pub uninterp spec fn url_accepts(s: Seq<char>) -> bool;

/// The serialized URL that the url crate makes of `base` with `pairs`
/// appended to its query, where `base` parses.
pub uninterp spec fn url_with_query(base: Seq<char>, pairs: Seq<(Seq<char>, Seq<char>)>) -> Seq<char>;

/// Relies on `url::Url::parse_with_params`: it fails exactly when `base` does
/// not parse, and otherwise appends the pairs to the query, in order.
#[verifier::external_body]
fn parse_endpoint(base: &str, params: &Vec<(String, String)>) -> (r: Result<String, String>)
    ensures
        r is Ok <==> url_accepts(base@),
        r is Ok ==> r->Ok_0@ == url_with_query(base@, pairs_view(params@)),
{
    url::Url::parse_with_params(base, params.iter()).map(|u| u.to_string()).map_err(|e| e.to_string())
}

/// How a connection attempt ended.
pub enum Handshake<C> {
    /// The transport opened and the server raised no error header.
    Accepted(C),
    /// The handshake completed, but the server's error header was present.
    Refused(String),
    /// The transport handshake failed.
    Failed(String),
}

/// The connection and result after `connect`, from the connection before it
/// and the handshake that would be made. An open connection is kept and no
/// handshake is made.
pub open spec fn connect_result<C>(conn: Option<C>, h: Handshake<C>) -> (Option<C>, Result<(), TdbError>) {
    match conn {
        Some(_) => (conn, Ok(())),
        None => match h {
            Handshake::Accepted(c) => (Some(c), Ok(())),
            Handshake::Refused(reason) => (None, Err(TdbError::ConnFailed(reason))),
            Handshake::Failed(reason) => (None, Err(TdbError::ConnFailed(reason))),
        },
    }
}

/// The connection after `disconnect`, and the one to close gracefully.
pub open spec fn disconnect_result<C>(conn: Option<C>) -> (Option<C>, Option<C>) {
    (None, conn)
}

/// The frame that an operation sends: its name, the table, and the data and
/// constraint where the operation carries them (`null` where it does not).
pub open spec fn operation_frame(
    a: Action,
    table: Seq<char>,
    data: Seq<char>,
    where_constraint: Seq<char>,
) -> Seq<char> {
    frame_text(
        a,
        json_string_literal(table),
        if carries_data(a) { Some(data) } else { None },
        if carries_where(a) { Some(where_constraint) } else { None },
    )
}

/// A JSON list written from the texts of its items.
pub open spec fn joined(items: Seq<Seq<char>>) -> Seq<char>
    decreases items.len(),
{
    if items.len() == 0 {
        Seq::empty()
    } else if items.len() == 1 {
        items[0]
    } else {
        joined(items.drop_last()) + ","@ + items.last()
    }
}

pub open spec fn list_text(items: Seq<Seq<char>>) -> Seq<char> {
    "["@ + joined(items) + "]"@
}

pub open spec fn texts_view(items: Seq<&str>) -> Seq<Seq<char>> {
    items.map_values(|s: &str| s@)
}

/// Writes records' JSON texts as one JSON list, in the given order.
pub fn list_of_records(items: &Vec<&str>) -> (r: String)
    ensures
        r@ == list_text(texts_view(items@)),
{
    let mut out = String::from_str("[");
    let mut i: usize = 0;
    while i < items.len()
        invariant
            i <= items@.len(),
            out@ == "["@ + joined(texts_view(items@).take(i as int)),
        decreases items.len() - i,
    {
        proof {
            let prefix = texts_view(items@).take(i as int + 1);
            assert(prefix.drop_last() =~= texts_view(items@).take(i as int));
        }
        if i > 0 {
            out.append(",");
        }
        out.append(items[i]);
        i = i + 1;
    }
    assert(texts_view(items@).take(i as int) =~= texts_view(items@));
    out.append("]");
    out
}

/// A client session: the endpoint, and the connection once one is open.
pub struct Tobsdb<C> {
    url: String,
    conn: Option<C>,
}

impl<C> Tobsdb<C> {
    pub closed spec fn connection(&self) -> Option<C> {
        self.conn
    }

    /// The endpoint URL, query parameters included.
    pub closed spec fn endpoint_view(&self) -> Seq<char> {
        self.url@
    }

    /// Builds the endpoint from the base URL and the query parameters. No
    /// connection is opened.
    pub fn new(url: &str, db_name: &str, schema: &str, auth_parms: Option<TdbAuthParms>) -> (r: Result<Tobsdb<C>, TdbError>)
        ensures
            r is Ok <==> url_accepts(url@),
            r is Ok ==> r->Ok_0.connection() is None && r->Ok_0.endpoint_view() == url_with_query(
                url@,
                endpoint_pairs(db_name@, schema@, auth_view(auth_parms)),
            ),
            r is Err ==> r->Err_0 is InvalidUrl,
    {
        let params = endpoint_params(db_name, schema, &auth_parms);
        match parse_endpoint(url, &params) {
            Ok(endpoint) => Ok(Tobsdb { url: endpoint, conn: None }),
            Err(reason) => Err(TdbError::InvalidUrl(reason)),
        }
    }

    /// The endpoint, query parameters included.
    pub fn endpoint(&self) -> (r: &str)
        ensures
            r@ == self.endpoint_view(),
    {
        self.url.as_str()
    }

    pub fn is_connected(&self) -> (r: bool)
        ensures
            r == self.connection() is Some,
    {
        self.conn.is_some()
    }

    /// Records how a connection attempt ended. While a connection is open
    /// the attempt is ignored.
    pub fn finish_connect(&mut self, h: Handshake<C>) -> (r: Result<(), TdbError>)
        ensures
            (final(self).connection(), r) == connect_result(old(self).connection(), h),
            final(self).endpoint_view() == old(self).endpoint_view(),
    {
        if self.conn.is_some() {
            return Ok(());
        }
        match h {
            Handshake::Accepted(c) => {
                self.conn = Some(c);
                Ok(())
            },
            Handshake::Refused(reason) => Err(TdbError::ConnFailed(reason)),
            Handshake::Failed(reason) => Err(TdbError::ConnFailed(reason)),
        }
    }

    /// Drops the connection from the session and hands it out to be closed.
    pub fn take_connection(&mut self) -> (r: Option<C>)
        ensures
            (final(self).connection(), r) == disconnect_result(old(self).connection()),
            final(self).endpoint_view() == old(self).endpoint_view(),
    {
        self.conn.take()
    }

    /// The open connection, to send a frame and read the reply on.
    pub fn connection_mut(&mut self) -> (r: Option<&mut C>)
        ensures
            r is None <==> old(self).connection() is None,
            r matches Some(c) ==> *c == old(self).connection()->Some_0,
            final(self).endpoint_view() == old(self).endpoint_view(),
    {
        self.conn.as_mut()
    }

    /// The frame of one request, provided a connection is open.
    pub fn prepare_query(
        &self,
        a: Action,
        table: &str,
        data: Option<&str>,
        where_constraint: Option<&str>,
    ) -> (r: Result<String, TdbError>)
        ensures
            self.connection() is None ==> r == Err::<String, TdbError>(TdbError::Disconnected),
            self.connection() is Some ==> r is Ok && r->Ok_0@ == frame_text(
                a,
                json_string_literal(table@),
                opt_view(data),
                opt_view(where_constraint),
            ),
    {
        if self.conn.is_none() {
            return Err(TdbError::Disconnected);
        }
        Ok(request_frame(a, table, data, where_constraint))
    }

    /// Creates one row in `table`. Returns the request frame, provided a connection is open.
    pub fn create(&self, table: &str, data: &str) -> (r: Result<String, TdbError>)
        ensures
            self.connection() is None ==> r == Err::<String, TdbError>(TdbError::Disconnected),
            self.connection() is Some ==> r is Ok && r->Ok_0@ == operation_frame(
                Action::Create,
                table@,
                data@,
                ""@,
            ),
    {
        self.prepare_query(Action::Create, table, Some(data), None)
    }

    /// Creates rows in `table`, one per record, in the given order. Returns the request frame, provided a connection is open.
    pub fn create_many(&self, table: &str, data: Vec<&str>) -> (r: Result<String, TdbError>)
        ensures
            self.connection() is None ==> r == Err::<String, TdbError>(TdbError::Disconnected),
            self.connection() is Some ==> r is Ok && r->Ok_0@ == operation_frame(
                Action::CreateMany,
                table@,
                list_text(texts_view(data@)),
                ""@,
            ),
    {
        let records = list_of_records(&data);
        self.prepare_query(Action::CreateMany, table, Some(records.as_str()), None)
    }

    /// Finds the row of `table` that the constraint identifies. Returns the request frame, provided a connection is open.
    pub fn find_unqiue(&self, table: &str, where_constraint: &str) -> (r: Result<String, TdbError>)
        ensures
            self.connection() is None ==> r == Err::<String, TdbError>(TdbError::Disconnected),
            self.connection() is Some ==> r is Ok && r->Ok_0@ == operation_frame(
                Action::FindUnique,
                table@,
                ""@,
                where_constraint@,
            ),
    {
        self.prepare_query(Action::FindUnique, table, None, Some(where_constraint))
    }

    /// Finds the rows of `table` that meet the constraint. Returns the request frame, provided a connection is open.
    pub fn find_many(&self, table: &str, where_constraint: &str) -> (r: Result<String, TdbError>)
        ensures
            self.connection() is None ==> r == Err::<String, TdbError>(TdbError::Disconnected),
            self.connection() is Some ==> r is Ok && r->Ok_0@ == operation_frame(
                Action::FindMany,
                table@,
                ""@,
                where_constraint@,
            ),
    {
        self.prepare_query(Action::FindMany, table, None, Some(where_constraint))
    }

    /// Updates the row of `table` that the constraint identifies. Returns the request frame, provided a connection is open.
    pub fn update_unqiue(&self, table: &str, data: &str, where_constraint: &str) -> (r: Result<String, TdbError>)
        ensures
            self.connection() is None ==> r == Err::<String, TdbError>(TdbError::Disconnected),
            self.connection() is Some ==> r is Ok && r->Ok_0@ == operation_frame(
                Action::UpdateUnique,
                table@,
                data@,
                where_constraint@,
            ),
    {
        self.prepare_query(Action::UpdateUnique, table, Some(data), Some(where_constraint))
    }

    /// Updates the rows of `table` that meet the constraint. Returns the request frame, provided a connection is open.
    pub fn update_many(&self, table: &str, data: &str, where_constraint: &str) -> (r: Result<String, TdbError>)
        ensures
            self.connection() is None ==> r == Err::<String, TdbError>(TdbError::Disconnected),
            self.connection() is Some ==> r is Ok && r->Ok_0@ == operation_frame(
                Action::UpdateMany,
                table@,
                data@,
                where_constraint@,
            ),
    {
        self.prepare_query(Action::UpdateMany, table, Some(data), Some(where_constraint))
    }

    /// Deletes the row of `table` that the constraint identifies. Returns the request frame, provided a connection is open.
    pub fn delete_unqiue(&self, table: &str, where_constraint: &str) -> (r: Result<String, TdbError>)
        ensures
            self.connection() is None ==> r == Err::<String, TdbError>(TdbError::Disconnected),
            self.connection() is Some ==> r is Ok && r->Ok_0@ == operation_frame(
                Action::DeleteUnique,
                table@,
                ""@,
                where_constraint@,
            ),
    {
        self.prepare_query(Action::DeleteUnique, table, None, Some(where_constraint))
    }

    /// Deletes the rows of `table` that meet the constraint. Returns the request frame, provided a connection is open.
    pub fn delete_many(&self, table: &str, where_constraint: &str) -> (r: Result<String, TdbError>)
        ensures
            self.connection() is None ==> r == Err::<String, TdbError>(TdbError::Disconnected),
            self.connection() is Some ==> r is Ok && r->Ok_0@ == operation_frame(
                Action::DeleteMany,
                table@,
                ""@,
                where_constraint@,
            ),
    {
        self.prepare_query(Action::DeleteMany, table, None, Some(where_constraint))
    }
}

/// Connecting twice in a row: once a connect has succeeded, the next one
/// succeeds and keeps the connection, whatever a new handshake would give.
pub proof fn connect_is_idempotent<C>(conn: Option<C>, first: Handshake<C>, second: Handshake<C>)
    requires
        connect_result(conn, first).1 is Ok,
    ensures
        connect_result(conn, first).0 is Some,
        connect_result(connect_result(conn, first).0, second) == (
            connect_result(conn, first).0,
            Ok::<(), TdbError>(()),
        ),
{
}

/// Disconnecting a session that never connected closes nothing and leaves it
/// without a connection.
pub proof fn disconnect_without_connection_is_noop<C>()
    ensures
        disconnect_result::<C>(None) == (None::<C>, None::<C>),
{
}

/// A handshake whose response carries the error header fails the connect with
/// `ConnFailed` and stores no connection.
pub proof fn refused_handshake_stores_nothing<C>(reason: String)
    ensures
        connect_result::<C>(None, Handshake::Refused(reason)) == (
            None::<C>,
            Err::<(), TdbError>(TdbError::ConnFailed(reason)),
        ),
{
}

/// Every operation's frame names the operation and the caller's table;
/// creates send no constraint, finds and deletes no data, updates both.
pub proof fn operation_frame_fields(a: Action, table: Seq<char>, data: Seq<char>, where_constraint: Seq<char>)
    ensures
        operation_frame(a, table, data, where_constraint) == "{\"action\":\""@ + action_name(a)
            + "\",\"table\":"@ + json_string_literal(table) + ",\"data\":"@
            + (if carries_data(a) { data } else { "null"@ }) + ",\"where\":"@
            + (if carries_where(a) { where_constraint } else { "null"@ }) + "}"@,
        (a is Create || a is CreateMany) ==> carries_data(a) && !carries_where(a),
        (a is FindUnique || a is FindMany || a is DeleteUnique || a is DeleteMany) ==> !carries_data(a)
            && carries_where(a),
        (a is UpdateUnique || a is UpdateMany) ==> carries_data(a) && carries_where(a),
{
}

} // verus!
