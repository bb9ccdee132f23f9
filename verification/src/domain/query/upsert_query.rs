//! Registering a query with the service.

use vstd::prelude::*;
use crate::json::{entries_view, lemma_array_view, push_entry, FromJson, Json, JsonView};
use crate::views::views_of;

verus! {

/// The name of the operation.
pub const UPSERT_QUERY_OPERATION: &'static str = "UpsertQuery";

/// The text of the operation.
pub const UPSERT_QUERY_TEXT: &'static str =
    "mutation UpsertQuery($session_id: Int!, $object: queries_insert_input!, $on_conflict: queries_on_conflict!, $favs_last_24h: Boolean! = false, $favs_last_7d: Boolean! = false, $favs_last_30d: Boolean! = false, $favs_all_time: Boolean! = true) {  insert_queries_one(object: $object, on_conflict: $on_conflict) {    ...Query    favorite_queries(where: {user_id: {_eq: $session_id}}, limit: 1) {      created_at      __typename    }    __typename  }}fragment Query on queries {  ...BaseQuery  ...QueryVisualizations  ...QueryForked  ...QueryUsers  ...QueryTeams  ...QueryFavorites  __typename}fragment BaseQuery on queries {  id  dataset_id  name  description  query  is_private  is_temp  is_archived  created_at  updated_at  schedule  tags  parameters  __typename}fragment QueryVisualizations on queries {  visualizations {    id    type    name    options    created_at    __typename  }  __typename}fragment QueryForked on queries {  forked_query {    id    name    user {      name      __typename    }    team {      handle      __typename    }    __typename  }  __typename}fragment QueryUsers on queries {  user {    ...User    __typename  }  team {    id    name    handle    profile_image_url    __typename  }  __typename}fragment User on users {  id  name  profile_image_url  __typename}fragment QueryTeams on queries {  team {    ...Team    __typename  }  __typename}fragment Team on teams {  id  name  handle  profile_image_url  __typename}fragment QueryFavorites on queries {  query_favorite_count_all @include(if: $favs_all_time) {    favorite_count    __typename  }  query_favorite_count_last_24h @include(if: $favs_last_24h) {    favorite_count    __typename  }  query_favorite_count_last_7d @include(if: $favs_last_7d) {    favorite_count    __typename  }  query_favorite_count_last_30d @include(if: $favs_last_30d) {    favorite_count    __typename  }  __typename}";

/// The dataset that every query is registered for.
pub const DATASET_ID: i32 = 4;

/// The one visualization of a query, as it goes on the wire.
pub open spec fn visualization_data() -> JsonView {
    JsonView::Object(
        seq![
            ("type"@, JsonView::String("table"@)),
            ("name"@, JsonView::String("Query results"@)),
            ("options"@, JsonView::Object(Seq::empty())),
        ],
    )
}

/// What happens where a visualization exists already, as it goes on the wire.
pub open spec fn visualizations_on_conflict() -> JsonView {
    JsonView::Object(
        seq![
            ("constraint"@, JsonView::String("visualizations_pkey"@)),
            ("update_columns"@, JsonView::Array(Seq::empty())),
        ],
    )
}

/// The visualizations of a query, as they go on the wire.
pub open spec fn visualizations() -> JsonView {
    JsonView::Object(
        seq![
            ("data"@, JsonView::Array(seq![visualization_data()])),
            ("on_conflict"@, visualizations_on_conflict()),
        ],
    )
}

/// The query that is registered, as it goes on the wire: temporary, public,
/// under the name `NewQuery`, owned by `user_id`.
pub open spec fn upsert_query_object(user_id: i32, query: Seq<char>) -> JsonView {
    JsonView::Object(
        seq![
            ("schedule"@, JsonView::Null),
            ("dataset_id"@, JsonView::Integer(DATASET_ID as int)),
            ("name"@, JsonView::String("NewQuery"@)),
            ("query"@, JsonView::String(query)),
            ("user_id"@, JsonView::Integer(user_id as int)),
            ("team_id"@, JsonView::Null),
            ("description"@, JsonView::String(""@)),
            ("is_archived"@, JsonView::Bool(false)),
            ("is_temp"@, JsonView::Bool(true)),
            ("is_private"@, JsonView::Bool(false)),
            ("parameters"@, JsonView::Array(Seq::empty())),
            ("visualizations"@, visualizations()),
        ],
    )
}

/// What happens where the query exists already, as it goes on the wire.
pub open spec fn upsert_query_on_conflict() -> JsonView {
    JsonView::Object(
        seq![
            ("constraint"@, JsonView::String("queries_pkey"@)),
            ("update_columns"@, JsonView::Array(Seq::empty())),
        ],
    )
}

/// The variables of the operation, as they go on the wire.
pub open spec fn upsert_query_variables(user_id: i32, session_id: i32, query: Seq<char>) -> JsonView {
    JsonView::Object(
        seq![
            ("favs_last_24h"@, JsonView::Bool(false)),
            ("favs_last_7d"@, JsonView::Bool(false)),
            ("favs_last_30d"@, JsonView::Bool(false)),
            ("favs_all_time"@, JsonView::Bool(true)),
            ("object"@, upsert_query_object(user_id, query)),
            ("on_conflict"@, upsert_query_on_conflict()),
            ("session_id"@, JsonView::Integer(session_id as int)),
        ],
    )
}

/// The envelope as it goes on the wire.
pub open spec fn upsert_query_envelope(user_id: i32, session_id: i32, query: Seq<char>) -> JsonView {
    JsonView::Object(
        seq![
            ("operationName"@, JsonView::String(UPSERT_QUERY_OPERATION@)),
            ("variables"@, upsert_query_variables(user_id, session_id, query)),
            ("query"@, JsonView::String(UPSERT_QUERY_TEXT@)),
        ],
    )
}

/// The one visualization that a registered query gets.
#[derive(Debug, PartialEq, Eq)]
pub struct UpsertQueryVisualizationsData {
    kind: &'static str,
    name: &'static str,
    options: Json,
}

impl View for UpsertQueryVisualizationsData {
    type V = JsonView;

    closed spec fn view(&self) -> JsonView {
        JsonView::Object(
            seq![
                ("type"@, JsonView::String(self.kind@)),
                ("name"@, JsonView::String(self.name@)),
                ("options"@, self.options@),
            ],
        )
    }
}

impl Default for UpsertQueryVisualizationsData {
    /// A table under the name `Query results`, with no options.
    fn default() -> (data: UpsertQueryVisualizationsData)
        ensures
            data@ == visualization_data(),
    {
        UpsertQueryVisualizationsData {
            kind: "table",
            name: "Query results",
            options: Json::empty_object(),
        }
    }
}

impl UpsertQueryVisualizationsData {
    /// The visualization as a JSON value.
    pub fn to_json(&self) -> (j: Json)
        ensures
            j@ == self@,
    {
        let mut entries: Vec<(String, Json)> = Vec::new();
        push_entry(&mut entries, "type", Json::string(self.kind));
        push_entry(&mut entries, "name", Json::string(self.name));
        push_entry(&mut entries, "options", self.options.clone());
        assert(entries_view(entries@) =~= self@->Object_0);
        Json::object(entries)
    }
}

/// What happens where a visualization exists already.
#[derive(Debug, PartialEq, Eq)]
pub struct UpsertQueryVisualizationsOnConfilct {
    constraint: &'static str,
    update_columns: Vec<Json>,
}

impl View for UpsertQueryVisualizationsOnConfilct {
    type V = JsonView;

    closed spec fn view(&self) -> JsonView {
        JsonView::Object(
            seq![
                ("constraint"@, JsonView::String(self.constraint@)),
                ("update_columns"@, JsonView::Array(views_of(self.update_columns@))),
            ],
        )
    }
}

impl Default for UpsertQueryVisualizationsOnConfilct {
    /// The primary key of the visualizations, and no column to update.
    fn default() -> (on_conflict: UpsertQueryVisualizationsOnConfilct)
        ensures
            on_conflict@ == visualizations_on_conflict(),
    {
        let update_columns: Vec<Json> = Vec::new();
        assert(views_of(update_columns@) =~= Seq::empty());
        UpsertQueryVisualizationsOnConfilct { constraint: "visualizations_pkey", update_columns }
    }
}

impl UpsertQueryVisualizationsOnConfilct {
    /// The rule as a JSON value.
    pub fn to_json(&self) -> (j: Json)
        ensures
            j@ == self@,
    {
        let mut entries: Vec<(String, Json)> = Vec::new();
        push_entry(&mut entries, "constraint", Json::string(self.constraint));
        push_entry(&mut entries, "update_columns", Json::array(&self.update_columns));
        assert(entries_view(entries@) =~= self@->Object_0);
        Json::object(entries)
    }
}

/// The visualizations of a registered query.
#[derive(Debug, PartialEq, Eq)]
pub struct UpsertQueryVisualizations {
    data: Vec<UpsertQueryVisualizationsData>,
    on_conflict: UpsertQueryVisualizationsOnConfilct,
}

impl View for UpsertQueryVisualizations {
    type V = JsonView;

    closed spec fn view(&self) -> JsonView {
        JsonView::Object(
            seq![
                ("data"@, JsonView::Array(views_of(self.data@))),
                ("on_conflict"@, self.on_conflict@),
            ],
        )
    }
}

impl Default for UpsertQueryVisualizations {
    /// The one default visualization, under the default rule.
    fn default() -> (visualizations: UpsertQueryVisualizations)
        ensures
            visualizations@ == self::visualizations(),
    {
        let mut data: Vec<UpsertQueryVisualizationsData> = Vec::new();
        data.push(UpsertQueryVisualizationsData::default());
        assert(views_of(data@) =~= seq![visualization_data()]);
        UpsertQueryVisualizations {
            data,
            on_conflict: UpsertQueryVisualizationsOnConfilct::default(),
        }
    }
}

impl UpsertQueryVisualizations {
    /// The visualizations as a JSON value.
    pub fn to_json(&self) -> (j: Json)
        ensures
            j@ == self@,
    {
        let mut data: Vec<Json> = Vec::new();
        let mut i: usize = 0;
        while i < self.data.len()
            invariant
                i <= self.data.len(),
                data.len() == i,
                forall|k: int| 0 <= k < i ==> data@[k]@ == self.data@[k]@,
            decreases self.data.len() - i,
        {
            data.push(self.data[i].to_json());
            i += 1;
        }
        proof {
            lemma_array_view(data);
            assert(views_of(data@) =~= views_of(self.data@));
        }
        let mut entries: Vec<(String, Json)> = Vec::new();
        push_entry(&mut entries, "data", Json::Array(data));
        push_entry(&mut entries, "on_conflict", self.on_conflict.to_json());
        assert(entries_view(entries@) =~= self@->Object_0);
        Json::object(entries)
    }
}

/// The query that is registered.
#[derive(Debug, PartialEq, Eq)]
pub struct UpsertQueryVariablesObject {
    schedule: Option<Json>,
    dataset_id: i32,
    name: &'static str,
    query: String,
    user_id: i32,
    team_id: Option<Json>,
    description: &'static str,
    is_archived: bool,
    is_temp: bool,
    is_private: bool,
    parameters: Vec<Json>,
    visualizations: UpsertQueryVisualizations,
}

/// A value that may be absent, as it goes on the wire: `null` where it is.
pub open spec fn optional(found: Option<Json>) -> JsonView {
    match found {
        Some(j) => j@,
        None => JsonView::Null,
    }
}

fn optional_to_json(found: &Option<Json>) -> (j: Json)
    ensures
        j@ == optional(*found),
{
    match found {
        Some(j) => j.clone(),
        None => Json::Null,
    }
}

impl View for UpsertQueryVariablesObject {
    type V = JsonView;

    closed spec fn view(&self) -> JsonView {
        JsonView::Object(
            seq![
                ("schedule"@, optional(self.schedule)),
                ("dataset_id"@, JsonView::Integer(self.dataset_id as int)),
                ("name"@, JsonView::String(self.name@)),
                ("query"@, JsonView::String(self.query@)),
                ("user_id"@, JsonView::Integer(self.user_id as int)),
                ("team_id"@, optional(self.team_id)),
                ("description"@, JsonView::String(self.description@)),
                ("is_archived"@, JsonView::Bool(self.is_archived)),
                ("is_temp"@, JsonView::Bool(self.is_temp)),
                ("is_private"@, JsonView::Bool(self.is_private)),
                ("parameters"@, JsonView::Array(views_of(self.parameters@))),
                ("visualizations"@, self.visualizations@),
            ],
        )
    }
}

impl UpsertQueryVariablesObject {
    /// The query `query`, owned by `user_id`.
    pub fn new(user_id: i32, query: String) -> (object: UpsertQueryVariablesObject)
        ensures
            object@ == upsert_query_object(user_id, query@),
    {
        let parameters: Vec<Json> = Vec::new();
        assert(views_of(parameters@) =~= Seq::empty());
        UpsertQueryVariablesObject {
            user_id,
            query,
            schedule: None,
            dataset_id: DATASET_ID,
            name: "NewQuery",
            team_id: None,
            description: "",
            is_archived: false,
            is_temp: true,
            is_private: false,
            parameters,
            visualizations: UpsertQueryVisualizations::default(),
        }
    }

    /// The query as a JSON value.
    pub fn to_json(&self) -> (j: Json)
        ensures
            j@ == self@,
    {
        let mut entries: Vec<(String, Json)> = Vec::new();
        push_entry(&mut entries, "schedule", optional_to_json(&self.schedule));
        push_entry(&mut entries, "dataset_id", Json::integer(self.dataset_id as i128));
        push_entry(&mut entries, "name", Json::string(self.name));
        push_entry(&mut entries, "query", Json::string(self.query.as_str()));
        push_entry(&mut entries, "user_id", Json::integer(self.user_id as i128));
        push_entry(&mut entries, "team_id", optional_to_json(&self.team_id));
        push_entry(&mut entries, "description", Json::string(self.description));
        push_entry(&mut entries, "is_archived", Json::Bool(self.is_archived));
        push_entry(&mut entries, "is_temp", Json::Bool(self.is_temp));
        push_entry(&mut entries, "is_private", Json::Bool(self.is_private));
        push_entry(&mut entries, "parameters", Json::array(&self.parameters));
        push_entry(&mut entries, "visualizations", self.visualizations.to_json());
        assert(entries_view(entries@) =~= self@->Object_0);
        Json::object(entries)
    }
}

/// What happens where the query exists already.
#[derive(Debug, PartialEq, Eq)]
pub struct UpsertQueryOnConflict {
    constraint: String,
    update_columns: Vec<Json>,
}

impl View for UpsertQueryOnConflict {
    type V = JsonView;

    closed spec fn view(&self) -> JsonView {
        JsonView::Object(
            seq![
                ("constraint"@, JsonView::String(self.constraint@)),
                ("update_columns"@, JsonView::Array(views_of(self.update_columns@))),
            ],
        )
    }
}

impl Default for UpsertQueryOnConflict {
    /// The primary key of the queries, and no column to update.
    fn default() -> (on_conflict: UpsertQueryOnConflict)
        ensures
            on_conflict@ == upsert_query_on_conflict(),
    {
        let update_columns: Vec<Json> = Vec::new();
        assert(views_of(update_columns@) =~= Seq::empty());
        UpsertQueryOnConflict { constraint: "queries_pkey".to_owned(), update_columns }
    }
}

impl UpsertQueryOnConflict {
    /// The rule as a JSON value.
    pub fn to_json(&self) -> (j: Json)
        ensures
            j@ == self@,
    {
        let mut entries: Vec<(String, Json)> = Vec::new();
        push_entry(&mut entries, "constraint", Json::string(self.constraint.as_str()));
        push_entry(&mut entries, "update_columns", Json::array(&self.update_columns));
        assert(entries_view(entries@) =~= self@->Object_0);
        Json::object(entries)
    }
}

/// The variables of the operation.
#[derive(Debug, PartialEq, Eq)]
pub struct UpsertQueryVariables {
    favs_last_24h: bool,
    favs_last_7d: bool,
    favs_last_30d: bool,
    favs_all_time: bool,
    object: UpsertQueryVariablesObject,
    on_conflict: UpsertQueryOnConflict,
    session_id: i32,
}

impl View for UpsertQueryVariables {
    type V = JsonView;

    closed spec fn view(&self) -> JsonView {
        JsonView::Object(
            seq![
                ("favs_last_24h"@, JsonView::Bool(self.favs_last_24h)),
                ("favs_last_7d"@, JsonView::Bool(self.favs_last_7d)),
                ("favs_last_30d"@, JsonView::Bool(self.favs_last_30d)),
                ("favs_all_time"@, JsonView::Bool(self.favs_all_time)),
                ("object"@, self.object@),
                ("on_conflict"@, self.on_conflict@),
                ("session_id"@, JsonView::Integer(self.session_id as int)),
            ],
        )
    }
}

impl UpsertQueryVariables {
    /// The variables that register `query` for `user_id` in the session
    /// `session_id`.
    pub fn new(user_id: i32, session_id: i32, query: String) -> (variables: UpsertQueryVariables)
        ensures
            variables@ == upsert_query_variables(user_id, session_id, query@),
    {
        UpsertQueryVariables {
            session_id,
            favs_last_24h: false,
            favs_last_7d: false,
            favs_last_30d: false,
            favs_all_time: true,
            object: UpsertQueryVariablesObject::new(user_id, query),
            on_conflict: UpsertQueryOnConflict::default(),
        }
    }

    /// The variables as a JSON value.
    pub fn to_json(&self) -> (j: Json)
        ensures
            j@ == self@,
    {
        let mut entries: Vec<(String, Json)> = Vec::new();
        push_entry(&mut entries, "favs_last_24h", Json::Bool(self.favs_last_24h));
        push_entry(&mut entries, "favs_last_7d", Json::Bool(self.favs_last_7d));
        push_entry(&mut entries, "favs_last_30d", Json::Bool(self.favs_last_30d));
        push_entry(&mut entries, "favs_all_time", Json::Bool(self.favs_all_time));
        push_entry(&mut entries, "object", self.object.to_json());
        push_entry(&mut entries, "on_conflict", self.on_conflict.to_json());
        push_entry(&mut entries, "session_id", Json::integer(self.session_id as i128));
        assert(entries_view(entries@) =~= self@->Object_0);
        Json::object(entries)
    }
}

/// The request envelope of the operation.
#[derive(Debug, PartialEq, Eq)]
pub struct UpsertQuery {
    operation_name: String,
    variables: UpsertQueryVariables,
    query: &'static str,
}

impl View for UpsertQuery {
    type V = JsonView;

    closed spec fn view(&self) -> JsonView {
        JsonView::Object(
            seq![
                ("operationName"@, JsonView::String(self.operation_name@)),
                ("variables"@, self.variables@),
                ("query"@, JsonView::String(self.query@)),
            ],
        )
    }
}

impl UpsertQuery {
    /// The envelope that registers `query` for `user_id` in the session
    /// `session_id`.
    pub fn new(user_id: i32, session_id: i32, query: String) -> (envelope: UpsertQuery)
        ensures
            envelope@ == upsert_query_envelope(user_id, session_id, query@),
    {
        UpsertQuery {
            operation_name: UPSERT_QUERY_OPERATION.to_owned(),
            variables: UpsertQueryVariables::new(user_id, session_id, query),
            query: UPSERT_QUERY_TEXT,
        }
    }

    /// The envelope as a JSON value.
    pub fn to_json(&self) -> (j: Json)
        ensures
            j@ == self@,
    {
        let mut entries: Vec<(String, Json)> = Vec::new();
        push_entry(&mut entries, "operationName", Json::string(self.operation_name.as_str()));
        push_entry(&mut entries, "variables", self.variables.to_json());
        push_entry(&mut entries, "query", Json::string(self.query));
        assert(entries_view(entries@) =~= self@->Object_0);
        Json::object(entries)
    }
}

/// What the service answers: the id under which the query is registered.
#[derive(Debug, PartialEq, Eq)]
pub struct UpsertQueryResponse {
    query_id: i32,
}

impl View for UpsertQueryResponse {
    type V = i32;

    /// The id of the query.
    closed spec fn view(&self) -> i32 {
        self.query_id
    }
}

impl FromJson for UpsertQueryResponse {
    /// The integer at `data.insert_queries_one.id`, where it fits 32 bits.
    open spec fn decoded(j: JsonView) -> Option<i32> {
        match j.member("data"@) {
            Some(data) => match data.member("insert_queries_one"@) {
                Some(inserted) => match inserted.integer_member("id"@) {
                    Some(id) => if i32::MIN <= id <= i32::MAX {
                        Some(id as i32)
                    } else {
                        None
                    },
                    None => None,
                },
                None => None,
            },
            None => None,
        }
    }

    fn from_json(j: &Json) -> (found: Option<UpsertQueryResponse>) {
        let data = match j.get("data") {
            Some(data) => data,
            None => { return None; },
        };
        let inserted = match data.get("insert_queries_one") {
            Some(inserted) => inserted,
            None => { return None; },
        };
        match inserted.get_integer("id") {
            Some(id) => if -2147483648 <= id && id <= 2147483647 {
                Some(UpsertQueryResponse { query_id: id as i32 })
            } else {
                None
            },
            None => None,
        }
    }
}

impl UpsertQueryResponse {
    /// The id of the query.
    pub fn query_id(&self) -> (query_id: i32)
        ensures
            query_id == self@,
    {
        self.query_id
    }
}

} // verus!
