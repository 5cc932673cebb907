//! What the bot keeps for a guild: a counter, the guild's directory of
//! members and the web comics it follows.

use crate::client_data::document::{
    member, row_items, rows_in, string_to_json, strings_of, strings_to_json, table_of,
    table_to_json, text_fields, text_items, text_map_of, text_map_to_json, text_members, text_of,
    texts_in,
};
use crate::text::{rows, text_values, text_view, texts};
use crate::client_data::{ClientData, GuildId};
use crate::decimal::{decimal, decimal_string};
use crate::dumb_error::DumbError;
use crate::json::{
    fields_insert, json_bytes, json_model, json_null, json_number, json_object, json_parsed,
    new_fields, object_model, parse_json, render_json, value_as_object, value_as_object_mut,
    value_as_u64, value_get, Fields, Json,
};
use crate::serde_conversions::lookup;
use crate::string_map::{with_entry, without_entry, StringMap};
use vstd::prelude::*;

verus! {

/// The fields of a guild's record, as plain values.
pub struct GuildFields {
    pub count: u64,
    pub whois_url: Option<Seq<char>>,
    pub whois_headers: Seq<Seq<char>>,
    pub whois_data: Seq<Seq<Seq<char>>>,
    pub webtoons: Map<Seq<char>, Seq<char>>,
}

/// The fields of a guild that the bot has nothing for.
pub open spec fn empty_fields() -> GuildFields {
    GuildFields {
        count: 0,
        whois_url: None,
        whois_headers: Seq::empty(),
        whois_data: Seq::empty(),
        webtoons: Map::empty(),
    }
}

/// The counter that the document `doc` gives: its member `count` where that
/// is a number from 0 to `u64::MAX`, and 0 otherwise.
pub open spec fn count_in(doc: Json) -> u64 {
    match member(doc, "count"@) {
        Some(Json::Integer(number)) => if 0 <= number <= u64::MAX {
            number as u64
        } else {
            0
        },
        _ => 0,
    }
}

/// The directory's address that `doc` gives: its member `whois_url` where
/// that is a string.
pub open spec fn url_in(doc: Json) -> Option<Seq<char>> {
    match member(doc, "whois_url"@) {
        Some(found) => text_of(found),
        None => None,
    }
}

/// The column names that `doc` gives: the strings in its member
/// `whois_headers` where that is an array.
pub open spec fn headers_in(doc: Json) -> Seq<Seq<char>> {
    match member(doc, "whois_headers"@) {
        Some(Json::Array(items)) => texts_in(items),
        _ => Seq::empty(),
    }
}

/// The rows that `doc` gives: for each array in its member `whois_data`,
/// where that is an array, the strings in it.
pub open spec fn data_in(doc: Json) -> Seq<Seq<Seq<char>>> {
    match member(doc, "whois_data"@) {
        Some(Json::Array(items)) => rows_in(items),
        _ => Seq::empty(),
    }
}

/// The web comics that `doc` gives: the string members of its member
/// `webtoons` where that is an object.
pub open spec fn webtoons_in(doc: Json) -> Map<Seq<char>, Seq<char>> {
    match member(doc, "webtoons"@) {
        Some(Json::Object(fields)) => text_members(fields),
        _ => Map::empty(),
    }
}

/// The fields that the document `doc` gives.
pub open spec fn fields_in(doc: Json) -> GuildFields {
    GuildFields {
        count: count_in(doc),
        whois_url: url_in(doc),
        whois_headers: headers_in(doc),
        whois_data: data_in(doc),
        webtoons: webtoons_in(doc),
    }
}

/// The fields that a file with `contents` gives: those of the document that
/// the bytes spell, and the empty ones where there is no file or no document.
pub open spec fn fields_from(contents: Option<Seq<u8>>) -> GuildFields {
    match contents {
        Some(bytes) => match json_parsed(bytes) {
            Some(doc) => fields_in(doc),
            None => empty_fields(),
        },
        None => empty_fields(),
    }
}

/// The member that stands for the directory's address.
pub open spec fn url_member(url: Option<Seq<char>>) -> Json {
    match url {
        Some(text) => Json::Text(text),
        None => Json::Null,
    }
}

/// `staged` with the counter written into it.
pub open spec fn with_count(staged: Map<Seq<char>, Json>, fields: GuildFields) -> Map<
    Seq<char>,
    Json,
> {
    staged.insert("count"@, Json::Integer(fields.count as int))
}

/// `staged` with the directory written into it.
pub open spec fn with_whois(staged: Map<Seq<char>, Json>, fields: GuildFields) -> Map<
    Seq<char>,
    Json,
> {
    staged.insert("whois_url"@, url_member(fields.whois_url)).insert(
        "whois_headers"@,
        Json::Array(text_items(fields.whois_headers)),
    ).insert("whois_data"@, Json::Array(row_items(fields.whois_data)))
}

/// `staged` with the web comics written into it.
pub open spec fn with_webtoons(staged: Map<Seq<char>, Json>, fields: GuildFields) -> Map<
    Seq<char>,
    Json,
> {
    staged.insert("webtoons"@, Json::Object(text_fields(fields.webtoons)))
}

/// The members of the document that holds all of `fields`.
pub open spec fn document_of(fields: GuildFields) -> Map<Seq<char>, Json> {
    with_webtoons(with_whois(with_count(Map::empty(), fields), fields), fields)
}

/// The names of the document's five members differ from each other.
pub proof fn lemma_member_names()
    ensures
        "count"@.len() == 5,
        "whois_url"@.len() == 9,
        "whois_headers"@.len() == 13,
        "whois_data"@.len() == 10,
        "webtoons"@.len() == 8,
{
    reveal_strlit("count");
    reveal_strlit("whois_url");
    reveal_strlit("whois_headers");
    reveal_strlit("whois_data");
    reveal_strlit("webtoons");
}

/// `members` holds the counter of `fields`.
pub open spec fn holds_count(members: Map<Seq<char>, Json>, fields: GuildFields) -> bool {
    lookup(members, "count"@) == Some(Json::Integer(fields.count as int))
}

/// `members` holds the directory of `fields`.
pub open spec fn holds_whois(members: Map<Seq<char>, Json>, fields: GuildFields) -> bool {
    &&& lookup(members, "whois_url"@) == Some(url_member(fields.whois_url))
    &&& lookup(members, "whois_headers"@) == Some(Json::Array(text_items(fields.whois_headers)))
    &&& lookup(members, "whois_data"@) == Some(Json::Array(row_items(fields.whois_data)))
}

/// `members` holds the web comics of `fields`.
pub open spec fn holds_webtoons(members: Map<Seq<char>, Json>, fields: GuildFields) -> bool {
    lookup(members, "webtoons"@) == Some(Json::Object(text_fields(fields.webtoons)))
}

/// `members` holds all of `fields`.
pub open spec fn holds_fields(members: Map<Seq<char>, Json>, fields: GuildFields) -> bool {
    holds_count(members, fields) && holds_whois(members, fields) && holds_webtoons(members, fields)
}

/// Staging a part of a record writes that part and leaves the other parts as
/// they were staged, whatever their order.
pub proof fn lemma_staging(members: Map<Seq<char>, Json>, fields: GuildFields, staged: GuildFields)
    ensures
        holds_count(with_count(members, fields), fields),
        holds_whois(with_whois(members, fields), fields),
        holds_webtoons(with_webtoons(members, fields), fields),
        holds_count(members, staged) ==> holds_count(with_whois(members, fields), staged)
            && holds_count(with_webtoons(members, fields), staged),
        holds_whois(members, staged) ==> holds_whois(with_count(members, fields), staged)
            && holds_whois(with_webtoons(members, fields), staged),
        holds_webtoons(members, staged) ==> holds_webtoons(with_count(members, fields), staged)
            && holds_webtoons(with_whois(members, fields), staged),
        holds_fields(document_of(fields), fields),
{
    lemma_member_names();
}

/// A document that holds all of a record's fields gives these fields back.
pub proof fn lemma_fields_read_back(members: Map<Seq<char>, Json>, fields: GuildFields)
    requires
        holds_fields(members, fields),
    ensures
        fields_in(Json::Object(members)) == fields,
{
    crate::client_data::document::lemma_texts_round_trip(fields.whois_headers);
    crate::client_data::document::lemma_rows_round_trip(fields.whois_data);
    crate::client_data::document::lemma_fields_round_trip(fields.webtoons);
    let doc = Json::Object(members);
    assert(count_in(doc) == fields.count);
    assert(url_in(doc) == fields.whois_url);
    assert(headers_in(doc) == fields.whois_headers);
    assert(data_in(doc) == fields.whois_data);
    assert(webtoons_in(doc) == fields.webtoons);
}

/// The header `header` names an id: with its ASCII letters in lower case it
/// contains the text `id`.
pub open spec fn mentions_id(header: Seq<char>) -> bool {
    exists|at: int|
        0 <= at && at + 1 < header.len() && is_letter_i(#[trigger] header[at]) && is_letter_d(
            header[at + 1],
        )
}

/// The letter i, small or capital.
pub open spec fn is_letter_i(letter: char) -> bool {
    letter == 'i' || letter == 'I'
}

/// The letter d, small or capital.
pub open spec fn is_letter_d(letter: char) -> bool {
    letter == 'd' || letter == 'D'
}

/// `column` is the first of `headers` that names an id.
pub open spec fn is_id_column(headers: Seq<Seq<char>>, column: int) -> bool {
    &&& 0 <= column < headers.len()
    &&& mentions_id(headers[column])
    &&& forall|before: int| 0 <= before < column ==> !mentions_id(#[trigger] headers[before])
}

/// The row `row` has the cell `id` in the column `column`.
pub open spec fn has_id(row: Seq<Seq<char>>, column: int, id: Seq<char>) -> bool {
    0 <= column < row.len() && row[column] == id
}

/// `at` is the first row of `data` that has the cell `id` in the column
/// `column`.
pub open spec fn is_id_row(data: Seq<Seq<Seq<char>>>, column: int, id: Seq<char>, at: int) -> bool {
    &&& 0 <= at < data.len()
    &&& has_id(data[at], column, id)
    &&& forall|before: int| 0 <= before < at ==> !has_id(#[trigger] data[before], column, id)
}

/// Whether `header` names an id.
pub fn names_id(header: &str) -> (found: bool)
    ensures
        found == mentions_id(header@),
{
    let mut after_i = false;
    let mut found = false;
    for letter in scan: header.chars()
        invariant
            scan.seq() == header@,
            found == exists|at: int|
                0 <= at && at + 1 < scan.index() && is_letter_i(#[trigger] header@[at])
                    && is_letter_d(header@[at + 1]),
            after_i == (scan.index() > 0 && is_letter_i(header@[scan.index() - 1])),
    {
        if after_i && (letter == 'd' || letter == 'D') {
            found = true;
        }
        after_i = letter == 'i' || letter == 'I';
    }
    found
}

/// The first of `headers` that names an id, if any does.
pub fn id_column(headers: &Vec<String>) -> (column: Option<usize>)
    ensures
        match column {
            Some(found) => is_id_column(texts(headers@), found as int),
            None => forall|at: int|
                0 <= at < headers@.len() ==> !mentions_id(#[trigger] texts(headers@)[at]),
        },
{
    let mut column: usize = 0;
    while column < headers.len()
        invariant
            column <= headers@.len(),
            forall|before: int|
                0 <= before < column ==> !mentions_id(#[trigger] texts(headers@)[before]),
        decreases headers@.len() - column,
    {
        if names_id(headers[column].as_str()) {
            return Some(column);
        }
        column += 1;
    }
    None
}

/// The document `doc` is one that a record stages: nothing yet, or an
/// object with the five members of a record and no others, each of the kind
/// that a record writes.
pub open spec fn is_staged(doc: Json) -> bool {
    doc == Json::Null || doc == Json::Object(document_of(fields_in(doc)))
}

/// A document that holds all of a record's fields is one that a record
/// stages, and stays one when a part of a record is staged into it.
pub proof fn lemma_restaged(members: Map<Seq<char>, Json>, fields: GuildFields)
    ensures
        is_staged(Json::Object(document_of(fields))),
        is_staged(Json::Object(members)) ==> is_staged(Json::Object(with_count(members, fields)))
            && is_staged(Json::Object(with_whois(members, fields))) && is_staged(
            Json::Object(with_webtoons(members, fields)),
        ),
{
    lemma_member_names();
    lemma_staging(Map::empty(), fields, fields);
    lemma_fields_read_back(document_of(fields), fields);
    if is_staged(Json::Object(members)) {
        let held = fields_in(Json::Object(members));
        let counted = GuildFields { count: fields.count, ..held };
        assert(with_count(members, fields) =~= document_of(counted));
        lemma_staging(Map::empty(), counted, counted);
        lemma_fields_read_back(document_of(counted), counted);
        let listed = GuildFields {
            whois_url: fields.whois_url,
            whois_headers: fields.whois_headers,
            whois_data: fields.whois_data,
            ..held
        };
        assert(with_whois(members, fields) =~= document_of(listed));
        lemma_staging(Map::empty(), listed, listed);
        lemma_fields_read_back(document_of(listed), listed);
        let followed = GuildFields { webtoons: fields.webtoons, ..held };
        assert(with_webtoons(members, fields) =~= document_of(followed));
        lemma_staging(Map::empty(), followed, followed);
        lemma_fields_read_back(document_of(followed), followed);
    }
}

/// The document that a record's `save` writes, as far as it has been
/// staged.  Only the record's own staging writes into it.
#[derive(Debug)]
pub struct StagedDocument {
    value: serde_json::Value,
}

impl View for StagedDocument {
    type V = Json;

    open spec fn view(&self) -> Json {
        json_model(self.document())
    }
}

impl StagedDocument {
    #[verifier::type_invariant]
    spec fn staged_by_a_record(&self) -> bool {
        is_staged(json_model(self.value))
    }

    /// The document itself.
    pub closed spec fn document(&self) -> serde_json::Value {
        self.value
    }

    /// A document into which nothing has been staged.
    pub fn new() -> (staged: Self)
        ensures
            staged@ == Json::Null,
    {
        StagedDocument { value: json_null() }
    }

    /// The document itself, to read.
    pub fn value(&self) -> (value: &serde_json::Value)
        ensures
            *value == self.document(),
            is_staged(self@),
    {
        proof {
            use_type_invariant(self);
        }
        &self.value
    }

    /// Moves the document out and leaves one into which nothing has been
    /// staged.
    fn take(&mut self) -> (value: serde_json::Value)
        ensures
            value == old(self).document(),
            is_staged(json_model(value)),
            final(self)@ == Json::Null,
    {
        proof {
            use_type_invariant(&*self);
        }
        let mut taken = StagedDocument::new();
        std::mem::swap(self, &mut taken);
        taken.value
    }

    /// `value` as a staged document.
    fn seal(value: serde_json::Value) -> (staged: Self)
        requires
            is_staged(json_model(value)),
        ensures
            staged.document() == value,
    {
        StagedDocument { value }
    }
}

/// What a guild's record holds.
#[derive(Debug)]
pub struct GuildData {
    pub id: GuildId,
    /// How often the guild has counted.
    pub count: u64,
    /// Where the directory was last fetched from.
    pub whois_url: Option<String>,
    /// The column names of the directory.
    pub whois_headers: Vec<String>,
    /// The rows of the directory, cell by cell under the column names.
    pub whois_data: Vec<Vec<String>>,
    /// The address of each web comic that the guild follows, by its short
    /// name.
    pub webtoons: StringMap<String>,
    /// The document that `save` writes, as far as it has been staged.
    pub json: StagedDocument,
}

/// The result of `save` for what the writer of the document returned.
pub fn save_outcome(written: Result<Vec<u8>, serde_json::Error>) -> (outcome: Result<
    Vec<u8>,
    DumbError,
>)
    ensures
        outcome == match written {
            Ok(bytes) => Ok::<Vec<u8>, DumbError>(bytes),
            Err(error) => Err(DumbError::SerdeError(error)),
        },
{
    match written {
        Ok(bytes) => Ok(bytes),
        Err(error) => Err(DumbError::SerdeError(error)),
    }
}

/// Writes the counter into `staged`.
fn stage_count(staged: &mut Fields, count: u64)
    ensures
        object_model(*final(staged)) == object_model(*old(staged)).insert(
            "count"@,
            Json::Integer(count as int),
        ),
{
    fields_insert(staged, "count".to_owned(), json_number(count));
}

/// Writes the directory into `staged`.
fn stage_whois(
    staged: &mut Fields,
    url: &Option<String>,
    headers: &Vec<String>,
    data: &Vec<Vec<String>>,
)
    ensures
        object_model(*final(staged)) == object_model(*old(staged)).insert(
            "whois_url"@,
            url_member(text_view(*url)),
        ).insert("whois_headers"@, Json::Array(text_items(texts(headers@)))).insert(
            "whois_data"@,
            Json::Array(row_items(rows(data@))),
        ),
{
    let address = match url {
        Some(text) => string_to_json(text),
        None => json_null(),
    };
    fields_insert(staged, "whois_url".to_owned(), address);
    fields_insert(staged, "whois_headers".to_owned(), strings_to_json(headers));
    fields_insert(staged, "whois_data".to_owned(), table_to_json(data));
}

/// Writes the web comics into `staged`.
fn stage_webtoons(staged: &mut Fields, webtoons: &StringMap<String>)
    ensures
        object_model(*final(staged)) == object_model(*old(staged)).insert(
            "webtoons"@,
            Json::Object(text_fields(text_values(webtoons@))),
        ),
{
    fields_insert(staged, "webtoons".to_owned(), text_map_to_json(webtoons));
}

impl GuildData {
    /// The record's fields, as plain values.
    pub open spec fn fields(&self) -> GuildFields {
        GuildFields {
            count: self.count,
            whois_url: text_view(self.whois_url),
            whois_headers: texts(self.whois_headers@),
            whois_data: rows(self.whois_data@),
            webtoons: text_values(self.webtoons@),
        }
    }

    /// What the staged document holds.
    pub open spec fn staged(&self) -> Json {
        self.json@
    }

    /// `self` and `other` have the same id and the same fields.
    pub open spec fn same_fields(&self, other: &GuildData) -> bool {
        &&& self.id == other.id
        &&& self.count == other.count
        &&& self.whois_url == other.whois_url
        &&& self.whois_headers == other.whois_headers
        &&& self.whois_data == other.whois_data
        &&& self.webtoons == other.webtoons
    }

    /// What the staged document holds once the counter has been staged: the
    /// members it had and the counter, where it was an object; and all of
    /// the record's fields where it was none.
    pub open spec fn staged_count(&self) -> Json {
        match self.staged() {
            Json::Object(members) => Json::Object(with_count(members, self.fields())),
            _ => Json::Object(document_of(self.fields())),
        }
    }

    /// What the staged document holds once the directory has been staged.
    pub open spec fn staged_whois(&self) -> Json {
        match self.staged() {
            Json::Object(members) => Json::Object(with_whois(members, self.fields())),
            _ => Json::Object(document_of(self.fields())),
        }
    }

    /// What the staged document holds once the web comics have been staged.
    pub open spec fn staged_webtoons(&self) -> Json {
        match self.staged() {
            Json::Object(members) => Json::Object(with_webtoons(members, self.fields())),
            _ => Json::Object(document_of(self.fields())),
        }
    }

    /// What the staged document holds once `save` has looked at it: what it
    /// held, where it was an object; and all of the record's fields where it
    /// was none.
    pub open spec fn staged_full(&self) -> Json {
        match self.staged() {
            Json::Object(members) => Json::Object(members),
            _ => Json::Object(document_of(self.fields())),
        }
    }

    /// The record of a guild that the bot has nothing for.
    pub fn empty(id: GuildId) -> (record: Self)
        ensures
            record.id == id,
            record.count == 0,
            record.whois_url is None,
            record.whois_headers@ == Seq::<String>::empty(),
            record.whois_data@ == Seq::<Vec<String>>::empty(),
            record.webtoons@ == Map::<Seq<char>, String>::empty(),
            record.webtoons.order() == Seq::<(Seq<char>, String)>::empty(),
            record.fields() == empty_fields(),
            record.staged() == Json::Null,
    {
        let record = GuildData {
            id,
            count: 0,
            whois_url: None,
            whois_headers: Vec::new(),
            whois_data: Vec::new(),
            webtoons: StringMap::new(),
            json: StagedDocument::new(),
        };
        assert(record.fields().whois_headers =~= Seq::empty());
        assert(record.fields().whois_data =~= Seq::empty());
        assert(record.fields().webtoons =~= Map::empty());
        record
    }

    /// The record that the document `doc` gives, with nothing staged.
    pub fn from_document(id: GuildId, doc: &serde_json::Value) -> (record: Self)
        ensures
            record.id == id,
            record.fields() == fields_in(json_model(*doc)),
            record.staged() == Json::Null,
    {
        let count = match value_get(doc, "count") {
            Some(found) => match value_as_u64(found) {
                Some(number) => number,
                None => 0,
            },
            None => 0,
        };
        let whois_url = match value_get(doc, "whois_url") {
            Some(found) => crate::client_data::document::string_of(found),
            None => None,
        };
        let whois_headers = match value_get(doc, "whois_headers") {
            Some(found) => match strings_of(found) {
                Some(list) => list,
                None => Vec::new(),
            },
            None => Vec::new(),
        };
        let whois_data = match value_get(doc, "whois_data") {
            Some(found) => match table_of(found) {
                Some(table) => table,
                None => Vec::new(),
            },
            None => Vec::new(),
        };
        let webtoons = match value_get(doc, "webtoons") {
            Some(found) => match value_as_object(found) {
                Some(members) => text_map_of(members),
                None => StringMap::new(),
            },
            None => StringMap::new(),
        };
        let record = GuildData {
            id,
            count,
            whois_url,
            whois_headers,
            whois_data,
            webtoons,
            json: StagedDocument::new(),
        };
        proof {
            let model = json_model(*doc);
            assert(record.fields().count == count_in(model));
            assert(record.fields().whois_url == url_in(model));
            assert(record.fields().whois_headers =~= headers_in(model));
            assert(record.fields().whois_data =~= data_in(model));
            assert(record.fields().webtoons =~= webtoons_in(model));
        }
        record
    }

    /// The first row of the directory whose cell under the first column
    /// that names an id is `id`.  There is none where no column names an id,
    /// or no row has that cell.
    pub fn get_whois_entry_by_id(&self, id: &String) -> (entry: Option<&Vec<String>>)
        ensures
            match entry {
                Some(row) => exists|column: int, at: int|
                    is_id_column(self.fields().whois_headers, column) && #[trigger] is_id_row(
                        self.fields().whois_data,
                        column,
                        id@,
                        at,
                    ) && *row == self.whois_data@[at],
                None => forall|column: int, at: int|
                    !(is_id_column(self.fields().whois_headers, column) && #[trigger] is_id_row(
                        self.fields().whois_data,
                        column,
                        id@,
                        at,
                    )),
            },
    {
        let ghost headers = self.fields().whois_headers;
        let ghost data = self.fields().whois_data;
        let column = match id_column(&self.whois_headers) {
            Some(column) => column,
            None => {
                assert forall|c: int, at: int|
                    !(is_id_column(headers, c) && #[trigger] is_id_row(data, c, id@, at)) by {
                    if is_id_column(headers, c) {
                        assert(!mentions_id(headers[c]));
                    }
                }
                return None;
            },
        };
        assert(is_id_column(headers, column as int));
        let mut at: usize = 0;
        while at < self.whois_data.len()
            invariant
                at <= self.whois_data@.len(),
                data == rows(self.whois_data@),
                data == self.fields().whois_data,
                headers == self.fields().whois_headers,
                is_id_column(headers, column as int),
                forall|before: int|
                    0 <= before < at ==> !has_id(#[trigger] data[before], column as int, id@),
            decreases self.whois_data@.len() - at,
        {
            let row = &self.whois_data[at];
            if column < row.len() {
                if row[column] == *id {
                    assert(has_id(data[at as int], column as int, id@));
                    assert(is_id_row(data, column as int, id@, at as int));
                    return Some(row);
                }
            }
            at += 1;
        }
        assert forall|c: int, at: int|
            !(is_id_column(headers, c) && #[trigger] is_id_row(data, c, id@, at)) by {
            if is_id_column(headers, c) && is_id_row(data, c, id@, at) {
                if c < column {
                    assert(!mentions_id(headers[c]));
                } else if column < c {
                    assert(mentions_id(headers[column as int]));
                }
                assert(!has_id(data[at], column as int, id@));
            }
        }
        None
    }

    /// The document that holds all of the record's fields.
    fn full_document(&self) -> (value: serde_json::Value)
        ensures
            json_model(value) == Json::Object(document_of(self.fields())),
    {
        let mut members = new_fields();
        stage_count(&mut members, self.count);
        stage_whois(&mut members, &self.whois_url, &self.whois_headers, &self.whois_data);
        stage_webtoons(&mut members, &self.webtoons);
        json_object(members)
    }

    /// Stages the counter.
    pub fn update_count(&mut self)
        ensures
            final(self).same_fields(old(self)),
            final(self).staged() == old(self).staged_count(),
            final(self).staged() is Object,
    {
        if !self.ensure_init_json() {
            let mut document = self.json.take();
            proof {
                lemma_restaged(json_model(document)->Object_0, self.fields());
            }
            match value_as_object_mut(&mut document) {
                Some(members) => {
                    stage_count(members, self.count);
                },
                None => {},
            }
            self.json = StagedDocument::seal(document);
        }
    }

    /// Stages the directory.
    pub fn update_whois(&mut self)
        ensures
            final(self).same_fields(old(self)),
            final(self).staged() == old(self).staged_whois(),
            final(self).staged() is Object,
    {
        if !self.ensure_init_json() {
            let mut document = self.json.take();
            proof {
                lemma_restaged(json_model(document)->Object_0, self.fields());
            }
            match value_as_object_mut(&mut document) {
                Some(members) => {
                    stage_whois(members, &self.whois_url, &self.whois_headers, &self.whois_data);
                },
                None => {},
            }
            self.json = StagedDocument::seal(document);
        }
    }

    /// Stages the web comics.
    pub fn update_webtoons(&mut self)
        ensures
            final(self).same_fields(old(self)),
            final(self).staged() == old(self).staged_webtoons(),
            final(self).staged() is Object,
    {
        if !self.ensure_init_json() {
            let mut document = self.json.take();
            proof {
                lemma_restaged(json_model(document)->Object_0, self.fields());
            }
            match value_as_object_mut(&mut document) {
                Some(members) => {
                    stage_webtoons(members, &self.webtoons);
                },
                None => {},
            }
            self.json = StagedDocument::seal(document);
        }
    }

    /// Returns whether the document has just been staged in full, which is
    /// done where nothing was staged.
    fn ensure_init_json(&mut self) -> (staged_now: bool)
        ensures
            final(self).same_fields(old(self)),
            staged_now == !(old(self).staged() is Object),
            final(self).staged() == old(self).staged_full(),
            final(self).staged() is Object,
    {
        if value_as_object(self.json.value()).is_some() {
            false
        } else {
            proof {
                lemma_restaged(Map::empty(), self.fields());
            }
            self.json = StagedDocument::seal(self.full_document());
            true
        }
    }

    /// Adds one to the counter.
    pub fn increment_count(&mut self)
        requires
            old(self).count < u64::MAX,
        ensures
            final(self).count == old(self).count + 1,
            final(self).id == old(self).id,
            final(self).whois_url == old(self).whois_url,
            final(self).whois_headers == old(self).whois_headers,
            final(self).whois_data == old(self).whois_data,
            final(self).webtoons == old(self).webtoons,
            final(self).json == old(self).json,
    {
        self.count = self.count + 1;
    }

    /// Follows the web comic at `url` under the short name `id`, in place of
    /// any that had this name.
    pub fn add_webtoon(&mut self, id: String, url: String)
        ensures
            final(self).webtoons@ == old(self).webtoons@.insert(id@, url),
            final(self).webtoons.order() == with_entry(old(self).webtoons.order(), id@, url),
            final(self).id == old(self).id,
            final(self).count == old(self).count,
            final(self).whois_url == old(self).whois_url,
            final(self).whois_headers == old(self).whois_headers,
            final(self).whois_data == old(self).whois_data,
            final(self).json == old(self).json,
    {
        self.webtoons.insert(id, url);
    }

    /// Stops following the web comic with the short name `id`, and tells
    /// whether there was one.  Where there was none, nothing changes.
    pub fn remove_webtoon(&mut self, id: &str) -> (removed: bool)
        ensures
            removed == old(self).webtoons@.contains_key(id@),
            final(self).webtoons@ == old(self).webtoons@.remove(id@),
            final(self).webtoons.order() == without_entry(old(self).webtoons.order(), id@),
            !removed ==> final(self).webtoons@ == old(self).webtoons@,
            final(self).id == old(self).id,
            final(self).count == old(self).count,
            final(self).whois_url == old(self).whois_url,
            final(self).whois_headers == old(self).whois_headers,
            final(self).whois_data == old(self).whois_data,
            final(self).json == old(self).json,
    {
        let previous = self.webtoons.remove(id);
        assert(!old(self).webtoons@.contains_key(id@) ==> old(self).webtoons@.remove(id@)
            =~= old(self).webtoons@);
        previous.is_some()
    }
}

/// A record that is saved and loaded again from the bytes that `save`
/// returned has the id and the fields it had when it was saved, as far as
/// the bytes read back as the document that was written.
pub proof fn lemma_save_then_load(
    record: GuildData,
    saved: GuildData,
    bytes: Seq<u8>,
    loaded: GuildData,
)
    requires
        saved.same_fields(&record),
        saved.staged() == Json::Object(document_of(record.fields())),
        bytes == json_bytes(saved.json.document()),
        json_parsed(bytes) == Some(saved.staged()),
        loaded.loaded_from(record.id, Some(bytes)),
    ensures
        loaded.id == record.id,
        loaded.fields() == record.fields(),
{
    let fields = record.fields();
    lemma_staging(Map::empty(), fields, fields);
    lemma_fields_read_back(document_of(fields), fields);
}

/// A web comic that is added and then removed is not followed afterwards;
/// where its short name was new, the web comics are those from before.
/// Removing a short name that is not followed changes nothing.
pub proof fn lemma_add_then_remove(webtoons: Map<Seq<char>, String>, id: Seq<char>, url: String)
    ensures
        !webtoons.insert(id, url).remove(id).contains_key(id),
        !webtoons.contains_key(id) ==> webtoons.insert(id, url).remove(id) == webtoons,
        !webtoons.contains_key(id) ==> webtoons.remove(id) == webtoons,
{
    if !webtoons.contains_key(id) {
        assert(webtoons.insert(id, url).remove(id) =~= webtoons);
        assert(webtoons.remove(id) =~= webtoons);
    }
}

impl ClientData for GuildData {
    type Id = GuildId;

    open spec fn path_of(id: GuildId) -> Seq<char> {
        "data/guilds/"@ + decimal(id.0 as nat) + ".json"@
    }

    open spec fn loaded_from(&self, id: GuildId, contents: Option<Seq<u8>>) -> bool {
        &&& self.id == id
        &&& self.fields() == fields_from(contents)
        &&& self.staged() == Json::Null
    }

    fn path(id: GuildId) -> (path: String) {
        let path = String::from_str("data/guilds/").concat(decimal_string(id.0).as_str()).concat(
            ".json",
        );
        path
    }

    fn from_file(id: GuildId, contents: Option<&[u8]>) -> (record: Self) {
        match contents {
            Some(bytes) => match parse_json(bytes) {
                Ok(doc) => GuildData::from_document(id, &doc),
                Err(_) => GuildData::empty(id),
            },
            None => GuildData::empty(id),
        }
    }

    open spec fn unchanged_since(&self, before: &Self) -> bool {
        self.same_fields(before)
    }

    open spec fn written_as(&self, bytes: Seq<u8>) -> bool {
        bytes == json_bytes(self.json.document())
    }

    /// Stages every field of the record as it stands, and returns the bytes
    /// of the staged document: an object with the five members of the
    /// record and no others.  The record's fields stay as they are.
    fn save(&mut self) -> (outcome: Result<Vec<u8>, DumbError>)
        ensures
            outcome is Ok,
            final(self).staged() == Json::Object(document_of(old(self).fields())),
            holds_fields(document_of(old(self).fields()), old(self).fields()),
    {
        proof {
            lemma_restaged(Map::empty(), self.fields());
            lemma_staging(Map::empty(), self.fields(), self.fields());
        }
        self.json = StagedDocument::seal(self.full_document());
        save_outcome(render_json(self.json.value()))
    }
}

} // verus!
