//! The credential store: user records in a TOML document that only ever
//! grows, read in full for every lookup.
//!
//! Reading and writing the file is done outside this library. Parsing and
//! rendering TOML is the `toml` crate's: a parsed document is looked into
//! through a few of its accessors, and what they give has names here.

use vstd::prelude::*;
use vstd::string::*;
use crate::hash::{phc_canonical, PinHash};

verus! {

/// `toml::Value`: a parsed TOML value, looked into through the accessors
/// below only.
#[verifier::external_type_specification]
#[verifier::external_body]
pub struct ExTomlValue(toml::Value);

/// `toml::de::Error`, carried through as it comes and never looked into.
#[verifier::external_type_specification]
#[verifier::external_body]
pub struct ExTomlDeError(toml::de::Error);

/// `toml::ser::Error`, carried through as it comes and never looked into.
#[verifier::external_type_specification]
#[verifier::external_body]
pub struct ExTomlSerError(toml::ser::Error);

/// The document that `toml::from_str` reads from a text, or `None` where the
/// text is no TOML document.
pub uninterp spec fn toml_document(text: Seq<char>) -> Option<toml::Value>;

/// Whether a value is a table.
pub uninterp spec fn value_is_table(value: toml::Value) -> bool;

/// The entry that a table holds under a key: `None` for a missing key and for
/// a value that is no table.
pub uninterp spec fn value_field(value: toml::Value, key: Seq<char>) -> Option<toml::Value>;

/// The elements of an array, `None` for a value that is no array.
pub uninterp spec fn value_items(value: toml::Value) -> Option<Seq<toml::Value>>;

/// The text of a string, `None` for a value that is no string.
pub uninterp spec fn value_text(value: toml::Value) -> Option<Seq<char>>;

/// What `toml::to_string` makes of the document that holds, under `table`, an
/// array of one table with the given string fields.
pub uninterp spec fn toml_record_text(
    table: Seq<char>,
    fields: Seq<(Seq<char>, Seq<char>)>,
) -> Option<Seq<char>>;

/// Calls `toml::from_str` for a `toml::Value`. The result is a function of
/// the text, named [`toml_document`].
#[verifier::external_body]
pub(crate) fn parse_document(text: &str) -> (parsed: Result<toml::Value, toml::de::Error>)
    ensures
        parsed matches Ok(document) ==> toml_document(text@) == Some(document),
        parsed is Err ==> toml_document(text@) is None,
{
    toml::from_str::<toml::Value>(text)
}

/// Calls `toml::Value::is_table`. The result is named [`value_is_table`].
#[verifier::external_body]
pub(crate) fn value_table(value: &toml::Value) -> (table: bool)
    ensures
        table == value_is_table(*value),
{
    value.is_table()
}

/// Calls `toml::Value::get` with a key. The result is named [`value_field`].
#[verifier::external_body]
pub(crate) fn value_get<'a>(value: &'a toml::Value, key: &str) -> (field: Option<&'a toml::Value>)
    ensures
        field matches Some(entry) ==> value_field(*value, key@) == Some(*entry),
        field is None ==> value_field(*value, key@) is None,
{
    value.get(key)
}

/// Calls `toml::Value::as_array`. The result is named [`value_items`].
#[verifier::external_body]
pub(crate) fn value_as_array(value: &toml::Value) -> (items: Option<&Vec<toml::Value>>)
    ensures
        items matches Some(array) ==> value_items(*value) == Some(array@),
        items is None ==> value_items(*value) is None,
{
    value.as_array()
}

/// Calls `toml::Value::as_str`. The result is named [`value_text`].
#[verifier::external_body]
pub(crate) fn value_as_str(value: &toml::Value) -> (text: Option<&str>)
    ensures
        text matches Some(string) ==> value_text(*value) == Some(string@),
        text is None ==> value_text(*value) is None,
{
    value.as_str()
}

/// Calls `toml::to_string` on a document built from the arguments: one table
/// of string fields, the only element of an array under the key `table`. The
/// result is a function of the arguments, named [`toml_record_text`]. What is
/// rendered begins with the header of that table, so it is never empty.
#[verifier::external_body]
pub(crate) fn render_record(table: &str, fields: &Vec<(String, String)>) -> (rendered: Result<
    String,
    toml::ser::Error,
>)
    ensures
        rendered matches Ok(text) ==> toml_record_text(table@, fields.deep_view()) == Some(text@)
            && text@.len() > 0,
        rendered is Err ==> toml_record_text(table@, fields.deep_view()) is None,
{
    let record: toml::Table = fields
        .iter()
        .map(|(key, value)| (key.clone(), toml::Value::String(value.clone())))
        .collect();
    let mut document = toml::Table::new();
    document.insert(table.to_owned(), toml::Value::Array(vec![toml::Value::Table(record)]));
    toml::to_string(&document)
}

/// Why the store could not be read or written.
#[derive(Clone, Debug, PartialEq, Eq)]
pub enum IoSerdeError {
    /// The file at this path could not be written.
    Write(String),
    /// The file at this path could not be read.
    Read(String),
    /// A record could not be rendered.
    Serialize,
    /// The file does not hold user records.
    Deserialize,
}

/// The mathematical value of an [`IoSerdeError`].
pub enum IoSerdeErrorView {
    Write(Seq<char>),
    Read(Seq<char>),
    Serialize,
    Deserialize,
}

impl View for IoSerdeError {
    type V = IoSerdeErrorView;

    open spec fn view(&self) -> IoSerdeErrorView {
        match self {
            IoSerdeError::Write(path) => IoSerdeErrorView::Write(path@),
            IoSerdeError::Read(path) => IoSerdeErrorView::Read(path@),
            IoSerdeError::Serialize => IoSerdeErrorView::Serialize,
            IoSerdeError::Deserialize => IoSerdeErrorView::Deserialize,
        }
    }
}

impl IoSerdeErrorView {
    pub open spec fn spec_message(self) -> Seq<char> {
        match self {
            IoSerdeErrorView::Write(path) => "Couldn't write to file '"@ + path + "'"@,
            IoSerdeErrorView::Read(path) => "Couldn't read from file '"@ + path + "'"@,
            IoSerdeErrorView::Serialize => "Couldn't serialize structure"@,
            IoSerdeErrorView::Deserialize => "Couldn't deserialize file"@,
        }
    }
}

impl IoSerdeError {
    /// The one-line description of the error.
    pub fn message(&self) -> (text: String)
        ensures
            text@ == self@.spec_message(),
    {
        match self {
            IoSerdeError::Write(path) => {
                let mut text = String::from_str("Couldn't write to file '");
                text.append(path.as_str());
                text.append("'");
                text
            },
            IoSerdeError::Read(path) => {
                let mut text = String::from_str("Couldn't read from file '");
                text.append(path.as_str());
                text.append("'");
                text
            },
            IoSerdeError::Serialize => String::from_str("Couldn't serialize structure"),
            IoSerdeError::Deserialize => String::from_str("Couldn't deserialize file"),
        }
    }
}

/// One user record: a name and the hash of that user's PIN.
#[derive(Clone, Debug, PartialEq, Eq)]
pub struct User {
    name: String,
    pin_hash: PinHash,
}

/// The mathematical value of a [`User`].
pub struct UserView {
    pub name: Seq<char>,
    pub pin_hash: Seq<char>,
}

impl View for User {
    type V = UserView;

    closed spec fn view(&self) -> UserView {
        UserView { name: self.name@, pin_hash: self.pin_hash@ }
    }
}

impl DeepView for User {
    type V = UserView;

    open spec fn deep_view(&self) -> UserView {
        self@
    }
}

impl UserView {
    /// The fields of the record as the document holds them.
    pub open spec fn fields(self) -> Seq<(Seq<char>, Seq<char>)> {
        seq![("name"@, self.name), ("pin_hash"@, self.pin_hash)]
    }

    /// The record as TOML text, if it can be rendered.
    pub open spec fn text(self) -> Option<Seq<char>> {
        toml_record_text("users"@, self.fields())
    }
}

impl User {
    pub fn new(name: String, pin: PinHash) -> (user: User)
        ensures
            user@ == (UserView { name: name@, pin_hash: pin@ }),
    {
        User { name, pin_hash: pin }
    }

    pub fn name(&self) -> (name: &str)
        ensures
            name@ == self@.name,
    {
        self.name.as_str()
    }

    pub fn pin_hash(&self) -> (hash: &PinHash)
        ensures
            hash@ == self@.pin_hash,
    {
        &self.pin_hash
    }

    /// Renders the record as a TOML document of its own, which is never
    /// empty.
    pub fn to_toml(&self) -> (rendered: Result<String, IoSerdeError>)
        ensures
            match rendered {
                Ok(text) => self@.text() == Some(text@) && text@.len() > 0,
                Err(error) => self@.text() is None && error@ == IoSerdeErrorView::Serialize,
            },
    {
        let mut fields: Vec<(String, String)> = Vec::new();
        fields.push((String::from_str("name"), self.name.clone()));
        fields.push((String::from_str("pin_hash"), String::from_str(self.pin_hash.as_str())));
        assert(fields.deep_view() =~= self@.fields());
        match render_record("users", &fields) {
            Ok(text) => Ok(text),
            Err(_) => Err(IoSerdeError::Serialize),
        }
    }
}

/// The record that a table of the document holds: its `name` and its
/// `pin_hash`, both strings, the hash in its normal form. Other entries of
/// the table are ignored.
pub open spec fn record_of(entry: toml::Value) -> Option<UserView> {
    match (value_field(entry, "name"@), value_field(entry, "pin_hash"@)) {
        (Some(name), Some(hash)) => match (value_text(name), value_text(hash)) {
            (Some(name), Some(hash)) => match phc_canonical(hash) {
                Some(canonical) => Some(UserView { name, pin_hash: canonical }),
                None => None,
            },
            _ => None,
        },
        _ => None,
    }
}

/// The records that the elements of an array hold, in order, if each of them
/// holds one.
pub open spec fn records_of(items: Seq<toml::Value>) -> Option<Seq<UserView>>
    decreases items.len(),
{
    if items.len() == 0 {
        Some(Seq::empty())
    } else {
        match (records_of(items.drop_last()), record_of(items.last())) {
            (Some(front), Some(record)) => Some(front.push(record)),
            _ => None,
        }
    }
}

/// The records of a document, which is a table: those of the array under its
/// key `users`, and none at all where it has no such key. A `users` entry
/// that is no array of records makes the document no store.
pub open spec fn users_of(document: toml::Value) -> Option<Seq<UserView>> {
    if !value_is_table(document) {
        None
    } else {
        match value_field(document, "users"@) {
            Some(users) => match value_items(users) {
                Some(items) => records_of(items),
                None => None,
            },
            None => Some(Seq::empty()),
        }
    }
}

/// The records of a text: those of the document it is, if it is one.
pub open spec fn users_of_text(text: Seq<char>) -> Option<Seq<UserView>> {
    match toml_document(text) {
        Some(document) => users_of(document),
        None => None,
    }
}

proof fn lemma_records_fail(items: Seq<toml::Value>, n: int)
    requires
        0 <= n <= items.len(),
        records_of(items.take(n)) is None,
    ensures
        records_of(items) is None,
    decreases items.len() - n,
{
    if n < items.len() {
        assert(items.take(n + 1).drop_last() =~= items.take(n));
        lemma_records_fail(items, n + 1);
    } else {
        assert(items.take(n) =~= items);
    }
}

fn decode_record(entry: &toml::Value) -> (decoded: Option<User>)
    ensures
        match decoded {
            Some(user) => record_of(*entry) == Some(user@),
            None => record_of(*entry) is None,
        },
{
    let name = match value_get(entry, "name") {
        Some(name) => name,
        None => return None,
    };
    let hash = match value_get(entry, "pin_hash") {
        Some(hash) => hash,
        None => return None,
    };
    let name = match value_as_str(name) {
        Some(name) => name,
        None => return None,
    };
    let hash = match value_as_str(hash) {
        Some(hash) => hash,
        None => return None,
    };
    match PinHash::new(hash) {
        Ok(pin) => Some(User { name: String::from_str(name), pin_hash: pin }),
        Err(_) => None,
    }
}

/// Reads the user records out of a parsed document. Whatever keeps the
/// document from being a list of user records is the same error.
pub fn decode_users(document: &toml::Value) -> (decoded: Result<Vec<User>, IoSerdeError>)
    ensures
        match decoded {
            Ok(users) => users_of(*document) == Some(users.deep_view()),
            Err(error) => users_of(*document) is None && error@ == IoSerdeErrorView::Deserialize,
        },
{
    if !value_table(document) {
        return Err(IoSerdeError::Deserialize);
    }
    let users = match value_get(document, "users") {
        Some(users) => users,
        None => {
            let none: Vec<User> = Vec::new();
            assert(none.deep_view() =~= Seq::<UserView>::empty());
            return Ok(none);
        },
    };
    let items = match value_as_array(users) {
        Some(items) => items,
        None => return Err(IoSerdeError::Deserialize),
    };
    let mut records: Vec<User> = Vec::new();
    let mut i: usize = 0;
    assert(items@.take(0) =~= Seq::<toml::Value>::empty());
    assert(records.deep_view() =~= Seq::<UserView>::empty());
    while i < items.len()
        invariant
            i <= items.len(),
            value_is_table(*document),
            value_field(*document, "users"@) == Some(*users),
            value_items(*users) == Some(items@),
            records_of(items@.take(i as int)) == Some(records.deep_view()),
        decreases items.len() - i,
    {
        assert(items@.take(i + 1).drop_last() =~= items@.take(i as int));
        assert(items@.take(i + 1).last() == items@[i as int]);
        match decode_record(&items[i]) {
            None => {
                proof {
                    lemma_records_fail(items@, i + 1);
                }
                return Err(IoSerdeError::Deserialize);
            },
            Some(user) => {
                let ghost before = records.deep_view();
                records.push(user);
                assert(records.deep_view() =~= before.push(user@));
            },
        }
        i = i + 1;
    }
    assert(items@.take(i as int) =~= items@);
    Ok(records)
}

/// The record that a lookup by name finds: the last one with that name.
pub open spec fn latest(users: Seq<UserView>, name: Seq<char>) -> Option<UserView>
    decreases users.len(),
{
    if users.len() == 0 {
        None
    } else if users.last().name == name {
        Some(users.last())
    } else {
        latest(users.drop_last(), name)
    }
}

/// The users of a store, in the order in which they were appended.
#[derive(Clone, Debug, PartialEq, Eq)]
pub struct Data {
    users: Vec<User>,
}

impl View for Data {
    type V = Seq<UserView>;

    closed spec fn view(&self) -> Seq<UserView> {
        self.users.deep_view()
    }
}

/// The text of what was read, if anything was.
pub open spec fn text_of(contents: Option<&str>) -> Option<Seq<char>> {
    match contents {
        Some(text) => Some(text@),
        None => None,
    }
}

/// What loading a store comes to, from its path and from the text that was
/// read there, `None` standing for a file that could not be read. An empty
/// file is the store before its first record: it loads, and holds no users.
pub open spec fn loaded(path: Seq<char>, contents: Option<Seq<char>>) -> Result<
    Seq<UserView>,
    IoSerdeErrorView,
> {
    match contents {
        None => Err(IoSerdeErrorView::Read(path)),
        Some(text) => if text.len() == 0 {
            Ok(Seq::empty())
        } else {
            match users_of_text(text) {
                Some(users) => Ok(users),
                None => Err(IoSerdeErrorView::Deserialize),
            }
        },
    }
}

impl Data {
    /// A store without users.
    pub fn empty() -> (data: Data)
        ensures
            data@ == Seq::<UserView>::empty(),
    {
        let data = Data { users: Vec::new() };
        assert(data.users.deep_view() =~= Seq::<UserView>::empty());
        data
    }

    /// Loads the store that was read at `path`. `contents` is the whole text
    /// of the file, or `None` if it could not be read.
    pub fn from_file(path: &str, contents: Option<&str>) -> (data: Result<Data, IoSerdeError>)
        ensures
            match data {
                Ok(store) => loaded(path@, text_of(contents)) == Ok::<
                    Seq<UserView>,
                    IoSerdeErrorView,
                >(store@),
                Err(error) => loaded(path@, text_of(contents)) == Err::<
                    Seq<UserView>,
                    IoSerdeErrorView,
                >(error@),
            },
    {
        let text = match contents {
            Some(text) => text,
            None => return Err(IoSerdeError::Read(String::from_str(path))),
        };
        if text.unicode_len() == 0 {
            return Ok(Data::empty());
        }
        let document = match parse_document(text) {
            Ok(document) => document,
            Err(_) => return Err(IoSerdeError::Deserialize),
        };
        match decode_users(&document) {
            Ok(users) => Ok(Data { users }),
            Err(error) => Err(error),
        }
    }

    /// The number of records, shadowed ones included.
    pub fn len(&self) -> (len: usize)
        ensures
            len == self@.len(),
    {
        self.users.len()
    }

    /// The most recently appended record whose name is exactly `name`.
    pub fn get_by_name(&self, name: &str) -> (found: Option<&User>)
        ensures
            match found {
                Some(user) => latest(self@, name@) == Some(user@),
                None => latest(self@, name@) is None,
            },
    {
        let wanted = String::from_str(name);
        let mut i: usize = self.users.len();
        assert(self@.take(i as int) =~= self@);
        while i > 0
            invariant
                i <= self.users.len(),
                wanted@ == name@,
                latest(self@, name@) == latest(self@.take(i as int), name@),
            decreases i,
        {
            let user = &self.users[i - 1];
            assert(self@.take(i as int).last() == user@);
            assert(self@.take(i as int).drop_last() =~= self@.take(i - 1));
            if user.name == wanted {
                return Some(user);
            }
            i = i - 1;
        }
        None
    }
}

/// An empty file is a store without users: it loads, and no name is found in
/// it.
pub proof fn lemma_empty_file_is_empty_store(path: Seq<char>, name: Seq<char>)
    ensures
        loaded(path, Some(Seq::<char>::empty())) == Ok::<Seq<UserView>, IoSerdeErrorView>(
            Seq::empty(),
        ),
        latest(Seq::<UserView>::empty(), name) is None,
{
}

/// A record appended last is the one a lookup of its name finds, whatever the
/// store held before: a later record shadows the earlier ones of that name.
pub proof fn lemma_appended_record_is_found(users: Seq<UserView>, record: UserView)
    ensures
        latest(users.push(record), record.name) == Some(record),
{
    assert(users.push(record).last() == record);
}

/// Of two records appended with the same name, a lookup finds the second.
pub proof fn lemma_second_record_shadows_first(
    users: Seq<UserView>,
    first: UserView,
    second: UserView,
)
    requires
        first.name == second.name,
    ensures
        latest(users.push(first).push(second), first.name) == Some(second),
{
    lemma_appended_record_is_found(users.push(first), second);
}

/// Appending a record under another name leaves every lookup of `name` as it
/// was.
pub proof fn lemma_other_names_are_untouched(
    users: Seq<UserView>,
    record: UserView,
    name: Seq<char>,
)
    requires
        record.name != name,
    ensures
        latest(users.push(record), name) == latest(users, name),
{
    assert(users.push(record).last() == record);
    assert(users.push(record).drop_last() =~= users);
}

/// The permissions a store is created with: its owner may read and write it,
/// nobody else may do anything.
pub const STORE_MODE: u32 = 0o600;

/// What is written for a record when the file holds `len` bytes: the record
/// alone into an empty file, else a line break and the record.
pub open spec fn payload(len: u64, record: Seq<char>) -> Seq<char> {
    if len == 0 {
        record
    } else {
        seq!['\n'] + record
    }
}

/// The bytes of a file after a record was appended to what it held.
pub open spec fn appended(prior: Seq<u8>, record: Seq<char>) -> Seq<u8> {
    prior + vstd::utf8::encode_utf8(payload(prior.len() as u64, record))
}

/// An append leaves what the file held where it was, and never makes the
/// file shorter.
pub proof fn lemma_append_keeps_prior_bytes(prior: Seq<u8>, record: Seq<char>)
    ensures
        appended(prior, record).len() >= prior.len(),
        appended(prior, record).subrange(0, prior.len() as int) == prior,
{
    assert(appended(prior, record).subrange(0, prior.len() as int) =~= prior);
}

/// An append of a record that is not empty makes the file longer, and so
/// does any append to a file that holds something.
pub proof fn lemma_append_lengthens(prior: Seq<u8>, record: Seq<char>)
    requires
        record.len() > 0 || 0 < prior.len() <= u64::MAX,
    ensures
        appended(prior, record).len() > prior.len(),
{
    let written = payload(prior.len() as u64, record);
    assert(written.len() > 0);
    if vstd::utf8::encode_utf8(written).len() == 0 {
        vstd::utf8::encode_utf8_decode_utf8(written);
        vstd::utf8::encode_utf8_decode_utf8(Seq::<char>::empty());
        assert(vstd::utf8::encode_utf8(written) =~= vstd::utf8::encode_utf8(Seq::<char>::empty()));
        assert(written =~= Seq::<char>::empty());
    }
}

/// Any number of appends, one after the other, leave what the file held
/// where it was and never make the file shorter.
pub proof fn lemma_appends_keep_prior_bytes(prior: Seq<u8>, records: Seq<Seq<char>>)
    ensures
        appended_all(prior, records).len() >= prior.len(),
        appended_all(prior, records).subrange(0, prior.len() as int) == prior,
    decreases records.len(),
{
    if records.len() > 0 {
        let before = appended_all(prior, records.drop_last());
        lemma_appends_keep_prior_bytes(prior, records.drop_last());
        lemma_append_keeps_prior_bytes(before, records.last());
        assert(appended_all(prior, records).subrange(0, prior.len() as int) =~= before.subrange(
            0,
            prior.len() as int,
        ));
    } else {
        assert(prior.subrange(0, prior.len() as int) =~= prior);
    }
}

/// The bytes of a file after records were appended to it in order.
pub open spec fn appended_all(prior: Seq<u8>, records: Seq<Seq<char>>) -> Seq<u8>
    decreases records.len(),
{
    if records.len() == 0 {
        prior
    } else {
        appended(appended_all(prior, records.drop_last()), records.last())
    }
}

/// How far an append has come.
#[derive(Clone, Copy, Debug, PartialEq, Eq, Structural)]
pub enum AppendStage {
    Opening,
    Measuring,
    Writing,
    Flushing,
    Finished,
}

/// How the last request to the file system ended.
#[derive(Clone, Copy, Debug, PartialEq, Eq, Structural)]
pub enum AppendEvent {
    /// The file is open.
    Opened,
    /// The file holds this many bytes.
    Length(u64),
    /// The text was written in full.
    Written,
    /// The file is flushed.
    Flushed,
    /// The request failed.
    Failed,
}

/// What the file system is asked to do next.
#[derive(Debug, PartialEq, Eq)]
pub enum AppendAction {
    /// Open the file at `path` for appending, creating it with `mode` if it
    /// is not there. Nothing that it holds is touched.
    OpenToAppend { path: String, mode: u32 },
    /// Say how many bytes the open file holds.
    QueryLength,
    /// Append this text to the open file.
    Write(String),
    /// Flush the open file.
    Flush,
    /// Nothing: the append has ended, with this result.
    Done(Result<(), IoSerdeError>),
}

/// The mathematical value of an [`AppendAction`].
pub enum AppendActionView {
    OpenToAppend { path: Seq<char>, mode: u32 },
    QueryLength,
    Write(Seq<char>),
    Flush,
    Done(Result<(), IoSerdeErrorView>),
}

impl View for AppendAction {
    type V = AppendActionView;

    open spec fn view(&self) -> AppendActionView {
        match self {
            AppendAction::OpenToAppend { path, mode } => AppendActionView::OpenToAppend { path: path@, mode: *mode },
            AppendAction::QueryLength => AppendActionView::QueryLength,
            AppendAction::Write(text) => AppendActionView::Write(text@),
            AppendAction::Flush => AppendActionView::Flush,
            AppendAction::Done(Ok(_)) => AppendActionView::Done(Ok(())),
            AppendAction::Done(Err(error)) => AppendActionView::Done(Err(error@)),
        }
    }
}

/// One append of one record to the store at `path`.
#[derive(Clone, Debug, PartialEq, Eq)]
pub struct Append {
    pub path: String,
    pub record: String,
    pub stage: AppendStage,
}

/// The mathematical value of an [`Append`].
pub struct AppendView {
    pub path: Seq<char>,
    pub record: Seq<char>,
    pub stage: AppendStage,
}

impl View for Append {
    type V = AppendView;

    open spec fn view(&self) -> AppendView {
        AppendView { path: self.path@, record: self.record@, stage: self.stage }
    }
}

impl AppendView {
    pub open spec fn at(self, stage: AppendStage) -> AppendView {
        AppendView { stage, ..self }
    }

    pub open spec fn fail(self, error: IoSerdeErrorView) -> (AppendView, AppendActionView) {
        (self.at(AppendStage::Finished), AppendActionView::Done(Err(error)))
    }

    /// The append after an event, and the request that follows. A failed
    /// open, write or flush is a write error; a failed measuring is a read
    /// error; an event that does not answer the open request is taken as its
    /// failure.
    pub open spec fn step(self, event: AppendEvent) -> (AppendView, AppendActionView) {
        match self.stage {
            AppendStage::Opening => match event {
                AppendEvent::Opened => (
                    self.at(AppendStage::Measuring),
                    AppendActionView::QueryLength,
                ),
                _ => self.fail(IoSerdeErrorView::Write(self.path)),
            },
            AppendStage::Measuring => match event {
                AppendEvent::Length(len) => (
                    self.at(AppendStage::Writing),
                    AppendActionView::Write(payload(len, self.record)),
                ),
                _ => self.fail(IoSerdeErrorView::Read(self.path)),
            },
            AppendStage::Writing => match event {
                AppendEvent::Written => (self.at(AppendStage::Flushing), AppendActionView::Flush),
                _ => self.fail(IoSerdeErrorView::Write(self.path)),
            },
            AppendStage::Flushing => match event {
                AppendEvent::Flushed => (
                    self.at(AppendStage::Finished),
                    AppendActionView::Done(Ok(())),
                ),
                _ => self.fail(IoSerdeErrorView::Write(self.path)),
            },
            AppendStage::Finished => self.fail(IoSerdeErrorView::Write(self.path)),
        }
    }
}

/// Where an append of `user` to the store at `path` starts: with the request
/// to open the file, or at its end if the record cannot be rendered.
pub open spec fn append_start(user: UserView, path: Seq<char>) -> (AppendView, AppendActionView) {
    match user.text() {
        Some(record) => (
            AppendView { path, record, stage: AppendStage::Opening },
            AppendActionView::OpenToAppend { path, mode: STORE_MODE },
        ),
        None => (
            AppendView { path, record: Seq::empty(), stage: AppendStage::Finished },
            AppendActionView::Done(Err(IoSerdeErrorView::Serialize)),
        ),
    }
}

impl User {
    /// Starts appending the record to the store at `path`.
    pub fn append_to_file(&self, path: &str) -> (started: (Append, AppendAction))
        ensures
            (started.0@, started.1@) == append_start(self@, path@),
    {
        match self.to_toml() {
            Ok(record) => (
                Append { path: String::from_str(path), record, stage: AppendStage::Opening },
                AppendAction::OpenToAppend { path: String::from_str(path), mode: STORE_MODE },
            ),
            Err(error) => (
                Append {
                    path: String::from_str(path),
                    record: String::new(),
                    stage: AppendStage::Finished,
                },
                AppendAction::Done(Err(error)),
            ),
        }
    }
}

impl Append {
    fn fail_write(self) -> (next: (Append, AppendAction))
        ensures
            (next.0@, next.1@) == self@.fail(IoSerdeErrorView::Write(self@.path)),
    {
        let error = IoSerdeError::Write(self.path.clone());
        (
            Append { path: self.path, record: self.record, stage: AppendStage::Finished },
            AppendAction::Done(Err(error)),
        )
    }

    /// Takes how the last request ended and says what to ask for next.
    pub fn step(self, event: AppendEvent) -> (next: (Append, AppendAction))
        ensures
            (next.0@, next.1@) == self@.step(event),
    {
        match self.stage {
            AppendStage::Opening => match event {
                AppendEvent::Opened => (
                    Append { path: self.path, record: self.record, stage: AppendStage::Measuring },
                    AppendAction::QueryLength,
                ),
                _ => self.fail_write(),
            },
            AppendStage::Measuring => match event {
                AppendEvent::Length(len) => {
                    let text = if len == 0 {
                        self.record.clone()
                    } else {
                        proof {
                            reveal_strlit("\n");
                        }
                        let mut text = String::from_str("\n");
                        text.append(self.record.as_str());
                        assert(text@ =~= seq!['\n'] + self.record@);
                        text
                    };
                    (
                        Append { path: self.path, record: self.record, stage: AppendStage::Writing },
                        AppendAction::Write(text),
                    )
                },
                _ => {
                    let error = IoSerdeError::Read(self.path.clone());
                    (
                        Append { path: self.path, record: self.record, stage: AppendStage::Finished },
                        AppendAction::Done(Err(error)),
                    )
                },
            },
            AppendStage::Writing => match event {
                AppendEvent::Written => (
                    Append { path: self.path, record: self.record, stage: AppendStage::Flushing },
                    AppendAction::Flush,
                ),
                _ => self.fail_write(),
            },
            AppendStage::Flushing => match event {
                AppendEvent::Flushed => (
                    Append { path: self.path, record: self.record, stage: AppendStage::Finished },
                    AppendAction::Done(Ok(())),
                ),
                _ => self.fail_write(),
            },
            AppendStage::Finished => self.fail_write(),
        }
    }
}

/// An append asks for one write at most, and only after the file was opened
/// for appending and measured: no step from any other stage writes.
pub proof fn lemma_append_writes_once(append: AppendView, event: AppendEvent)
    ensures
        append.step(event).1 is Write ==> append.stage == AppendStage::Measuring
            && append.step(event).0.stage == AppendStage::Writing,
        append.step(event).1 is OpenToAppend ==> false,
{
}

} // verus!
