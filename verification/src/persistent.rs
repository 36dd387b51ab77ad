//! The state store: the last address known to have been published, and the
//! file it is kept in.

use vstd::prelude::*;
use vstd::string::*;
use crate::error::Error;
use crate::json::{
    holds_null, holds_object, json_of, json_parsed, json_quoted, member, parse, quote, text_of,
    Json,
};

verus! {

/// What reading a record's state file gave.
#[derive(Debug, PartialEq, Eq)]
pub enum StoredFile {
    /// There is no such file.
    Absent,
    /// The file's contents.
    Present(String),
    /// The file is there but could not be read as text.
    Unreadable,
}

/// What a [`StoredFile`] stands for.
pub enum StoredFileView {
    Absent,
    Present(Seq<char>),
    Unreadable,
}

impl View for StoredFile {
    type V = StoredFileView;

    open spec fn view(&self) -> StoredFileView {
        match self {
            StoredFile::Absent => StoredFileView::Absent,
            StoredFile::Present(text) => StoredFileView::Present(text@),
            StoredFile::Unreadable => StoredFileView::Unreadable,
        }
    }
}

impl Clone for StoredFile {
    fn clone(&self) -> (r: Self)
        ensures
            r@ == self@,
    {
        match self {
            StoredFile::Absent => StoredFile::Absent,
            StoredFile::Present(text) => StoredFile::Present(text.clone()),
            StoredFile::Unreadable => StoredFile::Unreadable,
        }
    }
}

/// The last known address a JSON document records, if the document is a
/// state: an object whose member `ip`, where it has one, is a string or
/// `null`. Other members are of no account. `None` for any other document.
pub open spec fn recorded_address(document: Json) -> Option<Option<Seq<char>>> {
    match document {
        Json::Object(members) => if !members.contains_key("ip"@) {
            Some(None)
        } else {
            match members["ip"@] {
                Json::Null => Some(None),
                Json::Text(address) => Some(Some(address)),
                _ => None,
            }
        },
        _ => None,
    }
}

/// The last known address that the text of a state file records, or `None`
/// where the text is no state.
pub open spec fn stored_address(text: Seq<char>) -> Option<Option<Seq<char>>> {
    match json_parsed(text) {
        Some(document) => recorded_address(document),
        None => None,
    }
}

/// The last known address that a state file gives. A missing file is a first
/// run, not an error.
pub open spec fn loaded_address(file: StoredFileView) -> Option<Option<Seq<char>>> {
    match file {
        StoredFileView::Absent => Some(None),
        StoredFileView::Present(text) => stored_address(text),
        StoredFileView::Unreadable => None,
    }
}

/// The text of a state file that records the address whose JSON literal is
/// `literal`: an object with the one member `ip`.
pub open spec fn state_text(literal: Seq<char>) -> Seq<char> {
    "{\"ip\":"@ + literal + "}"@
}

/// The text of the state file for a last known address. No address is
/// written as `null`.
pub open spec fn rendered_state(ip: Option<Seq<char>>) -> Seq<char> {
    match ip {
        None => state_text("null"@),
        Some(address) => state_text(json_quoted(address)),
    }
}

/// The name of the state file of a record: one file per record name.
pub open spec fn state_file(domain: Seq<char>) -> Seq<char> {
    domain + ".json"@
}

/// Whether a candidate address differs from the last known one: it does
/// where none is known, and where the two are not the same text.
pub open spec fn changed(last_known: Option<Seq<char>>, candidate: Seq<char>) -> bool {
    match last_known {
        Some(address) => address != candidate,
        None => true,
    }
}

/// The name of the state file of a record.
pub fn state_file_name(domain: &str) -> (r: String)
    ensures
        r@ == state_file(domain@),
{
    let mut name = domain.to_owned();
    name.append(".json");
    name
}

/// The text of a state file that records the address whose JSON literal is
/// `literal`.
pub fn state_file_text(literal: &str) -> (r: String)
    ensures
        r@ == state_text(literal@),
{
    let mut text = "{\"ip\":".to_owned();
    text.append(literal);
    text.append("}");
    text
}

/// The persisted state of one record: the address last published for it.
#[derive(Debug, PartialEq, Eq)]
pub struct PersistentData {
    ip: Option<String>,
}

impl View for PersistentData {
    type V = Option<Seq<char>>;

    closed spec fn view(&self) -> Option<Seq<char>> {
        match self.ip {
            Some(address) => Some(address@),
            None => None,
        }
    }
}

impl PersistentData {
    /// The state that a read of the state file gives: no last known address
    /// where there is no file, what the file records where there is one.
    pub fn new(file: &StoredFile) -> (r: Result<PersistentData, Error>)
        ensures
            match loaded_address(file@) {
                Some(ip) => r matches Ok(data) && data@ == ip,
                None => r == Err::<PersistentData, Error>(Error::StateCorrupt),
            },
    {
        match file {
            StoredFile::Absent => Ok(PersistentData { ip: None }),
            StoredFile::Present(text) => PersistentData::from_file(text.as_str()),
            StoredFile::Unreadable => Err(Error::StateCorrupt),
        }
    }

    /// The state that the text of a state file records.
    pub fn from_file(text: &str) -> (r: Result<PersistentData, Error>)
        ensures
            match stored_address(text@) {
                Some(ip) => r matches Ok(data) && data@ == ip,
                None => r == Err::<PersistentData, Error>(Error::StateCorrupt),
            },
    {
        match parse(text) {
            Some(document) => PersistentData::from_json(&document),
            None => Err(Error::StateCorrupt),
        }
    }

    /// The state that a parsed JSON document records.
    pub fn from_json(document: &serde_json::Value) -> (r: Result<PersistentData, Error>)
        ensures
            match recorded_address(json_of(*document)) {
                Some(ip) => r matches Ok(data) && data@ == ip,
                None => r == Err::<PersistentData, Error>(Error::StateCorrupt),
            },
    {
        if !holds_object(document) {
            return Err(Error::StateCorrupt);
        }
        match member(document, "ip") {
            None => Ok(PersistentData { ip: None }),
            Some(value) => {
                if holds_null(value) {
                    Ok(PersistentData { ip: None })
                } else {
                    match text_of(value) {
                        Some(address) => Ok(PersistentData { ip: Some(address.to_owned()) }),
                        None => Err(Error::StateCorrupt),
                    }
                }
            },
        }
    }

    /// The text to write to the state file so that it records this state.
    pub fn sync(&self) -> (r: String)
        ensures
            r@ == rendered_state(self@),
    {
        match &self.ip {
            None => state_file_text("null"),
            Some(address) => {
                let literal = quote(address.as_str()).unwrap();
                state_file_text(literal.as_str())
            },
        }
    }

    /// The last known address, if there is one.
    pub fn ip(&self) -> (r: Option<&String>)
        ensures
            match self@ {
                Some(address) => r matches Some(found) && found@ == address,
                None => r is None,
            },
    {
        self.ip.as_ref()
    }
}

/// The state store of one record: its state, and the name of the file that
/// keeps it.
#[derive(Debug, PartialEq, Eq)]
pub struct Persistance {
    file_name: String,
    data: PersistentData,
}

/// What a [`Persistance`] stands for.
pub struct PersistanceView {
    pub file_name: Seq<char>,
    pub ip: Option<Seq<char>>,
}

impl PersistanceView {
    /// The store once `address` has been committed: the same file, with
    /// `address` as the last known one, whatever was known before.
    pub open spec fn committed(self, address: Seq<char>) -> PersistanceView {
        PersistanceView { file_name: self.file_name, ip: Some(address) }
    }

    /// The store once the commit of `address` has come to its end: committed
    /// where the state file was written, as it was where the write failed.
    pub open spec fn concluded(self, address: Seq<char>, written: bool) -> PersistanceView {
        if written {
            self.committed(address)
        } else {
            self
        }
    }
}

impl View for Persistance {
    type V = PersistanceView;

    closed spec fn view(&self) -> PersistanceView {
        PersistanceView { file_name: self.file_name@, ip: self.data@ }
    }
}

impl Persistance {
    /// Opens the store of the record `domain` on what a read of its state
    /// file gave.
    pub fn new(domain: &str, file: &StoredFile) -> (r: Result<Persistance, Error>)
        ensures
            match loaded_address(file@) {
                Some(ip) => r matches Ok(store) && store@ == (PersistanceView {
                    file_name: state_file(domain@),
                    ip,
                }),
                None => r == Err::<Persistance, Error>(Error::StateCorrupt),
            },
    {
        let file_name = state_file_name(domain);
        match PersistentData::new(file) {
            Ok(data) => Ok(Persistance { file_name, data }),
            Err(error) => Err(error),
        }
    }

    /// Whether `new_ip` differs from the last known address.
    pub fn ip_changed(&self, new_ip: &str) -> (r: bool)
        ensures
            r == changed(self@.ip, new_ip@),
    {
        match &self.data.ip {
            Some(ip) => {
                let candidate = new_ip.to_owned();
                !(*ip == candidate)
            },
            None => true,
        }
    }

    /// The text that the state file is to hold for `new_ip` to be committed.
    /// The store itself is left as it is: it moves on only in `update`, once
    /// the text has been written.
    pub fn text_for(&self, new_ip: &str) -> (r: String)
        ensures
            r@ == rendered_state(self@.committed(new_ip@).ip),
    {
        let literal = quote(new_ip).unwrap();
        state_file_text(literal.as_str())
    }

    /// Concludes the commit of `new_ip`. `written` says whether the state
    /// file has been replaced by the text for `new_ip`. Where it has, `new_ip`
    /// is the last known address from now on. Where it has not, the commit
    /// has failed and the store is as it was: a failed commit never moves the
    /// state, so the next decision for `new_ip` is what it was.
    pub fn update(&mut self, new_ip: &str, written: bool) -> (r: Result<(), Error>)
        ensures
            final(self)@ == old(self)@.concluded(new_ip@, written),
            written ==> r is Ok,
            !written ==> r == Err::<(), Error>(Error::StatePersistFailure),
    {
        if written {
            self.data.ip = Some(new_ip.to_owned());
            Ok(())
        } else {
            Err(Error::StatePersistFailure)
        }
    }

    /// The name of the file that keeps the state.
    pub fn file_name(&self) -> (r: &String)
        ensures
            r@ == self@.file_name,
    {
        &self.file_name
    }

    /// The last known address, if there is one.
    pub fn ip(&self) -> (r: Option<&String>)
        ensures
            match self@.ip {
                Some(address) => r matches Some(found) && found@ == address,
                None => r is None,
            },
    {
        self.data.ip()
    }
}

} // verus!
