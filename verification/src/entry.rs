//! Records and the rows that they are stored as.
//!
//! A record is what the sink keeps of one accepted event. A row is the same
//! record as the backing table holds it: the level as its name, the
//! attributes as the text of a JSON object.

use crate::attributes::{json_object_of, json_text_of, Attributes};
use crate::event::text_view;
use crate::level::{lemma_level_name_reads_back, level_of_text, Level};
use crate::visitor::message_key;
use vstd::prelude::*;

verus! {

/// Why a record could not be stored or read.
#[derive(Debug, Clone, PartialEq, Eq)]
pub enum StorageError {
    /// The backend could not carry out the operation. The text is the
    /// backend's own report.
    Backend(String),
    /// The attributes of a record could not be encoded, or their text does
    /// not read back as the attributes.
    Encode,
    /// A stored level is not the name of a level.
    MalformedLevel,
    /// Stored attributes are not a JSON object of strings.
    MalformedAttributes,
}

/// One stored event.
#[derive(Debug)]
pub struct LogEntry {
    pub time: time::OffsetDateTime,
    pub level: Level,
    pub module: Option<String>,
    pub file: Option<String>,
    pub line: Option<u32>,
    pub message: String,
    pub structured: Attributes,
}

/// A record as the columns of the backing table hold it.
#[derive(Debug)]
pub struct Row {
    pub time: time::OffsetDateTime,
    pub level: String,
    pub module: Option<String>,
    pub file: Option<String>,
    pub line: Option<u32>,
    pub message: String,
    pub structured: String,
}

/// What a record holds.
pub struct EntryView {
    pub time: time::OffsetDateTime,
    pub level: Level,
    pub module: Option<Seq<char>>,
    pub file: Option<Seq<char>>,
    pub line: Option<u32>,
    pub message: Seq<char>,
    pub structured: Map<Seq<char>, Seq<char>>,
}

/// What a row holds.
pub struct RowView {
    pub time: time::OffsetDateTime,
    pub level: Seq<char>,
    pub module: Option<Seq<char>>,
    pub file: Option<Seq<char>>,
    pub line: Option<u32>,
    pub message: Seq<char>,
    pub structured: Seq<char>,
}

impl View for LogEntry {
    type V = EntryView;

    open spec fn view(&self) -> EntryView {
        EntryView {
            time: self.time,
            level: self.level,
            module: text_view(self.module),
            file: text_view(self.file),
            line: self.line,
            message: self.message@,
            structured: self.structured@,
        }
    }
}

impl View for Row {
    type V = RowView;

    open spec fn view(&self) -> RowView {
        RowView {
            time: self.time,
            level: self.level@,
            module: text_view(self.module),
            file: text_view(self.file),
            line: self.line,
            message: self.message@,
            structured: self.structured@,
        }
    }
}

/// The row of a record whose attributes are encoded as `structured`.
pub open spec fn row_of(entry: EntryView, structured: Seq<char>) -> RowView {
    RowView {
        time: entry.time,
        level: entry.level.spec_as_str(),
        module: entry.module,
        file: entry.file,
        line: entry.line,
        message: entry.message,
        structured,
    }
}

/// The record of a row whose level reads as `level` and whose attributes
/// read as `structured`.
pub open spec fn entry_of(
    row: RowView,
    level: Level,
    structured: Map<Seq<char>, Seq<char>>,
) -> EntryView {
    EntryView {
        time: row.time,
        level,
        module: row.module,
        file: row.file,
        line: row.line,
        message: row.message,
        structured,
    }
}

/// What reading a row gives, by what its level and its attributes read as.
pub open spec fn entry_or_error(
    row: RowView,
    level: Option<Level>,
    structured: Option<Map<Seq<char>, Seq<char>>>,
) -> Result<EntryView, StorageError> {
    match level {
        None => Err(StorageError::MalformedLevel),
        Some(l) => match structured {
            None => Err(StorageError::MalformedAttributes),
            Some(m) => Ok(entry_of(row, l, m)),
        },
    }
}

/// What reading a row gives: the record it holds, or the reason why it holds
/// none.
pub open spec fn read_row(row: RowView) -> Result<EntryView, StorageError> {
    entry_or_error(row, level_of_text(row.level), json_object_of(row.structured))
}

/// Reading the row of a record gives the record back, provided that the
/// text of its attributes decodes to the attributes. Whether it does is up
/// to the JSON encoder and decoder.
pub proof fn lemma_read_row_of_entry(entry: EntryView)
    ensures
        json_object_of(json_text_of(entry.structured)) == Some(entry.structured) ==> read_row(
            row_of(entry, json_text_of(entry.structured)),
        ) == Ok::<EntryView, StorageError>(entry),
{
    lemma_level_name_reads_back(entry.level);
}

/// Reading the row of a record never fails on its level, and what is read
/// differs from the record at most in the attributes.
pub proof fn lemma_read_row_keeps_all_but_attributes(entry: EntryView, structured: Seq<char>)
    ensures
        match read_row(row_of(entry, structured)) {
            Ok(read) => json_object_of(structured) matches Some(m) && read == entry_of(
                row_of(entry, structured),
                entry.level,
                m,
            ),
            Err(e) => e == StorageError::MalformedAttributes && json_object_of(structured) is None,
        },
{
    lemma_level_name_reads_back(entry.level);
}

/// Whether the first `n` rows of a list all read as records.
pub open spec fn rows_read(rows: Seq<Row>, n: int) -> bool {
    forall|j: int| 0 <= j < n ==> (#[trigger] read_row(rows[j]@)) is Ok
}

impl LogEntry {
    /// Whether the attributes are well formed and hold no entry under the
    /// message's name.
    pub open spec fn wf(self) -> bool {
        self.structured.wf() && !self.structured@.contains_key(message_key())
    }

    /// The row of this record, given what encoding its attributes gave.
    pub fn into_row_with(self, encoded: Result<String, serde_json::Error>) -> (row: Result<
        Row,
        StorageError,
    >)
        ensures
            match encoded {
                Ok(text) => row matches Ok(r) && r@ == row_of(self@, text@),
                Err(_) => row == Err::<Row, StorageError>(StorageError::Encode),
            },
    {
        match encoded {
            Ok(text) => Ok(
                Row {
                    time: self.time,
                    level: self.level.as_str().to_owned(),
                    module: self.module,
                    file: self.file,
                    line: self.line,
                    message: self.message,
                    structured: text,
                },
            ),
            Err(_) => Err(StorageError::Encode),
        }
    }

    /// The row of this record: the level as its name, the attributes as the
    /// text of a JSON object. Every record has a row.
    pub fn into_row(self) -> (row: Result<Row, StorageError>)
        requires
            self.structured.wf(),
        ensures
            row matches Ok(r) && r@ == row_of(self@, json_text_of(self.structured@)),
    {
        let encoded = self.structured.to_json();
        self.into_row_with(encoded)
    }

    /// The row of this record, handed out only after a check that it reads
    /// back as the record: the text of the attributes is decoded again and
    /// compared with the attributes. So every row that comes out of here
    /// gives the record back when it is read, attributes and all.
    pub fn into_checked_row(self) -> (row: Result<Row, StorageError>)
        requires
            self.structured.wf(),
        ensures
            row is Ok <==> json_object_of(json_text_of(self.structured@)) == Some(
                self.structured@,
            ),
            match row {
                Ok(r) => r@ == row_of(self@, json_text_of(self.structured@)) && read_row(r@)
                    == Ok::<EntryView, StorageError>(self@),
                Err(e) => e == StorageError::Encode,
            },
    {
        proof {
            lemma_read_row_of_entry(self@);
        }
        let encoded = self.structured.to_json();
        let reads_back = match &encoded {
            Ok(text) => self.structured.reads_back_from(text.as_str()),
            Err(_) => false,
        };
        if reads_back {
            self.into_row_with(encoded)
        } else {
            Err(StorageError::Encode)
        }
    }

    /// The record of a row, given what reading its level and decoding its
    /// attributes gave.
    pub fn from_row_with(
        row: Row,
        level: Option<Level>,
        decoded: Result<Attributes, serde_json::Error>,
    ) -> (entry: Result<LogEntry, StorageError>)
        ensures
            match level {
                None => entry == Err::<LogEntry, StorageError>(StorageError::MalformedLevel),
                Some(l) => match decoded {
                    Err(_) => entry == Err::<LogEntry, StorageError>(
                        StorageError::MalformedAttributes,
                    ),
                    Ok(a) => entry matches Ok(e) && e.structured == a && e@ == entry_of(
                        row@,
                        l,
                        a@,
                    ),
                },
            },
    {
        let level = match level {
            Some(l) => l,
            None => {
                return Err(StorageError::MalformedLevel);
            },
        };
        let structured = match decoded {
            Ok(a) => a,
            Err(_) => {
                return Err(StorageError::MalformedAttributes);
            },
        };
        Ok(
            LogEntry {
                time: row.time,
                level,
                module: row.module,
                file: row.file,
                line: row.line,
                message: row.message,
                structured,
            },
        )
    }

    /// Reads a record from a row. Fails with `MalformedLevel` where the level
    /// does not read as a level, else with `MalformedAttributes` where the
    /// attributes are no JSON object of strings. A level stored under its
    /// name always reads as that level.
    pub fn from_row(row: Row) -> (entry: Result<LogEntry, StorageError>)
        ensures
            match entry {
                Ok(e) => read_row(row@) == Ok::<EntryView, StorageError>(e@) && e.structured.wf(),
                Err(e) => read_row(row@) == Err::<EntryView, StorageError>(e),
            },
            forall|l: Level|
                row.level@ == l.spec_as_str() ==> match entry {
                    Ok(e) => e.level == l,
                    Err(e) => e == StorageError::MalformedAttributes,
                },
    {
        let level = Level::parse(row.level.as_str());
        let decoded = Attributes::from_json(row.structured.as_str());
        LogEntry::from_row_with(row, level, decoded)
    }

    /// Reads the records of a list of rows, in the order of the rows. Where
    /// a row does not read as a record, the error of the first such row is
    /// handed back and no record is.
    pub fn from_rows(rows: Vec<Row>) -> (entries: Result<Vec<LogEntry>, StorageError>)
        ensures
            match entries {
                Ok(list) => {
                    &&& list.len() == rows.len()
                    &&& forall|i: int|
                        0 <= i < list.len() ==> read_row(rows[i]@) == Ok::<
                            EntryView,
                            StorageError,
                        >((#[trigger] list[i])@) && list[i].structured.wf()
                },
                Err(e) => exists|i: int|
                    0 <= i < rows.len() && rows_read(rows@, i) && #[trigger] read_row(rows[i]@)
                        == Err::<EntryView, StorageError>(e),
            },
    {
        let ghost all = rows@;
        let mut list: Vec<LogEntry> = Vec::new();
        for row in it: rows
            invariant
                it.seq() == all,
                list.len() == it.index(),
                forall|i: int|
                    0 <= i < list.len() ==> read_row(all[i]@) == Ok::<EntryView, StorageError>(
                        (#[trigger] list[i])@,
                    ) && list[i].structured.wf(),
        {
            let ghost at = list.len() as int;
            match LogEntry::from_row(row) {
                Ok(entry) => {
                    list.push(entry);
                },
                Err(e) => {
                    assert(rows_read(all, at)) by {
                        assert forall|j: int| 0 <= j < at implies (#[trigger] read_row(
                            all[j]@,
                        )) is Ok by {
                            assert(read_row(all[j]@) == Ok::<EntryView, StorageError>(list[j]@));
                        }
                    }
                    return Err(e);
                },
            }
        }
        Ok(list)
    }
}

} // verus!
