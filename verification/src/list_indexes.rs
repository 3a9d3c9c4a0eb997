//! The operation that lists the indexes of a collection.

use crate::command::{Command, CommandView};
use crate::document::{Bson, BsonView, Document, DocumentView};
use crate::error::{Error, ErrorKind, ErrorKindView, Result};
use crate::reply::StreamDescription;
use vstd::prelude::*;

verus! {

/// A collection, by the database that holds it and by its own name.
#[derive(Debug, PartialEq, Eq)]
pub struct Namespace {
    pub db: String,
    pub coll: String,
}

impl Clone for Namespace {
    fn clone(&self) -> (copy: Namespace)
        ensures
            copy == *self,
    {
        Namespace { db: self.db.clone(), coll: self.coll.clone() }
    }
}

/// How the listing is to be run.
#[derive(Debug, Clone, Copy, PartialEq, Eq)]
pub struct ListIndexOptions {
    /// The longest that the server may work on the command, in milliseconds.
    pub max_time: Option<u64>,
    /// How many indexes the server hands over at a time.
    pub batch_size: Option<u32>,
}

/// The cursor that the server opened.
#[derive(Debug, PartialEq, Eq)]
pub struct CursorInfo {
    pub id: i64,
    pub ns: Namespace,
    pub first_batch: Vec<Document>,
}

/// The body of the server's answer to a command that opens a cursor.
#[derive(Debug, PartialEq, Eq)]
pub struct CursorBody {
    pub cursor: CursorInfo,
}

/// What is needed to read on from a cursor.
#[derive(Debug, PartialEq, Eq)]
pub struct CursorSpecification {
    pub info: CursorInfo,
    /// The server that holds the cursor.
    pub address: String,
    pub batch_size: Option<u32>,
    pub max_time: Option<u64>,
}

impl ListIndexOptions {
    /// Whether the options can be written into a command: the time limit as
    /// a signed 64-bit integer, the batch size as a signed 32-bit integer.
    pub open spec fn writable(self) -> bool {
        &&& self.max_time matches Some(limit) ==> limit <= i64::MAX
        &&& self.batch_size matches Some(size) ==> size <= i32::MAX
    }

    /// The entries that state the options in a command: `maxTimeMS`, in 32
    /// bits where the limit fits, then `batchSize`.
    pub open spec fn entries(self) -> Seq<(Seq<char>, BsonView)> {
        let limit = match self.max_time {
            Some(limit) => seq![
                (
                    "maxTimeMS"@,
                    if limit <= i32::MAX {
                        BsonView::Int32(limit as i32)
                    } else {
                        BsonView::Int64(limit as i64)
                    },
                ),
            ],
            None => Seq::empty(),
        };
        let size = match self.batch_size {
            Some(size) => seq![("batchSize"@, BsonView::Int32(size as i32))],
            None => Seq::empty(),
        };
        limit + size
    }
}

/// The entries that state optional options, and none where there are none.
pub open spec fn option_entries(options: Option<ListIndexOptions>) -> Seq<(Seq<char>, BsonView)> {
    match options {
        Some(options) => options.entries(),
        None => Seq::empty(),
    }
}

/// Whether optional options can be written into a command.
pub open spec fn options_writable(options: Option<ListIndexOptions>) -> bool {
    options matches Some(options) ==> options.writable()
}

/// The explanation given for an option that has no place in a command.
pub open spec fn unwritable_option_message() -> Seq<char> {
    "an option of the command does not fit the integer type of its field"@
}

/// Writes `options` into `body`, after what the body holds.
fn append_options(body: &mut Document, options: Option<&ListIndexOptions>) -> (outcome: Result<()>)
    requires
        !old(body)@.contains_key("maxTimeMS"@),
        !old(body)@.contains_key("batchSize"@),
    ensures
        match outcome {
            Ok(_) => options matches Some(options) ==> options.writable(),
            Err(error) => options matches Some(options) && !options.writable() && error@
                == (ErrorKindView::InvalidArgument { message: unwritable_option_message() }),
        },
        outcome is Ok ==> final(body)@.entries == old(body)@.entries + match options {
            Some(options) => options.entries(),
            None => Seq::empty(),
        },
{
    let options = match options {
        Some(options) => options,
        None => {
            assert(body@.entries =~= old(body)@.entries + Seq::empty());
            return Ok(());
        },
    };
    let limit = match options.max_time {
        Some(limit) => if limit <= i32::MAX as u64 {
            Some(Bson::Int32(limit as i32))
        } else if limit <= i64::MAX as u64 {
            Some(Bson::Int64(limit as i64))
        } else {
            return Err(unwritable_option());
        },
        None => None,
    };
    let size = match options.batch_size {
        Some(size) => if size <= i32::MAX as u32 {
            Some(Bson::Int32(size as i32))
        } else {
            return Err(unwritable_option());
        },
        None => None,
    };
    proof {
        reveal_strlit("maxTimeMS");
        reveal_strlit("batchSize");
        assert("maxTimeMS"@.len() == 9 && "batchSize"@.len() == 9);
        assert("maxTimeMS"@[0] != "batchSize"@[0]);
    }
    if let Some(limit) = limit {
        proof {
            body@.lemma_insert_contains_key("maxTimeMS"@, limit@, "batchSize"@);
        }
        body.insert("maxTimeMS".to_owned(), limit);
    }
    if let Some(size) = size {
        body.insert("batchSize".to_owned(), size);
    }
    assert(body@.entries =~= old(body)@.entries + options.entries());
    Ok(())
}

/// The error for an option that has no place in a command.
fn unwritable_option() -> (error: Error)
    ensures
        error@ == (ErrorKindView::InvalidArgument { message: unwritable_option_message() }),
{
    Error::new(
        ErrorKind::InvalidArgument {
            message: "an option of the command does not fit the integer type of its field".to_owned(),
        },
    )
}

/// Lists the indexes of a collection.
#[derive(Debug, PartialEq, Eq)]
pub struct ListIndexes {
    ns: Namespace,
    options: Option<ListIndexOptions>,
}

impl ListIndexes {
    /// The collection whose indexes are listed.
    pub closed spec fn spec_ns(&self) -> Namespace {
        self.ns
    }

    /// How the listing is to be run.
    pub closed spec fn spec_options(&self) -> Option<ListIndexOptions> {
        self.options
    }

    /// The listing of the indexes of `ns`, run as `options` say.
    pub fn new(ns: Namespace, options: Option<ListIndexOptions>) -> (operation: ListIndexes)
        ensures
            operation.spec_ns() == ns,
            operation.spec_options() == options,
    {
        ListIndexes { ns, options }
    }

    /// The name of the command.
    pub fn name() -> (name: &'static str)
        ensures
            name@ == "listIndexes"@,
    {
        "listIndexes"
    }

    /// The command to send: run against the collection's database, its body
    /// the collection's name under `listIndexes`, then the options. Fails
    /// where an option cannot be written; the operation is not changed.
    pub fn build(&mut self, description: &StreamDescription) -> (outcome: Result<Command>)
        ensures
            *final(self) == *old(self),
            match outcome {
                Ok(command) => options_writable(old(self).spec_options()) && command@ == (CommandView {
                    name: "listIndexes"@,
                    target_db: old(self).spec_ns().db@,
                    body: DocumentView {
                        entries: seq![("listIndexes"@, BsonView::String(old(self).spec_ns().coll@))]
                            + option_entries(old(self).spec_options()),
                    },
                }),
                Err(error) => !options_writable(old(self).spec_options()) && error@
                    == (ErrorKindView::InvalidArgument { message: unwritable_option_message() }),
            },
    {
        let mut body = Document::new();
        body.insert("listIndexes".to_owned(), Bson::String(self.ns.coll.clone()));
        proof {
            reveal_strlit("listIndexes");
            reveal_strlit("maxTimeMS");
            reveal_strlit("batchSize");
            assert("listIndexes"@.len() == 11 && "maxTimeMS"@.len() == 9 && "batchSize"@.len() == 9);
            DocumentView::empty().lemma_insert_contains_key(
                "listIndexes"@,
                BsonView::String(self.ns.coll@),
                "maxTimeMS"@,
            );
            DocumentView::empty().lemma_insert_contains_key(
                "listIndexes"@,
                BsonView::String(self.ns.coll@),
                "batchSize"@,
            );
        }
        match append_options(&mut body, self.options.as_ref()) {
            Ok(_) => {},
            Err(error) => {
                return Err(error);
            },
        }
        let command = Command::new(ListIndexes::name().to_owned(), self.ns.db.clone(), body);
        assert(command@.body.entries =~= seq![
            ("listIndexes"@, BsonView::String(self.spec_ns().coll@)),
        ] + option_entries(self.spec_options()));
        Ok(command)
    }

    /// What is needed to read the listing: the cursor that the server
    /// opened, the server that answered, and the batch size and time limit
    /// of the options.
    pub fn handle_response(&self, response: CursorBody, description: &StreamDescription) -> (outcome:
        Result<CursorSpecification>)
        ensures
            outcome == Result::<CursorSpecification>::Ok(
                (CursorSpecification {
                    info: response.cursor,
                    address: description.server_address,
                    batch_size: match self.spec_options() {
                        Some(options) => options.batch_size,
                        None => None,
                    },
                    max_time: match self.spec_options() {
                        Some(options) => options.max_time,
                        None => None,
                    },
                }),
            ),
    {
        let (batch_size, max_time) = match &self.options {
            Some(options) => (options.batch_size, options.max_time),
            None => (None, None),
        };
        Ok(
            CursorSpecification {
                info: response.cursor,
                address: description.server_address.clone(),
                batch_size,
                max_time,
            },
        )
    }
}

} // verus!
