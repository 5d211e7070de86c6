//! The queue of waiting jobs: one named list of the store that holds the
//! text form of identifiers, filled at one end and drained at the other.

use vstd::prelude::*;
use vstd::string::*;
use crate::ids::{format_id, hyphenated, parse_id, parsed_id};

verus! {

/// The key of the list.
pub open spec fn queue_key_of() -> Seq<char> {
    "syla:execution:queue"@
}

/// The queue. The connection to the store is not part of it.
#[derive(Debug)]
pub struct RedisQueue {
    queue_key: String,
}

/// An end of the list.
#[derive(Clone, Copy, Debug, PartialEq, Eq, Structural)]
pub enum ListEnd {
    Left,
    Right,
}

/// One command to the store.
#[derive(Debug)]
pub enum QueueCommand {
    Push { key: String, end: ListEnd, entry: String },
    Pop { key: String, end: ListEnd },
    Length { key: String },
}

/// A command as contracts speak of it.
pub enum QueueCommandView {
    Push { key: Seq<char>, end: ListEnd, entry: Seq<char> },
    Pop { key: Seq<char>, end: ListEnd },
    Length { key: Seq<char> },
}

impl View for QueueCommand {
    type V = QueueCommandView;

    open spec fn view(&self) -> QueueCommandView {
        match *self {
            QueueCommand::Push { key, end, entry } => QueueCommandView::Push {
                key: key@,
                end,
                entry: entry@,
            },
            QueueCommand::Pop { key, end } => QueueCommandView::Pop { key: key@, end },
            QueueCommand::Length { key } => QueueCommandView::Length { key: key@ },
        }
    }
}

impl QueueCommandView {
    /// The verb of the store's protocol that carries a command.
    pub open spec fn verb(self) -> Seq<char> {
        match self {
            QueueCommandView::Push { end: ListEnd::Left, .. } => "LPUSH"@,
            QueueCommandView::Push { end: ListEnd::Right, .. } => "RPUSH"@,
            QueueCommandView::Pop { end: ListEnd::Left, .. } => "LPOP"@,
            QueueCommandView::Pop { end: ListEnd::Right, .. } => "RPOP"@,
            QueueCommandView::Length { .. } => "LLEN"@,
        }
    }
}

impl QueueCommand {
    /// The verb of the store's protocol that carries the command.
    pub fn verb_name(&self) -> (verb: &'static str)
        ensures
            verb@ == self@.verb(),
    {
        match self {
            QueueCommand::Push { end: ListEnd::Left, .. } => "LPUSH",
            QueueCommand::Push { end: ListEnd::Right, .. } => "RPUSH",
            QueueCommand::Pop { end: ListEnd::Left, .. } => "LPOP",
            QueueCommand::Pop { end: ListEnd::Right, .. } => "RPOP",
            QueueCommand::Length { .. } => "LLEN",
        }
    }
}

/// An entry of the queue that is no identifier.
#[derive(Debug)]
pub struct InvalidEntry {
    pub entry: String,
}

/// The list after an entry was pushed at an end. The left end is the front.
pub open spec fn list_after_push(list: Seq<Seq<char>>, end: ListEnd, entry: Seq<char>) -> Seq<
    Seq<char>,
> {
    match end {
        ListEnd::Left => seq![entry] + list,
        ListEnd::Right => list.push(entry),
    }
}

/// The entry that a pop at an end takes, if the list holds one.
pub open spec fn popped_entry(list: Seq<Seq<char>>, end: ListEnd) -> Option<Seq<char>> {
    if list.len() == 0 {
        None
    } else {
        match end {
            ListEnd::Left => Some(list.first()),
            ListEnd::Right => Some(list.last()),
        }
    }
}

/// The list after a pop at an end.
pub open spec fn list_after_pop(list: Seq<Seq<char>>, end: ListEnd) -> Seq<Seq<char>> {
    if list.len() == 0 {
        list
    } else {
        match end {
            ListEnd::Left => list.drop_first(),
            ListEnd::Right => list.drop_last(),
        }
    }
}

/// The end at which the queue is filled.
pub open spec fn fill_end() -> ListEnd {
    ListEnd::Left
}

/// The end at which the queue is drained.
pub open spec fn drain_end() -> ListEnd {
    ListEnd::Right
}

/// The list after the identifiers of `ids` were pushed in turn.
pub open spec fn list_after_pushes(list: Seq<Seq<char>>, ids: Seq<u128>) -> Seq<Seq<char>>
    decreases ids.len(),
{
    if ids.len() == 0 {
        list
    } else {
        list_after_push(list_after_pushes(list, ids.drop_last()), fill_end(), hyphenated(ids.last()))
    }
}

/// The queue is first in, first out: after any identifiers were pushed onto
/// an empty list, the first of them is the one that the next pop takes, and
/// what the pop leaves is the list that pushing the others gives.
pub proof fn lemma_queue_is_fifo(ids: Seq<u128>)
    requires
        ids.len() > 0,
    ensures
        popped_entry(list_after_pushes(Seq::empty(), ids), drain_end()) == Some(
            hyphenated(ids.first()),
        ),
        list_after_pop(list_after_pushes(Seq::empty(), ids), drain_end()) == list_after_pushes(
            Seq::empty(),
            ids.drop_first(),
        ),
        list_after_pushes(Seq::empty(), ids).len() == ids.len(),
    decreases ids.len(),
{
    let empty = Seq::<Seq<char>>::empty();
    let all = list_after_pushes(empty, ids);
    if ids.len() == 1 {
        assert(ids.drop_last() =~= Seq::<u128>::empty());
        assert(ids.drop_first() =~= Seq::<u128>::empty());
        assert(all =~= seq![hyphenated(ids.first())]);
    } else {
        let before = ids.drop_last();
        lemma_queue_is_fifo(before);
        let pushed = list_after_pushes(empty, before);
        assert(all =~= seq![hyphenated(ids.last())] + pushed);
        assert(before.drop_first() =~= ids.drop_first().drop_last());
        assert(all.drop_last() =~= seq![hyphenated(ids.last())] + pushed.drop_last());
    }
}

impl RedisQueue {
    pub closed spec fn key(&self) -> Seq<char> {
        self.queue_key@
    }

    /// The queue under its key.
    pub fn new() -> (queue: RedisQueue)
        ensures
            queue.key() == queue_key_of(),
    {
        RedisQueue { queue_key: String::from_str("syla:execution:queue") }
    }

    /// The key of the list.
    pub fn queue_key(&self) -> (key: &str)
        ensures
            key@ == self.key(),
    {
        self.queue_key.as_str()
    }

    /// The command that appends a job to the queue.
    pub fn push_job(&self, job_id: u128) -> (command: QueueCommand)
        ensures
            command@ == (QueueCommandView::Push {
                key: self.key(),
                end: fill_end(),
                entry: hyphenated(job_id),
            }),
    {
        QueueCommand::Push {
            key: self.queue_key.clone(),
            end: ListEnd::Left,
            entry: format_id(job_id),
        }
    }

    /// The command that takes the job at the head of the queue, if there is
    /// one.
    pub fn pop_job(&self) -> (command: QueueCommand)
        ensures
            command@ == (QueueCommandView::Pop { key: self.key(), end: drain_end() }),
    {
        QueueCommand::Pop { key: self.queue_key.clone(), end: ListEnd::Right }
    }

    /// The command that asks how many jobs wait.
    pub fn get_queue_length(&self) -> (command: QueueCommand)
        ensures
            command@ == (QueueCommandView::Length { key: self.key() }),
    {
        QueueCommand::Length { key: self.queue_key.clone() }
    }

    /// Reads the store's answer to a pop: nothing where the queue was empty,
    /// the identifier where the entry is one, and the entry itself where it
    /// is not. An entry that `push_job` wrote reads back as its identifier.
    pub fn popped(&self, reply: Option<String>) -> (job: Result<Option<u128>, InvalidEntry>)
        ensures
            reply is None ==> job == Ok::<Option<u128>, InvalidEntry>(None),
            reply matches Some(entry) ==> match parsed_id(entry@) {
                Some(id) => job == Ok::<Option<u128>, InvalidEntry>(Some(id)),
                None => job matches Err(e) && e.entry == entry,
            },
            forall|id: u128|
                reply matches Some(entry) && entry@ == hyphenated(id) ==> job == Ok::<
                    Option<u128>,
                    InvalidEntry,
                >(Some(id)),
    {
        match reply {
            None => Ok(None),
            Some(entry) => match parse_id(entry.as_str()) {
                Some(id) => Ok(Some(id)),
                None => Err(InvalidEntry { entry }),
            },
        }
    }
}

} // verus!
