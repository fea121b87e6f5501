//! The snapshot: the latest document of each category, and the read stamp.
use vstd::prelude::*;
use crate::document::{empty_document, json_of};
use crate::message::{Category, Message};

verus! {

/// Latest known document per category. Each field is replaced as a whole
/// value; `date` is set when a copy is handed to a reader.
pub struct Snapshot {
    pub date: String,
    pub status: serde_json::Value,
    pub capacities: serde_json::Value,
    pub stats: serde_json::Value,
    pub jobs: serde_json::Value,
}

impl Snapshot {
    /// The field that holds the documents of category `c`.
    pub open spec fn field(&self, c: Category) -> serde_json::Value {
        match c {
            Category::Status => self.status,
            Category::Capacities => self.capacities,
            Category::Stats => self.stats,
            Category::Jobs => self.jobs,
        }
    }

    /// The snapshot after `m` is installed: its field replaced, all else kept.
    pub open spec fn spec_apply(self, m: Message) -> Snapshot {
        match m.spec_category() {
            Category::Status => Snapshot { status: m.spec_document(), ..self },
            Category::Capacities => Snapshot { capacities: m.spec_document(), ..self },
            Category::Stats => Snapshot { stats: m.spec_document(), ..self },
            Category::Jobs => Snapshot { jobs: m.spec_document(), ..self },
        }
    }

    /// The copy a reader receives at time `now`.
    pub open spec fn spec_stamped(self, now: String) -> Snapshot {
        Snapshot { date: now, ..self }
    }

    /// A snapshot whose four fields all hold the empty object, stamped `date`.
    pub fn new(date: String) -> (r: Snapshot)
        ensures
            r.date == date,
            r.status == json_of("{}"@),
            r.capacities == r.status,
            r.stats == r.status,
            r.jobs == r.status,
    {
        let empty = empty_document();
        Snapshot {
            date,
            status: empty.clone(),
            capacities: empty.clone(),
            stats: empty.clone(),
            jobs: empty,
        }
    }

    /// Installs the document of `m` into its category's field, replacing the
    /// old value whole; the other fields and the stamp stay as they were.
    pub fn apply(&mut self, m: Message)
        ensures
            *final(self) == old(self).spec_apply(m),
    {
        let c = m.category();
        let d = m.into_document();
        match c {
            Category::Status => self.status = d,
            Category::Capacities => self.capacities = d,
            Category::Stats => self.stats = d,
            Category::Jobs => self.jobs = d,
        }
    }

    /// A full copy of the snapshot whose stamp is `now`, the time of this read.
    pub fn read_at(&self, now: String) -> (r: Snapshot)
        ensures
            r == self.spec_stamped(now),
    {
        Snapshot {
            date: now,
            status: self.status.clone(),
            capacities: self.capacities.clone(),
            stats: self.stats.clone(),
            jobs: self.jobs.clone(),
        }
    }
}

/// The snapshot after the messages are installed, first to last.
pub open spec fn apply_all(s: Snapshot, msgs: Seq<Message>) -> Snapshot
    decreases msgs.len(),
{
    if msgs.len() == 0 {
        s
    } else {
        apply_all(s, msgs.drop_last()).spec_apply(msgs.last())
    }
}

/// The document of the last message of category `c`, or `init` if none has it.
pub open spec fn latest(msgs: Seq<Message>, c: Category, init: serde_json::Value) -> serde_json::Value
    decreases msgs.len(),
{
    if msgs.len() == 0 {
        init
    } else if msgs.last().spec_category() == c {
        msgs.last().spec_document()
    } else {
        latest(msgs.drop_last(), c, init)
    }
}

/// Installing a message and reading afterwards yields the message's document,
/// untransformed, in its category's field, and leaves every other field as it
/// was.
pub proof fn lemma_read_after_install(s: Snapshot, m: Message, now: String)
    ensures
        s.spec_apply(m).spec_stamped(now).field(m.spec_category()) == m.spec_document(),
        forall|c: Category| c != m.spec_category()
            ==> #[trigger] s.spec_apply(m).spec_stamped(now).field(c) == s.field(c),
{
}

/// The stamp of a read is the time given to that read, whatever the writes
/// before it were.
pub proof fn lemma_stamp_is_read_time(s: Snapshot, msgs: Seq<Message>, now: String)
    ensures
        apply_all(s, msgs).spec_stamped(now).date == now,
{
}

/// A read taken after any write sees, in each field, either the whole value
/// from before the write or the whole document of the write, never a mix.
pub proof fn lemma_no_torn_field(s: Snapshot, m: Message, now: String)
    ensures
        forall|c: Category|
            #[trigger] s.spec_apply(m).spec_stamped(now).field(c) == s.field(c)
                || s.spec_apply(m).spec_stamped(now).field(c) == m.spec_document(),
{
}

/// After a run of messages, each field holds the document of the last message
/// of its category, and a field that no message targets keeps its value.
pub proof fn lemma_last_message_wins(s: Snapshot, msgs: Seq<Message>, c: Category)
    ensures
        apply_all(s, msgs).field(c) == latest(msgs, c, s.field(c)),
    decreases msgs.len(),
{
    if msgs.len() > 0 {
        lemma_last_message_wins(s, msgs.drop_last(), c);
    }
}

/// A category that none of the messages targets keeps its field unchanged.
pub proof fn lemma_untargeted_field_stays(s: Snapshot, msgs: Seq<Message>, c: Category)
    requires
        forall|i: int| 0 <= i < msgs.len() ==> #[trigger] msgs[i].spec_category() != c,
    ensures
        apply_all(s, msgs).field(c) == s.field(c),
    decreases msgs.len(),
{
    if msgs.len() > 0 {
        let prefix = msgs.drop_last();
        assert forall|i: int| 0 <= i < prefix.len() implies #[trigger] prefix[i].spec_category() != c by {
            assert(prefix[i] == msgs[i]);
        }
        assert(msgs[msgs.len() - 1].spec_category() != c);
        lemma_untargeted_field_stays(s, prefix, c);
    }
}

} // verus!
