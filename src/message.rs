//! Update messages: a category tag and the document to install under it.
use vstd::prelude::*;

verus! {

/// The four monitored categories, one snapshot field each.
#[derive(Clone, Copy, Debug, PartialEq, Eq, Structural)]
pub enum Category {
    Status,
    Capacities,
    Stats,
    Jobs,
}

/// A new document for one category, produced by a poller and consumed once.
pub enum Message {
    Status(serde_json::Value),
    Capacities(serde_json::Value),
    Stats(serde_json::Value),
    Jobs(serde_json::Value),
}

impl Message {
    /// The category this message targets.
    pub open spec fn spec_category(&self) -> Category {
        match self {
            Message::Status(_) => Category::Status,
            Message::Capacities(_) => Category::Capacities,
            Message::Stats(_) => Category::Stats,
            Message::Jobs(_) => Category::Jobs,
        }
    }

    /// The document this message carries.
    pub open spec fn spec_document(&self) -> serde_json::Value {
        match self {
            Message::Status(d) => *d,
            Message::Capacities(d) => *d,
            Message::Stats(d) => *d,
            Message::Jobs(d) => *d,
        }
    }

    /// Tags a document with a category.
    pub fn new(category: Category, document: serde_json::Value) -> (r: Message)
        ensures
            r.spec_category() == category,
            r.spec_document() == document,
    {
        match category {
            Category::Status => Message::Status(document),
            Category::Capacities => Message::Capacities(document),
            Category::Stats => Message::Stats(document),
            Category::Jobs => Message::Jobs(document),
        }
    }

    pub fn category(&self) -> (r: Category)
        ensures
            r == self.spec_category(),
    {
        match self {
            Message::Status(_) => Category::Status,
            Message::Capacities(_) => Category::Capacities,
            Message::Stats(_) => Category::Stats,
            Message::Jobs(_) => Category::Jobs,
        }
    }

    pub fn into_document(self) -> (r: serde_json::Value)
        ensures
            r == self.spec_document(),
    {
        match self {
            Message::Status(d) => d,
            Message::Capacities(d) => d,
            Message::Stats(d) => d,
            Message::Jobs(d) => d,
        }
    }
}

} // verus!
