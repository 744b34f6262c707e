//! The response payload the HTTP layer serializes: an overall status plus
//! named string parameters such as a description or a challenge.

use vstd::prelude::*;
use crate::kv::KvTable;

verus! {

/// Overall outcome a response reports.
#[derive(Debug, Clone, Copy, PartialEq, Eq, Structural)]
pub enum Status {
    Success,
    Error,
}

/// The abstract value of a [`Message`].
pub struct MessageView {
    pub status: Status,
    pub params: Map<Seq<char>, Seq<char>>,
}

/// A response payload: a status and named string parameters, each name
/// bound at most once (setting a name again replaces its value).
#[derive(Debug)]
pub struct Message {
    status: Status,
    params: KvTable<String>,
}

impl View for Message {
    type V = MessageView;

    closed spec fn view(&self) -> MessageView {
        MessageView { status: self.status, params: self.params@.map_values(|v: String| v@) }
    }
}

impl Message {
    /// The parameter table keeps its names distinct.
    pub closed spec fn wf(&self) -> bool {
        self.params.wf()
    }

    /// A success payload without parameters.
    pub fn ok() -> (r: Message)
        ensures
            r.wf(),
            r@.status == Status::Success,
            r@.params == Map::<Seq<char>, Seq<char>>::empty(),
    {
        Message { status: Status::Success, params: KvTable::new() }
    }

    /// A failure payload without parameters.
    pub fn error() -> (r: Message)
        ensures
            r.wf(),
            r@.status == Status::Error,
            r@.params == Map::<Seq<char>, Seq<char>>::empty(),
    {
        Message { status: Status::Error, params: KvTable::new() }
    }

    /// The payload with one more parameter, replacing any earlier value
    /// under the same name.
    pub fn add_param(self, key: String, value: String) -> (r: Message)
        requires
            self.wf(),
        ensures
            r.wf(),
            r@.status == self@.status,
            r@.params == self@.params.insert(key@, value@),
    {
        let ghost oldparams = self@.params;
        let ghost k = key@;
        let ghost v = value@;
        let Message { status, mut params } = self;
        params.upsert(key, value);
        let r = Message { status, params };
        proof {
            assert(r@.params =~= oldparams.insert(k, v));
        }
        r
    }

    /// The status this payload reports.
    pub fn status(&self) -> (r: Status)
        ensures
            r == self@.status,
    {
        self.status
    }

    /// The value bound to a parameter name, if any.
    pub fn param(&self, key: &String) -> (r: Option<&String>)
        requires
            self.wf(),
        ensures
            match r {
                Some(v) => self@.params.contains_key(key@) && v@ == self@.params[key@],
                None => !self@.params.contains_key(key@),
            },
    {
        self.params.get(key)
    }
}

} // verus!
