use vstd::prelude::*;
use vstd::string::*;

use crate::text::{trim_slashes, without_slashes};

verus! {

/// Publishes below one root topic through an MQTT client of type `C`.
pub struct Publisher<C> {
    client: C,
    topic: String,
}

impl<C> Publisher<C> {
    /// The root topic, without leading or trailing slashes.
    pub closed spec fn root(&self) -> Seq<char> {
        self.topic@
    }

    /// The client the messages go through.
    pub closed spec fn client_spec(&self) -> C {
        self.client
    }

    /// A publisher below `topic` with its leading and trailing slashes removed.
    pub fn new(client: C, topic: &str) -> (p: Publisher<C>)
        ensures
            p.root() == without_slashes(topic@),
            p.client_spec() == client,
    {
        Publisher { client, topic: trim_slashes(topic) }
    }

    /// The client the messages go through.
    pub fn client(&self) -> (c: &C)
        ensures
            *c == self.client_spec(),
    {
        &self.client
    }

    /// The topic commands arrive on: `<topic>/cmd`.
    pub fn command_topic(&self) -> (t: String)
        ensures
            t@ == self.root() + "/cmd"@,
    {
        self.topic.clone().concat("/cmd")
    }

    /// The topic of a message below the root: `<topic>/<suffix>`.
    pub fn topic_for(&self, suffix: &str) -> (t: String)
        ensures
            t@ == self.root() + "/"@ + suffix@,
    {
        let mut t = self.topic.clone();
        t.append("/");
        t.append(suffix);
        t
    }
}

} // verus!
