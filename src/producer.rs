use vstd::prelude::*;
use crate::settings::MessageProducerArgs;

verus! {

/// The outbound messaging sink: it accepts messages for its topic and, for
/// now, does nothing with them. It never blocks and never fails its caller.
pub struct MessageProducer {
    args: MessageProducerArgs,
}

impl MessageProducer {
    pub closed spec fn settings(&self) -> MessageProducerArgs {
        self.args
    }

    pub fn new(args: MessageProducerArgs) -> (r: Self)
        ensures
            r.settings() == args,
    {
        MessageProducer { args }
    }

    /// The topic messages go to.
    pub fn topic(&self) -> (r: &String)
        ensures
            *r == self.settings().topic,
    {
        &self.args.topic
    }

    /// Accepts `message` for the configured topic.
    pub fn send(&self, message: &str) {
    }
}

} // verus!
