use vstd::prelude::*;

verus! {

/// Where news of a newly saved comment is sent.
#[derive(Clone, Debug)]
pub struct Notifier {
    pub recipient: String,
}

impl Notifier {
    pub fn new(recipient: &str) -> (r: Notifier)
        ensures
            r.recipient@ == recipient@,
    {
        Notifier { recipient: recipient.to_owned() }
    }

    /// A copy of this notifier.
    pub fn duplicate(&self) -> (r: Notifier)
        ensures
            r == *self,
    {
        Notifier { recipient: self.recipient.clone() }
    }
}

} // verus!
