//! Handing authorisation codes to waiting requesters, with a record of every
//! hand-over that only the sending itself can extend.
use std::sync::mpsc::Sender;
use vstd::prelude::*;

verus! {

#[verifier::external_type_specification]
#[verifier::external_body]
#[verifier::reject_recursive_types(T)]
pub struct ExSender<T>(Sender<T>);

/// The codes handed to `Sender::send`, oldest first: each with the channel it
/// went to and whether the send succeeded. Outside this module a log can only
/// be made empty and extended by `send_code`.
pub struct DeliveryLog {
    entries: Ghost<Seq<(Sender<String>, Seq<char>, bool)>>,
}

impl View for DeliveryLog {
    type V = Seq<(Sender<String>, Seq<char>, bool)>;

    closed spec fn view(&self) -> Seq<(Sender<String>, Seq<char>, bool)> {
        self.entries@
    }
}

impl DeliveryLog {
    /// A log of no hand-over.
    pub fn new() -> (log: DeliveryLog)
        ensures
            log@ == Seq::<(Sender<String>, Seq<char>, bool)>::empty(),
    {
        DeliveryLog { entries: Ghost(Seq::empty()) }
    }
}

/// Sends `code` on `channel` (`Sender::send`) and records the hand-over in
/// `log`: the channel, the code, and whether `send` succeeded, which is also
/// the result. Whether it succeeds depends on whether the receiving end still
/// exists, which nothing here can see, so nothing is stated of the flag itself.
#[verifier::external_body]
pub(crate) fn send_code(channel: &Sender<String>, code: String, log: &mut DeliveryLog) -> (delivered:
    bool)
    ensures
        final(log)@ == old(log)@.push((*channel, code@, delivered)),
{
    let handed = Ghost((*channel, code@));
    let delivered = channel.send(code).is_ok();
    log.entries = Ghost(log.entries@.push((handed@.0, handed@.1, delivered)));
    delivered
}

} // verus!
