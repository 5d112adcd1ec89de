//! The actor framework's verifiable core: the uniform error taxonomy that
//! every actor method returns, and the mailbox model — a FIFO queue whose
//! contracts pin down that messages pushed by a sender are observed by the
//! actor in push order.
use vstd::prelude::*;

verus! {

/// The error taxonomy returned by every actor method.
#[derive(Clone, Copy, PartialEq, Eq, Structural, Debug)]
pub enum ActorError {
    /// The target actor has terminated or was never initialized.
    ActorDoesNotExist,
    /// The target actor exists but is not yet ready to serve this request.
    ActorIsNotLoaded,
    /// Arguments reference entities that do not exist.
    BadRequest,
    /// Positional or slot-index arithmetic out of range.
    IndexOutOfBounds,
}

pub type ActorResult<T> = Result<T, ActorError>;

/// The mailbox model: a FIFO queue of messages. Each actor owns one; the
/// handle side pushes, the actor's event loop pops. The contracts state
/// that `push` appends at the back and `recv` takes from the front, so the
/// actor observes messages in exactly the order they were sent.
pub struct Mailbox<T> {
    messages: Vec<T>,
}

impl<T> Mailbox<T> {
    pub closed spec fn view(&self) -> Seq<T> {
        self.messages@
    }

    pub fn new() -> (r: Mailbox<T>)
        ensures
            r@ == Seq::<T>::empty(),
    {
        Mailbox { messages: Vec::new() }
    }

    pub fn len(&self) -> (r: usize)
        ensures
            r == self@.len(),
    {
        self.messages.len()
    }

    /// Send: the message is appended at the back of the queue.
    pub fn push(&mut self, message: T)
        ensures
            final(self)@ == old(self)@.push(message),
    {
        self.messages.push(message);
    }

    /// Receive: the oldest message leaves the front of the queue, or
    /// `None` when the mailbox is empty.
    pub fn recv(&mut self) -> (r: Option<T>)
        ensures
            old(self)@.len() == 0 ==> r is None && final(self)@ == old(self)@,
            old(self)@.len() > 0 ==> r == Some(old(self)@[0]) && final(self)@ == old(self)@.skip(
                1,
            ),
    {
        if self.messages.len() == 0 {
            None
        } else {
            let m = self.messages.remove(0);
            proof {
                assert(self.messages@ =~= old(self)@.skip(1));
            }
            Some(m)
        }
    }
}

impl<T> Mailbox<T> {
    /// Messages sent to an actor by a single sender are observed by the
    /// actor in send order: receiving every queued message yields exactly
    /// the queued sequence, so a message pushed earlier is observed
    /// strictly before one pushed later.
    pub fn drain(&mut self) -> (observed: Vec<T>)
        ensures
            observed@ == old(self)@,
            final(self)@.len() == 0,
    {
        let mut observed: Vec<T> = Vec::new();
        let ghost sent = self@;
        loop
            invariant
                sent == old(self)@,
                observed@ + self@ == sent,
            decreases self@.len(),
        {
            match self.recv() {
                Some(m) => {
                    observed.push(m);
                    proof {
                        assert(observed@ + self@ =~= sent);
                    }
                }
                None => {
                    proof {
                        assert(observed@ =~= sent);
                    }
                    return observed;
                }
            }
        }
    }
}

/// The FIFO law restated over positions: if one message stands earlier in
/// the sent sequence than another, it stands earlier in the observed
/// sequence too, because the two sequences are equal.
pub proof fn lemma_mailbox_fifo<T>(sent: Seq<T>, observed: Seq<T>, earlier: int, later: int)
    requires
        observed == sent,
        0 <= earlier < later < sent.len(),
    ensures
        observed[earlier] == sent[earlier],
        observed[later] == sent[later],
{
}

} // verus!
