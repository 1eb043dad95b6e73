//! The bounded command channel between the interception callbacks and the
//! render tick. When it is full, a push drops the oldest command.

use vstd::prelude::*;
use crossbeam_queue::ArrayQueue;
use crate::command::{CommandView, DrawCommand};

verus! {

/// Number of commands the channel of the overlay holds.
pub const CHANNEL_CAPACITY: usize = 10000;

/// `crossbeam_queue::ArrayQueue`, a bounded queue. Nothing inside it is
/// seen here; what it holds is spoken of through `queue_contents` and
/// `queue_capacity`.
#[verifier::external_type_specification]
#[verifier::external_body]
#[verifier::reject_recursive_types(T)]
pub struct ExArrayQueue<T>(ArrayQueue<T>);

/// The commands waiting in a queue, oldest first.
pub uninterp spec fn queue_contents(q: ArrayQueue<DrawCommand>) -> Seq<CommandView>;

/// The number of slots a queue was made with.
pub uninterp spec fn queue_capacity(q: ArrayQueue<DrawCommand>) -> nat;

/// `ArrayQueue::new`: an empty queue with `cap` slots. The call panics on a
/// capacity of zero or one too large to index, which `requires` leaves
/// out.
#[verifier::external_body]
fn queue_new(cap: usize) -> (q: ArrayQueue<DrawCommand>)
    requires
        0 < cap <= CHANNEL_CAPACITY,
    ensures
        queue_contents(q) == Seq::<CommandView>::empty(),
        queue_capacity(q) == cap,
{
    ArrayQueue::new(cap)
}

/// `ArrayQueue::force_push`, called on a queue that no other thread touches:
/// the value goes to the back; a full queue first gives up its oldest
/// element, which is returned. The call does not panic.
#[verifier::external_body]
fn queue_force_push(q: &mut ArrayQueue<DrawCommand>, value: DrawCommand) -> (evicted: Option<DrawCommand>)
    ensures
        queue_capacity(*final(q)) == queue_capacity(*old(q)),
        queue_contents(*old(q)).len() < queue_capacity(*old(q)) ==> evicted.is_none()
            && queue_contents(*final(q)) == queue_contents(*old(q)).push(value@),
        queue_contents(*old(q)).len() == queue_capacity(*old(q)) ==> evicted.is_some()
            && evicted.unwrap()@ == queue_contents(*old(q)).first()
            && queue_contents(*final(q)) == queue_contents(*old(q)).drop_first().push(value@),
    no_unwind
{
    q.force_push(value)
}

/// `ArrayQueue::pop`, called on a queue that no other thread touches: the
/// oldest element leaves and is returned; an empty queue gives `None`. The
/// call does not panic.
#[verifier::external_body]
fn queue_pop(q: &mut ArrayQueue<DrawCommand>) -> (front: Option<DrawCommand>)
    ensures
        queue_capacity(*final(q)) == queue_capacity(*old(q)),
        queue_contents(*old(q)).len() == 0 ==> front.is_none()
            && queue_contents(*final(q)) == queue_contents(*old(q)),
        queue_contents(*old(q)).len() > 0 ==> front.is_some()
            && front.unwrap()@ == queue_contents(*old(q)).first()
            && queue_contents(*final(q)) == queue_contents(*old(q)).drop_first(),
    no_unwind
{
    q.pop()
}

/// `ArrayQueue::len`, called on a queue that no other thread touches: the
/// number of elements.
#[verifier::external_body]
fn queue_len(q: &ArrayQueue<DrawCommand>) -> (len: usize)
    ensures
        len == queue_contents(*q).len(),
{
    q.len()
}

/// What a push leaves in a channel of `capacity` slots that held `before`.
pub open spec fn after_push(before: Seq<CommandView>, capacity: nat, command: CommandView) -> Seq<
    CommandView,
> {
    if before.len() < capacity {
        before.push(command)
    } else {
        before.drop_first().push(command)
    }
}

/// A bounded first-in first-out channel of draw commands.
///
/// Its methods take the channel for themselves while they run: what is
/// stated of them is stated of one caller at a time.
pub struct CommandChannel {
    queue: ArrayQueue<DrawCommand>,
}

impl View for CommandChannel {
    type V = Seq<CommandView>;

    closed spec fn view(&self) -> Seq<CommandView> {
        queue_contents(self.queue)
    }
}

impl CommandChannel {
    /// The number of slots.
    pub closed spec fn capacity(&self) -> nat {
        queue_capacity(self.queue)
    }

    /// The channel never holds more than its capacity, and the capacity is
    /// never zero.
    #[verifier::type_invariant]
    pub closed spec fn wf(&self) -> bool {
        0 < queue_capacity(self.queue) && queue_contents(self.queue).len() <= queue_capacity(self.queue)
    }

    /// The number of commands that wait, which is never more than the
    /// capacity.
    pub fn len(&self) -> (len: usize)
        ensures
            len == self@.len(),
            len <= self.capacity(),
            0 < self.capacity(),
    {
        proof {
            use_type_invariant(self);
        }
        queue_len(&self.queue)
    }

    /// An empty channel with the overlay's fixed capacity.
    pub fn new() -> (channel: CommandChannel)
        ensures
            channel@ == Seq::<CommandView>::empty(),
            channel.capacity() == CHANNEL_CAPACITY,
    {
        CommandChannel { queue: queue_new(CHANNEL_CAPACITY) }
    }

    /// An empty channel with `capacity` slots, or `None` where `capacity` is
    /// zero or above the overlay's fixed capacity.
    pub fn with_capacity(capacity: usize) -> (made: Option<CommandChannel>)
        ensures
            made.is_some() <==> 0 < capacity <= CHANNEL_CAPACITY,
            made matches Some(channel) ==> channel@ == Seq::<CommandView>::empty()
                && channel.capacity() == capacity,
    {
        if 0 < capacity && capacity <= CHANNEL_CAPACITY {
            Some(CommandChannel { queue: queue_new(capacity) })
        } else {
            None
        }
    }

    /// Appends `command`. A full channel drops its oldest command to make
    /// room and returns it; the push itself always succeeds.
    pub fn push(&mut self, command: DrawCommand) -> (evicted: Option<DrawCommand>)
        ensures
            final(self).capacity() == old(self).capacity(),
            final(self)@.len() <= final(self).capacity(),
            final(self)@ == after_push(old(self)@, old(self).capacity(), command@),
            evicted.is_some() <==> old(self)@.len() == old(self).capacity(),
            evicted matches Some(oldest) ==> oldest@ == old(self)@.first(),
    {
        proof {
            use_type_invariant(&*self);
        }
        queue_force_push(&mut self.queue, command)
    }

    /// Takes the oldest command, or `None` from an empty channel.
    pub fn pop(&mut self) -> (front: Option<DrawCommand>)
        ensures
            final(self).capacity() == old(self).capacity(),
            final(self)@.len() <= final(self).capacity(),
            front.is_some() <==> old(self)@.len() > 0,
            front matches Some(command) ==> command@ == old(self)@.first() && final(self)@ == old(
                self,
            )@.drop_first(),
            front.is_none() ==> final(self)@ == old(self)@,
    {
        proof {
            use_type_invariant(&*self);
        }
        queue_pop(&mut self.queue)
    }
}

/// A push into a full channel succeeds and drops exactly the oldest
/// command: the channel stays full, every other command moves one place
/// forward, and the new one comes last.
pub proof fn lemma_full_push_evicts_oldest(before: Seq<CommandView>, capacity: nat, command: CommandView)
    requires
        0 < capacity,
        before.len() == capacity,
    ensures
        after_push(before, capacity, command).len() == capacity,
        after_push(before, capacity, command).last() == command,
        forall|i: int|
            0 <= i < capacity - 1 ==> after_push(before, capacity, command)[i] == before[i + 1],
{
}

/// A push into a channel with room keeps every command in its place and
/// puts the new one last.
pub proof fn lemma_push_with_room_keeps_all(before: Seq<CommandView>, capacity: nat, command: CommandView)
    requires
        before.len() < capacity,
    ensures
        after_push(before, capacity, command).len() == before.len() + 1,
        after_push(before, capacity, command).last() == command,
        forall|i: int| 0 <= i < before.len() ==> after_push(before, capacity, command)[i] == before[i],
{
}

} // verus!
