//! Bounded queues between concurrent parties, and what one may learn at either end.

use tokio::sync::mpsc;
use vstd::prelude::*;

verus! {

/// The sending end of a bounded queue.
#[verifier::external_type_specification]
#[verifier::external_body]
#[verifier::reject_recursive_types(T)]
pub struct ExQueueSender<T>(mpsc::Sender<T>);

/// The receiving end of a bounded queue.
#[verifier::external_type_specification]
#[verifier::external_body]
#[verifier::reject_recursive_types(T)]
pub struct ExQueueReceiver<T>(mpsc::Receiver<T>);

/// What became of an item offered to a queue.
#[derive(Debug)]
pub enum Offer<T> {
    /// The queue took it.
    Taken,
    /// There was no room; the item comes back.
    Full(T),
    /// Nobody is left to receive; the item comes back.
    Closed(T),
}

/// What a look into a queue brought.
#[derive(Debug)]
pub enum Look<T> {
    /// The next item.
    Item(T),
    /// Nothing now.
    Empty,
    /// Nothing now and nothing to come.
    Closed,
}

/// Makes a queue with `tokio::sync::mpsc::channel`, which panics unless the capacity
/// is positive and at most an eighth of the largest length.
///
/// Nothing is claimed of the two ends but that they came out of one such call.
#[verifier::external_body]
fn channel<T>(capacity: usize) -> (ends: (mpsc::Sender<T>, mpsc::Receiver<T>))
    requires
        0 < capacity <= usize::MAX / 8,
{
    mpsc::channel(capacity)
}

/// Another handle to the same queue, made with `tokio::sync::mpsc::Sender::clone`.
///
/// Claims that the handles are the same to their users: what either submits goes to
/// the one queue.
#[verifier::external_body]
pub(crate) fn another_handle<T>(sender: &mpsc::Sender<T>) -> (handle: mpsc::Sender<T>)
    ensures
        handle == *sender,
{
    sender.clone()
}

/// Offers an item with `tokio::sync::mpsc::Sender::try_send`.
///
/// Claims that an item that is not taken comes back as it was. Whether it is taken
/// depends on what the other parties did.
#[verifier::external_body]
fn try_send<T>(sender: &mpsc::Sender<T>, item: T) -> (offer: Offer<T>)
    ensures
        offer matches Offer::Full(back) ==> back == item,
        offer matches Offer::Closed(back) ==> back == item,
{
    match sender.try_send(item) {
        Ok(()) => Offer::Taken,
        Err(mpsc::error::TrySendError::Full(item)) => Offer::Full(item),
        Err(mpsc::error::TrySendError::Closed(item)) => Offer::Closed(item),
    }
}

/// Looks for an item with `tokio::sync::mpsc::Receiver::try_recv`, at an end that is handed
/// in and handed back.
///
/// Claims that a look that brings no item takes nothing: the end comes back as it was. What
/// it brings depends on what the other parties did.
#[verifier::external_body]
fn try_recv<T>(receiver: mpsc::Receiver<T>) -> (looked: (mpsc::Receiver<T>, Look<T>))
    ensures
        !(looked.1 is Item) ==> looked.0 == receiver,
{
    let mut receiver = receiver;
    let look = match receiver.try_recv() {
        Ok(item) => Look::Item(item),
        Err(mpsc::error::TryRecvError::Empty) => Look::Empty,
        Err(mpsc::error::TryRecvError::Disconnected) => Look::Closed,
    };
    (receiver, look)
}

/// Offering `item` at `sender` may come to `offer`.
pub closed spec fn may_come_to<T>(sender: mpsc::Sender<T>, item: T, offer: Offer<T>) -> bool {
    call_ensures(try_send::<T>, (&sender, item), offer)
}

/// Offer an item to a queue.
pub fn offer<T>(sender: &mpsc::Sender<T>, item: T) -> (offer: Offer<T>)
    ensures
        may_come_to(*sender, item, offer),
        offer matches Offer::Full(back) ==> back == item,
        offer matches Offer::Closed(back) ==> back == item,
{
    let offer = try_send(sender, item);
    offer
}

/// An item that is not taken comes back as it was.
pub proof fn what_is_not_taken_comes_back<T>(sender: mpsc::Sender<T>, item: T, offer: Offer<T>)
    requires
        may_come_to(sender, item, offer),
    ensures
        offer matches Offer::Full(back) ==> back == item,
        offer matches Offer::Closed(back) ==> back == item,
{
}

/// One look at the end `before` may bring `look` and leave the end as `after`.
pub closed spec fn brings<T>(
    before: mpsc::Receiver<T>,
    look: Look<T>,
    after: mpsc::Receiver<T>,
) -> bool {
    call_ensures(try_recv::<T>, (before,), (after, look))
}

/// A look that brings no item takes nothing.
pub proof fn a_look_without_an_item_takes_nothing<T>(
    before: mpsc::Receiver<T>,
    look: Look<T>,
    after: mpsc::Receiver<T>,
)
    requires
        brings(before, look, after),
        !(look is Item),
    ensures
        after == before,
{
}

/// Look for an item in a queue, once.
pub fn look<T>(receiver: &mut mpsc::Receiver<T>) -> (look: Look<T>)
    ensures
        brings(*old(receiver), look, *final(receiver)),
        !(look is Item) ==> *final(receiver) == *old(receiver),
{
    // The end is looked at by value, so another one takes its place meanwhile.
    let (_, mut end) = bounded(1);
    std::mem::swap(receiver, &mut end);
    let (after, look) = try_recv(end);
    assert(brings(*old(receiver), look, after));
    *receiver = after;
    look
}

/// Looks made one after the other at an end that was `first` before them: what each brought,
/// and the end as it left it.
pub open spec fn are_looks<T>(
    first: mpsc::Receiver<T>,
    looks: Seq<(Look<T>, mpsc::Receiver<T>)>,
) -> bool
    decreases looks.len(),
{
    looks.len() == 0 || (are_looks(first, looks.drop_last()) && brings(
        end_after(first, looks.drop_last()),
        looks.last().0,
        looks.last().1,
    ))
}

/// The end after `looks` at what was `first`.
pub open spec fn end_after<T>(
    first: mpsc::Receiver<T>,
    looks: Seq<(Look<T>, mpsc::Receiver<T>)>,
) -> mpsc::Receiver<T> {
    if looks.len() == 0 {
        first
    } else {
        looks.last().1
    }
}

/// The items that `looks` brought, in order.
pub open spec fn brought<T>(looks: Seq<(Look<T>, mpsc::Receiver<T>)>) -> Seq<T>
    decreases looks.len(),
{
    if looks.len() == 0 {
        seq![]
    } else {
        match looks.last().0 {
            Look::Item(item) => brought(looks.drop_last()).push(item),
            _ => brought(looks.drop_last()),
        }
    }
}

/// The two are the ends of one queue of the given capacity: as they were made, or after looks
/// at the receiving one.
pub closed spec fn are_ends<T>(
    capacity: usize,
    sender: mpsc::Sender<T>,
    receiver: mpsc::Receiver<T>,
) -> bool {
    exists|first: mpsc::Receiver<T>, looks: Seq<(Look<T>, mpsc::Receiver<T>)>|
        {
            &&& #[trigger] call_ensures(channel::<T>, (capacity,), (sender, first))
            &&& #[trigger] are_looks(first, looks)
            &&& end_after(first, looks) == receiver
        }
}

/// A look at the receiving end of a queue leaves it that of the same queue.
pub proof fn a_look_stays_at_its_queue<T>(
    capacity: usize,
    sender: mpsc::Sender<T>,
    before: mpsc::Receiver<T>,
    look: Look<T>,
    after: mpsc::Receiver<T>,
)
    requires
        are_ends(capacity, sender, before),
        brings(before, look, after),
    ensures
        are_ends(capacity, sender, after),
{
    let (first, looks) = choose|
        first: mpsc::Receiver<T>,
        looks: Seq<(Look<T>, mpsc::Receiver<T>)>,
    |
        {
            &&& #[trigger] call_ensures(channel::<T>, (capacity,), (sender, first))
            &&& #[trigger] are_looks(first, looks)
            &&& end_after(first, looks) == before
        };
    let longer = looks.push((look, after));
    assert(longer.drop_last() =~= looks);
    assert(are_looks(first, longer));
}

/// A new queue of the given capacity.
pub fn bounded<T>(capacity: usize) -> (ends: (mpsc::Sender<T>, mpsc::Receiver<T>))
    requires
        0 < capacity <= usize::MAX / 8,
    ensures
        are_ends(capacity, ends.0, ends.1),
{
    let ends = channel(capacity);
    proof {
        let none: Seq<(Look<T>, mpsc::Receiver<T>)> = seq![];
        assert(are_looks(ends.1, none));
        assert(call_ensures(channel::<T>, (capacity,), (ends.0, ends.1)));
    }
    ends
}

/// Looks are made one after the other: each at the end that the one before it left, and each
/// that brings an item adds just that one to what they brought.
pub proof fn looks_are_made_one_by_one<T>(
    first: mpsc::Receiver<T>,
    looks: Seq<(Look<T>, mpsc::Receiver<T>)>,
    look: Look<T>,
    after: mpsc::Receiver<T>,
)
    ensures
        are_looks(first, Seq::empty()),
        end_after(first, Seq::empty()) == first,
        brought(Seq::<(Look<T>, mpsc::Receiver<T>)>::empty()) == Seq::<T>::empty(),
        are_looks(first, looks.push((look, after))) <==> are_looks(first, looks) && brings(
            end_after(first, looks),
            look,
            after,
        ),
        end_after(first, looks.push((look, after))) == after,
        brought(looks.push((look, after))) == match look {
            Look::Item(item) => brought(looks).push(item),
            _ => brought(looks),
        },
{
    assert(looks.push((look, after)).drop_last() =~= looks);
}

/// An offer comes to what submitting the item to the queue at that end comes to, and a look
/// brings what asking the queue at that end does.
proof fn offers_and_looks_are_those_of_the_queue<T>(
    sender: mpsc::Sender<T>,
    item: T,
    offer: Offer<T>,
    before: mpsc::Receiver<T>,
    look: Look<T>,
    after: mpsc::Receiver<T>,
)
    ensures
        may_come_to(sender, item, offer) <==> call_ensures(
            try_send::<T>,
            (&sender, item),
            offer,
        ),
        brings(before, look, after) <==> call_ensures(try_recv::<T>, (before,), (after, look)),
{
}

/// Two ends belong together exactly if they were made together, with the capacity, and the
/// receiving one is as the looks at it have left it.
proof fn ends_that_belong_together_were_made_together<T>(
    capacity: usize,
    sender: mpsc::Sender<T>,
    first: mpsc::Receiver<T>,
    receiver: mpsc::Receiver<T>,
)
    ensures
        call_ensures(channel::<T>, (capacity,), (sender, first)) ==> are_ends(
            capacity,
            sender,
            first,
        ),
        are_ends(capacity, sender, receiver) ==> exists|
            made: mpsc::Receiver<T>,
            looks: Seq<(Look<T>, mpsc::Receiver<T>)>,
        |
            {
                &&& #[trigger] call_ensures(channel::<T>, (capacity,), (sender, made))
                &&& #[trigger] are_looks(made, looks)
                &&& end_after(made, looks) == receiver
            },
{
    let none: Seq<(Look<T>, mpsc::Receiver<T>)> = seq![];
    assert(are_looks(first, none));
}

} // verus!
