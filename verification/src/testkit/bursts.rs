//! Bursts of distinguishable messages, and keeping tally of those that arrive.

use crate::bytes;
use vstd::prelude::*;

verus! {

/// The message of a burst at `index`, marked with the sender's tag.
pub open spec fn burst_bytes(tag: u8, index: nat) -> Seq<u8> {
    seq![tag] + bytes::little_endian(index, bytes::width())
}

/// The messages of a whole burst.
pub open spec fn burst(tag: u8, count: nat) -> Set<Seq<u8>> {
    Set::new(
        |message: Seq<u8>|
            exists|i: nat| i < count && message == #[trigger] burst_bytes(tag, i),
    )
}

/// What is still expected after `arrived`.
pub open spec fn remaining(expected: Set<Seq<u8>>, arrived: Seq<Seq<u8>>) -> Set<Seq<u8>>
    decreases arrived.len(),
{
    if arrived.len() == 0 {
        expected
    } else {
        remaining(expected, arrived.drop_last()).remove(arrived.last())
    }
}

/// Each message of `arrived` was expected when it came.
pub open spec fn all_expected(expected: Set<Seq<u8>>, arrived: Seq<Seq<u8>>) -> bool
    decreases arrived.len(),
{
    arrived.len() == 0 || (all_expected(expected, arrived.drop_last()) && remaining(
        expected,
        arrived.drop_last(),
    ).contains(arrived.last()))
}

/// The message of a burst at `index`, marked with the sender's tag.
pub fn burst_message(tag: u8, index: usize) -> (message: Vec<u8>)
    ensures
        message@ == burst_bytes(tag, index as nat),
{
    let mut message: Vec<u8> = Vec::new();
    message.push(tag);
    let mut index_bytes = bytes::length_bytes(index);
    message.append(&mut index_bytes);
    assert(message@ =~= burst_bytes(tag, index as nat));
    message
}

/// Messages of one burst are told apart.
pub proof fn burst_messages_differ(tag: u8, m: usize, n: usize)
    requires
        m != n,
    ensures
        burst_bytes(tag, m as nat) != burst_bytes(tag, n as nat),
{
    bytes::lengths_fit(m);
    bytes::lengths_fit(n);
    let (a, b) = (burst_bytes(tag, m as nat), burst_bytes(tag, n as nat));
    assert(a.skip(1) =~= bytes::little_endian(m as nat, bytes::width()));
    assert(b.skip(1) =~= bytes::little_endian(n as nat, bytes::width()));
    if a == b {
        bytes::little_endian_is_injective(m as nat, n as nat, bytes::width());
    }
}

/// The messages of a burst that have not arrived yet.
#[derive(Debug)]
pub struct Tally {
    expected: Vec<Vec<u8>>,
}

impl View for Tally {
    type V = Set<Seq<u8>>;

    closed spec fn view(&self) -> Set<Seq<u8>> {
        Set::new(
            |message: Seq<u8>|
                exists|i: int|
                    0 <= i < self.expected@.len() && message == #[trigger] self.expected@[i]@,
        )
    }
}

impl Tally {
    /// Nothing is expected twice.
    #[verifier::type_invariant]
    spec fn no_duplicates(self) -> bool {
        forall|i: int, j: int|
            0 <= i < j < self.expected@.len() ==> #[trigger] self.expected@[i]@
                != #[trigger] self.expected@[j]@
    }

    /// Expect every message of a burst once.
    pub fn of_burst(tag: u8, count: usize) -> (tally: Self)
        ensures
            tally@ == burst(tag, count as nat),
    {
        let mut expected: Vec<Vec<u8>> = Vec::new();
        let mut index: usize = 0;
        while index < count
            invariant
                index <= count,
                expected@.len() == index,
                forall|i: int|
                    0 <= i < index ==> #[trigger] expected@[i]@ == burst_bytes(tag, i as nat),
            decreases count - index,
        {
            expected.push(burst_message(tag, index));
            index = index + 1;
        }
        assert forall|i: int, j: int| 0 <= i < j < expected@.len() implies #[trigger] expected@[i]@
            != #[trigger] expected@[j]@ by {
            burst_messages_differ(tag, i as usize, j as usize);
        }
        let tally = Tally { expected };
        assert forall|message: Seq<u8>| burst(tag, count as nat).contains(message)
            implies tally@.contains(message) by {
            let i = choose|i: nat| i < count && message == #[trigger] burst_bytes(tag, i);
            assert(tally.expected@[i as int]@ == message);
        }
        assert forall|message: Seq<u8>| tally@.contains(message) implies burst(
            tag,
            count as nat,
        ).contains(message) by {
            let i = choose|i: int|
                0 <= i < tally.expected@.len() && message == #[trigger] tally.expected@[i]@;
            assert(message == burst_bytes(tag, i as nat));
        }
        assert(tally@ =~= burst(tag, count as nat));
        tally
    }

    /// Count a message that arrived, and tell whether it was expected.
    pub fn arrive(&mut self, message: &[u8]) -> (expected: bool)
        ensures
            expected == old(self)@.contains(message@),
            final(self)@ == old(self)@.remove(message@),
    {
        proof {
            use_type_invariant(&*self);
        }
        let mut i: usize = 0;
        while i < self.expected.len()
            invariant
                i <= self.expected@.len(),
                *self == *old(self),
                forall|j: int| 0 <= j < i ==> #[trigger] self.expected@[j]@ != message@,
            decreases self.expected@.len() - i,
        {
            if bytes::same(self.expected[i].as_slice(), message) {
                proof {
                    use_type_invariant(&*self);
                }
                let ghost before = self.expected@;
                let mut rest: Vec<Vec<u8>> = Vec::new();
                std::mem::swap(&mut rest, &mut self.expected);
                let _ = rest.swap_remove(i);
                let ghost last = before.len() - 1;
                assert(rest@.len() == last);
                assert(forall|j: int|
                    0 <= j < last ==> #[trigger] rest@[j] == if j == i {
                        before[last]
                    } else {
                        before[j]
                    });
                assert(forall|j: int, k: int|
                    0 <= j < k < before.len() ==> before[j]@ != before[k]@);
                self.expected = rest;
                assert(before[i as int]@ == message@);
                assert(old(self)@.contains(message@));
                assert forall|m: Seq<u8>| self@.contains(m) == old(self)@.remove(message@).contains(
                    m,
                ) by {
                    if self@.contains(m) {
                        let j = choose|j: int|
                            0 <= j < self.expected@.len() && m == #[trigger] self.expected@[j]@;
                        let k = if j == i {
                            last
                        } else {
                            j
                        };
                        assert(before[k]@ == m);
                    }
                    if old(self)@.remove(message@).contains(m) {
                        let k = choose|k: int| 0 <= k < before.len() && m == #[trigger] before[k]@;
                        let j = if k == last {
                            i as int
                        } else {
                            k
                        };
                        assert(self.expected@[j]@ == m);
                    }
                }
                assert(self@ =~= old(self)@.remove(message@));
                return true;
            }
            i = i + 1;
        }
        assert(!old(self)@.contains(message@));
        assert(self@ =~= old(self)@.remove(message@));
        false
    }

    /// Whether everything has arrived.
    pub fn is_complete(&self) -> (complete: bool)
        ensures
            complete == (self@ == Set::<Seq<u8>>::empty()),
    {
        if self.expected.len() == 0 {
            assert(self@ =~= Set::<Seq<u8>>::empty());
            true
        } else {
            assert(self@.contains(self.expected@[0]@));
            false
        }
    }
}

/// A burst has as many messages as its count says.
proof fn burst_size(tag: u8, count: usize)
    ensures
        burst(tag, count as nat).finite(),
        burst(tag, count as nat).len() == count,
    decreases count,
{
    let all = burst(tag, count as nat);
    if count == 0 {
        assert(all =~= Set::<Seq<u8>>::empty());
    } else {
        let last = (count - 1) as usize;
        let earlier = burst(tag, last as nat);
        let message = burst_bytes(tag, last as nat);
        burst_size(tag, last);
        assert forall|m: Seq<u8>| all.contains(m) == earlier.insert(message).contains(m) by {
            if earlier.contains(m) {
                let i = choose|i: nat| i < last && m == #[trigger] burst_bytes(tag, i);
                assert(i < count && m == burst_bytes(tag, i));
            }
            if m == message {
                assert(last < count && m == burst_bytes(tag, last as nat));
            }
        }
        assert(all =~= earlier.insert(message));
        if earlier.contains(message) {
            let i = choose|i: nat| i < last && message == #[trigger] burst_bytes(tag, i);
            burst_messages_differ(tag, i as usize, last);
        }
    }
}

/// What is still expected after messages that were all expected: that many fewer, and
/// none of those that arrived. No message is among them twice.
proof fn expected_messages_are_used_up(expected: Set<Seq<u8>>, arrived: Seq<Seq<u8>>)
    requires
        expected.finite(),
        all_expected(expected, arrived),
    ensures
        remaining(expected, arrived).finite(),
        remaining(expected, arrived).len() + arrived.len() == expected.len(),
        arrived.no_duplicates(),
        forall|m: Seq<u8>|
            expected.contains(m) ==> (remaining(expected, arrived).contains(m)
                <==> !arrived.contains(m)),
    decreases arrived.len(),
{
    if arrived.len() > 0 {
        let earlier = arrived.drop_last();
        expected_messages_are_used_up(expected, earlier);
        remaining_is_smaller(expected, earlier);
        assert(arrived =~= earlier.push(arrived.last()));
        assert(expected.contains(arrived.last()));
        assert(!earlier.contains(arrived.last()));
        assert forall|i: int, j: int|
            0 <= i < arrived.len() && 0 <= j < arrived.len() && i != j implies arrived[i]
            != arrived[j] by {
            if i < earlier.len() && j < earlier.len() {
                assert(earlier[i] != earlier[j]);
            } else if i < earlier.len() {
                assert(earlier.contains(earlier[i]));
            } else {
                assert(earlier.contains(earlier[j]));
            }
        }
        assert forall|m: Seq<u8>| expected.contains(m) implies (remaining(
            expected,
            arrived,
        ).contains(m) <==> !arrived.contains(m)) by {
            if earlier.contains(m) {
                let i = choose|i: int| 0 <= i < earlier.len() && earlier[i] == m;
                assert(arrived[i] == m);
            }
            if arrived.contains(m) && m != arrived.last() {
                let i = choose|i: int| 0 <= i < arrived.len() && arrived[i] == m;
                assert(earlier[i] == m);
            }
            if m == arrived.last() {
                assert(arrived[arrived.len() - 1] == m);
            }
        }
    }
}

/// Nothing is expected later that was not expected at first.
proof fn remaining_is_smaller(expected: Set<Seq<u8>>, arrived: Seq<Seq<u8>>)
    ensures
        remaining(expected, arrived).subset_of(expected),
    decreases arrived.len(),
{
    if arrived.len() > 0 {
        remaining_is_smaller(expected, arrived.drop_last());
    }
}

/// An exchange in which as many messages arrive as a burst has, each expected when it
/// comes, loses nothing and duplicates nothing, in whatever order they come: every
/// message of the burst arrived, no message arrived twice, and nothing is expected any
/// more.
pub proof fn a_full_tally_is_lossless(tag: u8, count: usize, arrived: Seq<Seq<u8>>)
    requires
        arrived.len() == count,
        all_expected(burst(tag, count as nat), arrived),
    ensures
        remaining(burst(tag, count as nat), arrived) == Set::<Seq<u8>>::empty(),
        arrived.no_duplicates(),
        forall|i: nat| i < count ==> arrived.contains(#[trigger] burst_bytes(tag, i)),
{
    let all = burst(tag, count as nat);
    burst_size(tag, count);
    expected_messages_are_used_up(all, arrived);
    assert(remaining(all, arrived) =~= Set::<Seq<u8>>::empty());
    assert forall|i: nat| i < count implies arrived.contains(#[trigger] burst_bytes(tag, i)) by {
        assert(all.contains(burst_bytes(tag, i)));
    }
}

/// A message of a burst is its tag, followed by its index as a length is written.
pub proof fn a_burst_message_is_tag_and_index(tag: u8, index: nat)
    ensures
        burst_bytes(tag, index).len() == 1 + bytes::width(),
        burst_bytes(tag, index)[0] == tag,
        burst_bytes(tag, index).skip(1) == bytes::little_endian(index, bytes::width()),
{
    if bytes::width() > 0 {
        bytes::the_lowest_byte_comes_first(index, bytes::width());
    }
    assert(burst_bytes(tag, index).skip(1) =~= bytes::little_endian(index, bytes::width()));
}

/// A burst grows message by message, in the order of their indices.
pub proof fn a_burst_grows_message_by_message(tag: u8, count: nat)
    ensures
        burst(tag, 0) == Set::<Seq<u8>>::empty(),
        burst(tag, count + 1) == burst(tag, count).insert(burst_bytes(tag, count)),
{
    assert(burst(tag, 0) =~= Set::<Seq<u8>>::empty());
    assert forall|m: Seq<u8>| burst(tag, count + 1).contains(m) == burst(tag, count).insert(
        burst_bytes(tag, count),
    ).contains(m) by {
        if burst(tag, count).contains(m) {
            let i = choose|i: nat| i < count && m == #[trigger] burst_bytes(tag, i);
            assert(i < count + 1 && m == burst_bytes(tag, i));
        }
        if m == burst_bytes(tag, count) {
            assert(count < count + 1 && m == burst_bytes(tag, count));
        }
    }
    assert(burst(tag, count + 1) =~= burst(tag, count).insert(burst_bytes(tag, count)));
}

/// Arrivals are taken off what is expected one by one, and were all expected if each was when
/// it came.
pub proof fn arrivals_are_taken_off_one_by_one(
    expected: Set<Seq<u8>>,
    arrived: Seq<Seq<u8>>,
    message: Seq<u8>,
)
    ensures
        remaining(expected, Seq::empty()) == expected,
        remaining(expected, arrived.push(message)) == remaining(expected, arrived).remove(message),
        all_expected(expected, Seq::empty()),
        all_expected(expected, arrived.push(message)) <==> all_expected(expected, arrived)
            && remaining(expected, arrived).contains(message),
{
    assert(arrived.push(message).drop_last() =~= arrived);
}

} // verus!
