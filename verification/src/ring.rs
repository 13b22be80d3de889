//! Fixed-length buffers that turn by one position per tick.

use vstd::prelude::*;

verus! {

/// The buffer after one turn: its last element has moved to the front and
/// every other element one place back. An empty buffer stays empty.
pub open spec fn turned<T>(buffer: Seq<T>) -> Seq<T> {
    if buffer.len() == 0 {
        buffer
    } else {
        seq![buffer.last()] + buffer.drop_last()
    }
}

/// The buffer after `times` turns.
pub open spec fn turned_n<T>(buffer: Seq<T>, times: nat) -> Seq<T>
    decreases times,
{
    if times == 0 {
        buffer
    } else {
        turned(turned_n(buffer, (times - 1) as nat))
    }
}

/// Turns the buffer by one position: the last element becomes the first.
pub fn rotate<T>(buffer: &mut Vec<T>)
    ensures
        final(buffer)@ == turned(old(buffer)@),
{
    match buffer.pop() {
        Some(last) => {
            buffer.insert(0, last);
            assert(buffer@ =~= turned(old(buffer)@));
        },
        None => {},
    }
}

/// After `times` turns, with `times` at most the length, the last `times`
/// elements stand in front and the others behind them, both in their order.
pub proof fn lemma_turned_n_splits<T>(buffer: Seq<T>, times: nat)
    requires
        times <= buffer.len(),
    ensures
        turned_n(buffer, times) == buffer.subrange(buffer.len() - times, buffer.len() as int)
            + buffer.subrange(0, buffer.len() - times),
    decreases times,
{
    let len = buffer.len() as int;
    if times == 0 {
        assert(buffer =~= buffer.subrange(len, len) + buffer.subrange(0, len));
    } else {
        lemma_turned_n_splits(buffer, (times - 1) as nat);
        let before = buffer.subrange(len - times + 1, len) + buffer.subrange(0, len - times + 1);
        assert(before.len() == len);
        assert(before.last() == buffer[len - times]);
        assert(turned(before) =~= buffer.subrange(len - times, len) + buffer.subrange(
            0,
            len - times,
        ));
    }
}

/// A turn keeps the length of the buffer.
pub proof fn lemma_turned_keeps_len<T>(buffer: Seq<T>)
    ensures
        turned(buffer).len() == buffer.len(),
{
}

/// Turning a buffer once for each of its elements restores its order.
pub proof fn lemma_full_turn<T>(buffer: Seq<T>)
    ensures
        turned_n(buffer, buffer.len()) == buffer,
{
    let len = buffer.len() as int;
    lemma_turned_n_splits(buffer, buffer.len());
    assert(buffer =~= buffer.subrange(0, len) + buffer.subrange(0, 0));
}

} // verus!
