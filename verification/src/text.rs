//! Pieces of generated text put together.
use vstd::prelude::*;
use vstd::string::*;
use crate::stub::views;

verus! {

/// Every part with `lead` before it: `lead a lead b ...`.
pub open spec fn each_led(parts: Seq<Seq<char>>, lead: Seq<char>) -> Seq<char>
    decreases parts.len(),
{
    if parts.len() == 0 {
        Seq::empty()
    } else {
        each_led(parts.drop_last(), lead) + lead + parts.last()
    }
}

/// The parts with `separator` between them: `a separator b ...`.
pub open spec fn join(parts: Seq<Seq<char>>, separator: Seq<char>) -> Seq<char>
    decreases parts.len(),
{
    if parts.len() == 0 {
        Seq::empty()
    } else if parts.len() == 1 {
        parts[0]
    } else {
        join(parts.drop_last(), separator) + separator + parts.last()
    }
}

/// A piece with a blank before it, or nothing where the piece is empty.
pub open spec fn spaced(piece: Seq<char>) -> Seq<char> {
    if piece.len() == 0 {
        piece
    } else {
        " "@ + piece
    }
}

/// The first items of a sequence and one more are the first items with that
/// one behind them.
pub proof fn lemma_take_next<A>(items: Seq<A>, count: int)
    requires
        0 <= count < items.len(),
    ensures
        items.take(count + 1).drop_last() == items.take(count),
        items.take(count + 1).last() == items[count],
        items.take(count + 1).len() == count + 1,
{
    assert(items.take(count + 1).drop_last() =~= items.take(count));
}

/// Every string of `parts` with `lead` before it, in one string.
pub fn led_texts(parts: &Vec<String>, lead: &str) -> (out: String)
    ensures
        out@ == each_led(views(parts@), lead@),
{
    let mut out = String::new();
    let mut i: usize = 0;
    assert(views(parts@).take(0) =~= Seq::empty());
    while i < parts.len()
        invariant
            i <= parts.len(),
            out@ == each_led(views(parts@).take(i as int), lead@),
        decreases parts.len() - i,
    {
        proof {
            lemma_take_next(views(parts@), i as int);
        }
        out.append(lead);
        out.append(parts[i].as_str());
        i = i + 1;
    }
    assert(views(parts@).take(i as int) =~= views(parts@));
    out
}

/// The strings of `parts` with `separator` between them, in one string.
pub fn join_texts(parts: &Vec<String>, separator: &str) -> (out: String)
    ensures
        out@ == join(views(parts@), separator@),
{
    let mut out = String::new();
    if parts.len() == 0 {
        return out;
    }
    out.append(parts[0].as_str());
    let mut i: usize = 1;
    assert(views(parts@).take(1).len() == 1);
    while i < parts.len()
        invariant
            1 <= i <= parts.len(),
            out@ == join(views(parts@).take(i as int), separator@),
        decreases parts.len() - i,
    {
        proof {
            lemma_take_next(views(parts@), i as int);
        }
        out.append(separator);
        out.append(parts[i].as_str());
        i = i + 1;
    }
    assert(views(parts@).take(i as int) =~= views(parts@));
    out
}

/// Appends `piece` to `out` behind a blank, or nothing where it is empty.
pub fn append_spaced(out: &mut String, piece: &str)
    ensures
        final(out)@ == old(out)@ + spaced(piece@),
{
    if !piece.is_empty() {
        out.append(" ");
        out.append(piece);
        assert(out@ =~= old(out)@ + spaced(piece@));
    } else {
        assert(out@ =~= old(out)@ + spaced(piece@));
    }
}

} // verus!
