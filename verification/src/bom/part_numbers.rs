//! Lists of part numbers, as requests for several parts name them: the part numbers in
//! a row, with a comma between each two.

use vstd::prelude::*;

verus! {

/// The position of the first comma in `text`, or the length of `text` where it holds
/// none.
pub open spec fn first_comma(text: Seq<char>) -> int
    decreases text.len(),
{
    if text.len() == 0 {
        0
    } else if text[0] == ',' {
        0
    } else {
        1 + first_comma(text.drop_first())
    }
}

/// The part numbers that `list` names: what stands before the first comma, between each
/// two commas, and after the last one. A list without a comma names one part number,
/// itself, also where it is empty.
pub open spec fn part_numbers(list: Seq<char>) -> Seq<Seq<char>>
    decreases list.len(),
{
    let comma = first_comma(list);
    if 0 <= comma < list.len() {
        seq![list.take(comma)] + part_numbers(list.skip(comma + 1))
    } else {
        seq![list]
    }
}

/// The first comma of a text is where a comma stands with none before it, and the
/// end of the text where none stands in it.
proof fn lemma_first_comma(text: Seq<char>, position: int)
    requires
        0 <= position <= text.len(),
        forall|i: int| 0 <= i < position ==> text[i] != ',',
        position < text.len() ==> text[position] == ',',
    ensures
        first_comma(text) == position,
    decreases text.len(),
{
    if text.len() > 0 && position > 0 {
        let rest = text.drop_first();
        assert(text[0] != ',');
        assert forall|i: int| 0 <= i < position - 1 implies rest[i] != ',' by {
            assert(rest[i] == text[i + 1]);
        }
        lemma_first_comma(rest, position - 1);
    }
}

/// Splits a list of part numbers at its commas.
pub fn split_part_numbers(list: &str) -> (mpns: Vec<String>)
    ensures
        mpns.deep_view() == part_numbers(list@),
{
    let length = list.unicode_len();
    let mut mpns: Vec<String> = Vec::new();
    let mut start: usize = 0;
    let mut index: usize = 0;
    assert(list@.skip(0) =~= list@);
    for c in it: list.chars()
        invariant
            it.seq() == list@,
            length == list@.len(),
            index == it.index(),
            start <= index,
            forall|i: int| start <= i < index ==> list@[i] != ',',
            mpns.deep_view() + part_numbers(list@.skip(start as int)) == part_numbers(list@),
    {
        if c == ',' {
            let ghost rest = list@.skip(start as int);
            proof {
                assert forall|i: int| 0 <= i < index - start implies rest[i] != ',' by {
                    assert(rest[i] == list@[start + i]);
                }
                lemma_first_comma(rest, index - start);
                assert(rest.take(index - start) =~= list@.subrange(start as int, index as int));
                assert(rest.skip(index - start + 1) =~= list@.skip(index + 1));
            }
            let ghost before = mpns.deep_view();
            mpns.push(list.substring_char(start, index).to_string());
            proof {
                assert(mpns.deep_view() =~= before + seq![rest.take(index - start)]);
                assert(mpns.deep_view() + part_numbers(list@.skip(index + 1)) =~= before
                    + part_numbers(rest));
            }
            start = index + 1;
        }
        index = index + 1;
    }
    let ghost rest = list@.skip(start as int);
    proof {
        assert forall|i: int| 0 <= i < rest.len() implies rest[i] != ',' by {
            assert(rest[i] == list@[start + i]);
        }
        lemma_first_comma(rest, rest.len() as int);
        assert(rest =~= list@.subrange(start as int, length as int));
    }
    let ghost before = mpns.deep_view();
    mpns.push(list.substring_char(start, length).to_string());
    proof {
        assert(mpns.deep_view() =~= before + seq![rest]);
    }
    mpns
}

} // verus!
