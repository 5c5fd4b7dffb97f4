//! Texts as character sequences: joining, line breaks, letter case.

use vstd::prelude::*;

verus! {

/// Ends a line of text.
pub const LINE_BREAK: &'static str = "\n";

/// The text that `str::to_lowercase` gives for `s`: `s` with every
/// character put into lower case, by the rules of Unicode.
pub uninterp spec fn lowercase(s: Seq<char>) -> Seq<char>;

/// The text that `str::to_uppercase` gives for `s`: `s` with every
/// character put into upper case, by the rules of Unicode.
pub uninterp spec fn uppercase(s: Seq<char>) -> Seq<char>;

/// `str::to_lowercase` of the standard library. Believed, not proved: the
/// result depends on the characters of `s` alone, and is what `lowercase`
/// names.
pub assume_specification[ str::to_lowercase ](s: &str) -> (lowered: String)
    ensures
        lowered@ == lowercase(s@),
;

/// `str::to_uppercase` of the standard library. Believed, not proved: the
/// result depends on the characters of `s` alone, and is what `uppercase`
/// names.
pub assume_specification[ str::to_uppercase ](s: &str) -> (raised: String)
    ensures
        raised@ == uppercase(s@),
;

/// The parts in order, `separator` between each two neighbours.
pub open spec fn join(parts: Seq<Seq<char>>, separator: Seq<char>) -> Seq<char>
    decreases parts.len(),
{
    if parts.len() == 0 {
        Seq::empty()
    } else if parts.len() == 1 {
        parts[0]
    } else {
        join(parts.drop_last(), separator) + separator + parts.last()
    }
}

/// The given lines as one text, a line break after each.
pub open spec fn broken_lines(lines: Seq<Seq<char>>) -> Seq<char> {
    lines.map_values(|l: Seq<char>| l + LINE_BREAK@).flatten()
}

/// Taking one more part adds that part to the end of the concatenation.
pub proof fn lemma_flatten_take_next(parts: Seq<Seq<char>>, i: int)
    requires
        0 <= i < parts.len(),
    ensures
        parts.take(i + 1).flatten() == parts.take(i).flatten() + parts[i],
{
    assert(parts.take(i + 1) =~= parts.take(i).push(parts[i]));
    parts.take(i).lemma_flatten_push(parts[i]);
}

/// The parts in order, `separator` between each two neighbours.
pub fn join_strings(parts: &Vec<String>, separator: &str) -> (joined: String)
    ensures
        joined@ == join(parts.deep_view(), separator@),
{
    let ghost all = parts.deep_view();
    let mut joined = String::new();
    let mut i: usize = 0;
    while i < parts.len()
        invariant
            i <= parts.len(),
            all == parts.deep_view(),
            joined@ == join(all.take(i as int), separator@),
        decreases parts.len() - i,
    {
        if i > 0 {
            joined.append(separator);
        }
        joined.append(parts[i].as_str());
        proof {
            let next = all.take(i + 1);
            assert(next.drop_last() =~= all.take(i as int));
            assert(next.last() == parts@[i as int]@);
            if i == 0 {
                assert(joined@ =~= next[0]);
            }
        }
        i = i + 1;
    }
    assert(all.take(parts.len() as int) =~= all);
    joined
}

/// The given lines as one text, a line break after each.
pub fn break_lines(lines: &Vec<String>) -> (text: String)
    ensures
        text@ == broken_lines(lines.deep_view()),
{
    let ghost ended = lines.deep_view().map_values(|l: Seq<char>| l + LINE_BREAK@);
    let mut text = String::new();
    let mut i: usize = 0;
    while i < lines.len()
        invariant
            i <= lines.len(),
            ended == lines.deep_view().map_values(|l: Seq<char>| l + LINE_BREAK@),
            text@ == ended.take(i as int).flatten(),
        decreases lines.len() - i,
    {
        text.append(lines[i].as_str());
        text.append(LINE_BREAK);
        proof {
            lemma_flatten_take_next(ended, i as int);
            assert(text@ =~= ended.take(i as int).flatten() + ended[i as int]);
        }
        i = i + 1;
    }
    assert(ended.take(lines.len() as int) =~= ended);
    text
}

} // verus!
