use vstd::prelude::*;

verus! {

/// The strings of a list, each as its characters.
pub open spec fn texts(strings: Seq<String>) -> Seq<Seq<char>> {
    strings.map_values(|string: String| string@)
}

/// Adding a string to a list adds its characters to the list's texts.
pub proof fn texts_push(strings: Seq<String>, string: String)
    ensures
        texts(strings.push(string)) == texts(strings).push(string@),
{
    assert(texts(strings.push(string)) =~= texts(strings).push(string@));
}

} // verus!
