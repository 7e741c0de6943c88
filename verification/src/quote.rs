use vstd::prelude::*;

use crate::strutil::{contains_seq, contains_str, filter_letters, lemma_contains_len, letters_of};

verus! {

/// Seed for the collision-avoiding delimiter tags wrapped around
/// inline text literals. The renderer keeps only its letters, and
/// extends the tag by another copy of them for as long as the literal
/// still contains the delimiter.
pub const QUOTE_SEED: &'static str = "instant_models";

/// The letters of the delimiter seed.
pub open spec fn seed_letters() -> Seq<char> {
    letters_of(QUOTE_SEED@)
}

/// The seed contributes at least one letter, so extending a tag always
/// lengthens it.
pub proof fn lemma_seed_letters_len()
    ensures
        seed_letters().len() == 13,
{
    reveal_strlit("instant_models");
    reveal_with_fuel(letters_of, 16);
    assert(seed_letters().len() == 13);
}

/// A tag between dollar signs: the delimiter that brackets a quoted
/// text literal.
pub open spec fn wrap_tag(tag: Seq<char>) -> Seq<char> {
    seq!['$'] + tag + seq!['$']
}

/// Extends `tag` with the seed's letters until the text no longer
/// contains the resulting delimiter. The bound on the tag length makes
/// the recursion well-founded; it loses nothing, because a delimiter
/// longer than the text cannot occur in it.
pub open spec fn grow_tag(s: Seq<char>, tag: Seq<char>) -> Seq<char>
    decreases (if tag.len() <= s.len() { s.len() as int + 2 - tag.len() as int } else { 0 }),
{
    if seed_letters().len() > 0 && tag.len() + 2 <= s.len() && contains_seq(s, wrap_tag(tag)) {
        grow_tag(s, tag + seed_letters())
    } else {
        tag
    }
}

/// The delimiter tag chosen for a given text literal.
pub open spec fn quote_tag(s: Seq<char>) -> Seq<char> {
    grow_tag(s, seed_letters())
}

/// A text literal rendered between its collision-free delimiters.
pub open spec fn quoted_text(s: Seq<char>) -> Seq<char> {
    wrap_tag(quote_tag(s)) + s + wrap_tag(quote_tag(s))
}

/// The delimiter chosen by `grow_tag` never occurs in the quoted text.
proof fn lemma_grow_tag_fresh(s: Seq<char>, tag: Seq<char>)
    requires
        seed_letters().len() > 0,
    ensures
        !contains_seq(s, wrap_tag(grow_tag(s, tag))),
    decreases (if tag.len() <= s.len() { s.len() as int + 2 - tag.len() as int } else { 0 }),
{
    if tag.len() + 2 <= s.len() && contains_seq(s, wrap_tag(tag)) {
        lemma_grow_tag_fresh(s, tag + seed_letters());
    } else {
        if contains_seq(s, wrap_tag(tag)) {
            lemma_contains_len(s, wrap_tag(tag));
            assert(false);
        }
    }
}

/// Delimiter-uniqueness law: for every text literal, the delimiter
/// pair chosen by the quoting scheme does not occur inside the literal
/// itself, so the rendered form can never be cut short by the
/// literal's own content.
pub proof fn lemma_delimiter_unique(s: Seq<char>)
    ensures
        !contains_seq(s, wrap_tag(quote_tag(s))),
{
    lemma_seed_letters_len();
    lemma_grow_tag_fresh(s, seed_letters());
}

fn wrap_tag_exec(tag: &str) -> (r: String)
    ensures
        r@ == wrap_tag(tag@),
{
    let mut r = String::new();
    r.push('$');
    r.append(tag);
    r.push('$');
    proof {
        assert(r@ =~= wrap_tag(tag@));
    }
    r
}

/// Renders a text literal between collision-free delimiters: the tag
/// is the seed's letters, extended by another copy of them for as long
/// as the literal still contains the delimiter pair.
pub fn quote_text(s: &str) -> (r: String)
    ensures
        r@ == quoted_text(s@),
{
    let seed = filter_letters(QUOTE_SEED);
    proof {
        lemma_seed_letters_len();
    }
    let mut tag = filter_letters(QUOTE_SEED);
    let mut wrapped = wrap_tag_exec(tag.as_str());
    while contains_str(s, wrapped.as_str())
        invariant
            seed@ == seed_letters(),
            seed_letters().len() == 13,
            wrapped@ == wrap_tag(tag@),
            grow_tag(s@, tag@) == quote_tag(s@),
        decreases (if tag@.len() <= s@.len() { s@.len() as int + 2 - tag@.len() as int } else { 0 }),
    {
        proof {
            lemma_contains_len(s@, wrap_tag(tag@));
        }
        tag.append(seed.as_str());
        wrapped = wrap_tag_exec(tag.as_str());
    }
    let mut r = String::new();
    r.append(wrapped.as_str());
    r.append(s);
    r.append(wrapped.as_str());
    proof {
        assert(tag@ == quote_tag(s@));
        assert(r@ =~= quoted_text(s@));
    }
    r
}

} // verus!
