use vstd::prelude::*;
use vstd::string::*;
use crate::text::{part_ranges, range_parts, split_parts, trim, trimmed, views};

verus! {

/// The pattern of a `blur = [[..], ..]` entry of the configuration file, with
/// the key and its spacing in group 1 and the inner arrays in group `inner`.
pub const BLUR_BLOCK_PATTERN: &'static str = r"(?m)^(\s*blur\s*=\s*)\[\s*(?P<inner>(?:\[[^]]*]\s*,?\s*\n?)+)\s*]";

/// The pattern of one inner array, with its contents in group 1.
pub const INNER_ARRAY_PATTERN: &'static str = r"\[\s*([^]]+?)\s*]";

/// Names the contents of the inner arrays that regex's `captures_iter` finds
/// in a block with the inner-array pattern, in order.
pub uninterp spec fn bracket_contents_of(inner: Seq<char>) -> Seq<Seq<char>>;

/// Names the texts between the blur blocks that regex's `split` yields for a
/// configuration text with the blur-block pattern: the text before the first
/// block, between each two, and after the last.
pub uninterp spec fn blur_block_gaps_of(text: Seq<char>) -> Seq<Seq<char>>;

/// Names group 1 and group `inner` of each blur block that regex's
/// `captures_iter` finds with the blur-block pattern, in order.
pub uninterp spec fn blur_block_groups_of(text: Seq<char>) -> Seq<(Seq<char>, Seq<char>)>;

/// The views of a list of string pairs.
pub open spec fn pair_views(v: Seq<(String, String)>) -> Seq<(Seq<char>, Seq<char>)> {
    v.map_values(|p: (String, String)| (p.0@, p.1@))
}

/// Relies on regex::Regex::new, which accepts the fixed inner-array pattern,
/// and Regex::captures_iter, which yields the successive matches; the result
/// is the text of group 1 of each.
#[verifier::external_body]
fn bracket_contents(inner: &str) -> (r: Vec<String>)
    ensures
        views(r@) == bracket_contents_of(inner@),
{
    let re = regex::Regex::new(INNER_ARRAY_PATTERN).expect("the inner-array pattern is valid");
    re.captures_iter(inner).map(|m| m[1].to_string()).collect()
}

/// Relies on regex::Regex::new, which accepts the fixed blur-block pattern,
/// and Regex::split, which yields the text before each match and then the
/// text after the last one: one piece more than there are matches, and the
/// whole text where nothing matches.
#[verifier::external_body]
fn blur_block_gaps(text: &str) -> (r: Vec<String>)
    ensures
        views(r@) == blur_block_gaps_of(text@),
        r@.len() == blur_block_groups_of(text@).len() + 1,
        blur_block_groups_of(text@).len() == 0 ==> views(r@) == seq![text@],
{
    let re = regex::Regex::new(BLUR_BLOCK_PATTERN).expect("the blur-block pattern is valid");
    re.split(text).map(|g| g.to_string()).collect()
}

/// Relies on regex::Regex::new, which accepts the fixed blur-block pattern,
/// and Regex::captures_iter, which yields the same successive matches as
/// `split` cuts at; the result is the text of the two groups of each.
#[verifier::external_body]
fn blur_block_groups(text: &str) -> (r: Vec<(String, String)>)
    ensures
        pair_views(r@) == blur_block_groups_of(text@),
{
    let re = regex::Regex::new(BLUR_BLOCK_PATTERN).expect("the blur-block pattern is valid");
    re.captures_iter(text).map(|c| (c[1].to_string(), c["inner"].to_string())).collect()
}

/// The trimmed, non-empty parts among `parts`, in order.
pub open spec fn kept_items(parts: Seq<Seq<char>>) -> Seq<Seq<char>>
    decreases parts.len(),
{
    if parts.len() == 0 {
        Seq::empty()
    } else {
        let init = kept_items(parts.drop_last());
        let t = trimmed(parts.last());
        if t.len() > 0 {
            init.push(t)
        } else {
            init
        }
    }
}

/// The values written in an array's contents: the trimmed, non-empty parts
/// between commas and line breaks.
pub open spec fn array_items(content: Seq<char>) -> Seq<Seq<char>> {
    kept_items(split_parts(content, true))
}

/// The items with `sep` between each two.
pub open spec fn joined(items: Seq<Seq<char>>, sep: Seq<char>) -> Seq<char>
    decreases items.len(),
{
    if items.len() == 0 {
        Seq::empty()
    } else if items.len() == 1 {
        items[0]
    } else {
        joined(items.drop_last(), sep) + sep + items.last()
    }
}

/// `s` in square brackets.
pub open spec fn bracketed(s: Seq<char>) -> Seq<char> {
    "["@ + s + "]"@
}

/// An inner array on one line: its values joined by `, `, in brackets.
pub open spec fn array_text(content: Seq<char>) -> Seq<char> {
    bracketed(joined(array_items(content), ", "@))
}

/// A whole blur entry on one line: the key, then its arrays joined by `, `,
/// in brackets.
pub open spec fn block_text(prefix: Seq<char>, contents: Seq<Seq<char>>) -> Seq<char> {
    prefix + bracketed(joined(contents.map_values(|c: Seq<char>| array_text(c)), ", "@))
}

/// Joins `items` with `sep` between each two.
pub fn join_strings(items: &Vec<String>, sep: &str) -> (r: String)
    ensures
        r@ == joined(views(items@), sep@),
{
    if items.len() == 0 {
        return String::new();
    }
    let mut acc = items[0].clone();
    let mut i: usize = 1;
    assert(views(items@.subrange(0, 1)) =~= seq![items@[0]@]);
    while i < items.len()
        invariant
            1 <= i <= items.len(),
            acc@ == joined(views(items@.subrange(0, i as int)), sep@),
        decreases items.len() - i,
    {
        let ghost prev = views(items@.subrange(0, i as int));
        acc = acc.concat(sep).concat(items[i].as_str());
        assert(views(items@.subrange(0, i + 1)).drop_last() =~= prev);
        assert(views(items@.subrange(0, i + 1)).last() == items@[i as int]@);
        i = i + 1;
    }
    assert(items@.subrange(0, items.len() as int) =~= items@);
    acc
}

/// The values written in an array's contents, trimmed, without empty ones.
pub fn split_items(content: &str) -> (r: Vec<String>)
    ensures
        views(r@) == array_items(content@),
{
    let ranges = part_ranges(content, true);
    let ghost parts = split_parts(content@, true);
    let mut out: Vec<String> = Vec::new();
    let mut k: usize = 0;
    assert(parts.subrange(0, 0) =~= Seq::<Seq<char>>::empty());
    assert(views(out@) =~= Seq::<Seq<char>>::empty());
    while k < ranges.len()
        invariant
            range_parts(content@, ranges@) == parts,
            forall|j: int| 0 <= j < ranges@.len() ==> (#[trigger] ranges@[j]).0 <= ranges@[j].1 <= content@.len(),
            k <= ranges.len(),
            views(out@) == kept_items(parts.subrange(0, k as int)),
        decreases ranges.len() - k,
    {
        let (a, b) = ranges[k];
        assert(parts[k as int] == content@.subrange(a as int, b as int));
        let part = content.substring_char(a, b);
        let t = trim(part);
        assert(parts.subrange(0, k + 1).drop_last() =~= parts.subrange(0, k as int));
        assert(parts.subrange(0, k + 1).last() == parts[k as int]);
        if t.unicode_len() > 0 {
            let ghost before = out@;
            out.push(t.to_owned());
            assert(views(out@) =~= views(before).push(t@));
        }
        k = k + 1;
    }
    assert(parts.subrange(0, ranges.len() as int) =~= parts);
    out
}

/// One inner array on one line.
pub fn format_array(content: &str) -> (r: String)
    ensures
        r@ == array_text(content@),
{
    let items = split_items(content);
    let body = join_strings(&items, ", ");
    String::from_str("[").concat(body.as_str()).concat("]")
}

/// A blur entry on one line, from its key part and the contents of its arrays.
pub fn format_block(prefix: &str, contents: &Vec<String>) -> (r: String)
    ensures
        r@ == block_text(prefix@, views(contents@)),
{
    let mut arrays: Vec<String> = Vec::new();
    let mut k: usize = 0;
    while k < contents.len()
        invariant
            k <= contents.len(),
            views(arrays@) == views(contents@).subrange(0, k as int).map_values(
                |c: Seq<char>| array_text(c),
            ),
        decreases contents.len() - k,
    {
        let a = format_array(contents[k].as_str());
        let ghost before = arrays@;
        arrays.push(a);
        assert(views(arrays@) =~= views(before).push(a@));
        assert(views(contents@)[k as int] == contents@[k as int]@);
        assert(views(arrays@) =~= views(contents@).subrange(0, k + 1).map_values(
            |c: Seq<char>| array_text(c),
        ));
        k = k + 1;
    }
    assert(views(contents@).subrange(0, contents.len() as int) =~= views(contents@));
    let body = join_strings(&arrays, ", ");
    prefix.to_owned().concat("[").concat(body.as_str()).concat("]")
}

/// A blur entry on one line, from the two groups of its match.
pub fn collapse_block(prefix: &str, inner: &str) -> (r: String)
    ensures
        r@ == block_text(prefix@, bracket_contents_of(inner@)),
{
    let contents = bracket_contents(inner);
    format_block(prefix, &contents)
}

/// The gaps and the first `k` blocks in text order: `gaps[0]`, `blocks[0]`,
/// `gaps[1]`, ..., `blocks[k - 1]`, `gaps[k]`.
pub open spec fn interleaved(gaps: Seq<Seq<char>>, blocks: Seq<Seq<char>>, k: nat) -> Seq<char>
    decreases k,
{
    if k == 0 {
        gaps[0]
    } else {
        interleaved(gaps, blocks, (k - 1) as nat) + blocks[k - 1] + gaps[k as int]
    }
}

/// Each matched blur block written on one line.
pub open spec fn block_texts(groups: Seq<(Seq<char>, Seq<char>)>) -> Seq<Seq<char>> {
    groups.map_values(|g: (Seq<char>, Seq<char>)| block_text(g.0, bracket_contents_of(g.1)))
}

/// The configuration text with every blur block written on one line and
/// everything between the blocks kept.
pub open spec fn collapsed_text(text: Seq<char>) -> Seq<char> {
    interleaved(
        blur_block_gaps_of(text),
        block_texts(blur_block_groups_of(text)),
        blur_block_groups_of(text).len(),
    )
}

/// Puts the rewritten blocks back between the texts that surrounded them.
pub fn splice_blocks(gaps: &Vec<String>, blocks: &Vec<String>) -> (r: String)
    requires
        gaps@.len() == blocks@.len() + 1,
    ensures
        r@ == interleaved(views(gaps@), views(blocks@), blocks@.len()),
{
    let ghost gv = views(gaps@);
    let ghost bv = views(blocks@);
    let mut out = gaps[0].clone();
    let mut k: usize = 0;
    while k < blocks.len()
        invariant
            gaps@.len() == blocks@.len() + 1,
            gv == views(gaps@),
            bv == views(blocks@),
            k <= blocks.len(),
            out@ == interleaved(gv, bv, k as nat),
        decreases blocks.len() - k,
    {
        assert(bv[k as int] == blocks@[k as int]@);
        assert(gv[k + 1] == gaps@[k + 1]@);
        out = out.concat(blocks[k].as_str()).concat(gaps[k + 1].as_str());
        k = k + 1;
    }
    out
}

/// The configuration text with every multi-line `blur` entry written on one line.
pub fn collapse_array(s: String) -> (r: String)
    ensures
        r@ == collapsed_text(s@),
        blur_block_groups_of(s@).len() == 0 ==> r@ == s@,
{
    let gaps = blur_block_gaps(s.as_str());
    let groups = blur_block_groups(s.as_str());
    let ghost pv = pair_views(groups@);
    let mut blocks: Vec<String> = Vec::new();
    let mut k: usize = 0;
    while k < groups.len()
        invariant
            pv == pair_views(groups@),
            k <= groups.len(),
            views(blocks@) == block_texts(pv.subrange(0, k as int)),
        decreases groups.len() - k,
    {
        let block = collapse_block(groups[k].0.as_str(), groups[k].1.as_str());
        assert(pv[k as int] == (groups@[k as int].0@, groups@[k as int].1@));
        let ghost before = blocks@;
        blocks.push(block);
        assert(views(blocks@) =~= views(before).push(block@));
        assert(views(blocks@) =~= block_texts(pv.subrange(0, k + 1)));
        k = k + 1;
    }
    assert(pv.subrange(0, groups.len() as int) =~= pv);
    splice_blocks(&gaps, &blocks)
}

} // verus!
