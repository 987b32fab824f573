//! Named blocks in the text of a configuration file.
//!
//! A block is found by its marker, the header line that opens it. Its extent runs
//! from the first place where the marker stands to the first closing brace after
//! that place: braces are not counted, so a block that holds another block ends where
//! the inner one does. Where the marker stands more than once, the first place
//! counts.

use crate::errors::{ErrorKind, ErrorKindView};
use crate::text::{
    find, find_char_from, first_index_from, first_occurrence, is_first_index_from, last_index,
    lemma_first_index_from_is, lemma_first_index_from_some, lemma_first_occurrence_is,
    lemma_first_occurrence_some, lemma_last_index_some, occurs_at, rfind_char, splice, to_chars,
};
use vstd::prelude::*;
use vstd::string::*;

verus! {

/// `file` with `block` put in just before its last closing brace, the one that closes
/// the outer block; nothing where it has no closing brace.
pub open spec fn inserted(file: Seq<char>, block: Seq<char>) -> Option<Seq<char>> {
    match last_index(file, '}') {
        Some(at) => Some(file.subrange(0, at) + block + file.subrange(at, file.len() as int)),
        None => None,
    }
}

/// Where the block with this marker begins and where it ends, the closing brace
/// included; nothing where the marker does not stand in `file` or no closing brace
/// follows it.
pub open spec fn block_extent(file: Seq<char>, marker: Seq<char>) -> Option<(int, int)> {
    match first_occurrence(file, marker) {
        Some(start) => match first_index_from(file, '}', start) {
            Some(close) => Some((start, close + 1)),
            None => None,
        },
        None => None,
    }
}

/// `file` with `block` in the place of the block with this marker.
pub open spec fn replaced(file: Seq<char>, marker: Seq<char>, block: Seq<char>) -> Option<
    Seq<char>,
> {
    match block_extent(file, marker) {
        Some((start, end)) => Some(
            file.subrange(0, start) + block + file.subrange(end, file.len() as int),
        ),
        None => None,
    }
}

/// `file` without the block with this marker.
pub open spec fn deleted(file: Seq<char>, marker: Seq<char>) -> Option<Seq<char>> {
    replaced(file, marker, Seq::empty())
}

/// Puts `block` into `content` just before the last closing brace.
///
/// Fails with `MalformedFile`, and changes nothing, where `content` has no closing
/// brace.
pub fn insert_block(content: &mut String, block: &str) -> (r: Result<(), ErrorKind>)
    ensures
        match inserted(old(content)@, block@) {
            Some(text) => r is Ok && final(content)@ == text,
            None => r matches Err(e) && e@ == ErrorKindView::MalformedFile && final(content)@ == old(
                content,
            )@,
        },
{
    let chars = to_chars(content.as_str());
    match rfind_char(&chars, '}') {
        Some(at) => {
            proof {
                lemma_last_index_some(chars@, '}');
            }
            let text = splice(content.as_str(), at, at, block);
            *content = text;
            Ok(())
        },
        None => Err(ErrorKind::MalformedFile),
    }
}

/// Where the block with this marker begins and ends in `chars`.
fn find_block(chars: &Vec<char>, marker: &str) -> (r: Option<(usize, usize)>)
    ensures
        match r {
            Some((start, end)) => block_extent(chars@, marker@) == Some((start as int, end as int))
                && start <= end <= chars@.len(),
            None => block_extent(chars@, marker@) is None,
        },
{
    let pattern = to_chars(marker);
    match find(chars, &pattern) {
        Some(start) => {
            proof {
                lemma_first_occurrence_some(chars@, pattern@);
            }
            match find_char_from(chars, '}', start) {
                Some(close) => {
                    proof {
                        lemma_first_index_from_some(chars@, '}', start as int);
                        assert(first_index_from(chars@, '}', start as int) == Some(close as int));
                        assert(is_first_index_from(chars@, '}', start as int, close as int));
                        assert(close < chars.len());
                    }
                    Some((start, close + 1))
                },
                None => None,
            }
        },
        None => None,
    }
}

/// Puts `block` in the place of the block with this marker.
///
/// Fails with `MarkerNotFound`, and changes nothing, where `content` has no such
/// block.
pub fn replace_block(content: &mut String, marker: &str, block: &str) -> (r: Result<
    (),
    ErrorKind,
>)
    ensures
        match replaced(old(content)@, marker@, block@) {
            Some(text) => r is Ok && final(content)@ == text,
            None => r matches Err(e) && e@ == ErrorKindView::MarkerNotFound && final(content)@
                == old(content)@,
        },
{
    let chars = to_chars(content.as_str());
    match find_block(&chars, marker) {
        Some((start, end)) => {
            let text = splice(content.as_str(), start, end, block);
            *content = text;
            Ok(())
        },
        None => Err(ErrorKind::MarkerNotFound),
    }
}

/// Takes the block with this marker out of `content`.
///
/// Fails with `MarkerNotFound`, and changes nothing, where `content` has no such
/// block.
pub fn delete_block(content: &mut String, marker: &str) -> (r: Result<(), ErrorKind>)
    ensures
        match deleted(old(content)@, marker@) {
            Some(text) => r is Ok && final(content)@ == text,
            None => r matches Err(e) && e@ == ErrorKindView::MarkerNotFound && final(content)@
                == old(content)@,
        },
{
    let r = replace_block(content, marker, "");
    proof {
        reveal_strlit("");
        assert(""@ =~= Seq::<char>::empty());
    }
    r
}

/// The extent of a block that is written out: after `pre` the marker, a body and the
/// closing brace, where the marker stands nowhere before and no brace closes the
/// block early.
pub proof fn lemma_block_extent(
    pre: Seq<char>,
    marker: Seq<char>,
    body: Seq<char>,
    post: Seq<char>,
)
    requires
        first_occurrence(pre + marker, marker) == Some(pre.len() as int),
        !(marker + body).contains('}'),
    ensures
        block_extent(pre + marker + body + seq!['}'] + post, marker) == Some(
            (pre.len() as int, (pre.len() + marker.len() + body.len() + 1) as int),
        ),
{
    let text = pre + marker + body + seq!['}'] + post;
    let start = pre.len() as int;
    let close = start + marker.len() + body.len();
    lemma_first_occurrence_some(pre + marker, marker);
    assert(text.subrange(start, start + marker.len()) =~= marker);
    assert forall|j: int| 0 <= j < start implies !occurs_at(text, marker, j) by {
        if occurs_at(text, marker, j) {
            assert((pre + marker).subrange(j, j + marker.len()) =~= text.subrange(
                j,
                j + marker.len(),
            ));
            assert(occurs_at(pre + marker, marker, j));
        }
    }
    lemma_first_occurrence_is(text, marker, start);
    assert(text[close] == '}');
    assert forall|j: int| start <= j < close implies text[j] != '}' by {
        assert(text[j] == (marker + body)[j - start]);
    }
    lemma_first_index_from_is(text, '}', start, close);
}

/// A block that is inserted, replaced under its marker and deleted under its marker
/// leaves the file as it was, but for the text that stood around the block when it
/// was inserted (`lead` before it and `trail` after it), which now stands before
/// the outer closing brace.
///
/// The block is written as `lead`, the marker, a body, the closing brace and `trail`;
/// the replacement as the marker, a body and the closing brace. This holds where the
/// marker is new to the file (up to the inserted block it stands nowhere else) and no
/// brace closes either block early.
pub proof fn law_insert_replace_delete(
    file: Seq<char>,
    lead: Seq<char>,
    marker: Seq<char>,
    body: Seq<char>,
    trail: Seq<char>,
    new_body: Seq<char>,
)
    requires
        last_index(file, '}') matches Some(at) && first_occurrence(
            file.subrange(0, at) + lead + marker,
            marker,
        ) == Some(at + lead.len()),
        !(marker + body).contains('}'),
        !(marker + new_body).contains('}'),
    ensures
        ({
            let at = last_index(file, '}')->0;
            let block = lead + marker + body + seq!['}'] + trail;
            let new_block = marker + new_body + seq!['}'];
            &&& inserted(file, block) matches Some(first)
            &&& replaced(first, marker, new_block) matches Some(second)
            &&& deleted(second, marker) == Some(
                file.subrange(0, at) + lead + trail + file.subrange(at, file.len() as int),
            )
        }),
{
    let at = last_index(file, '}')->0;
    lemma_last_index_some(file, '}');
    let pre = file.subrange(0, at) + lead;
    let post = trail + file.subrange(at, file.len() as int);
    let block = lead + marker + body + seq!['}'] + trail;
    let new_block = marker + new_body + seq!['}'];
    let first = inserted(file, block)->0;
    let written = pre + marker + body + seq!['}'] + post;
    assert(first =~= written);
    lemma_block_extent(pre, marker, body, post);
    let second = replaced(first, marker, new_block)->0;
    let rewritten = pre + marker + new_body + seq!['}'] + post;
    assert(second =~= rewritten);
    lemma_block_extent(pre, marker, new_body, post);
    assert(deleted(second, marker)->0 =~= file.subrange(0, at) + lead + trail + file.subrange(
        at,
        file.len() as int,
    ));
}

} // verus!
