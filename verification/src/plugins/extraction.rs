//! What the extractors share: the text of stored content, and lists in the answers
//! of language models.
use crate::json::{items_view_index, Json, JsonView};
use crate::outside::json_of_text;
use crate::text::{
    after_prefix, before_suffix, ends_with, is_space, starts_with, trim, trim_end, trim_of_tight,
    trim_start, trimmed, view_opt, views,
};
use crate::wire::{as_record, optional_text_at, read_optional_text_at, record};
use vstd::prelude::*;

verus! {

/// The text that the results of a query hold, if there is any.
pub open spec fn text_in_results(results: JsonView) -> Option<Seq<char>> {
    match results {
        JsonView::Array(a) => if a.len() > 0 {
            match a[0].as_text() {
                Some(t) => if t.len() > 0 {
                    Some(t)
                } else {
                    None
                },
                None => None,
            }
        } else {
            None
        },
        _ => None,
    }
}

/// The text that the results of a query hold, if there is any.
pub fn result_text(results: &Json) -> (r: Option<String>)
    ensures
        view_opt(r) == text_in_results(results@),
{
    match results {
        Json::Array(v) => {
            proof {
                items_view_index(v@);
            }
            if v.len() > 0 {
                match &v[0] {
                    Json::Text(t) => if t.as_str().is_empty() {
                        None
                    } else {
                        Some(t.clone())
                    },
                    _ => None,
                }
            } else {
                None
            }
        },
        _ => None,
    }
}

/// A trimmed text without a fence that opens it.
pub open spec fn opened(t: Seq<char>) -> Seq<char> {
    if starts_with(t, "```json"@) {
        t.subrange("```json"@.len() as int, t.len() as int)
    } else if starts_with(t, "```"@) {
        t.subrange("```"@.len() as int, t.len() as int)
    } else {
        t
    }
}

/// A text without the fences around it.
pub open spec fn unfenced(text: Seq<char>) -> Seq<char> {
    let t = opened(trim(text));
    if ends_with(t, "```"@) {
        trim(t.subrange(0, t.len() - "```"@.len()))
    } else {
        trim(t)
    }
}

/// A text without the fences around it.
pub fn strip_fences(text: &str) -> (r: String)
    ensures
        r@ == unfenced(text@),
{
    let t = trimmed(text);
    let t = match after_prefix(&t, "```json") {
        Some(x) => x,
        None => match after_prefix(&t, "```") {
            Some(x) => x,
            None => t,
        },
    };
    match before_suffix(&t, "```") {
        Some(x) => trimmed(&x),
        None => trimmed(&t),
    }
}

/// The list that a decoded answer is.
pub open spec fn list_in(body: Result<JsonView, Seq<char>>) -> Option<Seq<JsonView>> {
    match body {
        Ok(JsonView::Array(a)) => Some(a),
        _ => None,
    }
}

/// The list that an answer holds between its fences.
pub fn read_list(text: &str) -> (r: Option<Vec<Json>>)
    ensures
        match r {
            Some(v) => list_in(json_of_text(unfenced(text@))) == Some(views(v@)),
            None => list_in(json_of_text(unfenced(text@))) is None,
        },
{
    match Json::parse(&strip_fences(text)) {
        Ok(j) => match j {
            Json::Array(v) => {
                proof {
                    items_view_index(v@);
                }
                Some(v)
            },
            _ => None,
        },
        Err(_) => None,
    }
}

/// The text of a block of an answer, if it has any; the outer `None` is what is no
/// block.
pub open spec fn block_text(b: JsonView) -> Option<Option<Seq<char>>> {
    let b = record(b, seq!["text"@], 1);
    if b is Object {
        optional_text_at(b, "text"@)
    } else {
        None
    }
}

/// Reads the text of a block of an answer.
pub fn read_block_text(b: &Json) -> (r: Option<Option<String>>)
    ensures
        match r {
            Some(t) => block_text(b@) == Some(view_opt(t)),
            None => block_text(b@) is None,
        },
{
    let names: Vec<&'static str> = vec!["text"];
    assert(views(names@) =~= seq!["text"@]);
    let spread = as_record(b, &names, 1);
    let doc = match &spread {
        Some(x) => x,
        None => b,
    };
    match doc {
        Json::Object(_) => read_optional_text_at(doc, "text"),
        _ => None,
    }
}

/// Every block of an answer is one: its text, if any, is a string.
pub open spec fn blocks_ok(blocks: Seq<JsonView>) -> bool {
    forall|i: int| 0 <= i < blocks.len() ==> block_text(#[trigger] blocks[i]) is Some
}

/// Whether every block of an answer is one.
pub fn check_blocks(v: &Vec<Json>) -> (r: bool)
    ensures
        r == blocks_ok(views(v@)),
{
    let ghost a = views(v@);
    let mut i: usize = 0;
    while i < v.len()
        invariant
            i <= v@.len(),
            a == views(v@),
            forall|k: int| 0 <= k < i ==> block_text(#[trigger] a[k]) is Some,
        decreases v@.len() - i,
    {
        assert(a[i as int] == v@[i as int]@);
        if read_block_text(&v[i]).is_none() {
            return false;
        }
        i = i + 1;
    }
    true
}

/// A list is read the same without fences, between plain ones, and between fences
/// that name the format.
pub proof fn fences_do_not_matter(list: Seq<char>)
    requires
        list.len() > 0,
        !is_space(list[0]),
        !is_space(list.last()),
        list[0] != '`',
        list.last() != '`',
    ensures
        unfenced(list) == list,
        unfenced("```"@ + seq!['\n'] + list + seq!['\n'] + "```"@) == list,
        unfenced("```json"@ + seq!['\n'] + list + seq!['\n'] + "```"@) == list,
{
    reveal_strlit("```json");
    reveal_strlit("```");
    assert("```json"@[0] == '`');
    assert("```json"@[3] == 'j');
    assert("```"@[0] == '`');
    assert("```"@.last() == '`');
    trim_of_tight(list);
    if starts_with(list, "```json"@) {
        assert(list.subrange(0, 7)[0] == list[0]);
    }
    if starts_with(list, "```"@) {
        assert(list.subrange(0, 3)[0] == list[0]);
    }
    if ends_with(list, "```"@) {
        assert(list.subrange(list.len() - 3, list.len() as int).last() == list.last());
    }
    padded_trims(list);
    let a = "```"@ + seq!['\n'] + list + seq!['\n'] + "```"@;
    trim_of_tight(a);
    if starts_with(a, "```json"@) {
        assert(a.subrange(0, 7)[3] == a[3]);
    }
    assert(a.subrange(0, 3) =~= "```"@);
    unfenced_rest(a, 3, list);
    let b = "```json"@ + seq!['\n'] + list + seq!['\n'] + "```"@;
    trim_of_tight(b);
    assert(b.subrange(0, 7) =~= "```json"@);
    unfenced_rest(b, 7, list);
}

/// A list between line ends is the list when trimmed.
proof fn padded_trims(list: Seq<char>)
    requires
        list.len() > 0,
        !is_space(list[0]),
        !is_space(list.last()),
    ensures
        trim(seq!['\n'] + list + seq!['\n']) == list,
{
    let s = seq!['\n'] + list + seq!['\n'];
    let t = list + seq!['\n'];
    assert(s.drop_first() =~= t);
    assert(t[0] == list[0]);
    assert(trim_start(t) == t);
    assert(trim_start(s) == t);
    assert(t.last() == '\n');
    assert(t.drop_last() =~= list);
    assert(trim_end(list) == list);
    assert(trim_end(t) == list);
}

/// What stands behind an opening fence of some length, and before the closing one.
proof fn unfenced_rest(text: Seq<char>, n: int, list: Seq<char>)
    requires
        0 <= n,
        text.len() == n + list.len() + 5,
        text.subrange(n, text.len() as int) =~= seq!['\n'] + list + seq!['\n'] + "```"@,
    ensures
        ({
            let t = text.subrange(n, text.len() as int);
            ends_with(t, "```"@) && t.subrange(0, t.len() - 3) == seq!['\n'] + list + seq!['\n']
        }),
{
    reveal_strlit("```");
    let t = text.subrange(n, text.len() as int);
    assert(t.subrange(t.len() - 3, t.len() as int) =~= "```"@);
    assert(t.subrange(0, t.len() - 3) =~= seq!['\n'] + list + seq!['\n']);
}

/// The text is the first of the results, if it is a text and says something.
pub proof fn first_result_counts(a: Seq<JsonView>, t: Seq<char>)
    ensures
        a.len() > 0 && a[0] == JsonView::Text(t) && t.len() > 0 ==> text_in_results(
            JsonView::Array(a),
        ) == Some(t),
        text_in_results(JsonView::Array(a)) is Some ==> a.len() > 0 && a[0] == JsonView::Text(
            text_in_results(JsonView::Array(a))->0,
        ),
        text_in_results(JsonView::Null) is None,
{
}

/// A list is what a list holds; anything else is none.
pub proof fn lists_are_read(a: Seq<JsonView>, e: Seq<char>, j: JsonView)
    ensures
        list_in(Ok(JsonView::Array(a))) == Some(a),
        list_in(Err(e)) is None,
        !(j is Array) ==> list_in(Ok(j)) is None,
        j is Object ==> block_text(j) == optional_text_at(j, "text"@),
{
}

} // verus!
