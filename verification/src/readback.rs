//! Reading a request URL back: the query of a URL as names and values, and the proof
//! that the URL built from search criteria reads back as those criteria.

use vstd::prelude::*;
use vstd::utf8::{decode_utf8, encode_utf8, encode_utf8_decode_utf8, is_ascii_chars};
use crate::encode::{
    is_value_char, lemma_decoded_encoded, lemma_encoded_chars, percent_decoded, percent_encoded,
    starts_with_escape,
};
use crate::query::{
    endpoint_url, item, limit_of, optional_decimal, optional_parameter, parameters_of, url_of,
    CriteriaView, SearchType,
};

verus! {

/// The position of the first `mark` in a text, or the length of the text where it has
/// none.
pub open spec fn find(text: Seq<char>, mark: char) -> nat
    decreases text.len(),
{
    if text.len() == 0 || text[0] == mark {
        0
    } else {
        1 + find(text.drop_first(), mark)
    }
}

/// Whether a text holds no `mark`.
pub open spec fn lacks(text: Seq<char>, mark: char) -> bool {
    forall|i: int| 0 <= i < text.len() ==> #[trigger] text[i] != mark
}

/// The parts of a text between the occurrences of `mark`.
pub open spec fn split(text: Seq<char>, mark: char) -> Seq<Seq<char>>
    decreases text.len(),
{
    let at = find(text, mark);
    if at >= text.len() {
        seq![text]
    } else {
        seq![text.take(at as int)] + split(text.skip(at as int + 1), mark)
    }
}

/// The query of a URL: what stands behind its first `?`, up to the first `#` behind
/// that. Empty where the URL has no `?`.
pub open spec fn query_of(url: Seq<char>) -> Seq<char> {
    let start = find(url, '?');
    if start >= url.len() {
        Seq::empty()
    } else {
        let rest = url.skip(start as int + 1);
        rest.take(find(rest, '#') as int)
    }
}

/// The text that a percent-encoded text stands for.
pub open spec fn decoded_text(raw: Seq<char>) -> Seq<char> {
    decode_utf8(percent_decoded(raw))
}

/// The name and the value of one item of a query: what stands before its first `=`
/// and what stands behind it, both decoded. An item without `=` has an empty value.
pub open spec fn pair_of(item: Seq<char>) -> (Seq<char>, Seq<char>) {
    let at = find(item, '=');
    if at >= item.len() {
        (decoded_text(item), Seq::empty())
    } else {
        (decoded_text(item.take(at as int)), decoded_text(item.skip(at as int + 1)))
    }
}

/// The names and values that the query of a URL holds, in its order.
pub open spec fn parsed_query(url: Seq<char>) -> Seq<(Seq<char>, Seq<char>)> {
    split(query_of(url), '&').map_values(|item: Seq<char>| pair_of(item))
}

/// The pair of a criterion, if it is present.
pub open spec fn present(name: Seq<char>, value: Option<Seq<char>>) -> Seq<
    (Seq<char>, Seq<char>),
> {
    match value {
        Some(text) => seq![(name, text)],
        None => Seq::empty(),
    }
}

/// The names and values that a request for the given criteria and cursor carries:
/// `html_decode` first, then each criterion that is present.
pub open spec fn pairs_of(criteria: CriteriaView, cursor: Option<int>) -> Seq<
    (Seq<char>, Seq<char>),
> {
    seq![("html_decode"@, "true"@)] + present("author"@, criteria.author) + present(
        "subreddit"@,
        criteria.subreddit,
    ) + present("q"@, criteria.search_term) + present(
        "size"@,
        optional_decimal(limit_of(criteria)),
    ) + present("score"@, criteria.score_filter) + present("before"@, optional_decimal(cursor))
}

/// Whether a text is made of lower-case letters and `_` only, as the names of the
/// parameters are.
pub open spec fn is_name(text: Seq<char>) -> bool {
    forall|i: int| 0 <= i < text.len() ==> ('a' <= #[trigger] text[i] <= 'z' || text[i] == '_')
}

proof fn lemma_find_lacking(text: Seq<char>, mark: char)
    requires
        lacks(text, mark),
    ensures
        find(text, mark) == text.len(),
    decreases text.len(),
{
    if text.len() > 0 {
        assert(text[0] != mark);
        let rest = text.drop_first();
        assert forall|i: int| 0 <= i < rest.len() implies #[trigger] rest[i] != mark by {
            assert(rest[i] == text[i + 1]);
        }
        lemma_find_lacking(rest, mark);
    }
}

proof fn lemma_find_behind(front: Seq<char>, back: Seq<char>, mark: char)
    requires
        lacks(front, mark),
    ensures
        find(front + back, mark) == front.len() + find(back, mark),
    decreases front.len(),
{
    if front.len() == 0 {
        assert(front + back =~= back);
    } else {
        assert((front + back)[0] == front[0]);
        assert(front[0] != mark);
        let rest = front.drop_first();
        assert forall|i: int| 0 <= i < rest.len() implies #[trigger] rest[i] != mark by {
            assert(rest[i] == front[i + 1]);
        }
        assert((front + back).drop_first() =~= rest + back);
        lemma_find_behind(rest, back, mark);
    }
}

proof fn lemma_lacks_concat(front: Seq<char>, back: Seq<char>, mark: char)
    requires
        lacks(front, mark),
        lacks(back, mark),
    ensures
        lacks(front + back, mark),
{
    assert forall|i: int| 0 <= i < (front + back).len() implies #[trigger] (front + back)[i]
        != mark by {
        if i < front.len() {
            assert((front + back)[i] == front[i]);
        } else {
            assert((front + back)[i] == back[i - front.len()]);
        }
    }
}

/// The items of a list, each with `mark` in front of it.
pub open spec fn joined(items: Seq<Seq<char>>, mark: char) -> Seq<char>
    decreases items.len(),
{
    if items.len() == 0 {
        Seq::empty()
    } else {
        seq![mark] + items[0] + joined(items.drop_first(), mark)
    }
}

proof fn lemma_joined_concat(first: Seq<Seq<char>>, second: Seq<Seq<char>>, mark: char)
    ensures
        joined(first + second, mark) == joined(first, mark) + joined(second, mark),
    decreases first.len(),
{
    if first.len() == 0 {
        assert(first + second =~= second);
        assert(joined(first, mark) + joined(second, mark) =~= joined(second, mark));
    } else {
        lemma_joined_concat(first.drop_first(), second, mark);
        assert((first + second).drop_first() =~= first.drop_first() + second);
        assert((first + second)[0] == first[0]);
        assert(joined(first + second, mark) =~= joined(first, mark) + joined(second, mark));
    }
}

proof fn lemma_joined_lacks(items: Seq<Seq<char>>, mark: char, other: char)
    requires
        mark != other,
        forall|i: int| 0 <= i < items.len() ==> lacks(#[trigger] items[i], other),
    ensures
        lacks(joined(items, mark), other),
    decreases items.len(),
{
    if items.len() > 0 {
        assert forall|i: int| 0 <= i < items.drop_first().len() implies lacks(
            #[trigger] items.drop_first()[i],
            other,
        ) by {
            assert(items.drop_first()[i] == items[i + 1]);
        }
        lemma_joined_lacks(items.drop_first(), mark, other);
        assert(lacks(items[0], other));
        assert(lacks(seq![mark], other));
        lemma_lacks_concat(seq![mark], items[0], other);
        lemma_lacks_concat(seq![mark] + items[0], joined(items.drop_first(), mark), other);
    }
}

/// Splitting undoes joining, where no item holds the mark.
proof fn lemma_split_joined(first: Seq<char>, rest: Seq<Seq<char>>, mark: char)
    requires
        lacks(first, mark),
        forall|i: int| 0 <= i < rest.len() ==> lacks(#[trigger] rest[i], mark),
    ensures
        split(first + joined(rest, mark), mark) == seq![first] + rest,
    decreases rest.len(),
{
    let text = first + joined(rest, mark);
    if rest.len() == 0 {
        assert(text =~= first);
        lemma_find_lacking(first, mark);
        assert(seq![first] + rest =~= seq![first]);
    } else {
        let tail = joined(rest.drop_first(), mark);
        lemma_find_behind(first, joined(rest, mark), mark);
        assert(joined(rest, mark)[0] == mark);
        assert(find(text, mark) == first.len());
        assert(text.take(first.len() as int) =~= first);
        assert(text.skip(first.len() as int + 1) =~= rest[0] + tail);
        assert forall|i: int| 0 <= i < rest.drop_first().len() implies lacks(
            #[trigger] rest.drop_first()[i],
            mark,
        ) by {
            assert(rest.drop_first()[i] == rest[i + 1]);
        }
        assert(lacks(rest[0], mark));
        lemma_split_joined(rest[0], rest.drop_first(), mark);
        assert(seq![first] + (seq![rest[0]] + rest.drop_first()) =~= seq![first] + rest);
    }
}

proof fn lemma_plain_decoded(text: Seq<char>)
    requires
        lacks(text, '%'),
    ensures
        percent_decoded(text) == encode_utf8(text),
    decreases text.len(),
{
    if text.len() > 0 {
        assert(text[0] != '%');
        assert(!starts_with_escape(text));
        assert forall|i: int| 0 <= i < text.skip(1).len() implies #[trigger] text.skip(1)[i]
            != '%' by {
            assert(text.skip(1)[i] == text[i + 1]);
        }
        lemma_plain_decoded(text.skip(1));
        assert(text.skip(1) =~= text.drop_first());
        assert(seq![text[0]].drop_first() =~= Seq::<char>::empty());
        assert(encode_utf8(Seq::<char>::empty()) =~= Seq::<u8>::empty());
        assert(encode_utf8(seq![text[0]]) =~= vstd::utf8::encode_scalar(text[0] as u32));
    }
}

/// A name reads back as itself.
proof fn lemma_name_decoded(name: Seq<char>)
    requires
        is_name(name),
    ensures
        decoded_text(name) == name,
        lacks(name, '='),
        lacks(name, '&'),
        lacks(name, '#'),
{
    assert forall|i: int| 0 <= i < name.len() implies #[trigger] name[i] != '%' && name[i]
        != '=' && name[i] != '&' && name[i] != '#' by {
        assert('a' <= name[i] <= 'z' || name[i] == '_');
    }
    lemma_plain_decoded(name);
    encode_utf8_decode_utf8(name);
}

/// The item of a name and a value reads back as that name and that value, and holds
/// neither `&` nor `#`.
proof fn lemma_item_reads_back(name: Seq<char>, value: Seq<char>)
    requires
        is_name(name),
    ensures
        pair_of(item(name, value)) == (name, value),
        lacks(item(name, value), '&'),
        lacks(item(name, value), '#'),
{
    let encoded = percent_encoded(encode_utf8(value));
    let text = item(name, value);
    lemma_name_decoded(name);
    lemma_encoded_chars(encode_utf8(value));
    assert forall|i: int| 0 <= i < encoded.len() implies #[trigger] encoded[i] != '&'
        && encoded[i] != '#' by {
        assert(is_value_char(encoded[i]));
    }
    assert(lacks(seq!['='], '&'));
    assert(lacks(seq!['='], '#'));
    lemma_lacks_concat(name, seq!['='], '&');
    lemma_lacks_concat(name + seq!['='], encoded, '&');
    lemma_lacks_concat(name, seq!['='], '#');
    lemma_lacks_concat(name + seq!['='], encoded, '#');
    assert(text =~= name + (seq!['='] + encoded));
    lemma_find_behind(name, seq!['='] + encoded, '=');
    assert((seq!['='] + encoded)[0] == '=');
    assert(find(text, '=') == name.len());
    assert(text.take(name.len() as int) =~= name);
    assert(text.skip(name.len() as int + 1) =~= encoded);
    lemma_decoded_encoded(encode_utf8(value));
    encode_utf8_decode_utf8(value);
}

/// A criterion as the query sees it: the name of its parameter, and its value if it
/// is present.
pub type Field = (Seq<char>, Option<Seq<char>>);

/// The item of a field, if its value is present.
pub open spec fn optional_item(field: Field) -> Seq<Seq<char>> {
    match field.1 {
        Some(text) => seq![item(field.0, text)],
        None => Seq::empty(),
    }
}

/// The items of the fields whose values are present, in the fields' order.
pub open spec fn field_items(fields: Seq<Field>) -> Seq<Seq<char>>
    decreases fields.len(),
{
    if fields.len() == 0 {
        Seq::empty()
    } else {
        field_items(fields.drop_last()) + optional_item(fields.last())
    }
}

/// The parameters of the fields whose values are present, in the fields' order.
pub open spec fn field_parameters(fields: Seq<Field>) -> Seq<char>
    decreases fields.len(),
{
    if fields.len() == 0 {
        Seq::empty()
    } else {
        field_parameters(fields.drop_last()) + optional_parameter(
            fields.last().0,
            fields.last().1,
        )
    }
}

/// The names and values of the fields whose values are present, in the fields' order.
pub open spec fn field_pairs(fields: Seq<Field>) -> Seq<(Seq<char>, Seq<char>)>
    decreases fields.len(),
{
    if fields.len() == 0 {
        Seq::empty()
    } else {
        field_pairs(fields.drop_last()) + present(fields.last().0, fields.last().1)
    }
}

/// The pairs of a list of items.
pub open spec fn pairs_of_items(items: Seq<Seq<char>>) -> Seq<(Seq<char>, Seq<char>)> {
    items.map_values(|item: Seq<char>| pair_of(item))
}

/// The parameters of a list of fields are its items joined by `&`; no item holds `&`
/// or `#`; and the items read back as the fields that are present.
proof fn lemma_fields_read_back(fields: Seq<Field>)
    requires
        forall|i: int| 0 <= i < fields.len() ==> is_name(#[trigger] fields[i].0),
    ensures
        field_parameters(fields) == joined(field_items(fields), '&'),
        forall|i: int|
            0 <= i < field_items(fields).len() ==> lacks(#[trigger] field_items(fields)[i], '&'),
        forall|i: int|
            0 <= i < field_items(fields).len() ==> lacks(#[trigger] field_items(fields)[i], '#'),
        pairs_of_items(field_items(fields)) == field_pairs(fields),
    decreases fields.len(),
{
    if fields.len() == 0 {
        assert(pairs_of_items(field_items(fields)) =~= field_pairs(fields));
    } else {
        let front = fields.drop_last();
        let last = fields.last();
        assert forall|i: int| 0 <= i < front.len() implies is_name(#[trigger] front[i].0) by {
            assert(front[i] == fields[i]);
        }
        lemma_fields_read_back(front);
        assert(is_name(last.0));
        let items = field_items(fields);
        let before = field_items(front);
        let added = optional_item(last);
        lemma_joined_concat(before, added, '&');
        match last.1 {
            Some(text) => {
                lemma_item_reads_back(last.0, text);
                assert(added.drop_first() =~= Seq::<Seq<char>>::empty());
                assert(joined(Seq::<Seq<char>>::empty(), '&') =~= Seq::<char>::empty());
                assert(joined(added, '&') =~= optional_parameter(last.0, last.1));
                assert(pairs_of_items(added) =~= present(last.0, last.1));
            },
            None => {
                assert(joined(added, '&') =~= optional_parameter(last.0, last.1));
                assert(pairs_of_items(added) =~= present(last.0, last.1));
            },
        }
        assert forall|i: int| 0 <= i < items.len() implies lacks(#[trigger] items[i], '&')
            && lacks(items[i], '#') by {
            if i < before.len() {
                assert(items[i] == before[i]);
            } else {
                assert(items[i] == added[i - before.len()]);
            }
        }
        assert(pairs_of_items(items) =~= pairs_of_items(before) + pairs_of_items(added));
    }
}

/// The fields of a request for the given criteria and cursor, in the order in which
/// the URL names them.
pub open spec fn fields_of(criteria: CriteriaView, cursor: Option<int>) -> Seq<Field> {
    seq![
        ("author"@, criteria.author),
        ("subreddit"@, criteria.subreddit),
        ("q"@, criteria.search_term),
        ("size"@, optional_decimal(limit_of(criteria))),
        ("score"@, criteria.score_filter),
        ("before"@, optional_decimal(cursor)),
    ]
}

proof fn lemma_names()
    ensures
        is_name("html_decode"@),
        is_name("true"@),
        is_name("author"@),
        is_name("subreddit"@),
        is_name("q"@),
        is_name("size"@),
        is_name("score"@),
        is_name("before"@),
{
    reveal_strlit("html_decode");
    reveal_strlit("true");
    reveal_strlit("author");
    reveal_strlit("subreddit");
    reveal_strlit("q");
    reveal_strlit("size");
    reveal_strlit("score");
    reveal_strlit("before");
}

proof fn lemma_endpoint_lacks_mark(search_type: SearchType)
    ensures
        lacks(endpoint_url(search_type), '?'),
{
    reveal_strlit("https://api.pushshift.io/reddit/");
    reveal_strlit("submission");
    reveal_strlit("comment");
    reveal_strlit("/search");
    let head = "https://api.pushshift.io/reddit/"@;
    let tail = "/search"@;
    assert(lacks(head, '?'));
    assert(lacks(search_type.endpoint(), '?'));
    assert(lacks(tail, '?'));
    lemma_lacks_concat(head, search_type.endpoint(), '?');
    lemma_lacks_concat(head + search_type.endpoint(), tail, '?');
}

proof fn lemma_field_names(criteria: CriteriaView, cursor: Option<int>)
    ensures
        forall|i: int|
            0 <= i < fields_of(criteria, cursor).len() ==> is_name(
                #[trigger] fields_of(criteria, cursor)[i].0,
            ),
{
    lemma_names();
}

proof fn lemma_push_field(fields: Seq<Field>, field: Field)
    ensures
        field_parameters(fields.push(field)) == field_parameters(fields) + optional_parameter(
            field.0,
            field.1,
        ),
        field_pairs(fields.push(field)) == field_pairs(fields) + present(field.0, field.1),
{
    assert(fields.push(field).drop_last() =~= fields);
}

proof fn lemma_pairs_associative(
    a: Seq<(Seq<char>, Seq<char>)>,
    b: Seq<(Seq<char>, Seq<char>)>,
    c: Seq<(Seq<char>, Seq<char>)>,
)
    ensures
        a + (b + c) == (a + b) + c,
{
    assert(a + (b + c) =~= (a + b) + c);
}

proof fn lemma_fields_unfold(criteria: CriteriaView, cursor: Option<int>)
    ensures
        field_parameters(fields_of(criteria, cursor)) == parameters_of(criteria, cursor),
        seq![("html_decode"@, "true"@)] + field_pairs(fields_of(criteria, cursor)) == pairs_of(
            criteria,
            cursor,
        ),
{
    let a1: Field = ("author"@, criteria.author);
    let a2: Field = ("subreddit"@, criteria.subreddit);
    let a3: Field = ("q"@, criteria.search_term);
    let a4: Field = ("size"@, optional_decimal(limit_of(criteria)));
    let a5: Field = ("score"@, criteria.score_filter);
    let a6: Field = ("before"@, optional_decimal(cursor));
    let f0 = Seq::<Field>::empty();
    let f1 = f0.push(a1);
    let f2 = f1.push(a2);
    let f3 = f2.push(a3);
    let f4 = f3.push(a4);
    let f5 = f4.push(a5);
    let f6 = f5.push(a6);
    assert(f6 =~= fields_of(criteria, cursor));
    lemma_push_field(f0, a1);
    lemma_push_field(f1, a2);
    lemma_push_field(f2, a3);
    lemma_push_field(f3, a4);
    lemma_push_field(f4, a5);
    lemma_push_field(f5, a6);
    assert(field_parameters(f1) =~= optional_parameter(a1.0, a1.1));
    let first = seq![("html_decode"@, "true"@)];
    assert(first + field_pairs(f0) =~= first);
    lemma_pairs_associative(first, field_pairs(f0), present(a1.0, a1.1));
    lemma_pairs_associative(first, field_pairs(f1), present(a2.0, a2.1));
    lemma_pairs_associative(first, field_pairs(f2), present(a3.0, a3.1));
    lemma_pairs_associative(first, field_pairs(f3), present(a4.0, a4.1));
    lemma_pairs_associative(first, field_pairs(f4), present(a5.0, a5.1));
    lemma_pairs_associative(first, field_pairs(f5), present(a6.0, a6.1));
}

/// The URL built for search criteria reads back as those criteria: its query holds
/// `html_decode=true` and then exactly the criteria that are present, each under its
/// name and with the value it was given, whatever characters that value holds.
pub proof fn lemma_url_reads_back(criteria: CriteriaView, cursor: Option<int>)
    ensures
        parsed_query(url_of(criteria, cursor)) == pairs_of(criteria, cursor),
{
    let fields = fields_of(criteria, cursor);
    let items = field_items(fields);
    let first = "html_decode=true"@;
    let url = url_of(criteria, cursor);
    let front = endpoint_url(criteria.search_type);
    lemma_fields_unfold(criteria, cursor);
    lemma_field_names(criteria, cursor);
    lemma_fields_read_back(fields);
    lemma_names();
    let query = first + joined(items, '&');
    // The query is what stands behind the only `?`.
    lemma_endpoint_lacks_mark(criteria.search_type);
    assert(url =~= front + (seq!['?'] + query));
    lemma_find_behind(front, seq!['?'] + query, '?');
    assert((seq!['?'] + query)[0] == '?');
    assert(find(url, '?') == front.len());
    assert(url.skip(front.len() as int + 1) =~= query);
    // Its first item is `html_decode=true`.
    reveal_strlit("html_decode=true");
    reveal_strlit("html_decode");
    reveal_strlit("true");
    assert(first =~= "html_decode"@ + seq!['='] + "true"@);
    assert(percent_encoded(encode_utf8("true"@)) =~= "true"@) by {
        assert(vstd::utf8::is_ascii_chars("true"@));
        vstd::utf8::is_ascii_chars_encode_utf8("true"@);
        assert(encode_utf8("true"@) =~= seq![0x74u8, 0x72u8, 0x75u8, 0x65u8]);
        reveal_with_fuel(percent_encoded, 5);
    }
    assert(first == item("html_decode"@, "true"@));
    lemma_item_reads_back("html_decode"@, "true"@);
    // No `#` cuts the query short, and `&` stands between the items only.
    lemma_joined_lacks(items, '&', '#');
    lemma_lacks_concat(first, joined(items, '&'), '#');
    lemma_find_lacking(query, '#');
    assert(query.take(query.len() as int) =~= query);
    assert(query_of(url) == query);
    lemma_split_joined(first, items, '&');
    assert(pairs_of_items(seq![first] + items) =~= seq![pair_of(first)] + pairs_of_items(items));
}

proof fn lemma_ascii_concat(front: Seq<char>, back: Seq<char>)
    requires
        is_ascii_chars(front),
        is_ascii_chars(back),
    ensures
        is_ascii_chars(front + back),
{
    assert forall|i: int| 0 <= i < (front + back).len() implies '\0' <= #[trigger] (front
        + back)[i] <= '\u{7f}' by {
        if i < front.len() {
            assert((front + back)[i] == front[i]);
        } else {
            assert((front + back)[i] == back[i - front.len()]);
        }
    }
}

proof fn lemma_parameter_is_ascii(name: Seq<char>, value: Option<Seq<char>>)
    requires
        is_name(name),
    ensures
        is_ascii_chars(optional_parameter(name, value)),
{
    match value {
        Some(text) => {
            let encoded = percent_encoded(encode_utf8(text));
            lemma_encoded_chars(encode_utf8(text));
            assert forall|i: int| 0 <= i < encoded.len() implies '\0' <= #[trigger] encoded[i]
                <= '\u{7f}' by {
                assert(is_value_char(encoded[i]));
            }
            assert forall|i: int| 0 <= i < name.len() implies '\0' <= #[trigger] name[i]
                <= '\u{7f}' by {
                assert('a' <= name[i] <= 'z' || name[i] == '_');
            }
            assert(is_ascii_chars(seq!['&']));
            assert(is_ascii_chars(seq!['=']));
            lemma_ascii_concat(name, seq!['=']);
            lemma_ascii_concat(name + seq!['='], encoded);
            lemma_ascii_concat(seq!['&'], item(name, text));
        },
        None => {},
    }
}

/// A request URL holds ASCII characters only, whatever the criteria hold.
pub proof fn lemma_url_is_ascii(criteria: CriteriaView, cursor: Option<int>)
    ensures
        is_ascii_chars(url_of(criteria, cursor)),
{
    lemma_names();
    reveal_strlit("https://api.pushshift.io/reddit/");
    reveal_strlit("submission");
    reveal_strlit("comment");
    reveal_strlit("/search");
    reveal_strlit("html_decode=true");
    let head = "https://api.pushshift.io/reddit/"@;
    let kind = criteria.search_type.endpoint();
    let tail = "/search"@;
    let first = "html_decode=true"@;
    assert(is_ascii_chars(head));
    assert(is_ascii_chars(kind));
    assert(is_ascii_chars(tail));
    assert(is_ascii_chars(first));
    assert(is_ascii_chars(seq!['?']));
    lemma_ascii_concat(head, kind);
    lemma_ascii_concat(head + kind, tail);
    lemma_ascii_concat(endpoint_url(criteria.search_type), seq!['?']);
    lemma_ascii_concat(endpoint_url(criteria.search_type) + seq!['?'], first);
    let p1 = optional_parameter("author"@, criteria.author);
    let p2 = optional_parameter("subreddit"@, criteria.subreddit);
    let p3 = optional_parameter("q"@, criteria.search_term);
    let p4 = optional_parameter("size"@, optional_decimal(limit_of(criteria)));
    let p5 = optional_parameter("score"@, criteria.score_filter);
    let p6 = optional_parameter("before"@, optional_decimal(cursor));
    lemma_parameter_is_ascii("author"@, criteria.author);
    lemma_parameter_is_ascii("subreddit"@, criteria.subreddit);
    lemma_parameter_is_ascii("q"@, criteria.search_term);
    lemma_parameter_is_ascii("size"@, optional_decimal(limit_of(criteria)));
    lemma_parameter_is_ascii("score"@, criteria.score_filter);
    lemma_parameter_is_ascii("before"@, optional_decimal(cursor));
    lemma_ascii_concat(p1, p2);
    lemma_ascii_concat(p1 + p2, p3);
    lemma_ascii_concat(p1 + p2 + p3, p4);
    lemma_ascii_concat(p1 + p2 + p3 + p4, p5);
    lemma_ascii_concat(p1 + p2 + p3 + p4 + p5, p6);
    lemma_ascii_concat(
        endpoint_url(criteria.search_type) + seq!['?'] + first,
        parameters_of(criteria, cursor),
    );
}

} // verus!
