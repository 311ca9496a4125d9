//! The header model of the dispatch pipeline: a list of name/value pairs and
//! the one mutation the proxy needs — set a header, replacing any values the
//! list already held under that name (zero, one, or several). Header names
//! compare up to ASCII case, as HTTP requires.

use vstd::prelude::*;

use crate::strutil::seq_eq_ignore_ascii_case;
use crate::strutil::str_eq_ignore_ascii_case;

verus! {

/// One HTTP header: a name and a value.
#[derive(Debug)]
pub struct Header {
    pub name: String,
    pub value: String,
}

/// The mathematical value of a [`Header`]: both strings as character
/// sequences.
pub ghost struct HeaderView {
    pub name: Seq<char>,
    pub value: Seq<char>,
}

impl View for Header {
    type V = HeaderView;

    open spec fn view(&self) -> HeaderView {
        HeaderView { name: self.name@, value: self.value@ }
    }
}

impl Clone for Header {
    fn clone(&self) -> (r: Self)
        ensures
            r == *self,
    {
        Header { name: self.name.clone(), value: self.value.clone() }
    }
}

/// The values of a whole header list.
pub open spec fn views_of(s: Seq<Header>) -> Seq<HeaderView> {
    s.map_values(|h: Header| h@)
}

/// Whether a header carries this name, up to ASCII case.
pub open spec fn header_named(h: HeaderView, name: Seq<char>) -> bool {
    seq_eq_ignore_ascii_case(h.name, name)
}

/// The list with every header of this name removed; all other headers are
/// kept, in their order.
pub open spec fn remove_named(s: Seq<HeaderView>, name: Seq<char>) -> Seq<HeaderView>
    decreases s.len(),
{
    if s.len() == 0 {
        s
    } else if header_named(s.last(), name) {
        remove_named(s.drop_last(), name)
    } else {
        remove_named(s.drop_last(), name).push(s.last())
    }
}

/// How many headers of the list carry this name.
pub open spec fn count_named(s: Seq<HeaderView>, name: Seq<char>) -> nat
    decreases s.len(),
{
    if s.len() == 0 {
        0
    } else {
        count_named(s.drop_last(), name) + (if header_named(s.last(), name) {
            1nat
        } else {
            0nat
        })
    }
}

proof fn lemma_count_push(s: Seq<HeaderView>, h: HeaderView, name: Seq<char>)
    ensures
        count_named(s.push(h), name) == count_named(s, name) + (if header_named(h, name) {
            1nat
        } else {
            0nat
        }),
{
    assert(s.push(h).drop_last() =~= s);
}

proof fn lemma_count_remove_same(s: Seq<HeaderView>, name: Seq<char>)
    ensures
        count_named(remove_named(s, name), name) == 0,
    decreases s.len(),
{
    if s.len() > 0 {
        lemma_count_remove_same(s.drop_last(), name);
        if !header_named(s.last(), name) {
            lemma_count_push(remove_named(s.drop_last(), name), s.last(), name);
        }
    }
}

proof fn lemma_count_remove_other(s: Seq<HeaderView>, name: Seq<char>, other: Seq<char>)
    requires
        !seq_eq_ignore_ascii_case(name, other),
    ensures
        count_named(remove_named(s, name), other) == count_named(s, other),
    decreases s.len(),
{
    if s.len() > 0 {
        lemma_count_remove_other(s.drop_last(), name, other);
        if header_named(s.last(), name) {
            // the removed header cannot carry `other` too: two names equal to
            // the same header's name up to case are equal to each other
            assert(!header_named(s.last(), other));
        } else {
            lemma_count_push(remove_named(s.drop_last(), name), s.last(), other);
        }
    }
}

/// The law of the single mutation primitive: after setting a header, exactly
/// one header of that name stands in the list — however many stood there
/// before — and headers of every other name are as numerous as before.
pub proof fn lemma_set_header_exactly_once(
    s: Seq<HeaderView>,
    h: HeaderView,
    name: Seq<char>,
    other: Seq<char>,
)
    requires
        header_named(h, name),
    ensures
        count_named(remove_named(s, name).push(h), name) == 1,
        !seq_eq_ignore_ascii_case(name, other) ==> count_named(
            remove_named(s, name).push(h),
            other,
        ) == count_named(s, other),
{
    lemma_count_remove_same(s, name);
    lemma_count_push(remove_named(s, name), h, name);
    if !seq_eq_ignore_ascii_case(name, other) {
        lemma_count_remove_other(s, name, other);
        lemma_count_push(remove_named(s, name), h, other);
        assert(!header_named(h, other));
    }
}

/// Removes every header whose name equals `header_name` up to ASCII case;
/// the remaining headers keep their order.
pub fn remove_all_headers(headers: &mut Vec<Header>, header_name: &str)
    ensures
        views_of(final(headers)@) == remove_named(views_of(old(headers)@), header_name@),
{
    let ghost orig = headers@;
    let mut kept: Vec<Header> = Vec::new();
    let mut i: usize = 0;
    while i < headers.len()
        invariant
            0 <= i <= orig.len(),
            headers@ == orig,
            views_of(kept@) == remove_named(views_of(orig.take(i as int)), header_name@),
        decreases orig.len() - i,
    {
        proof {
            assert(views_of(orig.take(i + 1)).drop_last() =~= views_of(orig.take(i as int)));
            assert(views_of(orig.take(i + 1)).last() == orig[i as int]@);
        }
        if !str_eq_ignore_ascii_case(headers[i].name.as_str(), header_name) {
            kept.push(headers[i].clone());
        }
        i = i + 1;
    }
    proof {
        assert(orig.take(orig.len() as int) =~= orig);
    }
    *headers = kept;
}

/// The single header-mutation primitive of the proxy: removes every value
/// under the name and appends exactly one header `name: value`.
pub fn set_header_replacing(headers: &mut Vec<Header>, name: &str, value: &str)
    ensures
        views_of(final(headers)@) == remove_named(views_of(old(headers)@), name@).push(
            HeaderView { name: name@, value: value@ },
        ),
{
    remove_all_headers(headers, name);
    let h = Header { name: name.to_owned(), value: value.to_owned() };
    let ghost removed = views_of(headers@);
    headers.push(h);
    proof {
        assert(views_of(headers@) =~= removed.push(HeaderView { name: name@, value: value@ }));
    }
}

} // verus!
