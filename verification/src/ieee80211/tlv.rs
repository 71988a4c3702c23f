//! Lists of elements, each an identifier octet, a length octet and a body
//! of that many octets.

use vstd::prelude::*;

verus! {

/// One element of a list.
pub struct Element {
    pub id: u8,
    pub body: Seq<u8>,
}

/// Whether a complete element starts at `pos`.
pub open spec fn complete_at(s: Seq<u8>, pos: int) -> bool {
    0 <= pos && pos + 2 <= s.len() && pos + 2 + s[pos + 1] <= s.len()
}

/// Where the element at `pos` ends.
pub open spec fn end_at(s: Seq<u8>, pos: int) -> int {
    pos + 2 + s[pos + 1]
}

/// The element that starts at `pos`.
pub open spec fn element_at(s: Seq<u8>, pos: int) -> Element {
    Element { id: s[pos], body: s.subrange(pos + 2, end_at(s, pos)) }
}

/// The elements from `pos` on, up to the first incomplete one.
pub open spec fn elements_from(s: Seq<u8>, pos: int) -> Seq<Element>
    decreases s.len() - pos,
{
    if complete_at(s, pos) {
        seq![element_at(s, pos)] + elements_from(s, end_at(s, pos))
    } else {
        Seq::empty()
    }
}

/// The offset of the first element from `pos` on that has the identifier.
pub open spec fn offset_from(s: Seq<u8>, pos: int, id: u8) -> Option<int>
    decreases s.len() - pos,
{
    if !complete_at(s, pos) {
        None
    } else if s[pos] == id {
        Some(pos)
    } else {
        offset_from(s, end_at(s, pos), id)
    }
}

/// The first element of a list that has the identifier.
pub open spec fn first_with(list: Seq<Element>, id: u8) -> Option<Element>
    decreases list.len(),
{
    if list.len() == 0 {
        None
    } else if list[0].id == id {
        Some(list[0])
    } else {
        first_with(list.drop_first(), id)
    }
}

/// The offset found is that of the first element with the identifier.
pub proof fn lemma_offset_is_first(s: Seq<u8>, pos: int, id: u8)
    ensures
        match offset_from(s, pos, id) {
            Some(p) => {
                &&& pos <= p
                &&& complete_at(s, p)
                &&& s[p] == id
                &&& first_with(elements_from(s, pos), id) == Some(element_at(s, p))
            },
            None => first_with(elements_from(s, pos), id) is None,
        },
    decreases s.len() - pos,
{
    if complete_at(s, pos) {
        let rest = elements_from(s, end_at(s, pos));
        assert((seq![element_at(s, pos)] + rest).drop_first() =~= rest);
        if s[pos] != id {
            lemma_offset_is_first(s, end_at(s, pos), id);
        }
    }
}

/// A list that is one whole element holds just that element.
pub proof fn lemma_single(s: Seq<u8>, pos: int)
    requires
        complete_at(s, pos),
        end_at(s, pos) == s.len(),
    ensures
        elements_from(s, pos) == seq![element_at(s, pos)],
{
    assert(elements_from(s, end_at(s, pos)) =~= Seq::<Element>::empty());
    assert(elements_from(s, pos) =~= seq![element_at(s, pos)]);
}

/// The end of the element at `pos`, where a complete one starts there.
pub fn next_end(s: &[u8], pos: usize) -> (r: Option<usize>)
    requires
        pos <= s@.len(),
    ensures
        match r {
            Some(end) => complete_at(s@, pos as int) && end == end_at(s@, pos as int),
            None => !complete_at(s@, pos as int),
        },
{
    let n: usize = s.len();
    if n - pos < 2 {
        return None;
    }
    let len: usize = s[pos + 1] as usize;
    if n - pos - 2 < len {
        return None;
    }
    Some(pos + 2 + len)
}

} // verus!
