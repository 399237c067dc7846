//! Text operations shared by the other modules: the order in which paths are
//! listed, and joining a list of texts with a separator.

use vstd::prelude::*;
use vstd::string::StringExecFns;
use vstd::utf8::*;

verus! {

/// The texts held by a sequence of strings.
pub open spec fn texts(strings: Seq<String>) -> Seq<Seq<char>> {
    strings.map_values(|s: String| s@)
}

/// A list with the same texts.
pub fn copy_texts(list: &Vec<String>) -> (copy: Vec<String>)
    ensures
        texts(copy@) == texts(list@),
{
    let mut copy: Vec<String> = Vec::new();
    let mut i: usize = 0;
    while i < list.len()
        invariant
            i <= list@.len(),
            copy@.len() == i,
            forall|j: int| 0 <= j < i ==> copy@[j]@ == list@[j]@,
        decreases list@.len() - i,
    {
        copy.push(list[i].clone());
        i += 1;
    }
    assert(texts(copy@) =~= texts(list@));
    copy
}

/// `a` and `b` agree on their first `k` bytes, and at position `k` either `a`
/// ends while `b` goes on, or `a` holds the smaller byte.
pub open spec fn diverge_at(a: Seq<u8>, b: Seq<u8>, k: int) -> bool {
    &&& 0 <= k <= a.len()
    &&& k < b.len()
    &&& forall|i: int| 0 <= i < k ==> a[i] == b[i]
    &&& k < a.len() ==> a[k] < b[k]
}

/// Lexicographic order on byte strings: `a` comes strictly before `b`.
pub open spec fn bytes_before(a: Seq<u8>, b: Seq<u8>) -> bool {
    exists|k: int| diverge_at(a, b, k)
}

/// The order in which texts are listed: lexicographic by their UTF-8 bytes,
/// the order of `str`.
pub open spec fn text_before(a: Seq<char>, b: Seq<char>) -> bool {
    bytes_before(encode_utf8(a), encode_utf8(b))
}

/// Every text stands before all texts that follow it in `list`.
pub open spec fn ascending(list: Seq<Seq<char>>) -> bool {
    forall|i: int, j: int| 0 <= i < j < list.len() ==> text_before(list[i], list[j])
}

/// No byte string comes before itself, and of two byte strings at most one
/// comes before the other.
pub proof fn lemma_bytes_before_asymmetric(a: Seq<u8>, b: Seq<u8>)
    requires
        bytes_before(a, b),
    ensures
        !bytes_before(b, a),
        a != b,
{
    let k = choose|k: int| diverge_at(a, b, k);
    if bytes_before(b, a) {
        let m = choose|m: int| diverge_at(b, a, m);
        if k < m {
            assert(b[k] == a[k]);
        } else if m < k {
            assert(a[m] == b[m]);
        }
    }
}

/// The order on byte strings is transitive.
pub proof fn lemma_bytes_before_transitive(a: Seq<u8>, b: Seq<u8>, c: Seq<u8>)
    requires
        bytes_before(a, b),
        bytes_before(b, c),
    ensures
        bytes_before(a, c),
{
    let k = choose|k: int| diverge_at(a, b, k);
    let m = choose|m: int| diverge_at(b, c, m);
    let n = if k <= m { k } else { m };
    assert forall|i: int| 0 <= i < n implies a[i] == c[i] by {
        assert(a[i] == b[i]);
        assert(b[i] == c[i]);
    }
    assert(diverge_at(a, c, n));
}

/// The order on texts is irreflexive, asymmetric and transitive.
pub proof fn lemma_text_before_strict(a: Seq<char>, b: Seq<char>, c: Seq<char>)
    ensures
        !text_before(a, a),
        text_before(a, b) ==> !text_before(b, a) && a != b,
        text_before(a, b) && text_before(b, c) ==> text_before(a, c),
{
    if text_before(a, a) {
        lemma_bytes_before_asymmetric(encode_utf8(a), encode_utf8(a));
    }
    if text_before(a, b) {
        lemma_bytes_before_asymmetric(encode_utf8(a), encode_utf8(b));
        if text_before(b, c) {
            lemma_bytes_before_transitive(encode_utf8(a), encode_utf8(b), encode_utf8(c));
        }
    }
}

/// Putting `item` into an ascending list at the place where it belongs keeps
/// the list ascending, and adds `item` to what it holds and nothing else.
pub proof fn lemma_insert_ascending(list: Seq<Seq<char>>, pos: int, item: Seq<char>)
    requires
        ascending(list),
        0 <= pos <= list.len(),
        forall|j: int| 0 <= j < pos ==> text_before(list[j], item),
        pos < list.len() ==> text_before(item, list[pos]),
    ensures
        ascending(list.insert(pos, item)),
        forall|t: Seq<char>| #[trigger]
            list.insert(pos, item).contains(t) <==> (list.contains(t) || t == item),
{
    let longer = list.insert(pos, item);
    list.insert_ensures(pos, item);
    assert forall|j: int| pos <= j < list.len() implies text_before(item, list[j]) by {
        if pos < j {
            lemma_text_before_strict(item, list[pos], list[j]);
        }
    }
    assert forall|i: int, j: int| 0 <= i < j < longer.len() implies text_before(
        longer[i],
        longer[j],
    ) by {
        if i < pos {
            assert(longer[i] == list[i]);
        } else if i > pos {
            assert(longer[i] == list[i - 1]);
        }
        if j < pos {
            assert(longer[j] == list[j]);
        } else if j > pos {
            assert(longer[j] == list[j - 1]);
        }
    }
    assert forall|t: Seq<char>| longer.contains(t) <==> (list.contains(t) || t == item) by {
        if longer.contains(t) {
            let i = choose|i: int| 0 <= i < longer.len() && longer[i] == t;
            if i < pos {
                assert(list[i] == t);
            } else if i > pos {
                assert(list[i - 1] == t);
            }
        }
        if list.contains(t) {
            let i = choose|i: int| 0 <= i < list.len() && list[i] == t;
            if i < pos {
                assert(longer[i] == t);
            } else {
                assert(longer[i + 1] == t);
            }
        }
        if t == item {
            assert(longer[pos] == t);
        }
    }
}

/// An ascending list holds nothing twice.
pub proof fn lemma_ascending_distinct(list: Seq<Seq<char>>)
    requires
        ascending(list),
    ensures
        list.no_duplicates(),
{
    assert forall|i: int, j: int| 0 <= i < list.len() && 0 <= j < list.len() && i != j implies list[i]
        != list[j] by {
        if i < j {
            lemma_text_before_strict(list[i], list[j], list[j]);
        } else {
            lemma_text_before_strict(list[j], list[i], list[i]);
        }
    }
}

/// Two ascending lists that hold the same texts are the same list.
pub proof fn lemma_ascending_unique(a: Seq<Seq<char>>, b: Seq<Seq<char>>)
    requires
        ascending(a),
        ascending(b),
        forall|t: Seq<char>| a.contains(t) <==> b.contains(t),
    ensures
        a == b,
    decreases a.len(),
{
    if a.len() == 0 {
        if b.len() > 0 {
            assert(b.contains(b[0]));
        }
        assert(a =~= b);
    } else {
        let top = a.last();
        assert(a.contains(top));
        assert(b.contains(top));
        let j = choose|j: int| 0 <= j < b.len() && b[j] == top;
        if j < b.len() - 1 {
            // something of b stands after top, and a holds it before or at top
            let over = b.last();
            assert(b.contains(over));
            assert(a.contains(over));
            let i = choose|i: int| 0 <= i < a.len() && a[i] == over;
            if i < a.len() - 1 {
                lemma_text_before_strict(over, top, over);
            } else {
                lemma_text_before_strict(top, over, top);
            }
            assert(false);
        }
        let a0 = a.drop_last();
        let b0 = b.drop_last();
        assert forall|t: Seq<char>| a0.contains(t) <==> b0.contains(t) by {
            if a0.contains(t) {
                let i = choose|i: int| 0 <= i < a0.len() && a0[i] == t;
                assert(a[i] == t);
                assert(a.contains(t));
                lemma_text_before_strict(t, top, t);
                let k = choose|k: int| 0 <= k < b.len() && b[k] == t;
                assert(b0[k] == t);
            }
            if b0.contains(t) {
                let k = choose|k: int| 0 <= k < b0.len() && b0[k] == t;
                assert(b[k] == t);
                assert(b.contains(t));
                lemma_text_before_strict(t, top, t);
                let i = choose|i: int| 0 <= i < a.len() && a[i] == t;
                assert(a0[i] == t);
            }
        }
        lemma_ascending_unique(a0, b0);
        assert(a =~= a0.push(top));
        assert(b =~= b0.push(top));
    }
}

/// How one text stands to another in the listing order.
#[derive(Clone, Copy, Debug, PartialEq, Eq)]
pub enum TextOrder {
    Before,
    Same,
    After,
}

/// Compares two texts in the listing order.
pub fn text_order(a: &str, b: &str) -> (order: TextOrder)
    ensures
        order is Before <==> text_before(a@, b@),
        order is Same <==> a@ == b@,
        order is After <==> text_before(b@, a@),
{
    let x = a.as_bytes();
    let y = b.as_bytes();
    let mut i: usize = 0;
    while i < x.len() && i < y.len()
        invariant
            x@ == encode_utf8(a@),
            y@ == encode_utf8(b@),
            i <= x@.len(),
            i <= y@.len(),
            forall|j: int| 0 <= j < i ==> x@[j] == y@[j],
        decreases x@.len() - i,
    {
        if x[i] < y[i] {
            proof {
                assert(diverge_at(x@, y@, i as int));
                lemma_bytes_before_asymmetric(x@, y@);
            }
            return TextOrder::Before;
        }
        if y[i] < x[i] {
            proof {
                assert(diverge_at(y@, x@, i as int));
                lemma_bytes_before_asymmetric(y@, x@);
            }
            return TextOrder::After;
        }
        i += 1;
    }
    if i < y.len() {
        proof {
            assert(diverge_at(x@, y@, i as int));
            lemma_bytes_before_asymmetric(x@, y@);
        }
        TextOrder::Before
    } else if i < x.len() {
        proof {
            assert(diverge_at(y@, x@, i as int));
            lemma_bytes_before_asymmetric(y@, x@);
        }
        TextOrder::After
    } else {
        proof {
            assert(x@ =~= y@);
            encode_utf8_decode_utf8(a@);
            encode_utf8_decode_utf8(b@);
            lemma_text_before_strict(a@, a@, a@);
        }
        TextOrder::Same
    }
}

/// Puts `item` into an ascending list, unless the list holds it already.
pub fn insert_ascending(list: &mut Vec<String>, item: String)
    requires
        ascending(texts(old(list)@)),
    ensures
        ascending(texts(final(list)@)),
        forall|t: Seq<char>| #[trigger]
            texts(final(list)@).contains(t) <==> (texts(old(list)@).contains(t) || t == item@),
{
    let mut i: usize = 0;
    while i < list.len()
        invariant
            i <= list@.len(),
            list@ == old(list)@,
            ascending(texts(list@)),
            forall|j: int| 0 <= j < i ==> text_before(texts(list@)[j], item@),
        decreases list@.len() - i,
    {
        match text_order(list[i].as_str(), item.as_str()) {
            TextOrder::Before => {
                i += 1;
            },
            TextOrder::Same => {
                assert(texts(list@)[i as int] == item@);
                return ;
            },
            TextOrder::After => {
                let ghost added = item@;
                proof {
                    assert(texts(list@)[i as int] == list@[i as int]@);
                    lemma_insert_ascending(texts(list@), i as int, added);
                    assert(texts(list@.insert(i as int, item)) =~= texts(list@).insert(
                        i as int,
                        added,
                    ));
                }
                list.insert(i, item);
                assert(texts(list@) == texts(old(list)@).insert(i as int, added));
                return ;
            },
        }
    }
    let ghost added = item@;
    proof {
        lemma_insert_ascending(texts(list@), i as int, added);
        assert(texts(list@.push(item)) =~= texts(list@).insert(i as int, added));
    }
    list.push(item);
    assert(texts(list@) == texts(old(list)@).insert(i as int, added));
}

/// The parts written one after another, with the separator between each two
/// neighbours.
pub open spec fn joined(parts: Seq<Seq<char>>, separator: Seq<char>) -> Seq<char>
    decreases parts.len(),
{
    if parts.len() == 0 {
        Seq::empty()
    } else if parts.len() == 1 {
        parts[0]
    } else {
        joined(parts.drop_last(), separator) + separator + parts.last()
    }
}

/// Joins the parts with the separator.
pub fn join(parts: &Vec<String>, separator: &str) -> (line: String)
    ensures
        line@ == joined(texts(parts@), separator@),
{
    let mut line = String::new();
    let mut i: usize = 0;
    while i < parts.len()
        invariant
            i <= parts@.len(),
            line@ == joined(texts(parts@).take(i as int), separator@),
        decreases parts@.len() - i,
    {
        let ghost before = texts(parts@).take(i as int);
        let ghost after = texts(parts@).take(i + 1);
        if i > 0 {
            line.append(separator);
        }
        line.append(parts[i].as_str());
        proof {
            assert(after.drop_last() =~= before);
            assert(after.last() == parts@[i as int]@);
            if i == 0 {
                assert(line@ =~= after[0]);
            }
        }
        i += 1;
    }
    assert(texts(parts@).take(i as int) =~= texts(parts@));
    line
}

} // verus!
