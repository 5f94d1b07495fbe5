//! Text helpers that the rendering of a scope path is built from.

use vstd::prelude::*;
use vstd::string::StringExecFns;
use vstd::string::StringSliceAdditionalSpecFns;
use vstd::utf8::encode_utf8_decode_utf8;

verus! {

/// The items of `items`, in order, with one space between neighbours.
pub open spec fn joined(items: Seq<Seq<char>>) -> Seq<char>
    decreases items.len(),
{
    if items.len() == 0 {
        Seq::empty()
    } else if items.len() == 1 {
        items[0]
    } else {
        joined(items.drop_last()) + " "@ + items.last()
    }
}

/// The texts that a vector of strings holds.
pub open spec fn texts(items: Seq<String>) -> Seq<Seq<char>> {
    Seq::new(items.len(), |i: int| items[i]@)
}

/// Joining one item more appends it, behind a space unless it is the first.
pub proof fn lemma_joined_push(items: Seq<Seq<char>>, item: Seq<char>)
    ensures
        joined(items.push(item)) == if items.len() == 0 {
            item
        } else {
            joined(items) + " "@ + item
        },
{
    assert(items.push(item).drop_last() =~= items);
}

/// Whether two string slices hold the same text.
pub fn same_text(a: &str, b: &str) -> (same: bool)
    ensures
        same == (a@ == b@),
{
    let x = a.as_bytes();
    let y = b.as_bytes();
    proof {
        // Two texts with the same encoding decode to the same text.
        encode_utf8_decode_utf8(a@);
        encode_utf8_decode_utf8(b@);
    }
    if x.len() != y.len() {
        return false;
    }
    let mut i: usize = 0;
    while i < x.len()
        invariant
            i <= x.len(),
            x.len() == y.len(),
            x@ == a.spec_bytes(),
            y@ == b.spec_bytes(),
            forall|k: int| 0 <= k < i ==> x@[k] == y@[k],
        decreases x.len() - i,
    {
        if x[i] != y[i] {
            return false;
        }
        i += 1;
    }
    assert(x@ =~= y@);
    true
}

/// Appends the items of `items` to `buf`, with one space between neighbours.
pub fn append_joined(buf: &mut String, items: &Vec<String>)
    ensures
        final(buf)@ == old(buf)@ + joined(texts(items@)),
{
    let ghost start = buf@;
    let mut i: usize = 0;
    while i < items.len()
        invariant
            i <= items.len(),
            buf@ == start + joined(texts(items@).take(i as int)),
        decreases items.len() - i,
    {
        proof {
            let done = texts(items@).take(i as int);
            lemma_joined_push(done, items@[i as int]@);
            assert(texts(items@).take(i + 1) =~= done.push(items@[i as int]@));
        }
        if i > 0 {
            buf.append(" ");
        }
        buf.append(items[i].as_str());
        i += 1;
    }
    assert(texts(items@).take(items.len() as int) =~= texts(items@));
}

} // verus!
