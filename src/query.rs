use vstd::prelude::*;

use crate::aggregation::ids_view;
use crate::entities::DogQuery;
use crate::headers::{is_text, is_text_byte};
use crate::pass_through::{decimal, decimal_bytes};
use crate::restful::header_text;
use vstd::utf8::encode_utf8;

verus! {

/// The ASCII decimal text of an integer, with a leading `-` when negative.
pub open spec fn signed_decimal(n: int) -> Seq<u8> {
    if n < 0 {
        seq![45u8] + decimal((-n) as nat)
    } else {
        decimal(n as nat)
    }
}

proof fn lemma_decimal_is_text(n: nat)
    ensures
        is_text(decimal(n)),
    decreases n,
{
    if n >= 10 {
        lemma_decimal_is_text(n / 10);
        let d = decimal(n);
        assert forall|i: int| 0 <= i < d.len() implies is_text_byte(#[trigger] d[i]) by {
            if i < d.len() - 1 {
                assert(d[i] == decimal(n / 10)[i]);
            }
        }
    }
}

/// The decimal text of `n`.
pub fn int_text(n: i32) -> (r: String)
    ensures
        encode_utf8(r@) == signed_decimal(n as int),
{
    let mut bytes: Vec<u8> = Vec::new();
    let mag: u32 = if n < 0 {
        bytes.push(45);
        (0i64 - n as i64) as u32
    } else {
        n as u32
    };
    let mut digits = decimal_bytes(mag as usize);
    bytes.append(&mut digits);
    proof {
        lemma_decimal_is_text(mag as nat);
        assert(bytes@ =~= signed_decimal(n as int));
        assert forall|i: int| 0 <= i < bytes@.len() implies is_text_byte(#[trigger] bytes@[i]) by {
            if n < 0 && i > 0 {
                assert(bytes@[i] == decimal(mag as nat)[i - 1]);
            }
        }
    }
    match header_text(&bytes) {
        Some(s) => s,
        None => String::new(),
    }
}

/// The ids, separated by commas.
pub open spec fn joined(ids: Seq<Seq<char>>) -> Seq<char>
    decreases ids.len(),
{
    if ids.len() == 0 {
        Seq::empty()
    } else if ids.len() == 1 {
        ids[0]
    } else {
        joined(ids.drop_last()) + ","@ + ids.last()
    }
}

pub fn join_ids(ids: &Vec<String>) -> (r: String)
    ensures
        r@ == joined(ids_view(ids@)),
{
    let ghost iv = ids_view(ids@);
    let mut r = String::new();
    for i in 0..ids.len()
        invariant
            iv == ids_view(ids@),
            r@ == joined(iv.subrange(0, i as int)),
    {
        proof {
            assert(iv.subrange(0, i + 1).drop_last() =~= iv.subrange(0, i as int));
        }
        if i == 0 {
            r = ids[0].clone();
        } else {
            r = r.concat(",").concat(ids[i].as_str());
        }
    }
    proof {
        assert(iv.subrange(0, iv.len() as int) =~= iv);
    }
    r
}

/// A named text value, as the UTF-8 bytes of the value.
pub open spec fn text_pair(key: Seq<char>, value: Seq<char>) -> Seq<(Seq<char>, Seq<u8>)> {
    seq![(key, encode_utf8(value))]
}

/// The query pairs of a dog lookup, in this order: `id`, `id_in` (the ids
/// separated by commas), `owner_id`, then `page` and `size`; a field that is
/// not set gives no pair.
pub open spec fn dog_query_pairs(q: DogQuery) -> Seq<(Seq<char>, Seq<u8>)> {
    (match q.id {
        Some(id) => text_pair("id"@, id@),
        None => Seq::empty(),
    }) + (match q.id_in {
        Some(ids) => text_pair("id_in"@, joined(ids_view(ids@))),
        None => Seq::empty(),
    }) + (match q.owner_id {
        Some(o) => text_pair("owner_id"@, o@),
        None => Seq::empty(),
    }) + (match q.pagination {
        Some(p) => seq![("page"@, signed_decimal(p.page as int)), ("size"@, signed_decimal(p.size as int))],
        None => Seq::empty(),
    })
}

pub open spec fn pairs_view(pairs: Seq<(String, String)>) -> Seq<(Seq<char>, Seq<u8>)> {
    pairs.map_values(|p: (String, String)| (p.0@, encode_utf8(p.1@)))
}

impl DogQuery {
    /// The pairs that the query string of this lookup encodes.
    pub fn query_pairs(&self) -> (r: Vec<(String, String)>)
        ensures
            pairs_view(r@) == dog_query_pairs(*self),
    {
        let mut r: Vec<(String, String)> = Vec::new();
        let ghost mut want: Seq<(Seq<char>, Seq<u8>)> = Seq::empty();
        if let Some(id) = &self.id {
            r.push((String::from_str("id"), id.clone()));
            proof {
                want = want + text_pair("id"@, id@);
            }
        }
        assert(pairs_view(r@) =~= want);
        if let Some(ids) = &self.id_in {
            let v = join_ids(ids);
            let ghost w = v@;
            r.push((String::from_str("id_in"), v));
            proof {
                assert(pairs_view(r@) =~= want + text_pair("id_in"@, w));
                want = want + text_pair("id_in"@, w);
            }
        }
        assert(pairs_view(r@) =~= want);
        if let Some(o) = &self.owner_id {
            r.push((String::from_str("owner_id"), o.clone()));
            proof {
                assert(pairs_view(r@) =~= want + text_pair("owner_id"@, o@));
                want = want + text_pair("owner_id"@, o@);
            }
        }
        assert(pairs_view(r@) =~= want);
        if let Some(p) = &self.pagination {
            let page = int_text(p.page);
            let size = int_text(p.size);
            let ghost pv = page@;
            let ghost sv = size@;
            r.push((String::from_str("page"), page));
            r.push((String::from_str("size"), size));
            proof {
                let extra = seq![("page"@, signed_decimal(p.page as int)), ("size"@, signed_decimal(p.size as int))];
                assert(pairs_view(r@) =~= want + extra);
                want = want + extra;
            }
        }
        proof {
            assert(pairs_view(r@) =~= want);
            assert(want =~= dog_query_pairs(*self));
        }
        r
    }
}

} // verus!
