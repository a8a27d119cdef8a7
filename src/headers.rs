use vstd::prelude::*;
use vstd::utf8::*;

verus! {

/// ASCII letters fold to lower case; every other byte stays.
pub open spec fn lower_byte(b: u8) -> u8 {
    if 65 <= b <= 90 {
        (b + 32) as u8
    } else {
        b
    }
}

/// A header name with its ASCII letters folded to lower case.
pub open spec fn lower(name: Seq<u8>) -> Seq<u8> {
    name.map_values(|b: u8| lower_byte(b))
}

/// The key under which a header name is filed: the lower-cased bytes of its text.
pub open spec fn name_key(name: Seq<char>) -> Seq<u8> {
    lower(encode_utf8(name))
}

/// The values filed under `key`, in the order in which they were added.
pub open spec fn values_of(entries: Seq<(Seq<u8>, Seq<u8>)>, key: Seq<u8>) -> Seq<Seq<u8>>
    decreases entries.len(),
{
    if entries.len() == 0 {
        Seq::empty()
    } else {
        let rest = values_of(entries.drop_last(), key);
        if entries.last().0 == key {
            rest.push(entries.last().1)
        } else {
            rest
        }
    }
}

/// The first value filed under `key`, if any.
pub open spec fn first_value(entries: Seq<(Seq<u8>, Seq<u8>)>, key: Seq<u8>) -> Option<Seq<u8>> {
    let vs = values_of(entries, key);
    if vs.len() == 0 {
        None
    } else {
        Some(vs[0])
    }
}

/// A byte that may stand in a header value: visible ASCII, a space, a tab,
/// or any byte above 127 (the rule of `http::HeaderValue::from_bytes`).
pub open spec fn is_value_byte(b: u8) -> bool {
    (b >= 32 && b != 127) || b == 9
}

/// A byte of a header value that reads as text: visible ASCII, a space or a
/// tab (the rule of `http::HeaderValue::to_str`).
pub open spec fn is_text_byte(b: u8) -> bool {
    (b >= 32 && b < 127) || b == 9
}

pub open spec fn is_value(v: Seq<u8>) -> bool {
    forall|i: int| 0 <= i < v.len() ==> is_value_byte(#[trigger] v[i])
}

pub open spec fn is_text(v: Seq<u8>) -> bool {
    forall|i: int| 0 <= i < v.len() ==> is_text_byte(#[trigger] v[i])
}

pub fn lower_bytes(name: &str) -> (r: Vec<u8>)
    ensures
        r@ == name_key(name@),
{
    let raw = name.as_bytes_vec();
    let mut r: Vec<u8> = Vec::new();
    for i in 0..raw.len()
        invariant
            raw@ == encode_utf8(name@),
            r@ == lower(raw@.subrange(0, i as int)),
    {
        let b = raw[i];
        let l: u8 = if 65 <= b && b <= 90 {
            b + 32
        } else {
            b
        };
        r.push(l);
        proof {
            assert(lower(raw@.subrange(0, i + 1)) =~= lower(raw@.subrange(0, i as int)).push(l));
        }
    }
    proof {
        assert(raw@.subrange(0, raw@.len() as int) =~= raw@);
    }
    r
}

pub fn check_value(v: &Vec<u8>) -> (r: bool)
    ensures
        r == is_value(v@),
{
    for i in 0..v.len()
        invariant
            forall|j: int| 0 <= j < i ==> is_value_byte(#[trigger] v@[j]),
    {
        if !((v[i] >= 32 && v[i] != 127) || v[i] == 9) {
            return false;
        }
    }
    true
}

pub fn check_text(v: &Vec<u8>) -> (r: bool)
    ensures
        r == is_text(v@),
{
    for i in 0..v.len()
        invariant
            forall|j: int| 0 <= j < i ==> is_text_byte(#[trigger] v@[j]),
    {
        if !((v[i] >= 32 && v[i] < 127) || v[i] == 9) {
            return false;
        }
    }
    true
}

/// Text bytes are ASCII, so they are valid UTF-8.
pub proof fn lemma_text_is_utf8(v: Seq<u8>)
    requires
        is_text(v),
    ensures
        valid_utf8(v),
    decreases v.len(),
{
    if v.len() > 0 {
        let b = v[0];
        assert(is_text_byte(b));
        assert((b & 0x7F) <= 0x7F) by (bit_vector);
        let rest = pop_first_scalar(v);
        assert(rest =~= v.subrange(1, v.len() as int));
        assert forall|i: int| 0 <= i < rest.len() implies is_text_byte(#[trigger] rest[i]) by {
            assert(rest[i] == v[i + 1]);
        }
        lemma_text_is_utf8(rest);
    }
}

/// Values filed under a key in a prefix of the entries come first among the
/// values filed under it in all of them.
pub proof fn lemma_values_prefix(entries: Seq<(Seq<u8>, Seq<u8>)>, n: int, key: Seq<u8>)
    requires
        0 <= n <= entries.len(),
    ensures
        values_of(entries.subrange(0, n), key).len() <= values_of(entries, key).len(),
        values_of(entries.subrange(0, n), key) =~= values_of(entries, key).subrange(
            0,
            values_of(entries.subrange(0, n), key).len() as int,
        ),
    decreases entries.len(),
{
    if n == entries.len() {
        assert(entries.subrange(0, n) =~= entries);
    } else {
        lemma_values_prefix(entries.drop_last(), n, key);
        assert(entries.drop_last().subrange(0, n) =~= entries.subrange(0, n));
    }
}

pub open spec fn entries_view(entries: Seq<(Vec<u8>, Vec<u8>)>) -> Seq<(Seq<u8>, Seq<u8>)> {
    entries.map_values(|e: (Vec<u8>, Vec<u8>)| (e.0@, e.1@))
}

/// The header multimap of a request: names, filed by their lower-cased
/// bytes, each with its value bytes, in arrival order.
#[derive(Debug)]
pub struct Headers {
    entries: Vec<(Vec<u8>, Vec<u8>)>,
}

impl Headers {
    pub closed spec fn view(&self) -> Seq<(Seq<u8>, Seq<u8>)> {
        entries_view(self.entries@)
    }

    pub fn new() -> (r: Headers)
        ensures
            r.view() == Seq::<(Seq<u8>, Seq<u8>)>::empty(),
    {
        Headers { entries: Vec::new() }
    }

    /// Adds a value under `name`, keeping the values already there.
    pub fn append(&mut self, name: &str, value: Vec<u8>)
        ensures
            final(self).view() == old(self).view().push((name_key(name@), value@)),
    {
        let key = lower_bytes(name);
        self.entries.push((key, value));
        proof {
            assert(self.view() =~= old(self).view().push((name_key(name@), value@)));
        }
    }

    /// The first value under `name`, compared without regard to ASCII case.
    pub fn get(&self, name: &str) -> (r: Option<&Vec<u8>>)
        ensures
            match r {
                Some(v) => first_value(self.view(), name_key(name@)) == Some(v@),
                None => first_value(self.view(), name_key(name@)) is None,
            },
    {
        let key = lower_bytes(name);
        let ghost all = self.view();
        let mut i: usize = 0;
        while i < self.entries.len()
            invariant
                all == self.view(),
                i <= self.entries.len(),
                key@ == name_key(name@),
                values_of(all.subrange(0, i as int), key@).len() == 0,
            decreases self.entries.len() - i,
        {
            proof {
                assert(all.subrange(0, i + 1).drop_last() =~= all.subrange(0, i as int));
            }
            if vec_eq(&self.entries[i].0, &key) {
                proof {
                    assert(all[i as int] == (self.entries@[i as int].0@, self.entries@[i as int].1@));
                    assert(all.subrange(0, i + 1).last() == all[i as int]);
                    assert(values_of(all.subrange(0, i + 1), key@) =~= seq![all[i as int].1]);
                    lemma_values_prefix(all, i + 1, key@);
                    assert(values_of(all, key@).subrange(0, 1)[0] == values_of(all, key@)[0]);
                }
                return Some(&self.entries[i].1);
            }
            i = i + 1;
        }
        proof {
            assert(all.subrange(0, i as int) =~= all);
        }
        None
    }

    /// Sets `value` as the only value under `name`: every value that was
    /// there before is dropped; other names keep theirs.
    pub fn insert(&mut self, name: &str, value: Vec<u8>)
        ensures
            values_of(final(self).view(), name_key(name@)) == seq![value@],
            forall|k: Seq<u8>|
                k != name_key(name@) ==> values_of(final(self).view(), k) == values_of(
                    old(self).view(),
                    k,
                ),
    {
        let key = lower_bytes(name);
        let ghost all = self.view();
        let mut kept: Vec<(Vec<u8>, Vec<u8>)> = Vec::new();
        let mut old_entries: Vec<(Vec<u8>, Vec<u8>)> = Vec::new();
        std::mem::swap(&mut self.entries, &mut old_entries);
        for e in it: old_entries.into_iter()
            invariant
                key@ == name_key(name@),
                all == entries_view(it.seq()),
                forall|k: Seq<u8>|
                    #![trigger values_of(entries_view(kept@), k)]
                    values_of(entries_view(kept@), k) == if k == key@ {
                        Seq::<Seq<u8>>::empty()
                    } else {
                        values_of(all.subrange(0, it.index() as int), k)
                    },
        {
            let ghost j = it.index() as int;
            let ghost before = kept@;
            assert(all[j] == (e.0@, e.1@));
            let same = vec_eq(&e.0, &key);
            if !same {
                kept.push(e);
            }
            proof {
                assert(all.subrange(0, j + 1).drop_last() =~= all.subrange(0, j));
                assert forall|k: Seq<u8>|
                    #![trigger values_of(entries_view(kept@), k)]
                    values_of(entries_view(kept@), k) == if k == key@ {
                        Seq::<Seq<u8>>::empty()
                    } else {
                        values_of(all.subrange(0, j + 1), k)
                    } by {
                    assert(all.subrange(0, j + 1).last() == all[j]);
                    assert(values_of(entries_view(before), k) == if k == key@ {
                        Seq::<Seq<u8>>::empty()
                    } else {
                        values_of(all.subrange(0, j), k)
                    });
                    if !same {
                        assert(entries_view(kept@).drop_last() =~= entries_view(before));
                        assert(entries_view(kept@).last() == all[j]);
                    } else {
                        assert(entries_view(kept@) =~= entries_view(before));
                    }
                }
            }
        }
        proof {
            assert(all.subrange(0, all.len() as int) =~= all);
        }
        let ghost before = kept@;
        let ghost v = value@;
        kept.push((key, value));
        proof {
            assert(entries_view(kept@).drop_last() =~= entries_view(before));
            assert(entries_view(kept@).last() == (key@, v));
            assert(values_of(entries_view(before), key@) =~= Seq::<Seq<u8>>::empty());
            assert(values_of(entries_view(kept@), key@) =~= seq![v]);
            assert forall|k: Seq<u8>| k != key@ implies values_of(entries_view(kept@), k)
                == values_of(all, k) by {
                assert(values_of(entries_view(before), k) == values_of(
                    all.subrange(0, all.len() as int),
                    k,
                ));
            }
        }
        self.entries = kept;
    }

    /// All entries, in arrival order, for handing to an HTTP client.
    pub fn entries(&self) -> (r: &Vec<(Vec<u8>, Vec<u8>)>)
        ensures
            entries_view(r@) == self.view(),
    {
        &self.entries
    }
}

/// Byte-for-byte equality of two buffers.
pub fn vec_eq(a: &Vec<u8>, b: &Vec<u8>) -> (r: bool)
    ensures
        r == (a@ == b@),
{
    if a.len() != b.len() {
        return false;
    }
    for i in 0..a.len()
        invariant
            a.len() == b.len(),
            forall|j: int| 0 <= j < i ==> a@[j] == b@[j],
    {
        if a[i] != b[i] {
            return false;
        }
    }
    assert(a@ =~= b@);
    true
}

} // verus!
