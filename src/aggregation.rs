use vstd::multiset::Multiset;
use vstd::prelude::*;

use crate::entities::{is_composite, Dog, DogQuery, UpstreamWalkRequest, WalkRequest};
use crate::error::{Error, INTERNAL_SERVER_ERROR};
use crate::service::Service;

verus! {

pub open spec fn ids_view(ids: Seq<String>) -> Seq<Seq<char>> {
    ids.map_values(|s: String| s@)
}

/// The ids of the dogs, in order.
pub open spec fn dog_ids(dogs: Seq<Dog>) -> Seq<Seq<char>> {
    dogs.map_values(|d: Dog| d.id@)
}

/// `dogs` are the dogs of `ids`: their ids are the ids, counted with
/// repetition, in any order.
pub open spec fn resolves(ids: Seq<Seq<char>>, dogs: Seq<Dog>) -> bool {
    dog_ids(dogs).to_multiset() == ids.to_multiset()
}

/// The cause of the error for dogs that do not match a record's dog ids.
pub open spec fn unresolved_cause() -> Seq<char> {
    "dogs do not match the dog ids"@
}

/// The dogs that a lookup found for `ids`, or the error that ends the join:
/// the lookup's own, or a 500 when the dogs do not match the ids.
pub open spec fn join_outcome(ids: Seq<Seq<char>>, lookup: Result<Vec<Dog>, Error>, r: Result<Seq<Dog>, Error>) -> bool {
    match lookup {
        Err(e) => r == Err::<Seq<Dog>, Error>(e),
        Ok(dogs) => if resolves(ids, dogs@) {
            r == Ok::<Seq<Dog>, Error>(dogs@)
        } else {
            (r matches Err(e) && e.status_code == INTERNAL_SERVER_ERROR && e.cause@ == unresolved_cause())
        },
    }
}

/// Whether the lookup for `ids` ends the join.
pub open spec fn fails(ids: Seq<Seq<char>>, lookup: Result<Vec<Dog>, Error>) -> bool {
    match lookup {
        Err(_) => true,
        Ok(dogs) => !resolves(ids, dogs@),
    }
}

pub open spec fn composite_result<G>(r: Result<WalkRequest<G>, Error>) -> Result<Seq<Dog>, Error> {
    match r {
        Ok(w) => Ok(w.dogs@),
        Err(e) => Err(e),
    }
}

/// A prefix of a sequence holds an element no more often than the sequence.
proof fn lemma_prefix_count(s: Seq<Seq<char>>, k: int, x: Seq<char>)
    requires
        0 <= k <= s.len(),
    ensures
        s.subrange(0, k).to_multiset().count(x) <= s.to_multiset().count(x),
    decreases s.len() - k,
{
    broadcast use vstd::seq_lib::group_to_multiset_ensures;

    if k == s.len() {
        assert(s.subrange(0, k) =~= s);
    } else {
        assert(s.subrange(0, k + 1) =~= s.subrange(0, k).push(s[k]));
        lemma_prefix_count(s, k + 1, x);
    }
}

/// The position of the first id equal to `id`, if any.
fn find_id(pool: &Vec<String>, id: &String) -> (r: Option<usize>)
    ensures
        match r {
            Some(j) => j < pool.len() && pool@[j as int]@ == id@,
            None => !ids_view(pool@).contains(id@),
        },
{
    for j in 0..pool.len()
        invariant
            forall|k: int| 0 <= k < j ==> pool@[k]@ != id@,
    {
        if pool[j] == *id {
            return Some(j);
        }
    }
    proof {
        if ids_view(pool@).contains(id@) {
            let k = choose|k: int| 0 <= k < ids_view(pool@).len() && ids_view(pool@)[k] == id@;
            assert(pool@[k]@ == id@);
        }
    }
    None
}

/// Whether the dogs match the ids, counted with repetition.
pub fn check_resolves(ids: &Vec<String>, dogs: &Vec<Dog>) -> (r: bool)
    ensures
        r == resolves(ids_view(ids@), dogs@),
{
    broadcast use vstd::seq_lib::group_to_multiset_ensures;

    let ghost iv = ids_view(ids@);
    let ghost dm = dog_ids(dogs@).to_multiset();
    let mut pool: Vec<String> = Vec::new();
    for j in 0..dogs.len()
        invariant
            ids_view(pool@) == dog_ids(dogs@).subrange(0, j as int),
    {
        let id = dogs[j].id.clone();
        let ghost idv = id@;
        assert(idv == dog_ids(dogs@)[j as int]);
        let ghost old_pool = pool@;
        pool.push(id);
        proof {
            assert(pool@ == old_pool.push(id));
            assert(ids_view(pool@) =~= ids_view(old_pool).push(idv));
            assert(dog_ids(dogs@).subrange(0, j + 1) =~= dog_ids(dogs@).subrange(0, j as int).push(
                idv,
            ));
            assert(ids_view(pool@) =~= dog_ids(dogs@).subrange(0, j + 1));
        }
    }
    proof {
        assert(dog_ids(dogs@).subrange(0, dogs.len() as int) =~= dog_ids(dogs@));
        assert(iv.subrange(0, 0) =~= Seq::<Seq<char>>::empty());
        assert(iv.subrange(0, 0).to_multiset().add(ids_view(pool@).to_multiset()) =~= dm);
    }
    for i in 0..ids.len()
        invariant
            iv == ids_view(ids@),
            dm == dog_ids(dogs@).to_multiset(),
            iv.subrange(0, i as int).to_multiset().add(ids_view(pool@).to_multiset()) == dm,
    {
        let ghost before = pool@;
        let ghost x = iv[i as int];
        assert(ids@[i as int]@ == x);
        assert(iv.subrange(0, i + 1) =~= iv.subrange(0, i as int).push(x));
        match find_id(&pool, &ids[i]) {
            None => {
                proof {
                    vstd::seq_lib::to_multiset_contains(ids_view(pool@), x);
                    vstd::seq_lib::to_multiset_build(iv.subrange(0, i as int), x);
                    assert(ids_view(pool@).to_multiset().count(x) == 0);
                    assert(iv.subrange(0, i + 1).to_multiset() == iv.subrange(
                        0,
                        i as int,
                    ).to_multiset().insert(x));
                    assert(dm.count(x) == iv.subrange(0, i as int).to_multiset().count(x));
                    lemma_prefix_count(iv, i + 1, x);
                    assert(dm.count(x) < iv.to_multiset().count(x));
                }
                return false;
            },
            Some(j) => {
                pool.remove(j);
                proof {
                    vstd::seq_lib::to_multiset_build(iv.subrange(0, i as int), x);
                    vstd::seq_lib::to_multiset_remove(ids_view(before), j as int);
                    vstd::seq_lib::to_multiset_contains(ids_view(before), x);
                    assert(ids_view(pool@) =~= ids_view(before).remove(j as int));
                    assert(ids_view(before)[j as int] == x);
                    assert(ids_view(before).to_multiset().count(x) > 0);
                    assert(iv.subrange(0, i + 1).to_multiset().add(ids_view(pool@).to_multiset())
                        =~= dm);
                }
            },
        }
    }
    proof {
        assert(iv.subrange(0, iv.len() as int) =~= iv);
        if pool.len() == 0 {
            assert(ids_view(pool@).to_multiset() =~= Multiset::<Seq<char>>::empty());
            assert(dm =~= iv.to_multiset());
        } else {
            assert(ids_view(pool@).to_multiset().len() > 0);
            assert(dm.len() > iv.to_multiset().len());
        }
    }
    pool.len() == 0
}

/// A copy of a list of ids.
pub fn copy_ids(ids: &Vec<String>) -> (r: Vec<String>)
    ensures
        r@ == ids@,
{
    let mut r: Vec<String> = Vec::new();
    for i in 0..ids.len()
        invariant
            r@ == ids@.subrange(0, i as int),
    {
        r.push(ids[i].clone());
        proof {
            assert(r@ =~= ids@.subrange(0, i + 1));
        }
    }
    proof {
        assert(ids@.subrange(0, ids@.len() as int) =~= ids@);
    }
    r
}

/// `r` is the outcome of joining the records with their lookups: the first
/// record, in order, whose lookup ends the join gives the error; when none
/// does, each record in order becomes its composite.
pub open spec fn nearby_outcome<G>(
    results: Seq<(UpstreamWalkRequest<G>, Result<Vec<Dog>, Error>)>,
    r: Result<Vec<WalkRequest<G>>, Error>,
) -> bool {
    &&& (forall|i: int| 0 <= i < results.len() ==> !fails(ids_view(#[trigger] results[i].0.dog_ids@), results[i].1))
        ==> (r matches Ok(ws) && ws.len() == results.len() && forall|i: int|
        0 <= i < results.len() ==> is_composite(
            #[trigger] ws@[i],
            results[i].0,
            results[i].1->Ok_0@,
        ))
    &&& forall|k: int|
        #![trigger results[k]]
        0 <= k < results.len() && fails(ids_view(results[k].0.dog_ids@), results[k].1) && (forall|i: int|
            0 <= i < k ==> !fails(ids_view(#[trigger] results[i].0.dog_ids@), results[i].1))
            ==> match r {
            Ok(_) => false,
            Err(e) => join_outcome(ids_view(results[k].0.dog_ids@), results[k].1, Err(e)),
        }
}

impl Service {
    /// The dog lookup for one walk request: the dogs whose id is among its ids.
    pub fn dog_query<G>(&self, r: &UpstreamWalkRequest<G>) -> (q: DogQuery)
        ensures
            q.id is None,
            q.owner_id is None,
            q.pagination is None,
            q.id_in matches Some(ids) && ids@ == r.dog_ids@,
    {
        DogQuery { id: None, id_in: Some(copy_ids(&r.dog_ids)), owner_id: None, pagination: None }
    }

    /// Replaces a walk request's dog ids by the dogs its lookup found. A
    /// failed lookup gives its error; dogs that do not match the ids give 500.
    pub fn fill_dogs<G>(&self, record: UpstreamWalkRequest<G>, lookup: Result<Vec<Dog>, Error>) -> (r:
        Result<WalkRequest<G>, Error>)
        ensures
            join_outcome(ids_view(record.dog_ids@), lookup, composite_result(r)),
            r matches Ok(w) ==> is_composite(w, record, w.dogs@),
    {
        match lookup {
            Err(e) => Err(e),
            Ok(dogs) => {
                if check_resolves(&record.dog_ids, &dogs) {
                    Ok(WalkRequest::compose(record, dogs))
                } else {
                    Err(Error::new(INTERNAL_SERVER_ERROR, String::from_str("dogs do not match the dog ids")))
                }
            },
        }
    }

    /// Joins the walk requests of a primary query, each with the outcome of
    /// its dog lookup, in the primary order. The first record whose lookup
    /// fails ends the whole join with that error: no partial list comes back.
    pub fn nearby_requests<G>(
        &self,
        results: Vec<(UpstreamWalkRequest<G>, Result<Vec<Dog>, Error>)>,
    ) -> (r: Result<Vec<WalkRequest<G>>, Error>)
        ensures
            nearby_outcome(results@, r),
    {
        let ghost all = results@;
        let mut out: Vec<WalkRequest<G>> = Vec::new();
        for pair in it: results.into_iter()
            invariant
                it.seq() == all,
                out.len() == it.index(),
                forall|i: int| 0 <= i < it.index() ==> !fails(ids_view(#[trigger] all[i].0.dog_ids@), all[i].1),
                forall|i: int|
                    0 <= i < it.index() ==> is_composite(#[trigger] out@[i], all[i].0, all[i].1->Ok_0@),
        {
            let ghost k = it.index() as int;
            let (record, lookup) = pair;
            let ghost rec = record;
            let ghost lk = lookup;
            match self.fill_dogs(record, lookup) {
                Ok(w) => {
                    out.push(w);
                    proof {
                        assert(!fails(ids_view(all[k].0.dog_ids@), all[k].1));
                    }
                },
                Err(e) => {
                    proof {
                        assert(fails(ids_view(all[k].0.dog_ids@), all[k].1));
                        assert forall|j: int|
                            #![trigger all[j]]
                            0 <= j < all.len() && fails(ids_view(all[j].0.dog_ids@), all[j].1) && (forall|i: int|
                                0 <= i < j ==> !fails(ids_view(#[trigger] all[i].0.dog_ids@), all[i].1))
                                implies join_outcome(ids_view(all[j].0.dog_ids@), all[j].1, Err(e)) by {
                            if j < k {
                            } else if j > k {
                                assert(!fails(ids_view(all[k].0.dog_ids@), all[k].1));
                            }
                        }
                    }
                    return Err(e);
                },
            }
        }
        Ok(out)
    }

}

/// The composites keep the primary order: when no lookup fails, the i-th
/// composite is the i-th record, with exactly the dogs of its ids.
pub proof fn lemma_join_keeps_order<G>(
    results: Seq<(UpstreamWalkRequest<G>, Result<Vec<Dog>, Error>)>,
    r: Result<Vec<WalkRequest<G>>, Error>,
    i: int,
)
    requires
        nearby_outcome(results, r),
        forall|j: int|
            0 <= j < results.len() ==> !fails(ids_view(#[trigger] results[j].0.dog_ids@), results[j].1),
        0 <= i < results.len(),
    ensures
        r matches Ok(ws) && ws.len() == results.len() && ws@[i].id == results[i].0.id
            && resolves(ids_view(results[i].0.dog_ids@), ws@[i].dogs@),
{
    let ws = r->Ok_0;
    assert(is_composite(ws@[i], results[i].0, results[i].1->Ok_0@));
    assert(!fails(ids_view(results[i].0.dog_ids@), results[i].1));
}

/// One failed lookup fails the whole join with its own error, even when the
/// lookups before it succeeded: no list comes back.
pub proof fn lemma_failed_lookup_fails_join<G>(
    results: Seq<(UpstreamWalkRequest<G>, Result<Vec<Dog>, Error>)>,
    r: Result<Vec<WalkRequest<G>>, Error>,
    k: int,
    e: Error,
)
    requires
        nearby_outcome(results, r),
        0 <= k < results.len(),
        results[k].1 == Err::<Vec<Dog>, Error>(e),
        forall|i: int|
            0 <= i < k ==> !fails(ids_view(#[trigger] results[i].0.dog_ids@), results[i].1),
    ensures
        r == Err::<Vec<WalkRequest<G>>, Error>(e),
{
    assert(fails(ids_view(results[k].0.dog_ids@), results[k].1));
}

} // verus!
