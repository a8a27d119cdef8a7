use vstd::prelude::*;

use crate::entities::{DogCreate, DogCreateIncome, DogPortraitUpdate, DogQuery, UpdateDogPortraitReq};
use crate::error::{Error, BAD_REQUEST, FORBIDDEN};
use crate::headers::{first_value, is_text, name_key, Headers};
use crate::pass_through::{RequestBodyProcessor, ResponseProcessor};
use crate::restful::extract_user_id;
use vstd::utf8::encode_utf8;

verus! {

/// The gateway's composite operations and the decisions between backend calls.
#[derive(Debug)]
pub struct Service {}

impl Service {
    pub fn new() -> Service {
        Service {}
    }

    pub fn no_op_processor(&self) -> (r: ResponseProcessor)
        ensures
            r == ResponseProcessor::Identity,
    {
        ResponseProcessor::Identity
    }

    pub fn no_op_request_body_processor(&self) -> (r: RequestBodyProcessor)
        ensures
            r == RequestBodyProcessor::Identity,
    {
        RequestBodyProcessor::Identity
    }

    pub fn create_dog_request_body_processor(&self) -> (r: RequestBodyProcessor)
        ensures
            r == RequestBodyProcessor::CreateDog,
    {
        RequestBodyProcessor::CreateDog
    }

    pub fn fill_dogs_processor(&self) -> (r: ResponseProcessor)
        ensures
            r == ResponseProcessor::FillDogs,
    {
        ResponseProcessor::FillDogs
    }

    /// Goes on only when a check came back true: false is refused with
    /// `refusal`, and a check that failed keeps its own error.
    pub fn guard(&self, outcome: Result<bool, Error>, refusal: Error) -> (r: Result<(), Error>)
        ensures
            guarded(outcome, refusal, r),
    {
        match outcome {
            Ok(true) => Ok(()),
            Ok(false) => Err(refusal),
            Err(e) => Err(e),
        }
    }

    /// The check that the caller owns the dog before it is changed (403 otherwise).
    pub fn check_owner(&self, outcome: Result<bool, Error>) -> (r: Result<(), Error>)
        ensures
            refused_with(outcome, r, FORBIDDEN, "no permission"@),
    {
        self.guard(outcome, Error::new(FORBIDDEN, String::from_str("no permission")))
    }

    /// The dog lookup that tells whether `owner_id` owns `dog_id`.
    pub fn ownership_query(&self, owner_id: &str, dog_id: &str) -> (q: DogQuery)
        ensures
            q.id matches Some(i) && i@ == dog_id@,
            q.owner_id matches Some(o) && o@ == owner_id@,
            q.id_in is None,
            q.pagination is None,
    {
        DogQuery {
            id: Some(dog_id.to_owned()),
            id_in: None,
            owner_id: Some(owner_id.to_owned()),
            pagination: None,
        }
    }

    /// The change of a dog, issued only once its ownership check has passed.
    pub fn update_dog(&self, dog_id: String, body: Vec<u8>, is_owner: Result<bool, Error>) -> (r:
        Result<DogCall, Error>)
        ensures
            refused_with(is_owner, unit_result(r), FORBIDDEN, "no permission"@),
            r matches Ok(c) ==> c == (DogCall::Update { dog_id, body }),
    {
        match self.check_owner(is_owner) {
            Ok(()) => Ok(DogCall::Update { dog_id, body }),
            Err(e) => Err(e),
        }
    }

    /// The change of a dog's portrait, issued only once its ownership check has passed.
    pub fn update_dog_portrait(
        &self,
        dog_id: String,
        req: UpdateDogPortraitReq,
        is_owner: Result<bool, Error>,
    ) -> (r: Result<DogCall, Error>)
        ensures
            refused_with(is_owner, unit_result(r), FORBIDDEN, "no permission"@),
            r matches Ok(c) ==> c == (DogCall::Portrait {
                dog_id,
                update: DogPortraitUpdate { portrait_id: req.portrait_id },
            }),
    {
        match self.check_owner(is_owner) {
            Ok(()) => Ok(
                DogCall::Portrait {
                    dog_id,
                    update: DogPortraitUpdate { portrait_id: req.portrait_id },
                },
            ),
            Err(e) => Err(e),
        }
    }

    /// A new dog for the dog service: the decoded submission, owned by the
    /// caller. A body that did not decode is 400 with the decoder's message;
    /// a caller without identity is 401.
    pub fn create_dog<B>(&self, income: Result<DogCreateIncome<B>, String>, headers: &Headers) -> (r:
        Result<DogCreate<B>, Error>)
        ensures
            match income {
                Err(m) => (r matches Err(e) && e.status_code == BAD_REQUEST && e.cause == m),
                Ok(i) => match first_value(headers.view(), name_key("x-user-id"@)) {
                    Some(v) => if is_text(v) {
                        (r matches Ok(d) && encode_utf8(d.owner_id@) == v && d.name == i.name
                            && d.gender == i.gender && d.breed == i.breed && d.birthday == i.birthday
                            && d.tags == i.tags && d.portrait_id == i.portrait_id)
                    } else {
                        (r matches Err(e) && e.status_code == crate::error::UNAUTHORIZED)
                    },
                    None => (r matches Err(e) && e.status_code == crate::error::UNAUTHORIZED
                        && e.cause@ == "no user id"@),
                },
            },
    {
        match income {
            Err(m) => Err(Error::new(BAD_REQUEST, m)),
            Ok(i) => match extract_user_id(headers) {
                Err(e) => Err(e),
                Ok(owner_id) => Ok(
                    DogCreate {
                        owner_id,
                        name: i.name,
                        gender: i.gender,
                        breed: i.breed,
                        birthday: i.birthday,
                        tags: i.tags,
                        portrait_id: i.portrait_id,
                    },
                ),
            },
        }
    }
}

/// A change of a dog, to be made by the dog service.
#[derive(Debug)]
pub enum DogCall {
    Update { dog_id: String, body: Vec<u8> },
    Portrait { dog_id: String, update: DogPortraitUpdate },
}

pub open spec fn unit_result<T>(r: Result<T, Error>) -> Result<(), Error> {
    match r {
        Ok(_) => Ok(()),
        Err(e) => Err(e),
    }
}

pub open spec fn guarded(outcome: Result<bool, Error>, refusal: Error, r: Result<(), Error>) -> bool {
    match outcome {
        Ok(true) => r == Ok::<(), Error>(()),
        Ok(false) => r == Err::<(), Error>(refusal),
        Err(e) => r == Err::<(), Error>(e),
    }
}

/// A check's outcome let through, or refused with `status` and `cause`.
pub open spec fn refused_with(outcome: Result<bool, Error>, r: Result<(), Error>, status: u16, cause: Seq<char>) -> bool {
    match outcome {
        Ok(true) => r == Ok::<(), Error>(()),
        Ok(false) => (r matches Err(e) && e.status_code == status && e.cause@ == cause),
        Err(e) => r == Err::<(), Error>(e),
    }
}

/// A change of a dog by a caller who does not own it is refused with 403,
/// and no call to change the dog comes out.
pub proof fn lemma_non_owner_never_updates(r: Result<DogCall, Error>)
    requires
        refused_with(Ok(false), unit_result(r), FORBIDDEN, "no permission"@),
    ensures
        r matches Err(e) && e.status_code == FORBIDDEN,
{
}

} // verus!
