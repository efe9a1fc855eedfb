//! The record store: the managed records, the generation of a fresh random
//! record, and the whole-sequence operations the controller dispatches to.
//! The persistent file itself is read and written by the unverified shell
//! around the library, which hands the parsed records in and takes the
//! updated sequence back out; every mutation here rewrites the whole
//! sequence, never a part of it.

use vstd::prelude::*;
use crate::error::AppError;

verus! {

/// Exclusive upper bound of a generated record id.
pub const ID_BOUND: usize = 999999;

/// Length, in characters, of a generated record name.
pub const NAME_LEN: usize = 10;

/// Inclusive lower bound of a generated age.
pub const AGE_MIN: usize = 1;

/// Exclusive upper bound of a generated age.
pub const AGE_MAX: usize = 15;

/// One managed record. Identity is `id`, but uniqueness of ids is
/// deliberately not enforced: random generation may collide, and that is
/// accepted behaviour rather than silently repaired. `created_at` carries
/// the creation moment as RFC 3339 timestamp text.
#[derive(Debug, PartialEq, Eq)]
pub struct Pet {
    pub id: usize,
    pub name: String,
    pub category: String,
    pub age: usize,
    pub created_at: String,
}

impl Clone for Pet {
    /// A field-for-field copy: the store hands out copies of its records,
    /// never views into them.
    fn clone(&self) -> (r: Self)
        ensures
            r == *self,
    {
        Pet {
            id: self.id,
            name: self.name.clone(),
            category: self.category.clone(),
            age: self.age,
            created_at: self.created_at.clone(),
        }
    }
}

/// One of the 62 characters a generated name is drawn from.
pub open spec fn is_alphanumeric_char(c: char) -> bool {
    ('a' <= c && c <= 'z') || ('A' <= c && c <= 'Z') || ('0' <= c && c <= '9')
}

/// What holds of every freshly generated record: a bounded id, a name of
/// exactly `NAME_LEN` alphanumeric characters, one of the two fixed
/// categories, and an age in `[AGE_MIN, AGE_MAX)`.
pub open spec fn is_generated_pet(p: Pet) -> bool {
    &&& p.id < ID_BOUND
    &&& p.name@.len() == NAME_LEN
    &&& forall|i: int| 0 <= i < p.name@.len() ==> is_alphanumeric_char(#[trigger] p.name@[i])
    &&& (p.category@ == "cats"@ || p.category@ == "dogs"@)
    &&& AGE_MIN <= p.age < AGE_MAX
}

/// Relies on rand::thread_rng: obtains the thread-local random generator.
/// The value is opaque; all that is stated of randomness is stated where a
/// number is drawn from it.
#[verifier::external_body]
pub(crate) fn new_thread_rng() -> rand::rngs::ThreadRng {
    rand::thread_rng()
}

#[verifier::external_type_specification]
#[verifier::external_body]
pub struct ExThreadRng(rand::rngs::ThreadRng);

/// Relies on rand::Rng::gen_range over the half-open range `lo..hi`: the
/// result lies in `[lo, hi)`. The call panics on an empty range, which the
/// precondition rules out; nothing more is promised of a random draw.
#[verifier::external_body]
pub(crate) fn gen_range_usize(rng: &mut rand::rngs::ThreadRng, lo: usize, hi: usize) -> (r: usize)
    requires
        lo < hi,
    ensures
        lo <= r < hi,
{
    rand::Rng::gen_range(rng, lo..hi)
}

/// Relies on rand's Alphanumeric distribution through
/// DistString::sample_string: the result is exactly `len` characters, each
/// drawn from a-z, A-Z, 0-9.
#[verifier::external_body]
pub(crate) fn sample_alphanumeric(rng: &mut rand::rngs::ThreadRng, len: usize) -> (r: String)
    ensures
        r@.len() == len,
        forall|i: int| 0 <= i < r@.len() ==> is_alphanumeric_char(#[trigger] r@[i]),
{
    rand::distributions::DistString::sample_string(&rand::distributions::Alphanumeric, rng, len)
}

/// Relies on chrono's Utc::now and DateTime::to_rfc3339: the moment of the
/// call rendered as RFC 3339 text. The result depends on the clock, so
/// nothing is promised of its value.
#[verifier::external_body]
pub(crate) fn now_rfc3339() -> String {
    chrono::Utc::now().to_rfc3339()
}

/// Build one freshly generated record: a random id below `ID_BOUND`, a
/// random alphanumeric name of `NAME_LEN` characters, a category drawn
/// from the fixed two, a random age in `[AGE_MIN, AGE_MAX)`, and the
/// current time.
fn generate_random_pet() -> (p: Pet)
    ensures
        is_generated_pet(p),
{
    let mut rng = new_thread_rng();
    let category = if gen_range_usize(&mut rng, 0, 2) == 0 {
        String::from_str("cats")
    } else {
        String::from_str("dogs")
    };
    Pet {
        id: gen_range_usize(&mut rng, 0, ID_BOUND),
        name: sample_alphanumeric(&mut rng, NAME_LEN),
        category,
        age: gen_range_usize(&mut rng, AGE_MIN, AGE_MAX),
        created_at: now_rfc3339(),
    }
}

/// The whole record collection, in insertion order: the store's in-memory
/// image of the persistent file. There is no cache and no partial write:
/// readers get a copy of the whole sequence, and every mutation replaces
/// the whole sequence.
pub struct Store {
    records: Vec<Pet>,
}

impl View for Store {
    type V = Seq<Pet>;

    closed spec fn view(&self) -> Seq<Pet> {
        self.records@
    }
}

impl Store {
    /// An empty store.
    pub fn new() -> (s: Store)
        ensures
            s@ == Seq::<Pet>::empty(),
    {
        Store { records: Vec::new() }
    }

    /// A store holding exactly the given records, as parsed from the
    /// persistent file by the shell around the library.
    pub fn from_records(records: Vec<Pet>) -> (s: Store)
        ensures
            s@ == records@,
    {
        Store { records }
    }

    /// How many records the store holds.
    pub fn len(&self) -> (n: usize)
        ensures
            n == self@.len(),
    {
        self.records.len()
    }

    /// Read the whole collection: a copy of every record, in insertion
    /// order.
    pub fn read_db(&self) -> (r: Vec<Pet>)
        ensures
            r@ == self@,
    {
        let mut out: Vec<Pet> = Vec::new();
        let mut i: usize = 0;
        while i < self.records.len()
            invariant
                i <= self.records.len(),
                out@ == self.records@.take(i as int),
            decreases self.records.len() - i,
        {
            out.push(self.records[i].clone());
            proof {
                assert(out@ =~= self.records@.take(i as int + 1));
            }
            i += 1;
        }
        proof {
            assert(out@ =~= self@);
        }
        out
    }

    /// Append one freshly generated random record and hand back the updated
    /// collection: one longer, the existing records untouched, the new one
    /// at the end.
    pub fn add_random_pet_to_db(&mut self) -> (r: Vec<Pet>)
        ensures
            final(self)@.len() == old(self)@.len() + 1,
            forall|i: int| 0 <= i < old(self)@.len() ==> final(self)@[i] == old(self)@[i],
            is_generated_pet(final(self)@.last()),
            r@ == final(self)@,
    {
        let pet = generate_random_pet();
        self.records.push(pet);
        self.read_db()
    }

    /// Remove the record at `index`, keeping every other record in its
    /// relative order. An out-of-bounds position is rejected up front and
    /// leaves the store untouched.
    pub fn remove_pet_at_index(&mut self, index: usize) -> (r: Result<(), AppError>)
        ensures
            index < old(self)@.len() ==> r is Ok && final(self)@ == old(self)@.remove(index as int),
            index >= old(self)@.len() ==> r == Err::<(), AppError>(AppError::Index) && final(self)@
                == old(self)@,
    {
        if index < self.records.len() {
            self.records.remove(index);
            Ok(())
        } else {
            Err(AppError::Index)
        }
    }
}

} // verus!
