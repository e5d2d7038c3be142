//! The enumeration codec: wire bytes to named values and back, total over all
//! bytes.

use vstd::prelude::*;

verus! {

/// A protocol enumeration: a finite set of named values, each with its own
/// wire code.
pub trait MachineEnumerable: Sized + Copy {
    /// The wire code of a value.
    spec fn code(self) -> u8;

    /// The value whose wire code is `code`, if the enumeration names one.
    spec fn of_code(code: u8) -> Option<Self>;

    /// A value found for a code carries that code.
    proof fn lemma_of_code_sound(code: u8)
        ensures
            Self::of_code(code) matches Some(v) ==> v.code() == code,
    ;

    /// Every value is found again by its code.
    proof fn lemma_of_code_complete(v: Self)
        ensures
            Self::of_code(v.code()) == Some(v),
    ;

    /// The wire code of `self`.
    fn to_code(&self) -> (code: u8)
        ensures
            code == self.code(),
    ;

    /// The value whose wire code is `code`, if the enumeration names one.
    fn from_code(code: u8) -> (v: Option<Self>)
        ensures
            v == Self::of_code(code),
    ;
}

/// A decoded enumeration field: a named value of `T`, or the raw byte where
/// `T` names none for it.
#[derive(Clone, Copy, Debug, PartialEq, Eq, Hash)]
pub enum MachineEnum<T> {
    Value(T),
    Unknown(u8),
}

impl<T: MachineEnumerable> MachineEnum<T> {
    /// What a wire byte decodes to.
    pub open spec fn decode_spec(code: u8) -> Self {
        match T::of_code(code) {
            Some(v) => MachineEnum::Value(v),
            None => MachineEnum::Unknown(code),
        }
    }

    /// The wire byte of a decoded field.
    pub open spec fn encode_spec(self) -> u8 {
        match self {
            MachineEnum::Value(v) => v.code(),
            MachineEnum::Unknown(code) => code,
        }
    }

    /// True of the fields that decoding can produce: a raw byte is carried
    /// only where `T` has no name for it.
    pub open spec fn canonical(self) -> bool {
        match self {
            MachineEnum::Value(_) => true,
            MachineEnum::Unknown(code) => T::of_code(code).is_none(),
        }
    }

    /// Decodes a wire byte. Never fails: a byte without a name is carried as
    /// `Unknown`.
    pub fn decode(code: u8) -> (field: Self)
        ensures
            field == Self::decode_spec(code),
            field.encode_spec() == code,
    {
        proof {
            T::lemma_of_code_sound(code);
        }
        match T::from_code(code) {
            Some(v) => MachineEnum::Value(v),
            None => MachineEnum::Unknown(code),
        }
    }

    /// The wire byte of this field.
    pub fn encode(&self) -> (code: u8)
        ensures
            code == self.encode_spec(),
    {
        match self {
            MachineEnum::Value(v) => v.to_code(),
            MachineEnum::Unknown(code) => *code,
        }
    }

    /// Whether this field holds the named value `v`.
    pub fn is_value(&self, v: &T) -> (same: bool)
        ensures
            same == (*self == MachineEnum::Value(*v)),
    {
        match self {
            MachineEnum::Value(held) => {
                proof {
                    T::lemma_of_code_complete(*held);
                    T::lemma_of_code_complete(*v);
                }
                held.to_code() == v.to_code()
            },
            MachineEnum::Unknown(_) => false,
        }
    }

    /// Encoding what a byte decoded to gives the byte back, whether or not
    /// the enumeration names it.
    pub proof fn lemma_encode_decode(code: u8)
        ensures
            Self::decode_spec(code).encode_spec() == code,
    {
        T::lemma_of_code_sound(code);
    }

    /// Decoding what a field encoded to gives the field back, for every field
    /// that decoding can produce.
    pub proof fn lemma_decode_encode(field: Self)
        requires
            field.canonical(),
        ensures
            Self::decode_spec(field.encode_spec()) == field,
    {
        match field {
            MachineEnum::Value(v) => {
                T::lemma_of_code_complete(v);
            },
            MachineEnum::Unknown(_) => {},
        }
    }

    /// Whatever decoding produces is canonical.
    pub proof fn lemma_decode_canonical(code: u8)
        ensures
            Self::decode_spec(code).canonical(),
    {
    }
}

/// The named values of `T` with a wire code below `limit`, in increasing
/// order of their codes.
pub open spec fn values_below<T: MachineEnumerable>(limit: int) -> Seq<T>
    decreases limit,
{
    if limit <= 0 {
        Seq::empty()
    } else {
        let rest = values_below::<T>(limit - 1);
        match T::of_code((limit - 1) as u8) {
            Some(v) => rest.push(v),
            None => rest,
        }
    }
}

/// Every named value of `T`, in increasing order of wire code.
pub open spec fn all_values<T: MachineEnumerable>() -> Seq<T> {
    values_below::<T>(256)
}

/// `enum_iterator::all::<u8>()`, collected into a vector: every byte value
/// once, in increasing order from 0 to 255.
#[verifier::external_body]
fn all_bytes() -> (bytes: Vec<u8>)
    ensures
        bytes@.len() == 256,
        forall|i: int| 0 <= i < 256 ==> bytes@[i] == i,
{
    enum_iterator::all::<u8>().collect()
}

/// Lists every named value of `T`, in increasing order of wire code.
pub fn enumerate<T: MachineEnumerable>() -> (values: Vec<T>)
    ensures
        values@ == all_values::<T>(),
{
    let bytes = all_bytes();
    let mut values: Vec<T> = Vec::new();
    let mut n: usize = 0;
    while n < bytes.len()
        invariant
            n <= bytes@.len(),
            bytes@.len() == 256,
            forall|i: int| 0 <= i < 256 ==> bytes@[i] == i,
            values@ == values_below::<T>(n as int),
        decreases bytes.len() - n,
    {
        match T::from_code(bytes[n]) {
            Some(v) => {
                values.push(v);
            },
            None => {},
        }
        n = n + 1;
    }
    values
}

/// A value belongs to `values_below(limit)` exactly when its code is below
/// `limit`.
pub proof fn lemma_values_below_contains<T: MachineEnumerable>(limit: int, v: T)
    requires
        0 <= limit <= 256,
    ensures
        values_below::<T>(limit).contains(v) <==> v.code() < limit,
    decreases limit,
{
    if limit > 0 {
        let rest = values_below::<T>(limit - 1);
        lemma_values_below_contains::<T>(limit - 1, v);
        T::lemma_of_code_sound((limit - 1) as u8);
        T::lemma_of_code_complete(v);
        match T::of_code((limit - 1) as u8) {
            Some(w) => {
                let all = rest.push(w);
                if v == w {
                    assert(all[rest.len() as int] == v);
                } else if all.contains(v) {
                    let i = choose|i: int| 0 <= i < all.len() && all[i] == v;
                    assert(rest[i] == v);
                } else if rest.contains(v) {
                    let i = choose|i: int| 0 <= i < rest.len() && rest[i] == v;
                    assert(all[i] == v);
                }
            },
            None => {},
        }
    }
}

/// Every value of `T` is listed by `all_values`.
pub proof fn lemma_all_values_complete<T: MachineEnumerable>(v: T)
    ensures
        all_values::<T>().contains(v),
{
    lemma_values_below_contains::<T>(256, v);
}

/// The codes in `values_below(limit)` increase strictly along the sequence
/// and stay below `limit`.
pub proof fn lemma_values_below_increasing<T: MachineEnumerable>(limit: int)
    requires
        0 <= limit <= 256,
    ensures
        forall|i: int|
            0 <= i < values_below::<T>(limit).len() ==> (#[trigger] values_below::<T>(
                limit,
            )[i]).code() < limit,
        forall|i: int, j: int|
            0 <= i < j < values_below::<T>(limit).len() ==> (#[trigger] values_below::<T>(
                limit,
            )[i]).code() < (#[trigger] values_below::<T>(limit)[j]).code(),
    decreases limit,
{
    if limit > 0 {
        lemma_values_below_increasing::<T>(limit - 1);
        T::lemma_of_code_sound((limit - 1) as u8);
        let rest = values_below::<T>(limit - 1);
        let cur = values_below::<T>(limit);
        assert forall|i: int| 0 <= i < cur.len() implies (#[trigger] cur[i]).code() < limit by {
            if i < rest.len() {
                assert(cur[i] == rest[i]);
            }
        }
        assert forall|i: int, j: int| 0 <= i < j < cur.len() implies (#[trigger] cur[i]).code() < (
        #[trigger] cur[j]).code() by {
            assert(cur[i] == rest[i]);
            if j < rest.len() {
                assert(cur[j] == rest[j]);
            }
        }
    }
}

/// `all_values` lists no value twice: its codes increase strictly.
pub proof fn lemma_all_values_increasing<T: MachineEnumerable>()
    ensures
        forall|i: int, j: int|
            0 <= i < j < all_values::<T>().len() ==> (#[trigger] all_values::<T>()[i]).code() < (
            #[trigger] all_values::<T>()[j]).code(),
{
    lemma_values_below_increasing::<T>(256);
}

} // verus!
