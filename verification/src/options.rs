//! The engine's option store: typed values under hierarchical dotted names.
//!
//! Each key holds one typed value. Setting a key marshals its name (a name
//! embedding the terminator byte is rejected) and stores the value; getting a
//! key back with the same type reproduces the value, while a missing key and a
//! key of another type are reported as two distinct conditions — succeeding
//! with an empty value, failing because nothing is stored, and failing because
//! the stored value has another type are three different outcomes.
//!
//! Floating-point option values are carried as their raw bit patterns
//! (`u64`); the host layer owns the floats themselves and converts at the
//! boundary.

use vstd::prelude::*;

use crate::bytes::bytes_clone;
use crate::bytes::copy_vec;
use crate::kvstore::kv_find;
use crate::kvstore::kv_lookup;
use crate::kvstore::kv_set;
use crate::text::contains_nul;

verus! {

/// One typed option value.
pub enum OptionValue {
    /// A boolean.
    Bool(bool),
    /// An integer.
    Int(i32),
    /// A floating-point value, as its raw bit pattern.
    DoubleBits(u64),
    /// A text value, as bytes.
    Text(Vec<u8>),
    /// An integer array.
    IntArray(Vec<i32>),
    /// A floating-point array, element-wise as raw bit patterns.
    DoubleArrayBits(Vec<u64>),
}

/// How an option access can fail.
#[derive(Clone, Copy, Debug, PartialEq, Eq, Structural)]
pub enum OptionError {
    /// The key embeds the terminator byte and cannot cross the boundary.
    EmbeddedTerminator,
    /// No value is stored under the key.
    NotFound,
    /// The stored value has another type than the accessor asks for.
    TypeMismatch,
}


/// What reading a key back as a boolean yields, over the store model.
pub open spec fn get_bool_spec(o: Options, key: Seq<u8>) -> Result<bool, OptionError> {
    match o.opt(key) {
        Option::None => Err(OptionError::NotFound),
        Option::Some(OptionValue::Bool(b)) => Ok(b),
        Option::Some(_) => Err(OptionError::TypeMismatch),
    }
}

/// What reading a key back as an integer yields, over the store model.
pub open spec fn get_int_spec(o: Options, key: Seq<u8>) -> Result<i32, OptionError> {
    match o.opt(key) {
        Option::None => Err(OptionError::NotFound),
        Option::Some(OptionValue::Int(v)) => Ok(v),
        Option::Some(_) => Err(OptionError::TypeMismatch),
    }
}

/// What reading a key back as a floating-point bit pattern yields.
pub open spec fn get_double_bits_spec(o: Options, key: Seq<u8>) -> Result<u64, OptionError> {
    match o.opt(key) {
        Option::None => Err(OptionError::NotFound),
        Option::Some(OptionValue::DoubleBits(v)) => Ok(v),
        Option::Some(_) => Err(OptionError::TypeMismatch),
    }
}

/// What reading a key back as text yields, over the store model.
pub open spec fn get_string_spec(o: Options, key: Seq<u8>) -> Result<Seq<u8>, OptionError> {
    match o.opt(key) {
        Option::None => Err(OptionError::NotFound),
        Option::Some(OptionValue::Text(v)) => Ok(v@),
        Option::Some(_) => Err(OptionError::TypeMismatch),
    }
}

/// What reading a key back as an integer array yields.
pub open spec fn get_int_array_spec(o: Options, key: Seq<u8>) -> Result<Seq<i32>, OptionError> {
    match o.opt(key) {
        Option::None => Err(OptionError::NotFound),
        Option::Some(OptionValue::IntArray(v)) => Ok(v@),
        Option::Some(_) => Err(OptionError::TypeMismatch),
    }
}

/// What reading a key back as a floating-point bit-pattern array yields.
pub open spec fn get_double_array_bits_spec(o: Options, key: Seq<u8>) -> Result<
    Seq<u64>,
    OptionError,
> {
    match o.opt(key) {
        Option::None => Err(OptionError::NotFound),
        Option::Some(OptionValue::DoubleArrayBits(v)) => Ok(v@),
        Option::Some(_) => Err(OptionError::TypeMismatch),
    }
}

/// The option store of one engine instance.
pub struct Options {
    entries: Vec<(Vec<u8>, OptionValue)>,
}

impl Options {
    /// The value stored under a key, if any.
    pub closed spec fn opt(&self, key: Seq<u8>) -> Option<OptionValue> {
        kv_lookup(self.entries@, key)
    }

    /// An empty store: every key is unset.
    pub fn new() -> (r: Options)
        ensures
            forall|k: Seq<u8>| r.opt(k) is None,
    {
        Options { entries: Vec::new() }
    }

    /// Finds the index of the latest entry holding the key.
    fn find(&self, key: &[u8]) -> (r: Option<usize>)
        ensures
            match r {
                Some(i) => {
                    &&& i < self.entries@.len()
                    &&& self.entries@[i as int].0@ == key@
                    &&& forall|j: int|
                        i < j < self.entries@.len() ==> self.entries@[j].0@ != key@
                    &&& self.opt(key@) == Some(self.entries@[i as int].1)
                },
                None => self.opt(key@) is None,
            },
    {
        kv_find(&self.entries, key)
    }

    /// Stores a value under a key: the key is marshaled (an embedded
    /// terminator is rejected before anything changes) and the value replaces
    /// whatever the key held, of any type; all other keys keep their values.
    pub fn set_value(&mut self, key: &[u8], value: OptionValue) -> (r: Result<
        (),
        OptionError,
    >)
        ensures
            match r {
                Ok(()) => {
                    &&& !contains_nul(key@)
                    &&& final(self).opt(key@) == Some(value)
                    &&& forall|k2: Seq<u8>| k2 != key@ ==> final(self).opt(k2) == old(self).opt(k2)
                },
                Err(e) => {
                    &&& e == OptionError::EmbeddedTerminator
                    &&& contains_nul(key@)
                    &&& *final(self) == *old(self)
                },
            },
    {
        if let Err(_) = crate::text::to_foreign(key) {
            return Err(OptionError::EmbeddedTerminator);
        }
        kv_set(&mut self.entries, key, value);
        Ok(())
    }

    /// Stores a boolean under the key.
    pub fn set_bool(&mut self, key: &[u8], value: bool) -> (r: Result<(), OptionError>)
        ensures
            match r {
                Ok(()) => !contains_nul(key@) && final(self).opt(key@) == Some(
                    OptionValue::Bool(value),
                ) && forall|k2: Seq<u8>|
                    k2 != key@ ==> final(self).opt(k2) == old(self).opt(k2),
                Err(e) => e == OptionError::EmbeddedTerminator && contains_nul(key@) && *final(self)
                    == *old(self),
            },
    {
        self.set_value(key, OptionValue::Bool(value))
    }

    /// Stores an integer under the key.
    pub fn set_int(&mut self, key: &[u8], value: i32) -> (r: Result<(), OptionError>)
        ensures
            match r {
                Ok(()) => !contains_nul(key@) && final(self).opt(key@) == Some(
                    OptionValue::Int(value),
                ) && forall|k2: Seq<u8>|
                    k2 != key@ ==> final(self).opt(k2) == old(self).opt(k2),
                Err(e) => e == OptionError::EmbeddedTerminator && contains_nul(key@) && *final(self)
                    == *old(self),
            },
    {
        self.set_value(key, OptionValue::Int(value))
    }

    /// Stores a floating-point value, given as its raw bit pattern.
    pub fn set_double_bits(&mut self, key: &[u8], bits: u64) -> (r: Result<(), OptionError>)
        ensures
            match r {
                Ok(()) => !contains_nul(key@) && final(self).opt(key@) == Some(
                    OptionValue::DoubleBits(bits),
                ) && forall|k2: Seq<u8>|
                    k2 != key@ ==> final(self).opt(k2) == old(self).opt(k2),
                Err(e) => e == OptionError::EmbeddedTerminator && contains_nul(key@) && *final(self)
                    == *old(self),
            },
    {
        self.set_value(key, OptionValue::DoubleBits(bits))
    }

    /// Stores a text value under the key.
    pub fn set_string(&mut self, key: &[u8], value: &[u8]) -> (r: Result<(), OptionError>)
        ensures
            match r {
                Ok(()) => !contains_nul(key@) && (exists|t: Vec<u8>|
                    final(self).opt(key@) == Some(OptionValue::Text(t)) && t@ == value@) && forall|
                    k2: Seq<u8>,
                |
                    k2 != key@ ==> final(self).opt(k2) == old(self).opt(k2),
                Err(e) => e == OptionError::EmbeddedTerminator && contains_nul(key@) && *final(self)
                    == *old(self),
            },
    {
        let owned = bytes_clone(value);
        let ghost t = owned;
        let r = self.set_value(key, OptionValue::Text(owned));
        proof {
            if r is Ok {
                assert(final(self).opt(key@) == Some(OptionValue::Text(t)) && t@ == value@);
            }
        }
        r
    }

    /// Stores an integer array under the key.
    pub fn set_int_array(&mut self, key: &[u8], values: Vec<i32>) -> (r: Result<(), OptionError>)
        ensures
            match r {
                Ok(()) => !contains_nul(key@) && final(self).opt(key@) == Some(
                    OptionValue::IntArray(values),
                ) && forall|k2: Seq<u8>|
                    k2 != key@ ==> final(self).opt(k2) == old(self).opt(k2),
                Err(e) => e == OptionError::EmbeddedTerminator && contains_nul(key@) && *final(self)
                    == *old(self),
            },
    {
        self.set_value(key, OptionValue::IntArray(values))
    }

    /// Stores a floating-point array, element-wise as raw bit patterns.
    pub fn set_double_array_bits(&mut self, key: &[u8], bits: Vec<u64>) -> (r: Result<
        (),
        OptionError,
    >)
        ensures
            match r {
                Ok(()) => !contains_nul(key@) && final(self).opt(key@) == Some(
                    OptionValue::DoubleArrayBits(bits),
                ) && forall|k2: Seq<u8>|
                    k2 != key@ ==> final(self).opt(k2) == old(self).opt(k2),
                Err(e) => e == OptionError::EmbeddedTerminator && contains_nul(key@) && *final(self)
                    == *old(self),
            },
    {
        self.set_value(key, OptionValue::DoubleArrayBits(bits))
    }

    /// Reads the key back as a boolean: the stored boolean, `NotFound` for an
    /// unset key, `TypeMismatch` when the key holds another type.
    pub fn get_bool(&self, key: &[u8]) -> (r: Result<bool, OptionError>)
        ensures
            r == get_bool_spec(*self, key@),
    {
        match self.find(key) {
            None => Err(OptionError::NotFound),
            Some(i) => match &self.entries[i].1 {
                OptionValue::Bool(v) => Ok(*v),
                _ => Err(OptionError::TypeMismatch),
            },
        }
    }

    /// Reads the key back as an integer.
    pub fn get_int(&self, key: &[u8]) -> (r: Result<i32, OptionError>)
        ensures
            r == get_int_spec(*self, key@),
    {
        match self.find(key) {
            None => Err(OptionError::NotFound),
            Some(i) => match &self.entries[i].1 {
                OptionValue::Int(v) => Ok(*v),
                _ => Err(OptionError::TypeMismatch),
            },
        }
    }

    /// Reads the key back as a floating-point bit pattern.
    pub fn get_double_bits(&self, key: &[u8]) -> (r: Result<u64, OptionError>)
        ensures
            r == get_double_bits_spec(*self, key@),
    {
        match self.find(key) {
            None => Err(OptionError::NotFound),
            Some(i) => match &self.entries[i].1 {
                OptionValue::DoubleBits(v) => Ok(*v),
                _ => Err(OptionError::TypeMismatch),
            },
        }
    }

    /// Reads the key back as text: a fresh copy of the stored bytes; the
    /// store keeps its own buffer.
    pub fn get_string(&self, key: &[u8]) -> (r: Result<Vec<u8>, OptionError>)
        ensures
            match r {
                Ok(v) => get_string_spec(*self, key@) == Ok::<Seq<u8>, OptionError>(v@),
                Err(e) => get_string_spec(*self, key@) == Err::<Seq<u8>, OptionError>(e),
            },
    {
        match self.find(key) {
            None => Err(OptionError::NotFound),
            Some(i) => match &self.entries[i].1 {
                OptionValue::Text(v) => Ok(bytes_clone(v.as_slice())),
                _ => Err(OptionError::TypeMismatch),
            },
        }
    }

    /// Reads the key back as an integer array, copied into a host-owned
    /// vector.
    pub fn get_int_array(&self, key: &[u8]) -> (r: Result<Vec<i32>, OptionError>)
        ensures
            match r {
                Ok(v) => get_int_array_spec(*self, key@) == Ok::<Seq<i32>, OptionError>(v@),
                Err(e) => get_int_array_spec(*self, key@) == Err::<Seq<i32>, OptionError>(e),
            },
    {
        match self.find(key) {
            None => Err(OptionError::NotFound),
            Some(i) => match &self.entries[i].1 {
                OptionValue::IntArray(v) => Ok(copy_vec(v)),
                _ => Err(OptionError::TypeMismatch),
            },
        }
    }

    /// Reads the key back as a floating-point array of raw bit patterns.
    pub fn get_double_array_bits(&self, key: &[u8]) -> (r: Result<Vec<u64>, OptionError>)
        ensures
            match r {
                Ok(v) => get_double_array_bits_spec(*self, key@) == Ok::<Seq<u64>, OptionError>(
                    v@,
                ),
                Err(e) => get_double_array_bits_spec(*self, key@) == Err::<Seq<u64>, OptionError>(
                    e,
                ),
            },
    {
        match self.find(key) {
            None => Err(OptionError::NotFound),
            Some(i) => match &self.entries[i].1 {
                OptionValue::DoubleArrayBits(v) => Ok(copy_vec(v)),
                _ => Err(OptionError::TypeMismatch),
            },
        }
    }
}

/// Decimal digits of a non-negative integer, most significant first.
pub open spec fn dec_rep(n: nat) -> Seq<u8>
    decreases n,
{
    if n < 10 {
        seq![(48 + n) as u8]
    } else {
        dec_rep(n / 10) + seq![(48 + n % 10) as u8]
    }
}

/// Decimal text of an integer, with a leading minus sign when negative.
pub open spec fn int_rep(v: int) -> Seq<u8> {
    if v < 0 {
        seq![45u8] + dec_rep((-v) as nat)
    } else {
        dec_rep(v as nat)
    }
}

/// Comma-separated decimal text of an integer array.
pub open spec fn int_array_rep(a: Seq<i32>) -> Seq<u8>
    decreases a.len(),
{
    if a.len() == 0 {
        Seq::empty()
    } else if a.len() == 1 {
        int_rep(a[0] as int)
    } else {
        int_array_rep(a.drop_last()) + seq![44u8] + int_rep(a.last() as int)
    }
}

/// The canonical text of a stored value; floating-point values have none
/// here, their rendering belongs to the host layer that owns the floats.
pub open spec fn repr_spec(v: OptionValue) -> Option<Seq<u8>> {
    match v {
        OptionValue::Bool(b) => Some(
            if b {
                seq![116u8, 114u8, 117u8, 101u8]
            } else {
                seq![102u8, 97u8, 108u8, 115u8, 101u8]
            },
        ),
        OptionValue::Int(i) => Some(int_rep(i as int)),
        OptionValue::Text(t) => Some(t@),
        OptionValue::IntArray(a) => Some(int_array_rep(a@)),
        OptionValue::DoubleBits(_) => None,
        OptionValue::DoubleArrayBits(_) => None,
    }
}

/// Appends the decimal digits of a non-negative integer.
fn push_dec(n: u64, out: &mut Vec<u8>)
    ensures
        final(out)@ == old(out)@ + dec_rep(n as nat),
    decreases n,
{
    if n < 10 {
        out.push(48 + n as u8);
        proof {
            assert(out@ =~= old(out)@ + dec_rep(n as nat));
        }
    } else {
        push_dec(n / 10, out);
        out.push(48 + (n % 10) as u8);
        proof {
            assert(out@ =~= old(out)@ + dec_rep(n as nat));
        }
    }
}

/// Appends the decimal text of an integer, minus sign included.
fn push_int(v: i32, out: &mut Vec<u8>)
    ensures
        final(out)@ == old(out)@ + int_rep(v as int),
{
    if v >= 0 {
        push_dec(v as u64, out);
    } else {
        out.push(45);
        let m: u64 = (-(v as i64)) as u64;
        proof {
            assert(m as nat == (-(v as int)) as nat);
        }
        let ghost mid = out@;
        push_dec(m, out);
        proof {
            assert(out@ =~= old(out)@ + int_rep(v as int));
        }
    }
}

impl Options {
    /// Renders the value under a key as text: booleans as `true`/`false`,
    /// integers in decimal, text as itself, integer arrays comma-separated.
    /// An unset key is `NotFound`; a value this model cannot render (the
    /// floating-point kinds, whose text belongs to the host layer) is a
    /// `TypeMismatch`.
    pub fn get_string_representation(&self, key: &[u8]) -> (r: Result<Vec<u8>, OptionError>)
        ensures
            match r {
                Ok(v) => self.opt(key@) is Some && repr_spec(self.opt(key@).unwrap()) == Some(v@),
                Err(OptionError::NotFound) => self.opt(key@) is None,
                Err(OptionError::TypeMismatch) => self.opt(key@) is Some && repr_spec(
                    self.opt(key@).unwrap(),
                ) is None,
                Err(OptionError::EmbeddedTerminator) => false,
            },
    {
        let i = match self.find(key) {
            None => {
                return Err(OptionError::NotFound);
            },
            Some(i) => i,
        };
        let mut out: Vec<u8> = Vec::new();
        match &self.entries[i].1 {
            OptionValue::Bool(b) => {
                if *b {
                    out.push(116);
                    out.push(114);
                    out.push(117);
                    out.push(101);
                } else {
                    out.push(102);
                    out.push(97);
                    out.push(108);
                    out.push(115);
                    out.push(101);
                }
                proof {
                    assert(out@ =~= repr_spec(self.opt(key@).unwrap()).unwrap());
                }
                Ok(out)
            },
            OptionValue::Int(v) => {
                push_int(*v, &mut out);
                proof {
                    assert(out@ =~= repr_spec(self.opt(key@).unwrap()).unwrap());
                }
                Ok(out)
            },
            OptionValue::Text(t) => Ok(bytes_clone(t.as_slice())),
            OptionValue::IntArray(a) => {
                let mut j: usize = 0;
                while j < a.len()
                    invariant
                        j <= a@.len(),
                        out@ == int_array_rep(a@.take(j as int)),
                    decreases a@.len() - j,
                {
                    let ghost pre = a@.take(j as int);
                    if j > 0 {
                        out.push(44);
                    }
                    push_int(a[j], &mut out);
                    proof {
                        let cur = a@.take(j + 1 as int);
                        assert(cur.drop_last() =~= pre);
                        assert(cur.last() == a@[j as int]);
                        if j == 0 {
                            assert(out@ =~= int_array_rep(cur));
                        } else {
                            assert(out@ =~= int_array_rep(cur));
                        }
                    }
                    j += 1;
                }
                proof {
                    assert(a@.take(a@.len() as int) =~= a@);
                }
                Ok(out)
            },
            OptionValue::DoubleBits(_) => Err(OptionError::TypeMismatch),
            OptionValue::DoubleArrayBits(_) => Err(OptionError::TypeMismatch),
        }
    }
}


/// Round trip of the boolean option type: a store holding `v` under the key —
/// what a successful set leaves behind — reads the key back as exactly
/// `Ok(v)`.
pub proof fn lemma_bool_round_trip(o: Options, key: Seq<u8>, v: bool)
    requires
        o.opt(key) == Some(OptionValue::Bool(v)),
    ensures
        get_bool_spec(o, key) == Ok::<bool, OptionError>(v),
{
}

/// Round trip of the integer option type.
pub proof fn lemma_int_round_trip(o: Options, key: Seq<u8>, v: i32)
    requires
        o.opt(key) == Some(OptionValue::Int(v)),
    ensures
        get_int_spec(o, key) == Ok::<i32, OptionError>(v),
{
}

/// Round trip of the floating-point option type, over bit patterns.
pub proof fn lemma_double_bits_round_trip(o: Options, key: Seq<u8>, bits: u64)
    requires
        o.opt(key) == Some(OptionValue::DoubleBits(bits)),
    ensures
        get_double_bits_spec(o, key) == Ok::<u64, OptionError>(bits),
{
}

/// Round trip of the text option type.
pub proof fn lemma_string_round_trip(o: Options, key: Seq<u8>, v: Vec<u8>)
    requires
        o.opt(key) == Some(OptionValue::Text(v)),
    ensures
        get_string_spec(o, key) == Ok::<Seq<u8>, OptionError>(v@),
{
}

/// Round trip of the integer array option type.
pub proof fn lemma_int_array_round_trip(o: Options, key: Seq<u8>, v: Vec<i32>)
    requires
        o.opt(key) == Some(OptionValue::IntArray(v)),
    ensures
        get_int_array_spec(o, key) == Ok::<Seq<i32>, OptionError>(v@),
{
}

/// Round trip of the floating-point array option type, over bit patterns.
pub proof fn lemma_double_array_bits_round_trip(o: Options, key: Seq<u8>, v: Vec<u64>)
    requires
        o.opt(key) == Some(OptionValue::DoubleArrayBits(v)),
    ensures
        get_double_array_bits_spec(o, key) == Ok::<Seq<u64>, OptionError>(v@),
{
}

/// The declared type coercion rule: a key holding one type legitimately
/// rejects a read as another type with a type mismatch — distinct from the
/// not-found condition of an unset key.
pub proof fn lemma_type_mismatch_is_reported(o: Options, key: Seq<u8>, bits: u64)
    requires
        o.opt(key) == Some(OptionValue::DoubleBits(bits)),
    ensures
        get_int_spec(o, key) == Err::<i32, OptionError>(OptionError::TypeMismatch),
{
}

} // verus!
