//! Bound values of one execution, in bind-marker order.

use vstd::prelude::*;

verus! {

/// Most values one request can carry: the protocol counts them in an `i16`.
pub const MAX_VALUE_COUNT: usize = 32767;

/// Longest value: the protocol prefixes each with an `i32` length.
pub const MAX_VALUE_LEN: usize = 2147483647;

/// Why a value could not be added.
#[derive(Debug, Clone, Copy, PartialEq, Eq, Structural)]
pub enum SerializeValuesError {
    TooManyValues,
    ValueTooBig,
}

/// An ordered sequence of optional byte strings; `None` is a null value.
#[derive(Debug)]
pub struct SerializedValues {
    values: Vec<Option<Vec<u8>>>,
}

/// The model of one stored value.
pub open spec fn value_view(v: Option<Vec<u8>>) -> Option<Seq<u8>> {
    match v {
        Some(b) => Some(b@),
        None => None,
    }
}

impl View for SerializedValues {
    type V = Seq<Option<Seq<u8>>>;

    closed spec fn view(&self) -> Seq<Option<Seq<u8>>> {
        self.values@.map_values(|v: Option<Vec<u8>>| value_view(v))
    }
}

/// Limits that every value sequence obeys.
pub open spec fn values_within_limits(vals: Seq<Option<Seq<u8>>>) -> bool {
    &&& vals.len() <= MAX_VALUE_COUNT
    &&& forall|i: int| 0 <= i < vals.len() && #[trigger] vals[i] is Some
        ==> vals[i]->0.len() <= MAX_VALUE_LEN
}

/// A fresh vector holding the bytes of `b`.
fn copy_bytes(b: &[u8]) -> (r: Vec<u8>)
    ensures
        r@ == b@,
{
    let mut r: Vec<u8> = Vec::with_capacity(b.len());
    let mut i: usize = 0;
    while i < b.len()
        invariant
            i <= b@.len(),
            r@ == b@.subrange(0, i as int),
        decreases b@.len() - i,
    {
        r.push(b[i]);
        i += 1;
        assert(r@ =~= b@.subrange(0, i as int));
    }
    assert(b@.subrange(0, b@.len() as int) =~= b@);
    r
}

impl SerializedValues {
    #[verifier::type_invariant]
    closed spec fn inv(&self) -> bool {
        values_within_limits(self@)
    }

    /// An empty sequence.
    pub fn new() -> (r: Self)
        ensures
            r@ == Seq::<Option<Seq<u8>>>::empty(),
    {
        let values: Vec<Option<Vec<u8>>> = Vec::new();
        assert(values@.map_values(|v: Option<Vec<u8>>| value_view(v)) =~= Seq::<
            Option<Seq<u8>>,
        >::empty());
        SerializedValues { values }
    }

    /// Appends a value, or a null for `None`. Fails, leaving the sequence as it
    /// was, when it is full or the value is longer than one request allows.
    pub fn add_value(&mut self, v: Option<&[u8]>) -> (r: Result<(), SerializeValuesError>)
        ensures
            old(self)@.len() >= MAX_VALUE_COUNT ==> r == Err::<(), _>(
                SerializeValuesError::TooManyValues,
            ),
            old(self)@.len() < MAX_VALUE_COUNT && v is Some && v->0@.len() > MAX_VALUE_LEN
                ==> r == Err::<(), _>(SerializeValuesError::ValueTooBig),
            r is Ok <==> (old(self)@.len() < MAX_VALUE_COUNT && (v is Some
                ==> v->0@.len() <= MAX_VALUE_LEN)),
            r is Ok ==> final(self)@ == old(self)@.push(
                match v {
                    Some(b) => Some(b@),
                    None => None,
                },
            ),
            r is Err ==> final(self)@ == old(self)@,
    {
        proof {
            use_type_invariant(&*self);
        }
        if self.values.len() >= MAX_VALUE_COUNT {
            return Err(SerializeValuesError::TooManyValues);
        }
        let stored: Option<Vec<u8>> = match v {
            Some(b) => {
                if b.len() > MAX_VALUE_LEN {
                    return Err(SerializeValuesError::ValueTooBig);
                }
                Some(copy_bytes(b))
            },
            None => None,
        };
        let mut taken = SerializedValues::new();
        std::mem::swap(self, &mut taken);
        proof {
            use_type_invariant(&taken);
        }
        let mut values = taken.values;
        values.push(stored);
        assert(values@.map_values(|v: Option<Vec<u8>>| value_view(v)) =~= old(self)@.push(
            value_view(stored),
        ));
        *self = SerializedValues { values };
        Ok(())
    }

    /// The number of values.
    pub fn len(&self) -> (r: i16)
        ensures
            r as int == self@.len(),
            values_within_limits(self@),
    {
        proof {
            use_type_invariant(self);
        }
        self.values.len() as i16
    }

    /// The value at position `i`: `None` past the end, `Some(None)` for a null.
    pub fn get(&self, i: usize) -> (r: Option<Option<&[u8]>>)
        ensures
            i >= self@.len() ==> r is None,
            i < self@.len() ==> r is Some && match self@[i as int] {
                Some(b) => r->0 is Some && r->0->0@ == b,
                None => r->0 is None,
            },
    {
        if i >= self.values.len() {
            return None;
        }
        match &self.values[i] {
            Some(b) => Some(Some(b.as_slice())),
            None => Some(None),
        }
    }
}

} // verus!
